use server_tui::model::log::{LogBuffer, LogEntry, LogPriority};
use server_tui::model::service::{count_failed, filter_services, ServiceFilter, ServiceInfo, UnitFileState};
use server_tui::profile::{PerformanceProfile, TerminalProfile};

#[test]
fn labels_parse_back() {
    for s in [
        UnitFileState::Enabled,
        UnitFileState::EnabledRuntime,
        UnitFileState::Linked,
        UnitFileState::LinkedRuntime,
        UnitFileState::Masked,
        UnitFileState::MaskedRuntime,
        UnitFileState::Static,
        UnitFileState::Disabled,
        UnitFileState::Invalid,
        UnitFileState::Unknown,
    ] {
        assert_eq!(UnitFileState::parse(s.label()), s);
    }
    for p in [
        TerminalProfile::Auto,
        TerminalProfile::Modern,
        TerminalProfile::Tty16,
        TerminalProfile::HighContrast,
        TerminalProfile::Monochrome,
    ] {
        assert_eq!(TerminalProfile::parse_cli(p.label()), Some(p));
    }
    for p in [
        PerformanceProfile::Auto,
        PerformanceProfile::LowResource,
        PerformanceProfile::Balanced,
        PerformanceProfile::Responsive,
    ] {
        assert_eq!(PerformanceProfile::parse_cli(p.label()), Some(p));
    }
}

fn svc(unit: &str, active: &str) -> ServiceInfo {
    ServiceInfo {
        unit: unit.into(),
        description: "d".into(),
        load_state: "loaded".into(),
        active_state: active.into(),
        sub_state: "x".into(),
        unit_path: "/p".into(),
        unit_file_state: UnitFileState::Enabled,
        fragment_path: None,
    }
}

#[test]
fn empty_query_keeps_every_listing() {
    let items = vec![svc("a", "failed"), svc("b", "active"), svc("c", "FAILED")];
    assert_eq!(filter_services(&items, "", ServiceFilter::All).len(), 3);
    assert_eq!(filter_services(&items, "", ServiceFilter::Failed).len(), count_failed(&items));
    assert_eq!(count_failed(&items), 2);
    let mut b = LogBuffer::new(10);
    for (i, p) in [LogPriority::Error, LogPriority::Debug, LogPriority::Warning].into_iter().enumerate() {
        b.push(LogEntry {
            timestamp: format!("{i}"),
            unit: "u".into(),
            pid: None,
            priority: p,
            message: "m".into(),
        });
    }
    assert_eq!(b.filtered("", LogPriority::Warning).len(), 2);
    assert_eq!(b.filtered("", LogPriority::Debug).len(), 3);
}

#[test]
fn parsing_ignores_space_and_ascii_case() {
    assert_eq!(UnitFileState::parse("  ENABLED\t"), UnitFileState::Enabled);
    assert_eq!(UnitFileState::parse(" Masked-Runtime "), UnitFileState::MaskedRuntime);
    assert_eq!(TerminalProfile::parse_cli(" HC "), Some(TerminalProfile::HighContrast));
    assert_eq!(PerformanceProfile::parse_cli("\nFast"), Some(PerformanceProfile::Responsive));
    assert_eq!(TerminalProfile::parse_cli(" tty 16 "), None);
}
