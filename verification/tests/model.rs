use server_tui::error::AppError;
use server_tui::model::diagnostics::HealthStatus;
use server_tui::model::health::{SubsystemHealth, SubsystemHealthMap};
use server_tui::model::log::{LogBuffer, LogEntry, LogPreset, LogPriority};
use server_tui::model::metrics::{format_bytes, format_uptime, CircularBuffer};
use server_tui::model::process::is_protected_pid;
use server_tui::model::screen::Screen;
use server_tui::model::service::{
    filter_services, preserve_service_selection, ServiceFilter, ServiceInfo, UnitFileState,
};
use server_tui::model::unit_registry::UnitRegistry;

fn entry(ts: &str, unit: &str, priority: LogPriority, message: &str) -> LogEntry {
    LogEntry {
        timestamp: ts.into(),
        unit: unit.into(),
        pid: None,
        priority,
        message: message.into(),
    }
}

#[test]
fn update_screen_digits() {
    assert_eq!(Screen::from_digit('6'), Some(Screen::Diagnostics));
}

#[test]
fn tests_screen_digits() {
    assert_eq!(Screen::from_digit('6'), Some(Screen::Diagnostics));
}

#[test]
fn user_messages_are_english() {
    let samples = [
        AppError::Terminal("x".into()).user_message(),
        AppError::Configuration { path: "/tmp/c".into(), message: "bad".into() }.user_message(),
        AppError::Metrics("x".into()).user_message(),
        AppError::Process("x".into()).user_message(),
        AppError::Permission("x".into()).user_message(),
        AppError::Storage("x".into()).user_message(),
        AppError::Unsupported("x".into()).user_message(),
        AppError::ExternalCommand("x".into()).user_message(),
        AppError::Internal("x".into()).user_message(),
    ];
    for msg in samples {
        assert!(
            !msg.contains("Problema")
                && !msg.contains("Permiso")
                && !msg.contains("Configuración")
                && !msg.contains("Almacenamiento")
                && !msg.contains("denegado"),
            "non-English UI message: {msg}"
        );
    }
    assert!(AppError::Permission("x".into()).user_message().contains("Permission denied"));
}

#[test]
fn health_worse() {
    assert_eq!(HealthStatus::Healthy.worse(HealthStatus::Critical), HealthStatus::Critical);
    assert_eq!(HealthStatus::Critical.worse(HealthStatus::Warning), HealthStatus::Critical);
}

#[test]
fn capabilities_map() {
    let m = SubsystemHealthMap::from_capabilities(true, false);
    assert_eq!(m.systemd, SubsystemHealth::Healthy);
    assert_eq!(m.journal, SubsystemHealth::Unavailable);
}

#[test]
fn respects_capacity() {
    let mut buf = LogBuffer::new(2);
    for i in 0..5 {
        buf.push(LogEntry {
            timestamp: format!("{i}"),
            unit: "u".into(),
            pid: None,
            priority: LogPriority::Info,
            message: format!("m{i}"),
        });
    }
    assert_eq!(buf.len(), 2);
}

#[test]
fn keeps_newest_entries() {
    let mut buf = LogBuffer::new(2);
    for i in 0..5 {
        buf.push(entry(&format!("{i}"), "u", LogPriority::Info, "m"));
    }
    let ts: Vec<String> = buf.iter().map(|e| e.timestamp.clone()).collect();
    assert_eq!(ts, vec!["3", "4"]);
}

#[test]
fn filters_by_priority_and_query() {
    let mut buf = LogBuffer::new(10);
    buf.push(LogEntry {
        timestamp: "t".into(),
        unit: "nginx.service".into(),
        pid: Some(1),
        priority: LogPriority::Error,
        message: "failure".into(),
    });
    buf.push(LogEntry {
        timestamp: "t".into(),
        unit: "ssh.service".into(),
        pid: None,
        priority: LogPriority::Debug,
        message: "ok".into(),
    });
    assert_eq!(buf.filtered("", LogPriority::Error).len(), 1);
    assert_eq!(buf.filtered("nginx", LogPriority::Debug).len(), 1);
}

#[test]
fn context_around_clamps_at_edges() {
    let mut buf = LogBuffer::new(10);
    for i in 0..5 {
        buf.push(entry(&format!("{i}"), "u", LogPriority::Info, "m"));
    }
    let (before, focus, after) = buf.context_around(1, 3, 2).unwrap();
    assert_eq!(before.len(), 1);
    assert_eq!(focus.timestamp, "1");
    assert_eq!(after.iter().map(|e| e.timestamp.as_str()).collect::<Vec<_>>(), vec!["2", "3"]);
    assert!(buf.context_around(5, 1, 1).is_none());
}

#[test]
fn priorities_from_journal_numbers() {
    assert_eq!(LogPriority::from_journal(Some("3")), LogPriority::Error);
    assert_eq!(LogPriority::from_journal(Some("0")), LogPriority::Emerg);
    assert_eq!(LogPriority::from_journal(Some("7")), LogPriority::Debug);
    assert_eq!(LogPriority::from_journal(Some("x")), LogPriority::Info);
    assert_eq!(LogPriority::from_journal(None), LogPriority::Info);
}

#[test]
fn presets_cycle_both_ways() {
    let mut p = LogPreset::default();
    let start = p;
    for _ in 0..20 {
        assert_eq!(p.next().prev(), p);
        p = p.next();
    }
    let _ = start;
}

#[test]
fn circular_buffer_drops_oldest() {
    let mut buf = CircularBuffer::new(3);
    buf.push(1);
    buf.push(2);
    buf.push(3);
    buf.push(4);
    assert_eq!(buf.len(), 3);
    let v: Vec<_> = buf.iter().copied().collect();
    assert_eq!(v, vec![2, 3, 4]);
}

#[test]
fn circular_buffer_resize_keeps_newest() {
    let mut buf = CircularBuffer::new(4);
    for v in 1..=4 {
        buf.push(v);
    }
    buf.resize(2);
    assert_eq!(buf.iter().copied().collect::<Vec<_>>(), vec![3, 4]);
    buf.resize(5);
    buf.push(5);
    assert_eq!(buf.iter().copied().collect::<Vec<_>>(), vec![3, 4, 5]);
    assert_eq!(buf.capacity(), 5);
}

#[test]
fn format_bytes_scales() {
    assert_eq!(format_bytes(512), "512 B");
    assert_eq!(format_bytes(2048), "2.0 KiB");
}

#[test]
fn format_bytes_matches_float_formatting() {
    const UNITS: [&str; 6] = ["B", "KiB", "MiB", "GiB", "TiB", "PiB"];
    let reference = |bytes: u64| -> String {
        let mut value = bytes as f64;
        let mut unit = 0usize;
        while value >= 1024.0 && unit < UNITS.len() - 1 {
            value /= 1024.0;
            unit += 1;
        }
        if unit == 0 {
            format!("{bytes} {}", UNITS[unit])
        } else {
            format!("{value:.1} {}", UNITS[unit])
        }
    };
    let mut samples: Vec<u64> = vec![0, 1, 1023, 1024, 1025, 1075, 1076, 1126, 1127, 1536, 10_239];
    for k in 1..=5u32 {
        let p = 1024u64.pow(k);
        for m in [1u64, 2, 3, 5, 7, 999, 1000, 1023] {
            for d in [0u64, 1, p / 20, p / 20 + 1, p / 10, p / 4, p * 3 / 4, p / 2] {
                samples.push(m * p + d);
                if m * p > d {
                    samples.push(m * p - d);
                }
            }
        }
    }
    samples.push(u64::MAX);
    samples.push(u64::MAX - 2047);
    samples.push((1u64 << 53) + 1);
    samples.push((1u64 << 53) + 3);
    samples.push(1u64 << 52);
    samples.push((1u64 << 52) + (1u64 << 48));
    for b in samples {
        assert_eq!(format_bytes(b), reference(b), "bytes = {b}");
    }
}

#[test]
fn uptime_text() {
    assert_eq!(format_uptime(59), "0m");
    assert_eq!(format_uptime(3_660), "1h 1m");
    assert_eq!(format_uptime(90_000), "1d 1h");
}

#[test]
fn protects_special_pids() {
    assert!(is_protected_pid(0, 100));
    assert!(is_protected_pid(1, 100));
    assert!(is_protected_pid(100, 100));
    assert!(!is_protected_pid(42, 100));
}

fn services() -> Vec<ServiceInfo> {
    vec![
        ServiceInfo {
            unit: "nginx.service".into(),
            description: "Web server".into(),
            load_state: "loaded".into(),
            active_state: "active".into(),
            sub_state: "running".into(),
            unit_path: "/org/freedesktop".into(),
            unit_file_state: UnitFileState::Enabled,
            fragment_path: None,
        },
        ServiceInfo {
            unit: "broken.service".into(),
            description: "Broken thing".into(),
            load_state: "loaded".into(),
            active_state: "failed".into(),
            sub_state: "failed".into(),
            unit_path: "/org/freedesktop".into(),
            unit_file_state: UnitFileState::Disabled,
            fragment_path: None,
        },
    ]
}

#[test]
fn filters_failed() {
    let items = services();
    assert_eq!(filter_services(&items, "", ServiceFilter::Failed).len(), 1);
}

#[test]
fn preserves_unit() {
    let items = services();
    let refs: Vec<_> = items.iter().collect();
    assert_eq!(preserve_service_selection(&refs, Some("broken.service")), 1);
}

#[test]
fn parses_unit_file_state() {
    assert_eq!(UnitFileState::parse("enabled"), UnitFileState::Enabled);
    assert_eq!(UnitFileState::parse("masked-runtime"), UnitFileState::MaskedRuntime);
    assert_eq!(UnitFileState::parse("weird"), UnitFileState::Unknown);
}

#[test]
fn replace_and_lookup() {
    let mut reg = UnitRegistry::new();
    reg.replace_all(vec!["a.service".into(), "b.service".into()]);
    assert!(reg.contains("a.service"));
    assert!(!reg.contains("c.service"));
    assert_eq!(reg.len(), 2);
}

#[test]
fn registry_holds_each_name_once() {
    let mut reg = UnitRegistry::new();
    reg.replace_all(vec!["a.service".into(), "a.service".into(), "b.service".into()]);
    assert_eq!(reg.len(), 2);
    reg.replace_all(vec![]);
    assert!(reg.is_empty());
    assert!(!reg.contains("a.service"));
}
