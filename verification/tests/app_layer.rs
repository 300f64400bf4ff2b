use server_tui::app::action::{AppAction, ConfirmChoice};
use server_tui::app::event::RequestId;
use server_tui::app::menus::{finding_menu, log_menu, service_menu};
use server_tui::app::side_effect::SupportFormat;
use server_tui::app::state::SearchQueries;
use server_tui::cli::{parse_performance_profile, parse_terminal_profile, Cli, SupportFormatCli};
use server_tui::doctor::{doctor_exit_code, run_doctor, DoctorArgs, DoctorReport};
use server_tui::diagnostics::evaluator::MeasuredFindings;
use server_tui::keymap::{
    binding_to_action, find_scope_collisions, find_unreachable_under_global_first,
    global_digit_bindings, settings_bindings, Binding, BindingAction, BindingScope,
    BindingVisibility, KeyCode,
};
use server_tui::model::diagnostics::{DiagnosticSnapshot, FailedUnitSnapshot, HealthStatus};
use server_tui::model::inspect::MenuAction;
use server_tui::model::process_tree::build_process_tree;
use server_tui::model::screen::Screen;
use server_tui::model::service::{ServiceActionKind, UnitFileState};
use server_tui::profile::{PerformanceProfile, TerminalProfile};

#[test]
fn settings_digits_collide_with_global_digits() {
    let settings = settings_bindings();
    let global = global_digit_bindings();
    let unreachable = find_unreachable_under_global_first(&settings, &global);
    assert!(
        unreachable.iter().any(|l| l.contains("confirm")),
        "settings digit toggles must be detected as collisions vs global digits"
    );
}

#[test]
fn no_duplicate_keys_inside_settings_scope() {
    let collisions = find_scope_collisions(&settings_bindings());
    assert!(collisions.is_empty(), "duplicate settings bindings: {collisions:?}");
}

#[test]
fn no_duplicate_global_digits() {
    let collisions = find_scope_collisions(&global_digit_bindings());
    assert!(collisions.is_empty());
}

#[test]
fn collisions_are_reported_once_per_repeat() {
    let b = |c: char| Binding {
        scope: BindingScope::Global,
        key: KeyCode::Char(c),
        action: BindingAction::Refresh,
        label: "x",
        visibility: BindingVisibility::Hidden,
    };
    let list = vec![b('a'), b('b'), b('a'), b('a')];
    let c = find_scope_collisions(&list);
    assert_eq!(c, vec![(BindingScope::Global, KeyCode::Char('a')); 2]);
    let unreachable = find_unreachable_under_global_first(&settings_bindings(), &global_digit_bindings());
    assert_eq!(unreachable.len(), 5);
}

#[test]
fn binding_actions_map_to_app_actions() {
    assert!(matches!(
        binding_to_action(BindingAction::ChangeScreen(Screen::Logs)),
        AppAction::ChangeScreen(Screen::Logs)
    ));
    assert!(matches!(binding_to_action(BindingAction::Quit), AppAction::Quit));
    assert_eq!(global_digit_bindings().len(), 7);
}

#[test]
fn confirm_defaults_and_toggles() {
    assert_eq!(ConfirmChoice::default(), ConfirmChoice::Cancel);
    assert_eq!(ConfirmChoice::Cancel.toggle(), ConfirmChoice::Yes);
    assert_eq!(ConfirmChoice::Yes.toggle().toggle(), ConfirmChoice::Yes);
}

#[test]
fn request_ids() {
    let a = RequestId::new(4);
    assert_eq!(a.0, 4);
    assert!(a.matches(RequestId::new(4)));
    assert!(!a.matches(RequestId::new(5)));
}

#[test]
fn per_screen_search_is_independent() {
    let mut q = SearchQueries::default();
    q.get_mut(Screen::Logs).unwrap().push_str("nginx");
    q.get_mut(Screen::Processes).unwrap().push_str("bash");
    assert_eq!(q.get(Screen::Logs), "nginx");
    assert_eq!(q.get(Screen::Processes), "bash");
    assert_eq!(q.get(Screen::Services), "");
    assert!(q.get_mut(Screen::Dashboard).is_none());
    assert_eq!(q.get(Screen::Dashboard), "");
}

#[test]
fn readonly_service_menu_disables_actions() {
    let m = service_menu(true, "active", UnitFileState::Enabled);
    assert_eq!(m.len(), 11);
    for item in &m[4..10] {
        assert!(!item.enabled);
        assert_eq!(item.disabled_reason.as_deref(), Some("READ ONLY"));
    }
    assert!(m[10].enabled && matches!(m[10].action, MenuAction::Close));
}

#[test]
fn service_menu_soft_disables() {
    let m = service_menu(false, "Inactive", UnitFileState::Static);
    let by_label = |l: &str| m.iter().find(|i| i.label == l).unwrap().clone();
    assert!(by_label("Start").enabled);
    assert_eq!(
        by_label("Reload").disabled_reason.as_deref(),
        Some("unit inactive \u{2014} reload not useful")
    );
    assert_eq!(by_label("Enable").disabled_reason.as_deref(), Some("already static"));
    assert_eq!(by_label("Disable").disabled_reason.as_deref(), Some("not disableable (static)"));
    let m = service_menu(false, "active", UnitFileState::Disabled);
    assert!(m.iter().find(|i| i.label == "Enable").unwrap().enabled);
    assert!(matches!(
        m.iter().find(|i| i.label == "Restart").unwrap().action,
        MenuAction::ServiceAction(ServiceActionKind::Restart)
    ));
}

#[test]
fn log_and_finding_menus() {
    let l = log_menu();
    assert_eq!(l.len(), 6);
    assert_eq!(l[4].label, "Export context \u{b1}5 (markdown)");
    let f = finding_menu();
    assert_eq!(f.len(), 2);
    assert!(matches!(f[0].action, MenuAction::FindingExport));
}

#[test]
fn cli_decisions() {
    let cli = Cli {
        demo: false,
        read_only: false,
        wallboard: false,
        scan_path: None,
        no_color: false,
        ascii: false,
        terminal_profile: None,
        performance_profile: None,
        config: None,
        debug_log: None,
        refresh_ms: None,
        command: None,
    };
    assert!(cli.color_enabled(true, false));
    assert!(!cli.color_enabled(true, true));
    assert!(!cli.color_enabled(false, false));
    assert_eq!(parse_terminal_profile("mono"), Ok(TerminalProfile::Monochrome));
    assert_eq!(parse_terminal_profile("x").unwrap_err(), "unknown terminal profile: x");
    assert_eq!(parse_performance_profile("slow"), Ok(PerformanceProfile::LowResource));
    assert_eq!(parse_performance_profile("y").unwrap_err(), "unknown performance profile: y");
    assert_eq!(SupportFormat::from(SupportFormatCli::Json), SupportFormat::Json);
    assert_eq!(SupportFormatCli::default(), SupportFormatCli::Text);
}

#[test]
fn doctor_exit_codes() {
    assert_eq!(doctor_exit_code(HealthStatus::Healthy), 0);
    assert_eq!(doctor_exit_code(HealthStatus::Warning), 1);
    assert_eq!(doctor_exit_code(HealthStatus::Critical), 2);
    assert_eq!(doctor_exit_code(HealthStatus::Unknown), 3);
}

#[test]
fn doctor_run_reports_failed_unit() {
    let snap = DiagnosticSnapshot {
        systemd_observable: true,
        journal_observable: true,
        failed_units: vec![FailedUnitSnapshot {
            unit: "broken.service".into(),
            active_state: "failed".into(),
            sub_state: "failed".into(),
            description: "x".into(),
        }],
        ..DiagnosticSnapshot::default()
    };
    let none = || MeasuredFindings { psi: vec![], resource_pressure: vec![], temperature: vec![] };
    let args = DoctorArgs { report: true, json: false, include_sensitive: false, demo: false, read_only: true };
    let run = run_doctor(&args, &snap, none(), None);
    assert_eq!(run.health, HealthStatus::Critical);
    assert_eq!(run.exit_code, 2);
    match &run.report {
        DoctorReport::Text(t) => assert!(t.contains("svc.failed.broken.service")),
        other => panic!("unexpected {other:?}"),
    }
    let args = DoctorArgs { json: true, ..args };
    let run = run_doctor(&args, &DiagnosticSnapshot::default(), none(), None);
    assert_eq!(run.exit_code, 3);
    assert!(matches!(run.report, DoctorReport::Json(_)));
}

#[test]
fn tree_orders_children() {
    let procs: Vec<(u32, String)> = vec![(1, "init".into()), (10, "child".into())];
    let tree = build_process_tree(&procs, &[(1, None), (10, Some(1))]);
    assert_eq!(tree[0].0, 1);
    assert_eq!(tree[1].0, 10);
    assert_eq!(tree[1].2, 1);
}

#[test]
fn tree_handles_cycles_orphans_and_unknown_children() {
    let procs: Vec<(u32, String)> =
        vec![(5, "a".into()), (3, "b".into()), (7, "c".into()), (9, "d".into())];
    // 5 and 3 are each other's parent: neither is a root; 7 is a root with
    // an unlisted child 42; 9 names itself as parent and is a root.
    let details = [(5, Some(3)), (3, Some(5)), (42, Some(7)), (9, Some(9))];
    let tree = build_process_tree(&procs, &details);
    let rows: Vec<(u32, &str, usize)> = tree.iter().map(|r| (r.0, r.1.as_str(), r.2)).collect();
    assert_eq!(rows, vec![(7, "c", 0), (42, "?", 1), (9, "d", 0), (5, "a", 0), (3, "b", 0)]);
}

#[test]
fn tree_depth_is_capped() {
    let n: u32 = 100;
    let procs: Vec<(u32, String)> = (1..=n).map(|i| (i, format!("p{i}"))).collect();
    let details: Vec<(u32, Option<u32>)> =
        (1..=n).map(|i| (i, if i == 1 { None } else { Some(i - 1) })).collect();
    let tree = build_process_tree(&procs, &details);
    assert_eq!(tree.len(), 100);
    assert_eq!(tree[64].2, 64);
    assert_eq!(tree[65], (66, "p66".to_string(), 0));
}
