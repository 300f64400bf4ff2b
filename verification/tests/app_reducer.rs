use server_tui::model::inspect::{MenuAction, MenuItem};
use server_tui::app::action::{AppAction, ConfirmChoice, FocusPane};
use server_tui::app::app_state::{AppState, ToastKind};
use server_tui::app::event::{AppEvent, OperationResult, RequestId};
use server_tui::app::events::{apply_event, key_state};
use server_tui::app::guards::SignalTarget;
use server_tui::app::input::{map_key, KeyPress};
use server_tui::app::menus::process_menu;
use server_tui::app::reducer::apply_action;
use server_tui::app::side_effect::SideEffect;
use server_tui::app::state::{current_search, Dialog};
use server_tui::config::Config;
use server_tui::error::AppError;
use server_tui::glossary::{filtered_terms, terms};
use server_tui::keymap::KeyCode;
use server_tui::model::log::{LogEntry, LogPreset, LogPriority};
use server_tui::model::process::ProcessSignal;
use server_tui::model::screen::Screen;
use server_tui::model::service::ServiceActionKind;
use server_tui::persist::AppPersistState;

fn demo_state() -> AppState {
    AppState::new(Config::default(), true, false, true, "/tmp".into(), AppPersistState::new(), 4242)
}

fn row(pid: u32) -> SignalTarget {
    SignalTarget { pid, user: "u".into(), name: "x".into(), start_time: 1 }
}

fn key(c: char) -> KeyPress {
    KeyPress { code: KeyCode::Char(c), modifiers: 0 }
}

fn read_only_blocks(state: &mut AppState) {
    state.read_only = true;
    state.screen = Screen::Processes;
    state.process.rows.push(row(5));
    let fx = apply_action(state, AppAction::SignalTerm);
    assert!(fx.is_empty());
    assert!(state.status_line().contains("READ ONLY"));
}

#[test]
fn tests_read_only_blocks_signal_dialog_status() {
    read_only_blocks(&mut demo_state());
}

#[test]
fn update_read_only_blocks_signal_dialog_status() {
    read_only_blocks(&mut demo_state());
}

fn confirm_cancel(state: &mut AppState) {
    state.screen = Screen::Processes;
    state.process.rows.push(row(5));
    let _ = apply_action(state, AppAction::SignalKill);
    match &state.dialog {
        Some(Dialog::ConfirmSignal { choice, .. }) => assert_eq!(*choice, ConfirmChoice::Cancel),
        other => panic!("unexpected {other:?}"),
    }
}

#[test]
fn tests_confirm_defaults_to_cancel() {
    confirm_cancel(&mut demo_state());
}

#[test]
fn update_confirm_defaults_to_cancel() {
    confirm_cancel(&mut demo_state());
}

#[test]
fn readonly_disables_signals() {
    let m = process_menu(true, false, false);
    assert!(m.iter().any(|i| !i.enabled && i.label.contains("SIGTERM")));
}

#[test]
fn status_line_follows_toast_only() {
    let mut state = demo_state();
    assert_eq!(state.status_line(), "ready");
    state.set_toast(ToastKind::Info, "hello".into());
    assert_eq!(state.status_line(), "hello");
    state.set_toast(ToastKind::Success, "saved".into());
    assert_eq!(state.status_line(), "saved");
    state.toast = None;
    assert_eq!(state.status_line(), "ready");
}

fn dashboard_search(state: &mut AppState) {
    assert_eq!(state.screen, Screen::Dashboard);
    let ks = key_state(state);
    assert!(map_key(&ks, key('/')).is_none());
    let _ = apply_action(state, AppAction::Search);
    assert!(!state.searching);
    assert!(state.status_line().contains("no list to filter"));
}

#[test]
fn tests_search_on_dashboard_does_not_stick() {
    dashboard_search(&mut demo_state());
}

#[test]
fn update_search_on_dashboard_does_not_stick() {
    dashboard_search(&mut demo_state());
}

fn glossary_search(state: &mut AppState) {
    let _ = apply_action(state, AppAction::ToggleGlossary);
    assert!(matches!(state.dialog, Some(Dialog::Glossary)));
    let action = map_key(&key_state(state), key('/')).expect("/");
    assert!(matches!(action, AppAction::Search));
    let _ = apply_action(state, action);
    assert!(state.searching);
    for c in ['d', 'e', 'm', 'o'] {
        let _ = apply_action(state, AppAction::SearchInput(c));
    }
    assert_eq!(current_search(&state.dialog, &state.search, state.screen), "demo");
    let all = terms();
    assert!(!filtered_terms(&all, state.screen, "demo").is_empty());
    let esc = KeyPress { code: KeyCode::Esc, modifiers: 0 };
    let clear = map_key(&key_state(state), esc).expect("esc");
    let _ = apply_action(state, clear);
    assert!(!state.searching);
    assert!(state.search.glossary.is_empty());
    assert!(matches!(state.dialog, Some(Dialog::Glossary)));
}

#[test]
fn tests_glossary_search_filters_and_esc_exits() {
    glossary_search(&mut demo_state());
}

#[test]
fn update_glossary_search_filters_and_esc_exits() {
    glossary_search(&mut demo_state());
}

#[test]
fn signals_need_confirmation_and_yes() {
    let mut s = demo_state();
    s.screen = Screen::Processes;
    s.process.rows.push(row(5));
    let _ = apply_action(&mut s, AppAction::SignalKill);
    let fx = apply_action(&mut s, AppAction::Confirm);
    assert!(fx.is_empty());
    assert!(s.dialog.is_none());
    let _ = apply_action(&mut s, AppAction::SignalKill);
    let _ = apply_action(&mut s, AppAction::ConfirmFocusLeft);
    let fx = apply_action(&mut s, AppAction::Confirm);
    assert_eq!(fx.len(), 1);
    assert!(matches!(fx[0], SideEffect::SendSignal { pid: 5, signal: ProcessSignal::Kill, start_time: 1 }));
    s.process.rows.clear();
    s.process.rows.push(row(4242));
    s.process.selected_pid = None;
    let fx = apply_action(&mut s, AppAction::SignalTerm);
    assert!(fx.is_empty());
    assert!(s.status_line().contains("protected PID 4242"));
}

#[test]
fn screens_and_focus() {
    let mut s = demo_state();
    let fx = apply_action(&mut s, AppAction::ChangeScreen(Screen::Storage));
    assert_eq!(s.screen, Screen::Storage);
    assert!(matches!(fx.as_slice(), [SideEffect::StartScan { .. }]));
    let fx = apply_action(&mut s, AppAction::ChangeScreen(Screen::Logs));
    assert!(matches!(fx.as_slice(), [SideEffect::RefreshLogs { unit: None }]));
    let _ = apply_action(&mut s, AppAction::ToggleFollow);
    let fx = apply_action(&mut s, AppAction::ChangeScreen(Screen::Dashboard));
    assert!(matches!(fx.as_slice(), [SideEffect::StopFollow]));
    assert_eq!(s.focus, FocusPane::Content);
    let _ = apply_action(&mut s, AppAction::NextFocus);
    assert_eq!(s.focus, FocusPane::Details);
    let _ = apply_action(&mut s, AppAction::PrevFocus);
    assert_eq!(s.focus, FocusPane::Content);
    let _ = apply_action(&mut s, AppAction::Quit);
    assert!(s.should_quit);
}

#[test]
fn stale_results_are_dropped() {
    let mut s = demo_state();
    s.log.follow_session = Some(RequestId::new(7));
    let e = LogEntry {
        timestamp: "1".into(),
        unit: "u".into(),
        pid: None,
        priority: LogPriority::Info,
        message: "m".into(),
    };
    let fx = apply_event(&mut s, AppEvent::LogsAppended { session_id: RequestId::new(8), entries: vec![e.clone()] });
    assert!(fx.is_empty());
    assert_eq!(s.log.buffer.len(), 0);
    let _ = apply_event(&mut s, AppEvent::LogsAppended { session_id: RequestId::new(7), entries: vec![e] });
    assert_eq!(s.log.buffer.len(), 1);
    let fx = apply_event(
        &mut s,
        AppEvent::LogsRefreshFinished {
            request_id: RequestId::new(1),
            unit: None,
            preset: LogPreset::All,
            result: Ok(vec![]),
        },
    );
    assert!(fx.is_empty());
    assert_eq!(s.log.buffer.len(), 1);
}

#[test]
fn events_update_the_state() {
    let mut s = demo_state();
    let _ = apply_event(&mut s, AppEvent::ElevationRequired { unit: "a.service".into(), action: ServiceActionKind::Restart });
    assert!(matches!(s.dialog, Some(Dialog::ConfirmElevation { choice: ConfirmChoice::Cancel, .. })));
    let fx = apply_action(&mut s, AppAction::ConfirmYes);
    assert!(matches!(fx.as_slice(), [SideEffect::SudoServiceAction { .. }]));
    let fx = apply_event(&mut s, AppEvent::OperationFinished(OperationResult::Success("restarted\u{1b}[2J a".into())));
    assert_eq!(fx.len(), 2);
    assert_eq!(s.activity, vec!["restarted[2J a".to_string()]);
    let _ = apply_event(&mut s, AppEvent::Error(AppError::Internal("boom".into())));
    assert!(s.last_error.is_some());
    let _ = apply_event(&mut s, AppEvent::Resize(100, 40));
    assert_eq!((s.width, s.height), (100, 40));
    let _ = apply_event(&mut s, AppEvent::ProcessesUpdated(vec![row(9), row(10)]));
    assert_eq!(s.process.selected_pid, Some(9));
    let _ = apply_event(&mut s, AppEvent::Input(key('q')));
    assert!(s.should_quit);
}

fn menu_with(items: Vec<MenuItem>, selected: usize) -> Option<Dialog> {
    Some(Dialog::ActionMenu { title: "Actions".into(), items, selected })
}

#[test]
fn disabled_menu_row_only_warns() {
    let mut state = demo_state();
    state.dialog = menu_with(vec![MenuItem::disabled("Kill", MenuAction::ProcessDiagnostics, "not now")], 0);
    let fx = apply_action(&mut state, AppAction::ActivateMenu);
    assert!(fx.is_empty());
    assert!(matches!(state.dialog, Some(Dialog::ActionMenu { .. })));
    assert_eq!(state.status_line(), "not now");
}

#[test]
fn chosen_menu_row_runs_and_closes() {
    let mut state = demo_state();
    state.dialog = menu_with(
        vec![
            MenuItem::enabled("Close", MenuAction::Close),
            MenuItem::enabled("Diagnostics", MenuAction::ProcessDiagnostics),
        ],
        1,
    );
    let fx = apply_action(&mut state, AppAction::ActivateMenu);
    assert!(matches!(fx.as_slice(), [SideEffect::RefreshDiagnostics]));
    assert_eq!(state.screen, Screen::Diagnostics);
    assert!(state.dialog.is_none());
    let mut other = demo_state();
    other.dialog = menu_with(vec![MenuItem::enabled("Close", MenuAction::Close)], 3);
    let fx = apply_action(&mut other, AppAction::ActivateMenu);
    assert!(fx.is_empty());
    assert!(other.dialog.is_some());
}

#[test]
fn menu_signal_row_asks_first() {
    let mut state = demo_state();
    state.screen = Screen::Processes;
    state.process.rows.push(row(77));
    state.dialog = menu_with(vec![MenuItem::enabled("Kill", MenuAction::ProcessSignal(ProcessSignal::Kill))], 0);
    let fx = apply_action(&mut state, AppAction::ActivateMenu);
    assert!(fx.is_empty());
    match &state.dialog {
        Some(Dialog::ConfirmSignal { pid, signal, choice, .. }) => {
            assert_eq!(*pid, 77);
            assert_eq!(*signal, ProcessSignal::Kill);
            assert_eq!(*choice, ConfirmChoice::Cancel);
        }
        other => panic!("unexpected {other:?}"),
    }
    let _ = apply_action(&mut state, AppAction::ConfirmFocusLeft);
    assert!(matches!(state.dialog, Some(Dialog::ConfirmSignal { choice: ConfirmChoice::Yes, .. })));
    let fx = apply_action(&mut state, AppAction::Confirm);
    assert!(matches!(
        fx.as_slice(),
        [SideEffect::SendSignal { pid: 77, signal: ProcessSignal::Kill, start_time: 1 }]
    ));
    assert!(state.dialog.is_none());
}

#[test]
fn inspect_loads_selected_details() {
    let mut state = demo_state();
    state.screen = Screen::Processes;
    state.process.selected_pid = Some(9);
    let fx = apply_action(&mut state, AppAction::Inspect);
    assert!(matches!(fx.as_slice(), [SideEffect::FetchProcessDetails { pid: 9 }]));
    let mut state = demo_state();
    state.screen = Screen::Services;
    state.service.selected_unit = Some("a.service".into());
    let fx = apply_action(&mut state, AppAction::Inspect);
    match fx.as_slice() {
        [SideEffect::FetchServiceDetails { unit }, SideEffect::RefreshLogs { unit: Some(u2) }] => {
            assert_eq!(unit, "a.service");
            assert_eq!(u2, "a.service");
        }
        other => panic!("unexpected {other:?}"),
    }
    assert!(state.service.pending_inspect);
    let mut state = demo_state();
    let fx = apply_action(&mut state, AppAction::Inspect);
    assert!(matches!(fx.as_slice(), [SideEffect::RefreshDiagnostics]));
    assert_eq!(state.screen, Screen::Diagnostics);
}

#[test]
fn settings_save_and_reset() {
    let mut state = demo_state();
    let fx = apply_action(&mut state, AppAction::SaveSettings);
    assert!(matches!(fx.as_slice(), [SideEffect::SaveConfig, SideEffect::PublishConfig]));
    assert!(!state.settings.onboarding_pending);
    let fx = apply_action(&mut state, AppAction::CyclePerformanceProfile);
    assert!(matches!(fx.as_slice(), [SideEffect::PublishConfig]));
    assert_eq!(state.config.performance_profile, state.performance_profile);
    let fx = apply_action(&mut state, AppAction::ResetSettings);
    assert!(fx.is_empty());
    let fx = apply_action(&mut state, AppAction::ConfirmYes);
    assert!(matches!(fx.as_slice(), [SideEffect::SaveConfig]));
    assert_eq!(state.performance_profile, Config::default().performance_profile);
}

#[test]
fn toggling_a_closed_confirmation_keeps_it_closed() {
    let mut state = demo_state();
    let fx = apply_action(&mut state, AppAction::ConfirmFocusRight);
    assert!(fx.is_empty());
    assert!(state.dialog.is_none());
    assert!(apply_action(&mut state, AppAction::Confirm).is_empty());
}

#[test]
fn refreshed_process_list_keeps_the_followed_pid() {
    let mut s = demo_state();
    let _ = apply_event(&mut s, AppEvent::ProcessesUpdated(vec![row(3), row(4), row(5)]));
    s.process.follow_pid = Some(5);
    let _ = apply_event(&mut s, AppEvent::ProcessesUpdated(vec![row(1), row(5), row(4)]));
    assert_eq!(s.process.selected, 1);
    assert_eq!(s.process.selected_pid, Some(5));
    let fx = apply_event(&mut s, AppEvent::ProcessesUpdated(vec![]));
    assert!(fx.is_empty());
    assert_eq!(s.process.selected, 0);
    s.process.tree_mode = true;
    let fx = apply_event(&mut s, AppEvent::ProcessesUpdated(vec![row(2)]));
    assert!(matches!(fx.as_slice(), [SideEffect::FetchPpidMap]));
    assert_eq!(s.process.selected_pid, Some(2));
}

#[test]
fn saved_report_path_is_shown_clean() {
    let mut s = demo_state();
    let fx = apply_event(&mut s, AppEvent::ReportSaved("/tmp/r\u{1b}[2J.txt".into()));
    assert!(fx.is_empty());
    assert!(s.status_line().starts_with("exported "));
    assert!(!s.status_line().contains('\u{1b}'));
}

#[test]
fn menu_cursor_stops_at_the_ends() {
    let mut s = demo_state();
    s.dialog = menu_with(
        vec![
            MenuItem::enabled("A", MenuAction::Close),
            MenuItem::enabled("B", MenuAction::Close),
        ],
        0,
    );
    let _ = apply_action(&mut s, AppAction::MoveUp);
    assert!(matches!(s.dialog, Some(Dialog::ActionMenu { selected: 0, .. })));
    let _ = apply_action(&mut s, AppAction::MoveDown);
    let _ = apply_action(&mut s, AppAction::PageDown);
    assert!(matches!(s.dialog, Some(Dialog::ActionMenu { selected: 1, .. })));
    let mut p = demo_state();
    p.screen = Screen::Processes;
    let _ = apply_event(&mut p, AppEvent::ProcessesUpdated(vec![row(1), row(2), row(3)]));
    let _ = apply_action(&mut p, AppAction::End);
    assert_eq!(p.process.selected, 2);
    let _ = apply_action(&mut p, AppAction::Home);
    assert_eq!(p.process.selected, 0);
    assert_eq!(p.process.selected_pid, Some(1));
}
