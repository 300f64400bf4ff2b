use server_tui::actions::trusted::{pick_trusted, trusted_candidates};
use server_tui::app::action::{AppAction, ConfirmChoice};
use server_tui::app::app_state::AppState;
use server_tui::app::event::{AppEvent, RequestId};
use server_tui::app::events::apply_event;
use server_tui::app::guards::SignalTarget;
use server_tui::app::input::KeyPress;
use server_tui::app::inspector::{mount_inspector, rounded_percent};
use server_tui::app::reducer::apply_action;
use server_tui::app::side_effect::{SideEffect, SupportFormat};
use server_tui::app::state::Dialog;
use server_tui::config::Config;
use server_tui::error::AppError;
use server_tui::keymap::KeyCode;
use server_tui::model::diagnostics::{Category, Confidence, Evidence, Finding, Severity};
use server_tui::model::inspect::{FilePreview, ProcessDetails, ProcessSummary};
use server_tui::model::log::{LogEntry, LogPreset, LogPriority};
use server_tui::model::metrics::DiskUsage;
use server_tui::model::process::{filter_processes, preserve_selection, ProcessSignal, ProcessText};
use server_tui::model::screen::Screen;
use server_tui::model::service::{ServiceActionKind, ServiceInfo, UnitFileState};
use server_tui::model::storage::{StorageNode, StorageTab, StorageTree};
use server_tui::persist::AppPersistState;

fn state() -> AppState {
    AppState::new(Config::default(), false, false, true, "/tmp".into(), AppPersistState::new(), 4242)
}

fn row(pid: u32) -> SignalTarget {
    SignalTarget { pid, user: "u".into(), name: "x".into(), start_time: 1 }
}

fn texts() -> Vec<ProcessText> {
    vec![
        ProcessText { pid: 10, user: "root".into(), name: "alpha".into(), cmd: "/usr/bin/alpha".into() },
        ProcessText { pid: 20, user: "alex".into(), name: "beta".into(), cmd: "beta --flag".into() },
    ]
}

#[test]
fn filters_by_user_and_pid() {
    let items = texts();
    assert_eq!(filter_processes(&items, "alex").len(), 1);
    assert_eq!(filter_processes(&items, "20").len(), 1);
    assert_eq!(filter_processes(&items, "ALPHA").len(), 1);
    assert_eq!(filter_processes(&items, "").len(), 2);
}

#[test]
fn preserves_pid_selection() {
    let pids: Vec<u32> = texts().iter().map(|p| p.pid).collect();
    assert_eq!(preserve_selection(&pids, Some(20)), 1);
    assert_eq!(preserve_selection(&pids, Some(999)), 0);
    assert_eq!(preserve_selection(&[], Some(1)), 0);
}

#[test]
fn storage_screen_starts_on_mounts() {
    assert_eq!(state().storage.tab, StorageTab::Mounts);
}

#[test]
fn writable_kill_asks_first_and_protected_pids_are_refused() {
    let mut s = state();
    s.screen = Screen::Processes;
    s.process.rows.push(row(5));
    let fx = apply_action(&mut s, AppAction::SignalKill);
    assert!(fx.is_empty());
    match &s.dialog {
        Some(Dialog::ConfirmSignal { pid, user, command, signal, start_time, choice }) => {
            assert_eq!((*pid, user.as_str(), command.as_str()), (5, "u", "x"));
            assert_eq!((*signal, *start_time, *choice), (ProcessSignal::Kill, 1, ConfirmChoice::Cancel));
        }
        other => panic!("unexpected {other:?}"),
    }
    let mut p = state();
    p.screen = Screen::Processes;
    p.process.rows.push(row(1));
    assert!(apply_action(&mut p, AppAction::SignalKill).is_empty());
    assert!(p.dialog.is_none());
    assert_eq!(p.status_line(), "refusing SIGKILL: protected PID 1");
    let mut q = state();
    q.config.confirm_sigterm = false;
    q.process.rows.push(row(6));
    let fx = apply_action(&mut q, AppAction::SignalTerm);
    assert!(matches!(fx.as_slice(), [SideEffect::SendSignal { pid: 6, signal: ProcessSignal::Term, start_time: 1 }]));
}

fn service(unit: &str) -> ServiceInfo {
    ServiceInfo {
        unit: unit.into(),
        description: "d".into(),
        load_state: "loaded".into(),
        active_state: "active".into(),
        sub_state: "running".into(),
        unit_path: String::new(),
        unit_file_state: UnitFileState::Enabled,
        fragment_path: None,
    }
}

#[test]
fn unit_actions_ask_or_run() {
    let mut s = state();
    s.screen = Screen::Services;
    s.service.items.push(service("a.service"));
    s.config.confirm_service_actions = true;
    assert!(apply_action(&mut s, AppAction::RestartService).is_empty());
    assert!(matches!(
        &s.dialog,
        Some(Dialog::ConfirmService { unit, action: ServiceActionKind::Restart, choice: ConfirmChoice::Cancel }) if unit == "a.service"
    ));
    let mut t = state();
    t.screen = Screen::Services;
    t.service.items.push(service("b.service"));
    t.config.confirm_service_actions = false;
    let fx = apply_action(&mut t, AppAction::StopService);
    assert!(matches!(fx.as_slice(), [SideEffect::ServiceAction { unit, action: ServiceActionKind::Stop }] if unit == "b.service"));
}

#[test]
fn service_export_saves_the_selected_unit() {
    let mut s = state();
    s.screen = Screen::Services;
    s.service.items.push(service("a.service"));
    let fx = apply_action(&mut s, AppAction::ExportContext);
    match fx.as_slice() {
        [SideEffect::SaveReport { body, format: SupportFormat::Markdown }] => assert!(body.contains("unit: a.service")),
        other => panic!("unexpected {other:?}"),
    }
}

fn file(name: &str, size: u64) -> StorageNode {
    StorageNode {
        name: name.into(),
        path: format!("/d/{name}"),
        is_dir: false,
        size,
        apparent_size: size,
        children: vec![],
        inaccessible: false,
        error: None,
    }
}

fn tree(children: Vec<StorageNode>) -> StorageTree {
    StorageTree {
        root: StorageNode {
            name: "d".into(),
            path: "/d".into(),
            is_dir: true,
            size: 0,
            apparent_size: 0,
            children,
            inaccessible: false,
            error: None,
        },
        files: 0,
        dirs: 0,
        errors: 0,
        excluded: vec![],
        truncated: false,
    }
}

#[test]
fn storage_enter_previews_files_and_inspects_mounts() {
    let mut s = state();
    s.screen = Screen::Storage;
    s.storage.tab = StorageTab::DirectoryUsage;
    s.storage.tree = Some(tree(vec![file("a", 5), file("b", 9)]));
    s.storage.selected = 1;
    let fx = apply_action(&mut s, AppAction::Inspect);
    assert!(matches!(fx.as_slice(), [SideEffect::PreviewFile { path }] if path == "/d/b"));
    s.storage.tab = StorageTab::LargestFiles;
    s.storage.selected = 0;
    let fx = apply_action(&mut s, AppAction::Inspect);
    assert!(matches!(fx.as_slice(), [SideEffect::PreviewFile { path }] if path == "/d/b"));
    let mut m = state();
    m.screen = Screen::Storage;
    m.storage.disks.push(DiskUsage {
        name: "/dev/sda1".into(),
        mount_point: "/".into(),
        total: 2048,
        used: 1024,
        available: 1024,
    });
    assert!(apply_action(&mut m, AppAction::Inspect).is_empty());
    match &m.dialog {
        Some(Dialog::Inspector { title, body }) => {
            assert_eq!(title, "Mount /");
            assert_eq!(body, "mount: /\ndevice: /dev/sda1\nused: 1.0 KiB / 2.0 KiB (50%)\navailable: 1.0 KiB");
        }
        other => panic!("unexpected {other:?}"),
    }
}

#[test]
fn mount_percent_rounds_to_nearest() {
    assert_eq!(rounded_percent(0, 0), 0);
    assert_eq!(rounded_percent(1, 3), 33);
    assert_eq!(rounded_percent(2, 3), 67);
    assert_eq!(rounded_percent(1, 200), 0);
    assert_eq!(rounded_percent(3, 200), 2);
    let d = DiskUsage { name: "n".into(), mount_point: "/m".into(), total: 0, used: 0, available: 0 };
    assert_eq!(mount_inspector(&d).0, "Mount /m");
}

#[test]
fn keys_drive_actions_and_unbound_keys_do_nothing() {
    let mut s = state();
    let fx = apply_event(&mut s, AppEvent::Input(KeyPress { code: KeyCode::Char('3'), modifiers: 0 }));
    assert!(fx.is_empty());
    assert_eq!(s.screen, Screen::Services);
    let before = s.status_line().to_string();
    let fx = apply_event(&mut s, AppEvent::Input(KeyPress { code: KeyCode::F(12), modifiers: 0 }));
    assert!(fx.is_empty());
    assert_eq!(s.screen, Screen::Services);
    assert_eq!(s.status_line(), before);
}

fn entry(message: &str) -> LogEntry {
    LogEntry { timestamp: "t".into(), unit: "u".into(), pid: None, priority: LogPriority::Info, message: message.into() }
}

#[test]
fn finished_requests_update_the_views() {
    let mut s = state();
    s.log.refresh_request = Some((RequestId::new(3), None, LogPreset::All));
    let _ = apply_event(
        &mut s,
        AppEvent::LogsRefreshFinished { request_id: RequestId::new(3), unit: None, preset: LogPreset::All, result: Ok(vec![entry("a"), entry("b")]) },
    );
    assert_eq!(s.log.buffer.len(), 2);
    assert!(s.log.refresh_request.is_none());
    s.storage.preview_request = Some((RequestId::new(4), "/f".into()));
    let prev = FilePreview { path: "/f".into(), text: "hello".into(), bytes_read: 5, truncated: true, is_binary: false };
    let _ = apply_event(&mut s, AppEvent::FilePreviewFinished { request_id: RequestId::new(4), path: "/f".into(), result: Ok(prev) });
    assert!(matches!(&s.dialog, Some(Dialog::Inspector { title, body }) if title == "Preview /f (truncated)" && body == "hello"));
    s.process.details_request = Some((RequestId::new(5), 77));
    let details = ProcessDetails {
        info: Some(ProcessSummary {
            pid: 77,
            user: "root".into(),
            state: "S".into(),
            name: "sshd".into(),
            cpu_text: "1.5".into(),
            mem_text: "0.2%".into(),
        }),
        parent_pid: Some(1),
        parent_name: None,
        cmdline: "/usr/sbin/sshd".into(),
        cgroup: None,
        unit: Some("ssh.service".into()),
        fd_count: Some(12),
        read_bytes: Some(2048),
        write_bytes: None,
    };
    let _ = apply_event(&mut s, AppEvent::ProcessDetailsFinished { request_id: RequestId::new(5), pid: 77, result: Ok(details) });
    match &s.dialog {
        Some(Dialog::Inspector { title, body }) => {
            assert_eq!(title, "Process 77");
            assert_eq!(
                body,
                "PID 77  user root  state S  cpu 1.5%  mem 0.2%\nname: sshd\nparent: 1 (?)\ncmdline: /usr/sbin/sshd\ncgroup: (unknown)\nunit: ssh.service\nfds: 12\nio read: 2.0 KiB  write: ?"
            );
        }
        other => panic!("unexpected {other:?}"),
    }
    assert_eq!(s.process.details_unit.as_deref(), Some("ssh.service"));
    s.service.details_request = Some((RequestId::new(6), "x.service".into()));
    let _ = apply_event(
        &mut s,
        AppEvent::ServiceDetailsFinished { request_id: RequestId::new(6), unit: "x.service".into(), result: Err(AppError::Internal("gone".into())) },
    );
    assert!(s.last_error.is_some());
    assert!(s.service.details_request.is_none());
}

#[test]
fn trusted_binaries_are_looked_up_in_order() {
    let c = trusted_candidates("ls");
    assert_eq!(c, vec!["/usr/bin/ls", "/bin/ls", "/usr/sbin/ls", "/sbin/ls"]);
    assert_eq!(pick_trusted("ls", &vec![false, true, true, false]).unwrap(), "/bin/ls");
    assert!(pick_trusted("ls", &vec![false, false, false, false]).is_err());
    assert!(pick_trusted("a/b", &vec![true, true, true, true]).is_err());
}

#[test]
fn slugs_are_lower_case_labels() {
    for s in Screen::all() {
        assert_eq!(s.slug(), s.label().to_ascii_lowercase());
    }
}

#[test]
fn finding_export_on_diagnostics() {
    let mut s = state();
    s.screen = Screen::Diagnostics;
    s.diagnostic.findings.push(Finding {
        id: "f.1".into(),
        title: "t".into(),
        summary: "s".into(),
        severity: Severity::Warning,
        confidence: Confidence::Medium,
        category: Category::Storage,
        evidence: Evidence { summary: "e".into(), details: vec![] },
        targets: vec![],
        suggested_check: None,
        degradable: true,
    });
    let fx = apply_action(&mut s, AppAction::ExportContext);
    assert!(matches!(fx.as_slice(), [SideEffect::SaveReport { body, .. }] if body.starts_with("# finding f.1")));
}

#[test]
fn log_enter_opens_the_event_in_context() {
    let mut s = state();
    s.screen = Screen::Logs;
    s.log.preset = LogPreset::All;
    s.log.min_priority = LogPriority::Debug;
    let mut e = vec![entry("one"), entry("two"), entry("three")];
    for x in e.iter_mut() {
        x.priority = LogPriority::Error;
    }
    s.log.buffer.extend(e);
    s.log.selected = 1;
    assert!(apply_action(&mut s, AppAction::Inspect).is_empty());
    match &s.dialog {
        Some(Dialog::Inspector { title, body }) => {
            assert_eq!(title, "Log event");
            assert!(body.contains("two"));
            assert!(body.contains("one"));
        }
        other => panic!("unexpected {other:?}"),
    }
}
