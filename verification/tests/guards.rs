use server_tui::app::action::ConfirmChoice;
use server_tui::app::guards::{guard_service, guard_signal, Guarded, SignalTarget};
use server_tui::app::side_effect::SideEffect;
use server_tui::app::state::Dialog;
use server_tui::model::process::ProcessSignal;
use server_tui::model::service::ServiceActionKind;

fn target(pid: u32) -> Option<SignalTarget> {
    Some(SignalTarget { pid, user: "www".into(), name: "nginx".into(), start_time: 77 })
}

#[test]
fn read_only_refuses_everything() {
    match guard_signal(true, target(10), 5, false, false, ProcessSignal::Term) {
        Guarded::Refused(m) => assert_eq!(m, "READ ONLY: signals disabled"),
        other => panic!("{other:?}"),
    }
    match guard_service(true, Some("a.service".into()), false, ServiceActionKind::Restart) {
        Guarded::Refused(m) => assert_eq!(m, "READ ONLY: service actions disabled"),
        other => panic!("{other:?}"),
    }
}

#[test]
fn protected_pids_are_refused() {
    for pid in [0, 1, 42] {
        match guard_signal(false, target(pid), 42, false, false, ProcessSignal::Kill) {
            Guarded::Refused(m) => assert_eq!(m, format!("refusing SIGKILL: protected PID {pid}")),
            other => panic!("{other:?}"),
        }
    }
}

#[test]
fn signals_follow_the_confirmation_settings() {
    match guard_signal(false, target(10), 5, true, false, ProcessSignal::Kill) {
        Guarded::Run(SideEffect::SendSignal { pid, signal, start_time }) => {
            assert_eq!((pid, signal, start_time), (10, ProcessSignal::Kill, 77))
        }
        other => panic!("{other:?}"),
    }
    match guard_signal(false, target(10), 5, true, false, ProcessSignal::Term) {
        Guarded::Ask(Dialog::ConfirmSignal { pid, user, command, signal, start_time, choice }) => {
            assert_eq!(pid, 10);
            assert_eq!(user, "www");
            assert_eq!(command, "nginx");
            assert_eq!(signal, ProcessSignal::Term);
            assert_eq!(start_time, 77);
            assert_eq!(choice, ConfirmChoice::Cancel);
        }
        other => panic!("{other:?}"),
    }
    assert!(matches!(guard_signal(false, None, 5, true, true, ProcessSignal::Term), Guarded::Idle));
}

#[test]
fn service_actions_follow_the_confirmation_setting() {
    match guard_service(false, Some("a.service".into()), false, ServiceActionKind::Stop) {
        Guarded::Run(SideEffect::ServiceAction { unit, action }) => {
            assert_eq!(unit, "a.service");
            assert_eq!(action, ServiceActionKind::Stop);
        }
        other => panic!("{other:?}"),
    }
    match guard_service(false, Some("a.service".into()), true, ServiceActionKind::Stop) {
        Guarded::Ask(Dialog::ConfirmService { unit, action, choice }) => {
            assert_eq!(unit, "a.service");
            assert_eq!(action, ServiceActionKind::Stop);
            assert_eq!(choice, ConfirmChoice::Cancel);
        }
        other => panic!("{other:?}"),
    }
    assert!(matches!(guard_service(false, None, true, ServiceActionKind::Stop), Guarded::Idle));
}
