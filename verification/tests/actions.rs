use std::cell::RefCell;

use server_tui::actions::process::{
    check_start_time, check_unit_name, kill_error, KillFailure, LinuxAdminExecutor,
    ReadOnlyExecutor,
};
use server_tui::actions::trusted::{
    resolve_trusted, run_sudo_systemctl, sudo_systemctl_args, systemctl_outcome, unit_looks_safe,
    CommandOutput, CommandRunner, ExecutionPolicy, TrustedCommand,
};
use server_tui::error::AppError;
use server_tui::model::process::ProcessSignal;
use server_tui::model::service::ServiceActionKind;
use server_tui::model::unit_registry::UnitRegistry;

/// Records each call and answers with a fixed outcome.
struct FakeCommandRunner {
    calls: RefCell<Vec<(String, Vec<String>)>>,
    success: bool,
    stderr: String,
}

impl FakeCommandRunner {
    fn new(success: bool) -> Self {
        FakeCommandRunner { calls: RefCell::new(Vec::new()), success, stderr: String::new() }
    }
}

impl CommandRunner for FakeCommandRunner {
    fn run(&self, program: &str, args: &Vec<String>) -> Result<CommandOutput, AppError> {
        self.calls.borrow_mut().push((program.to_string(), args.clone()));
        Ok(CommandOutput { success: self.success, stdout: Vec::new(), stderr: self.stderr.clone() })
    }
}

fn internal_text(e: &AppError) -> String {
    match e {
        AppError::Internal(m) => m.clone(),
        other => panic!("unexpected {other:?}"),
    }
}

#[test]
fn rejects_path_injection() {
    assert!(resolve_trusted("../evil").is_err());
    assert!(resolve_trusted("sys ctl").is_err());
}

#[test]
fn fake_runner_records_call() {
    let fake = FakeCommandRunner::new(true);
    let unit = "ssh.service";
    assert!(unit_looks_safe(unit));
    let systemctl = "/usr/bin/systemctl";
    let args: Vec<String> = vec!["-n".into(), systemctl.into(), "restart".into(), unit.into()];
    let _ = fake.run("/usr/bin/sudo", &args);
    let calls = fake.calls.borrow();
    assert_eq!(calls.len(), 1);
    assert_eq!(calls[0].1, args);
}

#[test]
fn sudo_args_reject_bad_unit() {
    assert!(sudo_systemctl_args(ServiceActionKind::Restart, "bad unit").is_err());
}

#[test]
fn sudo_run_rejects_unregistered_unit() {
    let fake = FakeCommandRunner::new(true);
    let empty = UnitRegistry::new();
    let err = run_sudo_systemctl(&fake, ServiceActionKind::Restart, "ssh.service", &empty)
        .expect_err("empty registry");
    assert!(err.message().contains("unregistered"));

    let mut reg = UnitRegistry::new();
    reg.replace_all(vec!["ssh.service".into()]);
    let err = run_sudo_systemctl(&fake, ServiceActionKind::Restart, "other.service", &reg)
        .expect_err("not in registry");
    assert!(err.message().contains("unregistered"));
    assert!(fake.calls.borrow().is_empty());

    // A registered unit reaches the runner where sudo and systemctl exist here.
    if resolve_trusted("sudo").is_ok() && resolve_trusted("systemctl").is_ok() {
        run_sudo_systemctl(&fake, ServiceActionKind::Restart, "ssh.service", &reg)
            .expect("registered unit");
        let calls = fake.calls.borrow();
        assert_eq!(calls.len(), 1);
        assert!(calls[0].1.iter().any(|a| a == "ssh.service"));
        assert!(calls[0].1.iter().any(|a| a == "restart"));
    }
}

#[test]
fn refusal_messages_name_the_binary() {
    assert_eq!(
        internal_text(&resolve_trusted("").unwrap_err()),
        "refusing untrusted binary name: "
    );
    assert_eq!(
        internal_text(&resolve_trusted("a/b").unwrap_err()),
        "refusing untrusted binary name: a/b"
    );
    assert_eq!(
        internal_text(&resolve_trusted("nul\0x").unwrap_err()),
        "refusing untrusted binary name: nul\0x"
    );
    assert_eq!(
        internal_text(&resolve_trusted("tab\tx").unwrap_err()),
        "refusing untrusted binary name: tab\tx"
    );
    assert_eq!(
        internal_text(&resolve_trusted("no-such-binary-here-xyz").unwrap_err()),
        "trusted binary not found: no-such-binary-here-xyz"
    );
}

#[test]
fn resolved_paths_are_under_trusted_dirs() {
    for name in ["sh", "ls", "cat"] {
        if let Ok(p) = resolve_trusted(name) {
            let ok = ["/usr/bin/", "/bin/", "/usr/sbin/", "/sbin/"]
                .iter()
                .any(|d| p == format!("{d}{name}"));
            assert!(ok, "{p}");
        }
    }
}

#[test]
fn trusted_command_names() {
    assert_eq!(TrustedCommand::Sudo.binary_name(), "sudo");
    assert_eq!(TrustedCommand::Systemctl.binary_name(), "systemctl");
    assert_eq!(TrustedCommand::Timedatectl.binary_name(), "timedatectl");
    assert_eq!(TrustedCommand::Journalctl.binary_name(), "journalctl");
    assert_eq!(TrustedCommand::Smartctl.binary_name(), "smartctl");
    assert_eq!(TrustedCommand::Coredumpctl.binary_name(), "coredumpctl");
    if let Ok(p) = TrustedCommand::Coredumpctl.resolve() {
        assert!(p.ends_with("/coredumpctl"));
    }
}

#[test]
fn execution_policies() {
    let d = ExecutionPolicy::default();
    assert_eq!(d.timeout_ms, 30_000);
    assert_eq!(d.max_stdout_bytes, 2 * 1024 * 1024);
    assert!(d.kill_on_drop);
    let s = ExecutionPolicy::short();
    assert_eq!(s.timeout_ms, 5_000);
    assert_eq!(s.max_stdout_bytes, d.max_stdout_bytes);
}

#[test]
fn unit_name_safety() {
    assert!(unit_looks_safe("ssh.service"));
    assert!(unit_looks_safe("getty@tty1.service"));
    assert!(unit_looks_safe("dev-disk-by\\x2duuid.device"));
    assert!(!unit_looks_safe(""));
    assert!(!unit_looks_safe("-evil.service"));
    assert!(!unit_looks_safe("a;b.service"));
    assert!(!unit_looks_safe("bad unit"));
    assert!(!unit_looks_safe(&"a".repeat(256)));
    assert!(unit_looks_safe(&"a".repeat(255)));
    assert!(check_unit_name("ssh.service").is_ok());
    match check_unit_name("x y") {
        Err(AppError::Systemd(m)) => assert_eq!(m, "refusing unsafe unit name"),
        other => panic!("unexpected {other:?}"),
    }
}

#[test]
fn sudo_args_shape() {
    if let Ok((sudo, args)) = sudo_systemctl_args(ServiceActionKind::Reload, "nginx.service") {
        assert!(sudo.ends_with("/sudo"));
        assert_eq!(args.len(), 4);
        assert_eq!(args[0], "-n");
        assert!(args[1].ends_with("/systemctl"));
        assert_eq!(args[2], "reload");
        assert_eq!(args[3], "nginx.service");
    }
}

#[test]
fn systemctl_failure_is_permission_error() {
    let ok = CommandOutput { success: true, stdout: vec![], stderr: String::new() };
    assert!(systemctl_outcome(ServiceActionKind::Stop, "a.service", &ok).is_ok());
    let bad = CommandOutput { success: false, stdout: vec![], stderr: "denied".into() };
    match systemctl_outcome(ServiceActionKind::Stop, "a.service", &bad) {
        Err(AppError::Permission(m)) => assert_eq!(m, "sudo systemctl stop a.service failed: denied"),
        other => panic!("unexpected {other:?}"),
    }
}

#[test]
fn signal_guards() {
    let exec = LinuxAdminExecutor::new(UnitRegistry::new(), 4242);
    assert!(!exec.read_only());
    match exec.check_signal(1, ProcessSignal::Kill) {
        Err(AppError::Process(m)) => assert_eq!(m, "refusing to send SIGKILL to protected PID 1"),
        other => panic!("unexpected {other:?}"),
    }
    assert!(exec.check_signal(4242, ProcessSignal::Term).is_err());
    assert!(exec.check_signal(0, ProcessSignal::Term).is_err());
    assert!(exec.check_signal(77, ProcessSignal::Term).is_ok());
    assert!(exec.check_service_action("ssh.service", ServiceActionKind::Start).is_ok());
    assert!(exec.check_service_action("x y", ServiceActionKind::Start).is_err());
    assert_eq!(exec.unit_registry().map(|r| r.len()), Some(0));
}

#[test]
fn executor_reads_the_units_last_listed() {
    let mut exec = LinuxAdminExecutor::new(UnitRegistry::new(), 4242);
    exec.refresh_units(vec!["a.service".into(), "b.service".into()]);
    assert!(exec.unit_registry().unwrap().contains("a.service"));
    exec.refresh_units(vec!["c.service".into()]);
    let reg = exec.unit_registry().unwrap();
    assert!(!reg.contains("a.service"));
    assert!(reg.contains("c.service"));
    assert_eq!(reg.len(), 1);
}

#[test]
fn start_time_verdicts() {
    assert!(check_start_time(9, None, None).is_ok());
    assert!(check_start_time(9, Some(5), Some(5)).is_ok());
    match check_start_time(9, Some(5), Some(6)) {
        Err(AppError::Process(m)) => {
            assert_eq!(m, "PID 9 was reused (start time changed); signal aborted")
        }
        other => panic!("unexpected {other:?}"),
    }
    match check_start_time(12, Some(5), None) {
        Err(AppError::Process(m)) => assert_eq!(m, "process 12 no longer exists"),
        other => panic!("unexpected {other:?}"),
    }
}

#[test]
fn kill_failures_are_reported() {
    match kill_error(31, ProcessSignal::Term, &KillFailure::NotPermitted) {
        AppError::Permission(m) => assert_eq!(m, "permission denied sending SIGTERM to PID 31"),
        other => panic!("unexpected {other:?}"),
    }
    match kill_error(31, ProcessSignal::Kill, &KillFailure::NoSuchProcess) {
        AppError::Process(m) => assert_eq!(m, "process 31 no longer exists"),
        other => panic!("unexpected {other:?}"),
    }
    match kill_error(31, ProcessSignal::Kill, &KillFailure::Other("EINVAL".into())) {
        AppError::Process(m) => assert_eq!(m, "failed to send SIGKILL to 31: EINVAL"),
        other => panic!("unexpected {other:?}"),
    }
}

#[test]
fn read_only_executor_refuses_everything() {
    let ro = ReadOnlyExecutor;
    assert!(ro.read_only());
    match ro.send_signal(5, ProcessSignal::Term, None) {
        Err(AppError::Permission(m)) => assert_eq!(m, "READ ONLY: process signals are disabled"),
        other => panic!("unexpected {other:?}"),
    }
    match ro.service_action("ssh.service", ServiceActionKind::Restart) {
        Err(AppError::Permission(m)) => assert_eq!(m, "READ ONLY: systemd actions are disabled"),
        other => panic!("unexpected {other:?}"),
    }
    assert!(ro.unit_registry().is_none());
}
