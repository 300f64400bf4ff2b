//! The decisions around sending a signal or running a unit action: the
//! guards that refuse a request, and how each failure is reported. The
//! application performs the system calls between these steps.

use vstd::prelude::*;

use crate::actions::trusted::safe_unit_name;
use crate::actions::trusted::unit_looks_safe;
use crate::error::AppError;
use crate::model::process::is_protected_pid;
use crate::model::process::protected_pid;
use crate::model::process::ProcessSignal;
use crate::model::service::ServiceActionKind;
use crate::model::unit_registry::UnitRegistry;
use crate::text::decimal;
use crate::text::decimal_string;

verus! {

/// Decimal text of a process id.
pub open spec fn pid_text(pid: u32) -> Seq<char> {
    decimal(pid as nat)
}

fn pid_string(pid: u32) -> (s: String)
    ensures
        s@ == pid_text(pid),
{
    decimal_string(pid as u64)
}

/// Refusal for a unit name that is not safe to pass to systemctl.
pub fn check_unit_name(unit: &str) -> (r: Result<(), AppError>)
    ensures
        safe_unit_name(unit@) ==> r is Ok,
        !safe_unit_name(unit@) ==> (r matches Err(e) && e.is_systemd("refusing unsafe unit name"@)),
{
    if !unit_looks_safe(unit) {
        return Err(AppError::Systemd(String::from_str("refusing unsafe unit name")));
    }
    Ok(())
}

/// Why the kernel refused a signal.
#[derive(Debug, Clone, PartialEq, Eq)]
pub enum KillFailure {
    /// `ESRCH`: the process is gone.
    NoSuchProcess,
    /// `EPERM`: not allowed to signal it.
    NotPermitted,
    /// Any other error, by its text.
    Other(String),
}

/// How a failed signal delivery is reported.
pub fn kill_error(pid: u32, signal: ProcessSignal, failure: &KillFailure) -> (e: AppError)
    ensures
        failure is NoSuchProcess ==> e.is_process(
            "process "@ + pid_text(pid) + " no longer exists"@,
        ),
        failure is NotPermitted ==> e.is_permission(
            "permission denied sending "@ + signal.label_text() + " to PID "@ + pid_text(pid),
        ),
        failure matches KillFailure::Other(t) ==> e.is_process(
            "failed to send "@ + signal.label_text() + " to "@ + pid_text(pid) + ": "@ + t@,
        ),
{
    match failure {
        KillFailure::NoSuchProcess => {
            let mut m = String::from_str("process ");
            m.append(pid_string(pid).as_str());
            m.append(" no longer exists");
            AppError::Process(m)
        },
        KillFailure::NotPermitted => {
            let mut m = String::from_str("permission denied sending ");
            m.append(signal.label());
            m.append(" to PID ");
            m.append(pid_string(pid).as_str());
            AppError::Permission(m)
        },
        KillFailure::Other(t) => {
            let mut m = String::from_str("failed to send ");
            m.append(signal.label());
            m.append(" to ");
            m.append(pid_string(pid).as_str());
            m.append(": ");
            m.append(t.as_str());
            AppError::Process(m)
        },
    }
}

/// Whether a signal may still go to `pid` once its start time was read
/// again: with no expected start time there is nothing to compare; a
/// process that is gone (`None`) or whose start time changed (the id was
/// reused) is refused.
pub fn check_start_time(pid: u32, expected: Option<u64>, observed: Option<u64>) -> (r: Result<(), AppError>)
    ensures
        expected is None ==> r is Ok,
        expected is Some && observed is None ==> (r matches Err(e) && e.is_process(
            "process "@ + pid_text(pid) + " no longer exists"@,
        )),
        expected matches Some(x) && observed matches Some(y) && x == y ==> r is Ok,
        expected matches Some(x) && observed matches Some(y) && x != y ==> (r matches Err(e)
            && e.is_process("PID "@ + pid_text(pid) + " was reused (start time changed); signal aborted"@)),
{
    match expected {
        None => Ok(()),
        Some(x) => match observed {
            None => Err(kill_error(pid, ProcessSignal::Term, &KillFailure::NoSuchProcess)),
            Some(y) => {
                if x == y {
                    Ok(())
                } else {
                    let mut m = String::from_str("PID ");
                    m.append(pid_string(pid).as_str());
                    m.append(" was reused (start time changed); signal aborted");
                    Err(AppError::Process(m))
                }
            },
        },
    }
}

/// Executor that may act on the system: it refuses to signal protected
/// processes and to act on units it does not know.
#[derive(Debug)]
pub struct LinuxAdminExecutor {
    self_pid: u32,
    registry: UnitRegistry,
}

impl LinuxAdminExecutor {
    /// An executor for the process `self_pid` (the caller's own id), acting
    /// on the units of `registry`.
    pub fn new(registry: UnitRegistry, self_pid: u32) -> (x: Self)
        ensures
            x.own_pid() == self_pid,
            x.known_units() == registry.known(),
    {
        LinuxAdminExecutor { self_pid, registry }
    }

    pub closed spec fn own_pid(self) -> u32 {
        self.self_pid
    }

    pub closed spec fn known_units(self) -> Set<Seq<char>> {
        self.registry.known()
    }

    /// The guard before a signal: init, kernel threads and this process
    /// itself are never signalled.
    pub fn check_signal(&self, pid: u32, signal: ProcessSignal) -> (r: Result<(), AppError>)
        ensures
            !protected_pid(pid, self.own_pid()) ==> r is Ok,
            protected_pid(pid, self.own_pid()) ==> (r matches Err(e) && e.is_process(
                "refusing to send "@ + signal.label_text() + " to protected PID "@ + pid_text(pid),
            )),
    {
        if is_protected_pid(pid, self.self_pid) {
            let mut m = String::from_str("refusing to send ");
            m.append(signal.label());
            m.append(" to protected PID ");
            m.append(pid_string(pid).as_str());
            return Err(AppError::Process(m));
        }
        Ok(())
    }

    /// The guard before a unit action.
    pub fn check_service_action(&self, unit: &str, action: ServiceActionKind) -> (r: Result<(), AppError>)
        ensures
            safe_unit_name(unit@) ==> r is Ok,
            !safe_unit_name(unit@) ==> (r matches Err(e) && e.is_systemd("refusing unsafe unit name"@)),
    {
        check_unit_name(unit)
    }

    pub fn read_only(&self) -> (b: bool)
        ensures
            !b,
    {
        false
    }

    /// The units this executor may act on.
    pub fn unit_registry(&self) -> (r: Option<&UnitRegistry>)
        ensures
            r matches Some(reg) && reg.known() == self.known_units(),
    {
        Some(&self.registry)
    }

    /// The service listing's refresh: the executor's units become exactly
    /// `units`.
    pub fn refresh_units(&mut self, units: Vec<String>)
        ensures
            final(self).known_units() == units@.map_values(|u: String| u@).to_set(),
            final(self).own_pid() == old(self).own_pid(),
    {
        self.registry.replace_all(units);
    }
}

/// Executor for observation mode: every action is refused.
#[derive(Debug)]
pub struct ReadOnlyExecutor;

impl ReadOnlyExecutor {
    pub fn send_signal(&self, pid: u32, signal: ProcessSignal, expected_start_time: Option<u64>) -> (r: Result<(), AppError>)
        ensures
            r matches Err(e) && e.is_permission("READ ONLY: process signals are disabled"@),
    {
        Err(AppError::Permission(String::from_str("READ ONLY: process signals are disabled")))
    }

    pub fn service_action(&self, unit: &str, action: ServiceActionKind) -> (r: Result<(), AppError>)
        ensures
            r matches Err(e) && e.is_permission("READ ONLY: systemd actions are disabled"@),
    {
        Err(AppError::Permission(String::from_str("READ ONLY: systemd actions are disabled")))
    }

    pub fn read_only(&self) -> (b: bool)
        ensures
            b,
    {
        true
    }

    /// Observation mode knows no units.
    pub fn unit_registry(&self) -> (r: Option<&UnitRegistry>)
        ensures
            r is None,
    {
        None
    }
}

} // verus!
