//! The guards in front of process signals and service actions: read-only
//! sessions, protected PIDs, and the confirmation settings.

use vstd::prelude::*;

use crate::app::action::ConfirmChoice;
use crate::app::side_effect::SideEffect;
use crate::app::state::Dialog;
use crate::model::process::is_protected_pid;
use crate::model::process::protected_pid;
use crate::model::process::ProcessSignal;
use crate::model::service::ServiceActionKind;
use crate::text::decimal;
use crate::text::decimal_string;

verus! {

/// What a guarded request comes to.
#[derive(Debug, Clone)]
pub enum Guarded {
    /// Refused; the status line says why.
    Refused(String),
    /// Nothing is selected to act on.
    Idle,
    /// Runs at once.
    Run(SideEffect),
    /// Waits for confirmation in this dialog, Cancel focused.
    Ask(Dialog),
}

/// The process a signal would go to.
#[derive(Debug, Clone)]
pub struct SignalTarget {
    pub pid: u32,
    pub user: String,
    pub name: String,
    /// Start time, so that a reused PID is not signalled.
    pub start_time: u64,
}

pub open spec fn refused(g: Guarded, text: Seq<char>) -> bool {
    g matches Guarded::Refused(s) && s@ == text
}

/// Does sending `signal` need confirmation under these settings? Stopping
/// and continuing a process are always confirmed.
pub open spec fn signal_needs_confirm(signal: ProcessSignal, confirm_sigterm: bool, confirm_sigkill: bool) -> bool {
    match signal {
        ProcessSignal::Term => confirm_sigterm,
        ProcessSignal::Kill => confirm_sigkill,
        ProcessSignal::Stop | ProcessSignal::Cont => true,
    }
}

/// A signal request: refused in a read-only session and for a protected
/// PID; otherwise sent at once, or first confirmed where the settings ask.
pub fn guard_signal(
    read_only: bool,
    target: Option<SignalTarget>,
    self_pid: u32,
    confirm_sigterm: bool,
    confirm_sigkill: bool,
    signal: ProcessSignal,
) -> (g: Guarded)
    ensures
        read_only ==> refused(g, "READ ONLY: signals disabled"@),
        !read_only && target is None ==> g is Idle,
        !read_only && target is Some ==> ({
            let t = target.unwrap();
            if protected_pid(t.pid, self_pid) {
                refused(
                    g,
                    "refusing "@ + signal.label_text() + ": protected PID "@ + decimal(t.pid as nat),
                )
            } else if !signal_needs_confirm(signal, confirm_sigterm, confirm_sigkill) {
                g == Guarded::Run(
                    SideEffect::SendSignal { pid: t.pid, signal, start_time: t.start_time },
                )
            } else {
                g matches Guarded::Ask(Dialog::ConfirmSignal { pid, user, command, signal: s, start_time, choice })
                    && pid == t.pid && user@ == t.user@ && command@ == t.name@ && s == signal
                    && start_time == t.start_time && choice == ConfirmChoice::Cancel
            }
        }),
        g matches Guarded::Run(e) ==> !read_only && (e matches SideEffect::SendSignal { pid, .. }
            && !protected_pid(pid, self_pid)),
{
    if read_only {
        return Guarded::Refused(String::from_str("READ ONLY: signals disabled"));
    }
    let t = match target {
        Some(t) => t,
        None => return Guarded::Idle,
    };
    if is_protected_pid(t.pid, self_pid) {
        let mut m = String::from_str("refusing ");
        m.append(signal.label());
        m.append(": protected PID ");
        m.append(decimal_string(t.pid as u64).as_str());
        return Guarded::Refused(m);
    }
    let need_confirm = match signal {
        ProcessSignal::Term => confirm_sigterm,
        ProcessSignal::Kill => confirm_sigkill,
        ProcessSignal::Stop | ProcessSignal::Cont => true,
    };
    if !need_confirm {
        return Guarded::Run(SideEffect::SendSignal { pid: t.pid, signal, start_time: t.start_time });
    }
    Guarded::Ask(
        Dialog::ConfirmSignal {
            pid: t.pid,
            user: t.user,
            command: t.name,
            signal,
            start_time: t.start_time,
            choice: ConfirmChoice::Cancel,
        },
    )
}

/// A unit action request: refused in a read-only session; otherwise run
/// at once, or first confirmed where the settings ask.
pub fn guard_service(read_only: bool, unit: Option<String>, confirm_service_actions: bool, action: ServiceActionKind) -> (g: Guarded)
    ensures
        read_only ==> refused(g, "READ ONLY: service actions disabled"@),
        !read_only && unit is None ==> g is Idle,
        !read_only && unit is Some ==> ({
            let u = unit.unwrap();
            if !confirm_service_actions {
                g matches Guarded::Run(SideEffect::ServiceAction { unit: v, action: a }) && v@ == u@
                    && a == action
            } else {
                g matches Guarded::Ask(Dialog::ConfirmService { unit: v, action: a, choice }) && v@
                    == u@ && a == action && choice == ConfirmChoice::Cancel
            }
        }),
        g is Run ==> !read_only,
{
    if read_only {
        return Guarded::Refused(String::from_str("READ ONLY: service actions disabled"));
    }
    let u = match unit {
        Some(u) => u,
        None => return Guarded::Idle,
    };
    if !confirm_service_actions {
        return Guarded::Run(SideEffect::ServiceAction { unit: u, action });
    }
    Guarded::Ask(Dialog::ConfirmService { unit: u, action, choice: ConfirmChoice::Cancel })
}

} // verus!
