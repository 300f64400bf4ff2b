//! Clock synchronisation status.

use vstd::prelude::*;

use crate::model::diagnostics::{
    findings_view, Category, CheckView, ClockSyncSnapshot, Confidence, DiagnosticSnapshot,
    DiagnosticTarget, Evidence, EvidenceView, Finding, FindingView, ScreenTarget, Severity,
    SuggestedCheck, TargetView,
};

verus! {

pub open spec fn clock_finding(clock: ClockSyncSnapshot) -> FindingView {
    FindingView {
        id: "clock.ntp.unsynced"@,
        title: "System clock not reported as NTP-synchronized"@,
        summary: clock.system_time_status@,
        severity: Severity::Warning,
        confidence: Confidence::Medium,
        category: Category::Clock,
        evidence: EvidenceView { summary: clock.system_time_status@, details: seq![] },
        targets: seq![TargetView { screen: ScreenTarget::Diagnostics, search: Some("clock"@) }],
        suggested_check: Some(
            CheckView {
                description: "Check timedatectl synchronization status"@,
                command_hint: Some("timedatectl status"@),
            },
        ),
        degradable: true,
    }
}

/// A warning exactly when the clock is reported as not NTP-synchronized;
/// an unknown status is not a finding.
pub open spec fn clock_sync_spec(snap: DiagnosticSnapshot) -> Seq<FindingView> {
    match snap.clock_sync {
        Some(clock) => if clock.ntp_synchronized == Some(false) {
            seq![clock_finding(clock)]
        } else {
            seq![]
        },
        None => seq![],
    }
}

pub fn rule_clock_sync(snap: &DiagnosticSnapshot) -> (r: Vec<Finding>)
    ensures
        findings_view(r@) == clock_sync_spec(*snap),
{
    let mut out: Vec<Finding> = Vec::new();
    let clock = match &snap.clock_sync {
        Some(c) => c,
        None => {
            assert(findings_view(out@) =~= seq![]);
            return out;
        },
    };
    match clock.ntp_synchronized {
        Some(false) => {
            let f = Finding {
                id: String::from_str("clock.ntp.unsynced"),
                title: String::from_str("System clock not reported as NTP-synchronized"),
                summary: clock.system_time_status.clone(),
                severity: Severity::Warning,
                confidence: Confidence::Medium,
                category: Category::Clock,
                evidence: Evidence {
                    summary: clock.system_time_status.clone(),
                    details: Vec::new(),
                },
                targets: vec![
                    DiagnosticTarget {
                        screen: ScreenTarget::Diagnostics,
                        search: Some(String::from_str("clock")),
                    },
                ],
                suggested_check: Some(
                    SuggestedCheck {
                        description: String::from_str("Check timedatectl synchronization status"),
                        command_hint: Some(String::from_str("timedatectl status")),
                    },
                ),
                degradable: true,
            };
            assert(f@.evidence.details =~= clock_finding(*clock).evidence.details);
            assert(f@.targets =~= clock_finding(*clock).targets);
            out.push(f);
            assert(findings_view(out@) =~= clock_sync_spec(*snap));
        },
        _ => {
            assert(findings_view(out@) =~= seq![]);
        },
    }
    out
}

} // verus!
