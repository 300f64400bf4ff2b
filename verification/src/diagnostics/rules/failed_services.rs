//! Failed systemd units become critical findings.

use vstd::prelude::*;

use crate::seqs::{lemma_map_push, lemma_map_take_push, lemma_take_all};
use crate::diagnostics::rules::common::{sanitize_id, sanitized};
use crate::model::diagnostics::{
    findings_view, Category, CheckView, Confidence, DiagnosticSnapshot, DiagnosticTarget, Evidence,
    EvidenceView, FailedUnitSnapshot, Finding, FindingView, ScreenTarget, Severity, SuggestedCheck,
    TargetView,
};

verus! {

/// The finding reported for one failed unit.
pub open spec fn failed_unit_finding(u: FailedUnitSnapshot) -> FindingView {
    FindingView {
        id: "svc.failed."@ + sanitized(u.unit@),
        title: "Failed unit: "@ + u.unit@,
        summary: u.unit@ + " is in failed state ("@ + u.active_state@ + "/"@ + u.sub_state@
            + ")"@,
        severity: Severity::Critical,
        confidence: Confidence::High,
        category: Category::Services,
        evidence: EvidenceView {
            summary: u.description@,
            details: seq![
                "active="@ + u.active_state@ + " sub="@ + u.sub_state@ + " desc="@
                    + u.description@,
            ],
        },
        targets: seq![TargetView { screen: ScreenTarget::Services, search: Some(u.unit@) }],
        suggested_check: Some(
            CheckView {
                description: "Inspect unit status and recent logs"@,
                command_hint: Some("systemctl status "@ + u.unit@),
            },
        ),
        degradable: true,
    }
}

/// One critical finding per failed unit, in order; nothing when systemd cannot be observed.
pub open spec fn failed_services_spec(snap: DiagnosticSnapshot) -> Seq<FindingView> {
    if !snap.systemd_observable {
        seq![]
    } else {
        snap.failed_units@.map_values(|u: FailedUnitSnapshot| failed_unit_finding(u))
    }
}

fn failed_unit(u: &FailedUnitSnapshot) -> (f: Finding)
    ensures
        f@ == failed_unit_finding(*u),
{
    let mut id = String::new();
    id.append("svc.failed.");
    id.append(sanitize_id(u.unit.as_str()).as_str());
    let mut title = String::new();
    title.append("Failed unit: ");
    title.append(u.unit.as_str());
    let mut summary = String::new();
    summary.append(u.unit.as_str());
    summary.append(" is in failed state (");
    summary.append(u.active_state.as_str());
    summary.append("/");
    summary.append(u.sub_state.as_str());
    summary.append(")");
    let mut detail = String::new();
    detail.append("active=");
    detail.append(u.active_state.as_str());
    detail.append(" sub=");
    detail.append(u.sub_state.as_str());
    detail.append(" desc=");
    detail.append(u.description.as_str());
    let mut hint = String::new();
    hint.append("systemctl status ");
    hint.append(u.unit.as_str());
    let mut check = String::new();
    check.append("Inspect unit status and recent logs");
    let f = Finding {
        id,
        title,
        summary,
        severity: Severity::Critical,
        confidence: Confidence::High,
        category: Category::Services,
        evidence: Evidence { summary: u.description.clone(), details: vec![detail] },
        targets: vec![
            DiagnosticTarget { screen: ScreenTarget::Services, search: Some(u.unit.clone()) },
        ],
        suggested_check: Some(SuggestedCheck { description: check, command_hint: Some(hint) }),
        degradable: true,
    };
    assert(f@.evidence.details =~= failed_unit_finding(*u).evidence.details);
    assert(f@.targets =~= failed_unit_finding(*u).targets);
    f
}

/// Failed units become critical findings; silent when systemd is unobservable.
pub fn rule_failed_services(snap: &DiagnosticSnapshot) -> (r: Vec<Finding>)
    ensures
        findings_view(r@) == failed_services_spec(*snap),
{
    let mut out: Vec<Finding> = Vec::new();
    if !snap.systemd_observable {
        assert(findings_view(out@) =~= seq![]);
        return out;
    }
    let mut i: usize = 0;
    while i < snap.failed_units.len()
        invariant
            snap.systemd_observable,
            i <= snap.failed_units.len(),
            findings_view(out@) == snap.failed_units@.take(i as int).map_values(
                |u: FailedUnitSnapshot| failed_unit_finding(u),
            ),
        decreases snap.failed_units.len() - i,
    {
        let f = failed_unit(&snap.failed_units[i]);
        proof {
            lemma_map_push(out@, f, |f: Finding| f@);
            lemma_map_take_push(
                snap.failed_units@,
                i as int,
                |u: FailedUnitSnapshot| failed_unit_finding(u),
            );
        }
        out.push(f);
        i += 1;
    }
    proof {
        lemma_take_all(snap.failed_units@);
    }
    out
}

} // verus!
