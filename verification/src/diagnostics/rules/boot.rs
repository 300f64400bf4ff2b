//! Previous-boot shutdown hint. Never claims a kernel panic.

use vstd::prelude::*;

use crate::diagnostics::rules::common::{sanitize_id, sanitized};
use crate::model::diagnostics::{
    findings_view, Category, CheckView, Confidence, DiagnosticSnapshot, DiagnosticTarget, Evidence,
    EvidenceView, Finding, FindingView, PreviousBootSummary, ScreenTarget, Severity,
    SuggestedCheck, TargetView,
};

verus! {

/// The warning reported for a previous boot with an unclean-shutdown hint.
pub open spec fn previous_boot_finding(prev: PreviousBootSummary) -> FindingView {
    FindingView {
        id: "boot.previous."@ + sanitized(prev.boot_id@),
        title: "Previous boot may have ended uncleanly"@,
        summary: prev.note@,
        severity: Severity::Warning,
        confidence: Confidence::Low,
        category: Category::Boot,
        evidence: EvidenceView {
            summary: prev.note@,
            details: seq!["previous_boot_id="@ + prev.boot_id@],
        },
        targets: seq![TargetView { screen: ScreenTarget::Logs, search: None }],
        suggested_check: Some(
            CheckView {
                description: "Compare previous-boot journal for shutdown vs abrupt end (do not assume kernel panic)"@,
                command_hint: Some("journalctl -b -1 -n 80"@),
            },
        ),
        degradable: true,
    }
}

/// A warning only when a previous boot is known and carries the unclean hint.
pub open spec fn previous_boot_spec(snap: DiagnosticSnapshot) -> Seq<FindingView> {
    match snap.previous_boot_summary {
        Some(prev) => if prev.unclean_hint {
            seq![previous_boot_finding(prev)]
        } else {
            seq![]
        },
        None => seq![],
    }
}

/// Prefers "I don't know": a low-confidence warning on the unclean hint only.
pub fn rule_previous_boot(snap: &DiagnosticSnapshot) -> (r: Vec<Finding>)
    ensures
        findings_view(r@) == previous_boot_spec(*snap),
{
    let prev = match &snap.previous_boot_summary {
        Some(p) => p,
        None => {
            let out: Vec<Finding> = Vec::new();
            assert(findings_view(out@) =~= seq![]);
            return out;
        },
    };
    if !prev.unclean_hint {
        let out: Vec<Finding> = Vec::new();
        assert(findings_view(out@) =~= seq![]);
        return out;
    }
    let mut id = String::from_str("boot.previous.");
    id.append(sanitize_id(prev.boot_id.as_str()).as_str());
    let mut detail = String::from_str("previous_boot_id=");
    detail.append(prev.boot_id.as_str());
    let f = Finding {
        id,
        title: String::from_str("Previous boot may have ended uncleanly"),
        summary: prev.note.clone(),
        severity: Severity::Warning,
        confidence: Confidence::Low,
        category: Category::Boot,
        evidence: Evidence { summary: prev.note.clone(), details: vec![detail] },
        targets: vec![DiagnosticTarget { screen: ScreenTarget::Logs, search: None }],
        suggested_check: Some(
            SuggestedCheck {
                description: String::from_str(
                    "Compare previous-boot journal for shutdown vs abrupt end (do not assume kernel panic)",
                ),
                command_hint: Some(String::from_str("journalctl -b -1 -n 80")),
            },
        ),
        degradable: true,
    };
    assert(f@.evidence.details =~= previous_boot_finding(*prev).evidence.details);
    assert(f@.targets =~= previous_boot_finding(*prev).targets);
    let out = vec![f];
    assert(findings_view(out@) =~= previous_boot_spec(*snap));
    out
}

} // verus!
