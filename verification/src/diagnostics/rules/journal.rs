//! Critical journal messages grouped per unit.

use vstd::prelude::*;

use crate::diagnostics::rules::common::{sanitize_id, sanitized};
use crate::model::diagnostics::{
    findings_view, Category, CheckView, Confidence, DiagnosticSnapshot, DiagnosticTarget, Evidence,
    EvidenceView, Finding, FindingView, JournalCriticalGroup, ScreenTarget, Severity,
    SuggestedCheck, TargetView,
};
use crate::seqs::{lemma_map_push, lemma_take_all};
use crate::text::{decimal, decimal_string};

verus! {

/// Five or more critical messages make the finding critical; fewer, a warning.
pub open spec fn journal_severity(count: nat) -> Severity {
    if count >= 5 {
        Severity::Critical
    } else {
        Severity::Warning
    }
}

/// The finding reported for one unit's group of critical messages.
pub open spec fn journal_finding(g: JournalCriticalGroup) -> FindingView {
    FindingView {
        id: "journal.critical."@ + sanitized(g.unit@),
        title: "Critical journal messages: "@ + g.unit@,
        summary: decimal(g.count as nat) + " critical/alert messages for "@ + g.unit@,
        severity: journal_severity(g.count as nat),
        confidence: Confidence::Medium,
        category: Category::Journal,
        evidence: EvidenceView {
            summary: g.sample_message@,
            details: seq![
                "count="@ + decimal(g.count as nat) + " sample="@ + g.sample_message@,
            ],
        },
        targets: seq![TargetView { screen: ScreenTarget::Logs, search: Some(g.unit@) }],
        suggested_check: Some(
            CheckView {
                description: "Review recent critical journal entries for this unit"@,
                command_hint: Some("journalctl -p 0..2 -u "@ + g.unit@ + " -n 50"@),
            },
        ),
        degradable: true,
    }
}

/// Findings for the groups with at least one message, in order.
pub open spec fn journal_findings(groups: Seq<JournalCriticalGroup>) -> Seq<FindingView>
    decreases groups.len(),
{
    if groups.len() == 0 {
        seq![]
    } else {
        let prev = journal_findings(groups.drop_last());
        if groups.last().count > 0 {
            prev.push(journal_finding(groups.last()))
        } else {
            prev
        }
    }
}

/// One finding per unit group with a non-zero count; nothing when the journal
/// cannot be observed.
pub open spec fn journal_critical_spec(snap: DiagnosticSnapshot) -> Seq<FindingView> {
    if !snap.journal_observable {
        seq![]
    } else {
        journal_findings(snap.journal_critical@)
    }
}

fn journal_group(g: &JournalCriticalGroup) -> (f: Finding)
    ensures
        f@ == journal_finding(*g),
{
    let count = decimal_string(g.count as u64);
    let mut id = String::new();
    id.append("journal.critical.");
    id.append(sanitize_id(g.unit.as_str()).as_str());
    let mut title = String::new();
    title.append("Critical journal messages: ");
    title.append(g.unit.as_str());
    let mut summary = String::new();
    summary.append(count.as_str());
    summary.append(" critical/alert messages for ");
    summary.append(g.unit.as_str());
    let mut detail = String::new();
    detail.append("count=");
    detail.append(count.as_str());
    detail.append(" sample=");
    detail.append(g.sample_message.as_str());
    let mut hint = String::new();
    hint.append("journalctl -p 0..2 -u ");
    hint.append(g.unit.as_str());
    hint.append(" -n 50");
    let mut check = String::new();
    check.append("Review recent critical journal entries for this unit");
    let severity = if g.count >= 5 {
        Severity::Critical
    } else {
        Severity::Warning
    };
    let f = Finding {
        id,
        title,
        summary,
        severity,
        confidence: Confidence::Medium,
        category: Category::Journal,
        evidence: Evidence { summary: g.sample_message.clone(), details: vec![detail] },
        targets: vec![DiagnosticTarget { screen: ScreenTarget::Logs, search: Some(g.unit.clone()) }],
        suggested_check: Some(SuggestedCheck { description: check, command_hint: Some(hint) }),
        degradable: true,
    };
    assert(f@.evidence.details =~= journal_finding(*g).evidence.details);
    assert(f@.targets =~= journal_finding(*g).targets);
    f
}

/// Groups with a non-zero count become findings (critical from five messages);
/// silent when the journal is unobservable.
pub fn rule_journal_critical(snap: &DiagnosticSnapshot) -> (r: Vec<Finding>)
    ensures
        findings_view(r@) == journal_critical_spec(*snap),
{
    let mut out: Vec<Finding> = Vec::new();
    if !snap.journal_observable {
        assert(findings_view(out@) =~= seq![]);
        return out;
    }
    let groups = &snap.journal_critical;
    let mut i: usize = 0;
    while i < groups.len()
        invariant
            i <= groups.len(),
            findings_view(out@) == journal_findings(groups@.take(i as int)),
        decreases groups.len() - i,
    {
        assert(groups@.take(i + 1).drop_last() =~= groups@.take(i as int));
        if groups[i].count > 0 {
            let f = journal_group(&groups[i]);
            proof {
                lemma_map_push(out@, f, |f: Finding| f@);
            }
            out.push(f);
        }
        i += 1;
    }
    proof {
        lemma_take_all(groups@);
    }
    out
}

} // verus!
