//! Out-of-memory killer activity.

use vstd::prelude::*;

use crate::model::diagnostics::{
    findings_view, Category, CheckView, Confidence, DiagnosticSnapshot, DiagnosticTarget, Evidence,
    EvidenceView, Finding, FindingView, OomEvent, ScreenTarget, Severity, SuggestedCheck,
    TargetView, texts,
};
use crate::seqs::lemma_map_take_push;
use crate::text::{decimal, decimal_string};

verus! {

/// How many events the evidence quotes.
pub open spec fn oom_sample_count(n: nat) -> nat {
    if n < 5 {
        n
    } else {
        5
    }
}

pub open spec fn oom_line(e: OomEvent) -> Seq<char> {
    e.process@ + ": "@ + e.message@
}

/// The single finding for a non-empty list of OOM events.
pub open spec fn oom_finding(events: Seq<OomEvent>) -> FindingView {
    let samples = events.take(oom_sample_count(events.len()) as int).map_values(
        |e: OomEvent| oom_line(e),
    );
    FindingView {
        id: "mem.oom.recent"@,
        title: "Out-of-memory killer activity"@,
        summary: decimal(events.len()) + " OOM-related event(s) observed in journal"@,
        severity: Severity::Critical,
        confidence: Confidence::High,
        category: Category::Memory,
        evidence: EvidenceView { summary: samples[0], details: samples },
        targets: seq![
            TargetView { screen: ScreenTarget::Logs, search: Some("oom"@) },
            TargetView { screen: ScreenTarget::Processes, search: None },
        ],
        suggested_check: Some(
            CheckView {
                description: "Inspect memory pressure and recent OOM journal lines"@,
                command_hint: Some("journalctl -k -g oom -n 30"@),
            },
        ),
        degradable: true,
    }
}

/// Nothing without OOM events; otherwise one critical finding quoting the first five.
pub open spec fn oom_spec(snap: DiagnosticSnapshot) -> Seq<FindingView> {
    if snap.oom_events@.len() == 0 {
        seq![]
    } else {
        seq![oom_finding(snap.oom_events@)]
    }
}

/// A single critical finding when any OOM event was observed.
pub fn rule_oom(snap: &DiagnosticSnapshot) -> (r: Vec<Finding>)
    ensures
        findings_view(r@) == oom_spec(*snap),
{
    let events = &snap.oom_events;
    if events.len() == 0 {
        let out: Vec<Finding> = Vec::new();
        assert(findings_view(out@) =~= seq![]);
        return out;
    }
    let n: usize = if events.len() < 5 {
        events.len()
    } else {
        5
    };
    let mut samples: Vec<String> = Vec::new();
    let mut i: usize = 0;
    while i < n
        invariant
            n == oom_sample_count(events@.len()),
            n <= events.len(),
            i <= n,
            texts(samples@) == events@.take(i as int).map_values(|e: OomEvent| oom_line(e)),
        decreases n - i,
    {
        let mut line = String::new();
        line.append(events[i].process.as_str());
        line.append(": ");
        line.append(events[i].message.as_str());
        proof {
            lemma_map_take_push(events@, i as int, |e: OomEvent| oom_line(e));
            assert(texts(samples@.push(line)) =~= texts(samples@).push(line@));
        }
        samples.push(line);
        i += 1;
    }
    let first = samples[0].clone();
    let mut summary = decimal_string(events.len() as u64);
    summary.append(" OOM-related event(s) observed in journal");
    let f = Finding {
        id: String::from_str("mem.oom.recent"),
        title: String::from_str("Out-of-memory killer activity"),
        summary,
        severity: Severity::Critical,
        confidence: Confidence::High,
        category: Category::Memory,
        evidence: Evidence { summary: first, details: samples },
        targets: vec![
            DiagnosticTarget { screen: ScreenTarget::Logs, search: Some(String::from_str("oom")) },
            DiagnosticTarget { screen: ScreenTarget::Processes, search: None },
        ],
        suggested_check: Some(
            SuggestedCheck {
                description: String::from_str(
                    "Inspect memory pressure and recent OOM journal lines",
                ),
                command_hint: Some(String::from_str("journalctl -k -g oom -n 30")),
            },
        ),
        degradable: true,
    };
    assert(f@.targets =~= oom_finding(events@).targets);
    let out = vec![f];
    assert(findings_view(out@) =~= oom_spec(*snap));
    out
}

} // verus!
