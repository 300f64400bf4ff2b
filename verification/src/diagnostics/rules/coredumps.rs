//! Recent coredumps listed by coredumpctl.

use vstd::prelude::*;

use crate::model::diagnostics::{
    findings_view, opt_text, texts, Category, CheckView, Confidence, CoredumpEntry,
    DiagnosticSnapshot, DiagnosticTarget, Evidence, EvidenceView, Finding, FindingView,
    ScreenTarget, Severity, SuggestedCheck, TargetView,
};
use crate::seqs::lemma_map_take_push;
use crate::text::{decimal, decimal_string};

verus! {

pub open spec fn coredumps_listed(n: nat) -> nat {
    if n < 8 {
        n
    } else {
        8
    }
}

/// `exe signal=SIG @ time`, with `?` for an unknown signal.
pub open spec fn coredump_line(c: CoredumpEntry) -> Seq<char> {
    let sig = match opt_text(c.signal) {
        Some(s) => s,
        None => "?"@,
    };
    c.exe@ + " signal="@ + sig + " @ "@ + c.timestamp@
}

pub open spec fn coredump_finding(dumps: Seq<CoredumpEntry>) -> FindingView {
    let details = dumps.take(coredumps_listed(dumps.len()) as int).map_values(
        |c: CoredumpEntry| coredump_line(c),
    );
    FindingView {
        id: "crash.coredump.recent"@,
        title: "Recent coredumps recorded"@,
        summary: decimal(dumps.len()) + " coredump(s) listed by coredumpctl"@,
        severity: Severity::Warning,
        confidence: Confidence::High,
        category: Category::CoreDump,
        evidence: EvidenceView { summary: details[0], details },
        targets: seq![TargetView { screen: ScreenTarget::Diagnostics, search: Some("coredump"@) }],
        suggested_check: Some(
            CheckView {
                description: "List recent coredumps"@,
                command_hint: Some("coredumpctl list"@),
            },
        ),
        degradable: true,
    }
}

/// One warning listing the first eight coredumps when any was recorded.
pub open spec fn coredumps_spec(snap: DiagnosticSnapshot) -> Seq<FindingView> {
    if snap.coredumps@.len() == 0 {
        seq![]
    } else {
        seq![coredump_finding(snap.coredumps@)]
    }
}

pub fn rule_coredumps(snap: &DiagnosticSnapshot) -> (r: Vec<Finding>)
    ensures
        findings_view(r@) == coredumps_spec(*snap),
{
    let dumps = &snap.coredumps;
    if dumps.len() == 0 {
        let out: Vec<Finding> = Vec::new();
        assert(findings_view(out@) =~= seq![]);
        return out;
    }
    let n: usize = if dumps.len() < 8 {
        dumps.len()
    } else {
        8
    };
    let mut details: Vec<String> = Vec::new();
    let mut i: usize = 0;
    while i < n
        invariant
            n == coredumps_listed(dumps@.len()),
            n <= dumps.len(),
            i <= n,
            texts(details@) == dumps@.take(i as int).map_values(
                |c: CoredumpEntry| coredump_line(c),
            ),
        decreases n - i,
    {
        let c = &dumps[i];
        let mut line = String::new();
        line.append(c.exe.as_str());
        line.append(" signal=");
        match &c.signal {
            Some(s) => line.append(s.as_str()),
            None => line.append("?"),
        }
        line.append(" @ ");
        line.append(c.timestamp.as_str());
        proof {
            lemma_map_take_push(dumps@, i as int, |c: CoredumpEntry| coredump_line(c));
            assert(texts(details@.push(line)) =~= texts(details@).push(line@));
        }
        details.push(line);
        i += 1;
    }
    let first = details[0].clone();
    let mut summary = decimal_string(dumps.len() as u64);
    summary.append(" coredump(s) listed by coredumpctl");
    let f = Finding {
        id: String::from_str("crash.coredump.recent"),
        title: String::from_str("Recent coredumps recorded"),
        summary,
        severity: Severity::Warning,
        confidence: Confidence::High,
        category: Category::CoreDump,
        evidence: Evidence { summary: first, details },
        targets: vec![
            DiagnosticTarget {
                screen: ScreenTarget::Diagnostics,
                search: Some(String::from_str("coredump")),
            },
        ],
        suggested_check: Some(
            SuggestedCheck {
                description: String::from_str("List recent coredumps"),
                command_hint: Some(String::from_str("coredumpctl list")),
            },
        ),
        degradable: true,
    };
    assert(f@.targets =~= coredump_finding(dumps@).targets);
    let out = vec![f];
    assert(findings_view(out@) =~= coredumps_spec(*snap));
    out
}

} // verus!
