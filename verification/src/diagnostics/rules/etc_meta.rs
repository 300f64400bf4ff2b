//! Notable recent metadata changes under /etc (information only).

use vstd::prelude::*;

use crate::model::diagnostics::{
    findings_view, texts, Category, Confidence, DiagnosticSnapshot, DiagnosticTarget, Evidence,
    EvidenceView, EtcMetaChange, Finding, FindingView, ScreenTarget, Severity, TargetView,
};
use crate::seqs::lemma_map_take_push;
use crate::text::{decimal, decimal_string};

verus! {

pub open spec fn etc_listed(n: nat) -> nat {
    if n < 12 {
        n
    } else {
        12
    }
}

pub open spec fn etc_line(e: EtcMetaChange) -> Seq<char> {
    e.path@ + " ("@ + e.kind@ + ")"@
}

pub open spec fn etc_finding(changes: Seq<EtcMetaChange>) -> FindingView {
    let details = changes.take(etc_listed(changes.len()) as int).map_values(
        |e: EtcMetaChange| etc_line(e),
    );
    FindingView {
        id: "config.etc.recent_meta"@,
        title: "Notable /etc metadata changes"@,
        summary: decimal(changes.len())
            + " path(s) under /etc with recent metadata changes (info only)"@,
        severity: Severity::Info,
        confidence: Confidence::Low,
        category: Category::Config,
        evidence: EvidenceView { summary: details[0], details },
        targets: seq![TargetView { screen: ScreenTarget::Diagnostics, search: Some("etc"@) }],
        suggested_check: None,
        degradable: true,
    }
}

/// One informational finding listing the first twelve changes when there is any.
pub open spec fn etc_meta_spec(snap: DiagnosticSnapshot) -> Seq<FindingView> {
    if snap.etc_mtime_notable@.len() == 0 {
        seq![]
    } else {
        seq![etc_finding(snap.etc_mtime_notable@)]
    }
}

pub fn rule_etc_meta(snap: &DiagnosticSnapshot) -> (r: Vec<Finding>)
    ensures
        findings_view(r@) == etc_meta_spec(*snap),
{
    let changes = &snap.etc_mtime_notable;
    if changes.len() == 0 {
        let out: Vec<Finding> = Vec::new();
        assert(findings_view(out@) =~= seq![]);
        return out;
    }
    let n: usize = if changes.len() < 12 {
        changes.len()
    } else {
        12
    };
    let mut details: Vec<String> = Vec::new();
    let mut i: usize = 0;
    while i < n
        invariant
            n == etc_listed(changes@.len()),
            n <= changes.len(),
            i <= n,
            texts(details@) == changes@.take(i as int).map_values(
                |e: EtcMetaChange| etc_line(e),
            ),
        decreases n - i,
    {
        let mut line = String::new();
        line.append(changes[i].path.as_str());
        line.append(" (");
        line.append(changes[i].kind.as_str());
        line.append(")");
        proof {
            lemma_map_take_push(changes@, i as int, |e: EtcMetaChange| etc_line(e));
            assert(texts(details@.push(line)) =~= texts(details@).push(line@));
        }
        details.push(line);
        i += 1;
    }
    let first = details[0].clone();
    let mut summary = decimal_string(changes.len() as u64);
    summary.append(" path(s) under /etc with recent metadata changes (info only)");
    let f = Finding {
        id: String::from_str("config.etc.recent_meta"),
        title: String::from_str("Notable /etc metadata changes"),
        summary,
        severity: Severity::Info,
        confidence: Confidence::Low,
        category: Category::Config,
        evidence: Evidence { summary: first, details },
        targets: vec![
            DiagnosticTarget {
                screen: ScreenTarget::Diagnostics,
                search: Some(String::from_str("etc")),
            },
        ],
        suggested_check: None,
        degradable: true,
    };
    assert(f@.targets =~= etc_finding(changes@).targets);
    let out = vec![f];
    assert(findings_view(out@) =~= etc_meta_spec(*snap));
    out
}

} // verus!
