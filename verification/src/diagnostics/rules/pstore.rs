//! Persistent store (pstore) entries left by a previous crash.

use vstd::prelude::*;

use crate::model::diagnostics::{
    findings_view, texts, Category, CheckView, Confidence, DiagnosticSnapshot, DiagnosticTarget,
    Evidence, EvidenceView, Finding, FindingView, PstoreEntry, ScreenTarget, Severity,
    SuggestedCheck, TargetView,
};
use crate::seqs::lemma_map_take_push;
use crate::text::{decimal, decimal_string};

verus! {

/// How many entries the evidence lists.
pub open spec fn pstore_listed(n: nat) -> nat {
    if n < 10 {
        n
    } else {
        10
    }
}

pub open spec fn pstore_line(e: PstoreEntry) -> Seq<char> {
    e.name@ + " ("@ + decimal(e.bytes as nat) + " bytes)"@
}

pub open spec fn pstore_finding(entries: Seq<PstoreEntry>) -> FindingView {
    let details = entries.take(pstore_listed(entries.len()) as int).map_values(
        |e: PstoreEntry| pstore_line(e),
    );
    FindingView {
        id: "boot.pstore.present"@,
        title: "Persistent store (pstore) entries present"@,
        summary: decimal(entries.len()) + " pstore entry/entries observed (read-only listing)"@,
        severity: Severity::Warning,
        confidence: Confidence::Medium,
        category: Category::Boot,
        evidence: EvidenceView { summary: details[0], details },
        targets: seq![TargetView { screen: ScreenTarget::Diagnostics, search: Some("pstore"@) }],
        suggested_check: Some(
            CheckView {
                description: "Inspect /sys/fs/pstore contents as root if further triage is needed"@,
                command_hint: Some("ls -la /sys/fs/pstore"@),
            },
        ),
        degradable: true,
    }
}

/// One warning listing the first ten entries when any pstore entry exists.
pub open spec fn pstore_spec(snap: DiagnosticSnapshot) -> Seq<FindingView> {
    if snap.pstore_entries@.len() == 0 {
        seq![]
    } else {
        seq![pstore_finding(snap.pstore_entries@)]
    }
}

pub fn rule_pstore(snap: &DiagnosticSnapshot) -> (r: Vec<Finding>)
    ensures
        findings_view(r@) == pstore_spec(*snap),
{
    let entries = &snap.pstore_entries;
    if entries.len() == 0 {
        let out: Vec<Finding> = Vec::new();
        assert(findings_view(out@) =~= seq![]);
        return out;
    }
    let n: usize = if entries.len() < 10 {
        entries.len()
    } else {
        10
    };
    let mut details: Vec<String> = Vec::new();
    let mut i: usize = 0;
    while i < n
        invariant
            n == pstore_listed(entries@.len()),
            n <= entries.len(),
            i <= n,
            texts(details@) == entries@.take(i as int).map_values(|e: PstoreEntry| pstore_line(e)),
        decreases n - i,
    {
        let mut line = String::new();
        line.append(entries[i].name.as_str());
        line.append(" (");
        line.append(decimal_string(entries[i].bytes).as_str());
        line.append(" bytes)");
        proof {
            lemma_map_take_push(entries@, i as int, |e: PstoreEntry| pstore_line(e));
            assert(texts(details@.push(line)) =~= texts(details@).push(line@));
        }
        details.push(line);
        i += 1;
    }
    let first = details[0].clone();
    let mut summary = decimal_string(entries.len() as u64);
    summary.append(" pstore entry/entries observed (read-only listing)");
    let f = Finding {
        id: String::from_str("boot.pstore.present"),
        title: String::from_str("Persistent store (pstore) entries present"),
        summary,
        severity: Severity::Warning,
        confidence: Confidence::Medium,
        category: Category::Boot,
        evidence: Evidence { summary: first, details },
        targets: vec![
            DiagnosticTarget {
                screen: ScreenTarget::Diagnostics,
                search: Some(String::from_str("pstore")),
            },
        ],
        suggested_check: Some(
            SuggestedCheck {
                description: String::from_str(
                    "Inspect /sys/fs/pstore contents as root if further triage is needed",
                ),
                command_hint: Some(String::from_str("ls -la /sys/fs/pstore")),
            },
        ),
        degradable: true,
    };
    assert(f@.targets =~= pstore_finding(entries@).targets);
    let out = vec![f];
    assert(findings_view(out@) =~= pstore_spec(*snap));
    out
}

} // verus!
