//! SMART / disk health rules. Never requests self-tests.

use vstd::prelude::*;

use crate::diagnostics::rules::common::{sanitize_id, sanitized};
use crate::model::diagnostics::{
    findings_view, texts, Category, CheckView, Confidence, DiagnosticSnapshot, DiagnosticTarget,
    Evidence, EvidenceView, Finding, FindingView, ScreenTarget, Severity, SmartDiskSnapshot,
    SuggestedCheck, TargetView,
};
use crate::seqs::{lemma_map_add, lemma_map_push, lemma_take_all};
use crate::text::{clone_strings, decimal, decimal_string};

verus! {

/// Critical finding for a disk whose overall SMART health check failed.
pub open spec fn smart_health_finding(d: SmartDiskSnapshot) -> FindingView {
    FindingView {
        id: "smart.health."@ + sanitized(d.device@),
        title: "SMART health failed: "@ + d.device@,
        summary: "smartctl -H reported FAILED (read-only check)"@,
        severity: Severity::Critical,
        confidence: Confidence::High,
        category: Category::Hardware,
        evidence: EvidenceView { summary: d.summary@, details: texts(d.details@) },
        targets: seq![TargetView { screen: ScreenTarget::Diagnostics, search: Some(d.device@) }],
        suggested_check: Some(
            CheckView {
                description: "Inspect SMART attributes (read-only)"@,
                command_hint: Some("smartctl -H -A -l error "@ + d.device@),
            },
        ),
        degradable: true,
    }
}

/// The CRC count grew since the previously remembered value.
pub open spec fn crc_increased(d: SmartDiskSnapshot, crc: u64) -> bool {
    match d.prev_uda_crc_error_count {
        Some(prev) => crc > prev,
        None => false,
    }
}

/// Finding for a non-zero SATA CRC error count: a warning when it grew, else information.
pub open spec fn smart_crc_finding(d: SmartDiskSnapshot, crc: u64) -> FindingView {
    let increased = crc_increased(d, crc);
    FindingView {
        id: "smart.crc."@ + sanitized(d.device@),
        title: "SATA CRC errors on "@ + d.device@,
        summary: if increased {
            "CRC error count increased to "@ + decimal(crc as nat)
        } else {
            "Historic CRC error count is "@ + decimal(crc as nat) + " (non-zero)"@
        },
        severity: if increased {
            Severity::Warning
        } else {
            Severity::Info
        },
        confidence: Confidence::Medium,
        category: Category::Hardware,
        evidence: EvidenceView {
            summary: "UDMA_CRC_Error_Count="@ + decimal(crc as nat),
            details: texts(d.details@),
        },
        targets: seq![TargetView { screen: ScreenTarget::Storage, search: None }],
        suggested_check: Some(
            CheckView {
                description: "Check cabling/link integrity; do not run SMART self-tests from this app"@,
                command_hint: Some("smartctl -A "@ + d.device@),
            },
        ),
        degradable: true,
    }
}

/// Findings for one disk: nothing when SMART data is unavailable; otherwise the
/// failed-health finding (if it failed) followed by the CRC finding (if non-zero).
pub open spec fn disk_findings(d: SmartDiskSnapshot) -> Seq<FindingView> {
    if !d.available {
        seq![]
    } else {
        let health = if d.passed == Some(false) {
            seq![smart_health_finding(d)]
        } else {
            seq![]
        };
        let crc = match d.uda_crc_error_count {
            Some(c) => if c > 0 {
                seq![smart_crc_finding(d, c)]
            } else {
                seq![]
            },
            None => seq![],
        };
        health + crc
    }
}

/// The disks' findings, disk by disk.
pub open spec fn smart_findings(disks: Seq<SmartDiskSnapshot>) -> Seq<FindingView>
    decreases disks.len(),
{
    if disks.len() == 0 {
        seq![]
    } else {
        smart_findings(disks.drop_last()) + disk_findings(disks.last())
    }
}

fn health_finding(d: &SmartDiskSnapshot) -> (f: Finding)
    ensures
        f@ == smart_health_finding(*d),
{
    let mut id = String::from_str("smart.health.");
    id.append(sanitize_id(d.device.as_str()).as_str());
    let mut title = String::from_str("SMART health failed: ");
    title.append(d.device.as_str());
    let mut hint = String::from_str("smartctl -H -A -l error ");
    hint.append(d.device.as_str());
    let f = Finding {
        id,
        title,
        summary: String::from_str("smartctl -H reported FAILED (read-only check)"),
        severity: Severity::Critical,
        confidence: Confidence::High,
        category: Category::Hardware,
        evidence: Evidence { summary: d.summary.clone(), details: clone_strings(&d.details) },
        targets: vec![
            DiagnosticTarget { screen: ScreenTarget::Diagnostics, search: Some(d.device.clone()) },
        ],
        suggested_check: Some(
            SuggestedCheck {
                description: String::from_str("Inspect SMART attributes (read-only)"),
                command_hint: Some(hint),
            },
        ),
        degradable: true,
    };
    assert(f@.targets =~= smart_health_finding(*d).targets);
    f
}

fn crc_finding(d: &SmartDiskSnapshot, crc: u64) -> (f: Finding)
    ensures
        f@ == smart_crc_finding(*d, crc),
{
    let increased = match d.prev_uda_crc_error_count {
        Some(prev) => crc > prev,
        None => false,
    };
    let count = decimal_string(crc);
    let mut id = String::from_str("smart.crc.");
    id.append(sanitize_id(d.device.as_str()).as_str());
    let mut title = String::from_str("SATA CRC errors on ");
    title.append(d.device.as_str());
    let summary = if increased {
        let mut s = String::from_str("CRC error count increased to ");
        s.append(count.as_str());
        s
    } else {
        let mut s = String::from_str("Historic CRC error count is ");
        s.append(count.as_str());
        s.append(" (non-zero)");
        s
    };
    let mut evidence = String::from_str("UDMA_CRC_Error_Count=");
    evidence.append(count.as_str());
    let mut hint = String::from_str("smartctl -A ");
    hint.append(d.device.as_str());
    let f = Finding {
        id,
        title,
        summary,
        severity: if increased {
            Severity::Warning
        } else {
            Severity::Info
        },
        confidence: Confidence::Medium,
        category: Category::Hardware,
        evidence: Evidence { summary: evidence, details: clone_strings(&d.details) },
        targets: vec![DiagnosticTarget { screen: ScreenTarget::Storage, search: None }],
        suggested_check: Some(
            SuggestedCheck {
                description: String::from_str(
                    "Check cabling/link integrity; do not run SMART self-tests from this app",
                ),
                command_hint: Some(hint),
            },
        ),
        degradable: true,
    };
    assert(f@.targets =~= smart_crc_finding(*d, crc).targets);
    f
}

/// Per available disk: a critical finding when SMART health failed, and a CRC
/// finding (warning when the count grew, information otherwise) when it is non-zero.
pub fn rule_smart(snap: &DiagnosticSnapshot) -> (r: Vec<Finding>)
    ensures
        findings_view(r@) == smart_findings(snap.smart_disks@),
{
    let disks = &snap.smart_disks;
    let mut out: Vec<Finding> = Vec::new();
    let mut i: usize = 0;
    assert(findings_view(out@) =~= seq![]);
    while i < disks.len()
        invariant
            i <= disks.len(),
            findings_view(out@) == smart_findings(disks@.take(i as int)),
        decreases disks.len() - i,
    {
        let d = &disks[i];
        assert(disks@.take(i + 1).drop_last() =~= disks@.take(i as int));
        let ghost before = findings_view(out@);
        let mut mine: Vec<Finding> = Vec::new();
        if d.available {
            if d.passed == Some(false) {
                let f = health_finding(d);
                mine.push(f);
            }
            match d.uda_crc_error_count {
                Some(c) => {
                    if c > 0 {
                        let f = crc_finding(d, c);
                        proof {
                            lemma_map_push(mine@, f, |f: Finding| f@);
                        }
                        mine.push(f);
                    }
                },
                None => {},
            }
        }
        assert(findings_view(mine@) =~= disk_findings(*d));
        proof {
            lemma_map_add(out@, mine@, |f: Finding| f@);
        }
        out.append(&mut mine);
        i += 1;
    }
    proof {
        lemma_take_all(disks@);
    }
    out
}

} // verus!
