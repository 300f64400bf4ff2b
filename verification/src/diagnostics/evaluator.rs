//! Diagnostic evaluation: snapshot → findings, findings → overall health.

use vstd::prelude::*;

use crate::diagnostics::rules::boot::{previous_boot_spec, rule_previous_boot};
use crate::diagnostics::rules::clock::{clock_sync_spec, rule_clock_sync};
use crate::diagnostics::rules::coredumps::{coredumps_spec, rule_coredumps};
use crate::diagnostics::rules::etc_meta::{etc_meta_spec, rule_etc_meta};
use crate::diagnostics::rules::failed_services::{failed_services_spec, rule_failed_services};
use crate::diagnostics::rules::journal::{journal_critical_spec, rule_journal_critical};
use crate::diagnostics::rules::oom::{oom_spec, rule_oom};
use crate::diagnostics::rules::pstore::{pstore_finding, pstore_spec, rule_pstore};
use crate::diagnostics::rules::smart::{rule_smart, smart_findings};
use crate::model::diagnostics::{
    findings_view, DiagnosticSnapshot, Finding, FindingView, HealthStatus, Severity,
};
use crate::seqs::lemma_map_add;

verus! {

/// Findings of the rules that read measured percentages and temperatures
/// (memory/CPU/IO pressure, resource utilisation, temperatures), computed
/// outside this crate from floating-point measurements.
#[derive(Debug)]
pub struct MeasuredFindings {
    pub psi: Vec<Finding>,
    pub resource_pressure: Vec<Finding>,
    pub temperature: Vec<Finding>,
}

/// Every rule's findings, in rule order: failed services, journal, OOM, previous
/// boot, pstore, coredumps, PSI, resource pressure, temperature, clock, /etc, SMART.
pub open spec fn evaluate_spec(snap: DiagnosticSnapshot, measured: MeasuredFindings) -> Seq<
    FindingView,
> {
    failed_services_spec(snap) + journal_critical_spec(snap) + oom_spec(snap) + previous_boot_spec(
        snap,
    ) + pstore_spec(snap) + coredumps_spec(snap) + findings_view(measured.psi@) + findings_view(
        measured.resource_pressure@,
    ) + findings_view(measured.temperature@) + clock_sync_spec(snap) + etc_meta_spec(snap)
        + smart_findings(snap.smart_disks@)
}

fn extend_findings(out: &mut Vec<Finding>, more: Vec<Finding>)
    ensures
        findings_view(final(out)@) == findings_view(old(out)@) + findings_view(more@),
{
    let mut more = more;
    proof {
        lemma_map_add(out@, more@, |f: Finding| f@);
    }
    out.append(&mut more);
}

/// Evaluate findings from an already-collected snapshot.
pub fn evaluate(snapshot: &DiagnosticSnapshot, measured: MeasuredFindings) -> (r: Vec<Finding>)
    ensures
        findings_view(r@) == evaluate_spec(*snapshot, measured),
{
    let ghost m = measured;
    let MeasuredFindings { psi, resource_pressure, temperature } = measured;
    let mut findings: Vec<Finding> = Vec::new();
    assert(findings_view(findings@) =~= seq![]);
    extend_findings(&mut findings, rule_failed_services(snapshot));
    extend_findings(&mut findings, rule_journal_critical(snapshot));
    extend_findings(&mut findings, rule_oom(snapshot));
    extend_findings(&mut findings, rule_previous_boot(snapshot));
    extend_findings(&mut findings, rule_pstore(snapshot));
    extend_findings(&mut findings, rule_coredumps(snapshot));
    extend_findings(&mut findings, psi);
    extend_findings(&mut findings, resource_pressure);
    extend_findings(&mut findings, temperature);
    extend_findings(&mut findings, rule_clock_sync(snapshot));
    extend_findings(&mut findings, rule_etc_meta(snapshot));
    extend_findings(&mut findings, rule_smart(snapshot));
    assert(findings_view(findings@) =~= evaluate_spec(*snapshot, m));
    findings
}

/// `start` made worse by every finding's severity, left to right.
pub open spec fn fold_worse(fs: Seq<FindingView>, start: HealthStatus) -> HealthStatus
    decreases fs.len(),
{
    if fs.len() == 0 {
        start
    } else {
        fold_worse(fs.drop_last(), start).worse_of(fs.last().severity.health())
    }
}

/// Overall health: the worst finding severity, starting from Ok when both
/// required subsystems are observable; otherwise starting from Unknown and never Ok.
pub open spec fn health_spec(fs: Seq<FindingView>, systemd_observable: bool, journal_observable: bool) -> HealthStatus {
    if !systemd_observable || !journal_observable {
        let s = fold_worse(fs, HealthStatus::Unknown);
        if s == HealthStatus::Healthy {
            HealthStatus::Unknown
        } else {
            s
        }
    } else {
        fold_worse(fs, HealthStatus::Healthy)
    }
}

/// Aggregate health: never Ok if required subsystems cannot be observed.
pub fn compute_health_status(
    findings: &[Finding],
    systemd_observable: bool,
    journal_observable: bool,
) -> (h: HealthStatus)
    ensures
        h == health_spec(findings_view(findings@), systemd_observable, journal_observable),
{
    let ghost fs = findings_view(findings@);
    let start = if !systemd_observable || !journal_observable {
        HealthStatus::Unknown
    } else {
        HealthStatus::Healthy
    };
    let mut status = start;
    let mut i: usize = 0;
    while i < findings.len()
        invariant
            fs == findings_view(findings@),
            i <= findings.len(),
            status == fold_worse(fs.take(i as int), start),
        decreases findings.len() - i,
    {
        assert(fs.take(i + 1).drop_last() =~= fs.take(i as int));
        assert(fs.take(i + 1).last() == findings@[i as int]@);
        status = status.worse(findings[i].severity.to_health());
        i += 1;
    }
    assert(fs.take(findings.len() as int) =~= fs);
    if !systemd_observable || !journal_observable {
        if status == HealthStatus::Healthy {
            return HealthStatus::Unknown;
        }
    }
    status
}

/// Some finding has severity `s`.
pub open spec fn has_severity(fs: Seq<FindingView>, s: Severity) -> bool {
    exists|i: int| 0 <= i < fs.len() && fs[i].severity == s
}

proof fn lemma_fold_worse(fs: Seq<FindingView>, start: HealthStatus)
    requires
        start == HealthStatus::Unknown || start == HealthStatus::Healthy,
    ensures
        fold_worse(fs, start) == if has_severity(fs, Severity::Critical) {
            HealthStatus::Critical
        } else if has_severity(fs, Severity::Warning) {
            HealthStatus::Warning
        } else if has_severity(fs, Severity::Info) {
            HealthStatus::Healthy
        } else {
            start
        },
    decreases fs.len(),
{
    if fs.len() > 0 {
        let init = fs.drop_last();
        lemma_fold_worse(init, start);
        assert forall|s: Severity| has_severity(fs, s) <==> (has_severity(init, s) || fs.last().severity == s) by {
            if has_severity(fs, s) {
                let i = choose|i: int| 0 <= i < fs.len() && fs[i].severity == s;
                if i < fs.len() - 1 {
                    assert(init[i].severity == s);
                }
            }
            if has_severity(init, s) {
                let i = choose|i: int| 0 <= i < init.len() && init[i].severity == s;
                assert(fs[i].severity == s);
            }
        }
    }
}

/// The overall status is the worst severity present, whatever the order of the
/// findings: Critical when any finding is critical, else Warning when any is a
/// warning, else Ok when both required subsystems are observable and Unknown
/// when one is not.
pub proof fn lemma_health_is_worst_severity(
    fs: Seq<FindingView>,
    systemd_observable: bool,
    journal_observable: bool,
)
    ensures
        health_spec(fs, systemd_observable, journal_observable) == if has_severity(
            fs,
            Severity::Critical,
        ) {
            HealthStatus::Critical
        } else if has_severity(fs, Severity::Warning) {
            HealthStatus::Warning
        } else if systemd_observable && journal_observable {
            HealthStatus::Healthy
        } else {
            HealthStatus::Unknown
        },
{
    lemma_fold_worse(fs, HealthStatus::Unknown);
    lemma_fold_worse(fs, HealthStatus::Healthy);
}

/// Health is never Ok while systemd or the journal cannot be observed.
pub proof fn lemma_never_ok_when_unobservable(
    fs: Seq<FindingView>,
    systemd_observable: bool,
    journal_observable: bool,
)
    requires
        !systemd_observable || !journal_observable,
    ensures
        health_spec(fs, systemd_observable, journal_observable) != HealthStatus::Healthy,
{
    lemma_health_is_worst_severity(fs, systemd_observable, journal_observable);
}

/// A critical finding always surfaces as critical health, observable or not.
pub proof fn lemma_critical_surfaces(
    fs: Seq<FindingView>,
    i: int,
    systemd_observable: bool,
    journal_observable: bool,
)
    requires
        0 <= i < fs.len(),
        fs[i].severity == Severity::Critical,
    ensures
        health_spec(fs, systemd_observable, journal_observable) == HealthStatus::Critical,
{
    lemma_health_is_worst_severity(fs, systemd_observable, journal_observable);
}

proof fn lemma_contains_add(a: Seq<FindingView>, b: Seq<FindingView>)
    ensures
        forall|x: FindingView| a.contains(x) ==> #[trigger] (a + b).contains(x),
        forall|x: FindingView| b.contains(x) ==> #[trigger] (a + b).contains(x),
        forall|x: FindingView| #[trigger] (a + b).contains(x) ==> a.contains(x) || b.contains(x),
{
    assert forall|x: FindingView| a.contains(x) implies #[trigger] (a + b).contains(x) by {
        let i = choose|i: int| 0 <= i < a.len() && a[i] == x;
        assert((a + b)[i] == x);
    }
    assert forall|x: FindingView| b.contains(x) implies #[trigger] (a + b).contains(x) by {
        let i = choose|i: int| 0 <= i < b.len() && b[i] == x;
        assert((a + b)[a.len() + i] == x);
    }
    assert forall|x: FindingView| #[trigger] (a + b).contains(x) implies a.contains(x) || b.contains(x) by {
        let i = choose|i: int| 0 <= i < (a + b).len() && (a + b)[i] == x;
        if i < a.len() {
            assert(a[i] == x);
        } else {
            assert(b[i - a.len()] == x);
        }
    }
}

/// Every rule is run: each finding of each rule (failed services, journal,
/// OOM, previous boot, pstore, coredumps, the measured pressure, resource
/// and temperature findings, clock, /etc, SMART) is among the evaluated
/// findings, and nothing else is. So a crash record in pstore always shows
/// as a `boot.pstore.present` warning.
pub proof fn lemma_evaluate_runs_every_rule(snap: DiagnosticSnapshot, measured: MeasuredFindings)
    ensures
        forall|f: FindingView| failed_services_spec(snap).contains(f) ==> #[trigger] evaluate_spec(snap, measured).contains(f),
        forall|f: FindingView| journal_critical_spec(snap).contains(f) ==> #[trigger] evaluate_spec(snap, measured).contains(f),
        forall|f: FindingView| oom_spec(snap).contains(f) ==> #[trigger] evaluate_spec(snap, measured).contains(f),
        forall|f: FindingView| previous_boot_spec(snap).contains(f) ==> #[trigger] evaluate_spec(snap, measured).contains(f),
        forall|f: FindingView| pstore_spec(snap).contains(f) ==> #[trigger] evaluate_spec(snap, measured).contains(f),
        forall|f: FindingView| coredumps_spec(snap).contains(f) ==> #[trigger] evaluate_spec(snap, measured).contains(f),
        forall|f: FindingView| findings_view(measured.psi@).contains(f) ==> #[trigger] evaluate_spec(snap, measured).contains(f),
        forall|f: FindingView| findings_view(measured.resource_pressure@).contains(f) ==> #[trigger] evaluate_spec(snap, measured).contains(f),
        forall|f: FindingView| findings_view(measured.temperature@).contains(f) ==> #[trigger] evaluate_spec(snap, measured).contains(f),
        forall|f: FindingView| clock_sync_spec(snap).contains(f) ==> #[trigger] evaluate_spec(snap, measured).contains(f),
        forall|f: FindingView| etc_meta_spec(snap).contains(f) ==> #[trigger] evaluate_spec(snap, measured).contains(f),
        forall|f: FindingView| smart_findings(snap.smart_disks@).contains(f) ==> #[trigger] evaluate_spec(snap, measured).contains(f),
        forall|f: FindingView| #[trigger] evaluate_spec(snap, measured).contains(f) ==> failed_services_spec(snap).contains(f)
            || journal_critical_spec(snap).contains(f) || oom_spec(snap).contains(f)
            || previous_boot_spec(snap).contains(f) || pstore_spec(snap).contains(f)
            || coredumps_spec(snap).contains(f) || findings_view(measured.psi@).contains(f)
            || findings_view(measured.resource_pressure@).contains(f) || findings_view(
            measured.temperature@,
        ).contains(f) || clock_sync_spec(snap).contains(f) || etc_meta_spec(snap).contains(f)
            || smart_findings(snap.smart_disks@).contains(f),
        snap.pstore_entries@.len() > 0 ==> exists|f: FindingView|
            #[trigger] evaluate_spec(snap, measured).contains(f) && f.id == "boot.pstore.present"@
                && f.severity == Severity::Warning,
{
    let s1 = failed_services_spec(snap);
    let s2 = s1 + journal_critical_spec(snap);
    let s3 = s2 + oom_spec(snap);
    let s4 = s3 + previous_boot_spec(snap);
    let s5 = s4 + pstore_spec(snap);
    let s6 = s5 + coredumps_spec(snap);
    let s7 = s6 + findings_view(measured.psi@);
    let s8 = s7 + findings_view(measured.resource_pressure@);
    let s9 = s8 + findings_view(measured.temperature@);
    let s10 = s9 + clock_sync_spec(snap);
    let s11 = s10 + etc_meta_spec(snap);
    let s12 = s11 + smart_findings(snap.smart_disks@);
    assert(s12 == evaluate_spec(snap, measured));
    lemma_contains_add(s1, journal_critical_spec(snap));
    lemma_contains_add(s2, oom_spec(snap));
    lemma_contains_add(s3, previous_boot_spec(snap));
    lemma_contains_add(s4, pstore_spec(snap));
    lemma_contains_add(s5, coredumps_spec(snap));
    lemma_contains_add(s6, findings_view(measured.psi@));
    lemma_contains_add(s7, findings_view(measured.resource_pressure@));
    lemma_contains_add(s8, findings_view(measured.temperature@));
    lemma_contains_add(s9, clock_sync_spec(snap));
    lemma_contains_add(s10, etc_meta_spec(snap));
    lemma_contains_add(s11, smart_findings(snap.smart_disks@));
    if snap.pstore_entries@.len() > 0 {
        let f = pstore_finding(snap.pstore_entries@);
        assert(pstore_spec(snap)[0] == f);
        assert(pstore_spec(snap).contains(f));
        assert(s12.contains(f));
    }
}

} // verus!
