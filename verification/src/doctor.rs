//! `doctor`: one-shot diagnostics from a probed snapshot to a report and an
//! exit code.

use vstd::prelude::*;

use crate::diagnostics::evaluator::compute_health_status;
use crate::diagnostics::evaluator::evaluate;
use crate::diagnostics::evaluator::evaluate_spec;
use crate::diagnostics::evaluator::health_spec;
use crate::diagnostics::evaluator::MeasuredFindings;
use crate::diagnostics::report::format_text_report;
use crate::diagnostics::report::json_finding_of;
use crate::diagnostics::report::json_report;
use crate::diagnostics::report::opt_str;
use crate::diagnostics::report::text_report;
use crate::diagnostics::report::JsonReport;
use crate::model::diagnostics::findings_view;
use crate::model::diagnostics::texts;
use crate::model::diagnostics::DiagnosticSnapshot;
use crate::model::diagnostics::Finding;
use crate::model::diagnostics::HealthStatus;

verus! {

#[derive(Debug, Clone)]
pub struct DoctorArgs {
    /// Print a summary text report with detailed evidence omitted by default.
    pub report: bool,
    /// Emit the JSON report.
    pub json: bool,
    /// Include full evidence details (may contain sensitive host values and paths).
    pub include_sensitive: bool,
    /// Use synthetic demo probes (no host interaction).
    pub demo: bool,
    /// Read-only Linux providers (doctor only observes anyway).
    pub read_only: bool,
}

/// Exit codes: 0 Ok, 1 Warning, 2 Critical, 3 Unknown.
pub open spec fn exit_code_of(h: HealthStatus) -> u8 {
    match h {
        HealthStatus::Healthy => 0,
        HealthStatus::Warning => 1,
        HealthStatus::Critical => 2,
        HealthStatus::Unknown => 3,
    }
}

pub fn doctor_exit_code(health: HealthStatus) -> (c: u8)
    ensures
        c == exit_code_of(health),
{
    match health {
        HealthStatus::Healthy => 0,
        HealthStatus::Warning => 1,
        HealthStatus::Critical => 2,
        HealthStatus::Unknown => 3,
    }
}

/// What `doctor` prints.
#[derive(Debug)]
pub enum DoctorReport {
    Text(String),
    Json(JsonReport),
}

/// A finished `doctor` run on a probed snapshot.
#[derive(Debug)]
pub struct DoctorRun {
    pub findings: Vec<Finding>,
    pub health: HealthStatus,
    pub report: DoctorReport,
    pub exit_code: u8,
}

/// Evaluates the snapshot, rates the host, and builds the report the options
/// ask for (JSON with `--json`, text otherwise); `home` is the home
/// directory redacted from evidence.
pub fn run_doctor(
    args: &DoctorArgs,
    snapshot: &DiagnosticSnapshot,
    measured: MeasuredFindings,
    home: Option<&str>,
) -> (r: DoctorRun)
    ensures
        findings_view(r.findings@) == evaluate_spec(*snapshot, measured),
        r.health == health_spec(
            findings_view(r.findings@),
            snapshot.systemd_observable,
            snapshot.journal_observable,
        ),
        r.exit_code == exit_code_of(r.health),
        args.json <==> r.report is Json,
        r.report matches DoctorReport::Text(t) ==> t@ == text_report(
            r.health,
            findings_view(r.findings@),
            args.include_sensitive,
            texts(snapshot.probes_degraded@),
            opt_str(home),
        ),
        r.report matches DoctorReport::Json(j) ==> j.health@ == r.health.label_text()
            && j.probes_degraded@ == snapshot.probes_degraded@ && j.findings@.len()
            == r.findings@.len(),
        r.report matches DoctorReport::Json(j) ==> forall|i: int|
            0 <= i < j.findings@.len() ==> json_finding_of(
                #[trigger] j.findings@[i],
                r.findings@[i]@,
                args.include_sensitive,
                opt_str(home),
            ),
{
    let findings = evaluate(snapshot, measured);
    let health = compute_health_status(
        findings.as_slice(),
        snapshot.systemd_observable,
        snapshot.journal_observable,
    );
    let report = if args.json {
        DoctorReport::Json(
            json_report(
                health,
                findings.as_slice(),
                args.include_sensitive,
                snapshot.probes_degraded.as_slice(),
                home,
            ),
        )
    } else {
        DoctorReport::Text(
            format_text_report(
                health,
                findings.as_slice(),
                args.include_sensitive,
                snapshot.probes_degraded.as_slice(),
                home,
            ),
        )
    };
    let exit_code = doctor_exit_code(health);
    DoctorRun { findings, health, report, exit_code }
}

} // verus!
