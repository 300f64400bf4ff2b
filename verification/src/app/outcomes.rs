//! What finished background work changes: a diagnostics run and a storage
//! scan.

use vstd::prelude::*;

use crate::app::event::DiagnosticOutcome;
use crate::app::substates::ScanState;
use crate::error::AppError;
use crate::model::diagnostics::HealthStatus;
use crate::model::health::SubsystemHealth;
use crate::persist::crc_entries;
use crate::persist::crc_lookup;
use crate::persist::AppPersistState;
use crate::text::decimal;
use crate::text::decimal_string;
use crate::text::has_substring;
use crate::text::str_contains;

verus! {

/// A line for the status bar, by kind.
#[derive(Debug, Clone)]
pub enum Notice {
    Status(String),
    Warning(String),
    Error(AppError),
}

/// The last observation for `dev` among `obs`, if any.
pub open spec fn last_observed(obs: Seq<(Seq<char>, u64)>, dev: Seq<char>) -> Option<u64>
    decreases obs.len(),
{
    if obs.len() == 0 {
        None
    } else if obs.last().0 == dev {
        Some(obs.last().1)
    } else {
        last_observed(obs.drop_last(), dev)
    }
}

/// The status line after a diagnostics run.
pub open spec fn diagnostics_status_text(findings: nat, degraded: nat, health: HealthStatus) -> Seq<char> {
    if degraded > 0 {
        "diagnostics: "@ + decimal(findings) + " finding(s); "@ + decimal(degraded)
            + " probe(s) degraded"@
    } else {
        "diagnostics: "@ + decimal(findings) + " finding(s); health="@ + health.label_text()
    }
}

/// What a finished diagnostics run leaves in the application besides its
/// findings, health and report.
#[derive(Debug, Clone)]
pub struct DiagnosticsApplied {
    /// Degraded when some probe was degraded, else healthy.
    pub subsystem: SubsystemHealth,
    /// The selected finding, moved back onto the list when past its end.
    pub selected: usize,
    pub status: String,
}

/// Records a finished diagnostics run at `now_micros` microseconds since
/// the epoch: the run time (in seconds), each SMART CRC
/// observation in order (a later one for a device wins), the diagnostics
/// subsystem's health, the selection and the status line.
pub fn apply_diagnostics_outcome(
    persist: &mut AppPersistState,
    outcome: &DiagnosticOutcome,
    selected: usize,
    now_micros: u64,
) -> (r: DiagnosticsApplied)
    ensures
        final(persist).last_diagnostic_at == Some(now_micros / 1_000_000),
        final(persist).last_seen_boot_id == old(persist).last_seen_boot_id,
        final(persist).acknowledged_finding_ids == old(persist).acknowledged_finding_ids,
        forall|d: Seq<char>|
            #[trigger] crc_lookup(crc_entries(final(persist).smart_crc_counts@), d) == match last_observed(
                crc_entries(outcome.smart_crc_observations@),
                d,
            ) {
                Some(c) => Some(c),
                None => crc_lookup(crc_entries(old(persist).smart_crc_counts@), d),
            },
        r.subsystem == if outcome.probes_degraded@.len() == 0 {
            SubsystemHealth::Healthy
        } else {
            SubsystemHealth::Degraded
        },
        r.selected == if selected >= outcome.findings@.len() {
            if outcome.findings@.len() == 0 {
                0
            } else {
                (outcome.findings@.len() - 1) as usize
            }
        } else {
            selected
        },
        r.status@ == diagnostics_status_text(
            outcome.findings@.len(),
            outcome.probes_degraded@.len(),
            outcome.health,
        ),
{
    persist.touch_diagnostic_at(now_micros);
    let obs = &outcome.smart_crc_observations;
    let ghost start = crc_entries(persist.smart_crc_counts@);
    let mut i: usize = 0;
    while i < obs.len()
        invariant
            i <= obs@.len(),
            persist.last_diagnostic_at == Some(now_micros / 1_000_000),
            persist.last_seen_boot_id == old(persist).last_seen_boot_id,
            persist.acknowledged_finding_ids == old(persist).acknowledged_finding_ids,
            start == crc_entries(old(persist).smart_crc_counts@),
            forall|d: Seq<char>|
                #[trigger] crc_lookup(crc_entries(persist.smart_crc_counts@), d) == match last_observed(
                    crc_entries(obs@.take(i as int)),
                    d,
                ) {
                    Some(c) => Some(c),
                    None => crc_lookup(start, d),
                },
        decreases obs@.len() - i,
    {
        assert(crc_entries(obs@.take(i + 1)).drop_last() =~= crc_entries(obs@.take(i as int)));
        persist.remember_crc(obs[i].0.as_str(), obs[i].1);
        i += 1;
    }
    assert(obs@.take(obs@.len() as int) =~= obs@);
    let subsystem = if outcome.probes_degraded.len() == 0 {
        SubsystemHealth::Healthy
    } else {
        SubsystemHealth::Degraded
    };
    let n = outcome.findings.len();
    let sel = if selected >= n {
        if n == 0 {
            0
        } else {
            n - 1
        }
    } else {
        selected
    };
    let degraded = outcome.probes_degraded.len();
    let mut status = String::from_str("diagnostics: ");
    status.append(decimal_string(n as u64).as_str());
    if degraded > 0 {
        status.append(" finding(s); ");
        status.append(decimal_string(degraded as u64).as_str());
        status.append(" probe(s) degraded");
    } else {
        status.append(" finding(s); health=");
        status.append(outcome.health.label());
    }
    DiagnosticsApplied { subsystem, selected: sel, status }
}

/// Where a finished storage scan leaves the scan, and what the status bar
/// says: a finished scan (warned about when truncated at the entry budget),
/// or a failure, which counts as a cancellation when its message says so.
pub fn storage_scan_result(result: Result<bool, AppError>) -> (r: (ScanState, Notice))
    ensures
        result matches Ok(truncated) ==> r.0 == ScanState::Finished && (if truncated {
            r.1 matches Notice::Warning(w) && w@
                == "storage scan truncated at entry budget \u{2014} results are partial"@
        } else {
            r.1 matches Notice::Status(s) && s@ == "storage scan finished"@
        }),
        result matches Err(e) ==> if has_substring(e.display_text(), "cancel"@) {
            r.0 == ScanState::Cancelled && (r.1 matches Notice::Status(s) && s@
                == "storage scan cancelled"@)
        } else {
            r.0 == ScanState::Idle && r.1 == Notice::Error(e)
        },
{
    match result {
        Ok(truncated) => {
            if truncated {
                (
                    ScanState::Finished,
                    Notice::Warning(
                        String::from_str(
                            "storage scan truncated at entry budget \u{2014} results are partial",
                        ),
                    ),
                )
            } else {
                (ScanState::Finished, Notice::Status(String::from_str("storage scan finished")))
            }
        },
        Err(e) => {
            let text = e.message();
            if str_contains(text.as_str(), "cancel") {
                (ScanState::Cancelled, Notice::Status(String::from_str("storage scan cancelled")))
            } else {
                (ScanState::Idle, Notice::Error(e))
            }
        },
    }
}

} // verus!
