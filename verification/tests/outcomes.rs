use server_tui::app::event::DiagnosticOutcome;
use server_tui::app::outcomes::{apply_diagnostics_outcome, storage_scan_result, Notice};
use server_tui::app::substates::ScanState;
use server_tui::error::AppError;
use server_tui::model::diagnostics::{Category, Confidence, Evidence, Finding, HealthStatus, Severity};
use server_tui::model::health::SubsystemHealth;
use server_tui::persist::AppPersistState;

fn finding(id: &str) -> Finding {
    Finding {
        id: id.into(),
        title: "t".into(),
        summary: "s".into(),
        severity: Severity::Warning,
        confidence: Confidence::Medium,
        category: Category::Storage,
        evidence: Evidence { summary: "e".into(), details: vec![] },
        targets: vec![],
        suggested_check: None,
        degradable: true,
    }
}

fn outcome(findings: usize, degraded: usize, obs: Vec<(&str, u64)>) -> DiagnosticOutcome {
    DiagnosticOutcome {
        findings: (0..findings).map(|i| finding(&format!("f{i}"))).collect(),
        health: HealthStatus::Warning,
        report: String::new(),
        probes_degraded: (0..degraded).map(|i| format!("p{i}")).collect(),
        smart_crc_observations: obs.into_iter().map(|(d, c)| (d.to_string(), c)).collect(),
    }
}

#[test]
fn diagnostics_outcome_records_crc_and_status() {
    let mut persist = AppPersistState::default();
    persist.remember_crc("/dev/sdb", 1);
    let o = outcome(2, 0, vec![("/dev/sda", 3), ("/dev/sda", 5)]);
    let applied = apply_diagnostics_outcome(&mut persist, &o, 7, 5_000_000);
    assert_eq!(persist.last_diagnostic_at, Some(5));
    assert!(persist.last_diagnostic_at.is_some());
    assert_eq!(persist.previous_crc("/dev/sda"), Some(5));
    assert_eq!(persist.previous_crc("/dev/sdb"), Some(1));
    assert_eq!(applied.subsystem, SubsystemHealth::Healthy);
    assert_eq!(applied.selected, 1);
    assert_eq!(applied.status, "diagnostics: 2 finding(s); health=warning");
}

#[test]
fn degraded_probes_are_reported() {
    let mut persist = AppPersistState::default();
    let applied = apply_diagnostics_outcome(&mut persist, &outcome(0, 3, vec![]), 4, 0);
    assert_eq!(applied.subsystem, SubsystemHealth::Degraded);
    assert_eq!(applied.selected, 0);
    assert_eq!(applied.status, "diagnostics: 0 finding(s); 3 probe(s) degraded");
    let applied = apply_diagnostics_outcome(&mut persist, &outcome(5, 0, vec![]), 2, 0);
    assert_eq!(applied.selected, 2);
}

#[test]
fn storage_scan_endings() {
    let (state, notice) = storage_scan_result(Ok(false));
    assert_eq!(state, ScanState::Finished);
    assert!(matches!(notice, Notice::Status(ref s) if s == "storage scan finished"));
    let (state, notice) = storage_scan_result(Ok(true));
    assert_eq!(state, ScanState::Finished);
    assert!(matches!(notice, Notice::Warning(ref s) if s.contains("truncated at entry budget")));
    let (state, notice) = storage_scan_result(Err(AppError::Storage("scan cancelled".into())));
    assert_eq!(state, ScanState::Cancelled);
    assert!(matches!(notice, Notice::Status(ref s) if s == "storage scan cancelled"));
    let (state, notice) = storage_scan_result(Err(AppError::Storage("disk gone".into())));
    assert_eq!(state, ScanState::Idle);
    assert!(matches!(notice, Notice::Error(AppError::Storage(ref m)) if m == "disk gone"));
}
