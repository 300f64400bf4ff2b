use server_tui::diagnostics::evaluator::{compute_health_status, evaluate, MeasuredFindings};
use server_tui::diagnostics::report::{format_text_report, json_report, redact_line};
use server_tui::diagnostics::rules::common::sanitize_id;
use server_tui::diagnostics::rules::failed_services::rule_failed_services;
use server_tui::diagnostics::rules::journal::rule_journal_critical;
use server_tui::diagnostics::rules::smart::rule_smart;
use server_tui::model::diagnostics::{
    Category, Confidence, DiagnosticSnapshot, Evidence, FailedUnitSnapshot, Finding,
    HealthStatus, JournalCriticalGroup, OomEvent, PreviousBootSummary, Severity,
    SmartDiskSnapshot,
};

fn base() -> DiagnosticSnapshot {
    DiagnosticSnapshot {
        systemd_observable: true,
        journal_observable: true,
        ..DiagnosticSnapshot::default()
    }
}

fn no_measurements() -> MeasuredFindings {
    MeasuredFindings { psi: vec![], resource_pressure: vec![], temperature: vec![] }
}

fn finding(id: &str, severity: Severity) -> Finding {
    Finding {
        id: id.into(),
        title: "t".into(),
        summary: "s".into(),
        severity,
        confidence: Confidence::High,
        category: Category::Services,
        evidence: Evidence { summary: "e".into(), details: vec![] },
        targets: vec![],
        suggested_check: None,
        degradable: true,
    }
}

#[test]
fn failed_service_finding() {
    let mut snap = base();
    snap.failed_units.push(FailedUnitSnapshot {
        unit: "broken.service".into(),
        active_state: "failed".into(),
        sub_state: "failed".into(),
        description: "x".into(),
    });
    let findings = evaluate(&snap, no_measurements());
    assert!(findings.iter().any(|f| f.id.contains("svc.failed")));
}

#[test]
fn health_unknown_without_required() {
    let status = compute_health_status(&[], false, true);
    assert_eq!(status, HealthStatus::Unknown);
}

#[test]
fn oom_finding() {
    let mut snap = base();
    snap.oom_events.push(OomEvent { process: "foo".into(), message: "Killed process".into() });
    let findings = evaluate(&snap, no_measurements());
    assert!(findings.iter().any(|f| f.id == "mem.oom.recent"));
}

#[test]
fn no_false_kernel_panic_on_previous_boot() {
    let mut snap = base();
    snap.previous_boot_summary = Some(PreviousBootSummary {
        boot_id: "abc".into(),
        unclean_hint: true,
        note: "journal ended without clean shutdown marker".into(),
    });
    let findings = evaluate(&snap, no_measurements());
    let f = findings.iter().find(|f| f.id.starts_with("boot.previous")).unwrap();
    assert!(!f.title.to_lowercase().contains("panic"));
    assert!(!f.summary.to_lowercase().contains("kernel panic"));
}

#[test]
fn health_surfaces_critical_when_subsystems_unobservable() {
    let findings = vec![Finding {
        id: "x".into(),
        title: "t".into(),
        summary: "s".into(),
        severity: Severity::Critical,
        confidence: Confidence::High,
        category: Category::Services,
        evidence: Evidence { summary: "e".into(), details: vec![] },
        targets: vec![],
        suggested_check: None,
        degradable: true,
    }];
    let status = compute_health_status(&findings, false, false);
    assert_eq!(status, HealthStatus::Critical);
}

#[test]
fn health_is_worst_severity_when_observable() {
    assert_eq!(compute_health_status(&[], true, true), HealthStatus::Healthy);
    let fs = vec![finding("a", Severity::Info), finding("b", Severity::Warning)];
    assert_eq!(compute_health_status(&fs, true, true), HealthStatus::Warning);
    let fs = vec![finding("a", Severity::Info)];
    assert_eq!(compute_health_status(&fs, true, true), HealthStatus::Healthy);
    assert_eq!(compute_health_status(&fs, true, false), HealthStatus::Unknown);
    let fs = vec![finding("a", Severity::Warning)];
    assert_eq!(compute_health_status(&fs, false, true), HealthStatus::Warning);
}

#[test]
fn text_report_empty() {
    let t = format_text_report(HealthStatus::Healthy, &[], false, &[], None);
    assert!(t.contains("No findings"));
}

#[test]
fn json_report_ok() {
    let f = Finding {
        id: "x".into(),
        title: "t".into(),
        summary: "s".into(),
        severity: Severity::Info,
        confidence: Confidence::Low,
        category: Category::Other,
        evidence: Evidence { summary: "e".into(), details: vec!["secret".into()] },
        targets: vec![],
        suggested_check: None,
        degradable: true,
    };
    let j = json_report(HealthStatus::Healthy, &[f], false, &[], None);
    assert_eq!(j.health, "ok");
    assert_eq!(j.findings.len(), 1);
    assert_eq!(j.findings[0].id, "x");
    assert_eq!(j.findings[0].severity, "info");
    assert!(j.findings[0].evidence_details.is_none());
    assert!(!format!("{j:?}").contains("secret"));
}

#[test]
fn redaction_replaces_home() {
    assert_eq!(redact_line("/home/al/x", true, Some("/home/al")), "$HOME/x");
    assert_eq!(redact_line("/home/al/x", true, Some("")), "/home/al/x");
    assert_eq!(redact_line("/home/al/x", true, None), "/home/al/x");
    assert_eq!(redact_line("/home/al/x", false, Some("/home/al")), "/home/al/x");
}

#[test]
fn sanitize_id_replaces_unsafe_chars() {
    assert_eq!(sanitize_id("evil/unit\u{1b}.service"), "evil_unit_.service");
    assert_eq!(sanitize_id("ok-unit_1.service"), "ok-unit_1.service");
    assert_eq!(sanitize_id("a b"), "a_b");
    assert_eq!(sanitize_id("/dev/sdb"), "_dev_sdb");
}

#[test]
fn failed_services_silent_when_systemd_unobservable() {
    let snap = DiagnosticSnapshot {
        systemd_observable: false,
        failed_units: vec![FailedUnitSnapshot {
            unit: "broken.service".into(),
            active_state: "failed".into(),
            sub_state: "failed".into(),
            description: "x".into(),
        }],
        ..DiagnosticSnapshot::default()
    };
    assert!(rule_failed_services(&snap).is_empty());
}

#[test]
fn failed_service_emits_critical_with_sanitized_id() {
    let snap = DiagnosticSnapshot {
        systemd_observable: true,
        failed_units: vec![FailedUnitSnapshot {
            unit: "broken.service".into(),
            active_state: "failed".into(),
            sub_state: "failed".into(),
            description: "x".into(),
        }],
        ..DiagnosticSnapshot::default()
    };
    let f = rule_failed_services(&snap);
    assert_eq!(f.len(), 1);
    assert_eq!(f[0].id, "svc.failed.broken.service");
    assert_eq!(f[0].severity, Severity::Critical);
}

#[test]
fn journal_critical_severity_by_count() {
    let mut snap = DiagnosticSnapshot { journal_observable: true, ..DiagnosticSnapshot::default() };
    snap.journal_critical.push(JournalCriticalGroup {
        unit: "ssh.service".into(),
        count: 5,
        sample_message: "boom".into(),
    });
    snap.journal_critical.push(JournalCriticalGroup {
        unit: "cron.service".into(),
        count: 1,
        sample_message: "minor".into(),
    });
    let f = rule_journal_critical(&snap);
    assert_eq!(f.len(), 2);
    let ssh = f.iter().find(|x| x.id == "journal.critical.ssh.service").unwrap();
    let cron = f.iter().find(|x| x.id == "journal.critical.cron.service").unwrap();
    assert_eq!(ssh.severity, Severity::Critical);
    assert_eq!(cron.severity, Severity::Warning);
}

#[test]
fn journal_unobservable_is_silent() {
    let snap = DiagnosticSnapshot {
        journal_observable: false,
        journal_critical: vec![JournalCriticalGroup {
            unit: "x.service".into(),
            count: 9,
            sample_message: "x".into(),
        }],
        ..DiagnosticSnapshot::default()
    };
    assert!(rule_journal_critical(&snap).is_empty());
}

#[test]
fn crc_historic_is_info() {
    let snap = DiagnosticSnapshot {
        smart_disks: vec![SmartDiskSnapshot {
            device: "/dev/sda".into(),
            available: true,
            passed: Some(true),
            uda_crc_error_count: Some(3),
            prev_uda_crc_error_count: Some(3),
            summary: "ok".into(),
            details: vec![],
        }],
        ..DiagnosticSnapshot::default()
    };
    let f = rule_smart(&snap);
    assert_eq!(f.len(), 1);
    assert_eq!(f[0].severity, Severity::Info);
}

#[test]
fn crc_increase_is_warning() {
    let snap = DiagnosticSnapshot {
        smart_disks: vec![SmartDiskSnapshot {
            device: "/dev/sda".into(),
            available: true,
            passed: Some(true),
            uda_crc_error_count: Some(5),
            prev_uda_crc_error_count: Some(3),
            summary: "ok".into(),
            details: vec![],
        }],
        ..DiagnosticSnapshot::default()
    };
    let f = rule_smart(&snap);
    assert!(f.iter().any(|x| x.severity == Severity::Warning));
}

#[test]
fn smart_failed_health_is_critical_with_sanitized_id() {
    let snap = DiagnosticSnapshot {
        smart_disks: vec![SmartDiskSnapshot {
            device: "/dev/sdb".into(),
            available: true,
            passed: Some(false),
            uda_crc_error_count: None,
            prev_uda_crc_error_count: None,
            summary: "FAILED".into(),
            details: vec![],
        }],
        ..DiagnosticSnapshot::default()
    };
    let f = rule_smart(&snap);
    assert_eq!(f.len(), 1);
    assert_eq!(f[0].id, "smart.health._dev_sdb");
    assert_eq!(f[0].severity, Severity::Critical);
}

#[test]
fn evaluate_keeps_measured_findings_in_place() {
    let mut snap = base();
    snap.oom_events.push(OomEvent { process: "foo".into(), message: "m".into() });
    let measured = MeasuredFindings {
        psi: vec![finding("psi.mem.some", Severity::Warning)],
        resource_pressure: vec![],
        temperature: vec![finding("temp.high.cpu", Severity::Warning)],
    };
    let ids: Vec<String> = evaluate(&snap, measured).into_iter().map(|f| f.id).collect();
    assert_eq!(ids, vec!["mem.oom.recent", "psi.mem.some", "temp.high.cpu"]);
}
