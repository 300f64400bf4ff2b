use server_tui::app::export::{
    export_finding, export_logs_context, export_logs_selected, export_logs_visible, export_service,
};
use server_tui::app::side_effect::{SideEffect, SupportFormat};
use server_tui::model::diagnostics::{Category, Confidence, Evidence, Finding, Severity};
use server_tui::model::inspect::{ExportFormat, LogInspectContext};
use server_tui::model::log::{LogEntry, LogPriority};
use server_tui::model::service::{ServiceInfo, UnitFileState};

fn entry(ts: &str, pid: Option<u32>, msg: &str) -> LogEntry {
    LogEntry {
        timestamp: ts.into(),
        unit: "nginx.service".into(),
        pid,
        priority: LogPriority::Error,
        message: msg.into(),
    }
}

fn saved(e: SideEffect) -> (String, SupportFormat) {
    match e {
        SideEffect::SaveReport { body, format } => (body, format),
        other => panic!("expected a report, got {other:?}"),
    }
}

#[test]
fn finding_export_lists_evidence() {
    let f = Finding {
        id: "svc.failed.nginx".into(),
        title: "t".into(),
        summary: "nginx failed".into(),
        severity: Severity::Warning,
        confidence: Confidence::High,
        category: Category::Services,
        evidence: Evidence { summary: "state".into(), details: vec!["a".into(), "b".into()] },
        targets: vec![],
        suggested_check: None,
        degradable: true,
    };
    let (body, format) = saved(export_finding(&f));
    assert_eq!(format, SupportFormat::Markdown);
    assert_eq!(
        body,
        "# finding svc.failed.nginx\nseverity: warning\nnginx failed\n\n## evidence\nstate\na\nb\n"
    );
}

fn service(fragment: Option<&str>) -> ServiceInfo {
    ServiceInfo {
        unit: "nginx.service".into(),
        description: "web".into(),
        load_state: "loaded".into(),
        active_state: "active".into(),
        sub_state: "running".into(),
        unit_path: "/org/x".into(),
        unit_file_state: UnitFileState::Enabled,
        fragment_path: fragment.map(|s| s.to_string()),
    }
}

#[test]
fn service_export_quotes_fragment_and_keeps_ten_logs() {
    let logs: Vec<LogEntry> = (0..12).map(|i| entry(&format!("t{i}"), None, &format!("m{i}"))).collect();
    let (body, format) = saved(export_service(&service(Some("/lib/a \"b\".service")), &logs));
    assert_eq!(format, SupportFormat::Markdown);
    let mut expected = String::from(
        "# service export\nunit: nginx.service\nactive: active (running)\nenabled: enabled\nfragment: Some(\"/lib/a \\\"b\\\".service\")\n\n## recent logs\n",
    );
    for i in 0..10 {
        expected.push_str(&format!("- t{i} err m{i}\n"));
    }
    assert_eq!(body, expected);
}

#[test]
fn service_export_without_fragment() {
    let (body, _) = saved(export_service(&service(None), &[]));
    assert!(body.contains("fragment: None\n\n## recent logs\n"));
    assert!(body.ends_with("## recent logs\n"));
}

#[test]
fn selected_log_exports_in_each_format() {
    let e = entry("2024-01-01T00:00:00", Some(42), "boom");
    let (json, f) = saved(export_logs_selected(&e, ExportFormat::Json));
    assert_eq!(f, SupportFormat::Json);
    assert_eq!(
        json,
        "{\"message\":\"boom\",\"pid\":42,\"priority\":\"err\",\"timestamp\":\"2024-01-01T00:00:00\",\"unit\":\"nginx.service\"}"
    );
    let (md, f) = saved(export_logs_selected(&e, ExportFormat::Markdown));
    assert_eq!(f, SupportFormat::Markdown);
    assert_eq!(
        md,
        "# log event\n- time: 2024-01-01T00:00:00\n- priority: err\n- unit: nginx.service\n- pid: Some(42)\n\nboom\n"
    );
    let (text, f) = saved(export_logs_selected(&entry("t", None, "m"), ExportFormat::Text));
    assert_eq!(f, SupportFormat::Text);
    assert_eq!(text, "t err nginx.service None\nm\n");
}

#[test]
fn visible_logs_export_in_each_format() {
    let a = entry("t1", None, "one");
    let b = entry("t2", Some(7), "two");
    let list = vec![&a, &b];
    let (text, _) = saved(export_logs_visible(&list, ExportFormat::Text));
    assert_eq!(text, "t1 err nginx.service one\nt2 err nginx.service two\n");
    let (md, _) = saved(export_logs_visible(&list, ExportFormat::Markdown));
    assert_eq!(
        md,
        "# logs export\n\n- `t1` **err** nginx.service \u{2014} one\n- `t2` **err** nginx.service \u{2014} two\n"
    );
    let (json, f) = saved(export_logs_visible(&list[..1], ExportFormat::Json));
    assert_eq!(f, SupportFormat::Json);
    assert_eq!(
        json,
        "[\n  {\n    \"message\": \"one\",\n    \"pid\": null,\n    \"priority\": \"err\",\n    \"timestamp\": \"t1\",\n    \"unit\": \"nginx.service\"\n  }\n]"
    );
    let (empty, _) = saved(export_logs_visible(&[], ExportFormat::Json));
    assert_eq!(empty, "[]");
}

#[test]
fn context_export_in_each_format() {
    let ctx = LogInspectContext {
        index: 3,
        before: vec![entry("t1", None, "a")],
        focus: entry("t2", None, "b"),
        after: vec![],
    };
    let (json, f) = saved(export_logs_context(&ctx, ExportFormat::Json));
    assert_eq!(f, SupportFormat::Json);
    assert_eq!(
        json,
        "{\n  \"after\": [],\n  \"before\": [\n    \"a\"\n  ],\n  \"focus\": \"b\",\n  \"index\": 3\n}"
    );
    let (text, f) = saved(export_logs_context(&ctx, ExportFormat::Text));
    assert_eq!(f, SupportFormat::Text);
    assert_eq!(text, format!("# log context\n\n{}", ctx.format_body()));
    assert!(text.contains("--- selected ---"));
}
