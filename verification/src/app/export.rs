//! Bodies of the exported contexts: a finding, a service, log events.

use vstd::prelude::*;

use crate::app::side_effect::SideEffect;
use crate::app::side_effect::SupportFormat;
use crate::model::diagnostics::Finding;
use crate::model::diagnostics::FindingView;
use crate::model::inspect::context_lines;
use crate::model::inspect::ExportFormat;
use crate::model::inspect::LogInspectContext;
use crate::model::log::LogEntry;
use crate::model::service::ServiceInfo;
use crate::text::decimal;
use crate::text::decimal_string;
use crate::text::join_lines;
use crate::text::join_with_newlines;

verus! {

/// The report format an export format is saved as.
pub open spec fn format_for(fmt: ExportFormat) -> SupportFormat {
    match fmt {
        ExportFormat::Text => SupportFormat::Text,
        ExportFormat::Markdown => SupportFormat::Markdown,
        ExportFormat::Json => SupportFormat::Json,
    }
}

pub fn support_fmt(fmt: ExportFormat) -> (f: SupportFormat)
    ensures
        f == format_for(fmt),
{
    match fmt {
        ExportFormat::Text => SupportFormat::Text,
        ExportFormat::Markdown => SupportFormat::Markdown,
        ExportFormat::Json => SupportFormat::Json,
    }
}

/// A report to save with the given body text and format.
pub open spec fn saves(e: SideEffect, body: Seq<char>, format: SupportFormat) -> bool {
    e matches SideEffect::SaveReport { body: b, format: f } && b@ == body && f == format
}

/// The text of a finding's export.
pub open spec fn finding_export_text(f: FindingView) -> Seq<char> {
    "# finding "@ + f.id + "\nseverity: "@ + f.severity.label_text() + "\n"@ + f.summary
        + "\n\n## evidence\n"@ + f.evidence.summary + "\n"@ + join_lines(f.evidence.details)
        + "\n"@
}

pub fn export_finding(f: &Finding) -> (e: SideEffect)
    ensures
        saves(e, finding_export_text(f@), SupportFormat::Markdown),
{
    let mut body = String::from_str("# finding ");
    body.append(f.id.as_str());
    body.append("\nseverity: ");
    body.append(f.severity.label());
    body.append("\n");
    body.append(f.summary.as_str());
    body.append("\n\n## evidence\n");
    body.append(f.evidence.summary.as_str());
    body.append("\n");
    let details = join_with_newlines(&f.evidence.details);
    body.append(details.as_str());
    body.append("\n");
    SideEffect::SaveReport { body, format: SupportFormat::Markdown }
}

/// `{:?}` of an optional process id.
pub open spec fn pid_debug(pid: Option<u32>) -> Seq<char> {
    match pid {
        Some(p) => "Some("@ + decimal(p as nat) + ")"@,
        None => "None"@,
    }
}

fn pid_debug_string(pid: Option<u32>) -> (s: String)
    ensures
        s@ == pid_debug(pid),
{
    match pid {
        Some(p) => {
            let mut s = String::from_str("Some(");
            s.append(decimal_string(p as u64).as_str());
            s.append(")");
            s
        },
        None => String::from_str("None"),
    }
}

/// `{:?}` of a string: quoted, with escapes.
pub uninterp spec fn debug_text(s: Seq<char>) -> Seq<char>;

/// `format!("{:?}", s)` for a string (its `Debug` form: double quotes around
/// the text with `char::escape_debug` escapes); the result is named by
/// `debug_text` and depends on the text alone.
#[verifier::external_body]
fn debug_string(s: &str) -> (r: String)
    ensures
        r@ == debug_text(s@),
{
    format!("{:?}", s)
}

/// `{:?}` of an optional path.
pub open spec fn opt_debug(o: Option<Seq<char>>) -> Seq<char> {
    match o {
        Some(s) => "Some("@ + debug_text(s) + ")"@,
        None => "None"@,
    }
}

/// One recent-log line of a service export.
pub open spec fn service_log_line(e: LogEntry) -> Seq<char> {
    "- "@ + e.timestamp@ + " "@ + e.priority.label_text() + " "@ + e.message@ + "\n"@
}

pub open spec fn service_log_lines(es: Seq<LogEntry>) -> Seq<char>
    decreases es.len(),
{
    if es.len() == 0 {
        Seq::empty()
    } else {
        service_log_lines(es.drop_last()) + service_log_line(es.last())
    }
}

/// The text of a service's export: its states, then at most ten recent logs.
pub open spec fn service_export_text(s: ServiceInfo, logs: Seq<LogEntry>) -> Seq<char> {
    let shown = if logs.len() <= 10 {
        logs
    } else {
        logs.take(10)
    };
    "# service export\nunit: "@ + s.unit@ + "\nactive: "@ + s.active_state@ + " ("@ + s.sub_state@
        + ")\nenabled: "@ + s.unit_file_state.label_text() + "\nfragment: "@ + opt_debug(
        match s.fragment_path {
            Some(p) => Some(p@),
            None => None,
        },
    ) + "\n\n## recent logs\n"@ + service_log_lines(shown)
}

pub fn export_service(s: &ServiceInfo, recent_logs: &[LogEntry]) -> (e: SideEffect)
    ensures
        saves(e, service_export_text(*s, recent_logs@), SupportFormat::Markdown),
{
    let mut body = String::from_str("# service export\nunit: ");
    body.append(s.unit.as_str());
    body.append("\nactive: ");
    body.append(s.active_state.as_str());
    body.append(" (");
    body.append(s.sub_state.as_str());
    body.append(")\nenabled: ");
    body.append(s.unit_file_state.label());
    body.append("\nfragment: ");
    match &s.fragment_path {
        Some(p) => {
            body.append("Some(");
            body.append(debug_string(p.as_str()).as_str());
            body.append(")");
        },
        None => {
            body.append("None");
        },
    }
    body.append("\n\n## recent logs\n");
    let ghost head = body@;
    assert(head == "# service export\nunit: "@ + s.unit@ + "\nactive: "@ + s.active_state@ + " ("@
        + s.sub_state@ + ")\nenabled: "@ + s.unit_file_state.label_text() + "\nfragment: "@
        + opt_debug(
        match s.fragment_path {
            Some(p) => Some(p@),
            None => None,
        },
    ) + "\n\n## recent logs\n"@);
    let limit: usize = if recent_logs.len() <= 10 {
        recent_logs.len()
    } else {
        10
    };
    let mut i: usize = 0;
    while i < limit
        invariant
            i <= limit,
            limit <= recent_logs@.len(),
            body@ == head + service_log_lines(recent_logs@.take(i as int)),
        decreases limit - i,
    {
        let e = &recent_logs[i];
        body.append("- ");
        body.append(e.timestamp.as_str());
        body.append(" ");
        body.append(e.priority.label());
        body.append(" ");
        body.append(e.message.as_str());
        body.append("\n");
        assert(recent_logs@.take(i + 1).drop_last() =~= recent_logs@.take(i as int));
        i += 1;
    }
    proof {
        if recent_logs@.len() <= 10 {
            assert(recent_logs@.take(limit as int) =~= recent_logs@);
        }
    }
    SideEffect::SaveReport { body, format: SupportFormat::Markdown }
}

/// One log event as JSON: its timestamp, priority label, unit, process id
/// and message (`serde_json`, keys in sorted order).
pub uninterp spec fn event_json(
    timestamp: Seq<char>,
    priority: Seq<char>,
    unit: Seq<char>,
    pid: Option<u32>,
    message: Seq<char>,
) -> Seq<char>;

/// `serde_json::Value::to_string` of an object holding the event's fields;
/// the result is named by `event_json` and depends on the fields alone.
#[verifier::external_body]
fn event_json_string(timestamp: &str, priority: &str, unit: &str, pid: Option<u32>, message: &str) -> (s: String)
    ensures
        s@ == event_json(timestamp@, priority@, unit@, pid, message@),
{
    serde_json::Value::Object(serde_json::Map::from_iter([
        ("timestamp".into(), timestamp.into()),
        ("priority".into(), priority.into()),
        ("unit".into(), unit.into()),
        ("pid".into(), pid.into()),
        ("message".into(), message.into()),
    ])).to_string()
}

/// The text of one exported log event in the chosen format.
pub open spec fn event_export_text(e: LogEntry, fmt: ExportFormat) -> Seq<char> {
    match fmt {
        ExportFormat::Json => event_json(e.timestamp@, e.priority.label_text(), e.unit@, e.pid, e.message@),
        ExportFormat::Markdown => "# log event\n- time: "@ + e.timestamp@ + "\n- priority: "@
            + e.priority.label_text() + "\n- unit: "@ + e.unit@ + "\n- pid: "@ + pid_debug(e.pid)
            + "\n\n"@ + e.message@ + "\n"@,
        ExportFormat::Text => e.timestamp@ + " "@ + e.priority.label_text() + " "@ + e.unit@ + " "@
            + pid_debug(e.pid) + "\n"@ + e.message@ + "\n"@,
    }
}

pub fn export_logs_selected(e: &LogEntry, fmt: ExportFormat) -> (r: SideEffect)
    ensures
        saves(r, event_export_text(*e, fmt), format_for(fmt)),
{
    let body = match fmt {
        ExportFormat::Json => event_json_string(
            e.timestamp.as_str(),
            e.priority.label(),
            e.unit.as_str(),
            e.pid,
            e.message.as_str(),
        ),
        ExportFormat::Markdown => {
            let mut b = String::from_str("# log event\n- time: ");
            b.append(e.timestamp.as_str());
            b.append("\n- priority: ");
            b.append(e.priority.label());
            b.append("\n- unit: ");
            b.append(e.unit.as_str());
            b.append("\n- pid: ");
            b.append(pid_debug_string(e.pid).as_str());
            b.append("\n\n");
            b.append(e.message.as_str());
            b.append("\n");
            b
        },
        ExportFormat::Text => {
            let mut b = String::new();
            b.append(e.timestamp.as_str());
            b.append(" ");
            b.append(e.priority.label());
            b.append(" ");
            b.append(e.unit.as_str());
            b.append(" ");
            b.append(pid_debug_string(e.pid).as_str());
            b.append("\n");
            b.append(e.message.as_str());
            b.append("\n");
            b
        },
    };
    SideEffect::SaveReport { body, format: support_fmt(fmt) }
}

/// The listed events as a pretty-printed JSON array of event objects.
pub uninterp spec fn events_json(events: Seq<(Seq<char>, Seq<char>, Seq<char>, Option<u32>, Seq<char>)>) -> Seq<char>;

pub open spec fn event_fields(e: LogEntry) -> (Seq<char>, Seq<char>, Seq<char>, Option<u32>, Seq<char>) {
    (e.timestamp@, e.priority.label_text(), e.unit@, e.pid, e.message@)
}

pub open spec fn deref_entries(v: Seq<&LogEntry>) -> Seq<LogEntry> {
    v.map_values(|e: &LogEntry| *e)
}

/// The fields of an event row as plain values.
pub open spec fn row_view(r: (String, String, String, Option<u32>, String)) -> (
    Seq<char>,
    Seq<char>,
    Seq<char>,
    Option<u32>,
    Seq<char>,
) {
    (r.0@, r.1@, r.2@, r.3, r.4@)
}

/// `serde_json::to_string_pretty` of the array of event objects (`[]` if it
/// fails); the result is named by `events_json` and depends on the fields
/// alone.
#[verifier::external_body]
fn events_json_string(rows: &Vec<(String, String, String, Option<u32>, String)>) -> (s: String)
    ensures
        s@ == events_json(rows@.map_values(|r: (String, String, String, Option<u32>, String)| row_view(r))),
{
    let values: Vec<serde_json::Value> = rows.iter().map(|r| serde_json::Value::Object(
        serde_json::Map::from_iter([
            ("timestamp".into(), r.0.as_str().into()),
            ("priority".into(), r.1.as_str().into()),
            ("unit".into(), r.2.as_str().into()),
            ("pid".into(), r.3.into()),
            ("message".into(), r.4.as_str().into()),
        ]))).collect();
    serde_json::to_string_pretty(&values).unwrap_or_else(|_| "[]".to_string())
}

/// The events' fields, the priority given by its label.
fn event_rows(entries: &[&LogEntry]) -> (rows: Vec<(String, String, String, Option<u32>, String)>)
    ensures
        rows@.map_values(|r: (String, String, String, Option<u32>, String)| row_view(r))
            == deref_entries(entries@).map_values(|e: LogEntry| event_fields(e)),
{
    let mut rows: Vec<(String, String, String, Option<u32>, String)> = Vec::new();
    let mut i: usize = 0;
    while i < entries.len()
        invariant
            i <= entries@.len(),
            rows@.len() == i,
            forall|j: int| 0 <= j < i ==> #[trigger] row_view(rows@[j]) == event_fields(*entries@[j]),
        decreases entries@.len() - i,
    {
        let e = entries[i];
        rows.push(
            (
                e.timestamp.clone(),
                String::from_str(e.priority.label()),
                e.unit.clone(),
                e.pid,
                e.message.clone(),
            ),
        );
        i += 1;
    }
    assert(rows@.map_values(|r: (String, String, String, Option<u32>, String)| row_view(r))
        =~= deref_entries(entries@).map_values(|e: LogEntry| event_fields(e)));
    rows
}

/// One line of a visible-logs export.
pub open spec fn visible_line(e: LogEntry, markdown: bool) -> Seq<char> {
    if markdown {
        "- `"@ + e.timestamp@ + "` **"@ + e.priority.label_text() + "** "@ + e.unit@ + " \u{2014} "@
            + e.message@ + "\n"@
    } else {
        e.timestamp@ + " "@ + e.priority.label_text() + " "@ + e.unit@ + " "@ + e.message@ + "\n"@
    }
}

pub open spec fn visible_lines(es: Seq<LogEntry>, markdown: bool) -> Seq<char>
    decreases es.len(),
{
    if es.len() == 0 {
        Seq::empty()
    } else {
        visible_lines(es.drop_last(), markdown) + visible_line(es.last(), markdown)
    }
}

pub open spec fn visible_export_text(es: Seq<LogEntry>, fmt: ExportFormat) -> Seq<char> {
    match fmt {
        ExportFormat::Json => events_json(es.map_values(|e: LogEntry| event_fields(e))),
        ExportFormat::Markdown => "# logs export\n\n"@ + visible_lines(es, true),
        ExportFormat::Text => visible_lines(es, false),
    }
}

fn push_visible_line(b: &mut String, e: &LogEntry, markdown: bool)
    ensures
        final(b)@ == old(b)@ + visible_line(*e, markdown),
{
    if markdown {
        b.append("- `");
        b.append(e.timestamp.as_str());
        b.append("` **");
        b.append(e.priority.label());
        b.append("** ");
        b.append(e.unit.as_str());
        b.append(" \u{2014} ");
        b.append(e.message.as_str());
        b.append("\n");
    } else {
        b.append(e.timestamp.as_str());
        b.append(" ");
        b.append(e.priority.label());
        b.append(" ");
        b.append(e.unit.as_str());
        b.append(" ");
        b.append(e.message.as_str());
        b.append("\n");
    }
}

/// The listed log events, exported in the chosen format.
pub fn export_logs_visible(entries: &[&LogEntry], fmt: ExportFormat) -> (r: SideEffect)
    ensures
        saves(r, visible_export_text(deref_entries(entries@), fmt), format_for(fmt)),
{
    let ghost es = deref_entries(entries@);
    let body = match fmt {
        ExportFormat::Json => events_json_string(&event_rows(entries)),
        _ => {
            let markdown = fmt == ExportFormat::Markdown;
            let mut b = if markdown {
                String::from_str("# logs export\n\n")
            } else {
                String::new()
            };
            let ghost head = b@;
            let mut i: usize = 0;
            while i < entries.len()
                invariant
                    i <= entries@.len(),
                    es == deref_entries(entries@),
                    b@ == head + visible_lines(es.take(i as int), markdown),
                decreases entries@.len() - i,
            {
                let e = entries[i];
                push_visible_line(&mut b, e, markdown);
                assert(es.take(i + 1).drop_last() =~= es.take(i as int));
                assert(es.take(i + 1).last() == *e);
                i += 1;
            }
            assert(es.take(es.len() as int) =~= es);
            b
        },
    };
    SideEffect::SaveReport { body, format: support_fmt(fmt) }
}

/// A log context as JSON: its index and the messages before, at and after it.
pub uninterp spec fn context_json(index: usize, before: Seq<Seq<char>>, focus: Seq<char>, after: Seq<Seq<char>>) -> Seq<char>;

pub open spec fn messages(es: Seq<LogEntry>) -> Seq<Seq<char>> {
    es.map_values(|e: LogEntry| e.message@)
}

/// `serde_json::to_string_pretty` of an object with the context's index and
/// messages (`{}` if it fails); the result is named by `context_json` and
/// depends on those values alone.
#[verifier::external_body]
fn context_json_string(ctx: &LogInspectContext) -> (s: String)
    ensures
        s@ == context_json(ctx.index, messages(ctx.before@), ctx.focus.message@, messages(ctx.after@)),
{
    let before: Vec<serde_json::Value> = ctx.before.iter().map(|e| e.message.as_str().into()).collect();
    let after: Vec<serde_json::Value> = ctx.after.iter().map(|e| e.message.as_str().into()).collect();
    let obj = serde_json::Value::Object(serde_json::Map::from_iter([
        ("index".into(), ctx.index.into()),
        ("before".into(), before.into()),
        ("focus".into(), ctx.focus.message.as_str().into()),
        ("after".into(), after.into()),
    ]));
    serde_json::to_string_pretty(&obj).unwrap_or_else(|_| "{}".to_string())
}

pub open spec fn context_export_text(ctx: LogInspectContext, fmt: ExportFormat) -> Seq<char> {
    match fmt {
        ExportFormat::Json => context_json(
            ctx.index,
            messages(ctx.before@),
            ctx.focus.message@,
            messages(ctx.after@),
        ),
        _ => "# log context\n\n"@ + join_lines(context_lines(ctx.before@, ctx.focus, ctx.after@)),
    }
}

/// A log event with its neighbours, exported in the chosen format.
pub fn export_logs_context(ctx: &LogInspectContext, fmt: ExportFormat) -> (r: SideEffect)
    ensures
        saves(r, context_export_text(*ctx, fmt), format_for(fmt)),
{
    let body = match fmt {
        ExportFormat::Json => context_json_string(ctx),
        _ => {
            let mut b = String::from_str("# log context\n\n");
            b.append(ctx.format_body().as_str());
            b
        },
    };
    SideEffect::SaveReport { body, format: support_fmt(fmt) }
}

} // verus!
