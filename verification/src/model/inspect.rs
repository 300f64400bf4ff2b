//! On-demand inspection models: inspector bodies, file previews, action menus.

use vstd::prelude::*;

use crate::model::log::{LogEntry, LogPriority};
use crate::model::process::ProcessSignal;
use crate::model::service::{ServiceActionKind, ServiceInfo};
use crate::model::metrics::{bytes_text, format_bytes};
use crate::text::{decimal, decimal_string};
use crate::text::{join_lines, join_with_newlines, pad_left, pad_right, push_padded_left, push_padded_right};

verus! {

/// One log line: timestamp, priority right-aligned in 5, unit left-aligned in 20, message.
pub open spec fn log_line_text(e: LogEntry) -> Seq<char> {
    e.timestamp@ + " "@ + pad_left(e.priority.label_text(), 5) + " "@ + pad_right(e.unit@, 20)
        + " "@ + e.message@
}

pub fn format_log_line(e: &LogEntry) -> (s: String)
    ensures
        s@ == log_line_text(*e),
{
    let mut s = String::new();
    s.append(e.timestamp.as_str());
    s.append(" ");
    push_padded_left(&mut s, e.priority.label(), 5);
    s.append(" ");
    push_padded_right(&mut s, e.unit.as_str(), 20);
    s.append(" ");
    s.append(e.message.as_str());
    s
}

#[derive(Debug, Clone)]
pub struct ServiceInspectBundle {
    pub service: ServiceInfo,
    pub recent_logs: Vec<LogEntry>,
}

/// A recent-log line of the service inspector.
pub open spec fn recent_log_text(e: LogEntry) -> Seq<char> {
    "  "@ + e.timestamp@ + " "@ + pad_left(e.priority.label_text(), 5) + " "@ + e.message@
}

/// The service inspector's lines: unit, states, fragment path, description, a
/// blank line, then the recent logs or `(none)`.
pub open spec fn service_inspect_lines(s: ServiceInfo, logs: Seq<LogEntry>) -> Seq<Seq<char>> {
    let head = seq![
        "unit: "@ + s.unit@,
        "active: "@ + s.active_state@ + " ("@ + s.sub_state@ + ")  load: "@ + s.load_state@
            + "  enabled: "@ + s.unit_file_state.label_text(),
        "fragment: "@ + match s.fragment_path {
            Some(p) => p@,
            None => "(unknown)"@,
        },
        s.description@,
        seq![],
        "Recent logs:"@,
    ];
    if logs.len() == 0 {
        head.push("  (none)"@)
    } else {
        head + logs.map_values(|e: LogEntry| recent_log_text(e))
    }
}

impl ServiceInspectBundle {
    pub fn format_body(&self) -> (r: String)
        ensures
            r@ == join_lines(service_inspect_lines(self.service, self.recent_logs@)),
    {
        let s = &self.service;
        let mut lines: Vec<String> = Vec::new();
        let mut l0 = String::from_str("unit: ");
        l0.append(s.unit.as_str());
        lines.push(l0);
        let mut l1 = String::from_str("active: ");
        l1.append(s.active_state.as_str());
        l1.append(" (");
        l1.append(s.sub_state.as_str());
        l1.append(")  load: ");
        l1.append(s.load_state.as_str());
        l1.append("  enabled: ");
        l1.append(s.unit_file_state.label());
        lines.push(l1);
        let mut l2 = String::from_str("fragment: ");
        match &s.fragment_path {
            Some(p) => l2.append(p.as_str()),
            None => l2.append("(unknown)"),
        }
        lines.push(l2);
        lines.push(s.description.clone());
        lines.push(String::new());
        lines.push(String::from_str("Recent logs:"));
        let ghost head = service_inspect_lines(self.service, seq![]).drop_last();
        assert(lines@.map_values(|l: String| l@) =~= head);
        if self.recent_logs.len() == 0 {
            lines.push(String::from_str("  (none)"));
            assert(lines@.map_values(|l: String| l@) =~= service_inspect_lines(
                self.service,
                self.recent_logs@,
            ));
        } else {
            let ghost logs = self.recent_logs@;
            let mut i: usize = 0;
            while i < self.recent_logs.len()
                invariant
                    logs == self.recent_logs@,
                    i <= logs.len(),
                    lines@.map_values(|l: String| l@) == head + logs.take(i as int).map_values(
                        |e: LogEntry| recent_log_text(e),
                    ),
                decreases logs.len() - i,
            {
                let e = &self.recent_logs[i];
                let mut line = String::from_str("  ");
                line.append(e.timestamp.as_str());
                line.append(" ");
                push_padded_left(&mut line, e.priority.label(), 5);
                line.append(" ");
                line.append(e.message.as_str());
                proof {
                    crate::seqs::lemma_map_push(lines@, line, |l: String| l@);
                    crate::seqs::lemma_map_take_push(logs, i as int, |e: LogEntry| recent_log_text(e));
                }
                lines.push(line);
                i += 1;
            }
            assert(logs.take(logs.len() as int) =~= logs);
            assert(lines@.map_values(|l: String| l@) =~= service_inspect_lines(
                self.service,
                self.recent_logs@,
            ));
        }
        join_with_newlines(&lines)
    }
}

#[derive(Debug, Clone)]
pub struct LogInspectContext {
    pub index: usize,
    pub before: Vec<LogEntry>,
    pub focus: LogEntry,
    pub after: Vec<LogEntry>,
}

/// Context lines: the entries before, the selected one, the entries after, each
/// section under a marker line.
pub open spec fn context_lines(before: Seq<LogEntry>, focus: LogEntry, after: Seq<LogEntry>) -> Seq<Seq<char>> {
    seq!["--- before ---"@] + before.map_values(|e: LogEntry| log_line_text(e)) + seq![
        "--- selected ---"@,
        log_line_text(focus),
        "--- after ---"@,
    ] + after.map_values(|e: LogEntry| log_line_text(e))
}

fn push_log_lines(lines: &mut Vec<String>, entries: &Vec<LogEntry>)
    ensures
        final(lines)@.map_values(|l: String| l@) == old(lines)@.map_values(|l: String| l@)
            + entries@.map_values(|e: LogEntry| log_line_text(e)),
{
    let ghost start = lines@.map_values(|l: String| l@);
    let mut i: usize = 0;
    assert(entries@.take(0).map_values(|e: LogEntry| log_line_text(e)) =~= seq![]);
    while i < entries.len()
        invariant
            i <= entries.len(),
            lines@.map_values(|l: String| l@) == start + entries@.take(i as int).map_values(
                |e: LogEntry| log_line_text(e),
            ),
        decreases entries.len() - i,
    {
        let line = format_log_line(&entries[i]);
        proof {
            crate::seqs::lemma_map_push(lines@, line, |l: String| l@);
            crate::seqs::lemma_map_take_push(entries@, i as int, |e: LogEntry| log_line_text(e));
        }
        lines.push(line);
        i += 1;
    }
    assert(entries@.take(entries.len() as int) =~= entries@);
}

impl LogInspectContext {
    pub fn format_body(&self) -> (r: String)
        ensures
            r@ == join_lines(context_lines(self.before@, self.focus, self.after@)),
    {
        let mut lines: Vec<String> = Vec::new();
        lines.push(String::from_str("--- before ---"));
        assert(lines@.map_values(|l: String| l@) =~= seq!["--- before ---"@]);
        push_log_lines(&mut lines, &self.before);
        let ghost a = lines@.map_values(|l: String| l@);
        let m1 = String::from_str("--- selected ---");
        let m2 = format_log_line(&self.focus);
        let m3 = String::from_str("--- after ---");
        lines.push(m1);
        lines.push(m2);
        lines.push(m3);
        assert(lines@.map_values(|l: String| l@) =~= a + seq![
            "--- selected ---"@,
            log_line_text(self.focus),
            "--- after ---"@,
        ]);
        push_log_lines(&mut lines, &self.after);
        assert(lines@.map_values(|l: String| l@) =~= context_lines(
            self.before@,
            self.focus,
            self.after@,
        ));
        join_with_newlines(&lines)
    }
}

#[derive(Debug, Clone)]
pub struct FilePreview {
    pub path: String,
    pub bytes_read: usize,
    pub truncated: bool,
    pub is_binary: bool,
    pub text: String,
}

#[derive(Debug, Clone, Copy, PartialEq, Eq, Structural)]
pub enum ExportFormat {
    Text,
    Markdown,
    Json,
}

#[derive(Debug, Clone, Copy, PartialEq, Eq, Structural)]
pub enum MenuAction {
    ProcessInspect,
    ProcessFollow,
    ProcessTree,
    ProcessLogs,
    ProcessService,
    ProcessDiagnostics,
    ProcessExport,
    ProcessSignal(ProcessSignal),
    ServiceInspect,
    ServiceLogs,
    ServiceDiagnostics,
    ServiceExport,
    ServiceAction(ServiceActionKind),
    LogExportSelected(ExportFormat),
    LogExportVisible(ExportFormat),
    LogExportContext(ExportFormat),
    FindingExport,
    StoragePreview,
    Close,
}

#[derive(Debug, Clone)]
pub struct MenuItem {
    pub label: String,
    pub action: MenuAction,
    pub enabled: bool,
    pub disabled_reason: Option<String>,
}

impl MenuItem {
    /// An enabled item with no reason attached.
    pub fn enabled(label: &str, action: MenuAction) -> (m: Self)
        ensures
            m.label@ == label@,
            m.action == action,
            m.enabled,
            m.disabled_reason is None,
    {
        MenuItem { label: String::from_str(label), action, enabled: true, disabled_reason: None }
    }

    /// A disabled item carrying the reason it is disabled.
    pub fn disabled(label: &str, action: MenuAction, reason: &str) -> (m: Self)
        ensures
            m.label@ == label@,
            m.action == action,
            !m.enabled,
            m.disabled_reason is Some && m.disabled_reason->0@ == reason@,
    {
        MenuItem {
            label: String::from_str(label),
            action,
            enabled: false,
            disabled_reason: Some(String::from_str(reason)),
        }
    }
}

/// What the details inspector shows of the process itself. The CPU and
/// memory shares are measured as floating point, so they come in as the
/// text they are shown as.
#[derive(Debug, Clone)]
pub struct ProcessSummary {
    pub pid: u32,
    pub user: String,
    pub state: String,
    pub name: String,
    /// The CPU share with one decimal, without the percent sign.
    pub cpu_text: String,
    /// The memory share as the process table shows it.
    pub mem_text: String,
}

/// The on-demand details of one process.
#[derive(Debug, Clone)]
pub struct ProcessDetails {
    pub info: Option<ProcessSummary>,
    pub parent_pid: Option<u32>,
    pub parent_name: Option<String>,
    pub cmdline: String,
    pub cgroup: Option<String>,
    pub unit: Option<String>,
    pub fd_count: Option<u64>,
    pub read_bytes: Option<u64>,
    pub write_bytes: Option<u64>,
}

/// `t`, or `missing` when there is none.
pub open spec fn text_or(t: Option<String>, missing: Seq<char>) -> Seq<char> {
    match t {
        Some(s) => s@,
        None => missing,
    }
}

/// A number in decimal, or `?`.
pub open spec fn number_or_unknown(n: Option<u64>) -> Seq<char> {
    match n {
        Some(v) => decimal(v as nat),
        None => "?"@,
    }
}

/// A byte count as the inspector shows it, or `?`.
pub open spec fn bytes_or_unknown(n: Option<u64>) -> Seq<char> {
    match n {
        Some(v) => bytes_text(v as nat),
        None => "?"@,
    }
}

/// The inspector body of a process's details: its summary lines (when
/// known), then parent, command line, cgroup, unit, descriptors and I/O,
/// one per line.
pub open spec fn process_details_body(d: ProcessDetails) -> Seq<char> {
    (match d.info {
        Some(p) => "PID "@ + decimal(p.pid as nat) + "  user "@ + p.user@ + "  state "@ + p.state@
            + "  cpu "@ + p.cpu_text@ + "%  mem "@ + p.mem_text@ + "\nname: "@ + p.name@ + "\n"@,
        None => Seq::empty(),
    }) + "parent: "@ + number_or_unknown(
        match d.parent_pid {
            Some(x) => Some(x as u64),
            None => None,
        },
    ) + " ("@ + text_or(d.parent_name, "?"@) + ")\ncmdline: "@ + d.cmdline@ + "\ncgroup: "@ + text_or(
        d.cgroup,
        "(unknown)"@,
    ) + "\nunit: "@ + text_or(d.unit, "(none)"@) + "\nfds: "@ + number_or_unknown(d.fd_count)
        + "\nio read: "@ + bytes_or_unknown(d.read_bytes) + "  write: "@ + bytes_or_unknown(
        d.write_bytes,
    )
}

fn append_text_or(body: &mut String, t: &Option<String>, missing: &str)
    ensures
        final(body)@ == old(body)@ + text_or(*t, missing@),
{
    match t {
        Some(s) => body.append(s.as_str()),
        None => body.append(missing),
    }
}

fn append_number_or_unknown(body: &mut String, n: Option<u64>)
    ensures
        final(body)@ == old(body)@ + number_or_unknown(n),
{
    match n {
        Some(v) => body.append(decimal_string(v).as_str()),
        None => body.append("?"),
    }
}

fn append_bytes_or_unknown(body: &mut String, n: Option<u64>)
    ensures
        final(body)@ == old(body)@ + bytes_or_unknown(n),
{
    match n {
        Some(v) => body.append(format_bytes(v).as_str()),
        None => body.append("?"),
    }
}

impl ProcessDetails {
    /// The inspector body.
    pub fn format_body(&self) -> (s: String)
        ensures
            s@ == process_details_body(*self),
    {
        let mut body = String::new();
        match &self.info {
            Some(p) => {
                body.append("PID ");
                body.append(decimal_string(p.pid as u64).as_str());
                body.append("  user ");
                body.append(p.user.as_str());
                body.append("  state ");
                body.append(p.state.as_str());
                body.append("  cpu ");
                body.append(p.cpu_text.as_str());
                body.append("%  mem ");
                body.append(p.mem_text.as_str());
                body.append("\nname: ");
                body.append(p.name.as_str());
                body.append("\n");
            },
            None => {},
        }
        body.append("parent: ");
        let parent = match self.parent_pid {
            Some(x) => Some(x as u64),
            None => None,
        };
        append_number_or_unknown(&mut body, parent);
        body.append(" (");
        append_text_or(&mut body, &self.parent_name, "?");
        body.append(")\ncmdline: ");
        body.append(self.cmdline.as_str());
        body.append("\ncgroup: ");
        append_text_or(&mut body, &self.cgroup, "(unknown)");
        body.append("\nunit: ");
        append_text_or(&mut body, &self.unit, "(none)");
        body.append("\nfds: ");
        append_number_or_unknown(&mut body, self.fd_count);
        body.append("\nio read: ");
        append_bytes_or_unknown(&mut body, self.read_bytes);
        body.append("  write: ");
        append_bytes_or_unknown(&mut body, self.write_bytes);
        body
    }
}

} // verus!
