//! Action menu builders for list screens.

use vstd::prelude::*;

use crate::model::inspect::ExportFormat;
use crate::model::inspect::MenuAction;
use crate::model::inspect::MenuItem;
use crate::model::process::ProcessSignal;
use crate::model::service::ServiceActionKind;
use crate::model::service::UnitFileState;
use crate::text::eq_ignore_ascii_case;
use crate::text::eq_ignore_ascii_case_spec;

verus! {

/// A menu entry as text: label, action, whether it is enabled, and the reason
/// it is not.
pub type ItemView = (Seq<char>, MenuAction, bool, Option<Seq<char>>);

pub open spec fn item_view(m: MenuItem) -> ItemView {
    (
        m.label@,
        m.action,
        m.enabled,
        match m.disabled_reason {
            Some(r) => Some(r@),
            None => None,
        },
    )
}

pub open spec fn items_view(v: Seq<MenuItem>) -> Seq<ItemView> {
    v.map_values(|m: MenuItem| item_view(m))
}

pub open spec fn on(label: Seq<char>, action: MenuAction) -> ItemView {
    (label, action, true, None)
}

pub open spec fn off(label: Seq<char>, action: MenuAction, reason: Seq<char>) -> ItemView {
    (label, action, false, Some(reason))
}

/// The entry for one unit action: refused in read-only mode, and softly
/// disabled where it would do nothing (reload of an inactive unit, enable of
/// an enabled or static unit, disable of a disabled, static or masked unit).
pub open spec fn service_action_item(
    read_only: bool,
    active: Seq<char>,
    unit_file: UnitFileState,
    label: Seq<char>,
    kind: ServiceActionKind,
) -> ItemView {
    let action = MenuAction::ServiceAction(kind);
    if read_only {
        off(label, action, "READ ONLY"@)
    } else if kind == ServiceActionKind::Reload && eq_ignore_ascii_case_spec(active, "inactive"@) {
        off(label, action, "unit inactive \u{2014} reload not useful"@)
    } else if kind == ServiceActionKind::Enable && (unit_file == UnitFileState::Enabled || unit_file
        == UnitFileState::EnabledRuntime || unit_file == UnitFileState::Static) {
        off(label, action, "already "@ + unit_file.label_text())
    } else if kind == ServiceActionKind::Disable && (unit_file == UnitFileState::Disabled
        || unit_file == UnitFileState::Static || unit_file == UnitFileState::Masked) {
        off(label, action, "not disableable ("@ + unit_file.label_text() + ")"@)
    } else {
        on(label, action)
    }
}

/// One signal entry: refused in read-only mode.
pub open spec fn signal_item(read_only: bool, label: Seq<char>, signal: ProcessSignal) -> ItemView {
    if read_only {
        off(label, MenuAction::ProcessSignal(signal), "READ ONLY"@)
    } else {
        on(label, MenuAction::ProcessSignal(signal))
    }
}

/// The process menu; the follow and tree entries name what they switch to.
pub open spec fn process_menu_items(read_only: bool, following: bool, tree_mode: bool) -> Seq<ItemView> {
    seq![
        on("Details (Enter)"@, MenuAction::ProcessInspect),
        on(
            if following {
                "Stop follow PID"@
            } else {
                "Follow selected PID"@
            },
            MenuAction::ProcessFollow,
        ),
        on(
            if tree_mode {
                "Flat list view"@
            } else {
                "Tree view (on-demand)"@
            },
            MenuAction::ProcessTree,
        ),
        on("Open related logs"@, MenuAction::ProcessLogs),
        on("Jump to service (if unit)"@, MenuAction::ProcessService),
        on("Diagnostics"@, MenuAction::ProcessDiagnostics),
        on("Export context (command argv0 only)"@, MenuAction::ProcessExport),
        signal_item(read_only, "SIGTERM"@, ProcessSignal::Term),
        signal_item(read_only, "SIGKILL"@, ProcessSignal::Kill),
        signal_item(read_only, "SIGSTOP"@, ProcessSignal::Stop),
        signal_item(read_only, "SIGCONT"@, ProcessSignal::Cont),
        on("Close"@, MenuAction::Close),
    ]
}

fn signal_entry(read_only: bool, label: &str, signal: ProcessSignal) -> (m: MenuItem)
    ensures
        item_view(m) == signal_item(read_only, label@, signal),
{
    if read_only {
        MenuItem::disabled(label, MenuAction::ProcessSignal(signal), "READ ONLY")
    } else {
        MenuItem::enabled(label, MenuAction::ProcessSignal(signal))
    }
}

/// The action menu of the selected process: `following` when a PID is
/// followed, `tree_mode` when the tree view is on.
pub fn process_menu(read_only: bool, following: bool, tree_mode: bool) -> (v: Vec<MenuItem>)
    ensures
        items_view(v@) == process_menu_items(read_only, following, tree_mode),
{
    let mut items: Vec<MenuItem> = Vec::new();
    push_item(&mut items, MenuItem::enabled("Details (Enter)", MenuAction::ProcessInspect));
    let follow = if following {
        "Stop follow PID"
    } else {
        "Follow selected PID"
    };
    push_item(&mut items, MenuItem::enabled(follow, MenuAction::ProcessFollow));
    let tree = if tree_mode {
        "Flat list view"
    } else {
        "Tree view (on-demand)"
    };
    push_item(&mut items, MenuItem::enabled(tree, MenuAction::ProcessTree));
    push_item(&mut items, MenuItem::enabled("Open related logs", MenuAction::ProcessLogs));
    push_item(&mut items, MenuItem::enabled("Jump to service (if unit)", MenuAction::ProcessService));
    push_item(&mut items, MenuItem::enabled("Diagnostics", MenuAction::ProcessDiagnostics));
    push_item(
        &mut items,
        MenuItem::enabled("Export context (command argv0 only)", MenuAction::ProcessExport),
    );
    push_item(&mut items, signal_entry(read_only, "SIGTERM", ProcessSignal::Term));
    push_item(&mut items, signal_entry(read_only, "SIGKILL", ProcessSignal::Kill));
    push_item(&mut items, signal_entry(read_only, "SIGSTOP", ProcessSignal::Stop));
    push_item(&mut items, signal_entry(read_only, "SIGCONT", ProcessSignal::Cont));
    push_item(&mut items, MenuItem::enabled("Close", MenuAction::Close));
    assert(items_view(items@) =~= process_menu_items(read_only, following, tree_mode));
    items
}

/// In read-only mode every signal entry is disabled with the reason
/// `READ ONLY`.
pub proof fn lemma_read_only_disables_signals(following: bool, tree_mode: bool, i: int)
    requires
        7 <= i < 11,
    ensures
        process_menu_items(true, following, tree_mode)[i].2 == false,
        process_menu_items(true, following, tree_mode)[i].3 == Some("READ ONLY"@),
{
}

pub open spec fn service_menu_items(read_only: bool, active: Seq<char>, unit_file: UnitFileState) -> Seq<ItemView> {
    seq![
        on("Details + logs (Enter)"@, MenuAction::ServiceInspect),
        on("Open logs"@, MenuAction::ServiceLogs),
        on("Diagnostics"@, MenuAction::ServiceDiagnostics),
        on("Export context"@, MenuAction::ServiceExport),
        service_action_item(read_only, active, unit_file, "Start"@, ServiceActionKind::Start),
        service_action_item(read_only, active, unit_file, "Stop"@, ServiceActionKind::Stop),
        service_action_item(read_only, active, unit_file, "Restart"@, ServiceActionKind::Restart),
        service_action_item(read_only, active, unit_file, "Reload"@, ServiceActionKind::Reload),
        service_action_item(read_only, active, unit_file, "Enable"@, ServiceActionKind::Enable),
        service_action_item(read_only, active, unit_file, "Disable"@, ServiceActionKind::Disable),
        on("Close"@, MenuAction::Close),
    ]
}

fn push_item(items: &mut Vec<MenuItem>, m: MenuItem)
    ensures
        items_view(final(items)@) == items_view(old(items)@).push(item_view(m)),
{
    let ghost before = items@;
    items.push(m);
    assert(items_view(items@) =~= items_view(before).push(item_view(m)));
}

fn service_action_entry(
    read_only: bool,
    active: &str,
    unit_file: UnitFileState,
    label: &str,
    kind: ServiceActionKind,
) -> (m: MenuItem)
    ensures
        item_view(m) == service_action_item(read_only, active@, unit_file, label@, kind),
{
    let action = MenuAction::ServiceAction(kind);
    if read_only {
        return MenuItem::disabled(label, action, "READ ONLY");
    }
    if kind == ServiceActionKind::Reload && eq_ignore_ascii_case(active, "inactive") {
        return MenuItem::disabled(label, action, "unit inactive \u{2014} reload not useful");
    }
    if kind == ServiceActionKind::Enable && (unit_file == UnitFileState::Enabled || unit_file
        == UnitFileState::EnabledRuntime || unit_file == UnitFileState::Static) {
        let mut reason = String::from_str("already ");
        reason.append(unit_file.label());
        return MenuItem::disabled(label, action, reason.as_str());
    }
    if kind == ServiceActionKind::Disable && (unit_file == UnitFileState::Disabled || unit_file
        == UnitFileState::Static || unit_file == UnitFileState::Masked) {
        let mut reason = String::from_str("not disableable (");
        reason.append(unit_file.label());
        reason.append(")");
        return MenuItem::disabled(label, action, reason.as_str());
    }
    MenuItem::enabled(label, action)
}

/// The action menu of a unit with active state `active` and unit-file state
/// `unit_file`; `read_only` is the session's observation mode.
pub fn service_menu(read_only: bool, active: &str, unit_file: UnitFileState) -> (r: Vec<MenuItem>)
    ensures
        items_view(r@) == service_menu_items(read_only, active@, unit_file),
{
    let mut items: Vec<MenuItem> = Vec::new();
    push_item(&mut items, MenuItem::enabled("Details + logs (Enter)", MenuAction::ServiceInspect));
    push_item(&mut items, MenuItem::enabled("Open logs", MenuAction::ServiceLogs));
    push_item(&mut items, MenuItem::enabled("Diagnostics", MenuAction::ServiceDiagnostics));
    push_item(&mut items, MenuItem::enabled("Export context", MenuAction::ServiceExport));
    push_item(
        &mut items,
        service_action_entry(read_only, active, unit_file, "Start", ServiceActionKind::Start),
    );
    push_item(
        &mut items,
        service_action_entry(read_only, active, unit_file, "Stop", ServiceActionKind::Stop),
    );
    push_item(
        &mut items,
        service_action_entry(read_only, active, unit_file, "Restart", ServiceActionKind::Restart),
    );
    push_item(
        &mut items,
        service_action_entry(read_only, active, unit_file, "Reload", ServiceActionKind::Reload),
    );
    push_item(
        &mut items,
        service_action_entry(read_only, active, unit_file, "Enable", ServiceActionKind::Enable),
    );
    push_item(
        &mut items,
        service_action_entry(read_only, active, unit_file, "Disable", ServiceActionKind::Disable),
    );
    push_item(&mut items, MenuItem::enabled("Close", MenuAction::Close));
    assert(items_view(items@) =~= service_menu_items(read_only, active@, unit_file));
    items
}

/// In read-only mode every unit action is disabled with the reason `READ ONLY`.
pub proof fn lemma_read_only_disables_unit_actions(active: Seq<char>, unit_file: UnitFileState, i: int)
    requires
        4 <= i < 10,
    ensures
        service_menu_items(true, active, unit_file)[i].2 == false,
        service_menu_items(true, active, unit_file)[i].3 == Some("READ ONLY"@),
{
}

pub open spec fn log_menu_items() -> Seq<ItemView> {
    seq![
        on("Export selected (markdown)"@, MenuAction::LogExportSelected(ExportFormat::Markdown)),
        on("Export visible (text)"@, MenuAction::LogExportVisible(ExportFormat::Text)),
        on("Export visible (markdown)"@, MenuAction::LogExportVisible(ExportFormat::Markdown)),
        on("Export visible (json)"@, MenuAction::LogExportVisible(ExportFormat::Json)),
        on("Export context \u{b1}5 (markdown)"@, MenuAction::LogExportContext(ExportFormat::Markdown)),
        on("Close"@, MenuAction::Close),
    ]
}

pub fn log_menu() -> (r: Vec<MenuItem>)
    ensures
        items_view(r@) == log_menu_items(),
{
    let mut items: Vec<MenuItem> = Vec::new();
    push_item(
        &mut items,
        MenuItem::enabled(
            "Export selected (markdown)",
            MenuAction::LogExportSelected(ExportFormat::Markdown),
        ),
    );
    push_item(
        &mut items,
        MenuItem::enabled("Export visible (text)", MenuAction::LogExportVisible(ExportFormat::Text)),
    );
    push_item(
        &mut items,
        MenuItem::enabled(
            "Export visible (markdown)",
            MenuAction::LogExportVisible(ExportFormat::Markdown),
        ),
    );
    push_item(
        &mut items,
        MenuItem::enabled("Export visible (json)", MenuAction::LogExportVisible(ExportFormat::Json)),
    );
    push_item(
        &mut items,
        MenuItem::enabled(
            "Export context \u{b1}5 (markdown)",
            MenuAction::LogExportContext(ExportFormat::Markdown),
        ),
    );
    push_item(&mut items, MenuItem::enabled("Close", MenuAction::Close));
    assert(items_view(items@) =~= log_menu_items());
    items
}

pub open spec fn finding_menu_items() -> Seq<ItemView> {
    seq![on("Export finding context"@, MenuAction::FindingExport), on("Close"@, MenuAction::Close)]
}

pub fn finding_menu() -> (r: Vec<MenuItem>)
    ensures
        items_view(r@) == finding_menu_items(),
{
    let mut items: Vec<MenuItem> = Vec::new();
    push_item(&mut items, MenuItem::enabled("Export finding context", MenuAction::FindingExport));
    push_item(&mut items, MenuItem::enabled("Close", MenuAction::Close));
    assert(items_view(items@) =~= finding_menu_items());
    items
}

} // verus!
