//! Inspecting, action menus, exports, and the settings switches.

use vstd::prelude::*;

use crate::app::action::AppAction;
use crate::app::action::ConfirmChoice;
use crate::app::app_state::same_but_toast;
use crate::app::app_state::AppState;
use crate::app::app_state::ToastKind;
use crate::app::export::export_finding;
use crate::app::export::export_logs_context;
use crate::app::export::export_logs_selected;
use crate::app::export::export_logs_visible;
use crate::app::export::export_service;
use crate::app::inspector::choose_menu_item;
use crate::app::inspector::directory_inspector;
use crate::app::inspector::finding_inspector;
use crate::app::inspector::MenuChoice;
use crate::app::menus::finding_menu;
use crate::app::menus::log_menu;
use crate::app::menus::process_menu;
use crate::app::menus::service_menu;
use crate::app::side_effect::SideEffect;
use crate::app::state::current_search;
use crate::app::state::current_storage_node;
use crate::app::state::visible_findings;
use crate::app::state::visible_storage_children;
use crate::app::state::Dialog;
use crate::model::inspect::ExportFormat;
use crate::model::inspect::LogInspectContext;
use crate::model::inspect::MenuAction;
use crate::model::inspect::MenuItem;
use crate::model::log::LogEntry;
use crate::model::process::ProcessSignal;
use crate::model::screen::Screen;
use crate::model::service::filter_services;
use crate::model::service::ServiceFilter;
use crate::model::service::ServiceInfo;
use crate::model::service::UnitFileState;
use crate::model::storage::StorageTab;
use crate::preview::largest_files_from_tree;
use crate::preview::files_in;
use crate::model::service::services_kept;
use crate::model::log::kept_entries;
use crate::model::log::opt_str_view;
use crate::config::opt_view;
use crate::text::unicode_lower;
use crate::app::state::current_query;
use crate::app::state::findings_kept;
use crate::app::export::saves;
use crate::app::export::format_for;
use crate::app::export::visible_export_text;
use crate::app::export::service_export_text;
use crate::app::export::finding_export_text;
use crate::app::side_effect::SupportFormat;
use crate::model::diagnostics::Finding;
use crate::preview::top_listing;
use crate::model::storage::StorageNode;
use crate::app::app_state::storage_selected_node;
use crate::app::inspector::directory_inspector_body;
use crate::app::inspector::finding_inspector_body;
use crate::model::inspect::context_lines;
use crate::text::join_lines;
use crate::app::inspector::mount_inspector;
use crate::app::inspector::mount_inspector_body;
use crate::settings::toggle_setting;
use crate::text::decimal_string;

verus! {

/// The side effects of Enter on every screen but storage: load the selected
/// process's or service's details (and the service's logs), or run the
/// diagnostics from the dashboard.
pub open spec fn inspect_fx(o: AppState) -> Seq<SideEffect> {
    match o.screen {
        Screen::Processes => match o.process.selected_pid {
            Some(pid) => seq![SideEffect::FetchProcessDetails { pid }],
            None => Seq::empty(),
        },
        Screen::Services => match o.service.selected_unit {
            Some(u) => seq![
                SideEffect::FetchServiceDetails { unit: u },
                SideEffect::RefreshLogs { unit: Some(u) },
            ],
            None => Seq::empty(),
        },
        Screen::Dashboard => seq![SideEffect::RefreshDiagnostics],
        _ => Seq::empty(),
    }
}

/// The row under the cursor of an open action menu.
pub open spec fn selected_menu_item(d: Option<Dialog>) -> Option<MenuItem> {
    match d {
        Some(Dialog::ActionMenu { items, selected, .. }) => if selected < items@.len() {
            Some(items@[selected as int])
        } else {
            None
        },
        _ => None,
    }
}

/// `o` with its dialog closed.
pub open spec fn closed(o: AppState) -> AppState {
    AppState { dialog: None, ..o }
}

/// What running the selected menu row does: nothing without a row, a warning
/// for a disabled row, else the row's action with the menu closed.
pub open spec fn menu_post(o: AppState, n: AppState, fx: Seq<SideEffect>) -> bool {
    match selected_menu_item(o.dialog) {
        None => n == o && fx.len() == 0,
        Some(item) => if !item.enabled {
            same_but_toast(n, o) && fx.len() == 0
        } else {
            menu_action_post(closed(o), n, item.action, fx)
        },
    }
}

/// What a menu row's action does, run on `c` (the state with the menu
/// closed).
pub open spec fn menu_action_post(c: AppState, n: AppState, action: MenuAction, fx: Seq<SideEffect>) -> bool {
    match action {
        MenuAction::Close => n.dialog is None && n.screen == c.screen && fx.len() == 0,
        MenuAction::ProcessDiagnostics => n.screen == Screen::Diagnostics && fx == seq![
            SideEffect::RefreshDiagnostics,
        ],
        MenuAction::ServiceDiagnostics => n.screen == Screen::Diagnostics && fx == seq![
            SideEffect::RefreshDiagnostics,
        ],
        MenuAction::ServiceLogs => match c.service.selected_unit {
            Some(u) => n.screen == Screen::Logs && n.log.unit == Some(u) && fx == seq![
                SideEffect::RefreshLogs { unit: Some(u) },
            ],
            None => n.dialog is None && fx.len() == 0,
        },
        MenuAction::ProcessLogs => match c.process.details_unit {
            Some(u) => n.screen == Screen::Logs && n.log.unit == Some(u) && fx == seq![
                SideEffect::RefreshLogs { unit: Some(u) },
            ],
            None => n.dialog is None && fx.len() == 0,
        },
        MenuAction::ServiceAction(kind) => fx.len() == 0 && match c.service.selected_unit {
            Some(u) => if c.read_only {
                n.dialog is None
            } else {
                n.dialog == Some(
                    Dialog::ConfirmService { unit: u, action: kind, choice: ConfirmChoice::Cancel },
                )
            },
            None => n.dialog is None,
        },
        MenuAction::ProcessSignal(sig) => fx.len() == 0 && if c.process.selected
            < c.process.rows@.len() && !c.read_only {
            n.dialog matches Some(Dialog::ConfirmSignal { pid, signal, choice, .. })
                && pid == c.process.rows@[c.process.selected as int].pid && signal == sig
                && choice == ConfirmChoice::Cancel
        } else {
            n.dialog is None
        },
        MenuAction::ProcessTree => n.dialog is None && n.process.tree_mode
            == !c.process.tree_mode && fx == if n.process.tree_mode {
            seq![SideEffect::FetchPpidMap]
        } else {
            Seq::empty()
        },
        MenuAction::ProcessInspect => c.screen != Screen::Storage ==> fx == inspect_fx(
            c,
        ),
        MenuAction::ServiceInspect => c.screen != Screen::Storage ==> fx == inspect_fx(
            c,
        ),
        MenuAction::StoragePreview => c.screen == Screen::Storage ==> storage_inspect_post(
            c,
            n,
            fx,
        ),
        MenuAction::ProcessFollow => fx.len() == 0 && n.dialog is None && (c.process.selected_pid matches Some(pid)
            ==> n.process.follow_pid == if c.process.follow_pid == Some(pid) {
            None
        } else {
            Some(pid)
        }),
        MenuAction::ProcessService => fx.len() == 0 && match c.process.details_unit {
            Some(u) => n.screen == Screen::Services && n.search.services == u,
            None => n == c,
        },
        MenuAction::ProcessExport => fx.len() == 0 && same_but_toast(n, c),
        MenuAction::ServiceExport => n == c && match selected_service_of(c) {
            Some(svc) => fx.len() == 1 && saves(
                fx[0],
                service_export_text(svc, c.service.recent_logs@),
                SupportFormat::Markdown,
            ),
            None => fx.len() == 0,
        },
        MenuAction::FindingExport => n == c && match selected_finding_of(c) {
            Some(f) => fx.len() == 1 && saves(fx[0], finding_export_text(f@), SupportFormat::Markdown),
            None => fx.len() == 0,
        },
        MenuAction::LogExportVisible(fmt) => n == c && logs_export_post(c, fx, fmt),
        _ => n.read_only == c.read_only,
    }
}

/// The actions that inspect, export, run menus, and edit settings.
pub open spec fn inspect_action(a: AppAction) -> bool {
    a is Inspect || a is OpenActionMenu || a is ExportContext || a is ActivateMenu || a is MenuSelect
        || a is ToggleProcessFollow || a is ToggleProcessTree || a is CompleteOnboarding
        || a is SaveSettings || a is CycleTerminalProfile || a is CyclePerformanceProfile
        || a is ToggleSetting || a is ResetSettings
}

/// What each inspect, menu, export and settings action does.
pub open spec fn inspect_post(o: AppState, n: AppState, action: AppAction, fx: Seq<SideEffect>) -> bool {
    &&& action is Inspect && o.screen != Screen::Storage ==> fx == inspect_fx(o)
    &&& action is Inspect && o.screen == Screen::Storage ==> storage_inspect_post(o, n, fx)
    &&& action is Inspect && o.screen == Screen::Diagnostics ==> finding_inspect_post(o, n)
    &&& action is Inspect && o.screen == Screen::Logs ==> log_inspect_post(o, n)
    &&& action is OpenActionMenu ==> n.screen == o.screen && fx.len() == 0 && (n.dialog matches Some(
        Dialog::ActionMenu { selected, .. },
    ) && selected == 0)
    &&& action is ExportContext ==> export_post(o, n, fx)
    &&& (action is ActivateMenu || action is MenuSelect) ==> menu_post(o, n, fx)
    &&& action is ToggleProcessFollow ==> fx.len() == 0 && (o.process.selected_pid matches Some(pid)
        ==> n.process.follow_pid == if o.process.follow_pid == Some(pid) {
        None
    } else {
        Some(pid)
    })
    &&& action is ToggleProcessTree ==> n.process.tree_mode == !o.process.tree_mode && fx == if n.process.tree_mode {
        seq![SideEffect::FetchPpidMap]
    } else {
        Seq::empty()
    }
    &&& action is CompleteOnboarding ==> fx.len() == 0 && n.dialog == Some(
        Dialog::ConfirmCompleteOnboarding { choice: ConfirmChoice::Cancel },
    )
    &&& action is ResetSettings ==> fx.len() == 0 && n.dialog == Some(
        Dialog::ConfirmResetSettings { choice: ConfirmChoice::Cancel },
    )
    &&& action is SaveSettings ==> fx == seq![SideEffect::SaveConfig, SideEffect::PublishConfig]
        && n.config.terminal_profile == o.terminal_profile && n.config.performance_profile
        == o.performance_profile && n.config.wallboard_default == o.wallboard
        && !n.settings.onboarding_pending
    &&& action is CycleTerminalProfile ==> fx.len() == 0 && n.terminal_profile
        == o.terminal_profile.following() && n.config.terminal_profile == n.terminal_profile
    &&& action is CyclePerformanceProfile ==> fx == seq![SideEffect::PublishConfig]
        && n.performance_profile == o.performance_profile.following()
        && n.config.performance_profile == n.performance_profile
    &&& action is ToggleSetting ==> fx.len() == 0
    &&& !inspect_action(action) ==> n == o && fx.len() == 0
}

fn status(state: &mut AppState, kind: ToastKind, text: &str)
    ensures
        same_but_toast(*final(state), *old(state)),
{
    state.set_toast(kind, String::from_str(text));
}

fn one(e: SideEffect) -> (v: Vec<SideEffect>)
    ensures
        v@ == seq![e],
{
    let mut v = Vec::new();
    v.push(e);
    v
}

fn filter_of(state: &AppState) -> (f: ServiceFilter)
    ensures
        f == if state.service.failed_only {
            ServiceFilter::Failed
        } else {
            state.service.filter
        },
{
    if state.service.failed_only {
        ServiceFilter::Failed
    } else {
        state.service.filter
    }
}

fn clone_service(s: &ServiceInfo) -> (r: ServiceInfo)
    ensures
        r == *s,
{
    ServiceInfo {
        unit: s.unit.clone(),
        description: s.description.clone(),
        load_state: s.load_state.clone(),
        active_state: s.active_state.clone(),
        sub_state: s.sub_state.clone(),
        unit_path: s.unit_path.clone(),
        unit_file_state: s.unit_file_state,
        fragment_path: match &s.fragment_path {
            Some(p) => Some(p.clone()),
            None => None,
        },
    }
}

/// The selected row of the service list.
fn selected_service(state: &AppState) -> (r: Option<ServiceInfo>)
    ensures
        r == selected_service_of(*state),
{
    let q = current_search(&state.dialog, &state.search, state.screen);
    let filtered = filter_services(&state.service.items, q, filter_of(state));
    if state.service.selected < filtered.len() {
        Some(clone_service(filtered[state.service.selected]))
    } else {
        None
    }
}

/// The log entries the log view shows, copied.
fn visible_log_entries(state: &AppState) -> (out: Vec<LogEntry>)
    ensures
        exists|now: u64| out@ == #[trigger] visible_logs_at(*state, now),
{
    let q = current_search(&state.dialog, &state.search, state.screen);
    let unit = match &state.log.unit {
        Some(u) => Some(u.as_str()),
        None => None,
    };
    let v = state.log.buffer.filtered_preset(q, state.log.min_priority, state.log.preset, unit);
    assert(opt_str_view(unit) == opt_view(state.log.unit));
    let mut out: Vec<LogEntry> = Vec::new();
    let mut i: usize = 0;
    while i < v.len()
        invariant
            i <= v@.len(),
            out@ == crate::model::log::deref_entries(v@).take(i as int),
        decreases v.len() - i,
    {
        out.push(v[i].clone());
        assert(out@ =~= crate::model::log::deref_entries(v@).take(i + 1));
        i += 1;
    }
    assert(out@ =~= crate::model::log::deref_entries(v@));
    proof {
        let now = choose|now: u64|
            crate::model::log::deref_entries(v@) == kept_entries(
                state.log.buffer.contents(),
                unicode_lower(q@),
                state.log.min_priority,
                state.log.preset,
                opt_str_view(unit),
                now,
            );
        assert(out@ == visible_logs_at(*state, now));
    }
    out
}

/// The first position from `i` on of an entry with `e`'s time and message.
pub open spec fn entry_position(s: Seq<LogEntry>, e: LogEntry, i: int) -> Option<int>
    decreases s.len() - i,
{
    if i < 0 || i >= s.len() {
        None
    } else if s[i].timestamp@ == e.timestamp@ && s[i].message@ == e.message@ {
        Some(i)
    } else {
        entry_position(s, e, i + 1)
    }
}

/// Where in the buffer an entry is found: its first copy, else the start.
pub open spec fn position_in_buffer(s: Seq<LogEntry>, e: LogEntry) -> int {
    match entry_position(s, e, 0) {
        Some(k) => k,
        None => 0,
    }
}

/// The selected log entry, with its position in the whole buffer.
fn selected_log(state: &AppState) -> (r: Option<(LogEntry, usize)>)
    ensures
        exists|now: u64| {
            let vis = #[trigger] visible_logs_at(*state, now);
            match r {
                Some((e, idx)) => state.log.selected < vis.len() && e == vis[state.log.selected as int]
                    && idx == position_in_buffer(state.log.buffer.contents(), e),
                None => state.log.selected >= vis.len(),
            }
        },
{
    let visible = visible_log_entries(state);
    let ghost now = choose|now: u64| visible@ == visible_logs_at(*state, now);
    if state.log.selected >= visible.len() {
        assert(visible_logs_at(*state, now).len() <= state.log.selected);
        return None;
    }
    let e = visible[state.log.selected].clone();
    let n = state.log.buffer.len();
    let ghost s = state.log.buffer.contents();
    let mut idx: usize = 0;
    let mut i: usize = 0;
    let mut found = false;
    while i < n && !found
        invariant
            n == state.log.buffer.contents().len(),
            s == state.log.buffer.contents(),
            i <= n,
            found ==> idx as int == position_in_buffer(s, e),
            !found ==> idx == 0 && entry_position(s, e, 0) == entry_position(s, e, i as int),
        decreases n - i,
    {
        let b = state.log.buffer.get(i);
        if crate::text::str_eq(b.timestamp.as_str(), e.timestamp.as_str()) && crate::text::str_eq(
            b.message.as_str(),
            e.message.as_str(),
        ) {
            idx = i;
            found = true;
        }
        i += 1;
    }
    let r = Some((e, idx));
    assert(visible_logs_at(*state, now)[state.log.selected as int] == e);
    r
}

/// The log-event inspector's body around buffer position `idx`: five
/// entries before, the entry, five after.
pub open spec fn log_context_body(s: Seq<LogEntry>, idx: int) -> Seq<char> {
    let start = if idx >= 5 {
        idx - 5
    } else {
        0
    };
    let end = if idx + 6 <= s.len() {
        idx + 6
    } else {
        s.len() as int
    };
    join_lines(context_lines(s.subrange(start, idx), s[idx], s.subrange(idx + 1, end)))
}

/// What Enter does on the log view: the selected entry's inspector, shown
/// around where it is found in the buffer; nothing without a selection.
pub open spec fn log_inspect_post(o: AppState, n: AppState) -> bool {
    exists|now: u64| {
        let vis = #[trigger] visible_logs_at(o, now);
        let s = o.log.buffer.contents();
        if o.log.selected < vis.len() && position_in_buffer(s, vis[o.log.selected as int]) < s.len()
            && position_in_buffer(s, vis[o.log.selected as int]) < usize::MAX - 6 {
            &&& n == (AppState { dialog: n.dialog, ..o })
            &&& n.dialog matches Some(Dialog::Inspector { title, body })
            &&& title@ == "Log event"@
            &&& body@ == log_context_body(s, position_in_buffer(s, vis[o.log.selected as int]))
        } else {
            n == o
        }
    }
}

fn log_context(state: &AppState) -> (r: Option<LogInspectContext>)
    ensures
        exists|now: u64| {
            let vis = #[trigger] visible_logs_at(*state, now);
            let s = state.log.buffer.contents();
            if state.log.selected < vis.len() && position_in_buffer(s, vis[state.log.selected as int])
                < s.len() && position_in_buffer(s, vis[state.log.selected as int]) < usize::MAX - 6 {
                r matches Some(ctx) && join_lines(context_lines(ctx.before@, ctx.focus, ctx.after@))
                    == log_context_body(s, position_in_buffer(s, vis[state.log.selected as int]))
            } else {
                r is None
            }
        },
{
    let sel = selected_log(state);
    let ghost now = choose|now: u64| {
        let vis = #[trigger] visible_logs_at(*state, now);
        match sel {
            Some((e, idx)) => state.log.selected < vis.len() && e == vis[state.log.selected as int]
                && idx == position_in_buffer(state.log.buffer.contents(), e),
            None => state.log.selected >= vis.len(),
        }
    };
    match sel {
        Some((_, idx)) => {
            if idx < state.log.buffer.len() && idx < usize::MAX - 6 {
                match state.log.buffer.context_around(idx, 5, 5) {
                    Some((before, focus, after)) => {
                        assert(join_lines(context_lines(before@, focus, after@)) == log_context_body(
                            state.log.buffer.contents(),
                            idx as int,
                        ));
                        Some(LogInspectContext { index: idx, before, focus, after })
                    },
                    None => None,
                }
            } else {
                None
            }
        },
        None => None,
    }
}

/// Enter on the current screen: load the selected item's details, or show
/// them in an inspector.
pub fn do_inspect(state: &mut AppState) -> (fx: Vec<SideEffect>)
    ensures
        final(state).read_only == old(state).read_only,
        forall|i: int| 0 <= i < fx@.len() ==> !(#[trigger] fx@[i] is SendSignal || fx@[i] is ServiceAction
            || fx@[i] is SudoServiceAction),
        old(state).screen == Screen::Dashboard ==> final(state).screen == Screen::Diagnostics,
        old(state).screen != Screen::Storage ==> fx@ == inspect_fx(*old(state)),
        old(state).screen == Screen::Storage ==> storage_inspect_post(*old(state), *final(state), fx@),
        old(state).screen == Screen::Diagnostics ==> finding_inspect_post(*old(state), *final(state)),
        old(state).screen == Screen::Processes || old(state).screen == Screen::Settings
            ==> same_but_toast(*final(state), *old(state)),
        old(state).screen != Screen::Dashboard ==> final(state).screen == old(state).screen,
        old(state).screen == Screen::Services && old(state).service.selected_unit is Some
            ==> final(state).service.pending_inspect,
        old(state).screen == Screen::Logs ==> log_inspect_post(*old(state), *final(state)),
{
    match state.screen {
        Screen::Processes => {
            match state.process.selected_pid {
                Some(pid) => {
                    let mut m = String::from_str("loading details for PID ");
                    m.append(decimal_string(pid as u64).as_str());
                    state.set_toast(ToastKind::Progress, m);
                    one(SideEffect::FetchProcessDetails { pid })
                },
                None => Vec::new(),
            }
        },
        Screen::Services => {
            match &state.service.selected_unit {
                Some(u) => {
                    let unit = u.clone();
                    state.service.pending_inspect = true;
                    status(state, ToastKind::Progress, "loading service details");
                    let mut fx = Vec::new();
                    fx.push(SideEffect::FetchServiceDetails { unit: unit.clone() });
                    fx.push(SideEffect::RefreshLogs { unit: Some(unit) });
                    fx
                },
                None => Vec::new(),
            }
        },
        Screen::Logs => {
            if let Some(ctx) = log_context(state) {
                state.dialog = Some(
                    Dialog::Inspector {
                        title: String::from_str("Log event"),
                        body: ctx.format_body(),
                    },
                );
            }
            Vec::new()
        },
        Screen::Storage => inspect_storage(state),
        Screen::Diagnostics => {
            let found = {
                let q = current_search(&state.dialog, &state.search, state.screen);
                let visible = visible_findings(&state.diagnostic.findings, q);
                if state.diagnostic.selected < visible.len() {
                    Some(finding_inspector(visible[state.diagnostic.selected]))
                } else {
                    None
                }
            };
            if let Some((title, body)) = found {
                state.dialog = Some(Dialog::Inspector { title, body });
            }
            Vec::new()
        },
        Screen::Dashboard => {
            state.screen = Screen::Diagnostics;
            one(SideEffect::RefreshDiagnostics)
        },
        Screen::Settings => Vec::new(),
    }
}

/// What Enter does on the findings list: the selected finding's inspector,
/// or nothing without a selection.
pub open spec fn finding_inspect_post(o: AppState, n: AppState) -> bool {
    match selected_finding_of(o) {
        Some(f) => {
            &&& n == (AppState { dialog: n.dialog, ..o })
            &&& n.dialog matches Some(Dialog::Inspector { title, body })
            &&& title@ == f@.title && body@ == finding_inspector_body(f@)
        },
        None => n == o,
    }
}

/// What Enter does on the storage screen: on the directory view, a
/// directory's inspector or a file's preview; on the largest files, the
/// preview of the file picked from the top fifty; on the mounts, the
/// mount's inspector; nothing without a selection.
pub open spec fn storage_inspect_post(o: AppState, n: AppState, fx: Seq<SideEffect>) -> bool {
    match o.storage.tab {
        StorageTab::DirectoryUsage => match storage_selected_node(o) {
            None => n == o && fx.len() == 0,
            Some(c) => if c.is_dir {
                &&& fx.len() == 0
                &&& n == (AppState { dialog: n.dialog, ..o })
                &&& n.dialog matches Some(Dialog::Inspector { title, body })
                &&& title@ == "Dir "@ + c.name@ && body@ == directory_inspector_body(c)
            } else {
                same_but_toast(n, o) && fx == seq![SideEffect::PreviewFile { path: c.path }]
            },
        },
        StorageTab::LargestFiles => n == o && match o.storage.tree {
            None => fx.len() == 0,
            Some(t) => exists|r: Seq<StorageNode>|
                #[trigger] top_listing(files_in(seq![t.root]), 50, r) && if o.storage.selected < r.len() {
                    fx == seq![SideEffect::PreviewFile { path: r[o.storage.selected as int].path }]
                } else {
                    fx.len() == 0
                },
        },
        StorageTab::Mounts => if o.storage.selected < o.storage.disks@.len() {
            let d = o.storage.disks@[o.storage.selected as int];
            &&& fx.len() == 0
            &&& n == (AppState { dialog: n.dialog, ..o })
            &&& n.dialog matches Some(Dialog::Inspector { title, body })
            &&& title@ == "Mount "@ + d.mount_point@ && body@ == mount_inspector_body(d)
        } else {
            n == o && fx.len() == 0
        },
    }
}

fn inspect_storage(state: &mut AppState) -> (fx: Vec<SideEffect>)
    requires
        old(state).screen == Screen::Storage,
    ensures
        final(state).read_only == old(state).read_only,
        final(state).screen == old(state).screen,
        storage_inspect_post(*old(state), *final(state), fx@),
{
    match state.storage.tab {
        StorageTab::DirectoryUsage => {
            let picked = match &state.storage.tree {
                Some(t) => match current_storage_node(&t.root, &state.storage.cwd) {
                    Some(n) => {
                        let q = current_search(&state.dialog, &state.search, state.screen);
                        let children = visible_storage_children(n, q);
                        if state.storage.selected < children.len() {
                            let c = children[state.storage.selected];
                            if c.is_dir {
                                Some((true, directory_inspector(c), c.path.clone()))
                            } else {
                                Some((false, (String::new(), String::new()), c.path.clone()))
                            }
                        } else {
                            None
                        }
                    },
                    None => None,
                },
                None => None,
            };
            match picked {
                Some((true, (title, body), _)) => {
                    state.dialog = Some(Dialog::Inspector { title, body });
                    Vec::new()
                },
                Some((false, _, path)) => {
                    status(state, ToastKind::Progress, "previewing file");
                    one(SideEffect::PreviewFile { path })
                },
                None => Vec::new(),
            }
        },
        StorageTab::LargestFiles => {
            let path = match &state.storage.tree {
                Some(t) => {
                    let files = largest_files_from_tree(&t.root, 50);
                    proof {
                        assert(top_listing(files_in(seq![t.root]), 50, crate::preview::deref_nodes(files@)));
                    }
                    if state.storage.selected < files.len() {
                        Some(files[state.storage.selected].path.clone())
                    } else {
                        None
                    }
                },
                None => None,
            };
            match path {
                Some(p) => one(SideEffect::PreviewFile { path: p }),
                None => Vec::new(),
            }
        },
        StorageTab::Mounts => {
            if state.storage.selected < state.storage.disks.len() {
                let (title, body) = mount_inspector(&state.storage.disks[state.storage.selected]);
                state.dialog = Some(Dialog::Inspector { title, body });
            }
            Vec::new()
        },
    }
}

/// Opens the action menu of the current screen, its first row selected.
pub fn open_menu(state: &mut AppState)
    ensures
        final(state).read_only == old(state).read_only,
        final(state).screen == old(state).screen,
        (final(state).dialog matches Some(Dialog::ActionMenu { selected, .. }) && selected == 0),
{
    let (title, items) = match state.screen {
        Screen::Processes => (
            String::from_str("Process actions"),
            process_menu(
                state.read_only,
                state.process.follow_pid.is_some(),
                state.process.tree_mode,
            ),
        ),
        Screen::Services => {
            let (active, ufs) = match selected_service(state) {
                Some(s) => (s.active_state, s.unit_file_state),
                None => (String::from_str("unknown"), UnitFileState::Unknown),
            };
            (String::from_str("Service actions"), service_menu(state.read_only, active.as_str(), ufs))
        },
        Screen::Logs => (String::from_str("Log actions"), log_menu()),
        Screen::Diagnostics => (String::from_str("Finding actions"), finding_menu()),
        _ => {
            let mut v: Vec<MenuItem> = Vec::new();
            v.push(MenuItem::enabled("Close", MenuAction::Close));
            (String::from_str("Actions"), v)
        },
    };
    state.dialog = Some(Dialog::ActionMenu { title, items, selected: 0 });
}

/// The service on the selected row of the service list, as shown.
pub open spec fn selected_service_of(o: AppState) -> Option<ServiceInfo> {
    let kept = services_kept(
        o.service.items@,
        unicode_lower(current_query(o.dialog, o.search, o.screen)),
        if o.service.failed_only {
            ServiceFilter::Failed
        } else {
            o.service.filter
        },
    );
    if o.service.selected < kept.len() {
        Some(kept[o.service.selected as int])
    } else {
        None
    }
}

/// The finding on the selected row of the findings list, as shown.
pub open spec fn selected_finding_of(o: AppState) -> Option<Finding> {
    let kept = findings_kept(o.diagnostic.findings@, current_query(o.dialog, o.search, o.screen));
    if o.diagnostic.selected < kept.len() {
        Some(kept[o.diagnostic.selected as int])
    } else {
        None
    }
}

/// The log entries the log view lists at time `now`.
pub open spec fn visible_logs_at(o: AppState, now: u64) -> Seq<LogEntry> {
    kept_entries(
        o.log.buffer.contents(),
        unicode_lower(current_query(o.dialog, o.search, o.screen)),
        o.log.min_priority,
        o.log.preset,
        opt_view(o.log.unit),
        now,
    )
}

/// The export of the visible log entries in `fmt` (which entries are
/// visible depends on the time of the export).
pub open spec fn logs_export_post(o: AppState, fx: Seq<SideEffect>, fmt: ExportFormat) -> bool {
    fx.len() == 1 && exists|now: u64|
        saves(fx[0], visible_export_text(#[trigger] visible_logs_at(o, now), fmt), format_for(fmt))
}

/// What exporting the current screen's context gives: the selected
/// service's or finding's report, the visible log entries as text, or
/// (elsewhere) a note on the status line.
pub open spec fn export_post(o: AppState, n: AppState, fx: Seq<SideEffect>) -> bool {
    match o.screen {
        Screen::Services => n == o && match selected_service_of(o) {
            Some(svc) => fx.len() == 1 && saves(
                fx[0],
                service_export_text(svc, o.service.recent_logs@),
                SupportFormat::Markdown,
            ),
            None => fx.len() == 0,
        },
        Screen::Diagnostics => n == o && match selected_finding_of(o) {
            Some(f) => fx.len() == 1 && saves(fx[0], finding_export_text(f@), SupportFormat::Markdown),
            None => fx.len() == 0,
        },
        Screen::Logs => n == o && logs_export_post(o, fx, ExportFormat::Text),
        _ => same_but_toast(n, o) && fx.len() == 0,
    }
}

/// Export of the current screen's context.
fn do_export(state: &mut AppState) -> (fx: Vec<SideEffect>)
    ensures
        final(state).read_only == old(state).read_only,
        forall|i: int| 0 <= i < fx@.len() ==> #[trigger] fx@[i] is SaveReport,
        export_post(*old(state), *final(state), fx@),
{
    match state.screen {
        Screen::Services => export_selected_service(state),
        Screen::Logs => export_visible_logs(state, ExportFormat::Text),
        Screen::Diagnostics => export_selected_finding(state),
        Screen::Processes => {
            status(state, ToastKind::Info, "process export is written by the runtime");
            Vec::new()
        },
        _ => {
            status(state, ToastKind::Info, "nothing to export on this screen");
            Vec::new()
        },
    }
}

fn export_selected_service(state: &mut AppState) -> (fx: Vec<SideEffect>)
    ensures
        *final(state) == *old(state),
        forall|i: int| 0 <= i < fx@.len() ==> #[trigger] fx@[i] is SaveReport,
        match selected_service_of(*old(state)) {
            Some(svc) => fx@.len() == 1 && saves(
                fx@[0],
                service_export_text(svc, old(state).service.recent_logs@),
                SupportFormat::Markdown,
            ),
            None => fx@.len() == 0,
        },
{
    match selected_service(state) {
        Some(s) => one(export_service(&s, state.service.recent_logs.as_slice())),
        None => Vec::new(),
    }
}

fn export_selected_finding(state: &mut AppState) -> (fx: Vec<SideEffect>)
    ensures
        *final(state) == *old(state),
        forall|i: int| 0 <= i < fx@.len() ==> #[trigger] fx@[i] is SaveReport,
        match selected_finding_of(*old(state)) {
            Some(f) => fx@.len() == 1 && saves(fx@[0], finding_export_text(f@), SupportFormat::Markdown),
            None => fx@.len() == 0,
        },
{
    let e = {
        let q = current_search(&state.dialog, &state.search, state.screen);
        let visible = visible_findings(&state.diagnostic.findings, q);
        if state.diagnostic.selected < visible.len() {
            Some(export_finding(visible[state.diagnostic.selected]))
        } else {
            None
        }
    };
    match e {
        Some(e) => one(e),
        None => Vec::new(),
    }
}

fn export_visible_logs(state: &mut AppState, fmt: ExportFormat) -> (fx: Vec<SideEffect>)
    ensures
        *final(state) == *old(state),
        forall|i: int| 0 <= i < fx@.len() ==> #[trigger] fx@[i] is SaveReport,
        logs_export_post(*old(state), fx@, fmt),
{
    let q = current_search(&state.dialog, &state.search, state.screen);
    let unit = match &state.log.unit {
        Some(u) => Some(u.as_str()),
        None => None,
    };
    let v = state.log.buffer.filtered_preset(q, state.log.min_priority, state.log.preset, unit);
    assert(opt_str_view(unit) == opt_view(state.log.unit));
    let e = export_logs_visible(v.as_slice(), fmt);
    let fx = one(e);
    proof {
        let now = choose|now: u64|
            crate::model::log::deref_entries(v@) == kept_entries(
                state.log.buffer.contents(),
                unicode_lower(q@),
                state.log.min_priority,
                state.log.preset,
                opt_str_view(unit),
                now,
            );
        assert(visible_logs_at(*state, now) == crate::model::log::deref_entries(v@));
    }
    fx
}

/// Runs the selected row of the open action menu: a disabled row only
/// warns; any other row closes the menu and runs its action.
pub fn activate_menu(state: &mut AppState) -> (fx: Vec<SideEffect>)
    ensures
        final(state).read_only == old(state).read_only,
        old(state).read_only ==> forall|i: int|
            0 <= i < fx@.len() ==> !(#[trigger] fx@[i] is SendSignal || fx@[i] is ServiceAction
                || fx@[i] is SudoServiceAction),
        menu_post(*old(state), *final(state), fx@),
{
    let choice = match &state.dialog {
        Some(Dialog::ActionMenu { items, selected, .. }) => choose_menu_item(items, *selected),
        _ => return Vec::new(),
    };
    let action = match choice {
        MenuChoice::Nothing => return Vec::new(),
        MenuChoice::Disabled(w) => {
            state.set_toast(ToastKind::Warning, w);
            return Vec::new();
        },
        MenuChoice::Chosen(a) => a,
    };
    state.dialog = None;
    run_menu_action(state, action)
}

/// Runs a menu row's action on the state with the menu closed.
#[verifier::rlimit(60)]
#[verifier::spinoff_prover]
fn run_menu_action(state: &mut AppState, action: MenuAction) -> (fx: Vec<SideEffect>)
    requires
        old(state).dialog is None,
    ensures
        final(state).read_only == old(state).read_only,
        old(state).read_only ==> forall|i: int|
            0 <= i < fx@.len() ==> !(#[trigger] fx@[i] is SendSignal || fx@[i] is ServiceAction
                || fx@[i] is SudoServiceAction),
        menu_action_post(*old(state), *final(state), action, fx@),
{
    match action {
        MenuAction::Close => Vec::new(),
        MenuAction::ProcessInspect | MenuAction::ServiceInspect => do_inspect(state),
        MenuAction::ProcessFollow => {
            toggle_process_follow(state);
            Vec::new()
        },
        MenuAction::ProcessTree => toggle_process_tree(state),
        MenuAction::ProcessLogs => {
            match &state.process.details_unit {
                Some(u) => {
                    let unit = u.clone();
                    state.log.unit = Some(unit.clone());
                    state.screen = Screen::Logs;
                    one(SideEffect::RefreshLogs { unit: Some(unit) })
                },
                None => {
                    status(state, ToastKind::Warning, "no unit associated with process");
                    Vec::new()
                },
            }
        },
        MenuAction::ProcessService => {
            match &state.process.details_unit {
                Some(u) => {
                    let unit = u.clone();
                    state.screen = Screen::Services;
                    state.search.services = unit;
                },
                None => {},
            }
            Vec::new()
        },
        MenuAction::ProcessDiagnostics | MenuAction::ServiceDiagnostics => {
            state.screen = Screen::Diagnostics;
            one(SideEffect::RefreshDiagnostics)
        },
        MenuAction::ProcessExport => {
            status(state, ToastKind::Info, "process export is written by the runtime");
            Vec::new()
        },
        MenuAction::ServiceExport => export_selected_service(state),
        MenuAction::ServiceLogs => {
            match &state.service.selected_unit {
                Some(u) => {
                    let unit = u.clone();
                    state.log.unit = Some(unit.clone());
                    state.screen = Screen::Logs;
                    one(SideEffect::RefreshLogs { unit: Some(unit) })
                },
                None => Vec::new(),
            }
        },
        MenuAction::ServiceAction(kind) => {
            match &state.service.selected_unit {
                Some(u) => {
                    if state.read_only {
                        status(state, ToastKind::Info, "READ ONLY");
                    } else {
                        let unit = u.clone();
                        state.dialog = Some(
                            Dialog::ConfirmService { unit, action: kind, choice: ConfirmChoice::Cancel },
                        );
                    }
                },
                None => {},
            }
            Vec::new()
        },
        MenuAction::ProcessSignal(sig) => {
            let target = if state.process.selected < state.process.rows.len() {
                let p = &state.process.rows[state.process.selected];
                Some((p.pid, p.user.clone(), p.name.clone(), p.start_time))
            } else {
                None
            };
            if let Some((pid, user, command, start_time)) = target {
                if state.read_only {
                    status(state, ToastKind::Info, "READ ONLY");
                } else {
                    state.dialog = Some(
                        Dialog::ConfirmSignal {
                            pid,
                            user,
                            command,
                            signal: sig,
                            start_time,
                            choice: ConfirmChoice::Cancel,
                        },
                    );
                }
            }
            Vec::new()
        },
        MenuAction::LogExportSelected(fmt) => {
            match selected_log(state) {
                Some((e, _)) => one(export_logs_selected(&e, fmt)),
                None => Vec::new(),
            }
        },
        MenuAction::LogExportVisible(fmt) => export_visible_logs(state, fmt),
        MenuAction::LogExportContext(fmt) => {
            match log_context(state) {
                Some(ctx) => one(export_logs_context(&ctx, fmt)),
                None => Vec::new(),
            }
        },
        MenuAction::FindingExport => export_selected_finding(state),
        MenuAction::StoragePreview => do_inspect(state),
    }
}

fn toggle_process_follow(state: &mut AppState)
    ensures
        final(state).read_only == old(state).read_only,
        final(state).dialog == old(state).dialog,
        final(state).screen == old(state).screen,
        old(state).process.selected_pid matches Some(pid) ==> final(state).process.follow_pid == if old(
            state,
        ).process.follow_pid == Some(pid) {
            None
        } else {
            Some(pid)
        },
{
    if let Some(pid) = state.process.selected_pid {
        if state.process.follow_pid == Some(pid) {
            state.process.follow_pid = None;
            status(state, ToastKind::Info, "follow PID off");
        } else {
            state.process.follow_pid = Some(pid);
            let mut m = String::from_str("following PID ");
            m.append(decimal_string(pid as u64).as_str());
            state.set_toast(ToastKind::Success, m);
        }
    }
}

fn toggle_process_tree(state: &mut AppState) -> (fx: Vec<SideEffect>)
    ensures
        final(state).read_only == old(state).read_only,
        final(state).screen == old(state).screen,
        final(state).process.tree_mode == !old(state).process.tree_mode,
        final(state).dialog == old(state).dialog,
        fx@ == if final(state).process.tree_mode {
            seq![SideEffect::FetchPpidMap]
        } else {
            Seq::empty()
        },
{
    state.process.tree_mode = !state.process.tree_mode;
    if state.process.tree_mode {
        status(state, ToastKind::Info, "tree view on (fetching parents)");
        one(SideEffect::FetchPpidMap)
    } else {
        status(state, ToastKind::Info, "tree view off");
        Vec::new()
    }
}

/// The inspect, menu, export, profile and settings actions.
pub fn apply_inspect_action(state: &mut AppState, action: AppAction) -> (fx: Vec<SideEffect>)
    ensures
        final(state).read_only == old(state).read_only,
        old(state).read_only ==> forall|i: int|
            0 <= i < fx@.len() ==> !(#[trigger] fx@[i] is SendSignal || fx@[i] is ServiceAction
                || fx@[i] is SudoServiceAction),
        inspect_post(*old(state), *final(state), action, fx@),
{
    let menu_side = match action {
        AppAction::Inspect | AppAction::OpenActionMenu | AppAction::ExportContext
        | AppAction::ActivateMenu | AppAction::MenuSelect => true,
        _ => false,
    };
    if menu_side {
        apply_menu_side(state, action)
    } else {
        apply_settings_side(state, action)
    }
}

#[verifier::rlimit(50)]
fn apply_menu_side(state: &mut AppState, action: AppAction) -> (fx: Vec<SideEffect>)
    requires
        action is Inspect || action is OpenActionMenu || action is ExportContext
            || action is ActivateMenu || action is MenuSelect,
    ensures
        final(state).read_only == old(state).read_only,
        old(state).read_only ==> forall|i: int|
            0 <= i < fx@.len() ==> !(#[trigger] fx@[i] is SendSignal || fx@[i] is ServiceAction
                || fx@[i] is SudoServiceAction),
        inspect_post(*old(state), *final(state), action, fx@),
{
    match action {
        AppAction::Inspect => do_inspect(state),
        AppAction::OpenActionMenu => {
            open_menu(state);
            Vec::new()
        },
        AppAction::ExportContext => do_export(state),
        _ => activate_menu(state),
    }
}

fn apply_settings_side(state: &mut AppState, action: AppAction) -> (fx: Vec<SideEffect>)
    requires
        !(action is Inspect || action is OpenActionMenu || action is ExportContext
            || action is ActivateMenu || action is MenuSelect),
    ensures
        final(state).read_only == old(state).read_only,
        forall|i: int|
            0 <= i < fx@.len() ==> !(#[trigger] fx@[i] is SendSignal || fx@[i] is ServiceAction
                || fx@[i] is SudoServiceAction),
        inspect_post(*old(state), *final(state), action, fx@),
{
    match action {
        AppAction::ToggleProcessFollow => {
            toggle_process_follow(state);
            Vec::new()
        },
        AppAction::ToggleProcessTree => toggle_process_tree(state),
        AppAction::CompleteOnboarding => {
            state.dialog = Some(Dialog::ConfirmCompleteOnboarding { choice: ConfirmChoice::Cancel });
            Vec::new()
        },
        AppAction::ResetSettings => {
            state.dialog = Some(Dialog::ConfirmResetSettings { choice: ConfirmChoice::Cancel });
            Vec::new()
        },
        AppAction::SaveSettings => save_settings(state, action),
        AppAction::CycleTerminalProfile => cycle_terminal_profile(state, action),
        AppAction::CyclePerformanceProfile => cycle_performance_profile(state, action),
        AppAction::ToggleSetting(id) => {
            toggle_one_setting(state, id);
            Vec::new()
        },
        _ => Vec::new(),
    }
}

fn save_settings(state: &mut AppState, action: AppAction) -> (fx: Vec<SideEffect>)
    requires
        action is SaveSettings,
    ensures
        final(state).read_only == old(state).read_only,
        forall|i: int| 0 <= i < fx@.len() ==> #[trigger] fx@[i] is SaveConfig || fx@[i] is PublishConfig,
        inspect_post(*old(state), *final(state), action, fx@),
{
    state.config.terminal_profile = state.terminal_profile;
    state.config.performance_profile = state.performance_profile;
    state.config.wallboard_default = state.wallboard;
    state.settings.onboarding_pending = false;
    let mut fx = Vec::new();
    fx.push(SideEffect::SaveConfig);
    fx.push(SideEffect::PublishConfig);
    assert(fx@ =~= seq![SideEffect::SaveConfig, SideEffect::PublishConfig]);
    fx
}

fn cycle_terminal_profile(state: &mut AppState, action: AppAction) -> (fx: Vec<SideEffect>)
    requires
        action is CycleTerminalProfile,
    ensures
        final(state).read_only == old(state).read_only,
        fx@.len() == 0,
        inspect_post(*old(state), *final(state), action, fx@),
{
    let p = state.terminal_profile.next();
    state.terminal_profile = p;
    state.config.terminal_profile = p;
    let mut m = String::from_str("terminal_profile: ");
    m.append(p.label());
    state.set_toast(ToastKind::Info, m);
    Vec::new()
}

fn cycle_performance_profile(state: &mut AppState, action: AppAction) -> (fx: Vec<SideEffect>)
    requires
        action is CyclePerformanceProfile,
    ensures
        final(state).read_only == old(state).read_only,
        fx@ == seq![SideEffect::PublishConfig],
        inspect_post(*old(state), *final(state), action, fx@),
{
    let p = state.performance_profile.next();
    state.performance_profile = p;
    state.config.performance_profile = p;
    let mut m = String::from_str("performance_profile: ");
    m.append(p.label());
    state.set_toast(ToastKind::Info, m);
    one(SideEffect::PublishConfig)
}

fn toggle_one_setting(state: &mut AppState, id: crate::settings::SettingId)
    ensures
        final(state).read_only == old(state).read_only,
{
    let mut wallboard = state.wallboard;
    let mut color = state.color;
    toggle_setting(&mut state.config, &mut wallboard, &mut color, id);
    state.wallboard = wallboard;
    state.color = color;
    status(state, ToastKind::Info, "setting toggled (Save with S)");
}

} // verus!
