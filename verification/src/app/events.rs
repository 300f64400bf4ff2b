//! Applying an event to the application state: keys go through the key
//! map and the reducer; results of background work replace what they
//! answer, and results for a request that is no longer current are dropped.

use vstd::prelude::*;

use crate::app::app_state::same_but_toast;
use crate::app::app_state::AppState;
use crate::app::app_state::ToastKind;
use crate::app::action::ConfirmChoice;
use crate::app::event::AppEvent;
use crate::app::event::DiagnosticOutcome;
use crate::app::guards::SignalTarget;
use crate::model::service::ServiceInfo;
use crate::model::service::services_kept;
use crate::model::service::service_selection_index;
use crate::text::unicode_lower;
use crate::model::storage::StorageTree;
use crate::app::event::OperationResult;
use crate::app::event::RequestId;
use crate::app::input::map_key;
use crate::app::input::KeyState;
use crate::app::input::kind_of;
use crate::app::input::key_action;
use crate::app::reducer::action_post;
use crate::config::opt_view;
use crate::model::log::newest;
use crate::model::inspect::FilePreview;
use crate::model::inspect::ProcessDetails;
use crate::model::inspect::process_details_body;
use crate::text::decimal;
use crate::text::decimal_string;
use crate::app::log_events::fresh_entries;
use crate::app::log_events::DEDUP_WINDOW;
use crate::app::state::current_query;
use crate::app::app_state::storage_selected_node;
use crate::app::log_events::append_logs;
use crate::app::log_events::sync_recent_logs;
use crate::app::outcomes::apply_diagnostics_outcome;
use crate::app::outcomes::storage_scan_result;
use crate::app::outcomes::Notice;
use crate::app::reducer::apply_action;
use crate::app::side_effect::SideEffect;
use crate::app::state::current_search;
use crate::app::state::current_storage_node;
use crate::app::state::visible_storage_children;
use crate::app::state::Dialog;
use crate::app::substates::ScanState;
use crate::error::AppError;
use crate::model::inspect::ServiceInspectBundle;
use crate::model::log::LogEntry;
use crate::model::log::LogPreset;
use crate::model::log::LogPriority;
use crate::model::screen::Screen;
use crate::model::service::filter_services;
use crate::model::service::preserve_service_selection;
use crate::model::service::ServiceFilter;
use crate::model::storage::StorageTab;
use crate::sanitize::sanitize_path_display;
use crate::sanitize::sanitize_text;
use crate::text::str_eq;

verus! {

/// Records an error: the status line shows its message and it becomes the
/// last error.
fn set_error(state: &mut AppState, err: AppError)
    ensures
        final(state).read_only == old(state).read_only,
        final(state).screen == old(state).screen,
        final(state).last_error == Some(err),
        final(state).toast matches Some(t) && t.kind == ToastKind::Error && t.message@
            == err.user_text(),
        final(state).storage == old(state).storage,
        final(state).diagnostic == old(state).diagnostic,
        *final(state) == (AppState { toast: final(state).toast, last_error: Some(err), ..*old(state) }),
{
    let m = err.user_message();
    state.set_toast(ToastKind::Error, m);
    state.last_error = Some(err);
}

fn apply_notice(state: &mut AppState, n: Notice)
    ensures
        final(state).read_only == old(state).read_only,
        final(state).screen == old(state).screen,
        final(state).storage == old(state).storage,
{
    match n {
        Notice::Status(m) => state.set_toast(ToastKind::Info, m),
        Notice::Warning(m) => state.set_toast(ToastKind::Warning, m),
        Notice::Error(e) => set_error(state, e),
    }
}

/// Adds a message to the activity list, cleaned of control characters,
/// dropping the oldest when 100 are held.
fn push_activity(state: &mut AppState, msg: &str)
    ensures
        final(state).read_only == old(state).read_only,
        final(state).screen == old(state).screen,
        final(state).activity@.len() <= 100 || final(state).activity@.len() <= old(
            state,
        ).activity@.len(),
{
    let clean = sanitize_text(msg);
    if state.activity.len() >= 100 {
        state.activity.remove(0);
    }
    state.activity.push(clean);
}

fn same_opt_str(a: &Option<String>, b: &Option<String>) -> (r: bool)
    ensures
        r == (match (a, b) {
            (Some(x), Some(y)) => x@ == y@,
            (None, None) => true,
            _ => false,
        }),
{
    match (a, b) {
        (Some(x), Some(y)) => str_eq(x.as_str(), y.as_str()),
        (None, None) => true,
        _ => false,
    }
}

/// Moves the log selection to the newest entry shown, when following.
fn follow_to_end(state: &mut AppState)
    ensures
        final(state).read_only == old(state).read_only,
        final(state).screen == old(state).screen,
        final(state).log.buffer == old(state).log.buffer,
        final(state).log.refresh_request == old(state).log.refresh_request,
{
    if state.log.follow {
        let q = current_search(&state.dialog, &state.search, state.screen);
        let unit = match &state.log.unit {
            Some(u) => Some(u.as_str()),
            None => None,
        };
        let n = state.log.buffer.filtered_preset(q, state.log.min_priority, state.log.preset, unit).len();
        if n > 0 {
            state.log.selected = n - 1;
        }
    }
}

/// Whether the selected visible storage entry is a directory.
fn storage_target_is_dir(state: &AppState) -> (r: Option<bool>)
    ensures
        r == match storage_selected_node(*state) {
            Some(n) => Some(n.is_dir),
            None => None,
        },
{
    match &state.storage.tree {
        Some(t) => match current_storage_node(&t.root, &state.storage.cwd) {
            Some(n) => {
                let q = current_search(&state.dialog, &state.search, state.screen);
                let children = visible_storage_children(n, q);
                if state.storage.selected < children.len() {
                    Some(children[state.storage.selected].is_dir)
                } else {
                    None
                }
            },
            None => None,
        },
        None => None,
    }
}

/// What key handling reads of a state.
pub open spec fn key_state_of(o: AppState) -> KeyState {
    KeyState {
        screen: o.screen,
        focus: o.focus,
        dialog: match o.dialog {
            Some(d) => Some(kind_of(d)),
            None => None,
        },
        searching: o.searching,
        search_empty: current_query(o.dialog, o.search, o.screen).len() == 0,
        storage_tab: o.storage.tab,
        storage_target_is_dir: if o.storage.tab == StorageTab::DirectoryUsage {
            match storage_selected_node(o) {
                Some(n) => Some(n.is_dir),
                None => None,
            }
        } else {
            None
        },
        scan_running: o.storage.scan_state == ScanState::Running,
    }
}

/// What key handling reads of the state.
pub fn key_state(state: &AppState) -> (k: KeyState)
    ensures
        k == key_state_of(*state),
{
    let target = if state.storage.tab == StorageTab::DirectoryUsage {
        storage_target_is_dir(state)
    } else {
        None
    };
    KeyState::from_parts(
        state.screen,
        state.focus,
        &state.dialog,
        state.searching,
        &state.search,
        state.storage.tab,
        target,
        state.storage.scan_state,
    )
}

/// Is `event` a result for a request that is not the current one?
pub open spec fn stale(state: AppState, event: AppEvent) -> bool {
    match event {
        AppEvent::LogsRefreshFinished { request_id, .. } => !(state.log.refresh_request matches Some(
            (r, _, _),
        ) && r == request_id),
        AppEvent::LogsAppended { session_id, .. } => state.log.follow_session != Some(session_id),
        AppEvent::StorageProgress { request_id, .. } => state.storage.scan_request != Some(
            request_id,
        ),
        AppEvent::StorageFinished { request_id, .. } => state.storage.scan_request != Some(
            request_id,
        ),
        AppEvent::DiagnosticsFinished { request_id, .. } => state.diagnostic.request != Some(
            request_id,
        ),
        AppEvent::ServiceDetailsFinished { request_id, unit, .. } => !(
        state.service.details_request matches Some((r, u)) && r == request_id && u@ == unit@),
        AppEvent::FilePreviewFinished { request_id, path, .. } => !(
        state.storage.preview_request matches Some((r, p)) && r == request_id && p@ == path@),
        _ => false,
    }
}

/// The process to keep selected when the list is refreshed: the followed
/// one, else the one selected.
pub open spec fn wanted_pid(o: AppState) -> Option<u32> {
    match o.process.follow_pid {
        Some(p) => Some(p),
        None => o.process.selected_pid,
    }
}

/// A new process list: the rows replaced, the followed (or selected)
/// process kept selected while it is listed.
fn on_processes_updated(state: &mut AppState, rows: Vec<SignalTarget>) -> (fx: Vec<SideEffect>)
    ensures
        final(state).read_only == old(state).read_only,
        final(state).process.rows@ == rows@,
        fx@ == if old(state).process.tree_mode {
            seq![SideEffect::FetchPpidMap]
        } else {
            Seq::<SideEffect>::empty()
        },
        rows@.len() == 0 ==> final(state).process.selected == 0,
        rows@.len() > 0 ==> final(state).process.selected < rows@.len()
            && final(state).process.selected_pid == Some(
            rows@[final(state).process.selected as int].pid,
        ),
        (wanted_pid(*old(state)) matches Some(p) && exists|i: int|
            0 <= i < rows@.len() && #[trigger] rows@[i].pid == p) ==> rows@[final(state).process.selected as int].pid
            == wanted_pid(*old(state))->0,
{
    let ghost rv = rows@;
    state.process.rows = rows;
    let want = match state.process.follow_pid {
        Some(p) => Some(p),
        None => state.process.selected_pid,
    };
    let mut idx: usize = 0;
    if let Some(pid) = want {
        let mut i: usize = 0;
        let mut found = false;
        while i < state.process.rows.len() && !found
            invariant
                state.process.rows@ == rv,
                i <= rv.len(),
                found ==> idx < rv.len() && rv[idx as int].pid == pid,
                !found ==> idx == 0 && forall|k: int| 0 <= k < i ==> #[trigger] rv[k].pid != pid,
            decreases state.process.rows.len() - i,
        {
            if state.process.rows[i].pid == pid {
                idx = i;
                found = true;
            }
            i += 1;
        }
    }
    let len = state.process.rows.len();
    state.process.selected = if len == 0 {
        0
    } else if idx < len {
        idx
    } else {
        len - 1
    };
    if state.process.selected < state.process.rows.len() {
        state.process.selected_pid = Some(state.process.rows[state.process.selected].pid);
    }
    if state.process.tree_mode {
        let mut fx = Vec::new();
        fx.push(SideEffect::FetchPpidMap);
        fx
    } else {
        Vec::new()
    }
}

/// A new unit list: the selection kept on the same unit where it is still
/// listed, and that unit's details asked for.
/// The units a new list shows under the current filter and query.
pub open spec fn services_shown(o: AppState, list: Seq<ServiceInfo>) -> Seq<ServiceInfo> {
    services_kept(
        list,
        unicode_lower(current_query(o.dialog, o.search, o.screen)),
        if o.service.failed_only {
            ServiceFilter::Failed
        } else {
            o.service.filter
        },
    )
}

/// A new unit list keeps the selected unit selected where it is still
/// shown (else the first row), and asks for the details of the unit then
/// selected.
pub open spec fn services_refresh_post(o: AppState, n: AppState, fx: Seq<SideEffect>, list: Seq<ServiceInfo>) -> bool {
    let shown = services_shown(o, list);
    &&& service_selection_index(shown, opt_view(o.service.selected_unit), n.service.selected as int)
    &&& n.service.selected < shown.len() ==> (n.service.selected_unit matches Some(u) && u@
        == shown[n.service.selected as int].unit@ && fx == seq![SideEffect::FetchServiceDetails { unit: u }])
    &&& n.service.selected >= shown.len() ==> fx.len() == 0 && n.service.selected_unit
        == o.service.selected_unit
}

fn on_services_updated(state: &mut AppState, list: Vec<ServiceInfo>) -> (fx: Vec<SideEffect>)
    ensures
        final(state).read_only == old(state).read_only,
        final(state).service.items@ == list@,
        fx@.len() == 0 || (final(state).service.selected_unit matches Some(u) && fx@ == seq![
            SideEffect::FetchServiceDetails { unit: u },
        ]),
        services_refresh_post(*old(state), *final(state), fx@, list@),
{
    state.service.items = list;
    let picked = {
        let f = if state.service.failed_only {
            ServiceFilter::Failed
        } else {
            state.service.filter
        };
        let q = current_search(&state.dialog, &state.search, state.screen);
        let filtered = filter_services(&state.service.items, q, f);
        let sel = match &state.service.selected_unit {
            Some(u) => preserve_service_selection(filtered.as_slice(), Some(u.as_str())),
            None => preserve_service_selection(filtered.as_slice(), None),
        };
        if sel < filtered.len() {
            (sel, Some(filtered[sel].unit.clone()))
        } else {
            (sel, None)
        }
    };
    state.service.selected = picked.0;
    match picked.1 {
        Some(unit) => {
            state.service.selected_unit = Some(unit.clone());
            let mut fx = Vec::new();
            fx.push(SideEffect::FetchServiceDetails { unit });
            fx
        },
        None => Vec::new(),
    }
}

/// A finished scan of the current request: the tree, sorted, replaces the
/// old one, or the error is shown.
fn on_storage_finished(state: &mut AppState, result: Result<StorageTree, AppError>) -> (fx: Vec<SideEffect>)
    ensures
        final(state).read_only == old(state).read_only,
        final(state).storage.scan_request is None,
        fx@.len() == 0,
        result matches Ok(t) ==> (final(state).storage.tree matches Some(n)
            && crate::model::storage::sorted_tree(n.root, t.root, old(state).storage.sort)),
{
    state.storage.scan_request = None;
    match result {
        Ok(mut tree) => {
            tree.root.sort_children(state.storage.sort);
            let truncated = tree.truncated;
            state.storage.tree = Some(tree);
            let (scan, notice) = storage_scan_result(Ok(truncated));
            state.storage.scan_state = scan;
            apply_notice(state, notice);
        },
        Err(e) => {
            let (scan, notice) = storage_scan_result(Err(e));
            state.storage.scan_state = scan;
            apply_notice(state, notice);
        },
    }
    Vec::new()
}

/// Finished diagnostics of the current request: the findings and report
/// shown, the acknowledgements saved; or the error.
fn on_diagnostics_finished(state: &mut AppState, result: Result<DiagnosticOutcome, AppError>) -> (fx: Vec<SideEffect>)
    ensures
        final(state).read_only == old(state).read_only,
        final(state).diagnostic.request is None,
        !final(state).diagnostic.running,
        result matches Ok(o) ==> fx@ == seq![SideEffect::SavePersist] && final(state).diagnostic.findings
            == o.findings,
        result matches Err(e) ==> fx@.len() == 0 && final(state).last_error == Some(e),
{
    state.diagnostic.request = None;
    match result {
        Ok(outcome) => {
            let now = crate::model::log::now_micros();
            let applied = apply_diagnostics_outcome(
                &mut state.persist,
                &outcome,
                state.diagnostic.selected,
                now,
            );
            state.diagnostic.findings = outcome.findings;
            state.health_status = outcome.health;
            state.diagnostic.report = Some(outcome.report);
            state.diagnostic.running = false;
            state.subsystem_health.diagnostics = applied.subsystem;
            state.diagnostic.selected = applied.selected;
            state.set_toast(ToastKind::Info, applied.status);
            let mut fx = Vec::new();
            fx.push(SideEffect::SavePersist);
            fx
        },
        Err(e) => {
            state.diagnostic.running = false;
            set_error(state, e);
            Vec::new()
        },
    }
}

/// The log refresh `(request_id, unit, preset)` is the one in flight.
pub open spec fn refresh_current(o: AppState, request_id: RequestId, unit: Option<String>, preset: LogPreset) -> bool {
    o.log.refresh_request matches Some((r, u, p)) && r == request_id && opt_view(u) == opt_view(unit)
        && p == preset
}

/// A finished log refresh: for the refresh in flight, the buffer holds the
/// newest entries that came (as many as it keeps), or the error is shown;
/// any other result changes nothing.
pub open spec fn logs_refresh_post(
    o: AppState,
    n: AppState,
    fx: Seq<SideEffect>,
    request_id: RequestId,
    unit: Option<String>,
    preset: LogPreset,
    result: Result<Vec<LogEntry>, AppError>,
) -> bool {
    if !refresh_current(o, request_id, unit, preset) {
        n == o && fx.len() == 0
    } else {
        &&& fx.len() == 0
        &&& n.log.refresh_request is None
        &&& match result {
            Ok(es) => n.log.buffer.contents() == newest(es@, o.log.buffer.cap()),
            Err(e) => n.last_error == Some(e),
        }
    }
}

/// New entries of the followed session: the ones not seen among the newest
/// entries are appended (the buffer keeping its newest); other sessions and
/// empty batches change nothing.
pub open spec fn logs_appended_post(
    o: AppState,
    n: AppState,
    fx: Seq<SideEffect>,
    session_id: RequestId,
    entries: Vec<LogEntry>,
) -> bool {
    if o.log.follow_session != Some(session_id) || entries@.len() == 0 {
        n == o && fx.len() == 0
    } else {
        &&& fx.len() == 0
        &&& n.log.buffer.contents() == newest(
            o.log.buffer.contents() + fresh_entries(
                newest(o.log.buffer.contents(), DEDUP_WINDOW as nat),
                entries@,
            ),
            o.log.buffer.cap(),
        )
    }
}

/// Service details for the request in flight: the error shown, or (for
/// the unit asked about) the inspector opened when one was asked for; any
/// other result changes nothing.
pub open spec fn service_details_post(
    o: AppState,
    n: AppState,
    fx: Seq<SideEffect>,
    request_id: RequestId,
    unit: String,
    result: Result<ServiceInfo, AppError>,
) -> bool {
    if !(o.service.details_request matches Some((r, u)) && r == request_id && u@ == unit@) {
        n == o && fx.len() == 0
    } else {
        &&& fx.len() == 0
        &&& n.service.details_request is None
        &&& match result {
            Err(e) => n.last_error == Some(e) && !n.service.pending_inspect,
            Ok(info) => info.unit@ == unit@ ==> {
                &&& !n.service.pending_inspect
                &&& o.service.pending_inspect ==> (n.dialog matches Some(Dialog::Inspector { title, .. })
                    && title@ == "Service "@ + unit@)
                &&& !o.service.pending_inspect ==> n.dialog == o.dialog
            },
        }
    }
}

/// A file preview for the request in flight: shown in an inspector titled by
/// its path, or the error; any other result changes nothing.
pub open spec fn file_preview_post(
    o: AppState,
    n: AppState,
    fx: Seq<SideEffect>,
    request_id: RequestId,
    path: String,
    result: Result<FilePreview, AppError>,
) -> bool {
    if !(o.storage.preview_request matches Some((r, p)) && r == request_id && p@ == path@) {
        n == o && fx.len() == 0
    } else {
        &&& fx.len() == 0
        &&& n.storage.preview_request is None
        &&& match result {
            Ok(prev) => {
                &&& n.storage.file_preview == Some(prev)
                &&& n.dialog matches Some(Dialog::Inspector { title, body })
                &&& title@ == "Preview "@ + prev.path@ + (if prev.truncated {
                    " (truncated)"@
                } else {
                    Seq::empty()
                })
                &&& body@ == prev.text@
            },
            Err(e) => n.last_error == Some(e),
        }
    }
}

fn on_logs_refreshed(
    state: &mut AppState,
    request_id: RequestId,
    unit: Option<String>,
    preset: LogPreset,
    result: Result<Vec<LogEntry>, AppError>,
) -> (fx: Vec<SideEffect>)
    ensures
        final(state).read_only == old(state).read_only,
        logs_refresh_post(*old(state), *final(state), fx@, request_id, unit, preset, result),
{
    let current = match &state.log.refresh_request {
        Some((r, u, p)) => *r == request_id && same_opt_str(u, &unit) && *p == preset,
        None => false,
    };
    if !current {
        return Vec::new();
    }
    state.log.refresh_request = None;
    match result {
        Ok(entries) => {
            let ghost es = entries@;
            sync_recent_logs(&mut state.service.recent_logs, &state.service.selected_unit, entries.as_slice());
            state.log.buffer.clear();
            state.log.buffer.extend(entries);
            assert(Seq::<LogEntry>::empty() + es =~= es);
            follow_to_end(state);
        },
        Err(e) => set_error(state, e),
    }
    Vec::new()
}

fn on_logs_appended(state: &mut AppState, session_id: RequestId, entries: Vec<LogEntry>) -> (fx: Vec<SideEffect>)
    ensures
        final(state).read_only == old(state).read_only,
        logs_appended_post(*old(state), *final(state), fx@, session_id, entries),
{
    if state.log.follow_session != Some(session_id) {
        return Vec::new();
    }
    if entries.len() == 0 {
        return Vec::new();
    }
    let fresh = append_logs(&mut state.log.buffer, entries);
    sync_recent_logs(&mut state.service.recent_logs, &state.service.selected_unit, fresh.as_slice());
    follow_to_end(state);
    Vec::new()
}

/// The PID the details are of: their summary's, else the one asked about.
pub open spec fn details_pid(d: ProcessDetails, asked: u32) -> u32 {
    match d.info {
        Some(p) => p.pid,
        None => asked,
    }
}

/// Process details for the request in flight: for the process asked about,
/// shown in an inspector and kept (with the process's unit); or the error;
/// any other result changes nothing.
pub open spec fn process_details_post(
    o: AppState,
    n: AppState,
    fx: Seq<SideEffect>,
    request_id: RequestId,
    pid: u32,
    result: Result<ProcessDetails, AppError>,
) -> bool {
    if o.process.details_request != Some((request_id, pid)) {
        n == o && fx.len() == 0
    } else {
        &&& fx.len() == 0
        &&& n.process.details_request is None
        &&& match result {
            Err(e) => n.last_error == Some(e),
            Ok(d) => details_pid(d, pid) == pid ==> {
                &&& n.process.details == Some(d)
                &&& n.process.details_unit == d.unit
                &&& n.dialog matches Some(Dialog::Inspector { title, body })
                &&& title@ == match d.info {
                    Some(p) => "Process "@ + decimal(p.pid as nat),
                    None => "Process"@,
                }
                &&& body@ == process_details_body(d)
            },
        }
    }
}

fn on_process_details(
    state: &mut AppState,
    request_id: RequestId,
    pid: u32,
    result: Result<ProcessDetails, AppError>,
) -> (fx: Vec<SideEffect>)
    ensures
        final(state).read_only == old(state).read_only,
        process_details_post(*old(state), *final(state), fx@, request_id, pid, result),
{
    let current = match state.process.details_request {
        Some((r, p)) => r == request_id && p == pid,
        None => false,
    };
    if !current {
        return Vec::new();
    }
    state.process.details_request = None;
    match result {
        Ok(details) => {
            let shown = match &details.info {
                Some(p) => p.pid,
                None => pid,
            };
            if shown != pid {
                return Vec::new();
            }
            let body = details.format_body();
            let title = match &details.info {
                Some(p) => {
                    let mut t = String::from_str("Process ");
                    t.append(decimal_string(p.pid as u64).as_str());
                    t
                },
                None => String::from_str("Process"),
            };
            state.process.details_unit = match &details.unit {
                Some(u) => Some(u.clone()),
                None => None,
            };
            state.process.details = Some(details);
            state.dialog = Some(Dialog::Inspector { title, body });
        },
        Err(e) => set_error(state, e),
    }
    Vec::new()
}

fn on_service_details(
    state: &mut AppState,
    request_id: RequestId,
    unit: String,
    result: Result<ServiceInfo, AppError>,
) -> (fx: Vec<SideEffect>)
    ensures
        final(state).read_only == old(state).read_only,
        service_details_post(*old(state), *final(state), fx@, request_id, unit, result),
{
    let current = match &state.service.details_request {
        Some((r, u)) => *r == request_id && str_eq(u.as_str(), unit.as_str()),
        None => false,
    };
    if !current {
        return Vec::new();
    }
    state.service.details_request = None;
    match result {
        Ok(info) => {
            if !str_eq(info.unit.as_str(), unit.as_str()) {
                return Vec::new();
            }
            service_details_arrived(state, info);
        },
        Err(e) => {
            state.service.pending_inspect = false;
            set_error(state, e);
        },
    }
    Vec::new()
}

fn on_file_preview(
    state: &mut AppState,
    request_id: RequestId,
    path: String,
    result: Result<FilePreview, AppError>,
) -> (fx: Vec<SideEffect>)
    ensures
        final(state).read_only == old(state).read_only,
        file_preview_post(*old(state), *final(state), fx@, request_id, path, result),
{
    let current = match &state.storage.preview_request {
        Some((r, p)) => *r == request_id && str_eq(p.as_str(), path.as_str()),
        None => false,
    };
    if !current {
        return Vec::new();
    }
    state.storage.preview_request = None;
    match result {
        Ok(prev) => {
            let mut title = String::from_str("Preview ");
            title.append(prev.path.as_str());
            if prev.truncated {
                title.append(" (truncated)");
            }
            state.dialog = Some(Dialog::Inspector { title, body: prev.text.clone() });
            state.storage.file_preview = Some(prev);
        },
        Err(e) => set_error(state, e),
    }
    Vec::new()
}

/// Applies one event; gives the side effects the runtime is to perform.
pub fn apply_event(state: &mut AppState, event: AppEvent) -> (fx: Vec<SideEffect>)
    ensures
        final(state).read_only == old(state).read_only,
        // A result for a request that is no longer current changes nothing.
        stale(*old(state), event) ==> *final(state) == *old(state) && fx@.len() == 0,
        event is Quit ==> final(state).should_quit && fx@.len() == 0,
        event is Tick ==> *final(state) == *old(state) && fx@.len() == 0,
        event matches AppEvent::Resize(w, h) ==> final(state).width == w && final(state).height == h
            && fx@.len() == 0,
        event matches AppEvent::ElevationRequired { unit, action } ==> final(state).dialog == Some(
            Dialog::ConfirmElevation { unit, action, choice: ConfirmChoice::Cancel },
        ) && fx@.len() == 0,
        event is OperationFinished ==> fx@ == seq![
            SideEffect::RefreshProcesses,
            SideEffect::RefreshServices,
        ],
        event matches AppEvent::Error(e) ==> final(state).last_error == Some(e) && fx@.len() == 0,
        // A new process list replaces the rows and keeps the followed (or
        // selected) process selected while it is listed.
        event matches AppEvent::ProcessesUpdated(rows) ==> {
            &&& final(state).process.rows@ == rows@
            &&& fx@ == if old(state).process.tree_mode {
                seq![SideEffect::FetchPpidMap]
            } else {
                Seq::<SideEffect>::empty()
            }
            &&& rows@.len() == 0 ==> final(state).process.selected == 0
            &&& rows@.len() > 0 ==> final(state).process.selected < rows@.len()
                && final(state).process.selected_pid == Some(
                rows@[final(state).process.selected as int].pid,
            )
            &&& (wanted_pid(*old(state)) matches Some(p) && exists|i: int|
                0 <= i < rows@.len() && #[trigger] rows@[i].pid == p) ==> rows@[final(state).process.selected as int].pid
                == wanted_pid(*old(state))->0
        },
        // A key runs the action it is bound to in this state; an unbound
        // key changes nothing.
        event matches AppEvent::Input(k) ==> match key_action(key_state_of(*old(state)), k) {
            Some(a) => action_post(*old(state), *final(state), a, fx@),
            None => *final(state) == *old(state) && fx@.len() == 0,
        },
        event matches AppEvent::LogsRefreshFinished { request_id, unit, preset, result }
            ==> logs_refresh_post(*old(state), *final(state), fx@, request_id, unit, preset, result),
        event matches AppEvent::LogsAppended { session_id, entries } ==> logs_appended_post(
            *old(state),
            *final(state),
            fx@,
            session_id,
            entries,
        ),
        event matches AppEvent::ProcessDetailsFinished { request_id, pid, result }
            ==> process_details_post(*old(state), *final(state), fx@, request_id, pid, result),
        event matches AppEvent::ServiceDetailsFinished { request_id, unit, result }
            ==> service_details_post(*old(state), *final(state), fx@, request_id, unit, result),
        event matches AppEvent::FilePreviewFinished { request_id, path, result }
            ==> file_preview_post(*old(state), *final(state), fx@, request_id, path, result),
        event matches AppEvent::DisksUpdated(disks) ==> final(state).storage.disks@ == disks@
            && fx@.len() == 0,
        event matches AppEvent::ServicesUpdated(list) ==> services_refresh_post(*old(state), *final(state), fx@, list@)
            && final(state).service.items@ == list@ && (
        fx@.len() == 0 || (final(state).service.selected_unit matches Some(u) && fx@ == seq![
            SideEffect::FetchServiceDetails { unit: u },
        ])),
        event matches AppEvent::StorageProgress { progress, .. } ==> (!stale(*old(state), event)
            ==> final(state).storage.scan_progress == Some(progress) && fx@.len() == 0),
        event matches AppEvent::StorageFinished { result, .. } ==> !stale(*old(state), event) ==> {
            &&& final(state).storage.scan_request is None
            &&& fx@.len() == 0
            &&& result matches Ok(t) ==> (final(state).storage.tree matches Some(n)
                && crate::model::storage::sorted_tree(n.root, t.root, old(state).storage.sort))
        },
        event matches AppEvent::DiagnosticsFinished { result, .. } ==> !stale(*old(state), event)
            ==> {
            &&& final(state).diagnostic.request is None
            &&& !final(state).diagnostic.running
            &&& result matches Ok(o) ==> fx@ == seq![SideEffect::SavePersist]
                && final(state).diagnostic.findings == o.findings
            &&& result matches Err(e) ==> fx@.len() == 0 && final(state).last_error == Some(e)
        },
        event matches AppEvent::ReportSaved(path) ==> fx@.len() == 0 && (final(state).toast matches Some(t) && t.kind == ToastKind::Success && t.message@ == "exported "@
            + crate::sanitize::clean_path(path@)),
{
    match event {
        AppEvent::Tick => Vec::new(),
        AppEvent::Input(key) => {
            let ks = key_state(state);
            match map_key(&ks, key) {
                Some(action) => apply_action(state, action),
                None => Vec::new(),
            }
        },
        AppEvent::Resize(w, h) => {
            state.width = w;
            state.height = h;
            Vec::new()
        },
        AppEvent::ProcessesUpdated(rows) => on_processes_updated(state, rows),
        AppEvent::DisksUpdated(disks) => {
            state.storage.disks = disks;
            Vec::new()
        },
        AppEvent::ServicesUpdated(list) => on_services_updated(state, list),
        AppEvent::LogsRefreshFinished { request_id, unit, preset, result } => on_logs_refreshed(
            state,
            request_id,
            unit,
            preset,
            result,
        ),
        AppEvent::LogsAppended { session_id, entries } => on_logs_appended(state, session_id, entries),
        AppEvent::StorageProgress { request_id, progress } => {
            if state.storage.scan_request != Some(request_id) {
                return Vec::new();
            }
            state.storage.scan_progress = Some(progress);
            Vec::new()
        },
        AppEvent::StorageFinished { request_id, result } => {
            if state.storage.scan_request != Some(request_id) {
                return Vec::new();
            }
            on_storage_finished(state, result)
        },
        AppEvent::DiagnosticsFinished { request_id, result } => {
            if state.diagnostic.request != Some(request_id) {
                return Vec::new();
            }
            on_diagnostics_finished(state, result)
        },
        AppEvent::ProcessDetailsFinished { request_id, pid, result } => on_process_details(
            state,
            request_id,
            pid,
            result,
        ),
        AppEvent::ServiceDetailsFinished { request_id, unit, result } => on_service_details(
            state,
            request_id,
            unit,
            result,
        ),
        AppEvent::FilePreviewFinished { request_id, path, result } => on_file_preview(
            state,
            request_id,
            path,
            result,
        ),
        AppEvent::OperationFinished(op) => {
            match op {
                OperationResult::Success(msg) => {
                    push_activity(state, msg.as_str());
                    state.set_toast(ToastKind::Success, msg);
                },
                OperationResult::Failure(err) => set_error(state, err),
            }
            let mut fx = Vec::new();
            fx.push(SideEffect::RefreshProcesses);
            fx.push(SideEffect::RefreshServices);
            fx
        },
        AppEvent::ElevationRequired { unit, action } => {
            state.set_toast(
                ToastKind::Warning,
                String::from_str("Administrator permission is required"),
            );
            state.dialog = Some(Dialog::ConfirmElevation { unit, action, choice: ConfirmChoice::Cancel });
            Vec::new()
        },
        AppEvent::ReportSaved(path) => {
            let mut m = String::from_str("exported ");
            m.append(sanitize_path_display(path.as_str()).as_str());
            state.set_toast(ToastKind::Success, m);
            Vec::new()
        },
        AppEvent::Error(e) => {
            set_error(state, e);
            Vec::new()
        },
        AppEvent::Quit => {
            state.should_quit = true;
            Vec::new()
        },
    }
}

/// A unit's details arrived: the listed unit is replaced, its ten newest
/// journal lines become the recent logs, and a pending inspector opens.
fn service_details_arrived(state: &mut AppState, info: crate::model::service::ServiceInfo)
    ensures
        final(state).read_only == old(state).read_only,
        final(state).screen == old(state).screen,
        final(state).service.details_request == old(state).service.details_request,
        !final(state).service.pending_inspect,
        old(state).service.pending_inspect ==> (final(state).dialog matches Some(
            Dialog::Inspector { title, .. },
        ) && title@ == "Service "@ + info.unit@),
        !old(state).service.pending_inspect ==> final(state).dialog == old(state).dialog,
{
    let mut i: usize = 0;
    while i < state.service.items.len()
        invariant
            state.read_only == old(state).read_only,
            state.screen == old(state).screen,
            state.service.details_request == old(state).service.details_request,
            state.service.pending_inspect == old(state).service.pending_inspect,
            state.dialog == old(state).dialog,
        decreases state.service.items.len() - i,
    {
        if str_eq(state.service.items[i].unit.as_str(), info.unit.as_str()) {
            let copy = copy_service(&info);
            state.service.items.set(i, copy);
            break;
        }
        i += 1;
    }
    let logs = {
        let v = state.log.buffer.filtered_preset(
            "",
            LogPriority::Debug,
            LogPreset::SelectedService,
            Some(info.unit.as_str()),
        );
        let mut out: Vec<LogEntry> = Vec::new();
        let mut k: usize = 0;
        while k < v.len() && k < 10
            decreases v.len() - k,
        {
            out.push(v[k].clone());
            k += 1;
        }
        out
    };
    state.service.recent_logs = copy_logs(&logs);
    if state.service.pending_inspect {
        state.service.pending_inspect = false;
        let mut title = String::from_str("Service ");
        title.append(info.unit.as_str());
        let bundle = ServiceInspectBundle { service: info, recent_logs: logs };
        state.dialog = Some(Dialog::Inspector { title, body: bundle.format_body() });
    }
}

fn copy_service(s: &crate::model::service::ServiceInfo) -> crate::model::service::ServiceInfo {
    crate::model::service::ServiceInfo {
        unit: s.unit.clone(),
        description: s.description.clone(),
        load_state: s.load_state.clone(),
        active_state: s.active_state.clone(),
        sub_state: s.sub_state.clone(),
        unit_path: s.unit_path.clone(),
        unit_file_state: s.unit_file_state,
        fragment_path: match &s.fragment_path {
            Some(p) => Some(p.clone()),
            None => None,
        },
    }
}

fn copy_logs(v: &Vec<LogEntry>) -> Vec<LogEntry> {
    let mut out: Vec<LogEntry> = Vec::new();
    let mut i: usize = 0;
    while i < v.len()
        decreases v.len() - i,
    {
        out.push(v[i].clone());
        i += 1;
    }
    out
}

} // verus!
