//! Applying a typed action to the application state: the state changes and
//! the side effects the runtime performs.

use vstd::prelude::*;

use crate::app::inspect_actions::inspect_action;
use crate::app::inspect_actions::inspect_post;
use crate::app::action::AppAction;
use crate::app::action::ConfirmChoice;
use crate::app::action::FocusPane;
use crate::app::app_state::same_but_toast;
use crate::app::app_state::AppState;
use crate::app::app_state::ToastKind;
use crate::app::guards::guard_service;
use crate::app::guards::guard_signal;
use crate::app::guards::Guarded;
use crate::app::guards::SignalTarget;
use crate::app::inspector::move_menu_selection;
use crate::app::log_events::step_log_match;
use crate::app::side_effect::SideEffect;
use crate::app::state::current_search;
use crate::app::state::current_storage_node;
use crate::app::state::current_query;
use crate::app::state::glossary_is_open;
use crate::app::state::glossary_open;
use crate::app::state::search_supported;
use crate::app::state::visible_findings;
use crate::app::state::visible_storage_children;
use crate::app::state::Dialog;
use crate::app::substates::ScanState;
use crate::config::Config;
use crate::glossary::filtered_terms;
use crate::glossary::terms;
use crate::glossary::GlossaryTerm;
use crate::glossary::terms_kept;
use crate::glossary::terms_view;
use crate::glossary::glossary_terms;
use crate::model::log::kept_entries;
use crate::model::log::opt_str_view;
use crate::config::opt_view;
use crate::app::state::node_at;
use crate::app::state::names_view;
use crate::app::state::children_kept;
use crate::app::state::findings_kept;
use crate::preview::files_in;
use crate::preview::listing_len;
use crate::model::diagnostics::ScreenTarget;
use crate::model::log::LogPreset;
use crate::model::log::LogPriority;
use crate::model::process::ProcessSignal;
use crate::model::process::ProcessSort;
use crate::model::storage::StorageSort;
use crate::model::screen::Screen;
use crate::model::service::filter_services;
use crate::model::service::services_kept;
use crate::model::process::protected_pid;
use crate::app::guards::signal_needs_confirm;
use crate::text::decimal;
use crate::text::unicode_lower;
use crate::model::service::ServiceActionKind;
use crate::model::service::ServiceFilter;
use crate::model::storage::StorageTab;
use crate::preview::largest_files_from_tree;

verus! {

fn status(state: &mut AppState, kind: ToastKind, text: &str)
    ensures
        same_but_toast(*final(state), *old(state)),
{
    state.set_toast(kind, String::from_str(text));
}

fn status_with(state: &mut AppState, head: &str, tail: &str)
    ensures
        same_but_toast(*final(state), *old(state)),
{
    let mut m = String::from_str(head);
    m.append(tail);
    state.set_toast(ToastKind::Info, m);
}

/// The service filter in force: failed only, or the chosen filter.
pub open spec fn service_filter_of(failed_only: bool, filter: ServiceFilter) -> ServiceFilter {
    if failed_only {
        ServiceFilter::Failed
    } else {
        filter
    }
}

fn service_filter(state: &AppState) -> (f: ServiceFilter)
    ensures
        f == service_filter_of(state.service.failed_only, state.service.filter),
{
    if state.service.failed_only {
        ServiceFilter::Failed
    } else {
        state.service.filter
    }
}

/// Length of the list the current view shows.
/// The number of rows of the list the cursor moves in (the glossary's
/// while it is open, else the screen's), the log view's as of `now`, the
/// glossary's over the terms `ts`.
pub open spec fn visible_len(o: AppState, now: u64, ts: Seq<GlossaryTerm>) -> int {
    let q = current_query(o.dialog, o.search, o.screen);
    if glossary_is_open(o.dialog) {
        (terms_kept(ts, q, o.screen, true) + terms_kept(ts, q, o.screen, false)).len() as int
    } else {
        match o.screen {
            Screen::Processes => o.process.rows@.len() as int,
            Screen::Services => services_kept(
                o.service.items@,
                unicode_lower(q),
                service_filter_of(o.service.failed_only, o.service.filter),
            ).len() as int,
            Screen::Logs => kept_entries(
                o.log.buffer.contents(),
                unicode_lower(q),
                o.log.min_priority,
                o.log.preset,
                opt_view(o.log.unit),
                now,
            ).len() as int,
            Screen::Storage => match o.storage.tab {
                StorageTab::DirectoryUsage => match o.storage.tree {
                    Some(t) => match node_at(t.root, names_view(o.storage.cwd@)) {
                        Some(n) => children_kept(n.children@, unicode_lower(q)).len() as int,
                        None => 0,
                    },
                    None => 0,
                },
                StorageTab::Mounts => o.storage.disks@.len() as int,
                StorageTab::LargestFiles => match o.storage.tree {
                    Some(t) => listing_len(files_in(seq![t.root]).len() as int, 50),
                    None => 0,
                },
            },
            Screen::Diagnostics => findings_kept(o.diagnostic.findings@, q).len() as int,
            _ => 0,
        }
    }
}

/// `len` is the length of the list the cursor moves in, at some time
/// (the log view's rows depend on the clock).
pub open spec fn is_visible_len(o: AppState, len: int) -> bool {
    exists|now: u64, ts: Seq<GlossaryTerm>|
        (glossary_is_open(o.dialog) ==> terms_view(ts) == glossary_terms()) && len == #[trigger] visible_len(
            o,
            now,
            ts,
        )
}

fn list_len(state: &AppState) -> (r: usize)
    ensures
        is_visible_len(*state, r as int),
{
    let ghost none = Seq::<GlossaryTerm>::empty();
    if glossary_open(&state.dialog) {
        let all = terms();
        let q = current_search(&state.dialog, &state.search, state.screen);
        let r = filtered_terms(&all, state.screen, q).len();
        assert(visible_len(*state, 0, all@) == r as int);
        return r;
    }
    let q = current_search(&state.dialog, &state.search, state.screen);
    let r = match state.screen {
        Screen::Processes => state.process.rows.len(),
        Screen::Services => {
            let f = service_filter(state);
            filter_services(&state.service.items, q, f).len()
        },
        Screen::Logs => {
            let unit = match &state.log.unit {
                Some(u) => Some(u.as_str()),
                None => None,
            };
            let v = state.log.buffer.filtered_preset(q, state.log.min_priority, state.log.preset, unit);
            proof {
                assert(opt_str_view(unit) == opt_view(state.log.unit));
                let now = choose|now: u64|
                    crate::model::log::deref_entries(v@) == kept_entries(
                        state.log.buffer.contents(),
                        unicode_lower(q@),
                        state.log.min_priority,
                        state.log.preset,
                        opt_str_view(unit),
                        now,
                    );
                assert(visible_len(*state, now, none) == v@.len());
            }
            return v.len();
        },
        Screen::Storage => match state.storage.tab {
            StorageTab::DirectoryUsage => match &state.storage.tree {
                Some(t) => match current_storage_node(&t.root, &state.storage.cwd) {
                    Some(n) => visible_storage_children(n, q).len(),
                    None => 0,
                },
                None => 0,
            },
            StorageTab::Mounts => state.storage.disks.len(),
            StorageTab::LargestFiles => match &state.storage.tree {
                Some(t) => {
                    let files = largest_files_from_tree(&t.root, 50);
                    proof {
                        let fs = files_in(seq![t.root]);
                        let w = choose|w: Seq<usize>|
                            {
                                &&& #[trigger] w.len() == listing_len(fs.len() as int, 50)
                                &&& crate::preview::deref_nodes(files@).len() == w.len()
                                &&& crate::preview::distinct_indices(w, fs.len() as int)
                                &&& forall|a: int|
                                    0 <= a < w.len() ==> crate::preview::deref_nodes(files@)[a]
                                        == fs[#[trigger] w[a] as int]
                                &&& forall|a: int, b: int|
                                    0 <= a < b < w.len() ==> crate::preview::listed_before(
                                        fs,
                                        w[a] as int,
                                        w[b] as int,
                                    )
                                &&& forall|a: int, j: usize|
                                    0 <= a < w.len() && j < fs.len() && !w.contains(j)
                                        ==> #[trigger] crate::preview::ranks_above(fs, w[a] as int, j as int)
                            };
                        assert(files@.len() == listing_len(fs.len() as int, 50));
                    }
                    files.len()
                },
                None => 0,
            },
        },
        Screen::Diagnostics => visible_findings(&state.diagnostic.findings, q).len(),
        Screen::Dashboard | Screen::Settings => 0,
    };
    assert(visible_len(*state, 0, none) == r as int);
    r
}

/// The selection of the view that `list_len` measures.
pub open spec fn current_selected(s: AppState) -> usize {
    if s.dialog matches Some(Dialog::Glossary) {
        s.glossary_selected
    } else {
        match s.screen {
            Screen::Services => s.service.selected,
            Screen::Logs => s.log.selected,
            Screen::Storage => s.storage.selected,
            Screen::Diagnostics => s.diagnostic.selected,
            _ => s.process.selected,
        }
    }
}

fn set_current_selected(state: &mut AppState, v: usize)
    ensures
        current_selected(*final(state)) == v,
        final(state).screen == old(state).screen,
        final(state).dialog == old(state).dialog,
        final(state).read_only == old(state).read_only,
        final(state).searching == old(state).searching,
        final(state).search == old(state).search,
{
    if glossary_open(&state.dialog) {
        state.glossary_selected = v;
        return ;
    }
    match state.screen {
        Screen::Services => state.service.selected = v,
        Screen::Logs => state.log.selected = v,
        Screen::Storage => state.storage.selected = v,
        Screen::Diagnostics => state.diagnostic.selected = v,
        _ => state.process.selected = v,
    }
}

fn get_current_selected(state: &AppState) -> (v: usize)
    ensures
        v == current_selected(*state),
{
    if glossary_open(&state.dialog) {
        return state.glossary_selected;
    }
    match state.screen {
        Screen::Services => state.service.selected,
        Screen::Logs => state.log.selected,
        Screen::Storage => state.storage.selected,
        Screen::Diagnostics => state.diagnostic.selected,
        _ => state.process.selected,
    }
}

/// The selection after a move of `delta` rows in a list of `len` rows with
/// pages of `page` rows: a move of ten or more is a page; the selection
/// stays on the list.
pub open spec fn moved(selected: usize, len: usize, page: usize, delta: i32) -> usize {
    let step: int = if delta <= -10 || delta >= 10 {
        if page == 0 {
            1
        } else {
            page as int
        }
    } else {
        1
    };
    if len == 0 {
        selected
    } else if delta < 0 {
        if selected < step {
            0
        } else {
            (selected - step) as usize
        }
    } else if selected + step < len {
        (selected + step) as usize
    } else {
        (len - 1) as usize
    }
}

fn move_in_list(selected: usize, len: usize, page: usize, delta: i32) -> (r: usize)
    ensures
        r == moved(selected, len, page, delta),
{
    let step: usize = if delta <= -10 || delta >= 10 {
        if page == 0 {
            1
        } else {
            page
        }
    } else {
        1
    };
    if len == 0 {
        selected
    } else if delta < 0 {
        if selected < step {
            0
        } else {
            selected - step
        }
    } else if selected < len && step < len - selected {
        selected + step
    } else {
        len - 1
    }
}

/// The selection of a list of `len` rows put on `idx`, kept on the list.
pub open spec fn placed(idx: usize, len: usize) -> usize {
    if len == 0 {
        0
    } else if idx < len {
        idx
    } else {
        (len - 1) as usize
    }
}

fn place(idx: usize, len: usize) -> (r: usize)
    ensures
        r == placed(idx, len),
{
    if len == 0 {
        0
    } else if idx < len {
        idx
    } else {
        len - 1
    }
}

/// Records which process or unit the selection points at, so that it
/// follows the item when the list changes.
fn sync_selection_identity(state: &mut AppState)
    ensures
        final(state).screen == old(state).screen,
        final(state).dialog == old(state).dialog,
        current_selected(*final(state)) == current_selected(*old(state)),
        final(state).read_only == old(state).read_only,
        final(state).searching == old(state).searching,
        final(state).search == old(state).search,
{
    match state.screen {
        Screen::Processes => {
            let idx = state.process.selected;
            if idx < state.process.rows.len() {
                state.process.selected_pid = Some(state.process.rows[idx].pid);
            }
        },
        Screen::Services => {
            let idx = state.service.selected;
            let unit = {
                let f = service_filter(state);
                let q = current_search(&state.dialog, &state.search, state.screen);
                let filtered = filter_services(&state.service.items, q, f);
                if idx < filtered.len() {
                    Some(filtered[idx].unit.clone())
                } else {
                    None
                }
            };
            if unit.is_some() {
                state.service.selected_unit = unit;
            }
        },
        _ => {},
    }
}

/// The list cursor after moving by `delta` (page steps for ten or more):
/// up stops at the first row, down at the last.
pub open spec fn cursor_moved(o: AppState, n: AppState, delta: i32) -> bool {
    exists|now: u64, ts: Seq<GlossaryTerm>|
        (glossary_is_open(o.dialog) ==> terms_view(ts) == glossary_terms()) && current_selected(n)
            == moved(current_selected(o), #[trigger] visible_len(o, now, ts) as usize, o.viewport_rows, delta)
}

/// The list cursor put on row `idx`, kept on the list.
pub open spec fn cursor_placed(o: AppState, n: AppState, idx: usize) -> bool {
    exists|now: u64, ts: Seq<GlossaryTerm>|
        (glossary_is_open(o.dialog) ==> terms_view(ts) == glossary_terms()) && current_selected(n)
            == placed(idx, #[trigger] visible_len(o, now, ts) as usize)
}

/// The cursor moves in the screen's list (or the glossary's): no action
/// menu is open, and the settings screen moves between its sections.
pub open spec fn moves_in_list(o: AppState) -> bool {
    !(o.dialog matches Some(Dialog::ActionMenu { .. })) && !(o.screen == Screen::Settings
        && !glossary_is_open(o.dialog))
}

/// The action menu's cursor after a move: up stops at the first row, down
/// at the last; an empty menu keeps its cursor.
pub open spec fn menu_moved(d: Option<Dialog>, len: nat, was: usize, delta: i32) -> bool {
    d matches Some(Dialog::ActionMenu { selected, .. }) && selected == if len == 0 {
        was as int
    } else if delta < 0 {
        if was == 0 {
            0
        } else {
            was - 1
        }
    } else if was + 1 < len {
        was + 1
    } else {
        len - 1
    }
}

fn move_selection(state: &mut AppState, delta: i32)
    ensures
        final(state).screen == old(state).screen,
        final(state).read_only == old(state).read_only,
        final(state).dialog is Some <==> old(state).dialog is Some,
        final(state).searching == old(state).searching,
        old(state).dialog matches Some(Dialog::ActionMenu { items, selected, .. }) ==> menu_moved(
            final(state).dialog,
            items@.len(),
            selected,
            delta,
        ),
        moves_in_list(*old(state)) ==> cursor_moved(*old(state), *final(state), delta),
{
    if let Some(Dialog::ActionMenu { items, selected, .. }) = &mut state.dialog {
        let n = items.len();
        *selected = move_menu_selection(*selected, n, delta);
        return ;
    }
    if state.screen == Screen::Settings && !glossary_open(&state.dialog) {
        let len = state.settings.sections;
        if len == 0 {
            return ;
        }
        state.settings.section = move_menu_selection(state.settings.section, len, delta);
        return ;
    }
    let len = list_len(state);
    let ghost (now, ts) = choose|now: u64, ts: Seq<GlossaryTerm>|
        (glossary_is_open(state.dialog) ==> terms_view(ts) == glossary_terms()) && len as int
            == #[trigger] visible_len(*state, now, ts);
    if len == 0 {
        assert(current_selected(*state) == moved(current_selected(*state), len, state.viewport_rows, delta));
        return ;
    }
    let cur = get_current_selected(state);
    let page = state.viewport_rows;
    set_current_selected(state, move_in_list(cur, len, page, delta));
    sync_selection_identity(state);
    assert(current_selected(*state) == moved(current_selected(*old(state)), visible_len(*old(state), now, ts) as usize, old(state).viewport_rows, delta));
}

fn set_selection(state: &mut AppState, idx: usize)
    ensures
        final(state).screen == old(state).screen,
        final(state).read_only == old(state).read_only,
        final(state).dialog == old(state).dialog,
        final(state).searching == old(state).searching,
        idx == 0 ==> current_selected(*final(state)) == 0,
        cursor_placed(*old(state), *final(state), idx),
{
    let len = list_len(state);
    let ghost (now, ts) = choose|now: u64, ts: Seq<GlossaryTerm>|
        (glossary_is_open(state.dialog) ==> terms_view(ts) == glossary_terms()) && len as int
            == #[trigger] visible_len(*state, now, ts);
    set_current_selected(state, place(idx, len));
    sync_selection_identity(state);
    assert(current_selected(*state) == placed(idx, visible_len(*old(state), now, ts) as usize));
}

fn clamp_selection_to_visible(state: &mut AppState)
    ensures
        final(state).screen == old(state).screen,
        final(state).read_only == old(state).read_only,
        final(state).dialog == old(state).dialog,
        final(state).searching == old(state).searching,
        final(state).search == old(state).search,
{
    let len = list_len(state);
    let cur = get_current_selected(state);
    set_current_selected(state, place(cur, len));
    sync_selection_identity(state);
}

/// The selected row of the service list as it is shown (filter and query
/// applied), if there is one.
pub open spec fn selected_unit_of(o: AppState) -> Option<Seq<char>> {
    let kept = services_kept(
        o.service.items@,
        unicode_lower(current_query(o.dialog, o.search, o.screen)),
        service_filter_of(o.service.failed_only, o.service.filter),
    );
    if o.service.selected < kept.len() {
        Some(kept[o.service.selected as int].unit@)
    } else {
        None
    }
}

/// The unit of the selected row of the service list.
fn selected_service_unit(state: &AppState) -> (r: Option<String>)
    ensures
        match selected_unit_of(*state) {
            Some(u) => r matches Some(v) && v@ == u,
            None => r is None,
        },
{
    let f = service_filter(state);
    let q = current_search(&state.dialog, &state.search, state.screen);
    let filtered = filter_services(&state.service.items, q, f);
    if state.service.selected < filtered.len() {
        Some(filtered[state.service.selected].unit.clone())
    } else {
        None
    }
}

fn clone_target(t: &SignalTarget) -> (r: SignalTarget)
    ensures
        r.pid == t.pid,
        r.user@ == t.user@,
        r.name@ == t.name@,
        r.start_time == t.start_time,
{
    SignalTarget {
        pid: t.pid,
        user: t.user.clone(),
        name: t.name.clone(),
        start_time: t.start_time,
    }
}

/// The first row from `i` on whose PID is `pid`.
pub open spec fn pid_index(rows: Seq<SignalTarget>, pid: u32, i: int) -> Option<int>
    decreases rows.len() - i,
{
    if i < 0 || i >= rows.len() {
        None
    } else if rows[i].pid == pid {
        Some(i)
    } else {
        pid_index(rows, pid, i + 1)
    }
}

/// The row a signal goes to: the first row of the selected PID, else the
/// selected row, if there is one.
pub open spec fn target_index(o: AppState) -> Option<int> {
    let rows = o.process.rows@;
    let fallback = if o.process.selected < rows.len() {
        Some(o.process.selected as int)
    } else {
        None
    };
    match o.process.selected_pid {
        Some(p) => match pid_index(rows, p, 0) {
            Some(i) => Some(i),
            None => fallback,
        },
        None => fallback,
    }
}

proof fn lemma_pid_index_range(rows: Seq<SignalTarget>, pid: u32, i: int)
    ensures
        pid_index(rows, pid, i) matches Some(k) ==> 0 <= k < rows.len() && rows[k].pid == pid,
    decreases rows.len() - i,
{
    if 0 <= i < rows.len() && rows[i].pid != pid {
        lemma_pid_index_range(rows, pid, i + 1);
    }
}

/// The process a signal goes to: the row of the selected PID, else the
/// selected row.
fn selected_process(state: &AppState) -> (r: Option<SignalTarget>)
    ensures
        match target_index(*state) {
            Some(i) => {
                &&& 0 <= i < state.process.rows@.len()
                &&& r matches Some(t) && t.pid == state.process.rows@[i].pid && t.user@
                    == state.process.rows@[i].user@ && t.name@ == state.process.rows@[i].name@
                    && t.start_time == state.process.rows@[i].start_time
            },
            None => r is None,
        },
{
    proof {
        if let Some(p) = state.process.selected_pid {
            lemma_pid_index_range(state.process.rows@, p, 0);
        }
    }
    if let Some(pid) = state.process.selected_pid {
        let mut i: usize = 0;
        while i < state.process.rows.len()
            invariant
                i <= state.process.rows@.len(),
                state.process.selected_pid == Some(pid),
                pid_index(state.process.rows@, pid, 0) == pid_index(state.process.rows@, pid, i as int),
            decreases state.process.rows.len() - i,
        {
            if state.process.rows[i].pid == pid {
                return Some(clone_target(&state.process.rows[i]));
            }
            i += 1;
        }
    }
    if state.process.selected < state.process.rows.len() {
        Some(clone_target(&state.process.rows[state.process.selected]))
    } else {
        None
    }
}

/// What a signal request does in a writable session: nothing without a
/// target; a protected target is refused on the status line; a signal that
/// needs no confirmation is sent at once; else the confirmation dialog opens
/// on the target with Cancel focused.
pub open spec fn signal_request_post(o: AppState, n: AppState, fx: Seq<SideEffect>, signal: ProcessSignal) -> bool {
    match target_index(o) {
        None => n == o && fx.len() == 0,
        Some(i) => {
            let t = o.process.rows@[i];
            if protected_pid(t.pid, o.self_pid) {
                refused_with(
                    o,
                    n,
                    "refusing "@ + signal.label_text() + ": protected PID "@ + decimal(t.pid as nat),
                ) && fx.len() == 0
            } else if !signal_needs_confirm(signal, o.config.confirm_sigterm, o.config.confirm_sigkill) {
                n == o && fx == seq![SideEffect::SendSignal { pid: t.pid, signal, start_time: t.start_time }]
            } else {
                &&& fx.len() == 0
                &&& n == AppState { dialog: n.dialog, ..o }
                &&& n.dialog matches Some(Dialog::ConfirmSignal { pid, user, command, signal: s, start_time, choice })
                &&& pid == t.pid && user@ == t.user@ && command@ == t.name@ && s == signal
                &&& start_time == t.start_time && choice == ConfirmChoice::Cancel
            }
        },
    }
}

/// What a unit action request does in a writable session: nothing without a
/// selected unit; the action at once when confirmations are off; else the
/// confirmation dialog on the unit with Cancel focused.
pub open spec fn service_request_post(o: AppState, n: AppState, fx: Seq<SideEffect>, action: ServiceActionKind) -> bool {
    match selected_unit_of(o) {
        None => n == o && fx.len() == 0,
        Some(u) => if !o.config.confirm_service_actions {
            &&& n == o
            &&& fx.len() == 1
            &&& fx[0] matches SideEffect::ServiceAction { unit: v, action: a } && v@ == u && a == action
        } else {
            &&& fx.len() == 0
            &&& n == AppState { dialog: n.dialog, ..o }
            &&& n.dialog matches Some(Dialog::ConfirmService { unit: v, action: a, choice })
            &&& v@ == u && a == action && choice == ConfirmChoice::Cancel
        },
    }
}

/// The effect sends `signal`.
pub open spec fn sends(e: SideEffect, signal: ProcessSignal) -> bool {
    e matches SideEffect::SendSignal { signal: s, .. } && s == signal
}

/// The effect runs the unit action `action`.
pub open spec fn runs(e: SideEffect, action: ServiceActionKind) -> bool {
    e matches SideEffect::ServiceAction { action: a, .. } && a == action
}

/// A confirmation dialog that was just opened has Cancel focused.
pub open spec fn opened_on_cancel(before: Option<Dialog>, after: Option<Dialog>) -> bool {
    before != after ==> match after {
        Some(Dialog::ConfirmSignal { choice, .. }) => choice == ConfirmChoice::Cancel,
        Some(Dialog::ConfirmService { choice, .. }) => choice == ConfirmChoice::Cancel,
        _ => true,
    }
}

/// What closing a confirmation dialog sends: the confirmed request when Yes
/// was chosen (or `yes` given), else nothing.
pub open spec fn confirm_fx(d: Option<Dialog>, yes: bool) -> Seq<SideEffect> {
    match d {
        Some(Dialog::ConfirmService { unit, action, choice }) => if yes || choice
            == ConfirmChoice::Yes {
            seq![SideEffect::ServiceAction { unit, action }]
        } else {
            Seq::empty()
        },
        Some(Dialog::ConfirmElevation { unit, action, choice }) => if yes || choice
            == ConfirmChoice::Yes {
            seq![SideEffect::SudoServiceAction { unit, action }]
        } else {
            Seq::empty()
        },
        Some(Dialog::ConfirmSignal { pid, signal, start_time, choice, .. }) => if yes || choice
            == ConfirmChoice::Yes {
            seq![SideEffect::SendSignal { pid, signal, start_time }]
        } else {
            Seq::empty()
        },
        Some(Dialog::ConfirmResetSettings { choice }) => if yes || choice == ConfirmChoice::Yes {
            seq![SideEffect::SaveConfig]
        } else {
            Seq::empty()
        },
        Some(Dialog::ConfirmCompleteOnboarding { choice }) => if yes || choice
            == ConfirmChoice::Yes {
            seq![SideEffect::SaveConfig]
        } else {
            Seq::empty()
        },
        _ => Seq::empty(),
    }
}

/// A confirmation dialog with the other button focused; any other dialog
/// as it is.
pub open spec fn toggle_choice(d: Option<Dialog>) -> Option<Dialog> {
    match d {
        Some(Dialog::ConfirmSignal { pid, user, command, signal, start_time, choice }) => Some(
            Dialog::ConfirmSignal { pid, user, command, signal, start_time, choice: choice.other() },
        ),
        Some(Dialog::ConfirmService { unit, action, choice }) => Some(
            Dialog::ConfirmService { unit, action, choice: choice.other() },
        ),
        Some(Dialog::ConfirmElevation { unit, action, choice }) => Some(
            Dialog::ConfirmElevation { unit, action, choice: choice.other() },
        ),
        Some(Dialog::ConfirmResetSettings { choice }) => Some(
            Dialog::ConfirmResetSettings { choice: choice.other() },
        ),
        Some(Dialog::ConfirmCompleteOnboarding { choice }) => Some(
            Dialog::ConfirmCompleteOnboarding { choice: choice.other() },
        ),
        _ => d,
    }
}

/// A refused request: only the status line changes, to `text`.
pub open spec fn refused_with(o: AppState, n: AppState, text: Seq<char>) -> bool {
    &&& same_but_toast(n, o)
    &&& n.toast matches Some(t) && t.message@ == text
}

/// What the signal, unit-action and confirmation actions do.
pub open spec fn admin_post(o: AppState, n: AppState, action: AppAction, fx: Seq<SideEffect>) -> bool {
    &&& (action is SignalTerm || action is SignalKill || action is SignalStop || action is SignalCont)
        && o.read_only ==> refused_with(o, n, "READ ONLY: signals disabled"@) && fx.len() == 0
    &&& (action is StartService || action is StopService || action is RestartService
        || action is ReloadService || action is EnableService || action is DisableService)
        && o.read_only ==> refused_with(o, n, "READ ONLY: service actions disabled"@) && fx.len()
        == 0
    &&& action is SignalTerm && !o.read_only ==> signal_request_post(o, n, fx, ProcessSignal::Term)
    &&& action is SignalKill && !o.read_only ==> signal_request_post(o, n, fx, ProcessSignal::Kill)
    &&& action is SignalStop && !o.read_only ==> signal_request_post(o, n, fx, ProcessSignal::Stop)
    &&& action is SignalCont && !o.read_only ==> signal_request_post(o, n, fx, ProcessSignal::Cont)
    &&& action is StartService && !o.read_only ==> service_request_post(o, n, fx, ServiceActionKind::Start)
    &&& action is StopService && !o.read_only ==> service_request_post(o, n, fx, ServiceActionKind::Stop)
    &&& action is RestartService && !o.read_only ==> service_request_post(o, n, fx, ServiceActionKind::Restart)
    &&& action is ReloadService && !o.read_only ==> service_request_post(o, n, fx, ServiceActionKind::Reload)
    &&& action is EnableService && !o.read_only ==> service_request_post(o, n, fx, ServiceActionKind::Enable)
    &&& action is DisableService && !o.read_only ==> service_request_post(o, n, fx, ServiceActionKind::Disable)
    &&& (action is ConfirmFocusLeft || action is ConfirmFocusRight) ==> n.dialog == toggle_choice(
        o.dialog,
    ) && fx.len() == 0
    &&& action is Confirm ==> n.dialog is None && fx == confirm_fx(o.dialog, false)
    &&& action is ConfirmYes ==> n.dialog is None && fx == confirm_fx(o.dialog, true)
}

/// A signal request through the guard: refused, sent, or first confirmed.
fn maybe_confirm_signal(state: &mut AppState, signal: ProcessSignal) -> (fx: Vec<SideEffect>)
    ensures
        old(state).read_only ==> fx@.len() == 0,
        final(state).read_only == old(state).read_only,
        fx@.len() <= 1,
        forall|i: int| 0 <= i < fx@.len() ==> sends(#[trigger] fx@[i], signal),
        opened_on_cancel(old(state).dialog, final(state).dialog),
        old(state).read_only ==> refused_with(*old(state), *final(state), "READ ONLY: signals disabled"@),
        !old(state).read_only ==> signal_request_post(*old(state), *final(state), fx@, signal),
{
    let target = if state.read_only {
        None
    } else {
        selected_process(state)
    };
    let g = guard_signal(
        state.read_only,
        target,
        state.self_pid,
        state.config.confirm_sigterm,
        state.config.confirm_sigkill,
        signal,
    );
    match g {
        Guarded::Refused(m) => {
            state.set_toast(ToastKind::Info, m);
            Vec::new()
        },
        Guarded::Idle => Vec::new(),
        Guarded::Run(e) => {
            let mut fx = Vec::new();
            fx.push(e);
            fx
        },
        Guarded::Ask(d) => {
            state.dialog = Some(d);
            Vec::new()
        },
    }
}

/// A unit action request through the guard.
fn maybe_confirm_service(state: &mut AppState, action: ServiceActionKind) -> (fx: Vec<SideEffect>)
    ensures
        old(state).read_only ==> fx@.len() == 0,
        final(state).read_only == old(state).read_only,
        fx@.len() <= 1,
        forall|i: int| 0 <= i < fx@.len() ==> runs(#[trigger] fx@[i], action),
        opened_on_cancel(old(state).dialog, final(state).dialog),
        old(state).read_only ==> refused_with(*old(state), *final(state), "READ ONLY: service actions disabled"@),
        !old(state).read_only ==> service_request_post(*old(state), *final(state), fx@, action),
{
    let unit = if state.read_only {
        None
    } else {
        selected_service_unit(state)
    };
    let g = guard_service(state.read_only, unit, state.config.confirm_service_actions, action);
    match g {
        Guarded::Refused(m) => {
            state.set_toast(ToastKind::Info, m);
            Vec::new()
        },
        Guarded::Idle => Vec::new(),
        Guarded::Run(e) => {
            let mut fx = Vec::new();
            fx.push(e);
            fx
        },
        Guarded::Ask(d) => {
            state.dialog = Some(d);
            Vec::new()
        },
    }
}

fn one(e: SideEffect) -> (v: Vec<SideEffect>)
    ensures
        v@ == seq![e],
{
    let mut v = Vec::new();
    v.push(e);
    v
}

fn opt_string_clone(o: &Option<String>) -> (r: Option<String>)
    ensures
        r == *o,
{
    match o {
        Some(s) => Some(s.clone()),
        None => None,
    }
}

/// The help overlay is open.
pub open spec fn help_open(d: Option<Dialog>) -> bool {
    d matches Some(Dialog::Help)
}

/// Does the effect act on the system (a signal or a unit action)?
pub open spec fn acts(e: SideEffect) -> bool {
    e is SendSignal || e is ServiceAction || e is SudoServiceAction
}

/// A confirmation dialog with Yes focused.
pub open spec fn confirm_yes(d: Option<Dialog>) -> bool {
    match d {
        Some(Dialog::ConfirmSignal { choice, .. }) => choice == ConfirmChoice::Yes,
        Some(Dialog::ConfirmService { choice, .. }) => choice == ConfirmChoice::Yes,
        Some(Dialog::ConfirmElevation { choice, .. }) => choice == ConfirmChoice::Yes,
        Some(Dialog::ConfirmResetSettings { choice }) => choice == ConfirmChoice::Yes,
        Some(Dialog::ConfirmCompleteOnboarding { choice }) => choice == ConfirmChoice::Yes,
        _ => false,
    }
}

/// Whether the view has a query for `/` to edit: the glossary's, or the
/// list screen's.
pub open spec fn has_query(d: Option<Dialog>, screen: Screen) -> bool {
    glossary_is_open(d) || !(screen == Screen::Dashboard || screen == Screen::Settings)
}

/// The side effects of changing to `s`: stop following when leaving the
/// logs, scan when the storage screen has nothing yet, refresh the logs or
/// the diagnostics when shown.
pub open spec fn change_screen_fx(o: AppState, s: Screen) -> Seq<SideEffect> {
    (if o.screen == Screen::Logs && s != Screen::Logs && o.log.follow {
        seq![SideEffect::StopFollow]
    } else {
        Seq::empty()
    }) + (if s == Screen::Storage && o.storage.tree is None && o.storage.scan_state
        == ScanState::Idle {
        seq![SideEffect::StartScan { path: o.storage.scan_path }]
    } else {
        Seq::empty()
    }) + (if s == Screen::Logs {
        seq![SideEffect::RefreshLogs { unit: o.log.unit }]
    } else {
        Seq::empty()
    }) + (if s == Screen::Diagnostics {
        seq![SideEffect::RefreshDiagnostics]
    } else {
        Seq::empty()
    })
}

/// The side effect of a refresh on each screen.
pub open spec fn refresh_fx(o: AppState) -> Seq<SideEffect> {
    match o.screen {
        Screen::Dashboard => seq![SideEffect::RefreshMetrics],
        Screen::Processes => seq![SideEffect::RefreshProcesses],
        Screen::Services => seq![SideEffect::RefreshServices],
        Screen::Logs => seq![SideEffect::RefreshLogs { unit: o.log.unit }],
        Screen::Storage => seq![SideEffect::StartScan { path: o.storage.scan_path }],
        Screen::Diagnostics => seq![SideEffect::RefreshDiagnostics],
        Screen::Settings => Seq::empty(),
    }
}

/// What a view action does, beside acting on nothing.
pub open spec fn view_post(o: AppState, n: AppState, action: AppAction, fx: Seq<SideEffect>) -> bool {
    &&& action is Quit ==> n.should_quit && fx.len() == 0
    &&& action is Cancel ==> n.dialog is None && !n.searching && fx.len() == 0
    &&& action matches AppAction::ChangeScreen(s) ==> n.screen == s && !n.searching && fx
        == change_screen_fx(o, s)
    &&& action is Refresh ==> fx == refresh_fx(o)
    &&& action is Home ==> current_selected(n) == 0 && n.dialog == o.dialog && fx.len() == 0
        && cursor_placed(o, n, 0)
    &&& action is End ==> n.dialog == o.dialog && fx.len() == 0 && cursor_placed(o, n, usize::MAX)
    &&& action is MoveUp && moves_in_list(o) ==> cursor_moved(o, n, -1i32)
    &&& action is MoveDown && moves_in_list(o) ==> cursor_moved(o, n, 1i32)
    &&& action is PageUp && moves_in_list(o) ==> cursor_moved(o, n, -10i32)
    &&& action is PageDown && moves_in_list(o) ==> cursor_moved(o, n, 10i32)
    &&& (action is MoveUp || action is PageUp) ==> fx.len() == 0 && (o.dialog matches Some(
        Dialog::ActionMenu { items, selected, .. },
    ) ==> menu_moved(n.dialog, items@.len(), selected, -1i32))
    &&& (action is MoveDown || action is PageDown) ==> fx.len() == 0 && (o.dialog matches Some(
        Dialog::ActionMenu { items, selected, .. },
    ) ==> menu_moved(n.dialog, items@.len(), selected, 1i32))
    &&& action is NextFocus ==> n.focus == match o.focus {
        FocusPane::Nav => FocusPane::Content,
        FocusPane::Content => FocusPane::Details,
        FocusPane::Details => FocusPane::Nav,
    } && fx.len() == 0
    &&& action is PrevFocus ==> n.focus == match o.focus {
        FocusPane::Nav => FocusPane::Details,
        FocusPane::Content => FocusPane::Nav,
        FocusPane::Details => FocusPane::Content,
    } && fx.len() == 0
    &&& action is ToggleHelp ==> (help_open(n.dialog) <==> !help_open(o.dialog)) && fx.len() == 0
    &&& action is ToggleGlossary ==> (glossary_is_open(n.dialog) <==> !glossary_is_open(o.dialog))
        && !n.searching && fx.len() == 0
    &&& action is Search ==> fx.len() == 0 && (if o.searching {
        !n.searching
    } else {
        n.searching == has_query(o.dialog, o.screen)
    })
    &&& action matches AppAction::SearchInput(c) ==> (has_query(o.dialog, o.screen) ==> current_query(
        n.dialog,
        n.search,
        n.screen,
    ) == current_query(o.dialog, o.search, o.screen).push(c))
    &&& action is SearchBackspace && has_query(o.dialog, o.screen) ==> current_query(
        n.dialog,
        n.search,
        n.screen,
    ) == (if current_query(o.dialog, o.search, o.screen).len() > 0 {
        current_query(o.dialog, o.search, o.screen).drop_last()
    } else {
        current_query(o.dialog, o.search, o.screen)
    })
    &&& action is ClearSearch ==> !n.searching && (has_query(o.dialog, o.screen) ==> current_query(
        n.dialog,
        n.search,
        n.screen,
    ).len() == 0)
    &&& action is OpenDiagnosticReport ==> (n.dialog matches Some(Dialog::DiagnosticReport { body })
        && body@ == match o.diagnostic.report {
        Some(r) => r@,
        None => "No report yet. Press r to run diagnostics."@,
    })
}

/// Actions on the view: screens, focus, selection, search and overlays.
pub open spec fn view_action(a: AppAction) -> bool {
    a is Quit || a is ChangeScreen || a is Refresh || a is NextFocus || a is PrevFocus || a is MoveUp || a is MoveDown || a is PageUp || a is PageDown || a is Home || a is End || a is Search || a is ClearSearch || a is SearchInput || a is SearchBackspace || a is Cancel || a is ToggleHelp || a is ToggleGlossary || a is OpenDiagnosticReport || a is SettingsMove
}

/// Actions on the lists' own settings and contents.
pub open spec fn list_action(a: AppAction) -> bool {
    a is ChangeSort || a is ToggleFullCommand || a is ToggleFailedOnly || a is ToggleFollow || a is NextMatch || a is PrevMatch || a is ChangePriority || a is ToggleWrap || a is ToggleApparentSize || a is ToggleStayOnFs || a is EnterDir || a is ParentDir || a is OpenLogsForSelected || a is StartStorageScan || a is CancelStorageScan || a is AcknowledgeFinding || a is FollowDiagnosticTarget || a is ToggleWallboard || a is CleanupReportsNow || a is CycleLogPreset || a is CycleStorageTab || a is DeepDiagnostics
}

/// Signals, unit actions and their confirmations.
pub open spec fn admin_action(a: AppAction) -> bool {
    a is StartService || a is StopService || a is RestartService || a is ReloadService || a is EnableService || a is DisableService || a is SignalTerm || a is SignalKill || a is SignalStop || a is SignalCont || a is ConfirmFocusLeft || a is Confirm || a is ConfirmYes || a is ExecuteSignal || a is ExecuteService || a is ConfirmFocusRight
}

fn action_group(a: &AppAction) -> (g: u8)
    ensures
        g == 0 <==> view_action(*a),
        g == 1 <==> list_action(*a),
        g == 2 <==> admin_action(*a),
        g <= 3,
{
    match a {
        AppAction::Quit => 0,
        AppAction::ChangeScreen(_) => 0,
        AppAction::Refresh => 0,
        AppAction::NextFocus => 0,
        AppAction::PrevFocus => 0,
        AppAction::MoveUp => 0,
        AppAction::MoveDown => 0,
        AppAction::PageUp => 0,
        AppAction::PageDown => 0,
        AppAction::Home => 0,
        AppAction::End => 0,
        AppAction::Search => 0,
        AppAction::ClearSearch => 0,
        AppAction::SearchInput(_) => 0,
        AppAction::SearchBackspace => 0,
        AppAction::Cancel => 0,
        AppAction::ToggleHelp => 0,
        AppAction::ToggleGlossary => 0,
        AppAction::OpenDiagnosticReport => 0,
        AppAction::SettingsMove => 0,
        AppAction::ChangeSort => 1,
        AppAction::ToggleFullCommand => 1,
        AppAction::ToggleFailedOnly => 1,
        AppAction::ToggleFollow => 1,
        AppAction::NextMatch => 1,
        AppAction::PrevMatch => 1,
        AppAction::ChangePriority => 1,
        AppAction::ToggleWrap => 1,
        AppAction::ToggleApparentSize => 1,
        AppAction::ToggleStayOnFs => 1,
        AppAction::EnterDir => 1,
        AppAction::ParentDir => 1,
        AppAction::OpenLogsForSelected => 1,
        AppAction::StartStorageScan(_) => 1,
        AppAction::CancelStorageScan => 1,
        AppAction::AcknowledgeFinding => 1,
        AppAction::FollowDiagnosticTarget => 1,
        AppAction::ToggleWallboard => 1,
        AppAction::CleanupReportsNow => 1,
        AppAction::CycleLogPreset => 1,
        AppAction::CycleStorageTab => 1,
        AppAction::DeepDiagnostics => 1,
        AppAction::StartService => 2,
        AppAction::StopService => 2,
        AppAction::RestartService => 2,
        AppAction::ReloadService => 2,
        AppAction::EnableService => 2,
        AppAction::DisableService => 2,
        AppAction::SignalTerm => 2,
        AppAction::SignalKill => 2,
        AppAction::SignalStop => 2,
        AppAction::SignalCont => 2,
        AppAction::ConfirmFocusLeft => 2,
        AppAction::Confirm => 2,
        AppAction::ConfirmYes => 2,
        AppAction::ExecuteSignal { .. } => 2,
        AppAction::ExecuteService { .. } => 2,
        AppAction::ConfirmFocusRight => 2,
        _ => 3,
    }
}

/// The cursor actions: up, down, a page up or down, first and last row.
#[verifier::rlimit(50)]
fn apply_cursor_action(state: &mut AppState, action: AppAction) -> (fx: Vec<SideEffect>)
    requires
        action is MoveUp || action is MoveDown || action is PageUp || action is PageDown
            || action is Home || action is End,
    ensures
        final(state).read_only == old(state).read_only,
        fx@.len() == 0,
        view_post(*old(state), *final(state), action, fx@),
{
    match action {
        AppAction::MoveUp => move_selection(state, -1),
        AppAction::MoveDown => move_selection(state, 1),
        AppAction::PageUp => move_selection(state, -10),
        AppAction::PageDown => move_selection(state, 10),
        AppAction::Home => set_selection(state, 0),
        _ => set_selection(state, usize::MAX),
    }
    Vec::new()
}

#[verifier::rlimit(100)]
#[verifier::spinoff_prover]
fn apply_view_action(state: &mut AppState, action: AppAction) -> (fx: Vec<SideEffect>)
    requires
        view_action(action),
    ensures
        final(state).read_only == old(state).read_only,
        forall|i: int| 0 <= i < fx@.len() ==> !acts(#[trigger] fx@[i]),
        view_post(*old(state), *final(state), action, fx@),
{
    match action {
        AppAction::Quit => {
            state.should_quit = true;
            Vec::new()
        },
        AppAction::ChangeScreen(screen) => {
            let ghost o = *old(state);
            let mut fx: Vec<SideEffect> = Vec::new();
            let leaving_logs = state.screen == Screen::Logs && screen != Screen::Logs;
            if leaving_logs && state.log.follow {
                state.log.follow = false;
                fx.push(SideEffect::StopFollow);
            }
            let ghost part1 = fx@;
            state.screen = screen;
            state.searching = false;
            if screen == Screen::Storage && state.storage.tree.is_none() && state.storage.scan_state
                == ScanState::Idle {
                fx.push(SideEffect::StartScan { path: state.storage.scan_path.clone() });
                state.storage.scan_state = ScanState::Running;
            }
            let ghost part2 = fx@;
            if screen == Screen::Logs {
                fx.push(SideEffect::RefreshLogs { unit: opt_string_clone(&state.log.unit) });
            }
            let ghost part3 = fx@;
            if screen == Screen::Diagnostics {
                fx.push(SideEffect::RefreshDiagnostics);
                state.diagnostic.running = true;
            }
            proof {
                let a = if o.screen == Screen::Logs && screen != Screen::Logs && o.log.follow {
                    seq![SideEffect::StopFollow]
                } else {
                    Seq::<SideEffect>::empty()
                };
                let b = if screen == Screen::Storage && o.storage.tree is None
                    && o.storage.scan_state == ScanState::Idle {
                    seq![SideEffect::StartScan { path: o.storage.scan_path }]
                } else {
                    Seq::<SideEffect>::empty()
                };
                let c = if screen == Screen::Logs {
                    seq![SideEffect::RefreshLogs { unit: o.log.unit }]
                } else {
                    Seq::<SideEffect>::empty()
                };
                let d = if screen == Screen::Diagnostics {
                    seq![SideEffect::RefreshDiagnostics]
                } else {
                    Seq::<SideEffect>::empty()
                };
                assert(part1 =~= a);
                assert(part2 =~= a + b);
                assert(part3 =~= a + b + c);
                assert(fx@ =~= a + b + c + d);
                assert(change_screen_fx(o, screen) == a + b + c + d);
            }
            assert(forall|i: int| 0 <= i < fx@.len() ==> !acts(#[trigger] fx@[i]));
            fx
        },
        AppAction::Refresh => match state.screen {
            Screen::Dashboard => one(SideEffect::RefreshMetrics),
            Screen::Processes => one(SideEffect::RefreshProcesses),
            Screen::Services => one(SideEffect::RefreshServices),
            Screen::Logs => one(SideEffect::RefreshLogs { unit: opt_string_clone(&state.log.unit) }),
            Screen::Storage => {
                state.storage.scan_state = ScanState::Running;
                one(SideEffect::StartScan { path: state.storage.scan_path.clone() })
            },
            Screen::Diagnostics => {
                state.diagnostic.running = true;
                one(SideEffect::RefreshDiagnostics)
            },
            Screen::Settings => {
                status(state, ToastKind::Info, "settings");
                Vec::new()
            },
        },
        AppAction::NextFocus => {
            state.focus =
            match state.focus {
                FocusPane::Nav => FocusPane::Content,
                FocusPane::Content => FocusPane::Details,
                FocusPane::Details => FocusPane::Nav,
            };
            Vec::new()
        },
        AppAction::PrevFocus => {
            state.focus =
            match state.focus {
                FocusPane::Nav => FocusPane::Details,
                FocusPane::Content => FocusPane::Nav,
                FocusPane::Details => FocusPane::Content,
            };
            Vec::new()
        },
        AppAction::MoveUp | AppAction::MoveDown | AppAction::PageUp | AppAction::PageDown
        | AppAction::Home | AppAction::End => apply_cursor_action(state, action),
        AppAction::Search => {
            if state.searching {
                state.searching = false;
            } else if search_supported(&state.dialog, state.screen) {
                state.searching = true;
                let target = if glossary_open(&state.dialog) {
                    "glossary"
                } else {
                    state.screen.label()
                };
                status_with(state, "/", target);
            } else {
                state.searching = false;
                status(state, ToastKind::Info, "no list to filter (2\u{2013}6 or g)");
            }
            Vec::new()
        },
        AppAction::ClearSearch => {
            state.searching = false;
            if glossary_open(&state.dialog) {
                state.search.glossary = String::new();
            } else {
                let screen = state.screen;
                if let Some(q) = state.search.get_mut(screen) {
                    *q = String::new();
                }
            }
            clamp_selection_to_visible(state);
            status(state, ToastKind::Info, "filter cleared");
            Vec::new()
        },
        AppAction::SearchInput(c) => {
            if glossary_open(&state.dialog) {
                crate::text::push_char(&mut state.search.glossary, c);
            } else {
                let screen = state.screen;
                if let Some(q) = state.search.get_mut(screen) {
                    crate::text::push_char(q, c);
                }
            }
            clamp_selection_to_visible(state);
            Vec::new()
        },
        AppAction::SearchBackspace => {
            if glossary_open(&state.dialog) {
                crate::text::pop_char(&mut state.search.glossary);
            } else {
                let screen = state.screen;
                if let Some(q) = state.search.get_mut(screen) {
                    crate::text::pop_char(q);
                }
            }
            clamp_selection_to_visible(state);
            Vec::new()
        },
        AppAction::Cancel => {
            state.dialog = None;
            state.searching = false;
            Vec::new()
        },
        AppAction::ToggleHelp => {
            if let Some(Dialog::Help) = &state.dialog {
                state.dialog = None;
            } else {
                state.searching = false;
                state.dialog = Some(Dialog::Help);
            }
            Vec::new()
        },
        AppAction::ToggleGlossary => {
            if let Some(Dialog::Glossary) = &state.dialog {
                state.dialog = None;
                state.searching = false;
            } else {
                state.searching = false;
                state.glossary_selected = 0;
                state.dialog = Some(Dialog::Glossary);
            }
            Vec::new()
        },
        AppAction::OpenDiagnosticReport => {
            let body = match &state.diagnostic.report {
                Some(r) => r.clone(),
                None => String::from_str("No report yet. Press r to run diagnostics."),
            };
            state.dialog = Some(Dialog::DiagnosticReport { body });
            Vec::new()
        },
        AppAction::SettingsMove => Vec::new(),
        _ => Vec::new(),
    }
}

/// What a list action does, beside acting on nothing.
pub open spec fn list_post(o: AppState, n: AppState, action: AppAction, fx: Seq<SideEffect>) -> bool {
    &&& action is ChangeSort && o.screen == Screen::Processes ==> n.screen == o.screen
        && n.process.sort == o.process.sort.following() && fx.len() == 0
    &&& action is ChangeSort && o.screen == Screen::Storage ==> n.screen == o.screen
        && n.storage.sort == o.storage.sort.following() && fx.len() == 0
    &&& action is ToggleWrap ==> n.log.wrap == !o.log.wrap
    &&& action is ToggleFollow ==> n.log.follow == !o.log.follow && fx.len() == 1 && (n.log.follow
        ==> fx[0] is StartFollow) && (o.log.follow ==> fx[0] is StopFollow)
    &&& action is ChangePriority ==> n.log.min_priority.level() == (o.log.min_priority.level() + 1)
        % 8
    &&& action is CycleLogPreset ==> n.log.preset == o.log.preset.following() && (n.log.preset
        == LogPreset::Important ==> n.log.min_priority == LogPriority::Warning)
        && n.log.buffer.contents().len() == 0 && fx.len() == 1 && fx[0] is RefreshLogs
    &&& action is ToggleFailedOnly ==> n.service.failed_only == !o.service.failed_only
        && n.service.filter == service_filter_of(n.service.failed_only, ServiceFilter::All)
    &&& action is CancelStorageScan && o.storage.scan_state == ScanState::Running
        ==> n.storage.scan_state == ScanState::Cancelled && fx == seq![SideEffect::CancelScan]
    &&& action is CancelStorageScan && o.storage.scan_state != ScanState::Running ==> fx.len() == 0
    &&& action is CleanupReportsNow ==> fx == seq![SideEffect::CleanupReports]
    &&& action is DeepDiagnostics ==> n.diagnostic.deep && fx == seq![SideEffect::RefreshDiagnostics]
    &&& action is ToggleFullCommand ==> n.process.show_full_cmd == !o.process.show_full_cmd
        && fx.len() == 0
    &&& action is ToggleApparentSize ==> n.storage.use_apparent == !o.storage.use_apparent
        && fx.len() == 0
    &&& action is ToggleStayOnFs ==> n.storage.stay_on_fs == !o.storage.stay_on_fs && fx.len() == 0
    &&& action is ToggleWallboard ==> n.wallboard == !o.wallboard && n.config.wallboard_default
        == n.wallboard && fx.len() == 0
    &&& action is ParentDir ==> n.storage.cwd@ == (if o.storage.cwd@.len() > 0 {
        o.storage.cwd@.drop_last()
    } else {
        o.storage.cwd@
    }) && n.storage.selected == 0 && fx.len() == 0
    &&& action matches AppAction::StartStorageScan(p) ==> n.storage.scan_state == ScanState::Running
        && n.storage.cwd@.len() == 0 && fx.len() == 1 && (fx[0] matches SideEffect::StartScan {
        path: q,
    } && q@ == n.storage.scan_path@) && (p matches Some(r) ==> n.storage.scan_path@ == r@) && (
    p is None ==> n.storage.scan_path@ == o.storage.scan_path@)
    &&& action is CycleStorageTab ==> n.storage.tab == o.storage.tab.following()
        && n.storage.selected == 0 && fx.len() == 0
    &&& (action is NextMatch || action is PrevMatch) ==> fx.len() == 0
}

pub open spec fn log_list_action(a: AppAction) -> bool {
    a is ToggleFollow || a is NextMatch || a is PrevMatch || a is ChangePriority || a is ToggleWrap || a is CycleLogPreset || a is OpenLogsForSelected || a is ToggleFailedOnly || a is ChangeSort || a is ToggleFullCommand
}

#[verifier::rlimit(100)]
#[verifier::spinoff_prover]
fn apply_log_list_action(state: &mut AppState, action: AppAction) -> (fx: Vec<SideEffect>)
    requires
        log_list_action(action),
    ensures
        final(state).read_only == old(state).read_only,
        forall|i: int| 0 <= i < fx@.len() ==> !acts(#[trigger] fx@[i]),
        list_post(*old(state), *final(state), action, fx@),
{
    match action {
        AppAction::ChangeSort => {
            match state.screen {
                Screen::Processes => {
                    state.process.sort = state.process.sort.next();
                    let mut m = String::from_str("sort: ");
                    m.append(state.process.sort.label());
                    state.set_toast(ToastKind::Info, m);
                },
                Screen::Storage => {
                    state.storage.sort = state.storage.sort.next();
                    let sort = state.storage.sort;
                    if let Some(tree) = &mut state.storage.tree {
                        tree.root.sort_children(sort);
                    }
                    let mut m = String::from_str("sort: ");
                    m.append(state.storage.sort.label());
                    state.set_toast(ToastKind::Info, m);
                },
                _ => {},
            }
            Vec::new()
        },
        AppAction::ToggleFullCommand => {
            state.process.show_full_cmd = !state.process.show_full_cmd;
            Vec::new()
        },
        AppAction::ToggleFailedOnly => {
            state.service.failed_only = !state.service.failed_only;
            state.service.filter = if state.service.failed_only {
                ServiceFilter::Failed
            } else {
                ServiceFilter::All
            };
            Vec::new()
        },
        AppAction::ToggleFollow => {
            state.log.follow = !state.log.follow;
            if state.log.follow {
                one(SideEffect::StartFollow { unit: opt_string_clone(&state.log.unit) })
            } else {
                one(SideEffect::StopFollow)
            }
        },
        AppAction::NextMatch => step_match(state, true),
        AppAction::PrevMatch => step_match(state, false),
        AppAction::ChangePriority => {
            state.log.min_priority = state.log.min_priority.next_minimum();
            let mut m = String::from_str("min priority: ");
            m.append(state.log.min_priority.label());
            state.set_toast(ToastKind::Info, m);
            Vec::new()
        },
        AppAction::ToggleWrap => {
            state.log.wrap = !state.log.wrap;
            Vec::new()
        },
        AppAction::OpenLogsForSelected => {
            match selected_service_unit(state) {
                Some(unit) => {
                    state.log.unit = Some(unit.clone());
                    state.screen = Screen::Logs;
                    state.log.buffer.clear();
                    one(SideEffect::RefreshLogs { unit: Some(unit) })
                },
                None => Vec::new(),
            }
        },
        AppAction::CycleLogPreset => {
            state.log.preset = state.log.preset.next();
            if state.log.preset == LogPreset::Important {
                state.log.min_priority = LogPriority::Warning;
            }
            state.log.buffer.clear();
            let mut m = String::from_str("log preset: ");
            m.append(state.log.preset.label());
            state.set_toast(ToastKind::Info, m);
            one(SideEffect::RefreshLogs { unit: opt_string_clone(&state.log.unit) })
        },
        _ => Vec::new(),
    }
}

/// The storage screen's list actions.
pub open spec fn storage_list_action(a: AppAction) -> bool {
    a is ToggleApparentSize || a is ToggleStayOnFs || a is EnterDir || a is ParentDir
        || a is StartStorageScan || a is CancelStorageScan || a is CycleStorageTab
}

fn apply_other_list_action(state: &mut AppState, action: AppAction) -> (fx: Vec<SideEffect>)
    requires
        list_action(action),
        !log_list_action(action),
    ensures
        final(state).read_only == old(state).read_only,
        forall|i: int| 0 <= i < fx@.len() ==> !acts(#[trigger] fx@[i]),
        list_post(*old(state), *final(state), action, fx@),
{
    let storage = match action {
        AppAction::ToggleApparentSize | AppAction::ToggleStayOnFs | AppAction::EnterDir
        | AppAction::ParentDir | AppAction::StartStorageScan(_) | AppAction::CancelStorageScan
        | AppAction::CycleStorageTab => true,
        _ => false,
    };
    if storage {
        apply_storage_list_action(state, action)
    } else {
        apply_misc_list_action(state, action)
    }
}

#[verifier::rlimit(100)]
#[verifier::spinoff_prover]
fn apply_storage_list_action(state: &mut AppState, action: AppAction) -> (fx: Vec<SideEffect>)
    requires
        storage_list_action(action),
    ensures
        final(state).read_only == old(state).read_only,
        forall|i: int| 0 <= i < fx@.len() ==> !acts(#[trigger] fx@[i]),
        list_post(*old(state), *final(state), action, fx@),
{
    match action {
        AppAction::ToggleApparentSize => {
            state.storage.use_apparent = !state.storage.use_apparent;
            Vec::new()
        },
        AppAction::ToggleStayOnFs => {
            state.storage.stay_on_fs = !state.storage.stay_on_fs;
            let on = if state.storage.stay_on_fs {
                "on"
            } else {
                "off"
            };
            status_with(state, "stay on filesystem: ", on);
            Vec::new()
        },
        AppAction::EnterDir => {
            enter_storage_dir(state);
            Vec::new()
        },
        AppAction::ParentDir => {
            state.storage.cwd.pop();
            state.storage.selected = 0;
            Vec::new()
        },
        AppAction::StartStorageScan(path) => {
            let path = match path {
                Some(p) => p,
                None => state.storage.scan_path.clone(),
            };
            state.storage.scan_path = path.clone();
            state.storage.scan_state = ScanState::Running;
            state.storage.cwd = Vec::new();
            one(SideEffect::StartScan { path })
        },
        AppAction::CancelStorageScan => {
            if state.storage.scan_state == ScanState::Running {
                state.storage.scan_state = ScanState::Cancelled;
                status(state, ToastKind::Info, "scan cancel requested");
                one(SideEffect::CancelScan)
            } else {
                Vec::new()
            }
        },
        AppAction::CycleStorageTab => {
            state.storage.tab = state.storage.tab.next();
            state.storage.selected = 0;
            let mut m = String::from_str("storage tab: ");
            m.append(state.storage.tab.label());
            state.set_toast(ToastKind::Info, m);
            Vec::new()
        },
        _ => Vec::new(),
    }
}

#[verifier::rlimit(100)]
#[verifier::spinoff_prover]
fn apply_misc_list_action(state: &mut AppState, action: AppAction) -> (fx: Vec<SideEffect>)
    requires
        list_action(action),
        !log_list_action(action),
        !storage_list_action(action),
    ensures
        final(state).read_only == old(state).read_only,
        forall|i: int| 0 <= i < fx@.len() ==> !acts(#[trigger] fx@[i]),
        list_post(*old(state), *final(state), action, fx@),
{
    match action {
        AppAction::AcknowledgeFinding => acknowledge_finding(state),
        AppAction::FollowDiagnosticTarget => follow_diagnostic_target(state),
        AppAction::ToggleWallboard => {
            state.wallboard = !state.wallboard;
            state.config.wallboard_default = state.wallboard;
            let m = if state.wallboard {
                "wallboard ON"
            } else {
                "wallboard OFF"
            };
            status(state, ToastKind::Info, m);
            Vec::new()
        },
        AppAction::CleanupReportsNow => one(SideEffect::CleanupReports),
        AppAction::DeepDiagnostics => {
            state.diagnostic.deep = true;
            status(state, ToastKind::Info, "deep diagnostics requested");
            one(SideEffect::RefreshDiagnostics)
        },

        _ => Vec::new(),
    }
}

fn apply_list_action(state: &mut AppState, action: AppAction) -> (fx: Vec<SideEffect>)
    requires
        list_action(action),
    ensures
        final(state).read_only == old(state).read_only,
        forall|i: int| 0 <= i < fx@.len() ==> !acts(#[trigger] fx@[i]),
        list_post(*old(state), *final(state), action, fx@),
{
    let is_log = match &action {
        AppAction::ToggleFollow => true,
        AppAction::NextMatch => true,
        AppAction::PrevMatch => true,
        AppAction::ChangePriority => true,
        AppAction::ToggleWrap => true,
        AppAction::CycleLogPreset => true,
        AppAction::OpenLogsForSelected => true,
        AppAction::ToggleFailedOnly => true,
        AppAction::ChangeSort => true,
        AppAction::ToggleFullCommand => true,
        _ => false,
    };
    if is_log {
        apply_log_list_action(state, action)
    } else {
        apply_other_list_action(state, action)
    }
}

#[verifier::rlimit(100)]
#[verifier::spinoff_prover]
fn apply_admin_action(state: &mut AppState, action: AppAction) -> (fx: Vec<SideEffect>)
    requires
        admin_action(action),
    ensures
        final(state).read_only == old(state).read_only,
        old(state).read_only && !(action is Confirm || action is ConfirmYes) ==> forall|i: int|
            0 <= i < fx@.len() ==> !acts(#[trigger] fx@[i]),
        action is Confirm && !confirm_yes(old(state).dialog) ==> fx@.len() == 0,
        action is Confirm ==> final(state).dialog is None,
        action matches AppAction::ExecuteSignal { pid, signal, start_time } ==> (old(
            state,
        ).read_only ==> fx@.len() == 0) && (!old(state).read_only ==> fx@ == seq![
            SideEffect::SendSignal { pid, signal, start_time },
        ]),
        action matches AppAction::ExecuteService { unit, action: a } ==> (old(state).read_only
            ==> fx@.len() == 0) && (!old(state).read_only ==> fx@ == seq![
            SideEffect::ServiceAction { unit, action: a },
        ]),
        admin_post(*old(state), *final(state), action, fx@),
{
    match action {
        AppAction::StartService => maybe_confirm_service(state, ServiceActionKind::Start),
        AppAction::StopService => maybe_confirm_service(state, ServiceActionKind::Stop),
        AppAction::RestartService => maybe_confirm_service(state, ServiceActionKind::Restart),
        AppAction::ReloadService => maybe_confirm_service(state, ServiceActionKind::Reload),
        AppAction::EnableService => maybe_confirm_service(state, ServiceActionKind::Enable),
        AppAction::DisableService => maybe_confirm_service(state, ServiceActionKind::Disable),
        AppAction::SignalTerm => maybe_confirm_signal(state, ProcessSignal::Term),
        AppAction::SignalKill => maybe_confirm_signal(state, ProcessSignal::Kill),
        AppAction::SignalStop => maybe_confirm_signal(state, ProcessSignal::Stop),
        AppAction::SignalCont => maybe_confirm_signal(state, ProcessSignal::Cont),
        AppAction::ConfirmFocusLeft | AppAction::ConfirmFocusRight => {
            match &mut state.dialog {
                Some(Dialog::ConfirmSignal { choice, .. }) => *choice = choice.toggle(),
                Some(Dialog::ConfirmService { choice, .. }) => *choice = choice.toggle(),
                Some(Dialog::ConfirmElevation { choice, .. }) => *choice = choice.toggle(),
                Some(Dialog::ConfirmResetSettings { choice }) => *choice = choice.toggle(),
                Some(Dialog::ConfirmCompleteOnboarding { choice }) => *choice = choice.toggle(),
                _ => {},
            }
            Vec::new()
        },
        AppAction::Confirm => confirm(state, false),
        AppAction::ConfirmYes => confirm(state, true),
        AppAction::ExecuteSignal { pid, signal, start_time } => {
            if state.read_only {
                status(state, ToastKind::Info, "READ ONLY: signals disabled");
                Vec::new()
            } else {
                one(SideEffect::SendSignal { pid, signal, start_time })
            }
        },
        AppAction::ExecuteService { unit, action } => {
            if state.read_only {
                status(state, ToastKind::Info, "READ ONLY: service actions disabled");
                Vec::new()
            } else {
                one(SideEffect::ServiceAction { unit, action })
            }
        },

        _ => Vec::new(),
    }
}

/// What applying `action` to `o` does: the new state `n` and the side
/// effects `fx` the runtime is to perform.
pub open spec fn action_post(o: AppState, n: AppState, action: AppAction, fx: Seq<SideEffect>) -> bool {
    &&& n.read_only == o.read_only
    // A read-only session never acts on the system, except by confirming a
    // dialog that was already open.
    &&& o.read_only && !(action is Confirm || action is ConfirmYes) ==> forall|i: int|
        0 <= i < fx.len() ==> !acts(#[trigger] fx[i])
    // Nothing acts on the system through a confirmation dialog unless Yes is
    // focused.
    &&& action is Confirm && !confirm_yes(o.dialog) ==> fx.len() == 0
    &&& action is Confirm ==> n.dialog is None
    &&& action is ToggleWrap ==> n.log.wrap == !o.log.wrap
    &&& action is ToggleFollow ==> n.log.follow == !o.log.follow && fx.len() == 1 && (n.log.follow
        ==> fx[0] is StartFollow) && (o.log.follow ==> fx[0] is StopFollow)
    &&& action is ChangePriority ==> n.log.min_priority.level() == (o.log.min_priority.level() + 1)
        % 8
    &&& action is CycleLogPreset ==> n.log.preset == o.log.preset.following() && (n.log.preset
        == LogPreset::Important ==> n.log.min_priority == LogPriority::Warning)
        && n.log.buffer.contents().len() == 0
    &&& action is ToggleFailedOnly ==> n.service.failed_only == !o.service.failed_only
        && n.service.filter == service_filter_of(n.service.failed_only, ServiceFilter::All)
    &&& action is CancelStorageScan && o.storage.scan_state == ScanState::Running
        ==> n.storage.scan_state == ScanState::Cancelled && fx == seq![SideEffect::CancelScan]
    &&& action is CleanupReportsNow ==> fx == seq![SideEffect::CleanupReports]
    &&& action is DeepDiagnostics ==> n.diagnostic.deep && fx == seq![SideEffect::RefreshDiagnostics]
    &&& action matches AppAction::ExecuteSignal { pid, signal, start_time } ==> (o.read_only
        ==> fx.len() == 0) && (!o.read_only ==> fx == seq![
        SideEffect::SendSignal { pid, signal, start_time },
    ])
    &&& action matches AppAction::ExecuteService { unit, action: a } ==> (o.read_only ==> fx.len()
        == 0) && (!o.read_only ==> fx == seq![SideEffect::ServiceAction { unit, action: a }])
    &&& list_action(action) ==> list_post(o, n, action, fx)
    &&& view_action(action) ==> view_post(o, n, action, fx)
    &&& inspect_action(action) ==> inspect_post(o, n, action, fx)
    &&& admin_action(action) ==> admin_post(o, n, action, fx)
}

/// Applies one action: changes the state and gives the side effects the
/// runtime is to perform, in order.
pub fn apply_action(state: &mut AppState, action: AppAction) -> (fx: Vec<SideEffect>)
    ensures
        action_post(*old(state), *final(state), action, fx@),
{
    let g = action_group(&action);
    if g == 0 {
        apply_view_action(state, action)
    } else if g == 1 {
        apply_list_action(state, action)
    } else if g == 2 {
        apply_admin_action(state, action)
    } else {
        crate::app::inspect_actions::apply_inspect_action(state, action)
    }
}

/// The screen a finding's target points at.
pub fn screen_from_target(t: ScreenTarget) -> (s: Screen)
    ensures
        s == match t {
            ScreenTarget::Dashboard => Screen::Dashboard,
            ScreenTarget::Processes => Screen::Processes,
            ScreenTarget::Services => Screen::Services,
            ScreenTarget::Logs => Screen::Logs,
            ScreenTarget::Storage => Screen::Storage,
            ScreenTarget::Diagnostics => Screen::Diagnostics,
        },
{
    match t {
        ScreenTarget::Dashboard => Screen::Dashboard,
        ScreenTarget::Processes => Screen::Processes,
        ScreenTarget::Services => Screen::Services,
        ScreenTarget::Logs => Screen::Logs,
        ScreenTarget::Storage => Screen::Storage,
        ScreenTarget::Diagnostics => Screen::Diagnostics,
    }
}

/// `n` / `N` in the log view: to the next or previous match.
fn step_match(state: &mut AppState, forward: bool) -> (fx: Vec<SideEffect>)
    ensures
        final(state).read_only == old(state).read_only,
        final(state).screen == old(state).screen,
        fx@.len() == 0,
{
    let q = current_search(&state.dialog, &state.search, state.screen);
    let next = step_log_match(
        &state.log.buffer,
        q,
        state.log.min_priority,
        state.log.match_idx,
        state.log.selected,
        forward,
    );
    if let Some(n) = next {
        state.log.match_idx = Some(n);
        state.log.selected = n;
    }
    Vec::new()
}

/// Enter on a selected directory: descend into it.
fn enter_storage_dir(state: &mut AppState)
    ensures
        final(state).read_only == old(state).read_only,
        final(state).screen == old(state).screen,
{
    let name = match &state.storage.tree {
        Some(t) => match current_storage_node(&t.root, &state.storage.cwd) {
            Some(n) => {
                let q = current_search(&state.dialog, &state.search, state.screen);
                let children = visible_storage_children(n, q);
                if state.storage.selected < children.len() && children[state.storage.selected].is_dir {
                    Some(children[state.storage.selected].name.clone())
                } else {
                    None
                }
            },
            None => None,
        },
        None => None,
    };
    if let Some(n) = name {
        state.storage.cwd.push(n);
        state.storage.selected = 0;
    }
}

/// Confirm on an open dialog: what the dialog asked for runs when Yes is
/// focused (or `yes` is given); the dialog closes either way.
/// Settings back to their defaults, and saved.
fn reset_settings(state: &mut AppState) -> (fx: Vec<SideEffect>)
    ensures
        final(state).read_only == old(state).read_only,
        final(state).dialog == old(state).dialog,
        fx@ == seq![SideEffect::SaveConfig],
{
    state.config = Config::default();
    state.terminal_profile = state.config.terminal_profile;
    state.performance_profile = state.config.performance_profile;
    status(state, ToastKind::Success, "settings reset to defaults");
    one(SideEffect::SaveConfig)
}

/// Onboarding marked done and saved; back to the dashboard.
fn complete_onboarding(state: &mut AppState) -> (fx: Vec<SideEffect>)
    ensures
        final(state).read_only == old(state).read_only,
        final(state).dialog == old(state).dialog,
        final(state).config.onboarding_completed,
        final(state).screen == Screen::Dashboard,
        fx@ == seq![SideEffect::SaveConfig],
{
    state.config.onboarding_completed = true;
    state.settings.onboarding_pending = false;
    status(state, ToastKind::Success, "onboarding completed");
    state.screen = Screen::Dashboard;
    one(SideEffect::SaveConfig)
}

#[verifier::rlimit(60)]
#[verifier::spinoff_prover]
fn confirm(state: &mut AppState, yes: bool) -> (fx: Vec<SideEffect>)
    ensures
        final(state).dialog is None,
        final(state).read_only == old(state).read_only,
        !yes && !confirm_yes(old(state).dialog) ==> fx@.len() == 0,
        fx@.len() <= 1,
        fx@ == confirm_fx(old(state).dialog, yes),
{
    let d = state.dialog.take();
    match d {
        Some(Dialog::ConfirmService { unit, action, choice }) => {
            if yes || choice == ConfirmChoice::Yes {
                one(SideEffect::ServiceAction { unit, action })
            } else {
                Vec::new()
            }
        },
        Some(Dialog::ConfirmElevation { unit, action, choice }) => {
            if yes || choice == ConfirmChoice::Yes {
                one(SideEffect::SudoServiceAction { unit, action })
            } else {
                Vec::new()
            }
        },
        Some(Dialog::ConfirmSignal { pid, signal, start_time, choice, .. }) => {
            if yes || choice == ConfirmChoice::Yes {
                one(SideEffect::SendSignal { pid, signal, start_time })
            } else {
                Vec::new()
            }
        },
        Some(Dialog::ConfirmResetSettings { choice }) => {
            if yes || choice == ConfirmChoice::Yes {
                reset_settings(state)
            } else {
                Vec::new()
            }
        },
        Some(Dialog::ConfirmCompleteOnboarding { choice }) => {
            if yes || choice == ConfirmChoice::Yes {
                complete_onboarding(state)
            } else {
                Vec::new()
            }
        },
        _ => Vec::new(),
    }
}

fn acknowledge_finding(state: &mut AppState) -> (fx: Vec<SideEffect>)
    ensures
        final(state).read_only == old(state).read_only,
        forall|i: int| 0 <= i < fx@.len() ==> fx@[i] is SavePersist,
{
    let id = {
        let q = current_search(&state.dialog, &state.search, state.screen);
        let visible = visible_findings(&state.diagnostic.findings, q);
        if state.diagnostic.selected < visible.len() {
            Some(visible[state.diagnostic.selected].id.clone())
        } else {
            None
        }
    };
    match id {
        Some(id) => {
            state.persist.acknowledge(id.as_str());
            status_with(state, "acknowledged ", id.as_str());
            one(SideEffect::SavePersist)
        },
        None => Vec::new(),
    }
}

fn follow_diagnostic_target(state: &mut AppState) -> (fx: Vec<SideEffect>)
    ensures
        final(state).read_only == old(state).read_only,
        forall|i: int| 0 <= i < fx@.len() ==> fx@[i] is RefreshLogs,
{
    let target = {
        let q = current_search(&state.dialog, &state.search, state.screen);
        let visible = visible_findings(&state.diagnostic.findings, q);
        if state.diagnostic.selected < visible.len() && visible[state.diagnostic.selected].targets.len()
            > 0 {
            let t = &visible[state.diagnostic.selected].targets[0];
            Some((t.screen, opt_string_clone(&t.search)))
        } else {
            None
        }
    };
    match target {
        Some((ts, search)) => {
            let screen = screen_from_target(ts);
            if let Some(q) = search {
                if let Some(slot) = state.search.get_mut(screen) {
                    *slot = q;
                }
            }
            state.screen = screen;
            state.searching = false;
            if screen == Screen::Logs {
                one(SideEffect::RefreshLogs { unit: opt_string_clone(&state.log.unit) })
            } else {
                Vec::new()
            }
        },
        None => Vec::new(),
    }
}

/// Changing the sort on the process list goes cpu, memory, PID, name and
/// back to cpu; on the storage screen it alternates size and name.
pub proof fn lemma_change_sort_order(o: AppState, n: AppState, fx: Seq<SideEffect>)
    requires
        action_post(o, n, AppAction::ChangeSort, fx),
    ensures
        o.screen == Screen::Processes ==> n.process.sort == match o.process.sort {
            ProcessSort::Cpu => ProcessSort::Memory,
            ProcessSort::Memory => ProcessSort::Pid,
            ProcessSort::Pid => ProcessSort::Name,
            ProcessSort::Name => ProcessSort::Cpu,
        },
        o.screen == Screen::Storage ==> n.storage.sort == match o.storage.sort {
            StorageSort::Size => StorageSort::Name,
            StorageSort::Name => StorageSort::Size,
        },
{
}

/// Four sort changes on the process list visit four different orders and
/// come back to the first.
pub proof fn lemma_change_sort_cycles(
    s0: AppState,
    s1: AppState,
    s2: AppState,
    s3: AppState,
    s4: AppState,
    f1: Seq<SideEffect>,
    f2: Seq<SideEffect>,
    f3: Seq<SideEffect>,
    f4: Seq<SideEffect>,
)
    requires
        s0.screen == Screen::Processes,
        action_post(s0, s1, AppAction::ChangeSort, f1),
        action_post(s1, s2, AppAction::ChangeSort, f2),
        action_post(s2, s3, AppAction::ChangeSort, f3),
        action_post(s3, s4, AppAction::ChangeSort, f4),
    ensures
        s4.process.sort == s0.process.sort,
        s1.process.sort != s0.process.sort,
        s2.process.sort != s0.process.sort && s2.process.sort != s1.process.sort,
        s3.process.sort != s0.process.sort && s3.process.sort != s1.process.sort && s3.process.sort
            != s2.process.sort,
{
    lemma_change_sort_order(s0, s1, f1);
    lemma_change_sort_order(s1, s2, f2);
    lemma_change_sort_order(s2, s3, f3);
    lemma_change_sort_order(s3, s4, f4);
}

} // verus!
