//! Key presses to actions. Digit keys `1`–`7` always change screens;
//! Tab cycles focus into content.

use vstd::prelude::*;

use crate::app::action::AppAction;
use crate::app::action::FocusPane;
use crate::app::state::current_query;
use crate::app::state::current_search;
use crate::app::state::Dialog;
use crate::app::state::SearchQueries;
use crate::app::substates::ScanState;
use crate::keymap::KeyCode;
use crate::model::screen::screen_for_digit;
use crate::model::screen::Screen;
use crate::model::storage::StorageTab;

verus! {

/// The Shift modifier bit.
pub const SHIFT: u8 = 1;

/// The Control modifier bit.
pub const CONTROL: u8 = 2;

/// A key press: the key and its modifier bits (Shift 1, Control 2, Alt 4,
/// Super 8, Hyper 16, Meta 32).
#[derive(Debug, Clone, Copy, PartialEq, Eq, Structural)]
pub struct KeyPress {
    pub code: KeyCode,
    pub modifiers: u8,
}

/// Which kind of dialog is open; each kind has its own keys.
#[derive(Debug, Clone, Copy, PartialEq, Eq, Structural)]
pub enum DialogKind {
    ActionMenu,
    Inspector,
    /// Any Yes/Cancel confirmation.
    Confirm,
    Glossary,
    Help,
    Message,
    DiagnosticReport,
}

pub open spec fn kind_of(d: Dialog) -> DialogKind {
    match d {
        Dialog::Help => DialogKind::Help,
        Dialog::Glossary => DialogKind::Glossary,
        Dialog::ConfirmSignal { .. } => DialogKind::Confirm,
        Dialog::ConfirmService { .. } => DialogKind::Confirm,
        Dialog::ConfirmElevation { .. } => DialogKind::Confirm,
        Dialog::ConfirmResetSettings { .. } => DialogKind::Confirm,
        Dialog::ConfirmCompleteOnboarding { .. } => DialogKind::Confirm,
        Dialog::DiagnosticReport { .. } => DialogKind::DiagnosticReport,
        Dialog::Message { .. } => DialogKind::Message,
        Dialog::Inspector { .. } => DialogKind::Inspector,
        Dialog::ActionMenu { .. } => DialogKind::ActionMenu,
    }
}

pub fn dialog_kind(d: &Dialog) -> (k: DialogKind)
    ensures
        k == kind_of(*d),
{
    match d {
        Dialog::Help => DialogKind::Help,
        Dialog::Glossary => DialogKind::Glossary,
        Dialog::ConfirmSignal { .. } => DialogKind::Confirm,
        Dialog::ConfirmService { .. } => DialogKind::Confirm,
        Dialog::ConfirmElevation { .. } => DialogKind::Confirm,
        Dialog::ConfirmResetSettings { .. } => DialogKind::Confirm,
        Dialog::ConfirmCompleteOnboarding { .. } => DialogKind::Confirm,
        Dialog::DiagnosticReport { .. } => DialogKind::DiagnosticReport,
        Dialog::Message { .. } => DialogKind::Message,
        Dialog::Inspector { .. } => DialogKind::Inspector,
        Dialog::ActionMenu { .. } => DialogKind::ActionMenu,
    }
}

/// What key handling reads of the application state.
#[derive(Debug, Clone, Copy)]
pub struct KeyState {
    pub screen: Screen,
    pub focus: FocusPane,
    pub dialog: Option<DialogKind>,
    /// A search query is being typed.
    pub searching: bool,
    /// The current query (the glossary's while it is open, else the
    /// screen's) is empty.
    pub search_empty: bool,
    pub storage_tab: StorageTab,
    /// Whether the selected visible storage entry is a directory; `None`
    /// when nothing is selected.
    pub storage_target_is_dir: Option<bool>,
    /// A storage scan is running.
    pub scan_running: bool,
}

impl KeyState {
    /// What key handling reads, taken from the screen, the focused pane, the
    /// open dialog, the search queries and the storage screen's state.
    pub fn from_parts(
        screen: Screen,
        focus: FocusPane,
        dialog: &Option<Dialog>,
        searching: bool,
        search: &SearchQueries,
        storage_tab: StorageTab,
        storage_target_is_dir: Option<bool>,
        scan_state: ScanState,
    ) -> (s: KeyState)
        ensures
            s.screen == screen,
            s.focus == focus,
            s.dialog == (match *dialog {
                Some(d) => Some(kind_of(d)),
                None => None,
            }),
            s.searching == searching,
            s.search_empty == (current_query(*dialog, *search, screen).len() == 0),
            s.storage_tab == storage_tab,
            s.storage_target_is_dir == storage_target_is_dir,
            s.scan_running == (scan_state == ScanState::Running),
    {
        let kind = match dialog {
            Some(d) => Some(dialog_kind(d)),
            None => None,
        };
        let q = current_search(dialog, search, screen);
        KeyState {
            screen,
            focus,
            dialog: kind,
            searching,
            search_empty: q.is_empty(),
            storage_tab,
            storage_target_is_dir,
            scan_running: scan_state == ScanState::Running,
        }
    }
}

/// Up and down: the arrows, or `k` and `j`.
pub open spec fn up_down(code: KeyCode) -> Option<AppAction> {
    match code {
        KeyCode::Up | KeyCode::Char('k') => Some(AppAction::MoveUp),
        KeyCode::Down | KeyCode::Char('j') => Some(AppAction::MoveDown),
        _ => None,
    }
}

fn up_down_key(code: KeyCode) -> (r: Option<AppAction>)
    ensures
        r == up_down(code),
{
    match code {
        KeyCode::Up | KeyCode::Char('k') => Some(AppAction::MoveUp),
        KeyCode::Down | KeyCode::Char('j') => Some(AppAction::MoveDown),
        _ => None,
    }
}

/// The movement keys of a list: up and down, and, where `paging`, Page
/// Up/Down; Home and End.
pub open spec fn list_nav(code: KeyCode, paging: bool) -> Option<AppAction> {
    match code {
        KeyCode::Up | KeyCode::Char('k') | KeyCode::Down | KeyCode::Char('j') => up_down(code),
        KeyCode::PageUp => if paging {
            Some(AppAction::PageUp)
        } else {
            None
        },
        KeyCode::PageDown => if paging {
            Some(AppAction::PageDown)
        } else {
            None
        },
        KeyCode::Home => Some(AppAction::Home),
        KeyCode::End => Some(AppAction::End),
        _ => None,
    }
}

fn nav_key(code: KeyCode, paging: bool) -> (r: Option<AppAction>)
    ensures
        r == list_nav(code, paging),
{
    match code {
        KeyCode::Up | KeyCode::Char('k') | KeyCode::Down | KeyCode::Char('j') => up_down_key(code),
        KeyCode::PageUp => if paging {
            Some(AppAction::PageUp)
        } else {
            None
        },
        KeyCode::PageDown => if paging {
            Some(AppAction::PageDown)
        } else {
            None
        },
        KeyCode::Home => Some(AppAction::Home),
        KeyCode::End => Some(AppAction::End),
        _ => None,
    }
}

/// Keys while a query is typed: characters (without Control) go into it.
pub open spec fn search_key_action(key: KeyPress) -> Option<AppAction> {
    match key.code {
        KeyCode::Esc => Some(AppAction::ClearSearch),
        KeyCode::Enter => Some(AppAction::Search),
        KeyCode::Backspace => Some(AppAction::SearchBackspace),
        KeyCode::Char(c) => if key.modifiers & CONTROL == 0 {
            Some(AppAction::SearchInput(c))
        } else {
            None
        },
        _ => None,
    }
}

pub fn map_search_key(key: KeyPress) -> (r: Option<AppAction>)
    ensures
        r == search_key_action(key),
{
    match key.code {
        KeyCode::Esc => Some(AppAction::ClearSearch),
        KeyCode::Enter => Some(AppAction::Search),
        KeyCode::Backspace => Some(AppAction::SearchBackspace),
        KeyCode::Char(c) => if key.modifiers & CONTROL == 0 {
            Some(AppAction::SearchInput(c))
        } else {
            None
        },
        _ => None,
    }
}

/// Keys in an open dialog.
pub open spec fn dialog_key_action(s: KeyState, kind: DialogKind, key: KeyPress) -> Option<AppAction> {
    let code = key.code;
    match kind {
        DialogKind::ActionMenu => match code {
            KeyCode::Esc | KeyCode::Char('q') => Some(AppAction::Cancel),
            KeyCode::Enter => Some(AppAction::ActivateMenu),
            _ => up_down(code),
        },
        DialogKind::Inspector => match code {
            KeyCode::Esc | KeyCode::Char('q') => Some(AppAction::Cancel),
            _ => list_nav(code, true),
        },
        DialogKind::Confirm => match code {
            KeyCode::Esc | KeyCode::Char('q') | KeyCode::Char('n') => Some(AppAction::Cancel),
            KeyCode::Char('y') | KeyCode::Enter => Some(AppAction::Confirm),
            KeyCode::Left | KeyCode::BackTab => Some(AppAction::ConfirmFocusLeft),
            KeyCode::Right | KeyCode::Tab => Some(AppAction::ConfirmFocusRight),
            _ => None,
        },
        DialogKind::Glossary => if s.searching {
            search_key_action(key)
        } else {
            match code {
                KeyCode::Esc => if !s.search_empty {
                    Some(AppAction::ClearSearch)
                } else {
                    Some(AppAction::Cancel)
                },
                KeyCode::Char('q') | KeyCode::Char('g') => Some(AppAction::Cancel),
                KeyCode::Char('/') => Some(AppAction::Search),
                _ => list_nav(code, true),
            }
        },
        DialogKind::Help | DialogKind::Message => Some(AppAction::Cancel),
        DialogKind::DiagnosticReport => match code {
            KeyCode::Esc | KeyCode::Char('q') | KeyCode::Enter => Some(AppAction::Cancel),
            _ => None,
        },
    }
}

pub fn map_dialog_key(s: &KeyState, kind: DialogKind, key: KeyPress) -> (r: Option<AppAction>)
    ensures
        r == dialog_key_action(*s, kind, key),
{
    let code = key.code;
    match kind {
        DialogKind::ActionMenu => match code {
            KeyCode::Esc | KeyCode::Char('q') => Some(AppAction::Cancel),
            KeyCode::Enter => Some(AppAction::ActivateMenu),
            _ => up_down_key(code),
        },
        DialogKind::Inspector => match code {
            KeyCode::Esc | KeyCode::Char('q') => Some(AppAction::Cancel),
            _ => nav_key(code, true),
        },
        DialogKind::Confirm => match code {
            KeyCode::Esc | KeyCode::Char('q') | KeyCode::Char('n') => Some(AppAction::Cancel),
            KeyCode::Char('y') | KeyCode::Enter => Some(AppAction::Confirm),
            KeyCode::Left | KeyCode::BackTab => Some(AppAction::ConfirmFocusLeft),
            KeyCode::Right | KeyCode::Tab => Some(AppAction::ConfirmFocusRight),
            _ => None,
        },
        DialogKind::Glossary => if s.searching {
            map_search_key(key)
        } else {
            match code {
                KeyCode::Esc => if !s.search_empty {
                    Some(AppAction::ClearSearch)
                } else {
                    Some(AppAction::Cancel)
                },
                KeyCode::Char('q') | KeyCode::Char('g') => Some(AppAction::Cancel),
                KeyCode::Char('/') => Some(AppAction::Search),
                _ => nav_key(code, true),
            }
        },
        DialogKind::Help | DialogKind::Message => Some(AppAction::Cancel),
        DialogKind::DiagnosticReport => match code {
            KeyCode::Esc | KeyCode::Char('q') | KeyCode::Enter => Some(AppAction::Cancel),
            _ => None,
        },
    }
}

/// Keys on the dashboard.
pub open spec fn dashboard_action(code: KeyCode) -> Option<AppAction> {
    match code {
        KeyCode::Char('r') => Some(AppAction::Refresh),
        KeyCode::Char('w') => Some(AppAction::ToggleWallboard),
        KeyCode::Enter => Some(AppAction::Inspect),
        _ => None,
    }
}

pub fn map_dashboard(code: KeyCode) -> (r: Option<AppAction>)
    ensures
        r == dashboard_action(code),
{
    match code {
        KeyCode::Char('r') => Some(AppAction::Refresh),
        KeyCode::Char('w') => Some(AppAction::ToggleWallboard),
        KeyCode::Enter => Some(AppAction::Inspect),
        _ => None,
    }
}

/// Keys on the process list.
pub open spec fn processes_action(code: KeyCode) -> Option<AppAction> {
    match code {
        KeyCode::Char('s') => Some(AppAction::ChangeSort),
        KeyCode::Char('c') => Some(AppAction::ToggleFullCommand),
        KeyCode::Char('r') => Some(AppAction::Refresh),
        KeyCode::Char('t') => Some(AppAction::SignalTerm),
        KeyCode::Char('K') => Some(AppAction::SignalKill),
        KeyCode::Char('z') => Some(AppAction::SignalStop),
        KeyCode::Char('Z') => Some(AppAction::SignalCont),
        KeyCode::Enter => Some(AppAction::Inspect),
        KeyCode::Char('m') => Some(AppAction::OpenActionMenu),
        KeyCode::Char('e') => Some(AppAction::ExportContext),
        KeyCode::Char('F') => Some(AppAction::ToggleProcessFollow),
        KeyCode::Char('T') => Some(AppAction::ToggleProcessTree),
        _ => list_nav(code, true),
    }
}

pub fn map_processes(code: KeyCode) -> (r: Option<AppAction>)
    ensures
        r == processes_action(code),
{
    match code {
        KeyCode::Char('s') => Some(AppAction::ChangeSort),
        KeyCode::Char('c') => Some(AppAction::ToggleFullCommand),
        KeyCode::Char('r') => Some(AppAction::Refresh),
        KeyCode::Char('t') => Some(AppAction::SignalTerm),
        KeyCode::Char('K') => Some(AppAction::SignalKill),
        KeyCode::Char('z') => Some(AppAction::SignalStop),
        KeyCode::Char('Z') => Some(AppAction::SignalCont),
        KeyCode::Enter => Some(AppAction::Inspect),
        KeyCode::Char('m') => Some(AppAction::OpenActionMenu),
        KeyCode::Char('e') => Some(AppAction::ExportContext),
        KeyCode::Char('F') => Some(AppAction::ToggleProcessFollow),
        KeyCode::Char('T') => Some(AppAction::ToggleProcessTree),
        _ => nav_key(code, true),
    }
}

/// Keys on the service list.
pub open spec fn services_action(code: KeyCode) -> Option<AppAction> {
    match code {
        KeyCode::Enter => Some(AppAction::Inspect),
        KeyCode::Char('m') => Some(AppAction::OpenActionMenu),
        KeyCode::Char('E') => Some(AppAction::ExportContext),
        KeyCode::Char('s') => Some(AppAction::StartService),
        KeyCode::Char('x') => Some(AppAction::StopService),
        KeyCode::Char('r') => Some(AppAction::Refresh),
        KeyCode::Char('R') => Some(AppAction::RestartService),
        KeyCode::Char('u') => Some(AppAction::ReloadService),
        KeyCode::Char('e') => Some(AppAction::EnableService),
        KeyCode::Char('d') => Some(AppAction::DisableService),
        KeyCode::Char('l') => Some(AppAction::OpenLogsForSelected),
        KeyCode::Char('f') => Some(AppAction::ToggleFailedOnly),
        _ => list_nav(code, true),
    }
}

pub fn map_services(code: KeyCode) -> (r: Option<AppAction>)
    ensures
        r == services_action(code),
{
    match code {
        KeyCode::Enter => Some(AppAction::Inspect),
        KeyCode::Char('m') => Some(AppAction::OpenActionMenu),
        KeyCode::Char('E') => Some(AppAction::ExportContext),
        KeyCode::Char('s') => Some(AppAction::StartService),
        KeyCode::Char('x') => Some(AppAction::StopService),
        KeyCode::Char('r') => Some(AppAction::Refresh),
        KeyCode::Char('R') => Some(AppAction::RestartService),
        KeyCode::Char('u') => Some(AppAction::ReloadService),
        KeyCode::Char('e') => Some(AppAction::EnableService),
        KeyCode::Char('d') => Some(AppAction::DisableService),
        KeyCode::Char('l') => Some(AppAction::OpenLogsForSelected),
        KeyCode::Char('f') => Some(AppAction::ToggleFailedOnly),
        _ => nav_key(code, true),
    }
}

/// Keys on the log view.
pub open spec fn logs_action(code: KeyCode) -> Option<AppAction> {
    match code {
        KeyCode::Char('f') => Some(AppAction::ToggleFollow),
        KeyCode::Char('n') => Some(AppAction::NextMatch),
        KeyCode::Char('N') => Some(AppAction::PrevMatch),
        KeyCode::Char('p') => Some(AppAction::ChangePriority),
        KeyCode::Char('w') => Some(AppAction::ToggleWrap),
        KeyCode::Char('r') => Some(AppAction::Refresh),
        KeyCode::Char('[') => Some(AppAction::CycleLogPreset),
        KeyCode::Enter => Some(AppAction::Inspect),
        KeyCode::Char('e') => Some(AppAction::ExportContext),
        KeyCode::Char('m') => Some(AppAction::OpenActionMenu),
        _ => list_nav(code, true),
    }
}

pub fn map_logs(code: KeyCode) -> (r: Option<AppAction>)
    ensures
        r == logs_action(code),
{
    match code {
        KeyCode::Char('f') => Some(AppAction::ToggleFollow),
        KeyCode::Char('n') => Some(AppAction::NextMatch),
        KeyCode::Char('N') => Some(AppAction::PrevMatch),
        KeyCode::Char('p') => Some(AppAction::ChangePriority),
        KeyCode::Char('w') => Some(AppAction::ToggleWrap),
        KeyCode::Char('r') => Some(AppAction::Refresh),
        KeyCode::Char('[') => Some(AppAction::CycleLogPreset),
        KeyCode::Enter => Some(AppAction::Inspect),
        KeyCode::Char('e') => Some(AppAction::ExportContext),
        KeyCode::Char('m') => Some(AppAction::OpenActionMenu),
        _ => nav_key(code, true),
    }
}

/// Enter on the storage screen: into a selected directory, else inspect.
pub open spec fn storage_enter(s: KeyState) -> Option<AppAction> {
    if s.storage_tab == StorageTab::DirectoryUsage {
        match s.storage_target_is_dir {
            Some(true) => Some(AppAction::EnterDir),
            Some(false) => Some(AppAction::Inspect),
            None => None,
        }
    } else {
        Some(AppAction::Inspect)
    }
}

/// Keys on the storage screen.
pub open spec fn storage_action(s: KeyState, code: KeyCode) -> Option<AppAction> {
    match code {
        KeyCode::Enter => storage_enter(s),
        KeyCode::Backspace => Some(AppAction::ParentDir),
        KeyCode::Char('s') => Some(AppAction::ChangeSort),
        KeyCode::Char('a') => Some(AppAction::ToggleApparentSize),
        KeyCode::Char('x') => Some(AppAction::ToggleStayOnFs),
        KeyCode::Char('r') => Some(AppAction::StartStorageScan(None)),
        KeyCode::Char('t') => Some(AppAction::CycleStorageTab),
        KeyCode::Char('e') => Some(AppAction::ExportContext),
        KeyCode::Char('m') => Some(AppAction::OpenActionMenu),
        KeyCode::Esc => if s.scan_running {
            Some(AppAction::CancelStorageScan)
        } else {
            None
        },
        _ => list_nav(code, true),
    }
}

pub fn map_storage(s: &KeyState, code: KeyCode) -> (r: Option<AppAction>)
    ensures
        r == storage_action(*s, code),
{
    match code {
        KeyCode::Enter => {
            if s.storage_tab == StorageTab::DirectoryUsage {
                match s.storage_target_is_dir {
                    Some(true) => Some(AppAction::EnterDir),
                    Some(false) => Some(AppAction::Inspect),
                    None => None,
                }
            } else {
                Some(AppAction::Inspect)
            }
        },
        KeyCode::Backspace => Some(AppAction::ParentDir),
        KeyCode::Char('s') => Some(AppAction::ChangeSort),
        KeyCode::Char('a') => Some(AppAction::ToggleApparentSize),
        KeyCode::Char('x') => Some(AppAction::ToggleStayOnFs),
        KeyCode::Char('r') => Some(AppAction::StartStorageScan(None)),
        KeyCode::Char('t') => Some(AppAction::CycleStorageTab),
        KeyCode::Char('e') => Some(AppAction::ExportContext),
        KeyCode::Char('m') => Some(AppAction::OpenActionMenu),
        KeyCode::Esc => if s.scan_running {
            Some(AppAction::CancelStorageScan)
        } else {
            None
        },
        _ => nav_key(code, true),
    }
}

/// Keys on the settings screen: in the options pane, left and right adjust
/// and Space or Enter activate; from the sections pane, right, Space or
/// Enter move into the options.
pub open spec fn settings_action(s: KeyState, code: KeyCode) -> Option<AppAction> {
    let content = s.focus == FocusPane::Content;
    let nav = s.focus == FocusPane::Nav;
    match code {
        KeyCode::Left => if content {
            Some(AppAction::AdjustFocusedSetting(-1i8))
        } else {
            None
        },
        KeyCode::Right => if content {
            Some(AppAction::AdjustFocusedSetting(1i8))
        } else if nav {
            Some(AppAction::NextFocus)
        } else {
            None
        },
        KeyCode::Char(' ') | KeyCode::Enter => if content {
            Some(AppAction::ActivateFocusedSetting)
        } else if nav {
            Some(AppAction::NextFocus)
        } else {
            None
        },
        KeyCode::Char('r') => Some(AppAction::Refresh),
        KeyCode::Char('S') => Some(AppAction::SaveSettings),
        _ => list_nav(code, false),
    }
}

pub fn map_settings(s: &KeyState, code: KeyCode) -> (r: Option<AppAction>)
    ensures
        r == settings_action(*s, code),
{
    let content = s.focus == FocusPane::Content;
    let nav = s.focus == FocusPane::Nav;
    match code {
        KeyCode::Left => if content {
            Some(AppAction::AdjustFocusedSetting(-1))
        } else {
            None
        },
        KeyCode::Right => if content {
            Some(AppAction::AdjustFocusedSetting(1))
        } else if nav {
            Some(AppAction::NextFocus)
        } else {
            None
        },
        KeyCode::Char(' ') | KeyCode::Enter => if content {
            Some(AppAction::ActivateFocusedSetting)
        } else if nav {
            Some(AppAction::NextFocus)
        } else {
            None
        },
        KeyCode::Char('r') => Some(AppAction::Refresh),
        KeyCode::Char('S') => Some(AppAction::SaveSettings),
        _ => nav_key(code, false),
    }
}

/// Keys on the diagnostics screen.
pub open spec fn diagnostics_action(code: KeyCode) -> Option<AppAction> {
    match code {
        KeyCode::Char('r') => Some(AppAction::Refresh),
        KeyCode::Char('o') => Some(AppAction::OpenDiagnosticReport),
        KeyCode::Char('a') => Some(AppAction::AcknowledgeFinding),
        KeyCode::Char('D') => Some(AppAction::DeepDiagnostics),
        KeyCode::Enter => Some(AppAction::Inspect),
        KeyCode::Char('f') => Some(AppAction::FollowDiagnosticTarget),
        KeyCode::Char('m') => Some(AppAction::OpenActionMenu),
        KeyCode::Char('e') => Some(AppAction::ExportContext),
        _ => list_nav(code, true),
    }
}

pub fn map_diagnostics(code: KeyCode) -> (r: Option<AppAction>)
    ensures
        r == diagnostics_action(code),
{
    match code {
        KeyCode::Char('r') => Some(AppAction::Refresh),
        KeyCode::Char('o') => Some(AppAction::OpenDiagnosticReport),
        KeyCode::Char('a') => Some(AppAction::AcknowledgeFinding),
        KeyCode::Char('D') => Some(AppAction::DeepDiagnostics),
        KeyCode::Enter => Some(AppAction::Inspect),
        KeyCode::Char('f') => Some(AppAction::FollowDiagnosticTarget),
        KeyCode::Char('m') => Some(AppAction::OpenActionMenu),
        KeyCode::Char('e') => Some(AppAction::ExportContext),
        _ => nav_key(code, true),
    }
}

/// The screen's own keys.
pub open spec fn screen_action(s: KeyState, code: KeyCode) -> Option<AppAction> {
    match s.screen {
        Screen::Dashboard => dashboard_action(code),
        Screen::Processes => processes_action(code),
        Screen::Services => services_action(code),
        Screen::Logs => logs_action(code),
        Screen::Storage => storage_action(s, code),
        Screen::Diagnostics => diagnostics_action(code),
        Screen::Settings => settings_action(s, code),
    }
}

/// Keys that work on every screen, checked before the screen's own.
pub open spec fn global_action(s: KeyState, key: KeyPress) -> Option<AppAction> {
    match key.code {
        KeyCode::Char('c') => if key.modifiers == CONTROL {
            Some(AppAction::Quit)
        } else {
            None
        },
        KeyCode::Char('q') => Some(AppAction::Quit),
        KeyCode::Char('?') => Some(AppAction::ToggleHelp),
        KeyCode::Char('g') => Some(AppAction::ToggleGlossary),
        KeyCode::Char('w') => if s.screen == Screen::Dashboard {
            Some(AppAction::ToggleWallboard)
        } else {
            None
        },
        KeyCode::Tab => if key.modifiers == SHIFT {
            Some(AppAction::PrevFocus)
        } else {
            Some(AppAction::NextFocus)
        },
        KeyCode::BackTab => Some(AppAction::PrevFocus),
        KeyCode::Char('/') => if !(s.screen == Screen::Dashboard || s.screen == Screen::Settings) {
            Some(AppAction::Search)
        } else {
            None
        },
        KeyCode::Esc => if !s.search_empty {
            Some(AppAction::ClearSearch)
        } else {
            None
        },
        _ => None,
    }
}

/// The action for a key press: the open dialog's keys; else, while a
/// query is typed, the search keys; else the global keys, then the screen
/// digits, then the screen's own keys.
pub open spec fn key_action(s: KeyState, key: KeyPress) -> Option<AppAction> {
    match s.dialog {
        Some(kind) => dialog_key_action(s, kind, key),
        None => if s.searching {
            search_key_action(key)
        } else if global_action(s, key) is Some {
            global_action(s, key)
        } else {
            match key.code {
                KeyCode::Char(c) => match screen_for_digit(c) {
                    Some(screen) => Some(AppAction::ChangeScreen(screen)),
                    None => screen_action(s, key.code),
                },
                _ => screen_action(s, key.code),
            }
        },
    }
}

fn map_global(s: &KeyState, key: KeyPress) -> (r: Option<AppAction>)
    ensures
        r == global_action(*s, key),
{
    match key.code {
        KeyCode::Char('c') => if key.modifiers == CONTROL {
            Some(AppAction::Quit)
        } else {
            None
        },
        KeyCode::Char('q') => Some(AppAction::Quit),
        KeyCode::Char('?') => Some(AppAction::ToggleHelp),
        KeyCode::Char('g') => Some(AppAction::ToggleGlossary),
        KeyCode::Char('w') => if s.screen == Screen::Dashboard {
            Some(AppAction::ToggleWallboard)
        } else {
            None
        },
        KeyCode::Tab => if key.modifiers == SHIFT {
            Some(AppAction::PrevFocus)
        } else {
            Some(AppAction::NextFocus)
        },
        KeyCode::BackTab => Some(AppAction::PrevFocus),
        KeyCode::Char('/') => if s.screen.supports_search() {
            Some(AppAction::Search)
        } else {
            None
        },
        KeyCode::Esc => if !s.search_empty {
            Some(AppAction::ClearSearch)
        } else {
            None
        },
        _ => None,
    }
}

pub fn map_key(s: &KeyState, key: KeyPress) -> (r: Option<AppAction>)
    ensures
        r == key_action(*s, key),
{
    if let Some(kind) = s.dialog {
        return map_dialog_key(s, kind, key);
    }
    if s.searching {
        return map_search_key(key);
    }
    let g = map_global(s, key);
    if g.is_some() {
        return g;
    }
    if let KeyCode::Char(c) = key.code {
        if let Some(screen) = Screen::from_digit(c) {
            return Some(AppAction::ChangeScreen(screen));
        }
    }
    match s.screen {
        Screen::Dashboard => map_dashboard(key.code),
        Screen::Processes => map_processes(key.code),
        Screen::Services => map_services(key.code),
        Screen::Logs => map_logs(key.code),
        Screen::Storage => map_storage(s, key.code),
        Screen::Diagnostics => map_diagnostics(key.code),
        Screen::Settings => map_settings(s, key.code),
    }
}

/// With no dialog open and no query being typed, the digits `1`–`7` change
/// to their screen on every screen, Settings included.
pub proof fn lemma_digits_change_screen(s: KeyState, key: KeyPress, c: char)
    requires
        s.dialog is None,
        !s.searching,
        key.code == KeyCode::Char(c),
        screen_for_digit(c) is Some,
    ensures
        key_action(s, key) == Some(AppAction::ChangeScreen(screen_for_digit(c)->0)),
{
}

/// With no dialog open and no query being typed, `q` quits.
pub proof fn lemma_q_quits(s: KeyState, key: KeyPress)
    requires
        s.dialog is None,
        !s.searching,
        key.code == KeyCode::Char('q'),
    ensures
        key_action(s, key) == Some(AppAction::Quit),
{
}

/// While a query is typed, every character without Control goes into the
/// query and triggers no command.
pub proof fn lemma_typing_goes_to_search(s: KeyState, key: KeyPress, c: char)
    requires
        s.dialog is None,
        s.searching,
        key.code == KeyCode::Char(c),
        key.modifiers & CONTROL == 0,
    ensures
        key_action(s, key) == Some(AppAction::SearchInput(c)),
{
}

/// Enter never closes an inspector.
pub proof fn lemma_enter_keeps_inspector(s: KeyState, key: KeyPress)
    requires
        s.dialog == Some(DialogKind::Inspector),
        key.code == KeyCode::Enter,
    ensures
        key_action(s, key) is None,
{
}

/// In a confirmation dialog only `y` and Enter confirm; Esc, `q` and `n`
/// cancel.
pub proof fn lemma_confirm_keys(s: KeyState, key: KeyPress)
    requires
        s.dialog == Some(DialogKind::Confirm),
    ensures
        key_action(s, key) == Some(AppAction::Confirm) <==> (key.code == KeyCode::Char('y')
            || key.code == KeyCode::Enter),
        (key.code == KeyCode::Esc || key.code == KeyCode::Char('q') || key.code == KeyCode::Char(
            'n',
        )) ==> key_action(s, key) == Some(AppAction::Cancel),
{
}

/// A search can start only where there is a list to filter: `/` does
/// nothing on the dashboard and on the settings screen.
pub proof fn lemma_no_search_without_list(s: KeyState, key: KeyPress)
    requires
        s.dialog is None,
        !s.searching,
        key.code == KeyCode::Char('/'),
        s.screen == Screen::Dashboard || s.screen == Screen::Settings,
    ensures
        key_action(s, key) is None,
{
}

/// On the log view, with no dialog open and no search being typed, `n`
/// steps to the next match and `N` to the previous one, whatever modifier
/// bits come with the key and whatever else the state holds.
pub proof fn lemma_log_match_keys(s: KeyState, modifiers: u8)
    requires
        s.screen == Screen::Logs,
        s.dialog is None,
        !s.searching,
    ensures
        key_action(s, KeyPress { code: KeyCode::Char('n'), modifiers }) == Some(AppAction::NextMatch),
        key_action(s, KeyPress { code: KeyCode::Char('N'), modifiers }) == Some(AppAction::PrevMatch),
{
}

} // verus!
