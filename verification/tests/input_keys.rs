use server_tui::app::action::{AppAction, ConfirmChoice, FocusPane};
use server_tui::app::input::{map_key, DialogKind, KeyPress, KeyState, CONTROL, SHIFT};
use server_tui::app::state::{current_search, search_supported, Dialog, SearchQueries};
use server_tui::app::substates::ScanState;
use server_tui::keymap::KeyCode;
use server_tui::model::screen::Screen;
use server_tui::model::storage::StorageTab;

fn state(screen: Screen) -> KeyState {
    KeyState {
        screen,
        focus: FocusPane::Nav,
        dialog: None,
        searching: false,
        search_empty: true,
        storage_tab: StorageTab::DirectoryUsage,
        storage_target_is_dir: None,
        scan_running: false,
    }
}

fn key(code: KeyCode) -> KeyPress {
    KeyPress { code, modifiers: 0 }
}

fn ch(c: char) -> KeyPress {
    key(KeyCode::Char(c))
}

#[test]
fn slash_starts_search_on_list_screens_only() {
    assert!(matches!(map_key(&state(Screen::Processes), ch('/')), Some(AppAction::Search)));
    assert!(map_key(&state(Screen::Dashboard), ch('/')).is_none());
    assert!(map_key(&state(Screen::Settings), ch('/')).is_none());
}

#[test]
fn esc_clears_a_query_before_anything_else() {
    let mut s = state(Screen::Storage);
    s.scan_running = true;
    assert!(matches!(map_key(&s, key(KeyCode::Esc)), Some(AppAction::CancelStorageScan)));
    s.search_empty = false;
    assert!(matches!(map_key(&s, key(KeyCode::Esc)), Some(AppAction::ClearSearch)));
    s.search_empty = true;
    s.scan_running = false;
    assert!(map_key(&s, key(KeyCode::Esc)).is_none());
}

#[test]
fn digits_change_screens_even_on_settings() {
    let s = state(Screen::Settings);
    let expected = [
        Screen::Dashboard,
        Screen::Processes,
        Screen::Services,
        Screen::Logs,
        Screen::Storage,
        Screen::Diagnostics,
        Screen::Settings,
    ];
    for (i, c) in ['1', '2', '3', '4', '5', '6', '7'].into_iter().enumerate() {
        match map_key(&s, ch(c)) {
            Some(AppAction::ChangeScreen(screen)) => assert_eq!(screen, expected[i]),
            other => panic!("{c}: {other:?}"),
        }
    }
    assert!(map_key(&s, ch('8')).is_none());
}

#[test]
fn quit_keys() {
    let s = state(Screen::Logs);
    assert!(matches!(map_key(&s, ch('q')), Some(AppAction::Quit)));
    assert!(matches!(
        map_key(&s, KeyPress { code: KeyCode::Char('c'), modifiers: CONTROL }),
        Some(AppAction::Quit)
    ));
    let p = state(Screen::Processes);
    assert!(matches!(map_key(&p, ch('c')), Some(AppAction::ToggleFullCommand)));
}

#[test]
fn tab_and_shift_tab_cycle_focus() {
    let s = state(Screen::Services);
    assert!(matches!(map_key(&s, key(KeyCode::Tab)), Some(AppAction::NextFocus)));
    assert!(matches!(
        map_key(&s, KeyPress { code: KeyCode::Tab, modifiers: SHIFT }),
        Some(AppAction::PrevFocus)
    ));
    assert!(matches!(map_key(&s, key(KeyCode::BackTab)), Some(AppAction::PrevFocus)));
}

#[test]
fn typing_in_search_goes_to_the_query() {
    let mut s = state(Screen::Processes);
    s.searching = true;
    assert!(matches!(map_key(&s, ch('q')), Some(AppAction::SearchInput('q'))));
    assert!(matches!(map_key(&s, ch('1')), Some(AppAction::SearchInput('1'))));
    assert!(map_key(&s, KeyPress { code: KeyCode::Char('x'), modifiers: CONTROL }).is_none());
    assert!(matches!(map_key(&s, key(KeyCode::Backspace)), Some(AppAction::SearchBackspace)));
    assert!(matches!(map_key(&s, key(KeyCode::Enter)), Some(AppAction::Search)));
    assert!(matches!(map_key(&s, key(KeyCode::Esc)), Some(AppAction::ClearSearch)));
}

#[test]
fn dialogs_take_their_own_keys() {
    let mut s = state(Screen::Processes);
    s.dialog = Some(DialogKind::Inspector);
    assert!(map_key(&s, key(KeyCode::Enter)).is_none());
    assert!(matches!(map_key(&s, key(KeyCode::PageDown)), Some(AppAction::PageDown)));
    s.dialog = Some(DialogKind::Confirm);
    assert!(matches!(map_key(&s, ch('y')), Some(AppAction::Confirm)));
    assert!(matches!(map_key(&s, ch('n')), Some(AppAction::Cancel)));
    assert!(matches!(map_key(&s, key(KeyCode::Left)), Some(AppAction::ConfirmFocusLeft)));
    assert!(map_key(&s, ch('1')).is_none());
    s.dialog = Some(DialogKind::ActionMenu);
    assert!(matches!(map_key(&s, key(KeyCode::Enter)), Some(AppAction::ActivateMenu)));
    assert!(map_key(&s, key(KeyCode::Home)).is_none());
    s.dialog = Some(DialogKind::Help);
    assert!(matches!(map_key(&s, ch('x')), Some(AppAction::Cancel)));
    s.dialog = Some(DialogKind::DiagnosticReport);
    assert!(map_key(&s, ch('x')).is_none());
    assert!(matches!(map_key(&s, key(KeyCode::Enter)), Some(AppAction::Cancel)));
}

#[test]
fn glossary_search_keys() {
    let mut search = SearchQueries::default();
    let dialog = Some(Dialog::Glossary);
    assert!(search_supported(&dialog, Screen::Dashboard));
    let s = KeyState::from_parts(
        Screen::Dashboard,
        FocusPane::Nav,
        &dialog,
        false,
        &search,
        StorageTab::Mounts,
        None,
        ScanState::Idle,
    );
    assert!(matches!(map_key(&s, ch('/')), Some(AppAction::Search)));
    assert!(matches!(map_key(&s, key(KeyCode::Esc)), Some(AppAction::Cancel)));
    search.glossary.push_str("demo");
    assert_eq!(current_search(&dialog, &search, Screen::Dashboard), "demo");
    let s = KeyState::from_parts(
        Screen::Dashboard,
        FocusPane::Nav,
        &dialog,
        false,
        &search,
        StorageTab::Mounts,
        None,
        ScanState::Idle,
    );
    assert!(matches!(map_key(&s, key(KeyCode::Esc)), Some(AppAction::ClearSearch)));
    let confirm = Some(Dialog::ConfirmResetSettings { choice: ConfirmChoice::Cancel });
    let c = KeyState::from_parts(
        Screen::Settings,
        FocusPane::Nav,
        &confirm,
        false,
        &search,
        StorageTab::Mounts,
        None,
        ScanState::Idle,
    );
    assert_eq!(c.dialog, Some(DialogKind::Confirm));
    assert!(c.search_empty);
}

#[test]
fn storage_enter_follows_the_selection() {
    let mut s = state(Screen::Storage);
    assert!(map_key(&s, key(KeyCode::Enter)).is_none());
    s.storage_target_is_dir = Some(true);
    assert!(matches!(map_key(&s, key(KeyCode::Enter)), Some(AppAction::EnterDir)));
    s.storage_target_is_dir = Some(false);
    assert!(matches!(map_key(&s, key(KeyCode::Enter)), Some(AppAction::Inspect)));
    s.storage_tab = StorageTab::LargestFiles;
    s.storage_target_is_dir = None;
    assert!(matches!(map_key(&s, key(KeyCode::Enter)), Some(AppAction::Inspect)));
    assert!(matches!(map_key(&s, ch('r')), Some(AppAction::StartStorageScan(None))));
}

#[test]
fn settings_keys_depend_on_focus() {
    let mut s = state(Screen::Settings);
    assert!(matches!(map_key(&s, key(KeyCode::Right)), Some(AppAction::NextFocus)));
    assert!(map_key(&s, key(KeyCode::Left)).is_none());
    s.focus = FocusPane::Content;
    assert!(matches!(map_key(&s, key(KeyCode::Left)), Some(AppAction::AdjustFocusedSetting(-1))));
    assert!(matches!(map_key(&s, ch(' ')), Some(AppAction::ActivateFocusedSetting)));
    assert!(matches!(map_key(&s, ch('S')), Some(AppAction::SaveSettings)));
    assert!(map_key(&s, key(KeyCode::PageDown)).is_none());
}

#[test]
fn screen_keys() {
    assert!(matches!(map_key(&state(Screen::Processes), ch('K')), Some(AppAction::SignalKill)));
    assert!(matches!(map_key(&state(Screen::Services), ch('R')), Some(AppAction::RestartService)));
    assert!(matches!(map_key(&state(Screen::Services), ch('E')), Some(AppAction::ExportContext)));
    assert!(matches!(map_key(&state(Screen::Logs), ch('[')), Some(AppAction::CycleLogPreset)));
    assert!(matches!(map_key(&state(Screen::Logs), ch('w')), Some(AppAction::ToggleWrap)));
    assert!(matches!(map_key(&state(Screen::Dashboard), ch('w')), Some(AppAction::ToggleWallboard)));
    assert!(matches!(map_key(&state(Screen::Diagnostics), ch('D')), Some(AppAction::DeepDiagnostics)));
    assert!(matches!(map_key(&state(Screen::Diagnostics), key(KeyCode::End)), Some(AppAction::End)));
    assert!(map_key(&state(Screen::Dashboard), key(KeyCode::Down)).is_none());
}
