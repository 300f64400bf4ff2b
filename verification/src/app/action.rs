//! Typed application actions produced by input mapping.

use vstd::prelude::*;

use crate::model::process::ProcessSignal;
use crate::model::screen::Screen;
use crate::model::service::ServiceActionKind;
use crate::settings::SettingId;

verus! {

#[derive(Debug, Clone, Copy, PartialEq, Eq, Structural)]
pub enum FocusPane {
    Nav,
    Content,
    Details,
}

/// Focused button in a Yes/Cancel confirmation dialog; Cancel by default
/// (the safer choice).
#[derive(Debug, Clone, Copy, PartialEq, Eq, Structural)]
pub enum ConfirmChoice {
    Yes,
    Cancel,
}

impl Default for ConfirmChoice {
    fn default() -> (c: Self)
        ensures
            c == ConfirmChoice::Cancel,
    {
        ConfirmChoice::Cancel
    }
}

impl ConfirmChoice {
    pub open spec fn other(self) -> Self {
        match self {
            ConfirmChoice::Yes => ConfirmChoice::Cancel,
            ConfirmChoice::Cancel => ConfirmChoice::Yes,
        }
    }

    /// The other button.
    pub fn toggle(self) -> (r: Self)
        ensures
            r == self.other(),
            r != self,
    {
        match self {
            ConfirmChoice::Yes => ConfirmChoice::Cancel,
            ConfirmChoice::Cancel => ConfirmChoice::Yes,
        }
    }
}

/// Toggling twice gives the same button back.
pub proof fn lemma_toggle_twice(c: ConfirmChoice)
    ensures
        c.other().other() == c,
{
}

#[derive(Debug, Clone)]
pub enum AppAction {
    ChangeScreen(Screen),
    Refresh,
    MoveUp,
    MoveDown,
    PageUp,
    PageDown,
    Home,
    End,
    NextFocus,
    PrevFocus,
    Search,
    ClearSearch,
    SearchInput(char),
    SearchBackspace,
    ChangeSort,
    ToggleFullCommand,
    ToggleFailedOnly,
    ToggleFollow,
    NextMatch,
    PrevMatch,
    ChangePriority,
    ToggleWrap,
    ToggleApparentSize,
    ToggleStayOnFs,
    EnterDir,
    ParentDir,
    StartService,
    StopService,
    RestartService,
    ReloadService,
    EnableService,
    DisableService,
    OpenLogsForSelected,
    SignalTerm,
    SignalKill,
    /// A scan of the given path (as text), or of the configured one.
    StartStorageScan(Option<String>),
    CancelStorageScan,
    Confirm,
    /// Explicit affirmative confirmation, independent of focused button.
    ConfirmYes,
    Cancel,
    ConfirmFocusLeft,
    ConfirmFocusRight,
    ToggleHelp,
    ToggleGlossary,
    ToggleWallboard,
    OpenActionMenu,
    Inspect,
    CycleLogPreset,
    CycleStorageTab,
    DeepDiagnostics,
    ResetSettings,
    SettingsMove,
    OpenDiagnosticReport,
    AcknowledgeFinding,
    FollowDiagnosticTarget,
    SignalStop,
    SignalCont,
    ExportContext,
    ActivateMenu,
    MenuSelect,
    ToggleProcessTree,
    ToggleProcessFollow,
    CompleteOnboarding,
    SaveSettings,
    CycleTerminalProfile,
    CyclePerformanceProfile,
    ToggleSetting(SettingId),
    /// Space / Enter on the focused Settings row.
    ActivateFocusedSetting,
    /// Left/right on a cycle row (or a checkbox set off/on); negative is left.
    AdjustFocusedSetting(i8),
    CleanupReportsNow,
    Quit,
    /// Signal to send once confirmed.
    ExecuteSignal { pid: u32, signal: ProcessSignal, start_time: u64 },
    /// Unit action to run once confirmed.
    ExecuteService { unit: String, action: ServiceActionKind },
}

} // verus!
