//! Per-screen state shared by the screens' lists.

use vstd::prelude::*;

verus! {

/// Where a storage scan stands.
#[derive(Debug, Clone, Copy, PartialEq, Eq, Structural)]
pub enum ScanState {
    Idle,
    Running,
    Cancelled,
    Finished,
}

/// The Settings screen: focused section and row, and whether the first-run
/// walkthrough is still pending.
#[derive(Debug)]
pub struct SettingsState {
    pub section: usize,
    pub selected: usize,
    pub onboarding_pending: bool,
    /// How many sections the settings screen lists.
    pub sections: usize,
}

impl Default for SettingsState {
    fn default() -> (s: Self)
        ensures
            s.section == 0,
            s.selected == 0,
            !s.onboarding_pending,
            s.sections == 0,
    {
        SettingsState { section: 0, selected: 0, onboarding_pending: false, sections: 0 }
    }
}

} // verus!
