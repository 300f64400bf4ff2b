//! Navigation screens shared by app update and diagnostic deep-links.

use vstd::prelude::*;

use crate::text::ascii_lower_seq;

verus! {

#[derive(Debug, Clone, Copy, PartialEq, Eq, Structural)]
pub enum Screen {
    Dashboard,
    Processes,
    Services,
    Logs,
    Storage,
    Diagnostics,
    Settings,
}

/// The screen a digit key selects: '1' to '7' in navigation order.
pub open spec fn screen_for_digit(c: char) -> Option<Screen> {
    if c == '1' {
        Some(Screen::Dashboard)
    } else if c == '2' {
        Some(Screen::Processes)
    } else if c == '3' {
        Some(Screen::Services)
    } else if c == '4' {
        Some(Screen::Logs)
    } else if c == '5' {
        Some(Screen::Storage)
    } else if c == '6' {
        Some(Screen::Diagnostics)
    } else if c == '7' {
        Some(Screen::Settings)
    } else {
        None
    }
}

/// The seven screens in navigation order.
pub open spec fn all_screens() -> Seq<Screen> {
    seq![
        Screen::Dashboard,
        Screen::Processes,
        Screen::Services,
        Screen::Logs,
        Screen::Storage,
        Screen::Diagnostics,
        Screen::Settings,
    ]
}

impl Screen {
    pub fn from_digit(c: char) -> (r: Option<Screen>)
        ensures
            r == screen_for_digit(c),
    {
        if c == '1' {
            Some(Screen::Dashboard)
        } else if c == '2' {
            Some(Screen::Processes)
        } else if c == '3' {
            Some(Screen::Services)
        } else if c == '4' {
            Some(Screen::Logs)
        } else if c == '5' {
            Some(Screen::Storage)
        } else if c == '6' {
            Some(Screen::Diagnostics)
        } else if c == '7' {
            Some(Screen::Settings)
        } else {
            None
        }
    }

    pub open spec fn label_text(self) -> Seq<char> {
        match self {
            Screen::Dashboard => "Dashboard"@,
            Screen::Processes => "Processes"@,
            Screen::Services => "Services"@,
            Screen::Logs => "Logs"@,
            Screen::Storage => "Storage"@,
            Screen::Diagnostics => "Diagnostics"@,
            Screen::Settings => "Settings"@,
        }
    }

    /// Title-case chrome label.
    pub fn label(self) -> (s: &'static str)
        ensures
            s@ == self.label_text(),
    {
        match self {
            Screen::Dashboard => "Dashboard",
            Screen::Processes => "Processes",
            Screen::Services => "Services",
            Screen::Logs => "Logs",
            Screen::Storage => "Storage",
            Screen::Diagnostics => "Diagnostics",
            Screen::Settings => "Settings",
        }
    }

    pub open spec fn slug_text(self) -> Seq<char> {
        match self {
            Screen::Dashboard => "dashboard"@,
            Screen::Processes => "processes"@,
            Screen::Services => "services"@,
            Screen::Logs => "logs"@,
            Screen::Storage => "storage"@,
            Screen::Diagnostics => "diagnostics"@,
            Screen::Settings => "settings"@,
        }
    }

    /// snake_case id used in finding search and report JSON.
    pub fn slug(self) -> (s: &'static str)
        ensures
            s@ == self.slug_text(),
    {
        match self {
            Screen::Dashboard => "dashboard",
            Screen::Processes => "processes",
            Screen::Services => "services",
            Screen::Logs => "logs",
            Screen::Storage => "storage",
            Screen::Diagnostics => "diagnostics",
            Screen::Settings => "settings",
        }
    }

    /// All screens, in navigation order.
    pub fn all() -> (v: Vec<Screen>)
        ensures
            v@ == all_screens(),
    {
        let v = vec![
            Screen::Dashboard,
            Screen::Processes,
            Screen::Services,
            Screen::Logs,
            Screen::Storage,
            Screen::Diagnostics,
            Screen::Settings,
        ];
        assert(v@ =~= all_screens());
        v
    }

    /// Screens with a filterable list (Dashboard and Settings are overview-only).
    pub fn supports_search(self) -> (b: bool)
        ensures
            b == !(self == Screen::Dashboard || self == Screen::Settings),
    {
        match self {
            Screen::Dashboard | Screen::Settings => false,
            _ => true,
        }
    }
}

/// Every screen has a digit, and the digit leads back to it.
pub proof fn lemma_digit_round_trip(s: Screen)
    ensures
        exists|c: char| screen_for_digit(c) == Some(s),
{
    match s {
        Screen::Dashboard => assert(screen_for_digit('1') == Some(s)),
        Screen::Processes => assert(screen_for_digit('2') == Some(s)),
        Screen::Services => assert(screen_for_digit('3') == Some(s)),
        Screen::Logs => assert(screen_for_digit('4') == Some(s)),
        Screen::Storage => assert(screen_for_digit('5') == Some(s)),
        Screen::Diagnostics => assert(screen_for_digit('6') == Some(s)),
        Screen::Settings => assert(screen_for_digit('7') == Some(s)),
    }
}

/// Each screen's slug is its label in ASCII lower case.
pub proof fn lemma_slug_is_lower_label(s: Screen)
    ensures
        s.slug_text() == ascii_lower_seq(s.label_text()),
{
    reveal_strlit("Dashboard");
    reveal_strlit("Processes");
    reveal_strlit("Services");
    reveal_strlit("Logs");
    reveal_strlit("Storage");
    reveal_strlit("Diagnostics");
    reveal_strlit("Settings");
    reveal_strlit("dashboard");
    reveal_strlit("processes");
    reveal_strlit("services");
    reveal_strlit("logs");
    reveal_strlit("storage");
    reveal_strlit("diagnostics");
    reveal_strlit("settings");
    assert(s.slug_text() =~= ascii_lower_seq(s.label_text()));
}

} // verus!
