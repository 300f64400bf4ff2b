//! Subsystem observation health (orthogonal to diagnostic findings).

use vstd::prelude::*;

verus! {

/// Whether a subsystem can be observed, independent of problem severity.
#[derive(Debug, Clone, Copy, PartialEq, Eq, Structural)]
pub enum SubsystemHealth {
    Unknown,
    Healthy,
    Degraded,
    Unavailable,
}

impl SubsystemHealth {
    pub open spec fn label_text(self) -> Seq<char> {
        match self {
            SubsystemHealth::Unknown => "unknown"@,
            SubsystemHealth::Healthy => "healthy"@,
            SubsystemHealth::Degraded => "degraded"@,
            SubsystemHealth::Unavailable => "unavailable"@,
        }
    }

    pub fn label(self) -> (s: &'static str)
        ensures
            s@ == self.label_text(),
    {
        match self {
            SubsystemHealth::Unknown => "unknown",
            SubsystemHealth::Healthy => "healthy",
            SubsystemHealth::Degraded => "degraded",
            SubsystemHealth::Unavailable => "unavailable",
        }
    }

    /// Healthy and degraded subsystems can be observed; unknown and unavailable ones cannot.
    pub fn is_observable(self) -> (b: bool)
        ensures
            b == (self == SubsystemHealth::Healthy || self == SubsystemHealth::Degraded),
    {
        match self {
            SubsystemHealth::Healthy | SubsystemHealth::Degraded => true,
            _ => false,
        }
    }
}

impl Default for SubsystemHealth {
    fn default() -> (r: Self)
        ensures
            r == SubsystemHealth::Unknown,
    {
        SubsystemHealth::Unknown
    }
}

#[derive(Debug, Clone, Copy, PartialEq, Eq, Structural)]
pub struct SubsystemHealthMap {
    pub systemd: SubsystemHealth,
    pub journal: SubsystemHealth,
    pub diagnostics: SubsystemHealth,
}

/// Health that a capability flag stands for.
pub open spec fn capability_health(available: bool) -> SubsystemHealth {
    if available {
        SubsystemHealth::Healthy
    } else {
        SubsystemHealth::Unavailable
    }
}

impl SubsystemHealthMap {
    /// systemd and journal are healthy exactly when available, unavailable
    /// otherwise; diagnostics start unknown.
    pub fn from_capabilities(systemd_available: bool, journal_available: bool) -> (m: Self)
        ensures
            m.systemd == capability_health(systemd_available),
            m.journal == capability_health(journal_available),
            m.diagnostics == SubsystemHealth::Unknown,
    {
        SubsystemHealthMap {
            systemd: if systemd_available {
                SubsystemHealth::Healthy
            } else {
                SubsystemHealth::Unavailable
            },
            journal: if journal_available {
                SubsystemHealth::Healthy
            } else {
                SubsystemHealth::Unavailable
            },
            diagnostics: SubsystemHealth::Unknown,
        }
    }
}

impl Default for SubsystemHealthMap {
    fn default() -> (r: Self)
        ensures
            r.systemd == SubsystemHealth::Unknown,
            r.journal == SubsystemHealth::Unknown,
            r.diagnostics == SubsystemHealth::Unknown,
    {
        SubsystemHealthMap {
            systemd: SubsystemHealth::Unknown,
            journal: SubsystemHealth::Unknown,
            diagnostics: SubsystemHealth::Unknown,
        }
    }
}

} // verus!
