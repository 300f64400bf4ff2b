//! Typed application errors with human-readable (English) messages.

use vstd::prelude::*;

verus! {

#[derive(Debug)]
pub enum AppError {
    Terminal(String),
    Configuration { path: String, message: String },
    Metrics(String),
    Process(String),
    Permission(String),
    Systemd(String),
    Journal(String),
    Storage(String),
    Unsupported(String),
    ExternalCommand(String),
    Internal(String),
}

impl Clone for AppError {
    fn clone(&self) -> (r: Self)
        ensures
            r == *self,
    {
        match self {
            AppError::Terminal(m) => AppError::Terminal(m.clone()),
            AppError::Configuration { path, message } => AppError::Configuration {
                path: path.clone(),
                message: message.clone(),
            },
            AppError::Metrics(m) => AppError::Metrics(m.clone()),
            AppError::Process(m) => AppError::Process(m.clone()),
            AppError::Permission(m) => AppError::Permission(m.clone()),
            AppError::Systemd(m) => AppError::Systemd(m.clone()),
            AppError::Journal(m) => AppError::Journal(m.clone()),
            AppError::Storage(m) => AppError::Storage(m.clone()),
            AppError::Unsupported(m) => AppError::Unsupported(m.clone()),
            AppError::ExternalCommand(m) => AppError::ExternalCommand(m.clone()),
            AppError::Internal(m) => AppError::Internal(m.clone()),
        }
    }
}

impl AppError {
    /// The text shown to the user for each kind of error.
    pub open spec fn user_text(self) -> Seq<char> {
        match self {
            AppError::Terminal(m) => "Terminal problem: "@ + m@,
            AppError::Configuration { path, message } => "Invalid configuration ("@ + path@
                + "): "@ + message@,
            AppError::Metrics(m) => "Could not collect metrics: "@ + m@,
            AppError::Process(m) => "Process operation: "@ + m@,
            AppError::Permission(m) => "Permission denied: "@ + m@
                + ". Continuing in observation mode."@,
            AppError::Systemd(m) => "systemd: "@ + m@,
            AppError::Journal(m) => "journald/journalctl: "@ + m@,
            AppError::Storage(m) => "Storage: "@ + m@,
            AppError::Unsupported(m) => "Unavailable: "@ + m@,
            AppError::ExternalCommand(m) => "External command: "@ + m@,
            AppError::Internal(m) => "Internal error: "@ + m@,
        }
    }

    /// Human-readable UI/CLI text.
    pub fn user_message(&self) -> (s: String)
        ensures
            s@ == self.user_text(),
    {
        let (prefix, m): (&str, &String) = match self {
            AppError::Terminal(m) => ("Terminal problem: ", m),
            AppError::Configuration { path, message } => {
                let mut s = String::from_str("Invalid configuration (");
                s.append(path.as_str());
                s.append("): ");
                s.append(message.as_str());
                return s;
            },
            AppError::Metrics(m) => ("Could not collect metrics: ", m),
            AppError::Process(m) => ("Process operation: ", m),
            AppError::Permission(m) => {
                let mut s = String::from_str("Permission denied: ");
                s.append(m.as_str());
                s.append(". Continuing in observation mode.");
                return s;
            },
            AppError::Systemd(m) => ("systemd: ", m),
            AppError::Journal(m) => ("journald/journalctl: ", m),
            AppError::Storage(m) => ("Storage: ", m),
            AppError::Unsupported(m) => ("Unavailable: ", m),
            AppError::ExternalCommand(m) => ("External command: ", m),
            AppError::Internal(m) => ("Internal error: ", m),
        };
        let mut s = String::from_str(prefix);
        s.append(m.as_str());
        s
    }

    /// Every error but a terminal failure can be recovered from.
    pub fn is_recoverable(&self) -> (b: bool)
        ensures
            b == !(self is Terminal),
    {
        !matches!(self, AppError::Terminal(_))
    }

    /// An `Internal` error carrying the text `m`.
    pub open spec fn is_internal(self, m: Seq<char>) -> bool {
        self matches AppError::Internal(s) && s@ == m
    }

    /// A `Systemd` error carrying the text `m`.
    pub open spec fn is_systemd(self, m: Seq<char>) -> bool {
        self matches AppError::Systemd(s) && s@ == m
    }

    /// A `Permission` error carrying the text `m`.
    pub open spec fn is_permission(self, m: Seq<char>) -> bool {
        self matches AppError::Permission(s) && s@ == m
    }

    /// A `Process` error carrying the text `m`.
    pub open spec fn is_process(self, m: Seq<char>) -> bool {
        self matches AppError::Process(s) && s@ == m
    }

    /// The diagnostic text the error displays as (`Display`).
    pub open spec fn display_text(self) -> Seq<char> {
        match self {
            AppError::Terminal(m) => "terminal error: "@ + m@,
            AppError::Configuration { path, message } => "configuration error at "@ + path@
                + ": "@ + message@,
            AppError::Metrics(m) => "metrics unavailable: "@ + m@,
            AppError::Process(m) => "process error: "@ + m@,
            AppError::Permission(m) => "permission denied: "@ + m@,
            AppError::Systemd(m) => "systemd error: "@ + m@,
            AppError::Journal(m) => "journal error: "@ + m@,
            AppError::Storage(m) => "storage error: "@ + m@,
            AppError::Unsupported(m) => "not supported: "@ + m@,
            AppError::ExternalCommand(m) => "external command failed: "@ + m@,
            AppError::Internal(m) => "internal error: "@ + m@,
        }
    }

    /// The diagnostic text of the error (what `to_string` shows).
    pub fn message(&self) -> (s: String)
        ensures
            s@ == self.display_text(),
    {
        let (prefix, m): (&str, &String) = match self {
            AppError::Terminal(m) => ("terminal error: ", m),
            AppError::Configuration { path, message } => {
                let mut s = String::from_str("configuration error at ");
                s.append(path.as_str());
                s.append(": ");
                s.append(message.as_str());
                return s;
            },
            AppError::Metrics(m) => ("metrics unavailable: ", m),
            AppError::Process(m) => ("process error: ", m),
            AppError::Permission(m) => ("permission denied: ", m),
            AppError::Systemd(m) => ("systemd error: ", m),
            AppError::Journal(m) => ("journal error: ", m),
            AppError::Storage(m) => ("storage error: ", m),
            AppError::Unsupported(m) => ("not supported: ", m),
            AppError::ExternalCommand(m) => ("external command failed: ", m),
            AppError::Internal(m) => ("internal error: ", m),
        };
        let mut s = String::from_str(prefix);
        s.append(m.as_str());
        s
    }
}

} // verus!
