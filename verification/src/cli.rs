//! Command-line options as plain values, and the decisions taken from them.

use vstd::prelude::*;

use crate::app::side_effect::SupportFormat;
use crate::config::Config;
use crate::error::AppError;
use crate::doctor::DoctorArgs;
use crate::profile::PerformanceProfile;
use crate::profile::performance_profile_named;
use crate::profile::terminal_profile_named;
use crate::profile::TerminalProfile;

verus! {

/// The program's options: paths are held as text.
#[derive(Debug, Clone)]
pub struct Cli {
    /// Use synthetic providers; never touch the real system.
    pub demo: bool,
    /// Disable administrative actions (signals and systemd changes).
    pub read_only: bool,
    /// Wallboard mode: dashboard focus, less chrome, efficient refresh.
    pub wallboard: bool,
    /// Initial storage scan path (overrides config).
    pub scan_path: Option<String>,
    /// Disable colors (also respects NO_COLOR).
    pub no_color: bool,
    /// Prefer ASCII box-drawing and sparklines.
    pub ascii: bool,
    pub terminal_profile: Option<TerminalProfile>,
    pub performance_profile: Option<PerformanceProfile>,
    /// Path to the TOML configuration file.
    pub config: Option<String>,
    /// File for internal tracing logs (never the terminal).
    pub debug_log: Option<String>,
    /// Global refresh interval override in milliseconds (minimum 200).
    pub refresh_ms: Option<u64>,
    pub command: Option<Commands>,
}

#[derive(Debug, Clone)]
pub enum Commands {
    /// Run one-shot host diagnostics and exit.
    Doctor(DoctorArgs),
    /// Generate a redacted support report.
    Support(SupportArgs),
    /// Host setup helpers (console unit generator).
    Setup { command: SetupCommands },
}

#[derive(Debug, Clone)]
pub struct SupportArgs {
    pub format: SupportFormatCli,
    pub output: Option<String>,
    pub include_sensitive: bool,
    pub demo: bool,
}

#[derive(Debug, Clone, Copy, PartialEq, Eq, Structural)]
pub enum SupportFormatCli {
    Text,
    Markdown,
    Json,
}

impl Default for SupportFormatCli {
    fn default() -> (f: Self)
        ensures
            f == SupportFormatCli::Text,
    {
        SupportFormatCli::Text
    }
}

pub open spec fn format_of(v: SupportFormatCli) -> SupportFormat {
    match v {
        SupportFormatCli::Text => SupportFormat::Text,
        SupportFormatCli::Markdown => SupportFormat::Markdown,
        SupportFormatCli::Json => SupportFormat::Json,
    }
}

impl From<SupportFormatCli> for SupportFormat {
    fn from(v: SupportFormatCli) -> (r: Self) {
        match v {
            SupportFormatCli::Text => SupportFormat::Text,
            SupportFormatCli::Markdown => SupportFormat::Markdown,
            SupportFormatCli::Json => SupportFormat::Json,
        }
    }
}

impl vstd::std_specs::convert::FromSpecImpl<SupportFormatCli> for SupportFormat {
    open spec fn obeys_from_spec() -> bool {
        true
    }

    open spec fn from_spec(v: SupportFormatCli) -> SupportFormat {
        format_of(v)
    }
}

#[derive(Debug, Clone)]
pub enum SetupCommands {
    /// Generate / inspect the startup console unit (no host writes unless asked).
    Console {
        status: bool,
        install: bool,
        remove: bool,
        tty: String,
        user: Option<String>,
        wallboard: bool,
        read_only: bool,
        /// Print the generated unit (safe; no host modification).
        print_unit: bool,
    },
}

impl Cli {
    /// Colours are on unless `--no-color` was given or `NO_COLOR` is set in
    /// the environment (`no_color_env`); then the configuration decides.
    pub fn color_enabled(&self, config_color: bool, no_color_env: bool) -> (b: bool)
        ensures
            b == (!self.no_color && !no_color_env && config_color),
    {
        if self.no_color {
            return false;
        }
        if no_color_env {
            return false;
        }
        config_color
    }
}

/// `--terminal-profile`: a known profile name, or the error text shown.
pub fn parse_terminal_profile(s: &str) -> (r: Result<TerminalProfile, String>)
    ensures
        match terminal_profile_named(s@) {
            Some(p) => r == Ok::<TerminalProfile, String>(p),
            None => r matches Err(m) && m@ == "unknown terminal profile: "@ + s@,
        },
{
    match TerminalProfile::parse_cli(s) {
        Some(p) => Ok(p),
        None => {
            let mut m = String::from_str("unknown terminal profile: ");
            m.append(s);
            Err(m)
        },
    }
}

/// `--performance-profile`: a known profile name, or the error text shown.
pub fn parse_performance_profile(s: &str) -> (r: Result<PerformanceProfile, String>)
    ensures
        match performance_profile_named(s@) {
            Some(p) => r == Ok::<PerformanceProfile, String>(p),
            None => r matches Err(m) && m@ == "unknown performance profile: "@ + s@,
        },
{
    match PerformanceProfile::parse_cli(s) {
        Some(p) => Ok(p),
        None => {
            let mut m = String::from_str("unknown performance profile: ");
            m.append(s);
            Err(m)
        },
    }
}

/// Applies the command-line overrides to the loaded configuration: a refresh
/// interval (refused below 200 ms, reported against `config_path`), ASCII
/// output, and the two profiles. Nothing else changes.
#[verifier::rlimit(40)]
pub fn apply_overrides(cli: &Cli, config: &mut Config, config_path: &str) -> (r: Result<(), AppError>)
    ensures
        match cli.refresh_ms {
            Some(ms) => ms < 200 <==> r is Err,
            None => r is Ok,
        },
        r matches Err(e) ==> (e matches AppError::Configuration { path, message } && path@
            == config_path@ && message@ == "refresh_ms must be >= 200"@),
        r matches Err(_) ==> *final(config) == *old(config),
        r is Ok ==> final(config).refresh_ms == match cli.refresh_ms {
            Some(ms) => ms,
            None => old(config).refresh_ms,
        },
        r is Ok ==> final(config).unicode == (old(config).unicode && !cli.ascii),
        r is Ok ==> final(config).performance_profile == match cli.performance_profile {
            Some(p) => p,
            None => old(config).performance_profile,
        },
        r is Ok ==> final(config).terminal_profile == match cli.terminal_profile {
            Some(p) => p,
            None => old(config).terminal_profile,
        },
        r is Ok ==> final(config).process_refresh_ms == old(config).process_refresh_ms
            && final(config).default_scan_path == old(config).default_scan_path
            && final(config).color == old(config).color && final(config).max_log_entries
            == old(config).max_log_entries && final(config).metric_history_size
            == old(config).metric_history_size && final(config).wallboard_default
            == old(config).wallboard_default,
{
    if let Some(ms) = cli.refresh_ms {
        if ms < 200 {
            return Err(
                AppError::Configuration {
                    path: String::from_str(config_path),
                    message: String::from_str("refresh_ms must be >= 200"),
                },
            );
        }
        config.refresh_ms = ms;
    }
    if cli.ascii {
        config.unicode = false;
    }
    if let Some(p) = cli.performance_profile {
        config.performance_profile = p;
    }
    if let Some(p) = cli.terminal_profile {
        config.terminal_profile = p;
    }
    Ok(())
}

} // verus!
