//! Application configuration values, their defaults and their limits.

use vstd::prelude::*;

use crate::profile::{PerformanceProfile, TerminalProfile};
use crate::text::{chars_of, has_prefix, str_eq, str_starts_with, string_from_chars};
use crate::CONFIG_DIR_NAME;

verus! {

pub const MIN_REFRESH_MS: u64 = 200;
pub const MAX_REFRESH_MS: u64 = 60_000;
pub const MIN_HISTORY: usize = 10;
pub const MAX_HISTORY: usize = 300;
pub const MIN_LOG_ENTRIES: usize = 100;
pub const MAX_LOG_ENTRIES: usize = 50_000;

#[derive(Debug, Clone)]
pub struct Config {
    pub refresh_ms: u64,
    pub process_refresh_ms: u64,
    pub service_refresh_ms: u64,
    pub disk_refresh_ms: u64,
    pub temperature_refresh_ms: u64,
    pub memory_refresh_ms: u64,
    pub default_scan_path: String,
    pub follow_symlinks: bool,
    pub stay_on_filesystem: bool,
    pub color: bool,
    pub unicode: bool,
    pub confirm_sigterm: bool,
    pub confirm_sigkill: bool,
    pub confirm_service_actions: bool,
    pub max_log_entries: usize,
    pub metric_history_size: usize,
    pub terminal_profile: TerminalProfile,
    pub performance_profile: PerformanceProfile,
    pub onboarding_completed: bool,
    pub enable_smart_probes: bool,
    pub diagnostics_light_scan: bool,
    pub wallboard_default: bool,
    /// Days to keep support reports; 0 = never auto-clean.
    pub report_retention_days: u64,
    pub config_path_override: Option<String>,
}

/// Default for the SMART-probe and light-scan switches when a file omits them.
pub fn default_true() -> (b: bool)
    ensures
        b,
{
    true
}

/// Default report retention when a file omits it: 30 days.
pub fn default_report_days() -> (d: u64)
    ensures
        d == 30,
{
    30
}

impl Default for Config {
    fn default() -> (c: Self)
        ensures
            c.refresh_ms == 1000,
            c.process_refresh_ms == 2000,
            c.service_refresh_ms == 5000,
            c.disk_refresh_ms == 10_000,
            c.temperature_refresh_ms == 5000,
            c.memory_refresh_ms == 2000,
            c.default_scan_path@ == "~"@,
            !c.follow_symlinks,
            c.stay_on_filesystem,
            c.color,
            c.unicode,
            c.confirm_sigterm,
            c.confirm_sigkill,
            c.confirm_service_actions,
            c.max_log_entries == 5000,
            c.metric_history_size == 60,
            c.terminal_profile == TerminalProfile::Auto,
            c.performance_profile == PerformanceProfile::Auto,
            !c.onboarding_completed,
            c.enable_smart_probes,
            c.diagnostics_light_scan,
            !c.wallboard_default,
            c.report_retention_days == 30,
            c.config_path_override is None,
    {
        Config {
            refresh_ms: 1000,
            process_refresh_ms: 2000,
            service_refresh_ms: 5000,
            disk_refresh_ms: 10_000,
            temperature_refresh_ms: 5000,
            memory_refresh_ms: 2000,
            default_scan_path: String::from_str("~"),
            follow_symlinks: false,
            stay_on_filesystem: true,
            color: true,
            unicode: true,
            confirm_sigterm: true,
            confirm_sigkill: true,
            confirm_service_actions: true,
            max_log_entries: 5000,
            metric_history_size: 60,
            terminal_profile: TerminalProfile::Auto,
            performance_profile: PerformanceProfile::Auto,
            onboarding_completed: false,
            enable_smart_probes: true,
            diagnostics_light_scan: true,
            wallboard_default: false,
            report_retention_days: 30,
            config_path_override: None,
        }
    }
}

/// `v` brought into `[lo, hi]`.
pub open spec fn clamped(v: int, lo: int, hi: int) -> int {
    if v < lo {
        lo
    } else if v > hi {
        hi
    } else {
        v
    }
}

fn clamp_u64(v: u64, lo: u64, hi: u64) -> (r: u64)
    requires
        lo <= hi,
    ensures
        r == clamped(v as int, lo as int, hi as int),
{
    if v < lo {
        lo
    } else if v > hi {
        hi
    } else {
        v
    }
}

fn clamp_usize(v: usize, lo: usize, hi: usize) -> (r: usize)
    requires
        lo <= hi,
    ensures
        r == clamped(v as int, lo as int, hi as int),
{
    if v < lo {
        lo
    } else if v > hi {
        hi
    } else {
        v
    }
}

/// Joining a relative path onto a base the way `Path::join` does on Unix: an
/// absolute `rest` replaces the base; otherwise one `/` separates them.
pub open spec fn join_path(base: Seq<char>, rest: Seq<char>) -> Seq<char> {
    if has_prefix(rest, "/"@) {
        rest
    } else if base.len() == 0 {
        rest
    } else if base.last() == '/' {
        base + rest
    } else {
        base + "/"@ + rest
    }
}

/// `~` and a leading `~/` expand to the home directory (`.` when unknown).
pub open spec fn tilde_expanded(path: Seq<char>, home: Option<Seq<char>>) -> Seq<char> {
    let h = match home {
        Some(h) => h,
        None => "."@,
    };
    if path == "~"@ {
        h
    } else if has_prefix(path, "~/"@) {
        join_path(h, path.skip(2))
    } else {
        path
    }
}

/// The path starts with a tilde that expansion replaces.
pub open spec fn has_tilde(path: Seq<char>) -> bool {
    path == "~"@ || has_prefix(path, "~/"@)
}

/// `Path::join` on the text of two paths.
pub fn join_paths(base: &str, rest: &str) -> (r: String)
    ensures
        r@ == join_path(base@, rest@),
{
    if str_starts_with(rest, "/") {
        return String::from_str(rest);
    }
    let b = chars_of(base);
    if b.len() == 0 {
        return String::from_str(rest);
    }
    let mut s = String::from_str(base);
    if b[b.len() - 1] != '/' {
        s.append("/");
    }
    s.append(rest);
    s
}

/// Tilde expansion against a known home directory.
pub fn expand_tilde_with(path: &str, home: Option<&str>) -> (r: String)
    ensures
        r@ == tilde_expanded(
            path@,
            match home {
                Some(h) => Some(h@),
                None => None,
            },
        ),
{
    let h: &str = match home {
        Some(h) => h,
        None => ".",
    };
    if str_eq(path, "~") {
        return String::from_str(h);
    }
    if str_starts_with(path, "~/") {
        let v = chars_of(path);
        let mut rest: Vec<char> = Vec::new();
        let mut i: usize = 2;
        proof {
            reveal_strlit("~/");
        }
        while i < v.len()
            invariant
                2 <= i <= v.len(),
                rest@ == v@.subrange(2, i as int),
            decreases v.len() - i,
        {
            rest.push(v[i]);
            assert(v@.subrange(2, i as int).push(v@[i as int]) =~= v@.subrange(2, i + 1));
            i += 1;
        }
        assert(v@.skip(2) =~= v@.subrange(2, v.len() as int));
        let rest_s = string_from_chars(&rest);
        return join_paths(h, rest_s.as_str());
    }
    String::from_str(path)
}

/// The configuration file's path under the configuration directory `dir`
/// (`.` when there is none).
pub open spec fn config_path_of(dir: Option<Seq<char>>) -> Seq<char> {
    join_path(
        join_path(
            match dir {
                Some(d) => d,
                None => "."@,
            },
            CONFIG_DIR_NAME@,
        ),
        "config.toml"@,
    )
}

/// The view of an optional text.
pub open spec fn opt_view(o: Option<String>) -> Option<Seq<char>> {
    match o {
        Some(s) => Some(s@),
        None => None,
    }
}

/// `<dir>/server-tui/config.toml`, with `.` for a missing `dir`.
pub fn config_path_in(dir: Option<&str>) -> (r: String)
    ensures
        r@ == config_path_of(match dir {
            Some(d) => Some(d@),
            None => None,
        }),
{
    let app_dir = match dir {
        Some(d) => join_paths(d, CONFIG_DIR_NAME),
        None => join_paths(".", CONFIG_DIR_NAME),
    };
    join_paths(app_dir.as_str(), "config.toml")
}

/// The user's home directory (`dirs::home_dir`), as text. It depends on the
/// environment and the user database, so nothing is stated of it.
#[verifier::external_body]
fn home_dir() -> Option<String> {
    dirs::home_dir().map(|p| p.to_string_lossy().into_owned())
}

/// The user's configuration directory (`dirs::config_dir`), as text. It
/// depends on the environment, so nothing is stated of it.
#[verifier::external_body]
fn config_dir() -> Option<String> {
    dirs::config_dir().map(|p| p.to_string_lossy().into_owned())
}

/// Tilde expansion against the current user's home directory; paths without a
/// leading tilde come back unchanged.
pub fn expand_tilde(path: &str) -> (r: String)
    ensures
        !has_tilde(path@) ==> r@ == path@,
        exists|home: Option<Seq<char>>| r@ == tilde_expanded(path@, home),
{
    if str_eq(path, "~") || str_starts_with(path, "~/") {
        let home = home_dir();
        let r = match &home {
            Some(h) => expand_tilde_with(path, Some(h.as_str())),
            None => expand_tilde_with(path, None),
        };
        return r;
    }
    let r = String::from_str(path);
    assert(r@ == tilde_expanded(path@, None));
    r
}

impl Config {
    /// Each interval is brought into 200–60000 ms, the log capacity into
    /// 100–50000 entries and the history into 10–300 samples; nothing else changes.
    pub fn clamp(&mut self)
        ensures
            final(self).refresh_ms == clamped(old(self).refresh_ms as int, 200, 60_000),
            final(self).process_refresh_ms == clamped(
                old(self).process_refresh_ms as int,
                200,
                60_000,
            ),
            final(self).service_refresh_ms == clamped(
                old(self).service_refresh_ms as int,
                200,
                60_000,
            ),
            final(self).disk_refresh_ms == clamped(old(self).disk_refresh_ms as int, 200, 60_000),
            final(self).temperature_refresh_ms == clamped(
                old(self).temperature_refresh_ms as int,
                200,
                60_000,
            ),
            final(self).memory_refresh_ms == clamped(
                old(self).memory_refresh_ms as int,
                200,
                60_000,
            ),
            final(self).max_log_entries == clamped(old(self).max_log_entries as int, 100, 50_000),
            final(self).metric_history_size == clamped(
                old(self).metric_history_size as int,
                10,
                300,
            ),
            final(self).default_scan_path == old(self).default_scan_path,
            final(self).follow_symlinks == old(self).follow_symlinks,
            final(self).stay_on_filesystem == old(self).stay_on_filesystem,
            final(self).color == old(self).color,
            final(self).unicode == old(self).unicode,
            final(self).confirm_sigterm == old(self).confirm_sigterm,
            final(self).confirm_sigkill == old(self).confirm_sigkill,
            final(self).confirm_service_actions == old(self).confirm_service_actions,
            final(self).terminal_profile == old(self).terminal_profile,
            final(self).performance_profile == old(self).performance_profile,
            final(self).onboarding_completed == old(self).onboarding_completed,
            final(self).enable_smart_probes == old(self).enable_smart_probes,
            final(self).diagnostics_light_scan == old(self).diagnostics_light_scan,
            final(self).wallboard_default == old(self).wallboard_default,
            final(self).report_retention_days == old(self).report_retention_days,
            final(self).config_path_override == old(self).config_path_override,
    {
        self.refresh_ms = clamp_u64(self.refresh_ms, MIN_REFRESH_MS, MAX_REFRESH_MS);
        self.process_refresh_ms = clamp_u64(self.process_refresh_ms, MIN_REFRESH_MS, MAX_REFRESH_MS);
        self.service_refresh_ms = clamp_u64(self.service_refresh_ms, MIN_REFRESH_MS, MAX_REFRESH_MS);
        self.disk_refresh_ms = clamp_u64(self.disk_refresh_ms, MIN_REFRESH_MS, MAX_REFRESH_MS);
        self.temperature_refresh_ms = clamp_u64(
            self.temperature_refresh_ms,
            MIN_REFRESH_MS,
            MAX_REFRESH_MS,
        );
        self.memory_refresh_ms = clamp_u64(self.memory_refresh_ms, MIN_REFRESH_MS, MAX_REFRESH_MS);
        self.max_log_entries = clamp_usize(self.max_log_entries, MIN_LOG_ENTRIES, MAX_LOG_ENTRIES);
        self.metric_history_size = clamp_usize(self.metric_history_size, MIN_HISTORY, MAX_HISTORY);
    }

    /// The scan path with a leading tilde expanded.
    pub fn expand_scan_path(&self) -> (r: String)
        ensures
            !has_tilde(self.default_scan_path@) ==> r@ == self.default_scan_path@,
            exists|home: Option<Seq<char>>| r@ == tilde_expanded(self.default_scan_path@, home),
    {
        expand_tilde(self.default_scan_path.as_str())
    }

    /// `<config dir>/server-tui/config.toml`, with `.` when the configuration
    /// directory is unknown. The directory comes from the environment, so
    /// what holds whatever it is stands here, and `config_path_in` says what
    /// the path is for each answer.
    pub fn default_path() -> (r: String)
        ensures
            exists|dir: Option<Seq<char>>| r@ == config_path_of(dir),
    {
        let dir = config_dir();
        let r = match &dir {
            Some(d) => config_path_in(Some(d.as_str())),
            None => config_path_in(None),
        };
        assert(r@ == config_path_of(opt_view(dir)));
        r
    }
}

/// Clamping is idempotent and lands inside the limits.
pub proof fn lemma_clamp_within_limits(v: int, lo: int, hi: int)
    requires
        lo <= hi,
    ensures
        lo <= clamped(v, lo, hi) <= hi,
        clamped(clamped(v, lo, hi), lo, hi) == clamped(v, lo, hi),
        lo <= v <= hi ==> clamped(v, lo, hi) == v,
{
}

} // verus!
