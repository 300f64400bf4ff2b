use server_tui::config::{
    config_path_in, expand_tilde_with, join_paths, Config, MAX_HISTORY, MAX_LOG_ENTRIES, MAX_REFRESH_MS,
    MIN_HISTORY, MIN_LOG_ENTRIES, MIN_REFRESH_MS,
};
use server_tui::profile::{PerformanceProfile, TerminalProfile};

#[test]
fn rejects_zero_refresh_via_clamp() {
    let mut cfg = Config { refresh_ms: 0, ..Config::default() };
    cfg.clamp();
    assert!(cfg.refresh_ms >= MIN_REFRESH_MS);
}

#[test]
fn clamp_brings_every_limit_into_range() {
    let mut cfg = Config {
        refresh_ms: 1,
        process_refresh_ms: 10_000_000,
        service_refresh_ms: 700,
        max_log_entries: 0,
        metric_history_size: 100_000,
        ..Config::default()
    };
    cfg.clamp();
    assert_eq!(cfg.refresh_ms, MIN_REFRESH_MS);
    assert_eq!(cfg.process_refresh_ms, MAX_REFRESH_MS);
    assert_eq!(cfg.service_refresh_ms, 700);
    assert_eq!(cfg.max_log_entries, MIN_LOG_ENTRIES);
    assert_eq!(cfg.metric_history_size, MAX_HISTORY);
    let before = cfg.clone();
    cfg.clamp();
    assert_eq!(cfg.refresh_ms, before.refresh_ms);
    assert_eq!(cfg.metric_history_size, before.metric_history_size);
    assert!(MIN_HISTORY <= cfg.metric_history_size && cfg.max_log_entries <= MAX_LOG_ENTRIES);
}

#[test]
fn defaults() {
    let c = Config::default();
    assert_eq!(c.refresh_ms, 1000);
    assert_eq!(c.default_scan_path, "~");
    assert_eq!(c.max_log_entries, 5000);
    assert_eq!(c.report_retention_days, 30);
    assert!(c.enable_smart_probes && c.diagnostics_light_scan && !c.follow_symlinks);
}

#[test]
fn tilde_expansion() {
    assert_eq!(expand_tilde_with("~", Some("/home/al")), "/home/al");
    assert_eq!(expand_tilde_with("~/data", Some("/home/al")), "/home/al/data");
    assert_eq!(expand_tilde_with("~/data", Some("/home/al/")), "/home/al/data");
    assert_eq!(expand_tilde_with("~/data", None), "./data");
    assert_eq!(expand_tilde_with("/srv", Some("/home/al")), "/srv");
    assert_eq!(expand_tilde_with("~bob", Some("/home/al")), "~bob");
}

#[test]
fn path_joining() {
    assert_eq!(join_paths("/a", "b"), "/a/b");
    assert_eq!(join_paths("/a/", "b"), "/a/b");
    assert_eq!(join_paths("/a", "/b"), "/b");
    assert_eq!(join_paths("", "b"), "b");
}

#[test]
fn default_path_ends_with_app_file() {
    assert!(Config::default_path().ends_with("/server-tui/config.toml"));
    assert_eq!(config_path_in(Some("/etc/x")), "/etc/x/server-tui/config.toml");
    assert_eq!(config_path_in(None), "./server-tui/config.toml");
}

#[test]
fn parse_profiles() {
    assert_eq!(TerminalProfile::parse_cli("tty16"), Some(TerminalProfile::Tty16));
    assert_eq!(
        PerformanceProfile::parse_cli("low-resource"),
        Some(PerformanceProfile::LowResource)
    );
}

#[test]
fn profile_aliases_and_cycles() {
    assert_eq!(TerminalProfile::parse_cli(" HC "), Some(TerminalProfile::HighContrast));
    assert_eq!(TerminalProfile::parse_cli("bw"), Some(TerminalProfile::Monochrome));
    assert_eq!(TerminalProfile::parse_cli("16"), Some(TerminalProfile::Tty16));
    assert_eq!(TerminalProfile::parse_cli("nope"), None);
    assert_eq!(PerformanceProfile::parse_cli("FAST"), Some(PerformanceProfile::Responsive));
    let mut t = TerminalProfile::Auto;
    for _ in 0..5 {
        t = t.next();
    }
    assert_eq!(t, TerminalProfile::Auto);
    assert_eq!(PerformanceProfile::Auto.resolve(), PerformanceProfile::Balanced);
}

#[test]
fn terminal_resolution() {
    assert_eq!(
        TerminalProfile::Auto.resolve_for_terminal(false, Some("xterm")),
        TerminalProfile::Monochrome
    );
    assert_eq!(
        TerminalProfile::Auto.resolve_for_terminal(true, Some("LINUX")),
        TerminalProfile::Tty16
    );
    assert_eq!(
        TerminalProfile::Auto.resolve_for_terminal(true, Some("xterm-16color")),
        TerminalProfile::Tty16
    );
    assert_eq!(
        TerminalProfile::Auto.resolve_for_terminal(true, Some("xterm-256color")),
        TerminalProfile::Modern
    );
    assert_eq!(TerminalProfile::Auto.resolve_for_terminal(true, None), TerminalProfile::Modern);
    assert_eq!(
        TerminalProfile::Tty16.resolve_for_terminal(false, None),
        TerminalProfile::Tty16
    );
}

#[test]
fn history_sizes() {
    assert_eq!(PerformanceProfile::LowResource.history_size(60), 30);
    assert_eq!(PerformanceProfile::LowResource.history_size(12), 10);
    assert_eq!(PerformanceProfile::Balanced.history_size(60), 60);
    assert_eq!(PerformanceProfile::Auto.history_size(60), 60);
    assert_eq!(PerformanceProfile::Responsive.history_size(60), 90);
    assert_eq!(PerformanceProfile::Responsive.history_size(250), 300);
}
