use server_tui::persist::{state_path_in, AppPersistState};

#[test]
fn acknowledged_after_acknowledge() {
    let mut s = AppPersistState::default();
    assert!(!s.is_acknowledged("finding.oom"));
    s.acknowledge("finding.oom");
    s.acknowledge("finding.oom");
    assert!(s.is_acknowledged("finding.oom"));
    assert!(!s.is_acknowledged("finding.other"));
    assert_eq!(s.acknowledged_finding_ids.len(), 1);
}

#[test]
fn crc_read_after_write() {
    let mut s = AppPersistState::new();
    assert_eq!(s.previous_crc("/dev/sda"), None);
    assert_eq!(s.remember_crc("/dev/sda", 3), None);
    assert_eq!(s.remember_crc("/dev/sdb", 7), None);
    assert_eq!(s.previous_crc("/dev/sda"), Some(3));
    assert_eq!(s.remember_crc("/dev/sda", 5), Some(3));
    assert_eq!(s.previous_crc("/dev/sda"), Some(5));
    assert_eq!(s.previous_crc("/dev/sdb"), Some(7));
}

#[test]
fn touch_records_a_time() {
    let mut s = AppPersistState::default();
    s.touch_diagnostic_now();
    let mut t = AppPersistState::new();
    t.touch_diagnostic_at(3_999_999);
    assert_eq!(t.last_diagnostic_at, Some(3));
    assert!(s.last_diagnostic_at.unwrap() > 1_600_000_000);
}

#[test]
fn state_file_location() {
    assert!(AppPersistState::default_path().ends_with("/server-tui/state.toml"));
    assert_eq!(state_path_in(Some("/s"), Some("/l")), "/s/server-tui/state.toml");
    assert_eq!(state_path_in(None, Some("/l/")), "/l/server-tui/state.toml");
    assert_eq!(state_path_in(None, None), "./server-tui/state.toml");
}
