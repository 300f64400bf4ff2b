use server_tui::app::log_events::{append_logs, step_log_match, sync_recent_logs};
use server_tui::model::log::{LogBuffer, LogEntry, LogPriority};

fn entry(unit: &str, ts: &str, msg: &str) -> LogEntry {
    LogEntry {
        timestamp: ts.into(),
        unit: unit.into(),
        pid: None,
        priority: LogPriority::Info,
        message: msg.into(),
    }
}

fn messages(b: &LogBuffer) -> Vec<String> {
    b.iter().map(|e| e.message.clone()).collect()
}

#[test]
fn appended_batch_skips_known_and_repeated_events() {
    let mut b = LogBuffer::new(100);
    b.push(entry("a", "t1", "one"));
    let fresh = append_logs(
        &mut b,
        vec![
            entry("a", "t1", "one"),
            entry("a", "t2", "two"),
            entry("b", "t2", "two"),
            entry("a", "t1", "other"),
        ],
    );
    let got: Vec<String> = fresh.iter().map(|e| e.message.clone()).collect();
    assert_eq!(got, vec!["two", "other"]);
    assert_eq!(messages(&b), vec!["one", "two", "other"]);
    let again = append_logs(&mut b, vec![entry("a", "t2", "two")]);
    assert!(again.is_empty());
    assert_eq!(b.len(), 3);
}

#[test]
fn only_the_newest_sixty_four_are_checked() {
    let mut b = LogBuffer::new(200);
    b.push(entry("a", "t0", "old"));
    for i in 0..64 {
        b.push(entry("a", &format!("t{}", i + 1), "x"));
    }
    let fresh = append_logs(&mut b, vec![entry("a", "t0", "old"), entry("a", "t64", "x")]);
    assert_eq!(fresh.len(), 1);
    assert_eq!(fresh[0].timestamp, "t0");
    assert_eq!(b.len(), 66);
}

#[test]
fn appending_respects_capacity() {
    let mut b = LogBuffer::new(2);
    let fresh = append_logs(
        &mut b,
        vec![entry("a", "1", "a"), entry("a", "2", "b"), entry("a", "3", "c")],
    );
    assert_eq!(fresh.len(), 3);
    assert_eq!(messages(&b), vec!["b", "c"]);
}

#[test]
fn service_recent_logs_follow_the_selected_unit() {
    let mut recent: Vec<LogEntry> = Vec::new();
    let arrived: Vec<LogEntry> = (0..30)
        .map(|i| entry(if i % 2 == 0 { "NGINX.service" } else { "sshd.service" }, &format!("{i}"), "m"))
        .collect();
    sync_recent_logs(&mut recent, &None, &arrived);
    assert!(recent.is_empty());
    let unit = Some("nginx.service".to_string());
    sync_recent_logs(&mut recent, &unit, &arrived);
    assert_eq!(recent.len(), 15);
    sync_recent_logs(&mut recent, &unit, &arrived);
    assert_eq!(recent.len(), 20);
    assert_eq!(recent[0].timestamp, "20");
    assert_eq!(recent[5].timestamp, "0");
    assert_eq!(recent[19].timestamp, "28");
    assert!(recent.iter().all(|e| e.unit == "NGINX.service"));
}

#[test]
fn log_matches_wrap_both_ways() {
    let mut b = LogBuffer::new(10);
    b.push(entry("a", "1", "error one"));
    b.push(entry("a", "2", "fine"));
    b.push(entry("a", "3", "ERROR two"));
    assert_eq!(step_log_match(&b, "error", LogPriority::Debug, None, 0, true), Some(1));
    assert_eq!(step_log_match(&b, "error", LogPriority::Debug, Some(1), 0, true), Some(0));
    assert_eq!(step_log_match(&b, "error", LogPriority::Debug, None, 0, false), Some(1));
    assert_eq!(step_log_match(&b, "error", LogPriority::Debug, Some(1), 0, false), Some(0));
    assert_eq!(step_log_match(&b, "error", LogPriority::Debug, None, usize::MAX, true), Some(0));
    assert_eq!(step_log_match(&b, "", LogPriority::Debug, None, 0, true), None);
    assert_eq!(step_log_match(&b, "missing", LogPriority::Debug, None, 0, true), None);
}
