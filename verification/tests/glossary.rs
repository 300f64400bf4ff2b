use server_tui::glossary::{
    command_matches, commands, filtered_commands, filtered_terms, term_matches, terms,
    CommandRisk,
};
use server_tui::model::screen::Screen;

#[test]
fn filter_matches_product_terms() {
    let all = terms();
    let hits = filtered_terms(&all, Screen::Dashboard, "demo");
    assert!(hits.iter().any(|t| t.term.contains("demo")));
}

#[test]
fn filter_matches_aliases_and_body() {
    let all = terms();
    let hits = filtered_terms(&all, Screen::Diagnostics, "ack");
    assert!(hits.iter().any(|t| t.term.contains("acknowledge")));
    let body = filtered_terms(&all, Screen::Diagnostics, "silence");
    assert!(body.iter().any(|t| t.term.contains("confidence")));
}

#[test]
fn empty_query_returns_all() {
    let all = terms();
    assert_eq!(filtered_terms(&all, Screen::Logs, "").len(), terms().len());
}

#[test]
fn command_filter_matches_purpose() {
    let all = commands();
    let hits = filtered_commands(&all, "synthetic");
    assert!(hits.iter().any(|c| c.command.contains("--demo")));
}

#[test]
fn screen_terms_come_first() {
    let all = terms();
    let hits = filtered_terms(&all, Screen::Logs, "");
    assert_eq!(hits[0].term, "panes");
    let first_off = hits.iter().position(|t| !t.screens.contains(&Screen::Logs)).unwrap();
    assert!(hits[first_off..].iter().all(|t| !t.screens.contains(&Screen::Logs)));
}

#[test]
fn matching_is_case_insensitive() {
    let all = terms();
    assert!(term_matches(&all[0], "NAVIGATION"));
    assert!(!term_matches(&all[0], "zzz-nothing"));
    let cmds = commands();
    assert!(command_matches(&cmds[5], "PRIV"));
    assert_eq!(cmds[6].risk, CommandRisk::Destructive);
    assert_eq!(CommandRisk::ReadOnly.label(), "ro");
    assert_eq!(all.len(), 25);
    assert_eq!(cmds.len(), 7);
}
