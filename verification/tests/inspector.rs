use server_tui::app::inspector::{
    choose_menu_item, directory_inspector, finding_inspector, move_menu_selection, MenuChoice,
};
use server_tui::model::diagnostics::{Category, Confidence, Evidence, Finding, Severity};
use server_tui::model::inspect::{MenuAction, MenuItem};
use server_tui::model::storage::StorageNode;

#[test]
fn finding_inspector_shows_evidence() {
    let f = Finding {
        id: "mem.oom".into(),
        title: "OOM kills".into(),
        summary: "2 processes were killed".into(),
        severity: Severity::Critical,
        confidence: Confidence::High,
        category: Category::Memory,
        evidence: Evidence { summary: "journal".into(), details: vec!["a".into(), "b".into()] },
        targets: vec![],
        suggested_check: None,
        degradable: false,
    };
    let (title, body) = finding_inspector(&f);
    assert_eq!(title, "OOM kills");
    assert_eq!(body, "2 processes were killed\n\nmem.oom\n\nevidence:\njournal\na\nb");
}

#[test]
fn directory_inspector_lists_sizes() {
    let leaf = |n: &str| StorageNode {
        name: n.into(),
        path: format!("/srv/data/{n}"),
        is_dir: false,
        size: 1,
        apparent_size: 1,
        children: vec![],
        inaccessible: false,
        error: None,
    };
    let node = StorageNode {
        name: "data".into(),
        path: "/srv/data".into(),
        is_dir: true,
        size: 2048,
        apparent_size: 512,
        children: vec![leaf("a"), leaf("b"), leaf("c")],
        inaccessible: false,
        error: None,
    };
    let (title, body) = directory_inspector(&node);
    assert_eq!(title, "Dir data");
    assert_eq!(body, "path: /srv/data\nsize: 2.0 KiB\napparent: 512 B\nchildren: 3");
}

#[test]
fn menu_rows_gate_their_actions() {
    let items = vec![
        MenuItem::enabled("Inspect", MenuAction::ServiceInspect),
        MenuItem::disabled("Stop", MenuAction::Close, "read-only session"),
        MenuItem { label: "x".into(), action: MenuAction::Close, enabled: false, disabled_reason: None },
    ];
    assert!(matches!(choose_menu_item(&items, 0), MenuChoice::Chosen(MenuAction::ServiceInspect)));
    match choose_menu_item(&items, 1) {
        MenuChoice::Disabled(w) => assert_eq!(w, "read-only session"),
        other => panic!("{other:?}"),
    }
    match choose_menu_item(&items, 2) {
        MenuChoice::Disabled(w) => assert_eq!(w, "action disabled"),
        other => panic!("{other:?}"),
    }
    assert!(matches!(choose_menu_item(&items, 3), MenuChoice::Nothing));
}

#[test]
fn menu_selection_stays_on_the_menu() {
    assert_eq!(move_menu_selection(0, 3, -1), 0);
    assert_eq!(move_menu_selection(2, 3, -1), 1);
    assert_eq!(move_menu_selection(1, 3, 1), 2);
    assert_eq!(move_menu_selection(2, 3, 1), 2);
    assert_eq!(move_menu_selection(7, 3, 1), 2);
    assert_eq!(move_menu_selection(4, 0, 1), 4);
}
