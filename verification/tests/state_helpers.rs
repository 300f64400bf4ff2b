use server_tui::app::state::{
    compact_footer, current_storage_node, mode_label, narrow_nav, search_title_suffix, too_small,
    visible_findings, visible_storage_children,
};
use server_tui::model::diagnostics::{Category, Confidence, Evidence, Finding, Severity};
use server_tui::model::storage::StorageNode;

fn node(name: &str, path: &str, children: Vec<StorageNode>) -> StorageNode {
    StorageNode {
        name: name.into(),
        path: path.into(),
        is_dir: !children.is_empty(),
        size: 1,
        apparent_size: 1,
        children,
        inaccessible: false,
        error: None,
    }
}

#[test]
fn badges_and_layout() {
    assert_eq!(mode_label(true, true), "DEMO");
    assert_eq!(mode_label(false, true), "READ ONLY");
    assert_eq!(mode_label(false, false), "normal");
    assert!(too_small(59, 40) && too_small(100, 11) && !too_small(60, 12));
    assert!(narrow_nav(99) && !narrow_nav(100));
    assert!(compact_footer(79, 30) && compact_footer(80, 23) && !compact_footer(80, 24));
    assert_eq!(search_title_suffix(""), "");
    assert_eq!(search_title_suffix("ssh"), "  /ssh");
}

#[test]
fn storage_descent_and_filter() {
    let root = node(
        "r",
        "/r",
        vec![
            node("var", "/r/var", vec![node("Log", "/r/var/Log", vec![]), node("lib", "/r/var/lib", vec![])]),
            node("etc", "/r/etc", vec![]),
        ],
    );
    let cwd: Vec<String> = vec!["var".into()];
    let here = current_storage_node(&root, &cwd).unwrap();
    assert_eq!(here.name, "var");
    assert!(current_storage_node(&root, &["nope".to_string()]).is_none());
    assert_eq!(current_storage_node(&root, &[]).unwrap().name, "r");
    let kids = visible_storage_children(here, "LOG");
    assert_eq!(kids.len(), 1);
    assert_eq!(kids[0].name, "Log");
    assert_eq!(visible_storage_children(here, "").len(), 2);
    assert_eq!(visible_storage_children(here, "/r/var").len(), 2);
}

#[test]
fn findings_filter_by_search() {
    let f = |id: &str, title: &str| Finding {
        id: id.into(),
        title: title.into(),
        summary: "s".into(),
        severity: Severity::Warning,
        confidence: Confidence::High,
        category: Category::Services,
        evidence: Evidence { summary: "e".into(), details: vec!["detail-x".into()] },
        targets: vec![],
        suggested_check: None,
        degradable: true,
    };
    let all = vec![f("svc.failed.a", "Unit failed"), f("mem.oom.recent", "OOM killer")];
    assert_eq!(visible_findings(&all, "").len(), 2);
    let hits = visible_findings(&all, "OOM");
    assert_eq!(hits.len(), 1);
    assert_eq!(hits[0].id, "mem.oom.recent");
    assert_eq!(visible_findings(&all, "detail-x").len(), 2);
    assert_eq!(visible_findings(&all, "warning").len(), 2);
}
