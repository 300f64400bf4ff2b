use server_tui::glossary::{commands, filtered_commands, filtered_terms, terms, CommandRef, CommandRisk, GlossaryTerm};
use server_tui::glossary_panel::{cmds_pane_h, glossary_panel, list_width};
use server_tui::model::screen::Screen;

#[test]
fn panel_for_a_query() {
    let all = terms();
    let cmds_all = commands();
    let ordered = filtered_terms(&all, Screen::Dashboard, "demo");
    let cmds = filtered_commands(&cmds_all, "demo");
    let p = glossary_panel(&ordered, &cmds, Screen::Dashboard, "demo", true, 99);
    assert_eq!(p.title, format!("Glossary ({})  /demo_", ordered.len()));
    assert_eq!(p.selected, ordered.len() - 1);
    assert_eq!(p.rows.len(), ordered.len());
    assert_eq!(p.detail.last().unwrap(), "server-tui  Esc clears filter");
    assert_eq!(p.commands.len(), cmds.len().max(1));
    assert_eq!(p.commands_title, format!("Commands ({})", cmds.len()));
}

#[test]
fn panel_rows_and_detail() {
    let t = GlossaryTerm {
        term: "--demo",
        definition: "Synthetic providers only.",
        aliases: vec!["demo", "synthetic"],
        screens: vec![Screen::Dashboard],
    };
    let u = GlossaryTerm { term: "pane", definition: "A region.", aliases: vec![], screens: vec![] };
    let c = CommandRef { command: "systemctl status x", purpose: "show state", risk: CommandRisk::ReadOnly };
    let p = glossary_panel(&vec![&t, &u], &vec![&c], Screen::Dashboard, "", false, 0);
    assert_eq!(p.title, "Glossary (2)");
    assert_eq!(p.rows, vec!["\u{2022} --demo", "  pane"]);
    assert_eq!(
        p.detail,
        vec![
            "--demo",
            "",
            "Synthetic providers only.",
            "",
            "aka demo, synthetic",
            "",
            "server-tui  / filter \u{b7} j/k select \u{b7} Esc close"
        ]
    );
    assert_eq!(p.commands, vec!["[ro] systemctl status x  \u{2014}  show state"]);
    let q = glossary_panel(&vec![&t, &u], &vec![], Screen::Logs, "x", false, 1);
    assert_eq!(q.title, "Glossary (2)  /x");
    assert_eq!(q.detail, vec!["pane", "", "A region.", "", "server-tui  Esc clears \u{b7} / edit"]);
    assert_eq!(q.commands, vec!["(none)"]);
    let none = glossary_panel(&vec![], &vec![], Screen::Logs, "zzz", false, 3);
    assert_eq!(none.selected, 0);
    assert_eq!(none.rows, vec!["(no match)"]);
    assert_eq!(none.detail[0], "No terms match.");
}

#[test]
fn pane_sizes() {
    assert_eq!(list_width(30), 14);
    assert_eq!(list_width(60), 20);
    assert_eq!(list_width(120), 28);
    assert_eq!(cmds_pane_h(4, 7), 0);
    assert_eq!(cmds_pane_h(0, 8), 3);
    assert_eq!(cmds_pane_h(10, 40), 8);
    assert_eq!(cmds_pane_h(10, 10), 5);
    assert_eq!(cmds_pane_h(1, 30), 3);
}
