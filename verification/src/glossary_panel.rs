//! What the glossary overlay shows: its title, the term list, the selected
//! term's definition, the key hint and the command hints. Laying these out
//! on the terminal is the renderer's part.

use vstd::prelude::*;

use crate::glossary::CommandRef;
use crate::glossary::GlossaryTerm;
use crate::model::screen::Screen;
use crate::text::decimal;
use crate::text::decimal_string;
use crate::APP_NAME;

verus! {

/// The overlay's title: the number of listed terms, and the query with a
/// cursor while it is typed.
pub open spec fn panel_title(count: nat, query: Seq<char>, searching: bool) -> Seq<char> {
    if searching {
        "Glossary ("@ + decimal(count) + ")  /"@ + query + "_"@
    } else if query.len() > 0 {
        "Glossary ("@ + decimal(count) + ")  /"@ + query
    } else {
        "Glossary ("@ + decimal(count) + ")"@
    }
}

/// The selected row, kept on the list.
pub open spec fn panel_selected(count: nat, selected: nat) -> nat {
    if count == 0 {
        0
    } else if selected < count {
        selected
    } else {
        (count - 1) as nat
    }
}

/// A list row: a dot for terms that belong to the current screen, then the
/// term.
pub open spec fn row_text(t: GlossaryTerm, screen: Screen) -> Seq<char> {
    (if t.screens@.contains(screen) {
        "\u{2022}"@
    } else {
        " "@
    }) + " "@ + t.term@
}

/// Texts joined with `", "`.
pub open spec fn comma_joined(parts: Seq<Seq<char>>) -> Seq<char>
    decreases parts.len(),
{
    if parts.len() == 0 {
        Seq::empty()
    } else if parts.len() == 1 {
        parts[0]
    } else {
        comma_joined(parts.drop_last()) + ", "@ + parts.last()
    }
}

/// The definition pane's lines for the selected term, before the hint.
pub open spec fn detail_text(t: Option<GlossaryTerm>) -> Seq<Seq<char>> {
    match t {
        Some(t) => {
            let head = seq![t.term@, Seq::empty(), t.definition@];
            if t.aliases@.len() > 0 {
                head + seq![
                    Seq::empty(),
                    "aka "@ + comma_joined(t.aliases@.map_values(|a: &'static str| a@)),
                ]
            } else {
                head
            }
        },
        None => seq!["No terms match."@],
    }
}

/// The key hint under the definition.
pub open spec fn hint_text(query: Seq<char>, searching: bool) -> Seq<char> {
    APP_NAME@ + if searching {
        "  Esc clears filter"@
    } else if query.len() > 0 {
        "  Esc clears \u{b7} / edit"@
    } else {
        "  / filter \u{b7} j/k select \u{b7} Esc close"@
    }
}

/// A command hint row: risk, command and purpose.
pub open spec fn command_text(c: CommandRef) -> Seq<char> {
    "["@ + c.risk.label_text() + "] "@ + c.command@ + "  \u{2014}  "@ + c.purpose@
}

/// The glossary overlay's texts.
#[derive(Debug, Clone)]
pub struct GlossaryPanel {
    pub title: String,
    /// The selected row, kept on the list.
    pub selected: usize,
    /// One row per listed term, in order; `(no match)` when none is listed.
    pub rows: Vec<String>,
    /// The definition pane: the selected term's lines, a blank line, the hint.
    pub detail: Vec<String>,
    /// One row per command hint, or `(none)`.
    pub commands: Vec<String>,
    pub commands_title: String,
}

pub open spec fn texts(v: Seq<String>) -> Seq<Seq<char>> {
    v.map_values(|s: String| s@)
}

fn row_string(t: &GlossaryTerm, screen: Screen) -> (s: String)
    ensures
        s@ == row_text(*t, screen),
{
    let mut on_screen = false;
    let mut k: usize = 0;
    while k < t.screens.len()
        invariant
            k <= t.screens@.len(),
            on_screen == exists|m: int| 0 <= m < k && t.screens@[m] == screen,
        decreases t.screens@.len() - k,
    {
        if t.screens[k] == screen {
            on_screen = true;
        }
        k += 1;
    }
    let mut s = if on_screen {
        String::from_str("\u{2022}")
    } else {
        String::from_str(" ")
    };
    s.append(" ");
    s.append(t.term);
    s
}

fn aliases_line(aliases: &Vec<&'static str>) -> (s: String)
    ensures
        s@ == "aka "@ + comma_joined(aliases@.map_values(|a: &'static str| a@)),
{
    let ghost parts = aliases@.map_values(|a: &'static str| a@);
    let mut s = String::from_str("aka ");
    let ghost head = s@;
    let mut i: usize = 0;
    while i < aliases.len()
        invariant
            parts == aliases@.map_values(|a: &'static str| a@),
            i <= aliases.len(),
            s@ == head + comma_joined(parts.take(i as int)),
        decreases aliases.len() - i,
    {
        assert(parts.take(i + 1).drop_last() =~= parts.take(i as int));
        if i > 0 {
            s.append(", ");
        }
        s.append(aliases[i]);
        proof {
            if i == 0 {
                assert(parts.take(1) =~= seq![parts[0]]);
            }
        }
        i += 1;
    }
    assert(parts.take(aliases.len() as int) =~= parts);
    s
}

/// The overlay's texts for the listed terms and command hints (as the
/// glossary filters them), the screen behind it, the query and whether it
/// is being typed, and the selected row.
pub fn glossary_panel(
    ordered: &Vec<&GlossaryTerm>,
    cmds: &Vec<&CommandRef>,
    screen: Screen,
    query: &str,
    searching: bool,
    selected: usize,
) -> (p: GlossaryPanel)
    ensures
        p.title@ == panel_title(ordered@.len(), query@, searching),
        p.selected == panel_selected(ordered@.len(), selected as nat),
        texts(p.rows@) == if ordered@.len() == 0 {
            seq!["(no match)"@]
        } else {
            ordered@.map_values(|t: &GlossaryTerm| row_text(*t, screen))
        },
        texts(p.detail@) == detail_text(
            if ordered@.len() == 0 {
                None
            } else {
                Some(*ordered@[p.selected as int])
            },
        ) + seq![Seq::empty(), hint_text(query@, searching)],
        texts(p.commands@) == if cmds@.len() == 0 {
            seq!["(none)"@]
        } else {
            cmds@.map_values(|c: &CommandRef| command_text(*c))
        },
        p.commands_title@ == "Commands ("@ + decimal(cmds@.len()) + ")"@,
{
    let n = ordered.len();
    let mut title = String::from_str("Glossary (");
    title.append(decimal_string(n as u64).as_str());
    if searching {
        title.append(")  /");
        title.append(query);
        title.append("_");
    } else if !query.is_empty() {
        title.append(")  /");
        title.append(query);
    } else {
        title.append(")");
    }
    let sel = if n == 0 {
        0
    } else if selected < n {
        selected
    } else {
        n - 1
    };
    let mut rows: Vec<String> = Vec::new();
    if n == 0 {
        rows.push(String::from_str("(no match)"));
        assert(texts(rows@) =~= seq!["(no match)"@]);
    } else {
        let mut i: usize = 0;
        while i < n
            invariant
                n == ordered@.len(),
                i <= n,
                texts(rows@) =~= ordered@.take(i as int).map_values(
                    |t: &GlossaryTerm| row_text(*t, screen),
                ),
            decreases n - i,
        {
            let ghost before = texts(rows@);
            rows.push(row_string(ordered[i], screen));
            assert(texts(rows@) =~= before.push(row_text(*ordered@[i as int], screen)));
            assert(ordered@.take(i + 1).map_values(|t: &GlossaryTerm| row_text(*t, screen))
                =~= ordered@.take(i as int).map_values(|t: &GlossaryTerm| row_text(*t, screen)).push(
                row_text(*ordered@[i as int], screen),
            ));
            i += 1;
        }
        assert(ordered@.take(n as int) =~= ordered@);
    }
    let mut detail: Vec<String> = Vec::new();
    if n == 0 {
        detail.push(String::from_str("No terms match."));
    } else {
        let t = ordered[sel];
        detail.push(String::from_str(t.term));
        detail.push(String::new());
        detail.push(String::from_str(t.definition));
        if t.aliases.len() > 0 {
            detail.push(String::new());
            detail.push(aliases_line(&t.aliases));
        }
    }
    let mut hint = String::from_str(APP_NAME);
    if searching {
        hint.append("  Esc clears filter");
    } else if !query.is_empty() {
        hint.append("  Esc clears \u{b7} / edit");
    } else {
        hint.append("  / filter \u{b7} j/k select \u{b7} Esc close");
    }
    let ghost d = texts(detail@);
    detail.push(String::new());
    detail.push(hint);
    assert(texts(detail@) =~= d + seq![Seq::empty(), hint_text(query@, searching)]);
    let mut commands: Vec<String> = Vec::new();
    if cmds.len() == 0 {
        commands.push(String::from_str("(none)"));
        assert(texts(commands@) =~= seq!["(none)"@]);
    } else {
        let mut j: usize = 0;
        while j < cmds.len()
            invariant
                j <= cmds@.len(),
                texts(commands@) =~= cmds@.take(j as int).map_values(
                    |c: &CommandRef| command_text(*c),
                ),
            decreases cmds@.len() - j,
        {
            let c = cmds[j];
            let mut row = String::from_str("[");
            row.append(c.risk.label());
            row.append("] ");
            row.append(c.command);
            row.append("  \u{2014}  ");
            row.append(c.purpose);
            let ghost before = texts(commands@);
            commands.push(row);
            assert(texts(commands@) =~= before.push(command_text(*cmds@[j as int])));
            assert(cmds@.take(j + 1).map_values(|c: &CommandRef| command_text(*c)) =~= cmds@.take(
                j as int,
            ).map_values(|c: &CommandRef| command_text(*c)).push(command_text(*cmds@[j as int])));
            j += 1;
        }
        assert(cmds@.take(cmds@.len() as int) =~= cmds@);
    }
    let mut commands_title = String::from_str("Commands (");
    commands_title.append(decimal_string(cmds.len() as u64).as_str());
    commands_title.append(")");
    GlossaryPanel { title, selected: sel, rows, detail, commands, commands_title }
}

/// Width of the term list: a third of the overlay, between 14 and 28.
pub fn list_width(inner_width: u16) -> (w: u16)
    ensures
        w == if inner_width / 3 < 14 {
            14
        } else if inner_width / 3 > 28 {
            28
        } else {
            inner_width / 3
        },
{
    let third = inner_width / 3;
    if third < 14 {
        14
    } else if third > 28 {
        28
    } else {
        third
    }
}

/// Height of the command-hint pane: none below 8 rows; else room for up
/// to six hints and a border, at most half the space and at least 3.
pub fn cmds_pane_h(cmd_count: usize, available: u16) -> (h: u16)
    ensures
        h == if available < 8 {
            0
        } else {
            let want: int = (if cmd_count < 6 {
                cmd_count as int
            } else {
                6
            }) + 2;
            let capped: int = if want < available / 2 {
                want
            } else {
                (available / 2) as int
            };
            if capped < 3 {
                3
            } else {
                capped
            }
        },
{
    if available < 8 {
        0
    } else {
        let shown: u16 = if cmd_count < 6 {
            cmd_count as u16
        } else {
            6
        };
        let want = shown + 2;
        let half = available / 2;
        let capped = if want < half {
            want
        } else {
            half
        };
        if capped < 3 {
            3
        } else {
            capped
        }
    }
}

} // verus!
