//! In-app glossary: screens, modes, health, and the terms the interface
//! uses, with the outside commands it mentions.

use vstd::prelude::*;

use crate::model::screen::Screen;
use crate::text::has_substring;
use crate::text::str_contains;
use crate::text::to_lower;
use crate::text::unicode_lower;

verus! {

#[derive(Debug, Clone, Copy, PartialEq, Eq, Structural)]
pub enum CommandRisk {
    ReadOnly,
    Privileged,
    Destructive,
}

impl CommandRisk {
    pub open spec fn label_text(self) -> Seq<char> {
        match self {
            CommandRisk::ReadOnly => "ro"@,
            CommandRisk::Privileged => "priv"@,
            CommandRisk::Destructive => "dest"@,
        }
    }

    pub fn label(self) -> (s: &'static str)
        ensures
            s@ == self.label_text(),
    {
        match self {
            CommandRisk::ReadOnly => "ro",
            CommandRisk::Privileged => "priv",
            CommandRisk::Destructive => "dest",
        }
    }
}

#[derive(Debug, Clone)]
pub struct GlossaryTerm {
    pub term: &'static str,
    pub definition: &'static str,
    pub aliases: Vec<&'static str>,
    /// Screens where this idea shows up (used for contextual ordering).
    pub screens: Vec<Screen>,
}

#[derive(Debug, Clone)]
pub struct CommandRef {
    pub command: &'static str,
    pub purpose: &'static str,
    pub risk: CommandRisk,
}

/// A glossary entry as plain values: term, definition, aliases, screens.
pub type TermView = (Seq<char>, Seq<char>, Seq<Seq<char>>, Seq<Screen>);

pub open spec fn term_view(t: GlossaryTerm) -> TermView {
    (t.term@, t.definition@, t.aliases@.map_values(|a: &'static str| a@), t.screens@)
}

pub open spec fn terms_view(v: Seq<GlossaryTerm>) -> Seq<TermView> {
    v.map_values(|t: GlossaryTerm| term_view(t))
}

/// A command hint as plain values.
pub type CommandView = (Seq<char>, Seq<char>, CommandRisk);

pub open spec fn command_view(c: CommandRef) -> CommandView {
    (c.command@, c.purpose@, c.risk)
}

pub open spec fn commands_view(v: Seq<CommandRef>) -> Seq<CommandView> {
    v.map_values(|c: CommandRef| command_view(c))
}

/// Every glossary entry, in display order.
pub open spec fn glossary_terms() -> Seq<TermView> {
    seq![
        ("screens"@, "1 Dashboard · 2 Processes · 3 Services · 4 Logs · 5 Storage · 6 Diagnostics · 7 Settings. Digit keys always jump screens."@, seq!["1"@, "2"@, "3"@, "4"@, "5"@, "6"@, "navigation"@], seq![Screen::Dashboard]),
        ("panes"@, "Nav · Content · Details. Tab / Shift+Tab enters content and cycles panes; accent border marks the active pane. Digits switch screens."@, seq!["tab"@, "focus"@], seq![Screen::Dashboard, Screen::Processes, Screen::Services, Screen::Logs, Screen::Storage, Screen::Diagnostics]),
        ("search"@, "/ filters the current list (name, description, path, evidence, …). Live as you type; Esc clears. Not on Dashboard."@, seq!["/"@, "filter"@], seq![Screen::Processes, Screen::Services, Screen::Logs, Screen::Storage, Screen::Diagnostics]),
        ("help vs glossary"@, "? keybindings. g terms and modes. Esc closes either overlay."@, seq!["?"@, "g"@, "help"@], seq![Screen::Dashboard]),
        ("confirm"@, "Destructive actions: filled Yes/Cancel buttons, focus defaults to Cancel. Enter activates focus; y / n / Esc. ←/→ or Tab moves focus."@, seq!["yes"@, "cancel"@, "y"@, "n"@], seq![Screen::Processes, Screen::Services]),
        ("--demo"@, "Synthetic providers only. Badge: DEMO."@, seq!["demo"@, "synthetic"@], seq![Screen::Dashboard]),
        ("--read-only"@, "Blocks SIGTERM/SIGKILL and systemd admin. Lists and filters still work. Badge: READ ONLY."@, seq!["readonly"@, "ro"@], seq![Screen::Processes, Screen::Services]),
        ("doctor"@, "CLI: same diagnostics pipeline (--report/--json/--demo). Exit 0 Ok · 1 Warning · 2 Critical · 3 Unknown."@, seq!["cli"@, "exit code"@], seq![Screen::Diagnostics]),
        ("Dashboard"@, "Host snapshot: CPU, memory, swap, load, net rates, disks, health."@, seq!["host"@, "metrics"@], seq![Screen::Dashboard]),
        ("Processes"@, "Process table with sort and /. t SIGTERM · K SIGKILL (confirm). PIDs 0/1/self refused."@, seq!["pid"@, "signal"@, "kill"@], seq![Screen::Processes]),
        ("Services"@, "systemd units from a known-unit registry. s/x/r/R/e/d admin; l → Logs; f failed-only."@, seq!["systemd"@, "unit"@], seq![Screen::Services]),
        ("Logs"@, "journal entries (optional unit scope). / text filter; n/N matches; f follow; p min priority."@, seq!["journal"@, "journalctl"@], seq![Screen::Logs]),
        ("Storage"@, "Directory scan under --scan-path (never /). / filters names; Esc cancels scan. No delete/mount."@, seq!["scan"@, "disk"@, "directory"@], seq![Screen::Storage]),
        ("Diagnostics"@, "Probe → snapshot → evaluate → findings. Prefer Unknown over false alarms. r re-run · o report · a ack · Enter deep link."@, seq!["findings"@, "probe"@, "evaluate"@], seq![Screen::Diagnostics, Screen::Dashboard]),
        ("health"@, "Ok / Warning / Critical / Unknown. Unknown = probes missing, not healthy."@, seq!["status"@, "unknown"@], seq![Screen::Diagnostics, Screen::Dashboard]),
        ("severity"@, "Finding urgency (Info → Critical). Independent of confidence."@, seq!["critical"@, "warning"@, "info"@], seq![Screen::Diagnostics]),
        ("confidence"@, "Evaluator certainty. Low/missing evidence → silence or Unknown."@, seq!["sure"@, "evidence"@], seq![Screen::Diagnostics]),
        ("deep link"@, "Finding target opens another screen; may prefill that screen's / filter."@, seq!["target"@, "enter"@], seq![Screen::Diagnostics]),
        ("acknowledge"@, "Persist finding id as seen (XDG state.toml). List mark only."@, seq!["ack"@, "a"@], seq![Screen::Diagnostics]),
        ("suggested check"@, "Finding hint text / example command. Never executed here."@, seq!["hint"@, "check"@], seq![Screen::Diagnostics]),
        ("unit"@, "systemd unit (*.service, …): active state + unit-file state (enabled/disabled/static/masked)."@, seq!["systemd"@, "service"@, "enabled"@, "masked"@], seq![Screen::Services, Screen::Diagnostics]),
        ("journal"@, "journald source for Logs and some diagnostic rules (via journalctl)."@, seq!["journald"@, "journalctl"@], seq![Screen::Logs, Screen::Diagnostics]),
        ("SIGTERM / SIGKILL"@, "Term (polite) / Kill (forced). Confirm required; --read-only blocks."@, seq!["term"@, "kill"@, "signal"@], seq![Screen::Processes]),
        ("OOM / PSI / load"@, "May flag OOM evidence, PSI pressure, or load vs CPU count when probes succeed."@, seq!["memory"@, "pressure"@, "loadavg"@], seq![Screen::Diagnostics, Screen::Dashboard]),
        ("coredump / pstore"@, "Crash evidence (coredumpctl; /sys/fs/pstore). Missing tools degrade probe."@, seq!["crash"@, "panic"@, "coredumpctl"@], seq![Screen::Diagnostics]),
    ]
}

/// Outside commands the interface mentions; none is run by the program.
pub open spec fn glossary_commands() -> Seq<CommandView> {
    seq![
        ("server-tui --demo"@, "UI with synthetic data"@, CommandRisk::ReadOnly),
        ("server-tui --read-only"@, "Inspect without admin actions"@, CommandRisk::ReadOnly),
        ("server-tui doctor --demo"@, "Non-interactive diagnostics"@, CommandRisk::ReadOnly),
        ("systemctl status UNIT"@, "Related host check"@, CommandRisk::ReadOnly),
        ("journalctl -u UNIT -n 50"@, "Related host check"@, CommandRisk::ReadOnly),
        ("systemctl restart UNIT"@, "Services restart equivalent"@, CommandRisk::Privileged),
        ("kill -TERM/-KILL PID"@, "Processes t/K equivalent"@, CommandRisk::Destructive),
    ]
}

fn push_term(
    v: &mut Vec<GlossaryTerm>,
    term: &'static str,
    definition: &'static str,
    aliases: Vec<&'static str>,
    screens: Vec<Screen>,
)
    ensures
        terms_view(final(v)@) == terms_view(old(v)@).push(
            (term@, definition@, aliases@.map_values(|a: &'static str| a@), screens@),
        ),
{
    let ghost before = v@;
    let t = GlossaryTerm { term, definition, aliases, screens };
    v.push(t);
    assert(terms_view(v@) =~= terms_view(before).push(term_view(t)));
}

pub fn terms() -> (v: Vec<GlossaryTerm>)
    ensures
        terms_view(v@) == glossary_terms(),
{
    let mut v: Vec<GlossaryTerm> = Vec::new();
    push_term(
        &mut v,
        "screens",
        "1 Dashboard · 2 Processes · 3 Services · 4 Logs · 5 Storage · 6 Diagnostics · 7 Settings. Digit keys always jump screens.",
        vec!["1", "2", "3", "4", "5", "6", "navigation"],
        vec![Screen::Dashboard],
    );
    push_term(
        &mut v,
        "panes",
        "Nav · Content · Details. Tab / Shift+Tab enters content and cycles panes; accent border marks the active pane. Digits switch screens.",
        vec!["tab", "focus"],
        vec![Screen::Dashboard, Screen::Processes, Screen::Services, Screen::Logs, Screen::Storage, Screen::Diagnostics],
    );
    push_term(
        &mut v,
        "search",
        "/ filters the current list (name, description, path, evidence, …). Live as you type; Esc clears. Not on Dashboard.",
        vec!["/", "filter"],
        vec![Screen::Processes, Screen::Services, Screen::Logs, Screen::Storage, Screen::Diagnostics],
    );
    push_term(
        &mut v,
        "help vs glossary",
        "? keybindings. g terms and modes. Esc closes either overlay.",
        vec!["?", "g", "help"],
        vec![Screen::Dashboard],
    );
    push_term(
        &mut v,
        "confirm",
        "Destructive actions: filled Yes/Cancel buttons, focus defaults to Cancel. Enter activates focus; y / n / Esc. ←/→ or Tab moves focus.",
        vec!["yes", "cancel", "y", "n"],
        vec![Screen::Processes, Screen::Services],
    );
    push_term(
        &mut v,
        "--demo",
        "Synthetic providers only. Badge: DEMO.",
        vec!["demo", "synthetic"],
        vec![Screen::Dashboard],
    );
    push_term(
        &mut v,
        "--read-only",
        "Blocks SIGTERM/SIGKILL and systemd admin. Lists and filters still work. Badge: READ ONLY.",
        vec!["readonly", "ro"],
        vec![Screen::Processes, Screen::Services],
    );
    push_term(
        &mut v,
        "doctor",
        "CLI: same diagnostics pipeline (--report/--json/--demo). Exit 0 Ok · 1 Warning · 2 Critical · 3 Unknown.",
        vec!["cli", "exit code"],
        vec![Screen::Diagnostics],
    );
    push_term(
        &mut v,
        "Dashboard",
        "Host snapshot: CPU, memory, swap, load, net rates, disks, health.",
        vec!["host", "metrics"],
        vec![Screen::Dashboard],
    );
    push_term(
        &mut v,
        "Processes",
        "Process table with sort and /. t SIGTERM · K SIGKILL (confirm). PIDs 0/1/self refused.",
        vec!["pid", "signal", "kill"],
        vec![Screen::Processes],
    );
    push_term(
        &mut v,
        "Services",
        "systemd units from a known-unit registry. s/x/r/R/e/d admin; l → Logs; f failed-only.",
        vec!["systemd", "unit"],
        vec![Screen::Services],
    );
    push_term(
        &mut v,
        "Logs",
        "journal entries (optional unit scope). / text filter; n/N matches; f follow; p min priority.",
        vec!["journal", "journalctl"],
        vec![Screen::Logs],
    );
    push_term(
        &mut v,
        "Storage",
        "Directory scan under --scan-path (never /). / filters names; Esc cancels scan. No delete/mount.",
        vec!["scan", "disk", "directory"],
        vec![Screen::Storage],
    );
    push_term(
        &mut v,
        "Diagnostics",
        "Probe → snapshot → evaluate → findings. Prefer Unknown over false alarms. r re-run · o report · a ack · Enter deep link.",
        vec!["findings", "probe", "evaluate"],
        vec![Screen::Diagnostics, Screen::Dashboard],
    );
    push_term(
        &mut v,
        "health",
        "Ok / Warning / Critical / Unknown. Unknown = probes missing, not healthy.",
        vec!["status", "unknown"],
        vec![Screen::Diagnostics, Screen::Dashboard],
    );
    push_term(
        &mut v,
        "severity",
        "Finding urgency (Info → Critical). Independent of confidence.",
        vec!["critical", "warning", "info"],
        vec![Screen::Diagnostics],
    );
    push_term(
        &mut v,
        "confidence",
        "Evaluator certainty. Low/missing evidence → silence or Unknown.",
        vec!["sure", "evidence"],
        vec![Screen::Diagnostics],
    );
    push_term(
        &mut v,
        "deep link",
        "Finding target opens another screen; may prefill that screen's / filter.",
        vec!["target", "enter"],
        vec![Screen::Diagnostics],
    );
    push_term(
        &mut v,
        "acknowledge",
        "Persist finding id as seen (XDG state.toml). List mark only.",
        vec!["ack", "a"],
        vec![Screen::Diagnostics],
    );
    push_term(
        &mut v,
        "suggested check",
        "Finding hint text / example command. Never executed here.",
        vec!["hint", "check"],
        vec![Screen::Diagnostics],
    );
    push_term(
        &mut v,
        "unit",
        "systemd unit (*.service, …): active state + unit-file state (enabled/disabled/static/masked).",
        vec!["systemd", "service", "enabled", "masked"],
        vec![Screen::Services, Screen::Diagnostics],
    );
    push_term(
        &mut v,
        "journal",
        "journald source for Logs and some diagnostic rules (via journalctl).",
        vec!["journald", "journalctl"],
        vec![Screen::Logs, Screen::Diagnostics],
    );
    push_term(
        &mut v,
        "SIGTERM / SIGKILL",
        "Term (polite) / Kill (forced). Confirm required; --read-only blocks.",
        vec!["term", "kill", "signal"],
        vec![Screen::Processes],
    );
    push_term(
        &mut v,
        "OOM / PSI / load",
        "May flag OOM evidence, PSI pressure, or load vs CPU count when probes succeed.",
        vec!["memory", "pressure", "loadavg"],
        vec![Screen::Diagnostics, Screen::Dashboard],
    );
    push_term(
        &mut v,
        "coredump / pstore",
        "Crash evidence (coredumpctl; /sys/fs/pstore). Missing tools degrade probe.",
        vec!["crash", "panic", "coredumpctl"],
        vec![Screen::Diagnostics],
    );
    assert(terms_view(v@) =~~= glossary_terms());
    v
}

fn push_command(v: &mut Vec<CommandRef>, command: &'static str, purpose: &'static str, risk: CommandRisk)
    ensures
        commands_view(final(v)@) == commands_view(old(v)@).push((command@, purpose@, risk)),
{
    let ghost before = v@;
    v.push(CommandRef { command, purpose, risk });
    assert(commands_view(v@) =~= commands_view(before).push((command@, purpose@, risk)));
}

/// External command hints shown in the glossary.
pub fn commands() -> (v: Vec<CommandRef>)
    ensures
        commands_view(v@) == glossary_commands(),
{
    let mut v: Vec<CommandRef> = Vec::new();
    push_command(&mut v, "server-tui --demo", "UI with synthetic data", CommandRisk::ReadOnly);
    push_command(&mut v, "server-tui --read-only", "Inspect without admin actions", CommandRisk::ReadOnly);
    push_command(&mut v, "server-tui doctor --demo", "Non-interactive diagnostics", CommandRisk::ReadOnly);
    push_command(&mut v, "systemctl status UNIT", "Related host check", CommandRisk::ReadOnly);
    push_command(&mut v, "journalctl -u UNIT -n 50", "Related host check", CommandRisk::ReadOnly);
    push_command(&mut v, "systemctl restart UNIT", "Services restart equivalent", CommandRisk::Privileged);
    push_command(&mut v, "kill -TERM/-KILL PID", "Processes t/K equivalent", CommandRisk::Destructive);
    assert(commands_view(v@) =~= glossary_commands());
    v
}

/// `hay`, lower-cased, holds `q`.
pub open spec fn contains_ci(hay: Seq<char>, q: Seq<char>) -> bool {
    has_substring(unicode_lower(hay), q)
}

/// An empty query matches everything; otherwise the lower-cased query must
/// occur in the lower-cased term, definition or an alias.
pub open spec fn term_matches_spec(t: TermView, query: Seq<char>) -> bool {
    let q = unicode_lower(query);
    query.len() == 0 || contains_ci(t.0, q) || contains_ci(t.1, q) || exists|i: int|
        0 <= i < t.2.len() && contains_ci(#[trigger] t.2[i], q)
}

/// As for terms, over the command, its purpose and its risk label.
pub open spec fn command_matches_spec(c: CommandView, query: Seq<char>) -> bool {
    let q = unicode_lower(query);
    query.len() == 0 || contains_ci(c.0, q) || contains_ci(c.1, q) || contains_ci(
        c.2.label_text(),
        q,
    )
}

fn contains_lower(hay: &str, q: &str) -> (b: bool)
    ensures
        b == contains_ci(hay@, q@),
{
    let h = to_lower(hay);
    str_contains(h.as_str(), q)
}

pub fn term_matches(term: &GlossaryTerm, query: &str) -> (b: bool)
    ensures
        b == term_matches_spec(term_view(*term), query@),
{
    if query.is_empty() {
        return true;
    }
    let q = to_lower(query);
    if contains_lower(term.term, q.as_str()) || contains_lower(term.definition, q.as_str()) {
        return true;
    }
    let ghost al = term_view(*term).2;
    let mut i: usize = 0;
    while i < term.aliases.len()
        invariant
            i <= term.aliases@.len(),
            al == term_view(*term).2,
            al.len() == term.aliases@.len(),
            q@ == unicode_lower(query@),
            forall|k: int| 0 <= k < i ==> !contains_ci(#[trigger] al[k], q@),
        decreases term.aliases@.len() - i,
    {
        if contains_lower(term.aliases[i], q.as_str()) {
            assert(contains_ci(al[i as int], q@));
            return true;
        }
        i += 1;
    }
    false
}

pub fn command_matches(cmd: &CommandRef, query: &str) -> (b: bool)
    ensures
        b == command_matches_spec(command_view(*cmd), query@),
{
    if query.is_empty() {
        return true;
    }
    let q = to_lower(query);
    contains_lower(cmd.command, q.as_str()) || contains_lower(cmd.purpose, q.as_str())
        || contains_lower(cmd.risk.label(), q.as_str())
}

pub open spec fn deref_terms(v: Seq<&GlossaryTerm>) -> Seq<GlossaryTerm> {
    v.map_values(|t: &GlossaryTerm| *t)
}

/// The matching terms whose screens include `screen` (`near`) or do not.
pub open spec fn terms_kept(s: Seq<GlossaryTerm>, query: Seq<char>, screen: Screen, near: bool) -> Seq<GlossaryTerm>
    decreases s.len(),
{
    if s.len() == 0 {
        Seq::empty()
    } else {
        let rest = terms_kept(s.drop_last(), query, screen, near);
        let t = s.last();
        if term_matches_spec(term_view(t), query) && t.screens@.contains(screen) == near {
            rest.push(t)
        } else {
            rest
        }
    }
}

fn keep_terms<'a>(terms: &'a [GlossaryTerm], screen: Screen, query: &str, near: bool, out: &mut Vec<&'a GlossaryTerm>)
    ensures
        deref_terms(final(out)@) == deref_terms(old(out)@) + terms_kept(terms@, query@, screen, near),
{
    let ghost start = deref_terms(out@);
    let mut i: usize = 0;
    while i < terms.len()
        invariant
            i <= terms@.len(),
            deref_terms(out@) == start + terms_kept(terms@.take(i as int), query@, screen, near),
        decreases terms@.len() - i,
    {
        assert(terms@.take(i + 1).drop_last() =~= terms@.take(i as int));
        let t = &terms[i];
        let mut on_screen = false;
        let mut k: usize = 0;
        while k < t.screens.len()
            invariant
                k <= t.screens@.len(),
                on_screen == exists|m: int| 0 <= m < k && t.screens@[m] == screen,
            decreases t.screens@.len() - k,
        {
            if t.screens[k] == screen {
                on_screen = true;
            }
            k += 1;
        }
        let ghost before = out@;
        if term_matches(t, query) && on_screen == near {
            out.push(t);
            assert(deref_terms(out@) =~= deref_terms(before).push(*t));
        }
        i += 1;
    }
    assert(terms@.take(terms@.len() as int) =~= terms@);
}

/// The matching terms, those shown on `screen` first; each group keeps the
/// glossary's order.
pub fn filtered_terms<'a>(terms: &'a [GlossaryTerm], screen: Screen, query: &str) -> (r: Vec<&'a GlossaryTerm>)
    ensures
        deref_terms(r@) == terms_kept(terms@, query@, screen, true) + terms_kept(
            terms@,
            query@,
            screen,
            false,
        ),
{
    let mut r: Vec<&'a GlossaryTerm> = Vec::new();
    keep_terms(terms, screen, query, true, &mut r);
    keep_terms(terms, screen, query, false, &mut r);
    assert(deref_terms(Seq::<&GlossaryTerm>::empty()) =~= Seq::<GlossaryTerm>::empty());
    r
}

pub open spec fn deref_commands(v: Seq<&CommandRef>) -> Seq<CommandRef> {
    v.map_values(|c: &CommandRef| *c)
}

pub open spec fn commands_kept(s: Seq<CommandRef>, query: Seq<char>) -> Seq<CommandRef>
    decreases s.len(),
{
    if s.len() == 0 {
        Seq::empty()
    } else {
        let rest = commands_kept(s.drop_last(), query);
        if command_matches_spec(command_view(s.last()), query) {
            rest.push(s.last())
        } else {
            rest
        }
    }
}

/// The matching commands, in order.
pub fn filtered_commands<'a>(commands: &'a [CommandRef], query: &str) -> (r: Vec<&'a CommandRef>)
    ensures
        deref_commands(r@) == commands_kept(commands@, query@),
{
    let mut r: Vec<&'a CommandRef> = Vec::new();
    let mut i: usize = 0;
    while i < commands.len()
        invariant
            i <= commands@.len(),
            deref_commands(r@) == commands_kept(commands@.take(i as int), query@),
        decreases commands@.len() - i,
    {
        assert(commands@.take(i + 1).drop_last() =~= commands@.take(i as int));
        let ghost before = r@;
        if command_matches(&commands[i], query) {
            r.push(&commands[i]);
            assert(deref_commands(r@) =~= deref_commands(before).push(commands@[i as int]));
        }
        i += 1;
    }
    assert(commands@.take(commands@.len() as int) =~= commands@);
    r
}

/// An empty query lists every term exactly once (the two groups split the
/// glossary).
pub proof fn lemma_empty_query_lists_all(s: Seq<GlossaryTerm>, screen: Screen)
    ensures
        terms_kept(s, Seq::empty(), screen, true).len() + terms_kept(
            s,
            Seq::empty(),
            screen,
            false,
        ).len() == s.len(),
    decreases s.len(),
{
    if s.len() > 0 {
        lemma_empty_query_lists_all(s.drop_last(), screen);
    }
}

} // verus!
