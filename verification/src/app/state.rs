//! Dialogs and per-screen search queries.

use vstd::prelude::*;

use crate::app::action::ConfirmChoice;
use crate::model::diagnostics::finding_matches;
use crate::model::diagnostics::finding_matches_spec;
use crate::model::diagnostics::Finding;
use crate::model::diagnostics::FindingView;
use crate::model::inspect::MenuItem;
use crate::model::process::ProcessSignal;
use crate::model::screen::Screen;
use crate::model::service::ServiceActionKind;
use crate::model::storage::first_named;
use crate::model::storage::StorageNode;
use crate::text::has_substring;
use crate::text::str_contains;
use crate::text::to_lower;
use crate::text::unicode_lower;

verus! {

#[derive(Debug, Clone)]
pub enum Dialog {
    Help,
    Glossary,
    ConfirmSignal {
        pid: u32,
        user: String,
        command: String,
        signal: ProcessSignal,
        start_time: u64,
        choice: ConfirmChoice,
    },
    ConfirmService { unit: String, action: ServiceActionKind, choice: ConfirmChoice },
    /// Explicit elevation: administrator permission is required (never silent).
    ConfirmElevation { unit: String, action: ServiceActionKind, choice: ConfirmChoice },
    ConfirmResetSettings { choice: ConfirmChoice },
    ConfirmCompleteOnboarding { choice: ConfirmChoice },
    DiagnosticReport { body: String },
    Message { title: String, body: String },
    Inspector { title: String, body: String },
    ActionMenu { title: String, items: Vec<MenuItem>, selected: usize },
}

/// Per-screen search queries (one per list screen, plus the glossary's).
#[derive(Debug, Clone)]
pub struct SearchQueries {
    pub processes: String,
    pub services: String,
    pub logs: String,
    pub storage: String,
    pub diagnostics: String,
    pub glossary: String,
}

impl Default for SearchQueries {
    fn default() -> (q: Self)
        ensures
            q.processes@.len() == 0,
            q.services@.len() == 0,
            q.logs@.len() == 0,
            q.storage@.len() == 0,
            q.diagnostics@.len() == 0,
            q.glossary@.len() == 0,
    {
        SearchQueries {
            processes: String::new(),
            services: String::new(),
            logs: String::new(),
            storage: String::new(),
            diagnostics: String::new(),
            glossary: String::new(),
        }
    }
}

impl SearchQueries {
    /// The query of `screen`; Dashboard and Settings have none.
    pub open spec fn query_of(self, screen: Screen) -> Option<Seq<char>> {
        match screen {
            Screen::Processes => Some(self.processes@),
            Screen::Services => Some(self.services@),
            Screen::Logs => Some(self.logs@),
            Screen::Storage => Some(self.storage@),
            Screen::Diagnostics => Some(self.diagnostics@),
            Screen::Dashboard | Screen::Settings => None,
        }
    }

    /// The query of `screen`, empty where the screen has none.
    pub fn get(&self, screen: Screen) -> (s: &str)
        ensures
            s@ == match self.query_of(screen) {
                Some(q) => q,
                None => Seq::empty(),
            },
    {
        match screen {
            Screen::Processes => self.processes.as_str(),
            Screen::Services => self.services.as_str(),
            Screen::Logs => self.logs.as_str(),
            Screen::Storage => self.storage.as_str(),
            Screen::Diagnostics => self.diagnostics.as_str(),
            Screen::Dashboard | Screen::Settings => {
                proof {
                    reveal_strlit("");
                }
                ""
            },
        }
    }

    /// The editable query of `screen`; none for Dashboard and Settings.
    pub fn get_mut(&mut self, screen: Screen) -> (r: Option<&mut String>)
        ensures
            r is None <==> old(self).query_of(screen) is None,
            r is None ==> *final(self) == *old(self),
            r matches Some(s) ==> Some(s@) == old(self).query_of(screen),
            r matches Some(s) ==> final(self).query_of(screen) == Some(final(s)@),
            r matches Some(s) ==> forall|other: Screen|
                other != screen ==> #[trigger] final(self).query_of(other) == old(self).query_of(
                    other,
                ),
            final(self).glossary == old(self).glossary,
    {
        match screen {
            Screen::Processes => Some(&mut self.processes),
            Screen::Services => Some(&mut self.services),
            Screen::Logs => Some(&mut self.logs),
            Screen::Storage => Some(&mut self.storage),
            Screen::Diagnostics => Some(&mut self.diagnostics),
            Screen::Dashboard | Screen::Settings => None,
        }
    }
}

/// The glossary overlay is open.
pub open spec fn glossary_is_open(dialog: Option<Dialog>) -> bool {
    dialog matches Some(Dialog::Glossary)
}

pub fn glossary_open(dialog: &Option<Dialog>) -> (b: bool)
    ensures
        b == glossary_is_open(*dialog),
{
    match dialog {
        Some(Dialog::Glossary) => true,
        _ => false,
    }
}

/// `/` can start a search: in the glossary, or on a screen with a list.
pub fn search_supported(dialog: &Option<Dialog>, screen: Screen) -> (b: bool)
    ensures
        b == (glossary_is_open(*dialog) || !(screen == Screen::Dashboard || screen
            == Screen::Settings)),
{
    glossary_open(dialog) || screen.supports_search()
}

/// The query in use: the glossary's while it is open, else the screen's.
pub open spec fn current_query(dialog: Option<Dialog>, search: SearchQueries, screen: Screen) -> Seq<char> {
    if glossary_is_open(dialog) {
        search.glossary@
    } else {
        match search.query_of(screen) {
            Some(q) => q,
            None => Seq::empty(),
        }
    }
}

pub fn current_search<'a>(dialog: &Option<Dialog>, search: &'a SearchQueries, screen: Screen) -> (s: &'a str)
    ensures
        s@ == current_query(*dialog, *search, screen),
{
    if glossary_open(dialog) {
        search.glossary.as_str()
    } else {
        search.get(screen)
    }
}

/// The session badge: DEMO, READ ONLY or normal.
pub open spec fn mode_text(demo: bool, read_only: bool) -> Seq<char> {
    if demo {
        "DEMO"@
    } else if read_only {
        "READ ONLY"@
    } else {
        "normal"@
    }
}

pub fn mode_label(demo: bool, read_only: bool) -> (s: &'static str)
    ensures
        s@ == mode_text(demo, read_only),
{
    if demo {
        "DEMO"
    } else if read_only {
        "READ ONLY"
    } else {
        "normal"
    }
}

/// The terminal is too small to draw the interface.
pub fn too_small(width: u16, height: u16) -> (b: bool)
    ensures
        b == (width < 60 || height < 12),
{
    width < 60 || height < 12
}

/// The navigation column is drawn narrow.
pub fn narrow_nav(width: u16) -> (b: bool)
    ensures
        b == (width < 100),
{
    width < 100
}

/// The footer is drawn compact.
pub fn compact_footer(width: u16, height: u16) -> (b: bool)
    ensures
        b == (width < 80 || height < 24),
{
    width < 80 || height < 24
}

/// The suffix a panel title shows for an active search: `  /query`.
pub fn search_title_suffix(query: &str) -> (s: String)
    ensures
        query@.len() == 0 ==> s@.len() == 0,
        query@.len() > 0 ==> s@ == "  /"@ + query@,
{
    if query.is_empty() {
        return String::new();
    }
    let mut s = String::from_str("  /");
    s.append(query);
    s
}

pub open spec fn deref_findings(v: Seq<&Finding>) -> Seq<Finding> {
    v.map_values(|f: &Finding| *f)
}

/// The findings a search keeps, in order.
pub open spec fn findings_kept(fs: Seq<Finding>, query: Seq<char>) -> Seq<Finding>
    decreases fs.len(),
{
    if fs.len() == 0 {
        Seq::empty()
    } else {
        let rest = findings_kept(fs.drop_last(), query);
        if finding_matches_spec(fs.last()@, query) {
            rest.push(fs.last())
        } else {
            rest
        }
    }
}

/// The findings listed for a search.
pub fn visible_findings<'a>(findings: &'a [Finding], query: &str) -> (r: Vec<&'a Finding>)
    ensures
        deref_findings(r@) == findings_kept(findings@, query@),
{
    let mut r: Vec<&'a Finding> = Vec::new();
    let mut i: usize = 0;
    while i < findings.len()
        invariant
            i <= findings@.len(),
            deref_findings(r@) == findings_kept(findings@.take(i as int), query@),
        decreases findings@.len() - i,
    {
        assert(findings@.take(i + 1).drop_last() =~= findings@.take(i as int));
        let ghost before = r@;
        if finding_matches(&findings[i], query) {
            r.push(&findings[i]);
            assert(deref_findings(r@) =~= deref_findings(before).push(findings@[i as int]));
        }
        i += 1;
    }
    assert(findings@.take(findings@.len() as int) =~= findings@);
    r
}

/// The node at `cwd` below `root`, following the first child of each name.
pub open spec fn node_at(root: StorageNode, cwd: Seq<Seq<char>>) -> Option<StorageNode>
    decreases cwd.len(),
{
    if cwd.len() == 0 {
        Some(root)
    } else {
        match first_named(root.children@, cwd[0]) {
            Some(c) => node_at(c, cwd.drop_first()),
            None => None,
        }
    }
}

pub open spec fn names_view(v: Seq<String>) -> Seq<Seq<char>> {
    v.map_values(|s: String| s@)
}

/// The directory shown: `root` followed down the path `cwd`.
pub fn current_storage_node<'a>(root: &'a StorageNode, cwd: &[String]) -> (r: Option<&'a StorageNode>)
    ensures
        match r {
            Some(n) => node_at(*root, names_view(cwd@)) == Some(*n),
            None => node_at(*root, names_view(cwd@)) is None,
        },
{
    let mut node: &'a StorageNode = root;
    let mut i: usize = 0;
    assert(names_view(cwd@).skip(0) =~= names_view(cwd@));
    while i < cwd.len()
        invariant
            i <= cwd@.len(),
            node_at(*root, names_view(cwd@)) == node_at(*node, names_view(cwd@).skip(i as int)),
        decreases cwd@.len() - i,
    {
        let ghost rest = names_view(cwd@).skip(i as int);
        assert(rest[0] == cwd@[i as int]@);
        assert(rest.drop_first() =~= names_view(cwd@).skip(i + 1));
        match node.find_child(cwd[i].as_str()) {
            Some(c) => {
                node = c;
            },
            None => {
                return None;
            },
        }
        i += 1;
    }
    assert(names_view(cwd@).skip(i as int) =~= Seq::<Seq<char>>::empty());
    Some(node)
}

/// A child the search keeps: any child for an empty (lower-cased) query,
/// else one whose lower-cased name or path holds it.
pub open spec fn child_kept(c: StorageNode, q: Seq<char>) -> bool {
    q.len() == 0 || has_substring(unicode_lower(c.name@), q) || has_substring(
        unicode_lower(c.path@),
        q,
    )
}

pub open spec fn children_kept(s: Seq<StorageNode>, q: Seq<char>) -> Seq<StorageNode>
    decreases s.len(),
{
    if s.len() == 0 {
        Seq::empty()
    } else {
        let rest = children_kept(s.drop_last(), q);
        if child_kept(s.last(), q) {
            rest.push(s.last())
        } else {
            rest
        }
    }
}

pub open spec fn deref_nodes(v: Seq<&StorageNode>) -> Seq<StorageNode> {
    v.map_values(|n: &StorageNode| *n)
}

/// The children of `node` a search keeps, in order.
pub fn visible_storage_children<'a>(node: &'a StorageNode, query: &str) -> (r: Vec<&'a StorageNode>)
    ensures
        deref_nodes(r@) == children_kept(node.children@, unicode_lower(query@)),
{
    let q = to_lower(query);
    let mut r: Vec<&'a StorageNode> = Vec::new();
    let mut i: usize = 0;
    while i < node.children.len()
        invariant
            i <= node.children@.len(),
            q@ == unicode_lower(query@),
            deref_nodes(r@) == children_kept(node.children@.take(i as int), q@),
        decreases node.children@.len() - i,
    {
        assert(node.children@.take(i + 1).drop_last() =~= node.children@.take(i as int));
        let c = &node.children[i];
        let keep = if q.as_str().is_empty() {
            proof {
                assert(q@.len() == 0);
            }
            true
        } else {
            let name = to_lower(c.name.as_str());
            let path = to_lower(c.path.as_str());
            str_contains(name.as_str(), q.as_str()) || str_contains(path.as_str(), q.as_str())
        };
        let ghost before = r@;
        if keep {
            r.push(c);
            assert(deref_nodes(r@) =~= deref_nodes(before).push(node.children@[i as int]));
        }
        i += 1;
    }
    assert(node.children@.take(node.children@.len() as int) =~= node.children@);
    r
}

} // verus!
