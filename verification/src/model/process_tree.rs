//! Parent/child ordering of processes for the tree view.

use vstd::prelude::*;

verus! {

/// Deepest level the tree descends to.
pub const MAX_DEPTH: usize = 64;

/// A process as the tree reads it: its id and its name.
pub type ProcessName = (u32, String);

/// A tree row: process id, name and depth.
pub type TreeRow = (u32, String, usize);

/// A tree row as plain values.
pub type RowView = (u32, Seq<char>, nat);

pub open spec fn rows_view(v: Seq<TreeRow>) -> Seq<RowView> {
    v.map_values(|r: TreeRow| (r.0, r.1@, r.2 as nat))
}

/// The name listed for `pid`: the last process with that id.
pub open spec fn name_in(procs: Seq<ProcessName>, pid: u32) -> Option<Seq<char>>
    decreases procs.len(),
{
    if procs.len() == 0 {
        None
    } else if procs.last().0 == pid {
        Some(procs.last().1@)
    } else {
        name_in(procs.drop_last(), pid)
    }
}

/// The parent recorded for `pid` by its last entry (a process naming itself
/// as parent has none); `None` when no entry mentions it.
pub open spec fn parent_entry(details: Seq<(u32, Option<u32>)>, pid: u32) -> Option<Option<u32>>
    decreases details.len(),
{
    if details.len() == 0 {
        None
    } else if details.last().0 == pid {
        if details.last().1 == Some(pid) {
            Some(None)
        } else {
            Some(details.last().1)
        }
    } else {
        parent_entry(details.drop_last(), pid)
    }
}

/// A listed process starts the tree when it has no recorded parent or its
/// parent is not a listed process.
pub open spec fn is_root(procs: Seq<ProcessName>, details: Seq<(u32, Option<u32>)>, pid: u32) -> bool {
    match parent_entry(details, pid) {
        Some(Some(pp)) => name_in(procs, pp) is None,
        _ => true,
    }
}

/// Children entries of `parent`, in entry order.
pub open spec fn kids_raw(details: Seq<(u32, Option<u32>)>, parent: u32) -> Seq<u32>
    decreases details.len(),
{
    if details.len() == 0 {
        Seq::empty()
    } else {
        let rest = kids_raw(details.drop_last(), parent);
        let e = details.last();
        if e.1 == Some(parent) && e.0 != parent {
            rest.push(e.0)
        } else {
            rest
        }
    }
}

/// `x` placed into the ascending list `s`, after any equal values.
pub open spec fn insert_sorted(x: u32, s: Seq<u32>) -> Seq<u32>
    decreases s.len(),
{
    if s.len() == 0 {
        seq![x]
    } else if x < s[0] {
        seq![x] + s
    } else {
        seq![s[0]] + insert_sorted(x, s.drop_first())
    }
}

/// `s` in ascending order.
pub open spec fn sorted_ids(s: Seq<u32>) -> Seq<u32>
    decreases s.len(),
{
    if s.len() == 0 {
        Seq::empty()
    } else {
        insert_sorted(s.last(), sorted_ids(s.drop_last()))
    }
}

pub open spec fn kids(details: Seq<(u32, Option<u32>)>, parent: u32) -> Seq<u32> {
    sorted_ids(kids_raw(details, parent))
}

/// Ids of the listed processes that start the tree, in list order.
pub open spec fn roots_raw(procs: Seq<ProcessName>, all: Seq<ProcessName>, details: Seq<(u32, Option<u32>)>) -> Seq<u32>
    decreases procs.len(),
{
    if procs.len() == 0 {
        Seq::empty()
    } else {
        let rest = roots_raw(procs.drop_last(), all, details);
        if is_root(all, details, procs.last().0) {
            rest.push(procs.last().0)
        } else {
            rest
        }
    }
}

/// Depth-first rows under `pid` at `depth`, skipping processes already
/// visited and stopping below `MAX_DEPTH`; with the visited set after it.
pub open spec fn walk(
    procs: Seq<ProcessName>,
    details: Seq<(u32, Option<u32>)>,
    pid: u32,
    depth: nat,
    visited: Set<u32>,
) -> (Seq<RowView>, Set<u32>)
    decreases 65 - depth, 0nat,
{
    if depth > 64 || visited.contains(pid) {
        (Seq::empty(), visited)
    } else {
        let name = match name_in(procs, pid) {
            Some(n) => n,
            None => "?"@,
        };
        let (rows, vis) = walk_from(procs, details, kids(details, pid), 0, depth + 1, visited.insert(pid));
        (seq![(pid, name, depth)] + rows, vis)
    }
}

/// The walks of `ks[i..]` at `depth`, one after the other.
pub open spec fn walk_from(
    procs: Seq<ProcessName>,
    details: Seq<(u32, Option<u32>)>,
    ks: Seq<u32>,
    i: nat,
    depth: nat,
    visited: Set<u32>,
) -> (Seq<RowView>, Set<u32>)
    decreases 65 - depth, ks.len() - i,
{
    if i >= ks.len() {
        (Seq::empty(), visited)
    } else {
        let (a, v1) = walk(procs, details, ks[i as int], depth, visited);
        let (b, v2) = walk_from(procs, details, ks, i + 1, depth, v1);
        (a + b, v2)
    }
}

/// Processes the walk did not reach, flat at depth 0, in list order.
pub open spec fn orphans_from(procs: Seq<ProcessName>, i: nat, visited: Set<u32>) -> Seq<RowView>
    decreases procs.len() - i,
{
    if i >= procs.len() {
        Seq::empty()
    } else if visited.contains(procs[i as int].0) {
        orphans_from(procs, i + 1, visited)
    } else {
        seq![(procs[i as int].0, procs[i as int].1@, 0nat)] + orphans_from(
            procs,
            i + 1,
            visited.insert(procs[i as int].0),
        )
    }
}

/// The whole tree: the walks from the sorted roots, then the unreached.
pub open spec fn process_tree(procs: Seq<ProcessName>, details: Seq<(u32, Option<u32>)>) -> Seq<RowView> {
    let roots = sorted_ids(roots_raw(procs, procs, details));
    let (rows, vis) = walk_from(procs, details, roots, 0, 0, Set::empty());
    rows + orphans_from(procs, 0, vis)
}

fn name_lookup(procs: &[ProcessName], pid: u32) -> (r: String)
    ensures
        r@ == match name_in(procs@, pid) {
            Some(n) => n,
            None => "?"@,
        },
{
    let mut i: usize = procs.len();
    assert(procs@.take(i as int) =~= procs@);
    while i > 0
        invariant
            i <= procs@.len(),
            name_in(procs@, pid) == name_in(procs@.take(i as int), pid),
        decreases i,
    {
        assert(procs@.take(i as int).drop_last() =~= procs@.take(i - 1));
        if procs[i - 1].0 == pid {
            return procs[i - 1].1.clone();
        }
        i -= 1;
    }
    String::from_str("?")
}

fn parent_lookup(details: &[(u32, Option<u32>)], pid: u32) -> (r: Option<Option<u32>>)
    ensures
        r == parent_entry(details@, pid),
{
    let mut i: usize = details.len();
    assert(details@.take(i as int) =~= details@);
    while i > 0
        invariant
            i <= details@.len(),
            parent_entry(details@, pid) == parent_entry(details@.take(i as int), pid),
        decreases i,
    {
        assert(details@.take(i as int).drop_last() =~= details@.take(i - 1));
        let e = details[i - 1];
        if e.0 == pid {
            if e.1 == Some(pid) {
                return Some(None);
            }
            return Some(e.1);
        }
        i -= 1;
    }
    None
}

fn has_name(procs: &[ProcessName], pid: u32) -> (b: bool)
    ensures
        b == name_in(procs@, pid) is Some,
{
    let mut i: usize = procs.len();
    assert(procs@.take(i as int) =~= procs@);
    while i > 0
        invariant
            i <= procs@.len(),
            name_in(procs@, pid) == name_in(procs@.take(i as int), pid),
        decreases i,
    {
        assert(procs@.take(i as int).drop_last() =~= procs@.take(i - 1));
        if procs[i - 1].0 == pid {
            return true;
        }
        i -= 1;
    }
    false
}

fn root_check(procs: &[ProcessName], details: &[(u32, Option<u32>)], pid: u32) -> (b: bool)
    ensures
        b == is_root(procs@, details@, pid),
{
    match parent_lookup(details, pid) {
        Some(Some(pp)) => !has_name(procs, pp),
        _ => true,
    }
}

fn kids_of(details: &[(u32, Option<u32>)], parent: u32) -> (r: Vec<u32>)
    ensures
        r@ == kids_raw(details@, parent),
{
    let mut r: Vec<u32> = Vec::new();
    let mut i: usize = 0;
    while i < details.len()
        invariant
            i <= details@.len(),
            r@ == kids_raw(details@.take(i as int), parent),
        decreases details@.len() - i,
    {
        assert(details@.take(i + 1).drop_last() =~= details@.take(i as int));
        let e = details[i];
        if e.1 == Some(parent) && e.0 != parent {
            r.push(e.0);
        }
        i += 1;
    }
    assert(details@.take(details@.len() as int) =~= details@);
    r
}

proof fn lemma_insert_sorted_at(x: u32, s: Seq<u32>, pos: int)
    requires
        0 <= pos <= s.len(),
        forall|j: int| 0 <= j < pos ==> !(x < #[trigger] s[j]),
        pos < s.len() ==> x < s[pos],
    ensures
        insert_sorted(x, s) == s.insert(pos, x),
    decreases s.len(),
{
    if s.len() == 0 {
        assert(s.insert(pos, x) =~= seq![x]);
    } else if x < s[0] {
        if pos > 0 {
            assert(!(x < s[0]));
        }
        assert(s.insert(0, x) =~= seq![x] + s);
    } else {
        if pos == 0 {
            assert(x < s[0]);
        }
        let t = s.drop_first();
        assert forall|j: int| 0 <= j < pos - 1 implies !(x < #[trigger] t[j]) by {
            assert(t[j] == s[j + 1]);
        }
        lemma_insert_sorted_at(x, t, pos - 1);
        assert(s.insert(pos, x) =~= seq![s[0]] + t.insert(pos - 1, x));
    }
}

fn sort_ids(v: &Vec<u32>) -> (r: Vec<u32>)
    ensures
        r@ == sorted_ids(v@),
{
    let mut r: Vec<u32> = Vec::new();
    let mut i: usize = 0;
    while i < v.len()
        invariant
            i <= v@.len(),
            r@ == sorted_ids(v@.take(i as int)),
        decreases v@.len() - i,
    {
        let x = v[i];
        let mut pos: usize = 0;
        while pos < r.len() && !(x < r[pos])
            invariant
                pos <= r@.len(),
                forall|j: int| 0 <= j < pos ==> !(x < #[trigger] r@[j]),
            decreases r@.len() - pos,
        {
            pos += 1;
        }
        proof {
            lemma_insert_sorted_at(x, r@, pos as int);
            assert(v@.take(i + 1).drop_last() =~= v@.take(i as int));
            assert(v@.take(i + 1).last() == x);
        }
        r.insert(pos, x);
        i += 1;
    }
    assert(v@.take(v@.len() as int) =~= v@);
    r
}

fn visited_contains(visited: &Vec<u32>, pid: u32) -> (b: bool)
    ensures
        b == visited@.to_set().contains(pid),
{
    let mut i: usize = 0;
    while i < visited.len()
        invariant
            i <= visited@.len(),
            forall|j: int| 0 <= j < i ==> visited@[j] != pid,
        decreases visited@.len() - i,
    {
        if visited[i] == pid {
            assert(visited@.contains(pid));
            return true;
        }
        i += 1;
    }
    false
}

fn push_row(out: &mut Vec<TreeRow>, row: TreeRow)
    ensures
        rows_view(final(out)@) == rows_view(old(out)@).push((row.0, row.1@, row.2 as nat)),
{
    let ghost before = out@;
    out.push(row);
    assert(rows_view(out@) =~= rows_view(before).push((row.0, row.1@, row.2 as nat)));
}

fn walk_exec(
    procs: &[ProcessName],
    details: &[(u32, Option<u32>)],
    pid: u32,
    depth: usize,
    visited: &mut Vec<u32>,
    out: &mut Vec<TreeRow>,
)
    requires
        depth <= 65,
    ensures
        rows_view(final(out)@) == rows_view(old(out)@) + walk(
            procs@,
            details@,
            pid,
            depth as nat,
            old(visited)@.to_set(),
        ).0,
        final(visited)@.to_set() == walk(
            procs@,
            details@,
            pid,
            depth as nat,
            old(visited)@.to_set(),
        ).1,
    decreases 65 - depth, 0nat,
{
    let ghost out0 = rows_view(out@);
    let ghost vis0 = visited@.to_set();
    if depth > MAX_DEPTH || visited_contains(visited, pid) {
        assert(rows_view(out@) =~= out0 + Seq::<RowView>::empty());
        return;
    }
    let ghost before = visited@;
    visited.push(pid);
    proof {
        crate::seqs::lemma_push_to_set(before, pid);
    }
    let name = name_lookup(procs, pid);
    let ghost row: RowView = (pid, name@, depth as nat);
    push_row(out, (pid, name, depth));
    let raw = kids_of(details, pid);
    let ks = sort_ids(&raw);
    walk_from_exec(procs, details, &ks, 0, depth + 1, visited, out);
    proof {
        let (rows, vis) = walk_from(
            procs@,
            details@,
            kids(details@, pid),
            0,
            (depth + 1) as nat,
            vis0.insert(pid),
        );
        assert(rows_view(out@) =~= out0 + (seq![row] + rows));
    }
}

fn walk_from_exec(
    procs: &[ProcessName],
    details: &[(u32, Option<u32>)],
    ks: &Vec<u32>,
    i: usize,
    depth: usize,
    visited: &mut Vec<u32>,
    out: &mut Vec<TreeRow>,
)
    requires
        depth <= 65,
        i <= ks@.len(),
    ensures
        rows_view(final(out)@) == rows_view(old(out)@) + walk_from(
            procs@,
            details@,
            ks@,
            i as nat,
            depth as nat,
            old(visited)@.to_set(),
        ).0,
        final(visited)@.to_set() == walk_from(
            procs@,
            details@,
            ks@,
            i as nat,
            depth as nat,
            old(visited)@.to_set(),
        ).1,
    decreases 65 - depth, ks@.len() - i,
{
    let ghost out0 = rows_view(out@);
    if i >= ks.len() {
        assert(rows_view(out@) =~= out0 + Seq::<RowView>::empty());
        return;
    }
    let ghost vis0 = visited@.to_set();
    walk_exec(procs, details, ks[i], depth, visited, out);
    let ghost out1 = rows_view(out@);
    walk_from_exec(procs, details, ks, i + 1, depth, visited, out);
    proof {
        let (a, v1) = walk(procs@, details@, ks@[i as int], depth as nat, vis0);
        let (b, v2) = walk_from(procs@, details@, ks@, (i + 1) as nat, depth as nat, v1);
        assert(rows_view(out@) =~= out0 + (a + b));
    }
}

/// Rows of the process tree: each process under its parent, children in
/// ascending id order, depth-first from the ascending roots, at most
/// `MAX_DEPTH` levels deep, each process once; processes that no walk reached
/// follow at depth 0 in list order. `procs` holds each process's id and name,
/// `details_ppid` each known parent.
pub fn build_process_tree(procs: &[ProcessName], details_ppid: &[(u32, Option<u32>)]) -> (r: Vec<
    TreeRow,
>)
    ensures
        rows_view(r@) == process_tree(procs@, details_ppid@),
{
    let mut raw_roots: Vec<u32> = Vec::new();
    let mut i: usize = 0;
    while i < procs.len()
        invariant
            i <= procs@.len(),
            raw_roots@ == roots_raw(procs@.take(i as int), procs@, details_ppid@),
        decreases procs@.len() - i,
    {
        assert(procs@.take(i + 1).drop_last() =~= procs@.take(i as int));
        let pid = procs[i].0;
        if root_check(procs, details_ppid, pid) {
            raw_roots.push(pid);
        }
        i += 1;
    }
    assert(procs@.take(procs@.len() as int) =~= procs@);
    let roots = sort_ids(&raw_roots);
    let mut visited: Vec<u32> = Vec::new();
    let mut out: Vec<TreeRow> = Vec::new();
    assert(visited@.to_set() =~= Set::<u32>::empty());
    walk_from_exec(procs, details_ppid, &roots, 0, 0, &mut visited, &mut out);
    let ghost walked = rows_view(out@);
    let mut k: usize = 0;
    while k < procs.len()
        invariant
            k <= procs@.len(),
            rows_view(out@) + orphans_from(procs@, k as nat, visited@.to_set()) == walked
                + orphans_from(procs@, 0, walk_from(procs@, details_ppid@, sorted_ids(roots_raw(procs@, procs@, details_ppid@)), 0, 0, Set::empty()).1),
        decreases procs@.len() - k,
    {
        let pid = procs[k].0;
        let ghost cur = rows_view(out@);
        let ghost vis = visited@.to_set();
        if !visited_contains(&visited, pid) {
            let ghost before = visited@;
            visited.push(pid);
            proof {
                crate::seqs::lemma_push_to_set(before, pid);
            }
            push_row(&mut out, (pid, procs[k].1.clone(), 0));
            proof {
                let rest = orphans_from(procs@, (k + 1) as nat, visited@.to_set());
                assert(orphans_from(procs@, k as nat, vis) == seq![(pid, procs@[k as int].1@, 0nat)]
                    + rest);
                assert(rows_view(out@) + rest =~= cur + orphans_from(procs@, k as nat, vis));
            }
        }
        k += 1;
    }
    proof {
        assert(rows_view(out@) + orphans_from(procs@, k as nat, visited@.to_set()) =~= rows_view(
            out@,
        ));
    }
    out
}

} // verus!
