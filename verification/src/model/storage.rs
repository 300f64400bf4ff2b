//! Storage tree model: the scanned directory tree, its aggregation and its
//! orderings, and the paths a scan leaves out.

use vstd::prelude::*;

use crate::model::metrics::bytes_text;
use crate::model::metrics::format_bytes;
use crate::text::lemma_text_less_order;
use crate::text::text_less;
use crate::text::text_lt;

verus! {

#[derive(Debug, Clone, Copy, PartialEq, Eq, Structural)]
pub enum StorageTab {
    Mounts,
    DirectoryUsage,
    LargestFiles,
}

impl Default for StorageTab {
    fn default() -> (t: Self)
        ensures
            t == StorageTab::Mounts,
    {
        StorageTab::Mounts
    }
}

impl StorageTab {
    pub open spec fn following(self) -> Self {
        match self {
            StorageTab::Mounts => StorageTab::DirectoryUsage,
            StorageTab::DirectoryUsage => StorageTab::LargestFiles,
            StorageTab::LargestFiles => StorageTab::Mounts,
        }
    }

    pub fn next(self) -> (r: Self)
        ensures
            r == self.following(),
    {
        match self {
            StorageTab::Mounts => StorageTab::DirectoryUsage,
            StorageTab::DirectoryUsage => StorageTab::LargestFiles,
            StorageTab::LargestFiles => StorageTab::Mounts,
        }
    }

    pub open spec fn label_text(self) -> Seq<char> {
        match self {
            StorageTab::Mounts => "mounts"@,
            StorageTab::DirectoryUsage => "dirs"@,
            StorageTab::LargestFiles => "largest"@,
        }
    }

    pub fn label(self) -> (s: &'static str)
        ensures
            s@ == self.label_text(),
    {
        match self {
            StorageTab::Mounts => "mounts",
            StorageTab::DirectoryUsage => "dirs",
            StorageTab::LargestFiles => "largest",
        }
    }
}

/// Three presses of `next` come back to the same tab.
pub proof fn lemma_tab_cycle(t: StorageTab)
    ensures
        t.following().following().following() == t,
{
}

#[derive(Debug, Clone, Copy, PartialEq, Eq, Structural)]
pub enum StorageSort {
    Size,
    Name,
}

impl Default for StorageSort {
    fn default() -> (s: Self)
        ensures
            s == StorageSort::Size,
    {
        StorageSort::Size
    }
}

impl StorageSort {
    pub open spec fn following(self) -> Self {
        match self {
            StorageSort::Size => StorageSort::Name,
            StorageSort::Name => StorageSort::Size,
        }
    }

    pub fn next(self) -> (r: Self)
        ensures
            r == self.following(),
    {
        match self {
            StorageSort::Size => StorageSort::Name,
            StorageSort::Name => StorageSort::Size,
        }
    }

    pub open spec fn label_text(self) -> Seq<char> {
        match self {
            StorageSort::Size => "size"@,
            StorageSort::Name => "name"@,
        }
    }

    pub fn label(self) -> (s: &'static str)
        ensures
            s@ == self.label_text(),
    {
        match self {
            StorageSort::Size => "size",
            StorageSort::Name => "name",
        }
    }
}

/// A scanned file or directory. `path` is the path as text.
#[derive(Debug)]
pub struct StorageNode {
    pub name: String,
    pub path: String,
    pub is_dir: bool,
    pub size: u64,
    pub apparent_size: u64,
    pub children: Vec<StorageNode>,
    pub inaccessible: bool,
    pub error: Option<String>,
}

/// `a + b`, stopping at `u64::MAX`.
pub open spec fn sat_add(a: int, b: int) -> int {
    if a + b > u64::MAX {
        u64::MAX as int
    } else {
        a + b
    }
}

/// Saturating sum of a list of sizes, added left to right.
pub open spec fn sat_sum(s: Seq<u64>) -> int
    decreases s.len(),
{
    if s.len() == 0 {
        0
    } else {
        sat_add(sat_sum(s.drop_last()), s.last() as int)
    }
}

pub open spec fn sizes_of(s: Seq<StorageNode>) -> Seq<u64> {
    s.map_values(|c: StorageNode| c.size)
}

pub open spec fn apparent_sizes_of(s: Seq<StorageNode>) -> Seq<u64> {
    s.map_values(|c: StorageNode| c.apparent_size)
}

/// `new` and `old` agree on everything but sizes and children.
pub open spec fn same_entry(new: StorageNode, old: StorageNode) -> bool {
    &&& new.name == old.name
    &&& new.path == old.path
    &&& new.is_dir == old.is_dir
    &&& new.inaccessible == old.inaccessible
    &&& new.error == old.error
}

/// `new` is `old` with every directory's sizes replaced, bottom-up, by the
/// saturating sums of its children's sizes; files keep theirs, and what lies
/// under a file is left alone.
pub open spec fn aggregated(new: StorageNode, old: StorageNode) -> bool
    decreases old,
{
    if !old.is_dir {
        new == old
    } else {
        &&& same_entry(new, old)
        &&& new.children@.len() == old.children@.len()
        &&& forall|i: int|
            0 <= i < old.children@.len() ==> aggregated(
                #[trigger] new.children@[i],
                old.children@[i],
            )
        &&& new.size == sat_sum(sizes_of(new.children@))
        &&& new.apparent_size == sat_sum(apparent_sizes_of(new.children@))
    }
}

fn saturating_add(a: u64, b: u64) -> (r: u64)
    ensures
        r == sat_add(a as int, b as int),
{
    if a > u64::MAX - b {
        u64::MAX
    } else {
        a + b
    }
}

/// Aggregates child sizes into their directories, bottom-up.
pub fn aggregate_sizes(node: &mut StorageNode)
    ensures
        aggregated(*final(node), *old(node)),
    decreases *old(node),
{
    if !node.is_dir {
        return;
    }
    let mut src: Vec<StorageNode> = Vec::new();
    std::mem::swap(&mut src, &mut node.children);
    let ghost before = src@;
    assert(before.len() == src.len());
    let mut out: Vec<StorageNode> = Vec::new();
    let mut size: u64 = 0;
    let mut apparent: u64 = 0;
    let mut k: usize = 0;
    while src.len() > 0
        invariant
            before == old(node).children@,
            before.len() <= usize::MAX,
            k <= before.len(),
            src@ == before.subrange(k as int, before.len() as int),
            out@.len() == k,
            forall|i: int| 0 <= i < k ==> aggregated(#[trigger] out@[i], before[i]),
            size == sat_sum(sizes_of(out@)),
            apparent == sat_sum(apparent_sizes_of(out@)),
            node.name == old(node).name,
            node.path == old(node).path,
            node.is_dir == old(node).is_dir,
            node.is_dir,
            node.inaccessible == old(node).inaccessible,
            node.error == old(node).error,
        decreases src.len(),
    {
        let mut c = src.remove(0);
        assert(c == old(node).children@[k as int]);
        aggregate_sizes(&mut c);
        size = saturating_add(size, c.size);
        apparent = saturating_add(apparent, c.apparent_size);
        let ghost prev = out@;
        out.push(c);
        proof {
            assert(sizes_of(out@).drop_last() =~= sizes_of(prev));
            assert(apparent_sizes_of(out@).drop_last() =~= apparent_sizes_of(prev));
        }
        k += 1;
    }
    node.children = out;
    node.size = size;
    node.apparent_size = apparent;
}

/// `a` is listed before `b`: by size, largest first, then by name; or by
/// name alone.
pub open spec fn sorts_before(a: StorageNode, b: StorageNode, sort: StorageSort) -> bool {
    match sort {
        StorageSort::Size => a.size > b.size || (a.size == b.size && text_less(a.name@, b.name@)),
        StorageSort::Name => text_less(a.name@, b.name@),
    }
}

/// `a` and `b` have the same sort key.
pub open spec fn same_key(a: StorageNode, b: StorageNode, sort: StorageSort) -> bool {
    match sort {
        StorageSort::Size => a.size == b.size && a.name@ == b.name@,
        StorageSort::Name => a.name@ == b.name@,
    }
}

/// `p` lists each index below `n` once.
pub open spec fn is_permutation(p: Seq<int>, n: int) -> bool {
    &&& p.len() == n
    &&& forall|i: int| 0 <= i < n ==> 0 <= #[trigger] p[i] < n
    &&& forall|i: int, j: int| 0 <= i < j < n ==> p[i] != p[j]
}

/// `s` is in sort order, and entries with the same key keep the order of
/// their input positions `p` (a stable sort).
pub open spec fn in_order(s: Seq<StorageNode>, p: Seq<int>, sort: StorageSort) -> bool {
    forall|i: int, j: int|
        0 <= i < j < s.len() ==> !sorts_before(#[trigger] s[j], #[trigger] s[i], sort) && (same_key(
            s[i],
            s[j],
            sort,
        ) ==> p[i] < p[j])
}

/// `new` is `old` with the children of every directory stably sorted.
pub open spec fn sorted_tree(new: StorageNode, old: StorageNode, sort: StorageSort) -> bool
    decreases old,
{
    &&& same_entry(new, old)
    &&& new.size == old.size
    &&& new.apparent_size == old.apparent_size
    &&& new.children@.len() == old.children@.len()
    &&& exists|p: Seq<int>|
        #[trigger] is_permutation(p, old.children@.len() as int) && in_order(new.children@, p, sort)
            && forall|i: int|
            0 <= i < old.children@.len() ==> 0 <= p[i] < old.children@.len() && sorted_tree(
                #[trigger] new.children@[i],
                old.children@[p[i]],
                sort,
            )
}

proof fn lemma_key_order(a: StorageNode, b: StorageNode, c: StorageNode, sort: StorageSort)
    ensures
        !sorts_before(a, a, sort),
        sorts_before(a, b, sort) ==> !sorts_before(b, a, sort),
        sorts_before(a, b, sort) && sorts_before(b, c, sort) ==> sorts_before(a, c, sort),
        same_key(a, b, sort) ==> (sorts_before(a, c, sort) <==> sorts_before(b, c, sort)),
        same_key(a, b, sort) ==> (sorts_before(c, a, sort) <==> sorts_before(c, b, sort)),
        same_key(a, b, sort) ==> !sorts_before(a, b, sort),
        !sorts_before(a, b, sort) && !sorts_before(b, a, sort) ==> same_key(a, b, sort),
{
    lemma_text_less_order(a.name@, b.name@, c.name@);
    lemma_text_less_order(b.name@, c.name@, a.name@);
    lemma_text_less_order(c.name@, a.name@, b.name@);
    lemma_text_less_order(a.name@, c.name@, b.name@);
    lemma_text_less_order(b.name@, a.name@, c.name@);
    lemma_text_less_order(c.name@, b.name@, a.name@);
}

/// `a` is listed before `b` under `sort`.
pub fn node_before(a: &StorageNode, b: &StorageNode, sort: StorageSort) -> (r: bool)
    ensures
        r == sorts_before(*a, *b, sort),
{
    match sort {
        StorageSort::Size => a.size > b.size || (a.size == b.size && text_lt(
            a.name.as_str(),
            b.name.as_str(),
        )),
        StorageSort::Name => text_lt(a.name.as_str(), b.name.as_str()),
    }
}

/// The first node of `s` called `name`.
pub open spec fn first_named(s: Seq<StorageNode>, name: Seq<char>) -> Option<StorageNode>
    decreases s.len(),
{
    if s.len() == 0 {
        None
    } else if s[0].name@ == name {
        Some(s[0])
    } else {
        first_named(s.drop_first(), name)
    }
}

proof fn lemma_first_named(s: Seq<StorageNode>, name: Seq<char>, i: int)
    requires
        0 <= i <= s.len(),
        forall|j: int| 0 <= j < i ==> s[j].name@ != name,
        i < s.len() ==> s[i].name@ == name,
    ensures
        i < s.len() ==> first_named(s, name) == Some(s[i]),
        i == s.len() ==> first_named(s, name) is None,
    decreases i,
{
    if i > 0 {
        lemma_first_named(s.drop_first(), name, i - 1);
    }
}

/// Child `i` is listed before child `j`: by key, equal keys by position.
pub open spec fn index_first(c: Seq<StorageNode>, i: int, j: int, sort: StorageSort) -> bool {
    sorts_before(c[i], c[j], sort) || (same_key(c[i], c[j], sort) && i < j)
}

/// `v` holds distinct child positions below `n`.
pub open spec fn distinct_below(v: Seq<usize>, n: int) -> bool {
    &&& forall|a: int| 0 <= a < v.len() ==> #[trigger] v[a] < n
    &&& forall|a: int, b: int| 0 <= a < b < v.len() ==> v[a] != v[b]
}

pub open spec fn ordered_by(c: Seq<StorageNode>, v: Seq<usize>, sort: StorageSort) -> bool {
    forall|a: int, b: int| 0 <= a < b < v.len() ==> index_first(c, v[a] as int, v[b] as int, sort)
}

proof fn lemma_index_first_order(c: Seq<StorageNode>, i: int, j: int, m: int, sort: StorageSort)
    requires
        0 <= i < c.len(),
        0 <= j < c.len(),
        0 <= m < c.len(),
    ensures
        !index_first(c, i, i, sort),
        index_first(c, i, j, sort) ==> !index_first(c, j, i, sort),
        i != j ==> index_first(c, i, j, sort) || index_first(c, j, i, sort),
        index_first(c, i, j, sort) && index_first(c, j, m, sort) ==> index_first(c, i, m, sort),
{
    lemma_key_order(c[i], c[j], c[m], sort);
    lemma_key_order(c[j], c[m], c[i], sort);
    lemma_key_order(c[m], c[i], c[j], sort);
    lemma_key_order(c[i], c[m], c[j], sort);
    lemma_key_order(c[j], c[i], c[m], sort);
    lemma_key_order(c[m], c[j], c[i], sort);
}

fn index_first_exec(c: &Vec<StorageNode>, i: usize, j: usize, sort: StorageSort) -> (b: bool)
    requires
        i < c@.len(),
        j < c@.len(),
    ensures
        b == index_first(c@, i as int, j as int, sort),
{
    if node_before(&c[i], &c[j], sort) {
        return true;
    }
    if node_before(&c[j], &c[i], sort) {
        proof {
            lemma_key_order(c@[i as int], c@[j as int], c@[i as int], sort);
        }
        return false;
    }
    proof {
        lemma_key_order(c@[i as int], c@[j as int], c@[i as int], sort);
    }
    i < j
}

/// Merges two ordered, disjoint lists of positions.
fn merge_positions(c: &Vec<StorageNode>, a: Vec<usize>, b: Vec<usize>, sort: StorageSort) -> (r: Vec<
    usize,
>)
    requires
        distinct_below(a@, c@.len() as int),
        distinct_below(b@, c@.len() as int),
        a@.to_set().disjoint(b@.to_set()),
        ordered_by(c@, a@, sort),
        ordered_by(c@, b@, sort),
    ensures
        r@.len() == a@.len() + b@.len(),
        distinct_below(r@, c@.len() as int),
        r@.to_set() == a@.to_set().union(b@.to_set()),
        ordered_by(c@, r@, sort),
{
    let ghost cs = c@;
    let mut out: Vec<usize> = Vec::new();
    let mut ia: usize = 0;
    let mut ib: usize = 0;
    while ia < a.len() || ib < b.len()
        invariant
            cs == c@,
            ia <= a@.len(),
            ib <= b@.len(),
            distinct_below(a@, cs.len() as int),
            distinct_below(b@, cs.len() as int),
            a@.to_set().disjoint(b@.to_set()),
            ordered_by(cs, a@, sort),
            ordered_by(cs, b@, sort),
            out@.len() == ia + ib,
            distinct_below(out@, cs.len() as int),
            out@.to_set() == a@.take(ia as int).to_set().union(b@.take(ib as int).to_set()),
            ordered_by(cs, out@, sort),
            forall|t: int, x: int|
                0 <= t < out@.len() && ia <= x < a@.len() ==> index_first(
                    cs,
                    #[trigger] out@[t] as int,
                    #[trigger] a@[x] as int,
                    sort,
                ),
            forall|t: int, x: int|
                0 <= t < out@.len() && ib <= x < b@.len() ==> index_first(
                    cs,
                    #[trigger] out@[t] as int,
                    #[trigger] b@[x] as int,
                    sort,
                ),
        decreases a@.len() + b@.len() - ia - ib,
    {
        let take_a = if ia < a.len() && ib < b.len() {
            index_first_exec(c, a[ia], b[ib], sort)
        } else {
            ia < a.len()
        };
        let ghost prev = out@;
        if take_a {
            let x = a[ia];
            proof {
                // x is before everything left in `b` and after nothing left in `a`
                assert forall|y: int| ib <= y < b@.len() implies index_first(cs, x as int, #[trigger] b@[y] as int, sort) by {
                    if y > ib {
                        lemma_index_first_order(cs, x as int, b@[ib as int] as int, b@[y] as int, sort);
                    }
                }
                assert forall|y: int| ia < y < a@.len() implies index_first(cs, x as int, #[trigger] a@[y] as int, sort) by {}
                assert(!prev.contains(x)) by {
                    if prev.contains(x) {
                        let t = choose|t: int| 0 <= t < prev.len() && prev[t] == x;
                        assert(index_first(cs, prev[t] as int, a@[ia as int] as int, sort));
                        lemma_index_first_order(cs, x as int, x as int, x as int, sort);
                    }
                }
            }
            out.push(x);
            proof {
                assert(a@.take(ia + 1) =~= a@.take(ia as int).push(x));
                crate::seqs::lemma_push_to_set(a@.take(ia as int), x);
                crate::seqs::lemma_push_to_set(prev, x);
                assert(out@.to_set() =~= a@.take(ia + 1).to_set().union(b@.take(ib as int).to_set()));
                assert forall|p: int, q: int| 0 <= p < q < out@.len() implies out@[p] != out@[q] by {
                    if q == prev.len() {
                        assert(prev.contains(out@[p]));
                    }
                }
            }
            ia += 1;
        } else {
            let x = b[ib];
            proof {
                if ia < a@.len() {
                    assert(x != a@[ia as int]) by {
                        assert(b@.to_set().contains(x));
                        assert(a@.to_set().contains(a@[ia as int]));
                    }
                    lemma_index_first_order(cs, x as int, a@[ia as int] as int, x as int, sort);
                }
                assert forall|y: int| ia <= y < a@.len() implies index_first(cs, x as int, #[trigger] a@[y] as int, sort) by {
                    if y > ia {
                        lemma_index_first_order(cs, x as int, a@[ia as int] as int, a@[y] as int, sort);
                    }
                }
                assert forall|y: int| ib < y < b@.len() implies index_first(cs, x as int, #[trigger] b@[y] as int, sort) by {}
                assert(!prev.contains(x)) by {
                    if prev.contains(x) {
                        let t = choose|t: int| 0 <= t < prev.len() && prev[t] == x;
                        assert(index_first(cs, prev[t] as int, b@[ib as int] as int, sort));
                        lemma_index_first_order(cs, x as int, x as int, x as int, sort);
                    }
                }
            }
            out.push(x);
            proof {
                assert(b@.take(ib + 1) =~= b@.take(ib as int).push(x));
                crate::seqs::lemma_push_to_set(b@.take(ib as int), x);
                crate::seqs::lemma_push_to_set(prev, x);
                assert(out@.to_set() =~= a@.take(ia as int).to_set().union(b@.take(ib + 1).to_set()));
                assert forall|p: int, q: int| 0 <= p < q < out@.len() implies out@[p] != out@[q] by {
                    if q == prev.len() {
                        assert(prev.contains(out@[p]));
                    }
                }
            }
            ib += 1;
        }
    }
    assert(a@.take(a@.len() as int) =~= a@);
    assert(b@.take(b@.len() as int) =~= b@);
    out
}

/// Sorts distinct child positions by `index_first` (merge sort).
fn sort_positions(c: &Vec<StorageNode>, v: Vec<usize>, sort: StorageSort) -> (r: Vec<usize>)
    requires
        distinct_below(v@, c@.len() as int),
    ensures
        r@.len() == v@.len(),
        distinct_below(r@, c@.len() as int),
        r@.to_set() == v@.to_set(),
        ordered_by(c@, r@, sort),
    decreases v@.len(),
{
    if v.len() <= 1 {
        return v;
    }
    let mid = v.len() / 2;
    let ghost whole = v@;
    let mut left = v;
    let right = left.split_off(mid);
    proof {
        assert(whole =~= left@ + right@);
        assert(left@.to_set().disjoint(right@.to_set())) by {
            assert forall|x: usize| left@.to_set().contains(x) implies !right@.to_set().contains(x) by {
                let p = choose|p: int| 0 <= p < left@.len() && left@[p] == x;
                if right@.contains(x) {
                    let q = choose|q: int| 0 <= q < right@.len() && right@[q] == x;
                    assert(whole[p] == x && whole[mid + q] == x);
                }
            }
        }
        assert(whole.to_set() =~= left@.to_set().union(right@.to_set())) by {
            assert forall|x: usize| whole.to_set().contains(x) <==> left@.to_set().union(right@.to_set()).contains(x) by {
                if whole.contains(x) {
                    let p = choose|p: int| 0 <= p < whole.len() && whole[p] == x;
                    if p < mid {
                        assert(left@[p] == x);
                    } else {
                        assert(right@[p - mid] == x);
                    }
                }
                if left@.contains(x) {
                    let p = choose|p: int| 0 <= p < left@.len() && left@[p] == x;
                    assert(whole[p] == x);
                }
                if right@.contains(x) {
                    let p = choose|p: int| 0 <= p < right@.len() && right@[p] == x;
                    assert(whole[mid + p] == x);
                }
            }
        }
    }
    let l = sort_positions(c, left, sort);
    let r = sort_positions(c, right, sort);
    merge_positions(c, l, r, sort)
}

fn empty_node() -> (n: StorageNode)
    ensures
        n.name@ == Seq::<char>::empty(),
        n.path@ == Seq::<char>::empty(),
        !n.is_dir,
        n.size == 0,
        n.apparent_size == 0,
        n.children@ == Seq::<StorageNode>::empty(),
        !n.inaccessible,
        n.error is None,
{
    StorageNode {
        name: String::new(),
        path: String::new(),
        is_dir: false,
        size: 0,
        apparent_size: 0,
        children: Vec::new(),
        inaccessible: false,
        error: None,
    }
}

/// `a` and `b` are the same tree: the same entries with the same sizes, and
/// the same children in the same order, all the way down.
pub open spec fn same_tree(a: StorageNode, b: StorageNode) -> bool
    decreases a,
{
    &&& same_entry(a, b)
    &&& a.size == b.size
    &&& a.apparent_size == b.apparent_size
    &&& a.children@.len() == b.children@.len()
    &&& forall|i: int|
        0 <= i < a.children@.len() ==> same_tree(#[trigger] a.children@[i], b.children@[i])
}

/// A strictly increasing permutation leaves every position where it is.
proof fn lemma_increasing_permutation(q: Seq<int>, n: int)
    requires
        is_permutation(q, n),
        forall|i: int, j: int| 0 <= i < j < n ==> q[i] < q[j],
    ensures
        forall|i: int| 0 <= i < n ==> #[trigger] q[i] == i,
{
    assert forall|i: int| 0 <= i < n implies #[trigger] q[i] >= i by {
        lemma_increasing_at_least(q, n, i);
    }
    assert forall|i: int| 0 <= i < n implies #[trigger] q[i] <= i by {
        lemma_increasing_at_most(q, n, i);
    }
}

proof fn lemma_increasing_at_least(q: Seq<int>, n: int, i: int)
    requires
        is_permutation(q, n),
        forall|a: int, b: int| 0 <= a < b < n ==> q[a] < q[b],
        0 <= i < n,
    ensures
        q[i] >= i,
    decreases i,
{
    if i > 0 {
        lemma_increasing_at_least(q, n, i - 1);
        assert(q[i - 1] < q[i]);
    }
}

proof fn lemma_increasing_at_most(q: Seq<int>, n: int, i: int)
    requires
        is_permutation(q, n),
        forall|a: int, b: int| 0 <= a < b < n ==> q[a] < q[b],
        0 <= i < n,
    ensures
        q[i] <= i,
    decreases n - i,
{
    if i < n - 1 {
        lemma_increasing_at_most(q, n, i + 1);
        assert(q[i] < q[i + 1]);
    } else {
        assert(q[i] < n);
    }
}

/// Sorting an already sorted tree again with the same order changes
/// nothing: every level of a sorted tree is in order, and a stable sort of
/// a sequence in order keeps every entry where it is.
pub proof fn lemma_sort_idempotent(t: StorageNode, m: StorageNode, m2: StorageNode, sort: StorageSort)
    requires
        sorted_tree(m, t, sort),
        sorted_tree(m2, m, sort),
    ensures
        same_tree(m2, m),
    decreases t,
{
    let n = t.children@.len() as int;
    let mc = m.children@;
    let m2c = m2.children@;
    let p = choose|p: Seq<int>|
        #[trigger] is_permutation(p, n) && in_order(mc, p, sort) && forall|i: int|
            0 <= i < n ==> 0 <= p[i] < n && sorted_tree(#[trigger] mc[i], t.children@[p[i]], sort);
    let q = choose|q: Seq<int>|
        #[trigger] is_permutation(q, n) && in_order(m2c, q, sort) && forall|i: int|
            0 <= i < n ==> 0 <= q[i] < n && sorted_tree(#[trigger] m2c[i], mc[q[i]], sort);
    assert forall|i: int, j: int| 0 <= i < j < n implies q[i] < q[j] by {
        if q[i] > q[j] {
            let a = q[j];
            let b = q[i];
            assert(sorted_tree(m2c[i], mc[b], sort));
            assert(sorted_tree(m2c[j], mc[a], sort));
            assert(!sorts_before(mc[b], mc[a], sort));
            assert(!sorts_before(m2c[j], m2c[i], sort));
            lemma_key_order(m2c[i], m2c[j], m2c[i], sort);
            lemma_key_order(mc[b], mc[a], mc[b], sort);
            assert(same_key(m2c[i], m2c[j], sort));
        }
    }
    lemma_increasing_permutation(q, n);
    assert forall|i: int| 0 <= i < n implies same_tree(#[trigger] m2c[i], mc[i]) by {
        assert(q[i] == i);
        assert(sorted_tree(mc[i], t.children@[p[i]], sort));
        assert(sorted_tree(m2c[i], mc[i], sort));
        lemma_sort_idempotent(t.children@[p[i]], mc[i], m2c[i], sort);
    }
}

impl StorageNode {
    /// Stably sorts the children of this node and of every node below it.
    pub fn sort_children(&mut self, sort: StorageSort)
        ensures
            sorted_tree(*final(self), *old(self), sort),
        decreases *old(self),
    {
        let mut kids: Vec<StorageNode> = Vec::new();
        std::mem::swap(&mut kids, &mut self.children);
        let ghost before = kids@;
        let n = kids.len();
        let mut i: usize = 0;
        while i < n
            invariant
                before == old(self).children@,
                n == before.len(),
                kids@.len() == n,
                i <= n,
                forall|t: int| 0 <= t < i ==> sorted_tree(#[trigger] kids@[t], before[t], sort),
                forall|t: int| i <= t < n ==> #[trigger] kids@[t] == before[t],
                same_entry(*self, *old(self)),
                self.size == old(self).size,
                self.apparent_size == old(self).apparent_size,
            decreases n - i,
        {
            let mut c = empty_node();
            kids.set_and_swap(i, &mut c);
            assert(c == old(self).children@[i as int]);
            c.sort_children(sort);
            kids.set_and_swap(i, &mut c);
            i += 1;
        }
        let ghost sorted_kids = kids@;
        let mut all: Vec<usize> = Vec::new();
        let mut t: usize = 0;
        while t < n
            invariant
                t <= n,
                all@.len() == t,
                forall|a: int| 0 <= a < t ==> #[trigger] all@[a] == a,
            decreases n - t,
        {
            all.push(t);
            t += 1;
        }
        let order = sort_positions(&kids, all, sort);
        let mut out: Vec<StorageNode> = Vec::new();
        let mut k: usize = 0;
        while k < n
            invariant
                k <= n,
                order@.len() == n,
                kids@.len() == n,
                sorted_kids.len() == n,
                distinct_below(order@, n as int),
                out@.len() == k,
                forall|a: int| 0 <= a < k ==> #[trigger] out@[a] == sorted_kids[order@[a] as int],
                forall|x: int|
                    0 <= x < n && !order@.take(k as int).contains(x as usize) ==> #[trigger] kids@[x]
                        == sorted_kids[x],
                same_entry(*self, *old(self)),
                self.size == old(self).size,
                self.apparent_size == old(self).apparent_size,
            decreases n - k,
        {
            let x = order[k];
            let mut c = empty_node();
            proof {
                assert(!order@.take(k as int).contains(x)) by {
                    if order@.take(k as int).contains(x) {
                        let p = choose|p: int| 0 <= p < k && order@.take(k as int)[p] == x;
                        assert(order@[p] == order@[k as int]);
                    }
                }
            }
            kids.set_and_swap(x, &mut c);
            out.push(c);
            proof {
                assert(order@.take(k + 1) =~= order@.take(k as int).push(x));
                assert forall|y: int|
                    0 <= y < n && !order@.take(k + 1).contains(y as usize) implies #[trigger] kids@[y]
                    == sorted_kids[y] by {
                    if y != x {
                        assert(!order@.take(k as int).contains(y as usize)) by {
                            if order@.take(k as int).contains(y as usize) {
                                let p = choose|p: int| 0 <= p < k && order@.take(k as int)[p] == y as usize;
                                assert(order@.take(k + 1)[p] == y as usize);
                            }
                        }
                    } else {
                        assert(order@.take(k + 1)[k as int] == x);
                    }
                }
            }
            k += 1;
        }
        self.children = out;
        proof {
            let p: Seq<int> = order@.map_values(|u: usize| u as int);
            let o = self.children@;
            assert forall|a: int| 0 <= a < n implies #[trigger] sorted_kids[a].name == before[a].name
                && sorted_kids[a].size == before[a].size by {
                assert(sorted_tree(sorted_kids[a], before[a], sort));
            }
            assert(is_permutation(p, n as int));
            assert forall|a: int, b: int| 0 <= a < b < o.len() implies !sorts_before(
                #[trigger] o[b],
                #[trigger] o[a],
                sort,
            ) && (same_key(o[a], o[b], sort) ==> p[a] < p[b]) by {
                let ia = order@[a] as int;
                let ib = order@[b] as int;
                assert(index_first(sorted_kids, ia, ib, sort));
                lemma_key_order(o[a], o[b], o[a], sort);
            }
            assert(in_order(o, p, sort));
            assert forall|a: int| 0 <= a < n implies 0 <= p[a] < n && sorted_tree(
                #[trigger] o[a],
                before[p[a]],
                sort,
            ) by {
                assert(o[a] == sorted_kids[order@[a] as int]);
            }
        }
    }

    /// The first child called `name`.
    pub fn find_child(&self, name: &str) -> (r: Option<&StorageNode>)
        ensures
            match r {
                Some(c) => first_named(self.children@, name@) == Some(*c),
                None => first_named(self.children@, name@) is None,
            },
            match r {
                Some(c) => exists|i: int|
                    0 <= i < self.children@.len() && *c == self.children@[i] && c.name@ == name@
                        && forall|j: int| 0 <= j < i ==> self.children@[j].name@ != name@,
                None => forall|j: int| 0 <= j < self.children@.len() ==> self.children@[j].name@ != name@,
            },
    {
        let mut i: usize = 0;
        while i < self.children.len()
            invariant
                i <= self.children.len(),
                forall|j: int| 0 <= j < i ==> self.children@[j].name@ != name@,
            decreases self.children.len() - i,
        {
            if crate::text::str_eq(self.children[i].name.as_str(), name) {
                proof {
                    lemma_first_named(self.children@, name@, i as int);
                }
                return Some(&self.children[i]);
            }
            i += 1;
        }
        proof {
            lemma_first_named(self.children@, name@, self.children@.len() as int);
        }
        None
    }
}

/// Progress of a running scan.
#[derive(Debug, Clone)]
pub struct StorageProgress {
    pub root: String,
    pub files: u64,
    pub dirs: u64,
    pub bytes: u64,
    pub current: String,
    pub errors: u64,
}

impl Default for StorageProgress {
    fn default() -> (p: Self)
        ensures
            p.root@.len() == 0,
            p.files == 0,
            p.dirs == 0,
            p.bytes == 0,
            p.current@.len() == 0,
            p.errors == 0,
    {
        StorageProgress {
            root: String::new(),
            files: 0,
            dirs: 0,
            bytes: 0,
            current: String::new(),
            errors: 0,
        }
    }
}

/// A finished scan.
#[derive(Debug)]
pub struct StorageTree {
    pub root: StorageNode,
    pub files: u64,
    pub dirs: u64,
    pub errors: u64,
    pub excluded: Vec<String>,
    /// The scan stopped early on its entry budget.
    pub truncated: bool,
}

/// Virtual file systems a scan never enters.
pub open spec fn default_excluded() -> Seq<Seq<char>> {
    seq!["/proc"@, "/sys"@, "/dev"@, "/run"@]
}

pub fn default_exclusions() -> (v: Vec<String>)
    ensures
        v@.map_values(|s: String| s@) == default_excluded(),
{
    let mut v: Vec<String> = Vec::new();
    v.push(String::from_str("/proc"));
    v.push(String::from_str("/sys"));
    v.push(String::from_str("/dev"));
    v.push(String::from_str("/run"));
    assert(v@.map_values(|s: String| s@) =~= default_excluded());
    v
}

/// Whether `path` starts with the components of `base` (`Path::starts_with`).
pub uninterp spec fn path_starts_with(path: Seq<char>, base: Seq<char>) -> bool;

/// Whether two paths have the same components (`Path`'s `==`).
pub uninterp spec fn path_equal(a: Seq<char>, b: Seq<char>) -> bool;

/// `std::path::Path::starts_with`: true when the components of `base` are the
/// first components of `path`. The contract names the result.
#[verifier::external_body]
fn path_has_prefix(path: &str, base: &str) -> (b: bool)
    ensures
        b == path_starts_with(path@, base@),
{
    std::path::Path::new(path).starts_with(base)
}

/// `==` on `std::path::Path`: the two paths have the same components. The
/// contract names the result.
#[verifier::external_body]
fn paths_equal(a: &str, b: &str) -> (r: bool)
    ensures
        r == path_equal(a@, b@),
{
    std::path::Path::new(a) == std::path::Path::new(b)
}

/// `path` is one of `exclusions` or lies under one of them.
pub fn should_exclude(path: &str, exclusions: &[String]) -> (r: bool)
    ensures
        r == exists|i: int|
            0 <= i < exclusions@.len() && (path_equal(path@, exclusions@[i]@) || path_starts_with(
                path@,
                exclusions@[i]@,
            )),
{
    let mut i: usize = 0;
    while i < exclusions.len()
        invariant
            i <= exclusions@.len(),
            forall|j: int|
                0 <= j < i ==> !(path_equal(path@, exclusions@[j]@) || path_starts_with(
                    path@,
                    exclusions@[j]@,
                )),
        decreases exclusions@.len() - i,
    {
        let ex = exclusions[i].as_str();
        if paths_equal(path, ex) || path_has_prefix(path, ex) {
            return true;
        }
        i += 1;
    }
    false
}

/// Human-readable size of a node.
pub fn format_size(bytes: u64) -> (s: String)
    ensures
        s@ == bytes_text(bytes as nat),
{
    format_bytes(bytes)
}

} // verus!
