//! File previews and the largest-files listing of a scanned tree.

use vstd::prelude::*;

use crate::model::inspect::FilePreview;
use crate::sanitize::clean_path;
use crate::sanitize::clean_text;
use crate::sanitize::sanitize_path_display;
use crate::sanitize::sanitize_text;
use crate::model::storage::StorageNode;
use crate::text::decimal;
use crate::text::decimal_string;
use crate::text::push_char;
use crate::text::lemma_text_less_order;
use crate::text::text_less;
use crate::text::text_lt;

verus! {

/// Files of a list of trees in depth-first pre-order: each node, when it is
/// not a directory, before the files below it, and the trees in list order.
pub open spec fn files_in(s: Seq<StorageNode>) -> Seq<StorageNode>
    decreases s,
{
    if s.len() == 0 {
        Seq::empty()
    } else {
        let n = s[0];
        (if n.is_dir {
            Seq::empty()
        } else {
            seq![n]
        }) + files_in(n.children@) + files_in(s.drop_first())
    }
}

pub open spec fn deref_nodes(v: Seq<&StorageNode>) -> Seq<StorageNode> {
    v.map_values(|n: &StorageNode| *n)
}

proof fn lemma_files_in_append(a: Seq<StorageNode>, b: Seq<StorageNode>)
    ensures
        files_in(a + b) == files_in(a) + files_in(b),
    decreases a.len(),
{
    if a.len() == 0 {
        assert(a + b =~= b);
    } else {
        assert((a + b).drop_first() =~= a.drop_first() + b);
        lemma_files_in_append(a.drop_first(), b);
        assert((a + b)[0] == a[0]);
    }
}

fn walk<'a>(node: &'a StorageNode, files: &mut Vec<&'a StorageNode>)
    ensures
        deref_nodes(final(files)@) == deref_nodes(old(files)@) + files_in(seq![*node]),
    decreases *node,
{
    let ghost start = deref_nodes(files@);
    if !node.is_dir {
        files.push(node);
    }
    let ghost own: Seq<StorageNode> = if node.is_dir {
        Seq::empty()
    } else {
        seq![*node]
    };
    assert(deref_nodes(files@) =~= start + own);
    let mut i: usize = 0;
    while i < node.children.len()
        invariant
            i <= node.children@.len(),
            deref_nodes(files@) == start + own + files_in(node.children@.take(i as int)),
        decreases node.children@.len() - i,
    {
        let ghost before = deref_nodes(files@);
        walk(&node.children[i], files);
        proof {
            let c = node.children@[i as int];
            assert(node.children@.take(i + 1) =~= node.children@.take(i as int) + seq![c]);
            lemma_files_in_append(node.children@.take(i as int), seq![c]);
            assert(deref_nodes(files@) =~= before + files_in(seq![c]));
        }
        i += 1;
    }
    proof {
        assert(node.children@.take(node.children@.len() as int) =~= node.children@);
        assert(seq![*node].drop_first() =~= Seq::<StorageNode>::empty());
        assert(files_in(Seq::<StorageNode>::empty()) =~= Seq::<StorageNode>::empty());
        assert(files_in(seq![*node]) =~= own + files_in(node.children@) + Seq::<StorageNode>::empty());
    }
}

/// File `i` ranks above file `j` among `f`: larger size, then larger name,
/// then later position.
pub open spec fn ranks_above(f: Seq<StorageNode>, i: int, j: int) -> bool {
    ||| f[i].size > f[j].size
    ||| (f[i].size == f[j].size && text_less(f[j].name@, f[i].name@))
    ||| (f[i].size == f[j].size && f[i].name@ == f[j].name@ && i > j)
}

/// File `i` is listed before file `j`: larger size first, then by name, then
/// by position.
pub open spec fn listed_before(f: Seq<StorageNode>, i: int, j: int) -> bool {
    ||| f[i].size > f[j].size
    ||| (f[i].size == f[j].size && text_less(f[i].name@, f[j].name@))
    ||| (f[i].size == f[j].size && f[i].name@ == f[j].name@ && i < j)
}

pub open spec fn index_before(f: Seq<StorageNode>, i: int, j: int, by_rank: bool) -> bool {
    if by_rank {
        ranks_above(f, i, j)
    } else {
        listed_before(f, i, j)
    }
}

proof fn lemma_index_order(f: Seq<StorageNode>, i: int, j: int, m: int, by_rank: bool)
    ensures
        !index_before(f, i, i, by_rank),
        index_before(f, i, j, by_rank) ==> !index_before(f, j, i, by_rank),
        i != j ==> index_before(f, i, j, by_rank) || index_before(f, j, i, by_rank),
        index_before(f, i, j, by_rank) && index_before(f, j, m, by_rank) ==> index_before(
            f,
            i,
            m,
            by_rank,
        ),
{
    lemma_text_less_order(f[i].name@, f[j].name@, f[m].name@);
    lemma_text_less_order(f[j].name@, f[m].name@, f[i].name@);
    lemma_text_less_order(f[m].name@, f[i].name@, f[j].name@);
    lemma_text_less_order(f[i].name@, f[m].name@, f[j].name@);
    lemma_text_less_order(f[j].name@, f[i].name@, f[m].name@);
    lemma_text_less_order(f[m].name@, f[j].name@, f[i].name@);
}

fn index_before_exec(f: &Vec<&StorageNode>, i: usize, j: usize, by_rank: bool) -> (r: bool)
    requires
        i < f@.len(),
        j < f@.len(),
    ensures
        r == index_before(deref_nodes(f@), i as int, j as int, by_rank),
{
    let a = f[i];
    let b = f[j];
    if a.size != b.size {
        return a.size > b.size;
    }
    let (first, second) = if by_rank {
        (b.name.as_str(), a.name.as_str())
    } else {
        (a.name.as_str(), b.name.as_str())
    };
    if text_lt(first, second) {
        return true;
    }
    if text_lt(second, first) {
        return false;
    }
    proof {
        lemma_text_less_order(a.name@, b.name@, a.name@);
    }
    if by_rank {
        i > j
    } else {
        i < j
    }
}

/// `v` holds distinct indices below `n`.
pub open spec fn distinct_indices(v: Seq<usize>, n: int) -> bool {
    &&& forall|a: int| 0 <= a < v.len() ==> #[trigger] v[a] < n
    &&& forall|a: int, b: int| 0 <= a < b < v.len() ==> v[a] != v[b]
}

/// Sorts distinct indices of `f` by `index_before`, by insertion.
fn sort_indices(f: &Vec<&StorageNode>, items: Vec<usize>, by_rank: bool) -> (r: Vec<usize>)
    requires
        distinct_indices(items@, f@.len() as int),
    ensures
        r@.len() == items@.len(),
        distinct_indices(r@, f@.len() as int),
        r@.to_set() == items@.to_set(),
        forall|a: int, b: int|
            0 <= a < b < r@.len() ==> index_before(
                deref_nodes(f@),
                r@[a] as int,
                r@[b] as int,
                by_rank,
            ),
{
    let ghost fs = deref_nodes(f@);
    let mut out: Vec<usize> = Vec::new();
    let mut k: usize = 0;
    while k < items.len()
        invariant
            fs == deref_nodes(f@),
            k <= items@.len(),
            distinct_indices(items@, f@.len() as int),
            out@.len() == k,
            distinct_indices(out@, f@.len() as int),
            out@.to_set() == items@.take(k as int).to_set(),
            forall|a: int, b: int|
                0 <= a < b < out@.len() ==> index_before(fs, out@[a] as int, out@[b] as int, by_rank),
        decreases items@.len() - k,
    {
        let x = items[k];
        let mut pos: usize = 0;
        while pos < out.len() && !index_before_exec(f, x, out[pos], by_rank)
            invariant
                pos <= out@.len(),
                x < f@.len(),
                distinct_indices(out@, f@.len() as int),
                fs == deref_nodes(f@),
                forall|b: int| 0 <= b < pos ==> !index_before(fs, x as int, #[trigger] out@[b] as int, by_rank),
            decreases out@.len() - pos,
        {
            pos += 1;
        }
        let ghost prev = out@;
        proof {
            // x is not yet in `out`
            assert forall|b: int| 0 <= b < prev.len() implies prev[b] != x by {
                if prev[b] == x {
                    assert(items@.take(k as int).to_set().contains(x)) by {
                        assert(prev.to_set().contains(prev[b]));
                    }
                    let a = choose|a: int| 0 <= a < k && items@.take(k as int)[a] == x;
                    assert(items@[a] == items@[k as int]);
                }
            }
        }
        out.insert(pos, x);
        proof {
            let o2 = out@;
            assert forall|a: int| 0 <= a < o2.len() implies #[trigger] o2[a] < f@.len() by {
                if a < pos {
                    assert(o2[a] == prev[a]);
                } else if a > pos {
                    assert(o2[a] == prev[a - 1]);
                }
            }
            assert forall|a: int, b: int| 0 <= a < b < o2.len() implies o2[a] != o2[b] by {
                if a < pos && b < pos {
                    assert(o2[a] == prev[a] && o2[b] == prev[b]);
                } else if a < pos && b == pos {
                    assert(o2[a] == prev[a]);
                } else if a < pos {
                    assert(o2[a] == prev[a] && o2[b] == prev[b - 1]);
                } else if a == pos {
                    assert(o2[b] == prev[b - 1]);
                } else {
                    assert(o2[a] == prev[a - 1] && o2[b] == prev[b - 1]);
                }
            }
            assert forall|a: int, b: int| 0 <= a < b < o2.len() implies index_before(
                fs,
                o2[a] as int,
                o2[b] as int,
                by_rank,
            ) by {
                if a < pos && b < pos {
                    assert(o2[a] == prev[a] && o2[b] == prev[b]);
                } else if a < pos && b == pos {
                    assert(o2[a] == prev[a]);
                    lemma_index_order(fs, x as int, prev[a] as int, x as int, by_rank);
                } else if a < pos {
                    assert(o2[a] == prev[a] && o2[b] == prev[b - 1]);
                } else if a == pos {
                    assert(o2[b] == prev[b - 1]);
                    lemma_index_order(fs, x as int, prev[pos as int] as int, prev[b - 1] as int, by_rank);
                    lemma_index_order(fs, prev[pos as int] as int, x as int, x as int, by_rank);
                    if b - 1 > pos {
                        assert(index_before(fs, prev[pos as int] as int, prev[b - 1] as int, by_rank));
                    }
                } else {
                    assert(o2[a] == prev[a - 1] && o2[b] == prev[b - 1]);
                }
            }
            assert(items@.take(k + 1) =~= items@.take(k as int).push(x));
            crate::seqs::lemma_push_to_set(items@.take(k as int), x);
            assert(o2.to_set() =~= prev.to_set().insert(x)) by {
                assert forall|y: usize| o2.to_set().contains(y) <==> prev.to_set().insert(x).contains(y) by {
                    if o2.contains(y) {
                        let a = choose|a: int| 0 <= a < o2.len() && o2[a] == y;
                        if a < pos {
                            assert(prev[a] == y);
                        } else if a > pos {
                            assert(prev[a - 1] == y);
                        }
                    }
                    if prev.contains(y) {
                        let a = choose|a: int| 0 <= a < prev.len() && prev[a] == y;
                        if a < pos {
                            assert(o2[a] == y);
                        } else {
                            assert(o2[a + 1] == y);
                        }
                    }
                    if y == x {
                        assert(o2[pos as int] == x);
                    }
                }
            }
        }
        k += 1;
    }
    assert(items@.take(items@.len() as int) =~= items@);
    out
}

/// How many files the listing keeps: `limit`, or all of them when there are
/// fewer.
pub open spec fn listing_len(n: int, limit: int) -> int {
    if limit < n {
        limit
    } else {
        n
    }
}

/// `r` lists the `listing_len` files of `f` that rank highest (by size, then
/// name, then position), ordered largest first, then by name.
pub open spec fn top_listing(f: Seq<StorageNode>, limit: int, r: Seq<StorageNode>) -> bool {
    exists|q: Seq<usize>|
        {
            &&& #[trigger] q.len() == listing_len(f.len() as int, limit)
            &&& r.len() == q.len()
            &&& distinct_indices(q, f.len() as int)
            &&& forall|a: int| 0 <= a < q.len() ==> r[a] == f[#[trigger] q[a] as int]
            &&& forall|a: int, b: int|
                0 <= a < b < q.len() ==> listed_before(f, q[a] as int, q[b] as int)
            &&& forall|a: int, j: usize|
                0 <= a < q.len() && j < f.len() && !q.contains(j) ==> #[trigger] ranks_above(
                    f,
                    q[a] as int,
                    j as int,
                )
        }
}

/// The `k` highest-ranked files of `f` (all of them when fewer), best first,
/// kept in one pass with a bounded list.
fn select_top(f: &Vec<&StorageNode>, k: usize) -> (r: Vec<usize>)
    requires
        k >= 1,
    ensures
        r@.len() == if k < f@.len() {
            k as int
        } else {
            f@.len() as int
        },
        distinct_indices(r@, f@.len() as int),
        forall|a: int, j: usize|
            0 <= a < r@.len() && j < f@.len() && !r@.contains(j) ==> #[trigger] ranks_above(
                deref_nodes(f@),
                r@[a] as int,
                j as int,
            ),
{
    let ghost fs = deref_nodes(f@);
    let n = f.len();
    let mut top: Vec<usize> = Vec::new();
    let mut i: usize = 0;
    while i < n
        invariant
            n == f@.len(),
            fs == deref_nodes(f@),
            k >= 1,
            i <= n,
            top@.len() == if k < i {
                k as int
            } else {
                i as int
            },
            distinct_indices(top@, i as int),
            top@.len() < k ==> forall|j: usize| j < i ==> top@.contains(j),
            forall|a: int, b: int|
                0 <= a < b < top@.len() ==> ranks_above(fs, top@[a] as int, top@[b] as int),
            forall|a: int, j: usize|
                0 <= a < top@.len() && j < i && !top@.contains(j) ==> #[trigger] ranks_above(
                    fs,
                    top@[a] as int,
                    j as int,
                ),
        decreases n - i,
    {
        let full = top.len() >= k;
        let enters = if !full {
            true
        } else {
            index_before_exec(f, i, top[top.len() - 1], true)
        };
        let ghost prev = top@;
        if enters {
            let mut pos: usize = 0;
            while pos < top.len() && !index_before_exec(f, i, top[pos], true)
                invariant
                    pos <= top@.len(),
                    i < f@.len(),
                    distinct_indices(top@, i as int),
                    fs == deref_nodes(f@),
                    forall|b: int| 0 <= b < pos ==> !ranks_above(fs, i as int, #[trigger] top@[b] as int),
                decreases top@.len() - pos,
            {
                pos += 1;
            }
            top.insert(pos, i);
            let ghost ins = top@;
            proof {
                assert forall|a: int| 0 <= a < ins.len() implies #[trigger] ins[a] < i + 1 by {
                    if a < pos {
                        assert(ins[a] == prev[a]);
                    } else if a > pos {
                        assert(ins[a] == prev[a - 1]);
                    }
                }
                assert forall|a: int, b: int| 0 <= a < b < ins.len() implies ins[a] != ins[b] by {
                    if a < pos && b < pos {
                        assert(ins[a] == prev[a] && ins[b] == prev[b]);
                    } else if a < pos && b == pos {
                        assert(ins[a] == prev[a]);
                    } else if a < pos {
                        assert(ins[a] == prev[a] && ins[b] == prev[b - 1]);
                    } else if a == pos {
                        assert(ins[b] == prev[b - 1]);
                    } else {
                        assert(ins[a] == prev[a - 1] && ins[b] == prev[b - 1]);
                    }
                }
                assert forall|a: int, b: int| 0 <= a < b < ins.len() implies ranks_above(
                    fs,
                    ins[a] as int,
                    ins[b] as int,
                ) by {
                    if a < pos && b < pos {
                        assert(ins[a] == prev[a] && ins[b] == prev[b]);
                    } else if a < pos && b == pos {
                        assert(ins[a] == prev[a]);
                        lemma_index_order(fs, i as int, prev[a] as int, i as int, true);
                    } else if a < pos {
                        assert(ins[a] == prev[a] && ins[b] == prev[b - 1]);
                    } else if a == pos {
                        assert(ins[b] == prev[b - 1]);
                        lemma_index_order(fs, i as int, prev[pos as int] as int, prev[b - 1] as int, true);
                        if b - 1 > pos {
                            assert(ranks_above(fs, prev[pos as int] as int, prev[b - 1] as int));
                        }
                    } else {
                        assert(ins[a] == prev[a - 1] && ins[b] == prev[b - 1]);
                    }
                }
                assert forall|a: int, j: usize|
                    0 <= a < ins.len() && j < i + 1 && !ins.contains(j) implies #[trigger] ranks_above(
                    fs,
                    ins[a] as int,
                    j as int,
                ) by {
                    if j == i {
                        assert(ins[pos as int] == i);
                    } else {
                        assert(!prev.contains(j)) by {
                            if prev.contains(j) {
                                let t = choose|t: int| 0 <= t < prev.len() && prev[t] == j;
                                if t < pos {
                                    assert(ins[t] == j);
                                } else {
                                    assert(ins[t + 1] == j);
                                }
                            }
                        }
                        if a < pos {
                            assert(ins[a] == prev[a]);
                        } else if a > pos {
                            assert(ins[a] == prev[a - 1]);
                        } else {
                            // i entered ahead of an existing entry, or the list was short
                            if full {
                                let last = prev[prev.len() - 1];
                                assert(ranks_above(fs, last as int, j as int));
                                lemma_index_order(fs, i as int, last as int, j as int, true);
                            } else {
                                assert(prev.len() == i);
                                assert(forall|t: int| 0 <= t < prev.len() ==> prev[t] < i);
                                // every earlier index is in the short list
                                assert(prev.contains(j));
                            }
                        }
                    }
                }
            }
            proof {
                if !full {
                    assert forall|j: usize| j < i + 1 implies ins.contains(j) by {
                        if j == i {
                            assert(ins[pos as int] == i);
                        } else {
                            assert(prev.contains(j));
                            let t = choose|t: int| 0 <= t < prev.len() && prev[t] == j;
                            if t < pos {
                                assert(ins[t] == j);
                            } else {
                                assert(ins[t + 1] == j);
                            }
                        }
                    }
                }
            }
            if full {
                let ghost before_pop = top@;
                top.pop();
                proof {
                    let out = top@;
                    assert(out =~= before_pop.drop_last());
                    let e = before_pop.last();
                    assert forall|a: int, j: usize|
                        0 <= a < out.len() && j < i + 1 && !out.contains(j) implies #[trigger] ranks_above(
                        fs,
                        out[a] as int,
                        j as int,
                    ) by {
                        assert(out[a] == before_pop[a]);
                        if j == e {
                            assert(ranks_above(fs, before_pop[a] as int, before_pop[before_pop.len() - 1] as int));
                        } else {
                            assert(!before_pop.contains(j)) by {
                                if before_pop.contains(j) {
                                    let t = choose|t: int| 0 <= t < before_pop.len() && before_pop[t] == j;
                                    if t < out.len() {
                                        assert(out[t] == j);
                                    }
                                }
                            }
                        }
                    }
                }
            }
        } else {
            proof {
                let last = prev[prev.len() - 1];
                assert(!ranks_above(fs, i as int, last as int));
                assert(last != i);
                lemma_index_order(fs, i as int, last as int, i as int, true);
                assert forall|a: int, j: usize|
                    0 <= a < prev.len() && j < i + 1 && !prev.contains(j) implies #[trigger] ranks_above(
                    fs,
                    prev[a] as int,
                    j as int,
                ) by {
                    if j == i {
                        if a < prev.len() - 1 {
                            lemma_index_order(fs, prev[a] as int, last as int, i as int, true);
                        }
                    }
                }
            }
        }
        i += 1;
    }
    top
}

/// Up to `limit` largest files of a scanned tree (directories are not
/// listed), largest first and then by name.
pub fn largest_files_from_tree<'a>(root: &'a StorageNode, limit: usize) -> (r: Vec<&'a StorageNode>)
    ensures
        top_listing(files_in(seq![*root]), limit as int, deref_nodes(r@)),
{
    let mut files: Vec<&'a StorageNode> = Vec::new();
    walk(root, &mut files);
    let ghost fs = deref_nodes(files@);
    assert(fs =~= files_in(seq![*root]));
    if limit == 0 {
        let out: Vec<&'a StorageNode> = Vec::new();
        proof {
            let q = Seq::<usize>::empty();
            assert(deref_nodes(out@) =~= Seq::<StorageNode>::empty());
            assert(q.len() == listing_len(fs.len() as int, 0));
        }
        return out;
    }
    let k: usize = limit;
    let top = select_top(&files, k);
    let ghost topv = top@;
    let listed = sort_indices(&files, top, false);
    let mut out: Vec<&'a StorageNode> = Vec::new();
    let mut m: usize = 0;
    while m < listed.len()
        invariant
            m <= listed@.len(),
            distinct_indices(listed@, files@.len() as int),
            out@.len() == m,
            forall|a: int| 0 <= a < m ==> deref_nodes(out@)[a] == fs[#[trigger] listed@[a] as int],
            fs == deref_nodes(files@),
        decreases listed@.len() - m,
    {
        out.push(files[listed[m]]);
        m += 1;
    }
    proof {
        let q = listed@;
        assert forall|a: int, j: usize|
            0 <= a < q.len() && j < fs.len() && !q.contains(j) implies #[trigger] ranks_above(
            fs,
            q[a] as int,
            j as int,
        ) by {
            assert(q.to_set().contains(q[a]));
            assert(topv.contains(q[a]));
            let a2 = choose|a2: int| 0 <= a2 < topv.len() && topv[a2] == q[a];
            assert(!topv.contains(j)) by {
                if topv.contains(j) {
                    assert(topv.to_set().contains(j));
                    assert(q.to_set().contains(j));
                }
            }
        }
        let r = deref_nodes(out@);
        assert(q.len() == listing_len(fs.len() as int, limit as int));
        assert(r.len() == q.len());
        assert(forall|a: int| 0 <= a < q.len() ==> r[a] == fs[#[trigger] q[a] as int]);
        assert forall|a: int, b: int| 0 <= a < b < q.len() implies listed_before(
            fs,
            q[a] as int,
            q[b] as int,
        ) by {
            assert(index_before(fs, q[a] as int, q[b] as int, false));
        }
        assert(top_listing(fs, limit as int, r));
    }
    out
}

/// The most bytes a preview shows.
pub const MAX_PREVIEW_BYTES: usize = 65536;

/// Lower-case hexadecimal digit of `d < 16`.
pub open spec fn hex_digit(d: nat) -> char {
    if d < 10 {
        ((d + 48) as u8) as char
    } else {
        ((d + 87) as u8) as char
    }
}

/// `v` in `w` lower-case hexadecimal digits, zero-padded (`{:0w$x}` for
/// `v < 16^w`).
pub open spec fn hex_pad(v: nat, w: nat) -> Seq<char>
    decreases w,
{
    if w == 0 {
        Seq::empty()
    } else {
        hex_pad(v / 16, (w - 1) as nat).push(hex_digit(v % 16))
    }
}

/// Each byte as two hex digits and a space.
pub open spec fn hex_bytes(s: Seq<u8>) -> Seq<char>
    decreases s.len(),
{
    if s.len() == 0 {
        Seq::empty()
    } else {
        hex_bytes(s.drop_last()) + hex_pad(s.last() as nat, 2) + " "@
    }
}

/// Hex dump lines from line `i` on: at most eight lines of sixteen bytes,
/// each led by its offset in four hex digits.
pub open spec fn hex_lines(data: Seq<u8>, i: nat) -> Seq<char>
    decreases 8 - i,
{
    if i >= 8 || i * 16 >= data.len() {
        Seq::empty()
    } else {
        let end: int = if i * 16 + 16 < data.len() {
            (i * 16 + 16) as int
        } else {
            data.len() as int
        };
        hex_pad(i * 16, 4) + ": "@ + hex_bytes(data.subrange((i * 16) as int, end)) + "\n"@ + hex_lines(
            data,
            i + 1,
        )
    }
}

fn hex_digit_char(d: u64) -> (c: char)
    requires
        d < 16,
    ensures
        c == hex_digit(d as nat),
{
    if d < 10 {
        ((d + 48) as u8) as char
    } else {
        ((d + 87) as u8) as char
    }
}

fn push_hex(out: &mut String, v: u64, w: u64)
    ensures
        final(out)@ == old(out)@ + hex_pad(v as nat, w as nat),
    decreases w,
{
    if w > 0 {
        push_hex(out, v / 16, w - 1);
        push_char(out, hex_digit_char(v % 16));
    }
}

/// The hex dump shown for a binary file.
pub fn hex_dump_preview(data: &[u8]) -> (s: String)
    ensures
        s@ == hex_lines(data@, 0),
{
    let mut out = String::new();
    let mut i: usize = 0;
    while i < 8 && i * 16 < data.len()
        invariant
            i <= 8,
            out@ + hex_lines(data@, i as nat) == hex_lines(data@, 0),
        decreases 8 - i,
    {
        let start = i * 16;
        let end: usize = if start + 16 < data.len() {
            start + 16
        } else {
            data.len()
        };
        let ghost before = out@;
        push_hex(&mut out, start as u64, 4);
        out.append(": ");
        let mut b: usize = start;
        while b < end
            invariant
                start <= b <= end,
                end <= data@.len(),
                out@ == before + hex_pad(start as nat, 4) + ": "@ + hex_bytes(
                    data@.subrange(start as int, b as int),
                ),
            decreases end - b,
        {
            push_hex(&mut out, data[b] as u64, 2);
            out.append(" ");
            assert(data@.subrange(start as int, b + 1).drop_last() =~= data@.subrange(
                start as int,
                b as int,
            ));
            b += 1;
        }
        push_char(&mut out, '\n');
        proof {
            let line = hex_pad(start as nat, 4) + ": "@ + hex_bytes(
                data@.subrange(start as int, end as int),
            ) + "\n"@;
            let rest = hex_lines(data@, (i + 1) as nat);
            reveal_strlit("\n");
            assert(hex_lines(data@, i as nat) == line + rest);
            assert(out@ =~= before + line);
            assert(out@ + rest =~= before + (line + rest));
        }
        i += 1;
    }
    assert(out@ + hex_lines(data@, i as nat) =~= out@);
    out
}

/// Text of a file's first bytes as UTF-8, with each invalid sequence
/// replaced by U+FFFD (`String::from_utf8_lossy`).
pub uninterp spec fn utf8_lossy(bytes: Seq<u8>) -> Seq<char>;

/// `String::from_utf8_lossy`, as an owned string; the result is named by
/// `utf8_lossy` and depends on the bytes alone.
#[verifier::external_body]
fn decode_lossy(bytes: &[u8]) -> (s: String)
    ensures
        s@ == utf8_lossy(bytes@),
{
    String::from_utf8_lossy(bytes).into_owned()
}

/// The text shown for a binary file.
pub open spec fn binary_preview(shown: Seq<u8>, total_hint: u64) -> Seq<char> {
    "(binary file \u{2014} "@ + decimal(shown.len()) + " bytes shown, "@ + decimal(total_hint as nat)
        + " total hint)\n"@ + hex_lines(shown, 0)
}

/// The preview of a file from the bytes read from it (up to one more than
/// the limit), its displayed path and its size as reported: at most
/// `MAX_PREVIEW_BYTES` are shown; a NUL byte among them marks the file as
/// binary and shows a hex dump, otherwise the bytes are decoded as UTF-8 and
/// their control characters (but newlines and tabs) dropped. The displayed
/// path has its control characters replaced.
pub fn preview_from_bytes(path_display: String, data: &[u8], total_hint: u64) -> (p: FilePreview)
    ensures
        p.path@ == clean_path(path_display@),
        p.bytes_read == if data@.len() < MAX_PREVIEW_BYTES {
            data@.len()
        } else {
            MAX_PREVIEW_BYTES as nat
        },
        p.truncated == (data@.len() > MAX_PREVIEW_BYTES),
        p.is_binary == data@.take(p.bytes_read as int).contains(0u8),
        p.is_binary ==> p.text@ == binary_preview(data@.take(p.bytes_read as int), total_hint),
        !p.is_binary ==> p.text@ == clean_text(utf8_lossy(data@.take(p.bytes_read as int))),
{
    let n: usize = if data.len() < MAX_PREVIEW_BYTES {
        data.len()
    } else {
        MAX_PREVIEW_BYTES
    };
    let mut shown: Vec<u8> = Vec::new();
    let mut i: usize = 0;
    let mut is_binary = false;
    while i < n
        invariant
            i <= n,
            n <= data@.len(),
            shown@ == data@.take(i as int),
            is_binary == shown@.contains(0u8),
        decreases n - i,
    {
        let b = data[i];
        let ghost prev = shown@;
        shown.push(b);
        assert(shown@ =~= data@.take(i + 1));
        if b == 0 {
            assert(shown@[i as int] == 0u8);
            is_binary = true;
        } else {
            assert(shown@.contains(0u8) ==> prev.contains(0u8)) by {
                if shown@.contains(0u8) {
                    let k = choose|k: int| 0 <= k < shown@.len() && shown@[k] == 0u8;
                    assert(prev[k] == 0u8);
                }
            }
            assert(prev.contains(0u8) ==> shown@.contains(0u8)) by {
                if prev.contains(0u8) {
                    let k = choose|k: int| 0 <= k < prev.len() && prev[k] == 0u8;
                    assert(shown@[k] == 0u8);
                }
            }
        }
        i += 1;
    }
    let text = if is_binary {
        let mut t = String::from_str("(binary file \u{2014} ");
        t.append(decimal_string(n as u64).as_str());
        t.append(" bytes shown, ");
        t.append(decimal_string(total_hint).as_str());
        t.append(" total hint)\n");
        t.append(hex_dump_preview(shown.as_slice()).as_str());
        t
    } else {
        sanitize_text(decode_lossy(shown.as_slice()).as_str())
    };
    FilePreview {
        path: sanitize_path_display(path_display.as_str()),
        bytes_read: n,
        truncated: data.len() > MAX_PREVIEW_BYTES,
        is_binary,
        text,
    }
}

} // verus!
