//! Log entries arriving from the journal: what enters the buffer, and what
//! the selected service's recent-log list keeps.

use vstd::prelude::*;

use crate::model::log::deref_entries;
use crate::model::log::kept_entries;
use crate::model::log::newest;
use crate::model::log::LogPreset;
use crate::model::log::LogPriority;
use crate::model::log::LogBuffer;
use crate::model::log::LogEntry;
use crate::text::eq_ignore_ascii_case;
use crate::text::eq_ignore_ascii_case_spec;
use crate::text::str_eq;
use crate::text::unicode_lower;

verus! {

/// How many of the newest buffered entries a new batch is checked against.
pub const DEDUP_WINDOW: usize = 64;

/// How many recent entries a service's detail view keeps.
pub const SERVICE_RECENT_LOGS: usize = 20;

/// Two entries are the same event: same timestamp and same message.
pub open spec fn same_event(a: LogEntry, b: LogEntry) -> bool {
    a.timestamp@ == b.timestamp@ && a.message@ == b.message@
}

/// Some entry of `s` is the same event as `e`.
pub open spec fn holds_event(s: Seq<LogEntry>, e: LogEntry) -> bool {
    exists|i: int| 0 <= i < s.len() && #[trigger] same_event(s[i], e)
}

/// The entries of a batch that are new: each entry whose event is neither
/// among `recent` nor among the entries of the batch kept before it, in
/// batch order.
pub open spec fn fresh_entries(recent: Seq<LogEntry>, batch: Seq<LogEntry>) -> Seq<LogEntry>
    decreases batch.len(),
{
    if batch.len() == 0 {
        Seq::empty()
    } else {
        let kept = fresh_entries(recent, batch.drop_last());
        let e = batch.last();
        if holds_event(recent, e) || holds_event(kept, e) {
            kept
        } else {
            kept.push(e)
        }
    }
}

fn has_event(s: &Vec<LogEntry>, e: &LogEntry) -> (b: bool)
    ensures
        b == holds_event(s@, *e),
{
    let mut i: usize = 0;
    while i < s.len()
        invariant
            i <= s.len(),
            forall|j: int| 0 <= j < i ==> !same_event(#[trigger] s@[j], *e),
        decreases s.len() - i,
    {
        if str_eq(s[i].timestamp.as_str(), e.timestamp.as_str()) && str_eq(
            s[i].message.as_str(),
            e.message.as_str(),
        ) {
            assert(same_event(s@[i as int], *e));
            return true;
        }
        i += 1;
    }
    false
}

/// Appends a batch to the buffer, skipping each entry whose event is among
/// the newest `DEDUP_WINDOW` buffered entries or earlier in the batch.
/// Returns the entries that were appended.
pub fn append_logs(buffer: &mut LogBuffer, batch: Vec<LogEntry>) -> (fresh: Vec<LogEntry>)
    ensures
        fresh@ == fresh_entries(newest(old(buffer).contents(), DEDUP_WINDOW as nat), batch@),
        final(buffer).cap() == old(buffer).cap(),
        final(buffer).contents() == newest(old(buffer).contents() + fresh@, old(buffer).cap()),
{
    let ghost contents = buffer.contents();
    let n = buffer.len();
    let start: usize = if n > DEDUP_WINDOW {
        n - DEDUP_WINDOW
    } else {
        0
    };
    let mut recent: Vec<LogEntry> = Vec::new();
    let mut i: usize = start;
    while i < n
        invariant
            start <= i <= n,
            n == contents.len(),
            contents == buffer.contents(),
            recent@ == contents.subrange(start as int, i as int),
        decreases n - i,
    {
        recent.push(buffer.get(i).clone());
        i += 1;
    }
    assert(recent@ == newest(contents, DEDUP_WINDOW as nat));
    let mut fresh: Vec<LogEntry> = Vec::new();
    let mut appended: Vec<LogEntry> = Vec::new();
    let mut j: usize = 0;
    while j < batch.len()
        invariant
            j <= batch.len(),
            fresh@ == fresh_entries(recent@, batch@.take(j as int)),
            appended@ == fresh@,
        decreases batch.len() - j,
    {
        let e = &batch[j];
        assert(batch@.take(j + 1).drop_last() =~= batch@.take(j as int));
        if !has_event(&recent, e) && !has_event(&fresh, e) {
            fresh.push(e.clone());
            appended.push(e.clone());
        }
        j += 1;
    }
    assert(batch@.take(batch.len() as int) =~= batch@);
    buffer.extend(appended);
    fresh
}

/// What a batch adds holds no event twice, none of the events already in
/// the window, and every event of the batch that was missing from the
/// window.
pub proof fn lemma_fresh_entries_are_new(recent: Seq<LogEntry>, batch: Seq<LogEntry>)
    ensures
        forall|i: int, j: int|
            0 <= i < j < fresh_entries(recent, batch).len() ==> !same_event(
                #[trigger] fresh_entries(recent, batch)[i],
                #[trigger] fresh_entries(recent, batch)[j],
            ),
        forall|i: int|
            0 <= i < fresh_entries(recent, batch).len() ==> !holds_event(
                recent,
                #[trigger] fresh_entries(recent, batch)[i],
            ),
        forall|k: int|
            0 <= k < batch.len() && !holds_event(recent, #[trigger] batch[k]) ==> holds_event(
                fresh_entries(recent, batch),
                batch[k],
            ),
    decreases batch.len(),
{
    if batch.len() > 0 {
        let rest = batch.drop_last();
        lemma_fresh_entries_are_new(recent, rest);
        let kept = fresh_entries(recent, rest);
        let e = batch.last();
        let f = fresh_entries(recent, batch);
        assert forall|k: int|
            0 <= k < batch.len() && !holds_event(recent, #[trigger] batch[k]) implies holds_event(
            f,
            batch[k],
        ) by {
            if k < batch.len() - 1 {
                assert(rest[k] == batch[k]);
                let w = choose|i: int| 0 <= i < kept.len() && #[trigger] same_event(kept[i], rest[k]);
                assert(f[w] == kept[w]);
                assert(same_event(f[w], batch[k]));
            } else if holds_event(kept, e) {
                let w = choose|i: int| 0 <= i < kept.len() && #[trigger] same_event(kept[i], e);
                assert(f[w] == kept[w]);
                assert(same_event(f[w], batch[k]));
            } else {
                assert(same_event(f[kept.len() as int], batch[k]));
            }
        }
    }
}

/// The entries of `es` whose unit is `unit`, ignoring ASCII case, in order.
pub open spec fn entries_of_unit(es: Seq<LogEntry>, unit: Seq<char>) -> Seq<LogEntry>
    decreases es.len(),
{
    if es.len() == 0 {
        Seq::empty()
    } else {
        let rest = entries_of_unit(es.drop_last(), unit);
        if eq_ignore_ascii_case_spec(es.last().unit@, unit) {
            rest.push(es.last())
        } else {
            rest
        }
    }
}

/// The recent-log list of the selected service after `arrived`: its
/// entries for that unit are added, and the newest `SERVICE_RECENT_LOGS`
/// kept. With no service selected the list stays as it is.
pub open spec fn synced_recent_logs(
    recent: Seq<LogEntry>,
    selected_unit: Option<Seq<char>>,
    arrived: Seq<LogEntry>,
) -> Seq<LogEntry> {
    match selected_unit {
        Some(u) => newest(recent + entries_of_unit(arrived, u), SERVICE_RECENT_LOGS as nat),
        None => recent,
    }
}

pub open spec fn opt_view(o: Option<String>) -> Option<Seq<char>> {
    match o {
        Some(s) => Some(s@),
        None => None,
    }
}

pub fn sync_recent_logs(recent: &mut Vec<LogEntry>, selected_unit: &Option<String>, arrived: &[LogEntry])
    ensures
        final(recent)@ == synced_recent_logs(old(recent)@, opt_view(*selected_unit), arrived@),
{
    let unit = match selected_unit {
        Some(u) => u,
        None => return ,
    };
    let ghost before = recent@;
    let mut i: usize = 0;
    while i < arrived.len()
        invariant
            i <= arrived@.len(),
            recent@ == before + entries_of_unit(arrived@.take(i as int), unit@),
        decreases arrived@.len() - i,
    {
        assert(arrived@.take(i + 1).drop_last() =~= arrived@.take(i as int));
        if eq_ignore_ascii_case(arrived[i].unit.as_str(), unit.as_str()) {
            recent.push(arrived[i].clone());
        }
        i += 1;
    }
    assert(arrived@.take(arrived@.len() as int) =~= arrived@);
    let len = recent.len();
    if len > SERVICE_RECENT_LOGS {
        let ghost all = recent@;
        let drop = len - SERVICE_RECENT_LOGS;
        let mut kept: Vec<LogEntry> = Vec::new();
        let mut k: usize = drop;
        while k < len
            invariant
                drop <= k <= len,
                len == all.len(),
                all == recent@,
                kept@ == all.subrange(drop as int, k as int),
            decreases len - k,
        {
            kept.push(recent[k].clone());
            k += 1;
        }
        *recent = kept;
    }
}

/// The match after (or before) `current` among `count` matches, wrapping
/// around at either end.
pub open spec fn stepped_match(count: nat, current: nat, forward: bool) -> nat
    recommends
        count > 0,
{
    if forward {
        (current + 1) % count
    } else if current == 0 {
        (count - 1) as nat
    } else {
        (current - 1) as nat
    }
}

/// The entries a search for `query` at `min_priority` matches.
pub open spec fn matches_of(contents: Seq<LogEntry>, query: Seq<char>, min_priority: LogPriority) -> Seq<LogEntry> {
    kept_entries(contents, unicode_lower(query), min_priority, LogPreset::All, None, 0)
}

/// `n` and `N` in the log view: the position of the next (or previous)
/// match, starting from the last match, or else from the selection; `None`
/// when the query is empty or matches nothing.
pub fn step_log_match(
    buffer: &LogBuffer,
    query: &str,
    min_priority: LogPriority,
    match_idx: Option<usize>,
    selected: usize,
    forward: bool,
) -> (r: Option<usize>)
    ensures
        ({
            let count = matches_of(buffer.contents(), query@, min_priority).len();
            let current = match match_idx {
                Some(m) => m,
                None => selected,
            };
            if query@.len() == 0 || count == 0 {
                r is None
            } else {
                r == Some(stepped_match(count, current as nat, forward) as usize)
            }
        }),
{
    if query.is_empty() {
        return None;
    }
    let filtered = buffer.filtered(query, min_priority);
    let count = filtered.len();
    if count == 0 {
        return None;
    }
    proof {
        assert(filtered@.len() == deref_entries(filtered@).len());
    }
    let cur = match match_idx {
        Some(m) => m,
        None => selected,
    };
    let next = if forward {
        let c = cur % count;
        proof {
            vstd::arithmetic::div_mod::lemma_add_mod_noop(cur as int, 1, count as int);
            if count == 1 {
                vstd::arithmetic::div_mod::lemma_mod_self_0(1);
                vstd::arithmetic::div_mod::lemma_small_mod(0, 1);
            } else {
                vstd::arithmetic::div_mod::lemma_small_mod(1, count as nat);
                if c + 1 < count {
                    vstd::arithmetic::div_mod::lemma_small_mod((c + 1) as nat, count as nat);
                } else {
                    vstd::arithmetic::div_mod::lemma_mod_self_0(count as int);
                }
            }
        }
        if c + 1 == count {
            0
        } else {
            c + 1
        }
    } else if cur == 0 {
        count - 1
    } else {
        cur - 1
    };
    Some(next)
}

/// Stepping forward then back, or back then forward, returns to the same
/// match.
pub proof fn lemma_step_round_trip(count: nat, current: nat)
    requires
        current < count,
    ensures
        stepped_match(count, stepped_match(count, current, true), false) == current,
        stepped_match(count, stepped_match(count, current, false), true) == current,
{
    if current + 1 < count {
        vstd::arithmetic::div_mod::lemma_small_mod((current + 1) as nat, count);
    } else {
        vstd::arithmetic::div_mod::lemma_mod_self_0(count as int);
    }
    if current == 0 {
        vstd::arithmetic::div_mod::lemma_mod_self_0(count as int);
    } else {
        vstd::arithmetic::div_mod::lemma_small_mod(current, count);
    }
}

} // verus!
