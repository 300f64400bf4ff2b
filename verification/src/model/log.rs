//! Log entry models and the bounded log buffer.

use std::collections::VecDeque;

use vstd::prelude::*;
use vstd::std_specs::iter::IteratorSpec;

use crate::model::diagnostics::hits;
use crate::text::{
    decimal, decimal_string, eq_ignore_ascii_case, eq_ignore_ascii_case_spec, has_substring,
    parse_unsigned, parse_unsigned_str, str_contains, to_lower, unicode_lower,
};

verus! {

#[derive(Debug, Clone, Copy, PartialEq, Eq, Structural)]
pub enum LogPreset {
    Important,
    CurrentBoot,
    LastHour,
    Kernel,
    SelectedService,
    All,
}

impl LogPreset {
    pub open spec fn following(self) -> Self {
        match self {
            LogPreset::Important => LogPreset::CurrentBoot,
            LogPreset::CurrentBoot => LogPreset::LastHour,
            LogPreset::LastHour => LogPreset::Kernel,
            LogPreset::Kernel => LogPreset::SelectedService,
            LogPreset::SelectedService => LogPreset::All,
            LogPreset::All => LogPreset::Important,
        }
    }

    pub open spec fn preceding(self) -> Self {
        match self {
            LogPreset::Important => LogPreset::All,
            LogPreset::CurrentBoot => LogPreset::Important,
            LogPreset::LastHour => LogPreset::CurrentBoot,
            LogPreset::Kernel => LogPreset::LastHour,
            LogPreset::SelectedService => LogPreset::Kernel,
            LogPreset::All => LogPreset::SelectedService,
        }
    }

    /// Cycles Important → boot → 1h → kernel → service → all → Important.
    pub fn next(self) -> (r: Self)
        ensures
            r == self.following(),
    {
        match self {
            LogPreset::Important => LogPreset::CurrentBoot,
            LogPreset::CurrentBoot => LogPreset::LastHour,
            LogPreset::LastHour => LogPreset::Kernel,
            LogPreset::Kernel => LogPreset::SelectedService,
            LogPreset::SelectedService => LogPreset::All,
            LogPreset::All => LogPreset::Important,
        }
    }

    /// The reverse cycle of `next`.
    pub fn prev(self) -> (r: Self)
        ensures
            r == self.preceding(),
    {
        match self {
            LogPreset::Important => LogPreset::All,
            LogPreset::CurrentBoot => LogPreset::Important,
            LogPreset::LastHour => LogPreset::CurrentBoot,
            LogPreset::Kernel => LogPreset::LastHour,
            LogPreset::SelectedService => LogPreset::Kernel,
            LogPreset::All => LogPreset::SelectedService,
        }
    }

    pub open spec fn label_text(self) -> Seq<char> {
        match self {
            LogPreset::Important => "important"@,
            LogPreset::CurrentBoot => "boot"@,
            LogPreset::LastHour => "1h"@,
            LogPreset::Kernel => "kernel"@,
            LogPreset::SelectedService => "service"@,
            LogPreset::All => "all"@,
        }
    }

    pub fn label(self) -> (s: &'static str)
        ensures
            s@ == self.label_text(),
    {
        match self {
            LogPreset::Important => "important",
            LogPreset::CurrentBoot => "boot",
            LogPreset::LastHour => "1h",
            LogPreset::Kernel => "kernel",
            LogPreset::SelectedService => "service",
            LogPreset::All => "all",
        }
    }
}

impl Default for LogPreset {
    fn default() -> (r: Self)
        ensures
            r == LogPreset::Important,
    {
        LogPreset::Important
    }
}

/// `prev` undoes `next`, and six steps of `next` come back to the start.
pub proof fn lemma_preset_cycle(p: LogPreset)
    ensures
        p.following().preceding() == p,
        p.preceding().following() == p,
        p.following().following().following().following().following().following() == p,
{
}

/// Syslog priorities, most severe first.
#[derive(Debug, Clone, Copy, PartialEq, Eq, Structural)]
pub enum LogPriority {
    Emerg,
    Alert,
    Crit,
    Error,
    Warning,
    Notice,
    Info,
    Debug,
}

impl LogPriority {
    /// The syslog number: 0 for emerg up to 7 for debug.
    pub open spec fn level(self) -> int {
        match self {
            LogPriority::Emerg => 0,
            LogPriority::Alert => 1,
            LogPriority::Crit => 2,
            LogPriority::Error => 3,
            LogPriority::Warning => 4,
            LogPriority::Notice => 5,
            LogPriority::Info => 6,
            LogPriority::Debug => 7,
        }
    }

    pub open spec fn from_level(n: nat) -> Self {
        if n == 0 {
            LogPriority::Emerg
        } else if n == 1 {
            LogPriority::Alert
        } else if n == 2 {
            LogPriority::Crit
        } else if n == 3 {
            LogPriority::Error
        } else if n == 4 {
            LogPriority::Warning
        } else if n == 5 {
            LogPriority::Notice
        } else if n == 6 {
            LogPriority::Info
        } else {
            LogPriority::Debug
        }
    }

    pub fn level_of(self) -> (r: u8)
        ensures
            r == self.level(),
    {
        match self {
            LogPriority::Emerg => 0,
            LogPriority::Alert => 1,
            LogPriority::Crit => 2,
            LogPriority::Error => 3,
            LogPriority::Warning => 4,
            LogPriority::Notice => 5,
            LogPriority::Info => 6,
            LogPriority::Debug => 7,
        }
    }

    /// The priority a journal PRIORITY field names: its number 0–7 when the
    /// field parses as an integer in that range, Info otherwise.
    pub open spec fn journal_priority(value: Option<Seq<char>>) -> Self {
        match value {
            Some(v) => match parse_unsigned(v, 255) {
                Some(n) => if n <= 7 {
                    LogPriority::from_level(n)
                } else {
                    LogPriority::Info
                },
                None => LogPriority::Info,
            },
            None => LogPriority::Info,
        }
    }

    pub fn from_journal(value: Option<&str>) -> (r: Self)
        ensures
            r == LogPriority::journal_priority(match value {
                Some(v) => Some(v@),
                None => None,
            }),
    {
        match value {
            Some(v) => match parse_unsigned_str(v, 255) {
                Some(n) => if n == 0 {
                    LogPriority::Emerg
                } else if n == 1 {
                    LogPriority::Alert
                } else if n == 2 {
                    LogPriority::Crit
                } else if n == 3 {
                    LogPriority::Error
                } else if n == 4 {
                    LogPriority::Warning
                } else if n == 5 {
                    LogPriority::Notice
                } else if n == 6 {
                    LogPriority::Info
                } else if n == 7 {
                    LogPriority::Debug
                } else {
                    LogPriority::Info
                },
                None => LogPriority::Info,
            },
            None => LogPriority::Info,
        }
    }

    pub open spec fn label_text(self) -> Seq<char> {
        match self {
            LogPriority::Emerg => "emerg"@,
            LogPriority::Alert => "alert"@,
            LogPriority::Crit => "crit"@,
            LogPriority::Error => "err"@,
            LogPriority::Warning => "warn"@,
            LogPriority::Notice => "notice"@,
            LogPriority::Info => "info"@,
            LogPriority::Debug => "debug"@,
        }
    }

    pub fn label(self) -> (s: &'static str)
        ensures
            s@ == self.label_text(),
    {
        match self {
            LogPriority::Emerg => "emerg",
            LogPriority::Alert => "alert",
            LogPriority::Crit => "crit",
            LogPriority::Error => "err",
            LogPriority::Warning => "warn",
            LogPriority::Notice => "notice",
            LogPriority::Info => "info",
            LogPriority::Debug => "debug",
        }
    }

    /// The next less severe minimum, wrapping from debug back to emerg.
    pub fn next_minimum(self) -> (r: Self)
        ensures
            r.level() == (self.level() + 1) % 8,
    {
        match self {
            LogPriority::Emerg => LogPriority::Alert,
            LogPriority::Alert => LogPriority::Crit,
            LogPriority::Crit => LogPriority::Error,
            LogPriority::Error => LogPriority::Warning,
            LogPriority::Warning => LogPriority::Notice,
            LogPriority::Notice => LogPriority::Info,
            LogPriority::Info => LogPriority::Debug,
            LogPriority::Debug => LogPriority::Emerg,
        }
    }
}

#[derive(Debug)]
pub struct LogEntry {
    pub timestamp: String,
    pub unit: String,
    pub pid: Option<u32>,
    pub priority: LogPriority,
    pub message: String,
}

impl Clone for LogEntry {
    fn clone(&self) -> (r: Self)
        ensures
            r == *self,
    {
        LogEntry {
            timestamp: self.timestamp.clone(),
            unit: self.unit.clone(),
            pid: self.pid,
            priority: self.priority,
            message: self.message.clone(),
        }
    }
}

/// The newest `n` elements of `s` (all of `s` when it is shorter).
pub open spec fn newest<A>(s: Seq<A>, n: nat) -> Seq<A> {
    if s.len() <= n {
        s
    } else {
        s.skip(s.len() - n)
    }
}

/// One push into a buffer of capacity `cap`: the oldest entry leaves first when full.
pub open spec fn push_bounded<A>(s: Seq<A>, e: A, cap: nat) -> Seq<A> {
    if s.len() >= cap {
        s.drop_first().push(e)
    } else {
        s.push(e)
    }
}

/// Pushing into a buffer that holds at most `cap` elements keeps exactly the
/// newest `cap` elements of everything pushed so far.
pub proof fn lemma_push_keeps_newest<A>(s: Seq<A>, e: A, cap: nat)
    requires
        cap >= 1,
        s.len() <= cap,
    ensures
        push_bounded(s, e, cap) == newest(s.push(e), cap),
{
    if s.len() >= cap {
        assert(s.drop_first().push(e) =~= s.push(e).skip(s.push(e).len() - cap));
    }
}

/// Several pushes keep the newest `cap` of all elements, old then new.
pub proof fn lemma_newest_step<A>(s: Seq<A>, es: Seq<A>, i: int, cap: nat)
    requires
        cap >= 1,
        0 <= i < es.len(),
    ensures
        newest(newest(s + es.take(i), cap).push(es[i]), cap) == newest(s + es.take(i + 1), cap),
{
    let a = s + es.take(i);
    assert(s + es.take(i + 1) =~= a.push(es[i]));
    if a.len() > cap {
        let b = a.skip(a.len() - cap);
        assert(b.push(es[i]).skip(b.push(es[i]).len() - cap) =~= a.push(es[i]).skip(
            a.push(es[i]).len() - cap,
        ));
    }
}

/// Bounded log history: at most `capacity` entries, oldest dropped first.
#[derive(Debug)]
pub struct LogBuffer {
    capacity: usize,
    entries: VecDeque<LogEntry>,
}

impl LogBuffer {
    #[verifier::type_invariant]
    spec fn bounded(self) -> bool {
        &&& self.capacity >= 1
        &&& self.entries@.len() <= self.capacity
    }

    /// The entries, oldest first.
    pub closed spec fn contents(self) -> Seq<LogEntry> {
        self.entries@
    }

    /// The most entries the buffer keeps.
    pub closed spec fn cap(self) -> nat {
        self.capacity as nat
    }

    /// An empty buffer; a capacity of zero is raised to one.
    pub fn new(capacity: usize) -> (b: Self)
        ensures
            b.contents() == Seq::<LogEntry>::empty(),
            b.cap() == if capacity == 0 {
                1
            } else {
                capacity as nat
            },
    {
        LogBuffer { capacity: if capacity < 1 { 1 } else { capacity }, entries: VecDeque::new() }
    }

    /// Appends `entry`, dropping the oldest entry first when the buffer is full.
    pub fn push(&mut self, entry: LogEntry)
        ensures
            final(self).cap() == old(self).cap(),
            final(self).contents() == push_bounded(old(self).contents(), entry, old(self).cap()),
            final(self).contents() == newest(old(self).contents().push(entry), old(self).cap()),
    {
        proof {
            use_type_invariant(&*self);
            lemma_push_keeps_newest(self.entries@, entry, self.capacity as nat);
        }
        let mut entries: VecDeque<LogEntry> = VecDeque::new();
        std::mem::swap(&mut entries, &mut self.entries);
        if entries.len() >= self.capacity {
            entries.pop_front();
        }
        entries.push_back(entry);
        self.entries = entries;
    }

    /// Pushes each entry in order: the buffer ends with the newest `cap` of
    /// the old entries followed by the new ones.
    pub fn extend(&mut self, entries: Vec<LogEntry>)
        ensures
            final(self).cap() == old(self).cap(),
            final(self).contents() == newest(old(self).contents() + entries@, old(self).cap()),
    {
        proof {
            use_type_invariant(&*self);
        }
        let ghost start = self.contents();
        let ghost cap = self.cap();
        assert(start + entries@.take(0) =~= start);
        let mut i: usize = 0;
        while i < entries.len()
            invariant
                cap == self.cap(),
                cap >= 1,
                i <= entries.len(),
                self.contents() == newest(start + entries@.take(i as int), cap),
            decreases entries.len() - i,
        {
            proof {
                lemma_newest_step(start, entries@, i as int, cap);
            }
            self.push(entries[i].clone());
            i += 1;
        }
        assert(entries@.take(entries.len() as int) =~= entries@);
    }

    pub fn clear(&mut self)
        ensures
            final(self).cap() == old(self).cap(),
            final(self).contents() == Seq::<LogEntry>::empty(),
    {
        proof {
            use_type_invariant(&*self);
        }
        self.entries = VecDeque::new();
    }

    pub fn len(&self) -> (n: usize)
        ensures
            n == self.contents().len(),
            n <= self.cap(),
    {
        proof {
            use_type_invariant(self);
        }
        self.entries.len()
    }

    /// Iterates over the entries, oldest first.
    pub fn iter(&self) -> (it: std::collections::vec_deque::Iter<'_, LogEntry>)
        ensures
            it.remaining() == self.contents().as_ref(),
    {
        self.entries.iter()
    }

    pub fn is_empty(&self) -> (b: bool)
        ensures
            b == (self.contents().len() == 0),
    {
        self.entries.len() == 0
    }

    /// The entry at position `i`, oldest first.
    pub fn get(&self, i: usize) -> (e: &LogEntry)
        requires
            i < self.contents().len(),
        ensures
            *e == self.contents()[i as int],
    {
        &self.entries[i]
    }

    /// The entries `before` positions ahead of `idx`, the entry at `idx`, and
    /// up to `after` entries behind it; `None` when `idx` is past the end.
    pub fn context_around(&self, idx: usize, before: usize, after: usize) -> (r: Option<
        (Vec<LogEntry>, LogEntry, Vec<LogEntry>),
    >)
        requires
            idx < self.contents().len() ==> idx + 1 + after <= usize::MAX,
        ensures
            match r {
                None => idx >= self.contents().len(),
                Some((b, focus, a)) => {
                    let s = self.contents();
                    let start = if idx >= before {
                        idx - before
                    } else {
                        0
                    };
                    let end = if idx + 1 + after <= s.len() {
                        idx + 1 + after
                    } else {
                        s.len() as int
                    };
                    &&& idx < s.len()
                    &&& b@ == s.subrange(start, idx as int)
                    &&& focus == s[idx as int]
                    &&& a@ == s.subrange(idx + 1, end)
                }
            },
    {
        let n = self.entries.len();
        if idx >= n {
            return None;
        }
        let focus = self.entries[idx].clone();
        let start = if idx >= before {
            idx - before
        } else {
            0
        };
        let end = if idx + 1 + after <= n {
            idx + 1 + after
        } else {
            n
        };
        let ghost s = self.entries@;
        let mut b: Vec<LogEntry> = Vec::new();
        let mut i = start;
        while i < idx
            invariant
                s == self.entries@,
                start <= i <= idx < n,
                n == s.len(),
                b@ == s.subrange(start as int, i as int),
            decreases idx - i,
        {
            b.push(self.entries[i].clone());
            assert(s.subrange(start as int, i as int).push(s[i as int]) =~= s.subrange(
                start as int,
                i + 1,
            ));
            i += 1;
        }
        let mut a: Vec<LogEntry> = Vec::new();
        let mut j = idx + 1;
        while j < end
            invariant
                s == self.entries@,
                idx + 1 <= j <= end <= n,
                n == s.len(),
                a@ == s.subrange(idx + 1, j as int),
            decreases end - j,
        {
            a.push(self.entries[j].clone());
            assert(s.subrange(idx + 1, j as int).push(s[j as int]) =~= s.subrange(
                idx + 1,
                j + 1,
            ));
            j += 1;
        }
        Some((b, focus, a))
    }
}

/// The least severe priority an entry may have: the chosen minimum, never
/// below warning for the Important preset.
pub open spec fn effective_min(min: LogPriority, preset: LogPreset) -> int {
    if preset == LogPreset::Important && min.level() > 4 {
        4
    } else {
        min.level()
    }
}

/// One hour before `now` (microseconds), saturating at zero.
pub open spec fn hour_before(now: u64) -> int {
    if now >= 3_600_000_000 {
        now - 3_600_000_000
    } else {
        0
    }
}

/// A journal timestamp in microseconds: large values already are; smaller ones
/// are epoch seconds, scaled with saturation at `u64::MAX`.
pub open spec fn stamp_micros(ts: nat) -> int {
    if ts > 1_000_000_000_000 {
        ts as int
    } else if ts * 1_000_000 > u64::MAX {
        u64::MAX as int
    } else {
        (ts * 1_000_000) as int
    }
}

/// What the preset itself admits.
pub open spec fn preset_admits(e: LogEntry, preset: LogPreset, selected: Option<Seq<char>>, now: u64) -> bool {
    match preset {
        LogPreset::Important => e.priority.level() <= 4,
        LogPreset::Kernel => has_substring(unicode_lower(e.unit@), "kernel"@) || has_substring(
            unicode_lower(e.message@),
            "kernel"@,
        ),
        LogPreset::SelectedService => match selected {
            Some(u) => eq_ignore_ascii_case_spec(e.unit@, u),
            None => true,
        },
        LogPreset::LastHour => match parse_unsigned(e.timestamp@, u64::MAX as nat) {
            Some(ts) => stamp_micros(ts) >= hour_before(now),
            None => true,
        },
        LogPreset::CurrentBoot | LogPreset::All => true,
    }
}

/// The lower-cased query `q` matches the entry's message, unit, priority label,
/// timestamp or PID (an empty query matches every entry).
pub open spec fn query_admits(e: LogEntry, q: Seq<char>) -> bool {
    q.len() == 0 || hits(e.message@, q) || hits(e.unit@, q) || has_substring(
        e.priority.label_text(),
        q,
    ) || hits(e.timestamp@, q) || match e.pid {
        Some(p) => has_substring(decimal(p as nat), q),
        None => false,
    }
}

/// An entry stays in the filtered view.
pub open spec fn entry_kept(
    e: LogEntry,
    q: Seq<char>,
    min: LogPriority,
    preset: LogPreset,
    selected: Option<Seq<char>>,
    now: u64,
) -> bool {
    e.priority.level() <= effective_min(min, preset) && preset_admits(e, preset, selected, now)
        && query_admits(e, q)
}

/// The kept entries, in buffer order.
pub open spec fn kept_entries(
    s: Seq<LogEntry>,
    q: Seq<char>,
    min: LogPriority,
    preset: LogPreset,
    selected: Option<Seq<char>>,
    now: u64,
) -> Seq<LogEntry>
    decreases s.len(),
{
    if s.len() == 0 {
        seq![]
    } else {
        let prev = kept_entries(s.drop_last(), q, min, preset, selected, now);
        if entry_kept(s.last(), q, min, preset, selected, now) {
            prev.push(s.last())
        } else {
            prev
        }
    }
}

/// The entries at or above `min`, in buffer order.
pub open spec fn priority_kept(s: Seq<LogEntry>, min: LogPriority) -> Seq<LogEntry>
    decreases s.len(),
{
    if s.len() == 0 {
        seq![]
    } else if s.last().priority.level() <= min.level() {
        priority_kept(s.drop_last(), min).push(s.last())
    } else {
        priority_kept(s.drop_last(), min)
    }
}

/// An empty query with the All preset keeps exactly the entries at or above
/// the minimum priority, at any time.
pub proof fn lemma_empty_query_keeps_priority(s: Seq<LogEntry>, min: LogPriority, now: u64)
    ensures
        kept_entries(s, Seq::empty(), min, LogPreset::All, None, now) == priority_kept(s, min),
    decreases s.len(),
{
    if s.len() > 0 {
        lemma_empty_query_keeps_priority(s.drop_last(), min, now);
    }
}

/// With an empty query the Important preset keeps exactly the entries at
/// or above both the chosen minimum and warning (so a warning is kept
/// whenever the minimum admits it), whatever unit is selected and at any
/// time.
pub proof fn lemma_important_keeps_warnings_and_above(
    s: Seq<LogEntry>,
    min: LogPriority,
    selected: Option<Seq<char>>,
    now: u64,
)
    ensures
        kept_entries(s, Seq::empty(), min, LogPreset::Important, selected, now) == priority_kept(
            s,
            if min.level() <= LogPriority::Warning.level() {
                min
            } else {
                LogPriority::Warning
            },
        ),
    decreases s.len(),
{
    if s.len() > 0 {
        lemma_important_keeps_warnings_and_above(s.drop_last(), min, selected, now);
    }
}

/// Only the last-hour preset reads the clock.
pub proof fn lemma_kept_ignores_clock(
    s: Seq<LogEntry>,
    q: Seq<char>,
    min: LogPriority,
    preset: LogPreset,
    selected: Option<Seq<char>>,
    now1: u64,
    now2: u64,
)
    requires
        preset != LogPreset::LastHour,
    ensures
        kept_entries(s, q, min, preset, selected, now1) == kept_entries(
            s,
            q,
            min,
            preset,
            selected,
            now2,
        ),
    decreases s.len(),
{
    if s.len() > 0 {
        lemma_kept_ignores_clock(s.drop_last(), q, min, preset, selected, now1, now2);
    }
}

/// Microseconds since the Unix epoch from the system clock (0 if the clock is
/// before the epoch). Nothing is stated of the value: it is the time.
#[verifier::external_body]
pub(crate) fn now_micros() -> u64 {
    std::time::SystemTime::now().duration_since(std::time::UNIX_EPOCH).map(
        |d| d.as_micros() as u64,
    ).unwrap_or(0)
}

pub open spec fn opt_str_view(o: Option<&str>) -> Option<Seq<char>> {
    match o {
        Some(s) => Some(s@),
        None => None,
    }
}

pub open spec fn deref_entries(v: Seq<&LogEntry>) -> Seq<LogEntry> {
    v.map_values(|e: &LogEntry| *e)
}

fn query_match(e: &LogEntry, q: &str) -> (b: bool)
    ensures
        b == query_admits(*e, q@),
{
    if q.is_empty() {
        return true;
    }
    if str_contains(to_lower(e.message.as_str()).as_str(), q) || str_contains(
        to_lower(e.unit.as_str()).as_str(),
        q,
    ) || str_contains(e.priority.label(), q) || str_contains(
        to_lower(e.timestamp.as_str()).as_str(),
        q,
    ) {
        return true;
    }
    match e.pid {
        Some(p) => str_contains(decimal_string(p as u64).as_str(), q),
        None => false,
    }
}

fn preset_match(e: &LogEntry, preset: LogPreset, selected_unit: Option<&str>, now_us: u64) -> (b: bool)
    ensures
        b == preset_admits(*e, preset, opt_str_view(selected_unit), now_us),
{
    match preset {
        LogPreset::Important => e.priority.level_of() <= 4,
        LogPreset::Kernel => str_contains(to_lower(e.unit.as_str()).as_str(), "kernel")
            || str_contains(to_lower(e.message.as_str()).as_str(), "kernel"),
        LogPreset::SelectedService => match selected_unit {
            Some(u) => eq_ignore_ascii_case(e.unit.as_str(), u),
            None => true,
        },
        LogPreset::LastHour => {
            let hour_ago: u64 = if now_us >= 3_600_000_000 {
                now_us - 3_600_000_000
            } else {
                0
            };
            match parse_unsigned_str(e.timestamp.as_str(), u64::MAX) {
                Some(ts) => {
                    let us: u64 = if ts > 1_000_000_000_000 {
                        ts
                    } else if ts > u64::MAX / 1_000_000 {
                        u64::MAX
                    } else {
                        ts * 1_000_000
                    };
                    us >= hour_ago
                },
                None => true,
            }
        },
        LogPreset::CurrentBoot | LogPreset::All => true,
    }
}

impl LogBuffer {
    /// The entries kept by `query`, `min_priority`, `preset` and the selected
    /// unit, oldest first, with "the last hour" measured from `now_us`.
    pub fn filtered_preset_at<'a>(
        &'a self,
        query: &str,
        min_priority: LogPriority,
        preset: LogPreset,
        selected_unit: Option<&str>,
        now_us: u64,
    ) -> (r: Vec<&'a LogEntry>)
        ensures
            deref_entries(r@) == kept_entries(
                self.contents(),
                unicode_lower(query@),
                min_priority,
                preset,
                opt_str_view(selected_unit),
                now_us,
            ),
            query@.len() == 0 ==> deref_entries(r@) == kept_entries(
                self.contents(),
                Seq::empty(),
                min_priority,
                preset,
                opt_str_view(selected_unit),
                now_us,
            ),
            query@.len() == 0 && preset == LogPreset::Important ==> deref_entries(r@) == priority_kept(
                self.contents(),
                if min_priority.level() <= LogPriority::Warning.level() {
                    min_priority
                } else {
                    LogPriority::Warning
                },
            ),
    {
        proof {
            lemma_important_keeps_warnings_and_above(
                self.contents(),
                min_priority,
                opt_str_view(selected_unit),
                now_us,
            );
        }
        let lowered = to_lower(query);
        assert(query@.len() == 0 ==> lowered@ =~= Seq::<char>::empty());
        let q = lowered.as_str();
        let min: u8 = if preset == LogPreset::Important && min_priority.level_of() > 4 {
            4
        } else {
            min_priority.level_of()
        };
        let ghost s = self.contents();
        let mut out: Vec<&'a LogEntry> = Vec::new();
        let mut i: usize = 0;
        let n = self.len();
        while i < n
            invariant
                s == self.contents(),
                n == s.len(),
                i <= n,
                q@ == unicode_lower(query@),
                min == effective_min(min_priority, preset),
                deref_entries(out@) == kept_entries(
                    s.take(i as int),
                    q@,
                    min_priority,
                    preset,
                    opt_str_view(selected_unit),
                    now_us,
                ),
            decreases n - i,
        {
            let e = self.get(i);
            assert(s.take(i + 1).drop_last() =~= s.take(i as int));
            assert(s.take(i + 1).last() == *e);
            if e.priority.level_of() <= min && preset_match(e, preset, selected_unit, now_us)
                && query_match(e, q) {
                assert(deref_entries(out@.push(e)) =~= deref_entries(out@).push(*e));
                out.push(e);
            }
            i += 1;
        }
        assert(s.take(n as int) =~= s);
        out
    }

    /// The entries kept at the current time (only the last-hour preset reads the clock).
    pub fn filtered_preset<'a>(
        &'a self,
        query: &str,
        min_priority: LogPriority,
        preset: LogPreset,
        selected_unit: Option<&str>,
    ) -> (r: Vec<&'a LogEntry>)
        ensures
            exists|now: u64|
                deref_entries(r@) == kept_entries(
                    self.contents(),
                    unicode_lower(query@),
                    min_priority,
                    preset,
                    opt_str_view(selected_unit),
                    now,
                ),
            query@.len() == 0 ==> exists|now: u64|
                deref_entries(r@) == kept_entries(
                    self.contents(),
                    Seq::empty(),
                    min_priority,
                    preset,
                    opt_str_view(selected_unit),
                    now,
                ),
    {
        let now_us = now_micros();
        let r = self.filtered_preset_at(query, min_priority, preset, selected_unit, now_us);
        r
    }

    /// Entries at or above `min_priority` matching `query`, oldest first.
    pub fn filtered<'a>(&'a self, query: &str, min_priority: LogPriority) -> (r: Vec<&'a LogEntry>)
        ensures
            deref_entries(r@) == kept_entries(
                self.contents(),
                unicode_lower(query@),
                min_priority,
                LogPreset::All,
                None,
                0,
            ),
            query@.len() == 0 ==> deref_entries(r@) == priority_kept(self.contents(), min_priority),
    {
        let r = self.filtered_preset(query, min_priority, LogPreset::All, None);
        proof {
            let now = choose|now: u64|
                deref_entries(r@) == kept_entries(
                    self.contents(),
                    unicode_lower(query@),
                    min_priority,
                    LogPreset::All,
                    opt_str_view(None),
                    now,
                );
            lemma_kept_ignores_clock(
                self.contents(),
                unicode_lower(query@),
                min_priority,
                LogPreset::All,
                None,
                now,
                0,
            );
            if query@.len() == 0 {
                let t = choose|t: u64|
                    deref_entries(r@) == kept_entries(
                        self.contents(),
                        Seq::empty(),
                        min_priority,
                        LogPreset::All,
                        opt_str_view(None),
                        t,
                    );
                lemma_empty_query_keeps_priority(self.contents(), min_priority, t);
            }
        }
        r
    }
}

} // verus!
