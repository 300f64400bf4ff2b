//! Process signal and sort choices, and the protected-PID guard.

use vstd::prelude::*;

use crate::text::{decimal, decimal_string, has_substring, str_contains, to_lower, unicode_lower};

verus! {

#[derive(Debug, Clone, Copy, PartialEq, Eq, Structural)]
pub enum ProcessSignal {
    Term,
    Kill,
    Stop,
    Cont,
}

impl ProcessSignal {
    pub open spec fn label_text(self) -> Seq<char> {
        match self {
            ProcessSignal::Term => "SIGTERM"@,
            ProcessSignal::Kill => "SIGKILL"@,
            ProcessSignal::Stop => "SIGSTOP"@,
            ProcessSignal::Cont => "SIGCONT"@,
        }
    }

    pub fn label(self) -> (s: &'static str)
        ensures
            s@ == self.label_text(),
    {
        match self {
            ProcessSignal::Term => "SIGTERM",
            ProcessSignal::Kill => "SIGKILL",
            ProcessSignal::Stop => "SIGSTOP",
            ProcessSignal::Cont => "SIGCONT",
        }
    }
}

#[derive(Debug, Clone, Copy, PartialEq, Eq, Structural)]
pub enum ProcessSort {
    Cpu,
    Memory,
    Pid,
    Name,
}

impl ProcessSort {
    pub open spec fn following(self) -> Self {
        match self {
            ProcessSort::Cpu => ProcessSort::Memory,
            ProcessSort::Memory => ProcessSort::Pid,
            ProcessSort::Pid => ProcessSort::Name,
            ProcessSort::Name => ProcessSort::Cpu,
        }
    }

    /// Cycles cpu → mem → pid → name → cpu.
    pub fn next(self) -> (r: Self)
        ensures
            r == self.following(),
    {
        match self {
            ProcessSort::Cpu => ProcessSort::Memory,
            ProcessSort::Memory => ProcessSort::Pid,
            ProcessSort::Pid => ProcessSort::Name,
            ProcessSort::Name => ProcessSort::Cpu,
        }
    }

    pub open spec fn label_text(self) -> Seq<char> {
        match self {
            ProcessSort::Cpu => "cpu"@,
            ProcessSort::Memory => "mem"@,
            ProcessSort::Pid => "pid"@,
            ProcessSort::Name => "name"@,
        }
    }

    pub fn label(self) -> (s: &'static str)
        ensures
            s@ == self.label_text(),
    {
        match self {
            ProcessSort::Cpu => "cpu",
            ProcessSort::Memory => "mem",
            ProcessSort::Pid => "pid",
            ProcessSort::Name => "name",
        }
    }
}

impl Default for ProcessSort {
    fn default() -> (r: Self)
        ensures
            r == ProcessSort::Cpu,
    {
        ProcessSort::Cpu
    }
}

/// PIDs that signals must never reach: the scheduler (0), init (1) and this process.
pub open spec fn protected_pid(pid: u32, self_pid: u32) -> bool {
    pid == 0 || pid == 1 || pid == self_pid
}

pub fn is_protected_pid(pid: u32, self_pid: u32) -> (b: bool)
    ensures
        b == protected_pid(pid, self_pid),
{
    pid == 0 || pid == 1 || pid == self_pid
}

/// The sort cycle visits all four orders and comes back.
pub proof fn lemma_sort_cycle(s: ProcessSort)
    ensures
        s.following().following().following().following() == s,
        s.following() != s,
{
}

/// What the process filter reads of a process: its PID and the texts a
/// query is matched against.
#[derive(Debug, Clone)]
pub struct ProcessText {
    pub pid: u32,
    pub user: String,
    pub name: String,
    pub cmd: String,
}

/// A process matches a (lower-cased) query when its name, command line or
/// user, lower-cased, or its PID in decimal contains it.
pub open spec fn process_matches(p: ProcessText, q: Seq<char>) -> bool {
    has_substring(unicode_lower(p.name@), q) || has_substring(unicode_lower(p.cmd@), q)
        || has_substring(unicode_lower(p.user@), q) || has_substring(decimal(p.pid as nat), q)
}

/// The processes a query keeps, in order: all of them for an empty query.
pub open spec fn processes_kept(items: Seq<ProcessText>, query: Seq<char>) -> Seq<ProcessText> {
    if query.len() == 0 {
        items
    } else {
        items.filter(|p: ProcessText| process_matches(p, unicode_lower(query)))
    }
}

pub open spec fn deref_texts(v: Seq<&ProcessText>) -> Seq<ProcessText> {
    v.map_values(|p: &ProcessText| *p)
}

/// The processes matching `query`, in order.
pub fn filter_processes<'a>(items: &'a [ProcessText], query: &str) -> (r: Vec<&'a ProcessText>)
    ensures
        deref_texts(r@) == processes_kept(items@, query@),
{
    let mut r: Vec<&'a ProcessText> = Vec::new();
    if crate::text::chars_of(query).len() == 0 {
        let mut i: usize = 0;
        while i < items.len()
            invariant
                i <= items@.len(),
                r@.len() == i,
                forall|k: int| 0 <= k < i ==> *(#[trigger] r@[k]) == items@[k],
            decreases items@.len() - i,
        {
            let p = &items[i];
            r.push(p);
            i += 1;
        }
        assert(deref_texts(r@) =~= items@);
        return r;
    }
    let q = to_lower(query);
    let ghost f = |p: ProcessText| process_matches(p, q@);
    let mut i: usize = 0;
    while i < items.len()
        invariant
            i <= items@.len(),
            q@ == unicode_lower(query@),
            f == (|p: ProcessText| process_matches(p, q@)),
            deref_texts(r@) == items@.take(i as int).filter(f),
        decreases items@.len() - i,
    {
        let p = &items[i];
        assert(*p == items@[i as int]);
        let keep = str_contains(to_lower(p.name.as_str()).as_str(), q.as_str()) || str_contains(
            to_lower(p.cmd.as_str()).as_str(),
            q.as_str(),
        ) || str_contains(to_lower(p.user.as_str()).as_str(), q.as_str()) || str_contains(
            decimal_string(p.pid as u64).as_str(),
            q.as_str(),
        );
        proof {
            assert(items@.take(i + 1).drop_last() =~= items@.take(i as int));
            reveal(Seq::filter);
        }
        if keep {
            r.push(p);
        }
        assert(deref_texts(r@) =~= items@.take(i + 1).filter(f));
        i += 1;
    }
    assert(items@.take(items@.len() as int) =~= items@);
    assert(f =~= (|p: ProcessText| process_matches(p, unicode_lower(query@))));
    r
}

/// The first position of `pid` in `pids` from `i` on.
pub open spec fn first_pid_at(pids: Seq<u32>, pid: u32, i: int) -> Option<int>
    decreases pids.len() - i,
{
    if i < 0 || i >= pids.len() {
        None
    } else if pids[i] == pid {
        Some(i)
    } else {
        first_pid_at(pids, pid, i + 1)
    }
}

/// The selection kept across a refresh: the first row of the selected PID,
/// else the first row.
pub fn preserve_selection(pids: &[u32], selected_pid: Option<u32>) -> (r: usize)
    ensures
        r == match selected_pid {
            Some(pid) => match first_pid_at(pids@, pid, 0) {
                Some(i) => i,
                None => 0,
            },
            None => 0,
        },
{
    if let Some(pid) = selected_pid {
        let mut i: usize = 0;
        while i < pids.len()
            invariant
                i <= pids@.len(),
                selected_pid == Some(pid),
                first_pid_at(pids@, pid, 0) == first_pid_at(pids@, pid, i as int),
            decreases pids@.len() - i,
        {
            let v = pids[i];
            assert(v == pids@[i as int]);
            if v == pid {
                return i;
            }
            i += 1;
        }
    }
    0
}

/// A non-empty query keeps exactly the processes whose lower-cased name,
/// command line or user, or whose PID in decimal, contains the lower-cased
/// query; an empty query keeps every process.
pub proof fn lemma_filter_processes_law(items: Seq<ProcessText>, query: Seq<char>)
    ensures
        query.len() == 0 ==> processes_kept(items, query) == items,
        query.len() > 0 ==> forall|i: int|
            0 <= i < items.len() && (has_substring(unicode_lower(items[i].name@), unicode_lower(query))
                || has_substring(unicode_lower(items[i].cmd@), unicode_lower(query))
                || has_substring(unicode_lower(items[i].user@), unicode_lower(query))
                || has_substring(decimal(items[i].pid as nat), unicode_lower(query)))
                ==> #[trigger] processes_kept(items, query).contains(items[i]),
        query.len() > 0 ==> forall|k: int|
            0 <= k < processes_kept(items, query).len() ==> {
                let p = #[trigger] processes_kept(items, query)[k];
                &&& items.contains(p)
                &&& has_substring(unicode_lower(p.name@), unicode_lower(query)) || has_substring(
                    unicode_lower(p.cmd@),
                    unicode_lower(query),
                ) || has_substring(unicode_lower(p.user@), unicode_lower(query)) || has_substring(
                    decimal(p.pid as nat),
                    unicode_lower(query),
                )
            },
{
    if query.len() > 0 {
        let pred = |p: ProcessText| process_matches(p, unicode_lower(query));
        broadcast use vstd::seq_lib::group_filter_ensures;
        assert forall|i: int|
            0 <= i < items.len() && (has_substring(unicode_lower(items[i].name@), unicode_lower(query))
                || has_substring(unicode_lower(items[i].cmd@), unicode_lower(query))
                || has_substring(unicode_lower(items[i].user@), unicode_lower(query))
                || has_substring(decimal(items[i].pid as nat), unicode_lower(query)))
            implies #[trigger] processes_kept(items, query).contains(items[i]) by {
            items.lemma_filter_contains(pred, i);
        }
        assert forall|k: int| 0 <= k < processes_kept(items, query).len() implies {
            let p = #[trigger] processes_kept(items, query)[k];
            &&& items.contains(p)
            &&& has_substring(unicode_lower(p.name@), unicode_lower(query)) || has_substring(
                unicode_lower(p.cmd@),
                unicode_lower(query),
            ) || has_substring(unicode_lower(p.user@), unicode_lower(query)) || has_substring(
                decimal(p.pid as nat),
                unicode_lower(query),
            )
        } by {
            items.lemma_filter_pred(pred, k);
            assert(items.filter(pred).contains(items.filter(pred)[k]));
            items.lemma_filter_contains_rev(pred, items.filter(pred)[k]);
        }
    }
}

} // verus!
