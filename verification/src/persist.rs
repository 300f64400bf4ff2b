//! State kept between runs: the last boot and diagnostic run seen, the
//! findings the operator acknowledged and the last SMART CRC counters.

use vstd::prelude::*;

use crate::config::join_path;
use crate::config::join_paths;
use crate::config::opt_view;
use crate::model::log::now_micros;
use crate::text::str_eq;
use crate::CONFIG_DIR_NAME;

verus! {

#[derive(Debug, Clone)]
pub struct AppPersistState {
    pub last_seen_boot_id: Option<String>,
    pub last_diagnostic_at: Option<u64>,
    /// Acknowledged finding ids; read as a set.
    pub acknowledged_finding_ids: Vec<String>,
    /// Last seen SMART UDMA CRC counters keyed by device path; the first
    /// entry for a device is the one that counts.
    pub smart_crc_counts: Vec<(String, u64)>,
}

/// The acknowledged ids as a set of texts.
pub open spec fn id_set(ids: Seq<String>) -> Set<Seq<char>> {
    id_texts(ids).to_set()
}

/// The acknowledged ids as texts, in stored order.
pub open spec fn id_texts(ids: Seq<String>) -> Seq<Seq<char>> {
    ids.map_values(|s: String| s@)
}

/// The counter table with its keys read as text.
pub open spec fn crc_entries(v: Seq<(String, u64)>) -> Seq<(Seq<char>, u64)> {
    v.map_values(|p: (String, u64)| (p.0@, p.1))
}

/// The counter recorded for `dev`: the first entry with that key.
pub open spec fn crc_lookup(e: Seq<(Seq<char>, u64)>, dev: Seq<char>) -> Option<u64>
    decreases e.len(),
{
    if e.len() == 0 {
        None
    } else if e[0].0 == dev {
        Some(e[0].1)
    } else {
        crc_lookup(e.drop_first(), dev)
    }
}

proof fn lemma_lookup_first_match(e: Seq<(Seq<char>, u64)>, dev: Seq<char>, i: int)
    requires
        0 <= i < e.len(),
        e[i].0 == dev,
        forall|j: int| 0 <= j < i ==> e[j].0 != dev,
    ensures
        crc_lookup(e, dev) == Some(e[i].1),
    decreases i,
{
    if i > 0 {
        lemma_lookup_first_match(e.drop_first(), dev, i - 1);
    }
}

proof fn lemma_lookup_absent(e: Seq<(Seq<char>, u64)>, dev: Seq<char>)
    requires
        forall|j: int| 0 <= j < e.len() ==> e[j].0 != dev,
    ensures
        crc_lookup(e, dev) is None,
    decreases e.len(),
{
    if e.len() > 0 {
        lemma_lookup_absent(e.drop_first(), dev);
    }
}

proof fn lemma_lookup_update(e: Seq<(Seq<char>, u64)>, i: int, k: Seq<char>, v: u64, d: Seq<char>)
    requires
        0 <= i < e.len(),
        e[i].0 == k,
        forall|j: int| 0 <= j < i ==> e[j].0 != k,
    ensures
        crc_lookup(e.update(i, (k, v)), k) == Some(v),
        d != k ==> crc_lookup(e.update(i, (k, v)), d) == crc_lookup(e, d),
    decreases i,
{
    let e2 = e.update(i, (k, v));
    if i == 0 {
        assert(e2.drop_first() =~= e.drop_first());
    } else {
        assert(e2.drop_first() =~= e.drop_first().update(i - 1, (k, v)));
        lemma_lookup_update(e.drop_first(), i - 1, k, v, d);
    }
}

proof fn lemma_lookup_push(e: Seq<(Seq<char>, u64)>, k: Seq<char>, v: u64, d: Seq<char>)
    requires
        crc_lookup(e, k) is None,
    ensures
        crc_lookup(e.push((k, v)), k) == Some(v),
        d != k ==> crc_lookup(e.push((k, v)), d) == crc_lookup(e, d),
    decreases e.len(),
{
    if e.len() > 0 {
        assert(e.push((k, v)).drop_first() =~= e.drop_first().push((k, v)));
        lemma_lookup_push(e.drop_first(), k, v, d);
    } else {
        assert(e.push((k, v)).drop_first() =~= e);
    }
}

/// The state file's location: `<state dir>/server-tui/state.toml`, where the
/// state dir falls back to the local data dir and then to `.`.
pub open spec fn state_file_path(dir: Seq<char>) -> Seq<char> {
    join_path(join_path(dir, CONFIG_DIR_NAME@), "state.toml"@)
}

/// Whole seconds in `micros` microseconds.
pub open spec fn whole_seconds(micros: u64) -> u64 {
    micros / 1_000_000
}

/// The state file's path: under the state directory `st`, else the local
/// data directory `local`, else `.`.
pub open spec fn state_path_of(st: Option<Seq<char>>, local: Option<Seq<char>>) -> Seq<char> {
    state_file_path(
        match st {
            Some(d) => d,
            None => match local {
                Some(d) => d,
                None => "."@,
            },
        },
    )
}

/// `<dir>/server-tui/state.toml` for the first of the state directory, the
/// local data directory and `.` that is there.
pub fn state_path_in(st: Option<&str>, local: Option<&str>) -> (r: String)
    ensures
        r@ == state_path_of(
            match st {
                Some(d) => Some(d@),
                None => None,
            },
            match local {
                Some(d) => Some(d@),
                None => None,
            },
        ),
{
    let dir = match st {
        Some(d) => d,
        None => match local {
            Some(d) => d,
            None => ".",
        },
    };
    let app_dir = join_paths(dir, CONFIG_DIR_NAME);
    join_paths(app_dir.as_str(), "state.toml")
}

/// The user's state directory (`dirs::state_dir`), as text. It depends on the
/// environment, so nothing is stated of it.
#[verifier::external_body]
fn state_dir() -> Option<String> {
    dirs::state_dir().map(|p| p.to_string_lossy().into_owned())
}

/// The user's local data directory (`dirs::data_local_dir`), as text. It
/// depends on the environment, so nothing is stated of it.
#[verifier::external_body]
fn data_local_dir() -> Option<String> {
    dirs::data_local_dir().map(|p| p.to_string_lossy().into_owned())
}

impl Default for AppPersistState {
    fn default() -> (s: Self)
        ensures
            s.last_seen_boot_id is None,
            s.last_diagnostic_at is None,
            s.acknowledged_finding_ids@.len() == 0,
            s.smart_crc_counts@.len() == 0,
    {
        AppPersistState::new()
    }
}

impl AppPersistState {
    /// Nothing seen, nothing acknowledged, no counters.
    pub fn new() -> (s: Self)
        ensures
            s.last_seen_boot_id is None,
            s.last_diagnostic_at is None,
            s.acknowledged_finding_ids@.len() == 0,
            s.smart_crc_counts@.len() == 0,
    {
        AppPersistState {
            last_seen_boot_id: None,
            last_diagnostic_at: None,
            acknowledged_finding_ids: Vec::new(),
            smart_crc_counts: Vec::new(),
        }
    }

    /// The state file's default location. The directories come from the
    /// environment, so what holds whatever they are stands here, and
    /// `state_path_in` says what the path is for each answer.
    pub fn default_path() -> (r: String)
        ensures
            exists|st: Option<Seq<char>>, local: Option<Seq<char>>| r@ == state_path_of(st, local),
    {
        let st = state_dir();
        let local = data_local_dir();
        let a = match &st {
            Some(d) => Some(d.as_str()),
            None => None,
        };
        let b = match &local {
            Some(d) => Some(d.as_str()),
            None => None,
        };
        let r = state_path_in(a, b);
        assert(r@ == state_path_of(opt_view(st), opt_view(local)));
        r
    }

    /// Records that a diagnostic run happened at `micros` microseconds since
    /// the epoch, kept in whole seconds.
    pub fn touch_diagnostic_at(&mut self, micros: u64)
        ensures
            final(self).last_diagnostic_at == Some(micros / 1_000_000),
            final(self).last_seen_boot_id == old(self).last_seen_boot_id,
            final(self).acknowledged_finding_ids == old(self).acknowledged_finding_ids,
            final(self).smart_crc_counts == old(self).smart_crc_counts,
    {
        self.last_diagnostic_at = Some(micros / 1_000_000);
    }

    /// Records that a diagnostic run happened now. The clock decides the
    /// time, so only that a time is recorded stands here;
    /// `touch_diagnostic_at` says what is recorded for each reading.
    pub fn touch_diagnostic_now(&mut self)
        ensures
            exists|micros: u64| final(self).last_diagnostic_at == Some(#[trigger] whole_seconds(micros)),
            final(self).last_seen_boot_id == old(self).last_seen_boot_id,
            final(self).acknowledged_finding_ids == old(self).acknowledged_finding_ids,
            final(self).smart_crc_counts == old(self).smart_crc_counts,
    {
        let now = now_micros();
        self.touch_diagnostic_at(now);
        assert(self.last_diagnostic_at == Some(whole_seconds(now)));
    }

    pub fn is_acknowledged(&self, id: &str) -> (r: bool)
        ensures
            r == id_set(self.acknowledged_finding_ids@).contains(id@),
    {
        let ids = &self.acknowledged_finding_ids;
        let ghost view = id_texts(self.acknowledged_finding_ids@);
        let mut i: usize = 0;
        while i < ids.len()
            invariant
                i <= ids.len(),
                view == id_texts(ids@),
                ids@ == self.acknowledged_finding_ids@,
                forall|j: int| 0 <= j < i ==> view[j] != id@,
            decreases ids.len() - i,
        {
            if str_eq(ids[i].as_str(), id) {
                assert(view[i as int] == id@);
                assert(view.contains(id@));
                assert(view.to_set().contains(id@));
                return true;
            }
            i += 1;
        }
        proof {
            if view.to_set().contains(id@) {
                let j = choose|j: int| 0 <= j < view.len() && view[j] == id@;
                assert(view[j] != id@);
            }
        }
        false
    }

    pub fn acknowledge(&mut self, id: &str)
        ensures
            id_set(final(self).acknowledged_finding_ids@) == id_set(
                old(self).acknowledged_finding_ids@,
            ).insert(id@),
            final(self).last_seen_boot_id == old(self).last_seen_boot_id,
            final(self).last_diagnostic_at == old(self).last_diagnostic_at,
            final(self).smart_crc_counts == old(self).smart_crc_counts,
    {
        if !self.is_acknowledged(id) {
            let ghost before = self.acknowledged_finding_ids@;
            self.acknowledged_finding_ids.push(String::from_str(id));
            proof {
                assert(id_texts(self.acknowledged_finding_ids@) =~= id_texts(before).push(id@));
                crate::seqs::lemma_push_to_set(id_texts(before), id@);
            }
        } else {
            assert(id_set(self.acknowledged_finding_ids@) =~= id_set(
                self.acknowledged_finding_ids@,
            ).insert(id@));
        }
    }

    /// Index of the first counter entry for `device`.
    fn find_crc(&self, device: &str) -> (r: Option<usize>)
        ensures
            match r {
                Some(i) => i < self.smart_crc_counts@.len() && crc_entries(
                    self.smart_crc_counts@,
                )[i as int].0 == device@ && crc_lookup(crc_entries(self.smart_crc_counts@), device@)
                    == Some(self.smart_crc_counts@[i as int].1) && forall|j: int|
                    0 <= j < i ==> crc_entries(self.smart_crc_counts@)[j].0 != device@,
                None => crc_lookup(crc_entries(self.smart_crc_counts@), device@) is None,
            },
    {
        let ghost e = crc_entries(self.smart_crc_counts@);
        let mut i: usize = 0;
        while i < self.smart_crc_counts.len()
            invariant
                i <= self.smart_crc_counts.len(),
                e == crc_entries(self.smart_crc_counts@),
                forall|j: int| 0 <= j < i ==> e[j].0 != device@,
            decreases self.smart_crc_counts.len() - i,
        {
            if str_eq(self.smart_crc_counts[i].0.as_str(), device) {
                proof {
                    lemma_lookup_first_match(e, device@, i as int);
                }
                return Some(i);
            }
            i += 1;
        }
        proof {
            lemma_lookup_absent(e, device@);
        }
        None
    }

    /// Records `count` for `device` and returns the counter it replaces.
    pub fn remember_crc(&mut self, device: &str, count: u64) -> (r: Option<u64>)
        ensures
            r == crc_lookup(crc_entries(old(self).smart_crc_counts@), device@),
            crc_lookup(crc_entries(final(self).smart_crc_counts@), device@) == Some(count),
            forall|d: Seq<char>|
                d != device@ ==> crc_lookup(crc_entries(final(self).smart_crc_counts@), d)
                    == crc_lookup(crc_entries(old(self).smart_crc_counts@), d),
            final(self).last_seen_boot_id == old(self).last_seen_boot_id,
            final(self).last_diagnostic_at == old(self).last_diagnostic_at,
            final(self).acknowledged_finding_ids == old(self).acknowledged_finding_ids,
    {
        let ghost e = crc_entries(self.smart_crc_counts@);
        match self.find_crc(device) {
            Some(i) => {
                let previous = self.smart_crc_counts[i].1;
                self.smart_crc_counts.set(i, (String::from_str(device), count));
                proof {
                    assert(crc_entries(self.smart_crc_counts@) =~= e.update(
                        i as int,
                        (device@, count),
                    ));
                    assert forall|d: Seq<char>| d != device@ implies crc_lookup(
                        crc_entries(self.smart_crc_counts@),
                        d,
                    ) == crc_lookup(e, d) by {
                        lemma_lookup_update(e, i as int, device@, count, d);
                    }
                    lemma_lookup_update(e, i as int, device@, count, device@);
                }
                Some(previous)
            },
            None => {
                self.smart_crc_counts.push((String::from_str(device), count));
                proof {
                    assert(crc_entries(self.smart_crc_counts@) =~= e.push((device@, count)));
                    assert forall|d: Seq<char>| d != device@ implies crc_lookup(
                        crc_entries(self.smart_crc_counts@),
                        d,
                    ) == crc_lookup(e, d) by {
                        lemma_lookup_push(e, device@, count, d);
                    }
                    lemma_lookup_push(e, device@, count, device@);
                }
                None
            },
        }
    }

    pub fn previous_crc(&self, device: &str) -> (r: Option<u64>)
        ensures
            r == crc_lookup(crc_entries(self.smart_crc_counts@), device@),
    {
        match self.find_crc(device) {
            Some(i) => Some(self.smart_crc_counts[i].1),
            None => None,
        }
    }
}

} // verus!
