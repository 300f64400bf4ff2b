//! Known-unit allowlist: the units the service listing last observed, which
//! are the only units admin actions may touch. There is one registry, held
//! by the admin executor (`LinuxAdminExecutor`); the listing refreshes it
//! through the executor, so every admin check reads the units last listed.
//! A registry has no `Clone`: a second, stale copy cannot exist.

use vstd::prelude::*;

use crate::text::str_eq;

verus! {

/// Unit names last observed via ListUnits, each held once.
#[derive(Debug)]
pub struct UnitRegistry {
    units: Vec<String>,
}

impl UnitRegistry {
    #[verifier::type_invariant]
    spec fn distinct(self) -> bool {
        self.names().no_duplicates()
    }

    closed spec fn names(self) -> Seq<Seq<char>> {
        self.units@.map_values(|u: String| u@)
    }

    /// The registered unit names.
    pub closed spec fn known(self) -> Set<Seq<char>> {
        self.names().to_set()
    }

    pub fn new() -> (r: Self)
        ensures
            r.known() == Set::<Seq<char>>::empty(),
    {
        let r = UnitRegistry { units: Vec::new() };
        assert(r.known() =~= Set::<Seq<char>>::empty());
        r
    }

    fn position(&self, unit: &str) -> (b: bool)
        ensures
            b == self.names().contains(unit@),
    {
        let mut i: usize = 0;
        while i < self.units.len()
            invariant
                i <= self.units.len(),
                forall|j: int| 0 <= j < i ==> self.units@[j]@ != unit@,
            decreases self.units.len() - i,
        {
            if str_eq(self.units[i].as_str(), unit) {
                assert(self.names()[i as int] == unit@);
                return true;
            }
            i += 1;
        }
        false
    }

    /// Replaces the registry with exactly the given unit names.
    pub fn replace_all(&mut self, units: Vec<String>)
        ensures
            final(self).known() == units@.map_values(|u: String| u@).to_set(),
    {
        self.units = Vec::new();
        let ghost wanted = units@.map_values(|u: String| u@);
        let mut i: usize = 0;
        assert(self.known() =~= wanted.take(0).to_set());
        while i < units.len()
            invariant
                wanted == units@.map_values(|u: String| u@),
                i <= units.len(),
                self.known() == wanted.take(i as int).to_set(),
            decreases units.len() - i,
        {
            proof {
                use_type_invariant(&*self);
            }
            let u = &units[i];
            let present = self.position(u.as_str());
            assert(wanted.take(i + 1) =~= wanted.take(i as int).push(u@));
            proof {
                crate::seqs::lemma_push_to_set(wanted.take(i as int), u@);
            }
            if !present {
                let mut v: Vec<String> = Vec::new();
                std::mem::swap(&mut v, &mut self.units);
                let ghost before = v@;
                v.push(u.clone());
                assert(v@.map_values(|u: String| u@) =~= before.map_values(|u: String| u@).push(
                    u@,
                ));
                proof {
                    crate::seqs::lemma_push_to_set(before.map_values(|u: String| u@), u@);
                }
                self.units = v;
            }
            assert(self.known() =~= wanted.take(i + 1).to_set());
            i += 1;
        }
        assert(wanted.take(units.len() as int) =~= wanted);
    }

    /// `unit` is registered.
    pub fn contains(&self, unit: &str) -> (b: bool)
        ensures
            b == self.known().contains(unit@),
    {
        self.position(unit)
    }

    /// Number of registered units.
    pub fn len(&self) -> (n: usize)
        ensures
            n == self.known().len(),
    {
        proof {
            use_type_invariant(self);
            self.names().unique_seq_to_set();
        }
        self.units.len()
    }

    pub fn is_empty(&self) -> (b: bool)
        ensures
            b == (self.known().len() == 0),
            b == (self.known() == Set::<Seq<char>>::empty()),
    {
        proof {
            use_type_invariant(self);
            self.names().unique_seq_to_set();
            if self.names().len() == 0 {
                assert(self.known() =~= Set::<Seq<char>>::empty());
            } else {
                assert(self.known().contains(self.names()[0]));
            }
        }
        self.len() == 0
    }
}

} // verus!
