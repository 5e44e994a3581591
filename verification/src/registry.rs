//! The in-memory volume registry: a key/value store from volume name to
//! volume record.
//!
//! The registry is the sole owner of the name-to-record mapping; every
//! lifecycle operation reads or mutates it only through the methods here.
//! Its abstract state is a [`Map`] from name to [`VolumeModel`]; the
//! well-formedness invariant keeps one record per name.

use vstd::prelude::*;

use crate::errors::{ErrModel, VolumeError};
use crate::volume::{VolumeModel, XetVolume};

verus! {

struct Entry {
    name: String,
    volume: XetVolume,
}

/// The store mapping volume name to volume record. Entries are inserted by
/// create and deleted by remove; nothing else mutates it.
pub struct Registry {
    entries: Vec<Entry>,
}

spec fn map_of(s: Seq<Entry>) -> Map<Seq<char>, VolumeModel>
    decreases s.len(),
{
    if s.len() == 0 {
        Map::empty()
    } else {
        map_of(s.drop_last()).insert(s.last().name@, s.last().volume@)
    }
}

spec fn unique_names(s: Seq<Entry>) -> bool {
    forall|i: int, j: int| 0 <= i < j < s.len() ==> s[i].name@ != s[j].name@
}

proof fn lemma_unique_names_drop_last(s: Seq<Entry>)
    requires
        unique_names(s),
        s.len() > 0,
    ensures
        unique_names(s.drop_last()),
{
    assert(forall|p: int, q: int|
        0 <= p < q < s.drop_last().len() ==> s.drop_last()[p].name@ != s.drop_last()[q].name@);
}

proof fn lemma_map_of_contains(s: Seq<Entry>, k: Seq<char>)
    ensures
        map_of(s).contains_key(k) <==> exists|i: int| 0 <= i < s.len() && s[i].name@ == k,
    decreases s.len(),
{
    if s.len() > 0 {
        lemma_map_of_contains(s.drop_last(), k);
        if s.last().name@ == k {
            assert(s[s.len() - 1].name@ == k);
        } else {
            if map_of(s).contains_key(k) {
                let i = choose|i: int| 0 <= i < s.drop_last().len() && s.drop_last()[i].name@ == k;
                assert(s[i].name@ == k);
            }
            if exists|i: int| 0 <= i < s.len() && s[i].name@ == k {
                let i = choose|i: int| 0 <= i < s.len() && s[i].name@ == k;
                assert(s.drop_last()[i].name@ == k);
            }
        }
    }
}

proof fn lemma_map_of_index(s: Seq<Entry>, i: int)
    requires
        unique_names(s),
        0 <= i < s.len(),
    ensures
        map_of(s).contains_key(s[i].name@),
        map_of(s)[s[i].name@] == s[i].volume@,
    decreases s.len(),
{
    lemma_map_of_contains(s, s[i].name@);
    if i < s.len() - 1 {
        lemma_unique_names_drop_last(s);
        assert(s.drop_last()[i] == s[i]);
        lemma_map_of_index(s.drop_last(), i);
        assert(s[i].name@ != s.last().name@);
    }
}

proof fn lemma_map_of_remove(s: Seq<Entry>, i: int)
    requires
        unique_names(s),
        0 <= i < s.len(),
    ensures
        map_of(s.remove(i)) =~= map_of(s).remove(s[i].name@),
    decreases s.len(),
{
    lemma_map_of_contains(s, s[i].name@);
    if i == s.len() - 1 {
        assert(s.remove(i) =~= s.drop_last());
        lemma_map_of_contains(s.drop_last(), s[i].name@);
        assert(!map_of(s.drop_last()).contains_key(s.last().name@)) by {
            if exists|j: int| 0 <= j < s.drop_last().len() && s.drop_last()[j].name@
                == s.last().name@ {
                let j = choose|j: int|
                    0 <= j < s.drop_last().len() && s.drop_last()[j].name@ == s.last().name@;
                assert(s[j].name@ == s[i].name@);
            }
        }
        assert(map_of(s).remove(s.last().name@) =~= map_of(s.drop_last()));
    } else {
        lemma_unique_names_drop_last(s);
        assert(s.drop_last()[i] == s[i]);
        lemma_map_of_remove(s.drop_last(), i);
        let t = s.remove(i);
        assert(t.drop_last() =~= s.drop_last().remove(i));
        assert(t.last() == s.last());
        assert(map_of(t) == map_of(s.drop_last().remove(i)).insert(s.last().name@, s.last().volume@));
        assert(s[i].name@ != s.last().name@);
        assert(map_of(s.drop_last()).remove(s[i].name@).insert(s.last().name@, s.last().volume@)
            =~= map_of(s.drop_last()).insert(s.last().name@, s.last().volume@).remove(s[i].name@));
    }
}

proof fn lemma_map_of_dom_len(s: Seq<Entry>)
    requires
        unique_names(s),
    ensures
        map_of(s).dom().finite(),
        map_of(s).dom().len() == s.len(),
    decreases s.len(),
{
    if s.len() > 0 {
        lemma_unique_names_drop_last(s);
        lemma_map_of_dom_len(s.drop_last());
        lemma_map_of_contains(s.drop_last(), s.last().name@);
        assert(!map_of(s.drop_last()).contains_key(s.last().name@)) by {
            if exists|j: int| 0 <= j < s.drop_last().len() && s.drop_last()[j].name@
                == s.last().name@ {
                let j = choose|j: int|
                    0 <= j < s.drop_last().len() && s.drop_last()[j].name@ == s.last().name@;
                assert(s[j].name@ == s[s.len() - 1].name@);
            }
        }
        assert(map_of(s).dom() =~= map_of(s.drop_last()).dom().insert(s.last().name@));
    } else {
        assert(map_of(s).dom() =~= Set::<Seq<char>>::empty());
    }
}

impl View for Registry {
    type V = Map<Seq<char>, VolumeModel>;

    closed spec fn view(&self) -> Map<Seq<char>, VolumeModel> {
        map_of(self.entries@)
    }
}

impl Registry {
    /// One record per name: the well-formedness invariant of the store.
    pub closed spec fn wf(self) -> bool {
        unique_names(self.entries@)
    }

    /// The number of registered volumes.
    pub closed spec fn len(self) -> nat {
        self.entries@.len()
    }

    /// A well-formed registry has exactly one entry per name in its map.
    pub proof fn lemma_len_is_dom_len(self)
        requires
            self.wf(),
        ensures
            self@.dom().finite(),
            self@.dom().len() == self.len(),
    {
        lemma_map_of_dom_len(self.entries@);
    }

    /// An empty registry: no volume is registered.
    pub fn new() -> (r: Registry)
        ensures
            r.wf(),
            r@ =~= Map::<Seq<char>, VolumeModel>::empty(),
            r.len() == 0,
    {
        Registry { entries: Vec::new() }
    }

    /// The position of `name` among the entries, if registered.
    fn position_of(&self, name: &String) -> (r: Option<usize>)
        ensures
            match r {
                Some(i) => i < self.entries@.len() && self.entries@[i as int].name@ == name@,
                None => !self@.contains_key(name@),
            },
    {
        let n = self.entries.len();
        for i in 0..n
            invariant
                n == self.entries@.len(),
                forall|j: int| 0 <= j < i ==> self.entries@[j].name@ != name@,
        {
            if self.entries[i].name == *name {
                return Some(i);
            }
        }
        proof {
            lemma_map_of_contains(self.entries@, name@);
        }
        None
    }

    /// Look the record up under `name`; never mutates.
    pub fn get<'a>(&'a self, name: &String) -> (r: Option<&'a XetVolume>)
        requires
            self.wf(),
        ensures
            match r {
                Some(v) => self@.contains_key(name@) && v@ == self@[name@],
                None => !self@.contains_key(name@),
            },
    {
        match self.position_of(name) {
            Some(i) => {
                proof {
                    lemma_map_of_index(self.entries@, i as int);
                }
                Some(&self.entries[i].volume)
            },
            None => None,
        }
    }

    /// Register `volume` under `name`, replacing any existing entry for
    /// `name`. Reached only through the lifecycle handler, the registry's
    /// one mutation gate.
    pub(crate) fn insert(&mut self, name: String, volume: XetVolume)
        requires
            old(self).wf(),
        ensures
            final(self).wf(),
            final(self)@ =~= old(self)@.insert(name@, volume@),
            final(self).len() == if old(self)@.contains_key(name@) {
                old(self).len()
            } else {
                old(self).len() + 1
            },
    {
        let ghost s0 = self.entries@;
        match self.position_of(&name) {
            Some(i) => {
                proof {
                    lemma_map_of_contains(s0, name@);
                    lemma_map_of_remove(s0, i as int);
                }
                self.entries.remove(i);
                self.entries.push(Entry { name, volume });
                proof {
                    let s1 = s0.remove(i as int);
                    assert(self.entries@.drop_last() =~= s1);
                    assert(final(self)@ =~= old(self)@.insert(name@, volume@)) by {
                        assert(map_of(self.entries@) == map_of(s1).insert(name@, volume@));
                    }
                    assert forall|p: int, q: int|
                        0 <= p < q < self.entries@.len() implies self.entries@[p].name@
                        != self.entries@[q].name@ by {
                        if q < self.entries@.len() - 1 {
                            assert(s1[p] == if p < i { s0[p] } else { s0[p + 1] });
                            assert(s1[q] == if q < i { s0[q] } else { s0[q + 1] });
                        } else {
                            assert(self.entries@[q].name@ == name@);
                            assert(s1[p] == if p < i { s0[p] } else { s0[p + 1] });
                        }
                    }
                }
            },
            None => {
                self.entries.push(Entry { name, volume });
                proof {
                    assert(self.entries@.drop_last() =~= s0);
                    lemma_map_of_contains(s0, name@);
                    assert forall|p: int, q: int|
                        0 <= p < q < self.entries@.len() implies self.entries@[p].name@
                        != self.entries@[q].name@ by {
                        if q == self.entries@.len() - 1 {
                            assert(s0[p].name@ != name@) by {
                                lemma_map_of_contains(s0, s0[p].name@);
                            }
                        }
                    }
                }
            },
        }
    }

    /// Delete the entry under `name`. Fails with "not found", and leaves the
    /// store unchanged, exactly when no entry exists. Reached only through
    /// the lifecycle handler.
    pub(crate) fn remove(&mut self, name: &String) -> (r: Result<(), VolumeError>)
        requires
            old(self).wf(),
        ensures
            final(self).wf(),
            old(self)@.contains_key(name@) ==> r is Ok && final(self)@ =~= old(self)@.remove(name@)
                && final(self).len() == old(self).len() - 1,
            !old(self)@.contains_key(name@) ==> (r matches Err(e) && e@ == ErrModel::NotFound)
                && *final(self) == *old(self),
    {
        let ghost s0 = self.entries@;
        match self.position_of(name) {
            Some(i) => {
                proof {
                    lemma_map_of_contains(s0, name@);
                    lemma_map_of_remove(s0, i as int);
                }
                self.entries.remove(i);
                proof {
                    let s1 = s0.remove(i as int);
                    assert forall|p: int, q: int|
                        0 <= p < q < s1.len() implies s1[p].name@ != s1[q].name@ by {
                        assert(s1[p] == if p < i { s0[p] } else { s0[p + 1] });
                        assert(s1[q] == if q < i { s0[q] } else { s0[q + 1] });
                    }
                }
                Ok(())
            },
            None => Err(VolumeError::NotFound),
        }
    }

    /// A snapshot of all (name, record) pairs; order carries no meaning.
    /// The snapshot lists each registered name exactly once, with its
    /// record.
    pub fn list(&self) -> (r: Vec<(String, XetVolume)>)
        requires
            self.wf(),
        ensures
            r@.len() == self.len(),
            forall|i: int|
                0 <= i < r@.len() ==> self@.contains_key(#[trigger] r@[i].0@) && r@[i].1@
                    == self@[r@[i].0@],
            forall|i: int, j: int| 0 <= i < j < r@.len() ==> r@[i].0@ != r@[j].0@,
            forall|k: Seq<char>|
                self@.contains_key(k) ==> exists|i: int| 0 <= i < r@.len() && r@[i].0@ == k,
    {
        let mut out: Vec<(String, XetVolume)> = Vec::new();
        let n = self.entries.len();
        for i in 0..n
            invariant
                n == self.entries@.len(),
                out@.len() == i,
                forall|j: int|
                    0 <= j < i ==> (#[trigger] out@[j]).0@ == self.entries@[j].name@ && out@[j].1@
                        == self.entries@[j].volume@,
        {
            let entry = &self.entries[i];
            out.push((entry.name.clone(), entry.volume.duplicate()));
        }
        proof {
            assert forall|i: int|
                0 <= i < out@.len() implies self@.contains_key(#[trigger] out@[i].0@) && out@[i].1@
                == self@[out@[i].0@] by {
                lemma_map_of_index(self.entries@, i);
            }
            assert forall|k: Seq<char>| self@.contains_key(k) implies exists|i: int|
                0 <= i < out@.len() && out@[i].0@ == k by {
                lemma_map_of_contains(self.entries@, k);
                let i = choose|i: int| 0 <= i < self.entries@.len() && self.entries@[i].name@ == k;
                assert(out@[i].0@ == k);
            }
        }
        out
    }
}

} // verus!
