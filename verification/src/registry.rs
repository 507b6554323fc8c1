//! Named definitions of a scene description.
//!
//! A scene file defines geometries and materials by name; bodies and lights
//! then refer to them by name or define them inline.
use vstd::prelude::*;

verus! {

/// A value defined under a name, at most one per name.
///
/// The entries are kept as a vector of distinct names rather than a
/// `HashMap<String, V>`: vstd's specification of `HashMap` states what
/// `insert` and `get` do only for keys whose hashing and equality it knows,
/// which `String` is not among, so lookups in such a map could not be
/// proved to find what was inserted.
pub struct Registry<V> {
    entries: Vec<(String, V)>,
}

impl<V> Registry<V> {
    /// The names are pairwise distinct.
    pub open spec fn wf(&self) -> bool {
        forall|i: int, j: int|
            0 <= i < j < self.spec_entries().len() ==> (#[trigger] self.spec_entries()[i]).0@
                != (#[trigger] self.spec_entries()[j]).0@
    }

    /// The registered pairs.
    pub closed spec fn spec_entries(&self) -> Seq<(String, V)> {
        self.entries@
    }

    /// The registry as a map from names to values.
    pub open spec fn view(&self) -> Map<Seq<char>, V> {
        Map::new(
            |k: Seq<char>| exists|i: int| 0 <= i < self.spec_entries().len() && #[trigger] self.spec_entries()[i].0@ == k,
            |k: Seq<char>|
                self.spec_entries()[choose|i: int|
                    0 <= i < self.spec_entries().len() && #[trigger] self.spec_entries()[i].0@ == k].1,
        )
    }

    /// An empty registry.
    pub fn new() -> (r: Self)
        ensures
            r.wf(),
            r.view() == Map::<Seq<char>, V>::empty(),
    {
        let r = Registry { entries: Vec::new() };
        assert(r.view() =~= Map::<Seq<char>, V>::empty());
        r
    }

    /// Position of `name` among the entries.
    fn position(&self, name: &String) -> (r: Option<usize>)
        requires
            self.wf(),
        ensures
            match r {
                Some(i) => i < self.spec_entries().len() && self.spec_entries()[i as int].0@ == name@,
                None => !self.view().contains_key(name@),
            },
    {
        let mut i: usize = 0;
        while i < self.entries.len()
            invariant
                i <= self.entries@.len(),
                self.entries@ == self.spec_entries(),
                forall|j: int| 0 <= j < i ==> (#[trigger] self.spec_entries()[j]).0@ != name@,
            decreases self.entries@.len() - i,
        {
            if self.entries[i].0 == *name {
                return Some(i);
            }
            i = i + 1;
        }
        None
    }

    /// The value registered under `name`.
    pub fn get(&self, name: &String) -> (r: Option<&V>)
        requires
            self.wf(),
        ensures
            match r {
                Some(v) => self.view().contains_key(name@) && *v == self.view()[name@],
                None => !self.view().contains_key(name@),
            },
    {
        match self.position(name) {
            Some(i) => {
                proof {
                    self.lemma_view_at(i as int);
                }
                Some(&self.entries[i].1)
            },
            None => None,
        }
    }

    proof fn lemma_view_at(&self, i: int)
        requires
            self.wf(),
            0 <= i < self.spec_entries().len(),
        ensures
            self.view().contains_key(self.spec_entries()[i].0@),
            self.view()[self.spec_entries()[i].0@] == self.spec_entries()[i].1,
    {
        let k = self.spec_entries()[i].0@;
        assert(self.view().contains_key(k));
        let j = choose|j: int| 0 <= j < self.spec_entries().len() && #[trigger] self.spec_entries()[j].0@ == k;
        if j != i {
            if j < i {
                assert(self.spec_entries()[j].0@ != self.spec_entries()[i].0@);
            } else {
                assert(self.spec_entries()[i].0@ != self.spec_entries()[j].0@);
            }
        }
    }

    /// Registers `value` under `name`, replacing what was registered under it.
    pub fn insert(&mut self, name: String, value: V)
        requires
            old(self).wf(),
        ensures
            final(self).wf(),
            final(self).view() == old(self).view().insert(name@, value),
    {
        let ghost key = name@;
        match self.position(&name) {
            Some(i) => {
                let ghost before = self.entries@;
                let (_, _old) = self.entries.remove(i);
                self.entries.insert(i, (name, value));
                proof {
                    assert(self.spec_entries() =~= before.update(i as int, (self.spec_entries()[i as int].0, value)));
                    assert forall|a: int, b: int|
                        0 <= a < b < self.spec_entries().len() implies (#[trigger] self.spec_entries()[a]).0@
                        != (#[trigger] self.spec_entries()[b]).0@ by {
                        assert(before[a].0@ != before[b].0@);
                    }
                    self.lemma_view_at(i as int);
                    assert forall|k: Seq<char>| #[trigger] self.view().contains_key(k) <==> old(self).view().insert(key, value).contains_key(k) by {
                        if old(self).view().contains_key(k) && k != key {
                            let j = choose|j: int| 0 <= j < before.len() && #[trigger] before[j].0@ == k;
                            assert(self.spec_entries()[j].0@ == k);
                        }
                        if self.view().contains_key(k) && k != key {
                            let j = choose|j: int| 0 <= j < self.spec_entries().len() && #[trigger] self.spec_entries()[j].0@ == k;
                            assert(before[j].0@ == k);
                        }
                    }
                    assert forall|k: Seq<char>| #[trigger] self.view().contains_key(k) implies self.view()[k] == old(self).view().insert(key, value)[k] by {
                        let j = choose|j: int| 0 <= j < self.spec_entries().len() && #[trigger] self.spec_entries()[j].0@ == k;
                        self.lemma_view_at(j);
                        if k != key {
                            assert(j != i);
                            old(self).lemma_view_at(j);
                        }
                    }
                    assert(self.view() =~= old(self).view().insert(key, value));
                }
            },
            None => {
                let ghost before = self.entries@;
                self.entries.push((name, value));
                proof {
                    let n = before.len() as int;
                    assert forall|a: int, b: int|
                        0 <= a < b < self.spec_entries().len() implies (#[trigger] self.spec_entries()[a]).0@
                        != (#[trigger] self.spec_entries()[b]).0@ by {
                        if b == n {
                            assert(!old(self).view().contains_key(key));
                            if before[a].0@ == key {
                                assert(old(self).view().contains_key(key));
                            }
                        } else {
                            assert(before[a].0@ != before[b].0@);
                        }
                    }
                    self.lemma_view_at(n);
                    assert forall|k: Seq<char>| #[trigger] self.view().contains_key(k) <==> old(self).view().insert(key, value).contains_key(k) by {
                        if old(self).view().contains_key(k) && k != key {
                            let j = choose|j: int| 0 <= j < before.len() && #[trigger] before[j].0@ == k;
                            assert(self.spec_entries()[j].0@ == k);
                        }
                        if self.view().contains_key(k) && k != key {
                            let j = choose|j: int| 0 <= j < self.spec_entries().len() && #[trigger] self.spec_entries()[j].0@ == k;
                            assert(j != n);
                            assert(before[j].0@ == k);
                        }
                    }
                    assert forall|k: Seq<char>| #[trigger] self.view().contains_key(k) implies self.view()[k] == old(self).view().insert(key, value)[k] by {
                        let j = choose|j: int| 0 <= j < self.spec_entries().len() && #[trigger] self.spec_entries()[j].0@ == k;
                        self.lemma_view_at(j);
                        if k != key {
                            assert(j != n);
                            old(self).lemma_view_at(j);
                        }
                    }
                    assert(self.view() =~= old(self).view().insert(key, value));
                }
            },
        }
    }
}

/// Law: after registering a value under a name, looking the name up gives
/// that value, and every other name gives what it gave before.
pub proof fn lemma_get_after_insert<V>(before: Registry<V>, after: Registry<V>, name: Seq<char>, value: V, other: Seq<char>)
    requires
        after.view() == before.view().insert(name, value),
    ensures
        after.view().contains_key(name) && after.view()[name] == value,
        other != name ==> (after.view().contains_key(other) == before.view().contains_key(other)
            && (before.view().contains_key(other) ==> after.view()[other] == before.view()[other])),
{
}

} // verus!
