//! A small map from names to values that keeps the order of first insertion.

use vstd::prelude::*;

verus! {

/// A map keyed by name. Each name occurs once; inserting under a name that
/// is present replaces its value and keeps its place.
pub struct NameTable<V> {
    entries: Vec<(String, V)>,
}

impl<V> View for NameTable<V> {
    type V = Map<Seq<char>, V>;

    closed spec fn view(&self) -> Map<Seq<char>, V> {
        Map::new(
            |k: Seq<char>| exists|i: int| self.holds_at(i, k),
            |k: Seq<char>| self.entries@[choose|i: int| self.holds_at(i, k)].1,
        )
    }
}

impl<V> NameTable<V> {
    #[verifier::type_invariant]
    closed spec fn distinct(self) -> bool {
        forall|i: int, j: int|
            0 <= i < j < self.entries@.len() ==> self.entries@[i].0@ != self.entries@[j].0@
    }

    closed spec fn holds_at(self, i: int, k: Seq<char>) -> bool {
        0 <= i < self.entries@.len() && self.entries@[i].0@ == k
    }

    /// The names in the order in which they were first inserted.
    pub closed spec fn names(self) -> Seq<Seq<char>> {
        Seq::new(self.entries@.len(), |i: int| self.entries@[i].0@)
    }

    /// The names are the keys of the map.
    pub proof fn lemma_names(self)
        ensures
            forall|i: int|
                0 <= i < self.names().len() ==> self@.contains_key(#[trigger] self.names()[i]),
            forall|k: Seq<char>| #[trigger] self@.contains_key(k) ==> self.names().contains(k),
    {
        assert forall|i: int| 0 <= i < self.names().len() implies self@.contains_key(
            #[trigger] self.names()[i],
        ) by {
            assert(self.holds_at(i, self.names()[i]));
        }
        assert forall|k: Seq<char>| #[trigger] self@.contains_key(k) implies self.names().contains(
            k,
        ) by {
            let i = choose|i: int| self.holds_at(i, k);
            assert(self.names()[i] == k);
        }
    }

    pub fn new() -> (t: NameTable<V>)
        ensures
            t@ == Map::<Seq<char>, V>::empty(),
            t.names() == Seq::<Seq<char>>::empty(),
    {
        let t = NameTable { entries: Vec::new() };
        assert(t@ =~= Map::<Seq<char>, V>::empty());
        assert(t.names() =~= Seq::<Seq<char>>::empty());
        t
    }

    /// The number of names.
    pub fn len(&self) -> (n: usize)
        ensures
            n == self.names().len(),
    {
        self.entries.len()
    }

    /// The name at position `i`, with its value.
    pub fn entry(&self, i: usize) -> (e: (&String, &V))
        requires
            i < self.names().len(),
        ensures
            e.0@ == self.names()[i as int],
            self@.contains_key(e.0@),
            *e.1 == self@[e.0@],
    {
        proof {
            use_type_invariant(self);
            assert(self.holds_at(i as int, self.entries@[i as int].0@));
        }
        (&self.entries[i].0, &self.entries[i].1)
    }

    fn position(&self, key: &String) -> (r: Option<usize>)
        ensures
            match r {
                Some(i) => self.holds_at(i as int, key@),
                None => forall|j: int| !self.holds_at(j, key@),
            },
    {
        let mut i: usize = 0;
        while i < self.entries.len()
            invariant
                i <= self.entries@.len(),
                forall|j: int| 0 <= j < i ==> !self.holds_at(j, key@),
            decreases self.entries@.len() - i,
        {
            if self.entries[i].0 == *key {
                return Some(i);
            }
            i += 1;
        }
        None
    }

    /// The value filed under `key`, if there is one.
    pub fn get(&self, key: &String) -> (r: Option<&V>)
        ensures
            match r {
                Some(v) => self@.contains_key(key@) && *v == self@[key@],
                None => !self@.contains_key(key@),
            },
    {
        proof {
            use_type_invariant(self);
        }
        match self.position(key) {
            Some(i) => Some(&self.entries[i].1),
            None => None,
        }
    }

    /// Files `value` under `key`, in place of what was there.
    pub fn insert(&mut self, key: String, value: V)
        ensures
            final(self)@ == old(self)@.insert(key@, value),
            old(self)@.contains_key(key@) ==> final(self).names() == old(self).names(),
            !old(self)@.contains_key(key@) ==> final(self).names() == old(self).names().push(key@),
    {
        proof {
            use_type_invariant(&*self);
        }
        let ghost before = *self;
        let found = self.position(&key);
        let mut entries: Vec<(String, V)> = Vec::new();
        core::mem::swap(&mut self.entries, &mut entries);
        match found {
            Some(i) => {
                entries[i] = (key, value);
            },
            None => {
                entries.push((key, value));
            },
        }
        proof {
            assert forall|a: int, b: int| 0 <= a < b < entries@.len() implies entries@[a].0@
                != entries@[b].0@ by {
                match found {
                    Some(i) => {
                        assert(before.holds_at(i as int, key@));
                    },
                    None => {
                        assert(!before.holds_at(a, key@));
                    },
                }
            }
        }
        core::mem::swap(&mut self.entries, &mut entries);
        proof {
            let after = *self;
            match found {
                Some(i) => {
                    assert(after.names() =~= before.names());
                    before.lemma_filed(i as int, key@);
                },
                None => {
                    assert(after.names() =~= before.names().push(key@));
                    assert(!before@.contains_key(key@));
                },
            }
            assert forall|k: Seq<char>| #[trigger]
                after@.contains_key(k) == before@.insert(key@, value).contains_key(k) && (
                after@.contains_key(k) ==> after@[k] == before@.insert(key@, value)[k]) by {
                if after@.contains_key(k) {
                    let j = choose|j: int| after.holds_at(j, k);
                    after.lemma_filed(j, k);
                    if k != key@ {
                        before.lemma_filed(j, k);
                    }
                }
                if before@.insert(key@, value).contains_key(k) {
                    if k == key@ {
                        let n = match found {
                            Some(i) => i as int,
                            None => before.entries@.len() as int,
                        };
                        after.lemma_filed(n, k);
                    } else {
                        let j = choose|j: int| before.holds_at(j, k);
                        before.lemma_filed(j, k);
                        after.lemma_filed(j, k);
                    }
                }
            }
            assert(after@ =~= before@.insert(key@, value));
        }
    }

    /// With distinct names, the entry at a position is what the map holds
    /// under its name.
    proof fn lemma_filed(self, i: int, k: Seq<char>)
        requires
            self.distinct(),
            self.holds_at(i, k),
        ensures
            self@.contains_key(k),
            self@[k] == self.entries@[i].1,
    {
        let c = choose|j: int| self.holds_at(j, k);
        assert(self.holds_at(c, k));
        if c < i {
            assert(self.entries@[c].0@ != self.entries@[i].0@);
        } else if i < c {
            assert(self.entries@[i].0@ != self.entries@[c].0@);
        }
    }
}

} // verus!
