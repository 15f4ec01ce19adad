use vstd::prelude::*;

verus! {

/// The position of the last entry with key `key`, or -1 if there is none.
pub open spec fn index_of<V>(s: Seq<(i64, V)>, key: i64) -> int
    decreases s.len(),
{
    if s.len() == 0 {
        -1
    } else if s.last().0 == key {
        s.len() - 1
    } else {
        index_of(s.drop_last(), key)
    }
}

/// The entries after inserting `key` with `value`: an entry with that key is
/// overwritten in place, otherwise the entry is appended.
pub open spec fn inserted<V>(s: Seq<(i64, V)>, key: i64, value: V) -> Seq<(i64, V)> {
    if index_of(s, key) >= 0 {
        s.update(index_of(s, key), (key, value))
    } else {
        s.push((key, value))
    }
}

/// The entries after inserting each of `s` in turn.
pub open spec fn inserted_all<V>(s: Seq<(i64, V)>) -> Seq<(i64, V)>
    decreases s.len(),
{
    if s.len() == 0 {
        Seq::empty()
    } else {
        inserted(inserted_all(s.drop_last()), s.last().0, s.last().1)
    }
}

/// No two entries share a key.
pub open spec fn keys_unique<V>(s: Seq<(i64, V)>) -> bool {
    forall|i: int, j: int| 0 <= i < j < s.len() ==> s[i].0 != s[j].0
}

/// A table from thresholds to values; a lookup falls back to the greatest
/// key below the one asked for.
#[derive(Debug)]
pub struct LowerBoundMap<V>(Vec<(i64, V)>);

impl<V> LowerBoundMap<V> {
    pub closed spec fn spec_entries(self) -> Seq<(i64, V)> {
        self.0@
    }

    pub fn new() -> (r: LowerBoundMap<V>)
        ensures
            r.spec_entries().len() == 0,
            keys_unique(r.spec_entries()),
    {
        LowerBoundMap(Vec::new())
    }

    /// A table holding the given entries; a later entry overrides an earlier
    /// one with the same key.
    pub fn from_entries(entries: Vec<(i64, V)>) -> (r: LowerBoundMap<V>)
        ensures
            r.spec_entries() == inserted_all(entries@),
            keys_unique(r.spec_entries()),
    {
        let ghost all = entries@;
        let mut m = LowerBoundMap::new();
        let mut rest = entries;
        let mut i: usize = 0;
        let n = rest.len();
        proof {
            assert(rest@ =~= all.subrange(0, all.len() as int));
            assert(all.subrange(0, 0) =~= Seq::<(i64, V)>::empty());
        }
        while rest.len() > 0
            invariant
                i + rest@.len() == all.len(),
                all.len() == n,
                rest@ == all.subrange(i as int, all.len() as int),
                m.spec_entries() == inserted_all(all.subrange(0, i as int)),
                keys_unique(m.spec_entries()),
            decreases rest@.len(),
        {
            let (key, value) = rest.remove(0);
            proof {
                assert((key, value) == all[i as int]);
                assert(all.subrange(0, i as int + 1).drop_last() =~= all.subrange(0, i as int));
                assert(rest@ =~= all.subrange(i as int + 1, all.len() as int));
            }
            m.insert(key, value);
            i = i + 1;
        }
        proof {
            assert(all.subrange(0, i as int) =~= all);
        }
        m
    }

    fn find(&self, key: i64) -> (r: Option<usize>)
        ensures
            r matches Some(i) ==> i == index_of(self.0@, key) && 0 <= i < self.0@.len(),
            r is None ==> index_of(self.0@, key) == -1,
    {
        let mut i: usize = self.0.len();
        proof {
            assert(self.0@.subrange(0, i as int) =~= self.0@);
        }
        while i > 0
            invariant
                0 <= i <= self.0@.len(),
                index_of(self.0@, key) == index_of(self.0@.subrange(0, i as int), key),
            decreases i,
        {
            proof {
                assert(self.0@.subrange(0, i as int).drop_last() =~= self.0@.subrange(
                    0,
                    i as int - 1,
                ));
            }
            if self.0[i - 1].0 == key {
                return Some(i - 1);
            }
            i = i - 1;
        }
        None
    }

    /// Sets the value at `key`, overwriting an entry with that key.
    pub fn insert(&mut self, key: i64, value: V)
        ensures
            final(self).spec_entries() == inserted(old(self).spec_entries(), key, value),
            keys_unique(old(self).spec_entries()) ==> keys_unique(final(self).spec_entries()),
    {
        proof {
            if keys_unique(self.0@) {
                lemma_inserted_unique(self.0@, key, value);
            }
        }
        match self.find(key) {
            Some(i) => {
                self.0.set(i, (key, value));
            },
            None => {
                self.0.push((key, value));
            },
        }
    }

    /// The value at `key`; where there is none, the value at the greatest key
    /// below it; where there is none either, nothing.
    pub fn get(&self, key: &i64) -> (r: Option<&V>)
        ensures
            r matches Some(v) ==> exists|i: int|
                0 <= i < self.spec_entries().len() && self.spec_entries()[i].0 <= *key && *v
                    == self.spec_entries()[i].1 && forall|j: int|
                    0 <= j < self.spec_entries().len() && self.spec_entries()[j].0 <= *key
                        ==> self.spec_entries()[j].0 <= self.spec_entries()[i].0,
            r is None ==> forall|j: int|
                0 <= j < self.spec_entries().len() ==> self.spec_entries()[j].0 > *key,
    {
        let mut best: Option<usize> = None;
        let mut i: usize = 0;
        while i < self.0.len()
            invariant
                0 <= i <= self.0@.len(),
                best matches Some(b) ==> b < i && self.0@[b as int].0 <= *key && forall|j: int|
                    0 <= j < i && self.0@[j].0 <= *key ==> self.0@[j].0 <= self.0@[b as int].0,
                best is None ==> forall|j: int| 0 <= j < i ==> self.0@[j].0 > *key,
            decreases self.0@.len() - i,
        {
            let k = self.0[i].0;
            if k <= *key {
                match best {
                    Some(b) => {
                        if k > self.0[b].0 {
                            best = Some(i);
                        }
                    },
                    None => {
                        best = Some(i);
                    },
                }
            }
            i = i + 1;
        }
        match best {
            Some(b) => {
                let r = &self.0[b].1;
                proof {
                    let w = b as int;
                    assert(0 <= w < self.spec_entries().len() && self.spec_entries()[w].0 <= *key
                        && *r == self.spec_entries()[w].1);
                }
                Some(r)
            },
            None => None,
        }
    }
}

/// Inserting keeps the keys unique.
pub proof fn lemma_inserted_unique<V>(s: Seq<(i64, V)>, key: i64, value: V)
    requires
        keys_unique(s),
    ensures
        keys_unique(inserted(s, key, value)),
{
    lemma_index_of(s, key);
}

/// `index_of` finds an entry with the key, or says that none has it.
pub proof fn lemma_index_of<V>(s: Seq<(i64, V)>, key: i64)
    ensures
        -1 <= index_of(s, key) < s.len(),
        index_of(s, key) >= 0 ==> s[index_of(s, key)].0 == key,
        index_of(s, key) == -1 ==> forall|i: int| 0 <= i < s.len() ==> s[i].0 != key,
    decreases s.len(),
{
    if s.len() > 0 {
        lemma_index_of(s.drop_last(), key);
        if s.last().0 != key && index_of(s, key) == -1 {
            assert forall|i: int| 0 <= i < s.len() implies s[i].0 != key by {
                if i < s.len() - 1 {
                    assert(s[i] == s.drop_last()[i]);
                }
            }
        }
    }
}

} // verus!
