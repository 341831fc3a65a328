use vstd::prelude::*;

verus! {

/// A table from string keys to values in which each key occurs at most once,
/// kept as a list of entries in insertion order.
pub struct KeyedTable<V> {
    entries: Vec<(String, V)>,
}

impl<V> KeyedTable<V> {
    #[verifier::type_invariant]
    closed spec fn keys_distinct(self) -> bool {
        forall|i: int, j: int|
            0 <= i < j < self.entries@.len() ==> #[trigger] self.entries@[i].0@
                != #[trigger] self.entries@[j].0@
    }

    /// `key` has an entry at position `i`.
    closed spec fn has_key_at(self, key: Seq<char>, i: int) -> bool {
        0 <= i < self.entries@.len() && self.entries@[i].0@ == key
    }

    /// The table as a map from key text to value.
    pub closed spec fn view(self) -> Map<Seq<char>, V> {
        Map::new(
            |k: Seq<char>| exists|i: int| self.has_key_at(k, i),
            |k: Seq<char>| self.entries@[choose|i: int| self.has_key_at(k, i)].1,
        )
    }

    proof fn lemma_entry_in_view(self, i: int)
        requires
            self.keys_distinct(),
            0 <= i < self.entries@.len(),
        ensures
            self.view().contains_key(self.entries@[i].0@),
            self.view()[self.entries@[i].0@] == self.entries@[i].1,
    {
        let k = self.entries@[i].0@;
        assert(self.has_key_at(k, i));
        let j = choose|j: int| self.has_key_at(k, j);
        if j != i {
            if j < i {
                assert(self.entries@[j].0@ != self.entries@[i].0@);
            } else {
                assert(self.entries@[i].0@ != self.entries@[j].0@);
            }
        }
    }

    /// An empty table.
    pub fn new() -> (t: Self)
        ensures
            t.view() == Map::<Seq<char>, V>::empty(),
    {
        let t = KeyedTable { entries: Vec::new() };
        assert(t.view() =~= Map::<Seq<char>, V>::empty());
        t
    }

    /// The position of `key`, if it has an entry.
    fn position_of(&self, key: &String) -> (r: Option<usize>)
        ensures
            match r {
                Some(i) => self.has_key_at(key@, i as int),
                None => forall|i: int| !self.has_key_at(key@, i),
            },
    {
        let mut i: usize = 0;
        while i < self.entries.len()
            invariant
                i <= self.entries@.len(),
                forall|j: int| 0 <= j < i ==> !self.has_key_at(key@, j),
            decreases self.entries@.len() - i,
        {
            if self.entries[i].0 == *key {
                return Some(i);
            }
            i = i + 1;
        }
        None
    }

    /// Whether `key` has an entry.
    pub fn contains_key(&self, key: &str) -> (b: bool)
        ensures
            b == self.view().contains_key(key@),
    {
        let k = key.to_owned();
        match self.position_of(&k) {
            Some(i) => {
                assert(self.has_key_at(key@, i as int));
                true
            },
            None => false,
        }
    }

    /// The value stored under `key`, if any.
    pub fn get(&self, key: &str) -> (r: Option<&V>)
        ensures
            match r {
                Some(v) => self.view().contains_key(key@) && *v == self.view()[key@],
                None => !self.view().contains_key(key@),
            },
    {
        proof {
            use_type_invariant(self);
        }
        let k = key.to_owned();
        match self.position_of(&k) {
            Some(i) => {
                proof {
                    self.lemma_entry_in_view(i as int);
                }
                Some(&self.entries[i].1)
            },
            None => None,
        }
    }

    /// The entries of the table, in the order they were first inserted: each
    /// key once, with the value stored under it.
    pub fn into_entries(self) -> (r: Vec<(String, V)>)
        ensures
            forall|i: int, j: int|
                0 <= i < j < r@.len() ==> #[trigger] r@[i].0@ != #[trigger] r@[j].0@,
            forall|i: int|
                0 <= i < r@.len() ==> self.view().contains_key(#[trigger] r@[i].0@)
                    && self.view()[r@[i].0@] == r@[i].1,
            forall|k: Seq<char>|
                #[trigger] self.view().contains_key(k) ==> exists|i: int|
                    0 <= i < r@.len() && r@[i].0@ == k,
    {
        proof {
            use_type_invariant(&self);
            assert forall|i: int| 0 <= i < self.entries@.len() implies self.view().contains_key(
                #[trigger] self.entries@[i].0@,
            ) && self.view()[self.entries@[i].0@] == self.entries@[i].1 by {
                self.lemma_entry_in_view(i);
            }
            assert forall|k: Seq<char>| #[trigger] self.view().contains_key(k) implies exists|i: int|
                0 <= i < self.entries@.len() && self.entries@[i].0@ == k by {
                let i = choose|i: int| self.has_key_at(k, i);
            }
        }
        self.entries
    }

    /// Stores `value` under `key`, replacing what was stored there.
    pub fn insert(&mut self, key: String, value: V)
        ensures
            final(self).view() == old(self).view().insert(key@, value),
    {
        proof {
            use_type_invariant(&*self);
        }
        let ghost before = *self;
        let ghost key_text = key@;
        let ghost stored = value;
        let ghost mut pos: int = 0;
        match self.position_of(&key) {
            Some(i) => {
                let mut entries: Vec<(String, V)> = Vec::new();
                std::mem::swap(&mut entries, &mut self.entries);
                entries.set(i, (key, value));
                let ghost e = entries@;
                assert forall|a: int, b: int| 0 <= a < b < e.len() implies #[trigger] e[a].0@
                    != #[trigger] e[b].0@ by {
                    assert(before.entries@[a].0@ != before.entries@[b].0@);
                }
                self.entries = entries;
                proof {
                    pos = i as int;
                }
            },
            None => {
                let mut entries: Vec<(String, V)> = Vec::new();
                std::mem::swap(&mut entries, &mut self.entries);
                entries.push((key, value));
                let ghost e = entries@;
                assert forall|a: int, b: int| 0 <= a < b < e.len() implies #[trigger] e[a].0@
                    != #[trigger] e[b].0@ by {
                    if b == e.len() - 1 {
                        assert(!before.has_key_at(key_text, a));
                    } else {
                        assert(before.entries@[a].0@ != before.entries@[b].0@);
                    }
                }
                self.entries = entries;
                proof {
                    pos = before.entries@.len() as int;
                }
            },
        }
        proof {
            let after = *self;
            use_type_invariant(&*self);
            assert(after.has_key_at(key_text, pos));
            assert(after.entries@[pos].1 == stored);
            assert(pos < before.entries@.len() ==> before.has_key_at(key_text, pos));
            assert forall|j: int| 0 <= j < after.entries@.len() && j != pos implies j
                < before.entries@.len() && #[trigger] after.entries@[j] == before.entries@[j] by {}
            let m = before.view().insert(key_text, stored);
            assert forall|kk: Seq<char>| #[trigger]
                after.view().contains_key(kk) <==> m.contains_key(kk) by {
                if kk == key_text {
                    assert(after.has_key_at(kk, pos));
                } else {
                    if after.view().contains_key(kk) {
                        let j = choose|j: int| after.has_key_at(kk, j);
                        assert(before.has_key_at(kk, j));
                    }
                    if m.contains_key(kk) {
                        let j = choose|j: int| before.has_key_at(kk, j);
                        assert(after.has_key_at(kk, j));
                    }
                }
            }
            assert forall|kk: Seq<char>| #[trigger]
                after.view().contains_key(kk) implies after.view()[kk] == m[kk] by {
                if kk == key_text {
                    after.lemma_entry_in_view(pos);
                } else {
                    let j = choose|j: int| after.has_key_at(kk, j);
                    after.lemma_entry_in_view(j);
                    assert(before.has_key_at(kk, j));
                    before.lemma_entry_in_view(j);
                }
            }
            assert(after.view() =~= m);
        }
    }
}

/// A read gives back what the last write under that key stored; a write
/// leaves every other key, and whether it has an entry, as it was. `after` is
/// `before` after `insert(key, value)`.
pub proof fn law_read_after_write<V>(
    before: KeyedTable<V>,
    after: KeyedTable<V>,
    key: Seq<char>,
    value: V,
    other: Seq<char>,
)
    requires
        after.view() == before.view().insert(key, value),
    ensures
        after.view().contains_key(key),
        after.view()[key] == value,
        other != key ==> (after.view().contains_key(other) <==> before.view().contains_key(other)),
        other != key && before.view().contains_key(other) ==> after.view()[other]
            == before.view()[other],
{
}

} // verus!
