//! A table keyed by text, held as a list of distinct keys with their values.
use vstd::prelude::*;

use crate::text::{str_eq, to_owned_string};

verus! {

/// Values kept under distinct text keys.
#[derive(Debug)]
pub struct KeyedTable<V> {
    entries: Vec<(String, V)>,
}

/// The keys of a list of entries are distinct.
pub open spec fn spec_keys_distinct<V>(entries: Seq<(String, V)>) -> bool {
    forall|i: int, j: int|
        0 <= i < entries.len() && 0 <= j < entries.len() && i != j ==> #[trigger] entries[i].0@
            != #[trigger] entries[j].0@
}

/// The map a list of entries with distinct keys stands for.
pub open spec fn spec_entries_map<V>(entries: Seq<(String, V)>) -> Map<Seq<char>, V>
    decreases entries.len(),
{
    if entries.len() == 0 {
        Map::empty()
    } else {
        let last = entries.last();
        spec_entries_map(entries.drop_last()).insert(last.0@, last.1)
    }
}

proof fn lemma_entries_map_lookup<V>(entries: Seq<(String, V)>, key: Seq<char>)
    requires
        spec_keys_distinct(entries),
    ensures
        spec_entries_map(entries).contains_key(key) <==> exists|i: int|
            0 <= i < entries.len() && #[trigger] entries[i].0@ == key,
        forall|i: int|
            0 <= i < entries.len() && #[trigger] entries[i].0@ == key ==> spec_entries_map(
                entries,
            )[key] == entries[i].1,
    decreases entries.len(),
{
    if entries.len() > 0 {
        let init = entries.drop_last();
        let n = entries.len() - 1;
        let last = entries[n];
        assert(spec_keys_distinct(init)) by {
            assert forall|i: int, j: int|
                0 <= i < init.len() && 0 <= j < init.len() && i != j implies #[trigger] init[i].0@
                != #[trigger] init[j].0@ by {
                assert(init[i] == entries[i]);
                assert(init[j] == entries[j]);
            }
        }
        lemma_entries_map_lookup(init, key);
        let m = spec_entries_map(entries);
        assert(m == spec_entries_map(init).insert(last.0@, last.1));
        if key == last.0@ {
            assert(entries[n].0@ == key);
            assert(m.contains_key(key));
            assert forall|i: int| 0 <= i < entries.len() && #[trigger] entries[i].0@ == key implies m[key]
                == entries[i].1 by {
                if i != n {
                    assert(entries[i].0@ != entries[n].0@);
                }
            }
        } else {
            assert(m.contains_key(key) == spec_entries_map(init).contains_key(key));
            if m.contains_key(key) {
                let k = choose|k: int| 0 <= k < init.len() && #[trigger] init[k].0@ == key;
                assert(entries[k] == init[k]);
                assert(entries[k].0@ == key);
            }
            if exists|i: int| 0 <= i < entries.len() && #[trigger] entries[i].0@ == key {
                let i = choose|i: int| 0 <= i < entries.len() && #[trigger] entries[i].0@ == key;
                assert(i != n);
                assert(init[i] == entries[i]);
                assert(init[i].0@ == key);
            }
            assert forall|i: int| 0 <= i < entries.len() && #[trigger] entries[i].0@ == key implies m[key]
                == entries[i].1 by {
                assert(i != n);
                assert(init[i] == entries[i]);
                assert(init[i].0@ == key);
            }
        }
    }
}

proof fn lemma_entries_remove<V>(before: Seq<(String, V)>, i: int)
    requires
        spec_keys_distinct(before),
        0 <= i < before.len(),
    ensures
        spec_keys_distinct(before.remove(i)),
        spec_entries_map(before.remove(i)) == spec_entries_map(before).remove(before[i].0@),
{
    let after = before.remove(i);
    let key = before[i].0@;
    assert forall|a: int, b: int|
        0 <= a < after.len() && 0 <= b < after.len() && a != b implies #[trigger] after[a].0@
        != #[trigger] after[b].0@ by {
        let a0 = if a < i { a } else { a + 1 };
        let b0 = if b < i { b } else { b + 1 };
        assert(after[a] == before[a0]);
        assert(after[b] == before[b0]);
    }
    let m0 = spec_entries_map(before);
    let m1 = spec_entries_map(after);
    assert forall|k: Seq<char>| #[trigger] m1.contains_key(k) == m0.remove(key).contains_key(k) && (
    m1.contains_key(k) ==> m1[k] == m0.remove(key)[k]) by {
        lemma_entries_map_lookup(before, k);
        lemma_entries_map_lookup(after, k);
        if m0.contains_key(k) && k != key {
            let j = choose|j: int| 0 <= j < before.len() && #[trigger] before[j].0@ == k;
            assert(j != i);
            let j1 = if j < i { j } else { j - 1 };
            assert(after[j1] == before[j]);
            assert(after[j1].0@ == k);
        }
        if m1.contains_key(k) {
            let j = choose|j: int| 0 <= j < after.len() && #[trigger] after[j].0@ == k;
            let j0 = if j < i { j } else { j + 1 };
            assert(after[j] == before[j0]);
            assert(before[j0].0@ == k);
            assert(j0 != i);
            assert(k != key);
        }
    }
    assert(m1 =~= m0.remove(key));
}


/// A list of entries with distinct keys stands for a map with that many keys.
proof fn lemma_entries_len<V>(entries: Seq<(String, V)>)
    requires
        spec_keys_distinct(entries),
    ensures
        spec_entries_map(entries).dom().finite(),
        spec_entries_map(entries).dom().len() == entries.len(),
    decreases entries.len(),
{
    if entries.len() > 0 {
        let init = entries.drop_last();
        assert(spec_keys_distinct(init)) by {
            assert forall|i: int, j: int|
                0 <= i < init.len() && 0 <= j < init.len() && i != j implies #[trigger] init[i].0@
                != #[trigger] init[j].0@ by {
                assert(init[i] == entries[i]);
                assert(init[j] == entries[j]);
            }
        }
        lemma_entries_len(init);
        lemma_entries_map_lookup(init, entries.last().0@);
        assert forall|i: int| 0 <= i < init.len() implies #[trigger] init[i].0@ != entries.last().0@ by {
            assert(init[i] == entries[i]);
        }
    }
}

impl<V> View for KeyedTable<V> {
    type V = Map<Seq<char>, V>;

    closed spec fn view(&self) -> Map<Seq<char>, V> {
        spec_entries_map(self.entries@)
    }
}

impl<V> KeyedTable<V> {
    #[verifier::type_invariant]
    spec fn keys_distinct(self) -> bool {
        spec_keys_distinct(self.entries@)
    }

    /// An empty table.
    pub fn new() -> (res: Self)
        ensures
            res@ == Map::<Seq<char>, V>::empty(),
    {
        KeyedTable { entries: Vec::new() }
    }

    /// Where `key` is kept, if it is.
    fn position(&self, key: &str) -> (res: Option<usize>)
        ensures
            match res {
                Some(i) => i < self.entries@.len() && self.entries@[i as int].0@ == key@,
                None => forall|i: int| 0 <= i < self.entries@.len() ==> #[trigger] self.entries@[i].0@ != key@,
            },
    {
        let mut i: usize = 0;
        while i < self.entries.len()
            invariant
                i <= self.entries@.len(),
                forall|k: int| 0 <= k < i ==> #[trigger] self.entries@[k].0@ != key@,
            decreases self.entries@.len() - i,
        {
            if str_eq(self.entries[i].0.as_str(), key) {
                return Some(i);
            }
            i = i + 1;
        }
        None
    }

    /// The value kept under `key`, if any.
    pub fn get(&self, key: &str) -> (res: Option<&V>)
        ensures
            match res {
                Some(v) => self@.contains_key(key@) && self@[key@] == *v,
                None => !self@.contains_key(key@),
            },
    {
        proof {
            use_type_invariant(self);
            lemma_entries_map_lookup(self.entries@, key@);
        }
        match self.position(key) {
            Some(i) => Some(&self.entries[i].1),
            None => None,
        }
    }

    /// Holds `value` under `key`, replacing what was there.
    pub fn insert(&mut self, key: &str, value: V)
        ensures
            final(self)@ == old(self)@.insert(key@, value),
    {
        proof {
            use_type_invariant(&*self);
        }
        let pos = self.position(key);
        let mut entries = Vec::new();
        std::mem::swap(&mut entries, &mut self.entries);
        let ghost before = entries@;
        match pos {
            Some(i) => {
                proof {
                    lemma_entries_remove(before, i as int);
                }
                entries.remove(i);
            },
            None => {
                proof {
                    lemma_entries_map_lookup(before, key@);
                    assert(spec_entries_map(before) =~= spec_entries_map(before).remove(key@));
                }
            },
        }
        let ghost mid = entries@;
        assert(spec_keys_distinct(mid));
        assert(spec_entries_map(mid) == spec_entries_map(before).remove(key@));
        entries.push((to_owned_string(key), value));
        proof {
            assert(entries@.drop_last() =~= mid);
            lemma_entries_map_lookup(mid, key@);
            assert forall|a: int, b: int|
                0 <= a < entries@.len() && 0 <= b < entries@.len() && a != b implies #[trigger] entries@[a].0@
                != #[trigger] entries@[b].0@ by {
                if a < mid.len() {
                    assert(entries@[a] == mid[a]);
                }
                if b < mid.len() {
                    assert(entries@[b] == mid[b]);
                }
                if a < mid.len() && b == mid.len() {
                    assert(mid[a].0@ != key@);
                }
                if b < mid.len() && a == mid.len() {
                    assert(mid[b].0@ != key@);
                }
            }
            assert(spec_entries_map(entries@) =~= spec_entries_map(before).insert(key@, value));
        }
        self.entries = entries;
    }

    /// Forgets `key`, giving back what it held.
    pub fn remove(&mut self, key: &str) -> (res: Option<V>)
        ensures
            final(self)@ == old(self)@.remove(key@),
            match res {
                Some(v) => old(self)@.contains_key(key@) && old(self)@[key@] == v,
                None => !old(self)@.contains_key(key@),
            },
    {
        proof {
            use_type_invariant(&*self);
            lemma_entries_map_lookup(self.entries@, key@);
        }
        let pos = self.position(key);
        match pos {
            Some(i) => {
                let mut entries = Vec::new();
                std::mem::swap(&mut entries, &mut self.entries);
                proof {
                    lemma_entries_remove(entries@, i as int);
                }
                let (_, value) = entries.remove(i);
                self.entries = entries;
                Some(value)
            },
            None => {
                proof {
                    assert(self@ =~= self@.remove(key@));
                }
                None
            },
        }
    }

    /// The keys held, in no particular order, each once.
    pub fn keys(&self) -> (res: Vec<String>)
        ensures
            forall|i: int, j: int| 0 <= i < j < res@.len() ==> res@[i]@ != res@[j]@,
            forall|k: Seq<char>| self@.contains_key(k) <==> exists|i: int| 0 <= i < res@.len() && #[trigger] res@[i]@ == k,
    {
        proof {
            use_type_invariant(self);
        }
        let mut out: Vec<String> = Vec::new();
        let mut i: usize = 0;
        while i < self.entries.len()
            invariant
                i <= self.entries@.len(),
                out@.len() == i,
                spec_keys_distinct(self.entries@),
                forall|k: int| 0 <= k < i ==> #[trigger] out@[k]@ == self.entries@[k].0@,
            decreases self.entries@.len() - i,
        {
            out.push(self.entries[i].0.clone());
            i = i + 1;
        }
        proof {
            assert forall|a: int, b: int| 0 <= a < b < out@.len() implies out@[a]@ != out@[b]@ by {
                assert(out@[a]@ == self.entries@[a].0@);
                assert(out@[b]@ == self.entries@[b].0@);
            }
            assert forall|k: Seq<char>| self@.contains_key(k) <==> exists|i: int| 0 <= i < out@.len() && #[trigger] out@[i]@ == k by {
                lemma_entries_map_lookup(self.entries@, k);
                if self@.contains_key(k) {
                    let j = choose|j: int| 0 <= j < self.entries@.len() && #[trigger] self.entries@[j].0@ == k;
                    assert(out@[j]@ == k);
                }
                if exists|i: int| 0 <= i < out@.len() && #[trigger] out@[i]@ == k {
                    let j = choose|j: int| 0 <= j < out@.len() && #[trigger] out@[j]@ == k;
                    assert(self.entries@[j].0@ == k);
                }
            }
        }
        out
    }

    /// How many keys are held.
    pub fn len(&self) -> (res: usize)
        ensures
            res as nat == self@.dom().len(),
    {
        proof {
            use_type_invariant(self);
            lemma_entries_len(self.entries@);
        }
        self.entries.len()
    }
}

} // verus!
