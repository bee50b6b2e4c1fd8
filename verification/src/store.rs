//! A store that keeps its records in memory.

use vstd::prelude::*;
use crate::model::Data;
use crate::model::DataView;
use crate::model::ModelError;
use crate::model::ModelList;
use crate::model::after_add;
use crate::model::after_rm;
use crate::model::after_update;
use crate::model::key_views;
use crate::text::same_text;

verus! {

/// One record with the key it is stored under.
struct Entry {
    key: String,
    data: Data,
}

/// Some entry is stored under the key.
spec fn holds(entries: Seq<Entry>, key: Seq<char>) -> bool {
    exists|i: int| 0 <= i < entries.len() && (#[trigger] entries[i]).key@ == key
}

/// The place of an entry that is stored under the key.
spec fn position(entries: Seq<Entry>, key: Seq<char>) -> int {
    choose|i: int| 0 <= i < entries.len() && (#[trigger] entries[i]).key@ == key
}

/// No two entries share a key.
spec fn distinct(entries: Seq<Entry>) -> bool {
    forall|i: int, j: int|
        #![trigger entries[i], entries[j]]
        0 <= i < entries.len() && 0 <= j < entries.len() && i != j ==> entries[i].key@
            != entries[j].key@
}

/// The entries as a map from key to record.
spec fn as_map(entries: Seq<Entry>) -> Map<Seq<char>, DataView> {
    Map::new(|k: Seq<char>| holds(entries, k), |k: Seq<char>| entries[position(entries, k)].data@)
}

/// With distinct keys, the map holds each entry's record under its key.
proof fn lemma_entry_in_map(entries: Seq<Entry>, i: int)
    requires
        distinct(entries),
        0 <= i < entries.len(),
    ensures
        as_map(entries).contains_key(entries[i].key@),
        as_map(entries)[entries[i].key@] == entries[i].data@,
{
    let k = entries[i].key@;
    assert(holds(entries, k));
    let p = position(entries, k);
    assert(entries[p].key@ == k);
    assert(p == i);
}

/// An entry under a new key goes into the map under that key.
proof fn lemma_pushed(before: Seq<Entry>, entry: Entry)
    requires
        distinct(before),
        !holds(before, entry.key@),
    ensures
        distinct(before.push(entry)),
        as_map(before.push(entry)) == after_add(as_map(before), entry.key@, entry.data@),
{
    let after = before.push(entry);
    let n = before.len() as int;
    assert(after[n] == entry);
    assert forall|i: int| 0 <= i < n implies (#[trigger] after[i]) == before[i] by {}
    assert(distinct(after));
    assert forall|k: Seq<char>| holds(after, k) <==> (k == entry.key@ || holds(before, k)) by {
        if holds(after, k) {
            let p = position(after, k);
            if p < n {
                assert(before[p].key@ == k);
            }
        }
        if holds(before, k) {
            let p = position(before, k);
            assert(after[p].key@ == k);
        }
    }
    assert forall|k: Seq<char>| holds(after, k) implies as_map(after)[k] == as_map(before).insert(
        entry.key@,
        entry.data@,
    )[k] by {
        let p = position(after, k);
        lemma_entry_in_map(after, p);
        if p < n {
            lemma_entry_in_map(before, p);
        }
    }
    assert(as_map(after) =~= as_map(before).insert(entry.key@, entry.data@));
}

/// Taking an entry out takes its key out of the map and leaves the rest.
proof fn lemma_removed(before: Seq<Entry>, at: int)
    requires
        distinct(before),
        0 <= at < before.len(),
    ensures
        distinct(before.remove(at)),
        as_map(before.remove(at)) == after_rm(as_map(before), before[at].key@),
{
    let after = before.remove(at);
    let key = before[at].key@;
    assert forall|j: int| 0 <= j < after.len() implies (#[trigger] after[j]) == before[if j < at {
        j
    } else {
        j + 1
    }] by {}
    assert forall|a: int, b: int|
        #![trigger after[a], after[b]]
        0 <= a < after.len() && 0 <= b < after.len() && a != b implies after[a].key@
        != after[b].key@ by {
        let x = if a < at { a } else { a + 1 };
        let y = if b < at { b } else { b + 1 };
        assert(after[a] == before[x] && after[b] == before[y]);
    }
    assert forall|k: Seq<char>| holds(after, k) <==> (k != key && holds(before, k)) by {
        if holds(after, k) {
            let p = position(after, k);
            let q = if p < at { p } else { p + 1 };
            assert(before[q].key@ == k);
        }
        if k != key && holds(before, k) {
            let p = position(before, k);
            let q = if p < at { p } else { p - 1 };
            assert(after[q].key@ == k);
        }
    }
    assert forall|k: Seq<char>| holds(after, k) implies as_map(after)[k] == as_map(before)[k] by {
        let p = position(after, k);
        let q = if p < at { p } else { p + 1 };
        lemma_entry_in_map(after, p);
        lemma_entry_in_map(before, q);
    }
    assert(as_map(after) =~= as_map(before).remove(key));
}

/// Replacing an entry by one with the same key replaces its record in the
/// map.
proof fn lemma_replaced(before: Seq<Entry>, at: int, entry: Entry)
    requires
        distinct(before),
        0 <= at < before.len(),
        entry.key@ == before[at].key@,
    ensures
        distinct(before.update(at, entry)),
        as_map(before.update(at, entry)) == after_update(as_map(before), entry.key@, entry.data@),
{
    let after = before.update(at, entry);
    assert forall|j: int| 0 <= j < after.len() implies (#[trigger] after[j]).key@
        == before[j].key@ by {}
    assert(distinct(after));
    assert forall|k: Seq<char>| holds(after, k) <==> holds(before, k) by {
        if holds(after, k) {
            let p = position(after, k);
            assert(before[p].key@ == k);
        }
        if holds(before, k) {
            let p = position(before, k);
            assert(after[p].key@ == k);
        }
    }
    assert(holds(before, entry.key@));
    assert forall|k: Seq<char>| holds(after, k) implies as_map(after)[k] == as_map(before).insert(
        entry.key@,
        entry.data@,
    )[k] by {
        let p = position(after, k);
        lemma_entry_in_map(after, p);
        if p != at {
            assert(after[p] == before[p]);
            lemma_entry_in_map(before, p);
        }
    }
    assert(as_map(after) =~= as_map(before).insert(entry.key@, entry.data@));
}

/// The keys of the entries, in their order, are each key of the map once.
proof fn lemma_listed(entries: Seq<Entry>, keys: Seq<Seq<char>>)
    requires
        distinct(entries),
        keys.len() == entries.len(),
        forall|j: int| 0 <= j < keys.len() ==> #[trigger] keys[j] == entries[j].key@,
    ensures
        keys.no_duplicates(),
        keys.to_set() == as_map(entries).dom(),
{
    assert forall|k: Seq<char>| keys.to_set().contains(k) <==> holds(entries, k) by {
        if keys.contains(k) {
            let j = choose|j: int| 0 <= j < keys.len() && keys[j] == k;
            assert(entries[j].key@ == k);
        }
        if holds(entries, k) {
            let p = position(entries, k);
            assert(keys[p] == k);
        }
    }
    assert(keys.to_set() =~= as_map(entries).dom());
}

/// A store of records in memory. No key occurs twice in it.
pub struct MemoryList {
    entries: Vec<Entry>,
}

impl MemoryList {
    #[verifier::type_invariant]
    spec fn distinct_keys(&self) -> bool {
        distinct(self.entries@)
    }

    /// An empty store.
    pub fn new() -> (r: MemoryList)
        ensures
            r.records() == Map::<Seq<char>, DataView>::empty(),
    {
        let r = MemoryList { entries: Vec::new() };
        assert(as_map(r.entries@) =~= Map::<Seq<char>, DataView>::empty());
        r
    }

    /// The place of the key among the entries, if it is stored.
    fn find(&self, key: &str) -> (r: Option<usize>)
        ensures
            match r {
                Some(i) => i < self.entries@.len() && self.entries@[i as int].key@ == key@,
                None => !holds(self.entries@, key@),
            },
    {
        let mut i: usize = 0;
        while i < self.entries.len()
            invariant
                i <= self.entries@.len(),
                forall|j: int| 0 <= j < i ==> (#[trigger] self.entries@[j]).key@ != key@,
            decreases self.entries@.len() - i,
        {
            if same_text(self.entries[i].key.as_str(), key) {
                return Some(i);
            }
            i += 1;
        }
        None
    }
}

impl ModelList for MemoryList {
    closed spec fn records(&self) -> Map<Seq<char>, DataView> {
        as_map(self.entries@)
    }

    fn add(&mut self, key: &str, data: Data) -> (r: Result<(), ModelError>) {
        proof {
            use_type_invariant(&*self);
        }
        match self.find(key) {
            Some(_) => {
                assert(holds(self.entries@, key@));
                Err(ModelError::DuplicateKey)
            },
            None => {
                let entry = Entry { key: key.to_owned(), data };
                let mut entries: Vec<Entry> = Vec::new();
                core::mem::swap(&mut self.entries, &mut entries);
                proof {
                    lemma_pushed(entries@, entry);
                }
                entries.push(entry);
                self.entries = entries;
                Ok(())
            },
        }
    }

    fn rm(&mut self, key: &str) -> (r: Result<Data, ModelError>) {
        proof {
            use_type_invariant(&*self);
        }
        match self.find(key) {
            None => {
                assert(as_map(self.entries@).remove(key@) =~= as_map(self.entries@));
                Err(ModelError::NotFound)
            },
            Some(i) => {
                let mut entries: Vec<Entry> = Vec::new();
                core::mem::swap(&mut self.entries, &mut entries);
                proof {
                    lemma_entry_in_map(entries@, i as int);
                    lemma_removed(entries@, i as int);
                }
                let entry = entries.remove(i);
                self.entries = entries;
                Ok(entry.data)
            },
        }
    }

    fn update(&mut self, key: &str, data_after: Data) -> (r: Result<(), ModelError>) {
        proof {
            use_type_invariant(&*self);
        }
        match self.find(key) {
            None => Err(ModelError::NotFound),
            Some(i) => {
                let entry = Entry { key: key.to_owned(), data: data_after };
                let mut entries: Vec<Entry> = Vec::new();
                core::mem::swap(&mut self.entries, &mut entries);
                proof {
                    lemma_entry_in_map(entries@, i as int);
                    lemma_replaced(entries@, i as int, entry);
                }
                entries.set(i, entry);
                self.entries = entries;
                Ok(())
            },
        }
    }

    fn get(&self, key: &str) -> (r: Result<Data, ModelError>) {
        proof {
            use_type_invariant(self);
        }
        match self.find(key) {
            None => Err(ModelError::NotFound),
            Some(i) => {
                proof {
                    lemma_entry_in_map(self.entries@, i as int);
                }
                Ok(self.entries[i].data.clone())
            },
        }
    }

    fn keys(&self) -> (r: Vec<String>) {
        proof {
            use_type_invariant(self);
        }
        let mut keys: Vec<String> = Vec::new();
        let mut i: usize = 0;
        while i < self.entries.len()
            invariant
                i <= self.entries@.len(),
                keys@.len() == i,
                forall|j: int| 0 <= j < i ==> (#[trigger] keys@[j])@ == self.entries@[j].key@,
            decreases self.entries@.len() - i,
        {
            keys.push(self.entries[i].key.clone());
            i += 1;
        }
        proof {
            lemma_listed(self.entries@, key_views(keys@));
        }
        keys
    }
}

} // verus!
