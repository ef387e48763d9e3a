//! Records addressed by a 32-byte key: an identity or a token symbol. At most
//! one record stands under a key.
use vstd::prelude::*;

verus! {

/// Tells whether two 32-byte values hold the same bytes.
pub fn same_bytes(a: &[u8; 32], b: &[u8; 32]) -> (same: bool)
    ensures
        same == (*a == *b),
{
    let mut i: usize = 0;
    while i < 32
        invariant
            i <= 32,
            forall|j: int| 0 <= j < i ==> a[j] == b[j],
        decreases 32 - i,
    {
        if a[i] != b[i] {
            return false;
        }
        i += 1;
    }
    assert(*a =~= *b);
    true
}

struct Entry<R> {
    key: [u8; 32],
    record: R,
}

spec fn stands_at<R>(entries: Seq<Entry<R>>, i: int, key: [u8; 32]) -> bool {
    0 <= i < entries.len() && entries[i].key == key
}

spec fn distinct_keys<R>(entries: Seq<Entry<R>>) -> bool {
    forall|i: int, j: int| 0 <= i < j < entries.len() ==> entries[i].key != entries[j].key
}

spec fn as_map<R>(entries: Seq<Entry<R>>) -> Map<[u8; 32], R> {
    Map::new(
        |k: [u8; 32]| exists|i: int| stands_at(entries, i, k),
        |k: [u8; 32]| entries[choose|i: int| stands_at(entries, i, k)].record,
    )
}

proof fn lemma_lookup<R>(entries: Seq<Entry<R>>, i: int)
    requires
        distinct_keys(entries),
        0 <= i < entries.len(),
    ensures
        as_map(entries).contains_key(entries[i].key),
        as_map(entries)[entries[i].key] == entries[i].record,
{
    let key = entries[i].key;
    assert(stands_at(entries, i, key));
    let j = choose|j: int| stands_at(entries, j, key);
    assert(j == i);
}

proof fn lemma_put<R>(before: Seq<Entry<R>>, after: Seq<Entry<R>>, at: int, key: [u8; 32], record: R)
    requires
        distinct_keys(before),
        after.len() == before.len() || after.len() == before.len() + 1,
        0 <= at < after.len(),
        at == before.len() ==> forall|i: int| 0 <= i < before.len() ==> before[i].key != key,
        at < before.len() ==> before[at].key == key && after.len() == before.len(),
        after[at].key == key,
        after[at].record == record,
        forall|i: int| 0 <= i < before.len() && i != at ==> after[i] == before[i],
    ensures
        distinct_keys(after),
        as_map(after) =~= as_map(before).insert(key, record),
{
    assert(distinct_keys(after));
    let target = as_map(before).insert(key, record);
    assert forall|k: [u8; 32]|
        #![trigger as_map(after).dom().contains(k)]
        #![trigger target.dom().contains(k)]
        as_map(after).dom().contains(k) == target.dom().contains(k) && (as_map(
            after,
        ).dom().contains(k) ==> as_map(after)[k] == target[k]) by {
        if k == key {
            lemma_lookup(after, at);
        } else if as_map(before).contains_key(k) {
            let i = choose|i: int| stands_at(before, i, k);
            lemma_lookup(before, i);
            lemma_lookup(after, i);
        } else if as_map(after).contains_key(k) {
            let i = choose|i: int| stands_at(after, i, k);
            assert(stands_at(before, i, k));
        }
    }
    assert(as_map(after).dom() =~= target.dom());
}

proof fn lemma_take<R>(before: Seq<Entry<R>>, at: int)
    requires
        distinct_keys(before),
        0 <= at < before.len(),
    ensures
        distinct_keys(before.remove(at)),
        as_map(before.remove(at)) =~= as_map(before).remove(before[at].key),
{
    let after = before.remove(at);
    let key = before[at].key;
    assert(distinct_keys(after));
    let target = as_map(before).remove(key);
    assert forall|k: [u8; 32]|
        #![trigger as_map(after).dom().contains(k)]
        #![trigger target.dom().contains(k)]
        as_map(after).dom().contains(k) == target.dom().contains(k) && (as_map(
            after,
        ).dom().contains(k) ==> as_map(after)[k] == target[k]) by {
        if as_map(after).contains_key(k) {
            let i = choose|i: int| stands_at(after, i, k);
            let j = if i < at { i } else { i + 1 };
            assert(stands_at(before, j, k));
            lemma_lookup(after, i);
            lemma_lookup(before, j);
        } else if k != key && as_map(before).contains_key(k) {
            let j = choose|j: int| stands_at(before, j, k);
            let i = if j < at { j } else { j - 1 };
            assert(stands_at(after, i, k));
        }
    }
    assert(as_map(after).dom() =~= target.dom());
}

/// A store of records of one kind, each under its own key.
///
/// Its view is the map from the keys in use to their records.
pub struct Records<R> {
    entries: Vec<Entry<R>>,
}

impl<R> View for Records<R> {
    type V = Map<[u8; 32], R>;

    closed spec fn view(&self) -> Map<[u8; 32], R> {
        as_map(self.entries@)
    }
}

impl<R> Records<R> {
    #[verifier::type_invariant]
    spec fn at_most_one_record_per_key(&self) -> bool {
        distinct_keys(self.entries@)
    }

    /// A store that holds no record.
    pub fn new() -> (store: Records<R>)
        ensures
            store@ == Map::<[u8; 32], R>::empty(),
    {
        let store = Records { entries: Vec::new() };
        assert(store@ =~= Map::<[u8; 32], R>::empty());
        store
    }

    fn position(&self, key: &[u8; 32]) -> (at: Option<usize>)
        ensures
            match at {
                Some(i) => i < self.entries.len() && self.entries[i as int].key == *key,
                None => forall|i: int| 0 <= i < self.entries.len() ==> self.entries[i].key != *key,
            },
    {
        let mut i: usize = 0;
        while i < self.entries.len()
            invariant
                i <= self.entries.len(),
                forall|j: int| 0 <= j < i ==> self.entries[j].key != *key,
            decreases self.entries.len() - i,
        {
            if same_bytes(&self.entries[i].key, key) {
                return Some(i);
            }
            i += 1;
        }
        None
    }

    /// Tells whether a record stands under `key`.
    pub fn contains(&self, key: &[u8; 32]) -> (found: bool)
        ensures
            found == self@.contains_key(*key),
    {
        self.get(key).is_some()
    }

    /// The record under `key`, if there is one.
    pub fn get(&self, key: &[u8; 32]) -> (record: Option<&R>)
        ensures
            match record {
                Some(r) => self@.contains_key(*key) && *r == self@[*key],
                None => !self@.contains_key(*key),
            },
    {
        proof {
            use_type_invariant(self);
        }
        match self.position(key) {
            Some(i) => {
                proof {
                    lemma_lookup(self.entries@, i as int);
                }
                Some(&self.entries[i].record)
            },
            None => {
                assert(!self@.contains_key(*key)) by {
                    if self@.contains_key(*key) {
                        let i = choose|i: int| stands_at(self.entries@, i, *key);
                        assert(stands_at(self.entries@, i, *key));
                    }
                }
                None
            },
        }
    }

    /// Puts `record` under `key`, in place of the record that stood there, if
    /// one did.
    pub fn insert(&mut self, key: [u8; 32], record: R)
        ensures
            final(self)@ == old(self)@.insert(key, record),
    {
        proof {
            use_type_invariant(&*self);
        }
        let found = self.position(&key);
        let mut entries: Vec<Entry<R>> = Vec::new();
        core::mem::swap(&mut self.entries, &mut entries);
        let ghost before = entries@;
        match found {
            Some(i) => {
                entries[i].record = record;
                proof {
                    lemma_put(before, entries@, i as int, key, record);
                }
            },
            None => {
                entries.push(Entry { key, record });
                proof {
                    lemma_put(before, entries@, before.len() as int, key, record);
                }
            },
        }
        core::mem::swap(&mut self.entries, &mut entries);
    }

    /// Takes away the record under `key` and hands it back, if there is one.
    pub fn remove(&mut self, key: &[u8; 32]) -> (record: Option<R>)
        ensures
            final(self)@ == old(self)@.remove(*key),
            record == if old(self)@.contains_key(*key) {
                Some(old(self)@[*key])
            } else {
                None::<R>
            },
    {
        proof {
            use_type_invariant(&*self);
        }
        match self.position(key) {
            Some(i) => {
                let mut entries: Vec<Entry<R>> = Vec::new();
                core::mem::swap(&mut self.entries, &mut entries);
                proof {
                    lemma_lookup(entries@, i as int);
                    lemma_take(entries@, i as int);
                }
                let entry = entries.remove(i);
                core::mem::swap(&mut self.entries, &mut entries);
                Some(entry.record)
            },
            None => {
                assert(!self@.contains_key(*key)) by {
                    if self@.contains_key(*key) {
                        let i = choose|i: int| stands_at(self.entries@, i, *key);
                        assert(stands_at(self.entries@, i, *key));
                    }
                }
                assert(self@ =~= old(self)@.remove(*key));
                None
            },
        }
    }
}

} // verus!
