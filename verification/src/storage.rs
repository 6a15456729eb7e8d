//! An in-memory stand-in for a persistent map keyed by account id.
//!
//! Entries are kept in the order in which their keys were first inserted, so that
//! every walk over the map is deterministic. The mathematical model of a map is a
//! `Map<AccountId, V>`.

use vstd::prelude::*;

verus! {

/// The identity of an account.
pub type AccountId = u64;

/// No key occurs twice among `entries`.
spec fn distinct_keys<V>(entries: Seq<(AccountId, V)>) -> bool {
    forall|i: int, j: int| 0 <= i < j < entries.len() ==> entries[i].0 != entries[j].0
}

/// `key` occurs among `entries`.
spec fn has_key<V>(entries: Seq<(AccountId, V)>, key: AccountId) -> bool {
    exists|i: int| 0 <= i < entries.len() && entries[i].0 == key
}

/// The map that a list of entries stands for: later entries win over earlier ones
/// with the same key.
spec fn entries_to_map<V>(entries: Seq<(AccountId, V)>) -> Map<AccountId, V>
    decreases entries.len(),
{
    if entries.len() == 0 {
        Map::empty()
    } else {
        entries_to_map(entries.drop_last()).insert(entries.last().0, entries.last().1)
    }
}

/// The domain of the map is the set of keys of the entries.
proof fn lemma_map_domain<V>(entries: Seq<(AccountId, V)>, key: AccountId)
    ensures
        entries_to_map(entries).contains_key(key) <==> has_key(entries, key),
    decreases entries.len(),
{
    if entries.len() > 0 {
        let front = entries.drop_last();
        lemma_map_domain(front, key);
        if has_key(entries, key) {
            let i = choose|i: int| 0 <= i < entries.len() && entries[i].0 == key;
            if i < front.len() {
                assert(front[i].0 == key);
            }
        }
        if has_key(front, key) {
            let i = choose|i: int| 0 <= i < front.len() && front[i].0 == key;
            assert(entries[i].0 == key);
        }
        if entries.last().0 == key {
            assert(entries[entries.len() - 1].0 == key);
        }
    }
}

/// With distinct keys, the map sends the key of each entry to the value of that entry.
proof fn lemma_map_value<V>(entries: Seq<(AccountId, V)>, i: int)
    requires
        distinct_keys(entries),
        0 <= i < entries.len(),
    ensures
        entries_to_map(entries).contains_key(entries[i].0),
        entries_to_map(entries)[entries[i].0] == entries[i].1,
    decreases entries.len(),
{
    let front = entries.drop_last();
    if i < entries.len() - 1 {
        assert(distinct_keys(front)) by {
            assert forall|a: int, b: int| 0 <= a < b < front.len() implies front[a].0
                != front[b].0 by {
                assert(entries[a].0 != entries[b].0);
            }
        }
        assert(front[i] == entries[i]);
        lemma_map_value(front, i);
        assert(entries[i].0 != entries[entries.len() - 1].0);
    }
}

/// Replacing the value of the entry at `i` updates the map at that entry's key.
proof fn lemma_map_update<V>(entries: Seq<(AccountId, V)>, i: int, value: V)
    requires
        distinct_keys(entries),
        0 <= i < entries.len(),
    ensures
        distinct_keys(entries.update(i, (entries[i].0, value))),
        entries_to_map(entries.update(i, (entries[i].0, value))) == entries_to_map(entries).insert(
            entries[i].0,
            value,
        ),
{
    let key = entries[i].0;
    let after = entries.update(i, (key, value));
    assert(distinct_keys(after)) by {
        assert forall|a: int, b: int| 0 <= a < b < after.len() implies after[a].0 != after[b].0 by {
            assert(entries[a].0 != entries[b].0);
        }
    }
    lemma_map_value(after, i);
    assert forall|k: AccountId|
        entries_to_map(after).contains_key(k) <==> entries_to_map(entries).insert(
            key,
            value,
        ).contains_key(k) by {
        lemma_map_domain(after, k);
        lemma_map_domain(entries, k);
        if has_key(after, k) {
            let a = choose|a: int| 0 <= a < after.len() && after[a].0 == k;
            assert(entries[a].0 == k);
        }
        if has_key(entries, k) {
            let a = choose|a: int| 0 <= a < entries.len() && entries[a].0 == k;
            assert(after[a].0 == k);
        }
        if k == key {
            assert(after[i].0 == k);
        }
    }
    assert forall|k: AccountId| entries_to_map(after).contains_key(k) implies entries_to_map(
        after,
    )[k] == entries_to_map(entries).insert(key, value)[k] by {
        lemma_map_domain(after, k);
        let a = choose|a: int| 0 <= a < after.len() && after[a].0 == k;
        lemma_map_value(after, a);
        if a != i {
            assert(after[a] == entries[a]);
            lemma_map_value(entries, a);
            if a < i {
                assert(entries[a].0 != entries[i].0);
            } else {
                assert(entries[i].0 != entries[a].0);
            }
        }
    }
    assert(entries_to_map(after) =~= entries_to_map(entries).insert(key, value));
}

/// Taking out the entry at `i` removes that entry's key from the map.
proof fn lemma_map_remove<V>(entries: Seq<(AccountId, V)>, i: int)
    requires
        distinct_keys(entries),
        0 <= i < entries.len(),
    ensures
        distinct_keys(entries.remove(i)),
        entries_to_map(entries.remove(i)) == entries_to_map(entries).remove(entries[i].0),
{
    let key = entries[i].0;
    let after = entries.remove(i);
    assert(distinct_keys(after)) by {
        assert forall|a: int, b: int| 0 <= a < b < after.len() implies after[a].0 != after[b].0 by {
            let a0 = if a < i { a } else { a + 1 };
            let b0 = if b < i { b } else { b + 1 };
            assert(after[a] == entries[a0]);
            assert(after[b] == entries[b0]);
            assert(entries[a0].0 != entries[b0].0);
        }
    }
    assert forall|k: AccountId|
        entries_to_map(after).contains_key(k) <==> entries_to_map(entries).remove(
            key,
        ).contains_key(k) by {
        lemma_map_domain(after, k);
        lemma_map_domain(entries, k);
        if has_key(after, k) {
            let a = choose|a: int| 0 <= a < after.len() && after[a].0 == k;
            let a0 = if a < i { a } else { a + 1 };
            assert(after[a] == entries[a0]);
            assert(entries[a0].0 == k);
            if a0 < i {
                assert(entries[a0].0 != entries[i].0);
            } else {
                assert(entries[i].0 != entries[a0].0);
            }
        }
        if has_key(entries, k) && k != key {
            let a0 = choose|a: int| 0 <= a < entries.len() && entries[a].0 == k;
            let a = if a0 < i { a0 } else { a0 - 1 };
            assert(after[a] == entries[a0]);
            assert(after[a].0 == k);
        }
    }
    assert forall|k: AccountId| entries_to_map(after).contains_key(k) implies entries_to_map(
        after,
    )[k] == entries_to_map(entries).remove(key)[k] by {
        lemma_map_domain(after, k);
        let a = choose|a: int| 0 <= a < after.len() && after[a].0 == k;
        let a0 = if a < i { a } else { a + 1 };
        assert(after[a] == entries[a0]);
        lemma_map_value(after, a);
        lemma_map_value(entries, a0);
    }
    assert(entries_to_map(after) =~= entries_to_map(entries).remove(key));
}

/// Appending an entry whose key is new keeps the keys distinct and inserts it into the map.
proof fn lemma_map_push<V>(entries: Seq<(AccountId, V)>, key: AccountId, value: V)
    requires
        distinct_keys(entries),
        !has_key(entries, key),
    ensures
        distinct_keys(entries.push((key, value))),
        entries_to_map(entries.push((key, value))) == entries_to_map(entries).insert(key, value),
{
    let after = entries.push((key, value));
    assert(after.drop_last() =~= entries);
    assert forall|a: int, b: int| 0 <= a < b < after.len() implies after[a].0 != after[b].0 by {
        if b == entries.len() {
            assert(entries[a].0 != key);
        } else {
            assert(entries[a].0 != entries[b].0);
        }
    }
}

/// A map from account ids to values of type `V`.
#[derive(Clone, Debug, PartialEq, Eq)]
pub struct StorageMap<V> {
    entries: Vec<(AccountId, V)>,
}

impl<V> View for StorageMap<V> {
    type V = Map<AccountId, V>;

    closed spec fn view(&self) -> Map<AccountId, V> {
        entries_to_map(self.entries@)
    }
}

impl<V: Copy> StorageMap<V> {
    /// The invariant of the type: no key is stored twice.
    pub closed spec fn wf(&self) -> bool {
        distinct_keys(self.entries@)
    }

    /// An empty map.
    pub fn new() -> (map: Self)
        ensures
            map.wf(),
            map@ == Map::<AccountId, V>::empty(),
    {
        StorageMap { entries: Vec::new() }
    }

    /// The position of `key` among the entries, if it is there.
    fn position(&self, key: AccountId) -> (found: Option<usize>)
        ensures
            match found {
                Some(i) => i < self.entries@.len() && self.entries@[i as int].0 == key,
                None => !has_key(self.entries@, key),
            },
    {
        let mut i: usize = 0;
        while i < self.entries.len()
            invariant
                i <= self.entries@.len(),
                forall|j: int| 0 <= j < i ==> self.entries@[j].0 != key,
            decreases self.entries@.len() - i,
        {
            if self.entries[i].0 == key {
                return Some(i);
            }
            i += 1;
        }
        None
    }

    /// The value stored under `key`, if there is one.
    pub fn get(&self, key: AccountId) -> (value: Option<V>)
        requires
            self.wf(),
        ensures
            value == if self@.contains_key(key) {
                Some(self@[key])
            } else {
                None
            },
    {
        proof {
            lemma_map_domain(self.entries@, key);
        }
        match self.position(key) {
            Some(i) => {
                proof {
                    lemma_map_value(self.entries@, i as int);
                }
                Some(self.entries[i].1)
            },
            None => None,
        }
    }

    /// Whether a value is stored under `key`.
    pub fn contains_key(&self, key: AccountId) -> (found: bool)
        ensures
            found == self@.contains_key(key),
    {
        proof {
            lemma_map_domain(self.entries@, key);
        }
        self.position(key).is_some()
    }

    /// Stores `value` under `key`, replacing what was there.
    pub fn insert(&mut self, key: AccountId, value: V)
        requires
            old(self).wf(),
        ensures
            final(self).wf(),
            final(self)@ == old(self)@.insert(key, value),
    {
        match self.position(key) {
            Some(i) => {
                proof {
                    lemma_map_update(self.entries@, i as int, value);
                }
                self.entries.set(i, (key, value));
            },
            None => {
                proof {
                    lemma_map_push(self.entries@, key, value);
                }
                self.entries.push((key, value));
            },
        }
    }

    /// Removes `key` and what is stored under it, and returns the value that was there.
    pub fn remove(&mut self, key: AccountId) -> (value: Option<V>)
        requires
            old(self).wf(),
        ensures
            final(self).wf(),
            final(self)@ == old(self)@.remove(key),
            value == if old(self)@.contains_key(key) {
                Some(old(self)@[key])
            } else {
                None
            },
    {
        proof {
            lemma_map_domain(self.entries@, key);
        }
        match self.position(key) {
            Some(i) => {
                proof {
                    lemma_map_value(self.entries@, i as int);
                    lemma_map_remove(self.entries@, i as int);
                }
                let entry = self.entries.remove(i);
                Some(entry.1)
            },
            None => {
                assert(self@.remove(key) =~= self@);
                None
            },
        }
    }

    /// Stores `value` under every key of the map.
    pub fn fill(&mut self, value: V)
        requires
            old(self).wf(),
        ensures
            final(self).wf(),
            final(self)@.dom() == old(self)@.dom(),
            forall|k: AccountId| final(self)@.contains_key(k) ==> final(self)@[k] == value,
    {
        let mut i: usize = 0;
        while i < self.entries.len()
            invariant
                i <= self.entries@.len(),
                distinct_keys(self.entries@),
                self@.dom() == old(self)@.dom(),
                forall|j: int| 0 <= j < i ==> self.entries@[j].1 == value,
            decreases self.entries@.len() - i,
        {
            let key = self.entries[i].0;
            proof {
                lemma_map_update(self.entries@, i as int, value);
                lemma_map_value(self.entries@, i as int);
                assert(self@.insert(key, value).dom() =~= self@.dom());
            }
            self.entries.set(i, (key, value));
            i += 1;
        }
        proof {
            assert forall|k: AccountId| self@.contains_key(k) implies self@[k] == value by {
                lemma_map_domain(self.entries@, k);
                let j = choose|j: int| 0 <= j < self.entries@.len() && self.entries@[j].0 == k;
                lemma_map_value(self.entries@, j);
            }
        }
    }

    /// A second map with the same entries.
    pub fn duplicate(&self) -> (copy: Self)
        requires
            self.wf(),
        ensures
            copy.wf(),
            copy@ == self@,
    {
        let mut entries: Vec<(AccountId, V)> = Vec::new();
        let mut i: usize = 0;
        while i < self.entries.len()
            invariant
                i <= self.entries@.len(),
                entries@ == self.entries@.take(i as int),
            decreases self.entries@.len() - i,
        {
            entries.push(self.entries[i]);
            proof {
                assert(self.entries@.take(i + 1) =~= self.entries@.take(i as int).push(
                    self.entries@[i as int],
                ));
            }
            i += 1;
        }
        proof {
            assert(self.entries@.take(self.entries@.len() as int) =~= self.entries@);
        }
        StorageMap { entries }
    }
}

} // verus!
