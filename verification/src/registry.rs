//! An insertion-ordered table keyed by text.
//!
//! The table keeps at most one entry per key. A new key is appended, a known
//! key has its value replaced in place, so the entries can be walked by index
//! in the order in which their keys first arrived.

use vstd::prelude::*;
use crate::text::same_text;

verus! {

/// No key occurs in two entries.
pub open spec fn distinct_keys<V>(entries: Seq<(Seq<char>, V)>) -> bool {
    forall|i: int, j: int|
        0 <= i < entries.len() && 0 <= j < entries.len() && i != j ==> entries[i].0 != entries[j].0
}

/// Whether some entry is filed under `key`.
pub open spec fn has_key<V>(entries: Seq<(Seq<char>, V)>, key: Seq<char>) -> bool {
    exists|i: int| 0 <= i < entries.len() && #[trigger] entries[i].0 == key
}

/// The position of the entry filed under `key`.
pub open spec fn slot<V>(entries: Seq<(Seq<char>, V)>, key: Seq<char>) -> int {
    choose|i: int| 0 <= i < entries.len() && #[trigger] entries[i].0 == key
}

/// The value filed under `key`, if any.
pub open spec fn lookup<V>(entries: Seq<(Seq<char>, V)>, key: Seq<char>) -> Option<V> {
    if has_key(entries, key) {
        Some(entries[slot(entries, key)].1)
    } else {
        None
    }
}

/// The entries after `value` has been filed under `key`: replaced where the
/// key was known, appended where it was not.
pub open spec fn upsert<V>(entries: Seq<(Seq<char>, V)>, key: Seq<char>, value: V) -> Seq<
    (Seq<char>, V),
> {
    if has_key(entries, key) {
        entries.update(slot(entries, key), (key, value))
    } else {
        entries.push((key, value))
    }
}

/// With distinct keys, the entry at `i` is the one its key leads to.
pub proof fn lemma_slot_is_unique<V>(entries: Seq<(Seq<char>, V)>, i: int)
    requires
        distinct_keys(entries),
        0 <= i < entries.len(),
    ensures
        has_key(entries, entries[i].0),
        slot(entries, entries[i].0) == i,
        lookup(entries, entries[i].0) == Some(entries[i].1),
{
    assert(entries[i].0 == entries[i].0);
}

/// Filing a value keeps the keys distinct and makes it the value found.
pub proof fn lemma_upsert<V>(entries: Seq<(Seq<char>, V)>, key: Seq<char>, value: V)
    requires
        distinct_keys(entries),
    ensures
        distinct_keys(upsert(entries, key, value)),
        lookup(upsert(entries, key, value), key) == Some(value),
        forall|other: Seq<char>|
            other != key ==> lookup(upsert(entries, key, value), other) == lookup(entries, other),
{
    let after = upsert(entries, key, value);
    let at = if has_key(entries, key) {
        slot(entries, key)
    } else {
        entries.len() as int
    };
    assert(0 <= at < after.len() && after[at] == (key, value));
    assert forall|i: int| 0 <= i < after.len() && i != at implies #[trigger] after[i]
        == entries[i] && entries[i].0 != key by {
        if has_key(entries, key) {
            assert(entries[at].0 == key);
        }
    }
    assert(distinct_keys(after));
    lemma_slot_is_unique(after, at);
    assert forall|other: Seq<char>| other != key implies lookup(after, other) == lookup(
        entries,
        other,
    ) by {
        if has_key(entries, other) {
            let i = slot(entries, other);
            assert(after[i] == entries[i]);
            lemma_slot_is_unique(after, i);
        } else if has_key(after, other) {
            let i = slot(after, other);
            assert(entries[i].0 == other);
        }
    }
}

/// Filing the same value under the same key twice is no more than filing
/// it once.
pub proof fn lemma_upsert_is_idempotent<V>(entries: Seq<(Seq<char>, V)>, key: Seq<char>, value: V)
    requires
        distinct_keys(entries),
    ensures
        upsert(upsert(entries, key, value), key, value) == upsert(entries, key, value),
{
    let once = upsert(entries, key, value);
    let at = if has_key(entries, key) {
        slot(entries, key)
    } else {
        entries.len() as int
    };
    lemma_upsert(entries, key, value);
    assert(once[at] == (key, value));
    lemma_slot_is_unique(once, at);
    assert(upsert(once, key, value) =~= once);
}

/// A table from text keys to values that remembers the order of arrival.
pub struct Registry<V> {
    items: Vec<(String, V)>,
}

/// The entries that `items` stand for: each key by its characters.
spec fn entries_of<V>(items: Seq<(String, V)>) -> Seq<(Seq<char>, V)> {
    Seq::new(items.len(), |i: int| (items[i].0@, items[i].1))
}

impl<V> Registry<V> {
    /// The entries, oldest key first.
    pub closed spec fn entries(&self) -> Seq<(Seq<char>, V)> {
        entries_of(self.items@)
    }

    /// The keys are pairwise distinct.
    #[verifier::type_invariant]
    pub open spec fn wf(&self) -> bool {
        distinct_keys(self.entries())
    }

    /// An empty table.
    pub fn new() -> (table: Self)
        ensures
            table.entries() == Seq::<(Seq<char>, V)>::empty(),
    {
        Registry { items: Vec::new() }
    }

    /// The number of entries.
    pub fn len(&self) -> (n: usize)
        ensures
            n == self.entries().len(),
    {
        self.items.len()
    }

    /// Where `key` is filed.
    pub fn position(&self, key: &str) -> (found: Option<usize>)
        ensures
            distinct_keys(self.entries()),
            match found {
                Some(i) => has_key(self.entries(), key@) && i == slot(self.entries(), key@),
                None => !has_key(self.entries(), key@),
            },
    {
        proof {
            use_type_invariant(self);
        }
        let mut i: usize = 0;
        while i < self.items.len()
            invariant
                i <= self.items@.len(),
                distinct_keys(self.entries()),
                forall|j: int| 0 <= j < i ==> (#[trigger] self.entries()[j]).0 != key@,
            decreases self.items.len() - i,
        {
            if same_text(self.items[i].0.as_str(), key) {
                proof {
                    lemma_slot_is_unique(self.entries(), i as int);
                }
                return Some(i);
            }
            i += 1;
        }
        None
    }

    /// The value filed under `key`.
    pub fn get(&self, key: &str) -> (found: Option<&V>)
        ensures
            match found {
                Some(value) => lookup(self.entries(), key@) == Some(*value),
                None => lookup(self.entries(), key@) is None,
            },
    {
        match self.position(key) {
            Some(i) => Some(&self.items[i].1),
            None => None,
        }
    }

    /// The value of the entry at `index`.
    pub fn value_at(&self, index: usize) -> (value: &V)
        requires
            index < self.entries().len(),
        ensures
            *value == self.entries()[index as int].1,
    {
        &self.items[index].1
    }

    /// Files `value` under `key`, replacing what was filed there before.
    pub fn insert(&mut self, key: String, value: V)
        ensures
            final(self).entries() == upsert(old(self).entries(), key@, value),
    {
        proof {
            use_type_invariant(&*self);
            lemma_upsert(self.entries(), key@, value);
        }
        let found = self.position(key.as_str());
        let mut items: Vec<(String, V)> = Vec::new();
        core::mem::swap(&mut self.items, &mut items);
        match found {
            Some(i) => {
                items.set(i, (key, value));
            },
            None => {
                items.push((key, value));
            },
        }
        assert(entries_of(items@) =~= upsert(old(self).entries(), key@, value));
        *self = Registry { items };
    }

    /// Replaces the value of the entry at `index`, keeping its key.
    pub fn set_value_at(&mut self, index: usize, value: V)
        requires
            index < old(self).entries().len(),
        ensures
            final(self).entries() == old(self).entries().update(
                index as int,
                (old(self).entries()[index as int].0, value),
            ),
    {
        proof {
            use_type_invariant(&*self);
        }
        let key = self.items[index].0.clone();
        let mut items: Vec<(String, V)> = Vec::new();
        core::mem::swap(&mut self.items, &mut items);
        items.set(index, (key, value));
        assert(entries_of(items@) =~= old(self).entries().update(
            index as int,
            (old(self).entries()[index as int].0, value),
        ));
        *self = Registry { items };
    }
}

} // verus!
