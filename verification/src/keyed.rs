//! A small map from text keys to values, kept as a list of entries in which each key occurs once.
//!
//! The editor caches runtime data per graph and per node under their text ids; this type holds
//! such a cache and is seen in contracts as a `Map` from key text to value.

use vstd::prelude::*;
use crate::text::str_equal;

verus! {

/// Whether no two entries share a key.
pub open spec fn keys_unique<V>(entries: Seq<(String, V)>) -> bool {
    forall|i: int, j: int| 0 <= i < j < entries.len() ==> entries[i].0@ != entries[j].0@
}

/// The map that a list of entries describes; a later entry replaces an earlier one with the same
/// key.
pub open spec fn entries_map<V>(entries: Seq<(String, V)>) -> Map<Seq<char>, V>
    decreases entries.len(),
{
    if entries.len() == 0 {
        Map::empty()
    } else {
        entries_map(entries.drop_last()).insert(entries.last().0@, entries.last().1)
    }
}

/// A key is mapped exactly when some entry holds it, and with unique keys to that entry's value.
pub proof fn lemma_entries_map_lookup<V>(entries: Seq<(String, V)>, k: Seq<char>)
    ensures
        entries_map(entries).contains_key(k) <==> exists|i: int|
            0 <= i < entries.len() && (#[trigger] entries[i]).0@ == k,
        keys_unique(entries) ==> forall|i: int|
            0 <= i < entries.len() && (#[trigger] entries[i]).0@ == k ==> entries_map(entries)[k]
                == entries[i].1,
    decreases entries.len(),
{
    if entries.len() > 0 {
        let rest = entries.drop_last();
        lemma_entries_map_lookup(rest, k);
        assert forall|i: int| 0 <= i < rest.len() implies rest[i] == entries[i] by {}
        if entries_map(entries).contains_key(k) && entries.last().0@ != k {
            let i = choose|i: int| 0 <= i < rest.len() && (#[trigger] rest[i]).0@ == k;
            assert(entries[i].0@ == k);
        }
        if exists|i: int| 0 <= i < entries.len() && (#[trigger] entries[i]).0@ == k {
            let i = choose|i: int| 0 <= i < entries.len() && (#[trigger] entries[i]).0@ == k;
            if i < entries.len() - 1 {
                assert(rest[i].0@ == k);
            }
        }
    }
}

/// Replacing the value of an entry, under a key with the same text, replaces it in the map.
pub proof fn lemma_entries_map_update<V>(entries: Seq<(String, V)>, i: int, key: String, value: V)
    requires
        keys_unique(entries),
        0 <= i < entries.len(),
        key@ == entries[i].0@,
    ensures
        entries_map(entries.update(i, (key, value))) == entries_map(entries).insert(key@, value),
        keys_unique(entries.update(i, (key, value))),
    decreases entries.len(),
{
    let updated = entries.update(i, (key, value));
    if i == entries.len() - 1 {
        assert(updated.drop_last() =~= entries.drop_last());
        let rest = entries.drop_last();
        lemma_entries_map_lookup(rest, key@);
        assert(!entries_map(rest).contains_key(key@)) by {
            if entries_map(rest).contains_key(key@) {
                let j = choose|j: int| 0 <= j < rest.len() && (#[trigger] rest[j]).0@ == key@;
                assert(entries[j].0@ == entries[i].0@);
            }
        }
        assert(entries_map(updated) =~= entries_map(entries).insert(key@, value));
    } else {
        let rest = entries.drop_last();
        lemma_entries_map_update(rest, i, key, value);
        assert(updated.drop_last() =~= rest.update(i, (key, value)));
        assert(entries.last().0@ != key@);
        assert(entries_map(updated) =~= entries_map(entries).insert(key@, value));
    }
}

/// Adding an entry under a new key adds it to the map and keeps keys unique.
pub proof fn lemma_entries_map_push<V>(entries: Seq<(String, V)>, key: String, value: V)
    requires
        keys_unique(entries),
        !entries_map(entries).contains_key(key@),
    ensures
        entries_map(entries.push((key, value))) == entries_map(entries).insert(key@, value),
        keys_unique(entries.push((key, value))),
{
    assert(entries.push((key, value)).drop_last() =~= entries);
    lemma_entries_map_lookup(entries, key@);
    let pushed = entries.push((key, value));
    assert forall|i: int, j: int| 0 <= i < j < pushed.len() implies pushed[i].0@ != pushed[j].0@ by {
        if j == entries.len() {
            assert(entries[i].0@ != key@);
        }
    }
}

/// Dropping an entry drops its key from the map and keeps keys unique.
pub proof fn lemma_entries_map_remove<V>(entries: Seq<(String, V)>, i: int)
    requires
        keys_unique(entries),
        0 <= i < entries.len(),
    ensures
        entries_map(entries.remove(i)) == entries_map(entries).remove(entries[i].0@),
        keys_unique(entries.remove(i)),
    decreases entries.len(),
{
    let removed = entries.remove(i);
    let k = entries[i].0@;
    if i == entries.len() - 1 {
        let rest = entries.drop_last();
        assert(removed =~= rest);
        lemma_entries_map_lookup(rest, k);
        assert(!entries_map(rest).contains_key(k)) by {
            if entries_map(rest).contains_key(k) {
                let j = choose|j: int| 0 <= j < rest.len() && (#[trigger] rest[j]).0@ == k;
                assert(entries[j].0@ == entries[i].0@);
            }
        }
        assert(entries_map(removed) =~= entries_map(entries).remove(k));
    } else {
        let rest = entries.drop_last();
        lemma_entries_map_remove(rest, i);
        assert(removed.drop_last() =~= rest.remove(i));
        assert(removed.last() == entries.last());
        assert(entries.last().0@ != k);
        assert(entries_map(removed) =~= entries_map(entries).remove(k));
    }
}

/// The texts of a list of keys.
pub open spec fn text_set(keys: Seq<String>) -> Set<Seq<char>> {
    Set::new(|k: Seq<char>| exists|i: int| 0 <= i < keys.len() && (#[trigger] keys[i])@ == k)
}

fn holds_text(keys: &Vec<String>, key: &str) -> (found: bool)
    ensures
        found == text_set(keys@).contains(key@),
{
    let mut i: usize = 0;
    while i < keys.len()
        invariant
            i <= keys@.len(),
            forall|j: int| 0 <= j < i ==> (#[trigger] keys@[j])@ != key@,
        decreases keys@.len() - i,
    {
        if str_equal(keys[i].as_str(), key) {
            assert(text_set(keys@).contains(key@));
            return true;
        }
        i = i + 1;
    }
    false
}

fn position<V>(entries: &Vec<(String, V)>, key: &str) -> (found: Option<usize>)
    ensures
        match found {
            Some(i) => i < entries@.len() && entries@[i as int].0@ == key@,
            None => forall|i: int| 0 <= i < entries@.len() ==> (#[trigger] entries@[i]).0@ != key@,
        },
{
    let mut i: usize = 0;
    while i < entries.len()
        invariant
            i <= entries@.len(),
            forall|j: int| 0 <= j < i ==> (#[trigger] entries@[j]).0@ != key@,
        decreases entries@.len() - i,
    {
        if str_equal(entries[i].0.as_str(), key) {
            return Some(i);
        }
        i = i + 1;
    }
    None
}

/// Text keys mapped to values, each key once.
pub struct KeyedList<V> {
    entries: Vec<(String, V)>,
}

impl<V> KeyedList<V> {
    /// The entries in the order they were first added.
    pub closed spec fn entries(&self) -> Seq<(String, V)> {
        self.entries@
    }

    #[verifier::type_invariant]
    spec fn unique_keys(&self) -> bool {
        keys_unique(self.entries@)
    }

    /// The map is the one its entries describe.
    pub proof fn lemma_view_of_entries(&self)
        ensures
            self@ == entries_map(self.entries()),
    {
    }

    /// An empty map.
    pub fn new() -> (list: Self)
        ensures
            list@ == Map::<Seq<char>, V>::empty(),
            list.entries().len() == 0,
    {
        KeyedList { entries: Vec::new() }
    }

    /// Returns the value under `key`, if there is one.
    pub fn get(&self, key: &str) -> (value: Option<&V>)
        ensures
            match value {
                Some(v) => self@.contains_key(key@) && *v == self@[key@],
                None => !self@.contains_key(key@),
            },
    {
        proof {
            use_type_invariant(self);
            lemma_entries_map_lookup(self.entries@, key@);
        }
        match position(&self.entries, key) {
            Some(i) => Some(&self.entries[i].1),
            None => None,
        }
    }

    /// Whether there is a value under `key`.
    pub fn contains_key(&self, key: &str) -> (found: bool)
        ensures
            found == self@.contains_key(key@),
    {
        self.get(key).is_some()
    }

    /// Puts `value` under `key`, replacing what was there.
    pub fn insert(&mut self, key: String, value: V)
        ensures
            final(self)@ == old(self)@.insert(key@, value),
    {
        proof {
            use_type_invariant(&*self);
        }
        let mut entries: Vec<(String, V)> = Vec::new();
        std::mem::swap(&mut entries, &mut self.entries);
        match position(&entries, key.as_str()) {
            Some(i) => {
                proof {
                    lemma_entries_map_update(entries@, i as int, key, value);
                }
                entries.set(i, (key, value));
            },
            None => {
                proof {
                    lemma_entries_map_lookup(entries@, key@);
                    lemma_entries_map_push(entries@, key, value);
                }
                entries.push((key, value));
            },
        }
        self.entries = entries;
    }

    /// Takes the value under `key` out of the map, if there is one.
    pub fn remove(&mut self, key: &str) -> (value: Option<V>)
        ensures
            final(self)@ == old(self)@.remove(key@),
            match value {
                Some(v) => old(self)@.contains_key(key@) && v == old(self)@[key@],
                None => !old(self)@.contains_key(key@),
            },
    {
        proof {
            use_type_invariant(&*self);
            lemma_entries_map_lookup(self.entries@, key@);
        }
        let mut entries: Vec<(String, V)> = Vec::new();
        std::mem::swap(&mut entries, &mut self.entries);
        match position(&entries, key) {
            Some(i) => {
                proof {
                    lemma_entries_map_remove(entries@, i as int);
                }
                let (_, value) = entries.remove(i);
                self.entries = entries;
                Some(value)
            },
            None => {
                assert(old(self)@.remove(key@) =~= old(self)@);
                self.entries = entries;
                None
            },
        }
    }

    /// Keeps only the entries whose key is one of `keys`.
    pub fn retain_keys(&mut self, keys: &Vec<String>)
        ensures
            final(self)@ == old(self)@.restrict(text_set(keys@)),
    {
        proof {
            use_type_invariant(&*self);
        }
        let ghost kept = text_set(keys@);
        let ghost target = old(self)@.restrict(kept);
        let mut entries: Vec<(String, V)> = Vec::new();
        std::mem::swap(&mut entries, &mut self.entries);
        let mut i: usize = 0;
        while i < entries.len()
            invariant
                i <= entries@.len(),
                keys_unique(entries@),
                entries_map(entries@).restrict(kept) == target,
                forall|j: int| 0 <= j < i ==> kept.contains((#[trigger] entries@[j]).0@),
                kept == text_set(keys@),
            decreases entries@.len() - i,
        {
            if holds_text(keys, entries[i].0.as_str()) {
                i = i + 1;
            } else {
                proof {
                    lemma_entries_map_remove(entries@, i as int);
                    assert(entries_map(entries@.remove(i as int)).restrict(kept) =~= entries_map(
                        entries@,
                    ).restrict(kept));
                }
                entries.remove(i);
            }
        }
        proof {
            let m = entries_map(entries@);
            assert forall|k: Seq<char>| m.contains_key(k) implies kept.contains(k) by {
                lemma_entries_map_lookup(entries@, k);
            }
            assert(m.restrict(kept) =~= m);
        }
        self.entries = entries;
    }

    /// Removes every entry.
    pub fn clear(&mut self)
        ensures
            final(self)@ == Map::<Seq<char>, V>::empty(),
    {
        self.entries = Vec::new();
    }

    /// Whether the map is empty.
    pub fn is_empty(&self) -> (empty: bool)
        ensures
            empty == (self@.dom() == Set::<Seq<char>>::empty()),
    {
        proof {
            use_type_invariant(self);
            if self.entries@.len() > 0 {
                lemma_entries_map_lookup(self.entries@, self.entries@[0].0@);
                assert(self@.dom().contains(self.entries@[0].0@));
            } else {
                assert(self@.dom() =~= Set::<Seq<char>>::empty());
            }
        }
        self.entries.len() == 0
    }

    /// The entries, in the order they were first added.
    pub fn as_slice(&self) -> (entries: &[(String, V)])
        ensures
            entries@ == self.entries(),
    {
        self.entries.as_slice()
    }
}

impl<V> View for KeyedList<V> {
    type V = Map<Seq<char>, V>;

    closed spec fn view(&self) -> Map<Seq<char>, V> {
        entries_map(self.entries@)
    }
}

} // verus!
