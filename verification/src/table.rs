//! A map from text keys to values, kept in key order.

use crate::text::{same_text, text_le, text_not_after, text_order_antisymmetric};
use crate::text::{text_order_total, text_order_transitive};
use vstd::prelude::*;

verus! {

/// A map from text keys to values. Entries are held in strictly increasing
/// key order, so walking them is walking the map in key order.
#[derive(Debug)]
pub struct Table<V> {
    entries: Vec<(String, V)>,
}

/// Whether the keys of `entries` are strictly increasing in text order.
pub open spec fn keys_increase<V>(entries: Seq<(String, V)>) -> bool {
    forall|i: int, j: int|
        #![trigger entries[i], entries[j]]
        0 <= i < j < entries.len() ==> text_le(entries[i].0@, entries[j].0@) && entries[i].0@
            != entries[j].0@
}

/// Whether `key` stands at position `i` of `entries`.
pub open spec fn key_at<V>(entries: Seq<(String, V)>, key: Seq<char>, i: int) -> bool {
    0 <= i < entries.len() && entries[i].0@ == key
}

/// The map that `entries` spell out.
pub open spec fn map_of<V>(entries: Seq<(String, V)>) -> Map<Seq<char>, V> {
    Map::new(
        |key: Seq<char>| exists|i: int| key_at(entries, key, i),
        |key: Seq<char>| entries[choose|i: int| key_at(entries, key, i)].1,
    )
}

impl<V> View for Table<V> {
    type V = Map<Seq<char>, V>;

    closed spec fn view(&self) -> Map<Seq<char>, V> {
        map_of(self.entries@)
    }
}

/// An entry's key has the entry's value.
pub proof fn map_of_entry<V>(entries: Seq<(String, V)>, i: int)
    requires
        keys_increase(entries),
        0 <= i < entries.len(),
    ensures
        map_of(entries).contains_key(entries[i].0@),
        map_of(entries)[entries[i].0@] == entries[i].1,
{
    let key = entries[i].0@;
    assert(key_at(entries, key, i));
    let chosen = choose|j: int| key_at(entries, key, j);
    assert(key_at(entries, key, chosen));
    if chosen < i {
        assert(entries[chosen].0@ != entries[i].0@);
    } else if i < chosen {
        assert(entries[i].0@ != entries[chosen].0@);
    }
}

/// The entries of a table spell out its map.
pub proof fn entries_spell_the_map<V>(table: Table<V>)
    ensures
        table@ == map_of(table.in_order()),
{
}

impl<V> Table<V> {
    /// The entries in key order.
    pub closed spec fn in_order(&self) -> Seq<(String, V)> {
        self.entries@
    }

    #[verifier::type_invariant]
    spec fn well_formed(self) -> bool {
        keys_increase(self.entries@)
    }

    /// An empty table.
    pub fn new() -> (table: Self)
        ensures
            table@ == Map::<Seq<char>, V>::empty(),
            table.in_order() == Seq::<(String, V)>::empty(),
    {
        let table = Table { entries: Vec::new() };
        assert(table@ =~= Map::<Seq<char>, V>::empty());
        table
    }

    /// How many keys the table holds. The entries spell out the map in key
    /// order: keys strictly increase and nothing is in the map that is not an
    /// entry.
    pub fn len(&self) -> (length: usize)
        ensures
            length == self.in_order().len(),
            keys_increase(self.in_order()),
            self@ == map_of(self.in_order()),
    {
        proof {
            use_type_invariant(self);
        }
        self.entries.len()
    }

    /// The entry at position `i` in key order.
    pub fn entry(&self, i: usize) -> (entry: (&str, &V))
        requires
            i < self.in_order().len(),
        ensures
            entry.0@ == self.in_order()[i as int].0@,
            *entry.1 == self.in_order()[i as int].1,
            self@.contains_key(entry.0@),
            self@[entry.0@] == *entry.1,
    {
        proof {
            use_type_invariant(self);
            map_of_entry(self.entries@, i as int);
        }
        (self.entries[i].0.as_str(), &self.entries[i].1)
    }

    fn position(&self, key: &str) -> (found: Result<usize, usize>)
        ensures
            keys_increase(self.entries@),
            match found {
                Ok(i) => key_at(self.entries@, key@, i as int),
                Err(i) => {
                    &&& i <= self.entries@.len()
                    &&& forall|j: int| #![trigger self.entries@[j]]
                        0 <= j < self.entries@.len() ==> self.entries@[j].0@ != key@
                    &&& forall|j: int| #![trigger self.entries@[j]]
                        0 <= j < i ==> text_le(self.entries@[j].0@, key@)
                    &&& forall|j: int| #![trigger self.entries@[j]]
                        i <= j < self.entries@.len() ==> text_le(key@, self.entries@[j].0@)
                },
            },
    {
        proof {
            use_type_invariant(self);
        }
        let mut i: usize = 0;
        while i < self.entries.len()
            invariant
                i <= self.entries@.len(),
                keys_increase(self.entries@),
                forall|j: int| #![trigger self.entries@[j]]
                    0 <= j < i ==> text_le(self.entries@[j].0@, key@) && self.entries@[j].0@ != key@,
            decreases self.entries@.len() - i,
        {
            let candidate = self.entries[i].0.as_str();
            if same_text(candidate, key) {
                return Ok(i);
            }
            if !text_not_after(candidate, key) {
                proof {
                    text_order_total(candidate@, key@);
                    assert forall|j: int| #![trigger self.entries@[j]] i <= j < self.entries@.len()
                        implies text_le(key@, self.entries@[j].0@) && self.entries@[j].0@ != key@ by {
                        if i < j {
                            let at_i = self.entries@[i as int].0@;
                            text_order_transitive(key@, at_i, self.entries@[j].0@);
                            if self.entries@[j].0@ == key@ {
                                text_order_antisymmetric(at_i, key@);
                            }
                        }
                    }
                }
                return Err(i);
            }
            i += 1;
        }
        Err(i)
    }

    /// Whether `key` has a value.
    pub fn contains_key(&self, key: &str) -> (found: bool)
        ensures
            found == self@.contains_key(key@),
    {
        let found = self.position(key);
        match found {
            Ok(i) => {
                proof {
                    map_of_entry(self.entries@, i as int);
                }
                true
            },
            Err(_) => false,
        }
    }

    /// The value of `key`, if it has one.
    pub fn get(&self, key: &str) -> (value: Option<&V>)
        ensures
            match value {
                Some(value) => self@.contains_key(key@) && self@[key@] == *value,
                None => !self@.contains_key(key@),
            },
    {
        match self.position(key) {
            Ok(i) => {
                proof {
                    map_of_entry(self.entries@, i as int);
                }
                Some(&self.entries[i].1)
            },
            Err(_) => None,
        }
    }

    /// Gives `key` the value `value`, in place of an earlier one.
    pub fn insert(&mut self, key: &str, value: V)
        ensures
            final(self)@ == old(self)@.insert(key@, value),
    {
        let found = self.position(key);
        let ghost before = self.entries@;
        let mut entries: Vec<(String, V)> = Vec::new();
        std::mem::swap(&mut entries, &mut self.entries);
        match found {
            Ok(i) => {
                let owned = entries[i].0.clone();
                entries.set(i, (owned, value));
                proof {
                    lemma_replaced(before, entries@, i as int);
                }
            },
            Err(i) => {
                entries.insert(i, (key.to_owned(), value));
                proof {
                    lemma_inserted(before, entries@, i as int);
                }
            },
        }
        self.entries = entries;
    }

    /// Removes `key` and hands out its value, if it had one.
    pub fn remove(&mut self, key: &str) -> (value: Option<V>)
        ensures
            final(self)@ == old(self)@.remove(key@),
            match value {
                Some(value) => old(self)@.contains_key(key@) && old(self)@[key@] == value,
                None => !old(self)@.contains_key(key@),
            },
    {
        match self.position(key) {
            Ok(i) => {
                let ghost before = self.entries@;
                let mut entries: Vec<(String, V)> = Vec::new();
                std::mem::swap(&mut entries, &mut self.entries);
                let (_, value) = entries.remove(i);
                proof {
                    lemma_removed(before, entries@, i as int);
                }
                self.entries = entries;
                Some(value)
            },
            Err(_) => {
                assert(self@.remove(key@) =~= self@);
                None
            },
        }
    }

    /// The entries in key order.
    pub fn into_entries(self) -> (entries: Vec<(String, V)>)
        ensures
            entries@ == self.in_order(),
            keys_increase(entries@),
            self@ == map_of(entries@),
    {
        proof {
            use_type_invariant(&self);
        }
        self.entries
    }

    /// Drops every key that is not among `keys`.
    pub fn retain_keys(&mut self, keys: &Vec<String>)
        ensures
            final(self)@ == old(self)@.restrict(
                Set::new(|key: Seq<char>| old(self)@.contains_key(key) && lists(keys@, key)),
            ),
    {
        let ghost first = self@;
        proof {
            use_type_invariant(&*self);
        }
        let mut entries: Vec<(String, V)> = Vec::new();
        std::mem::swap(&mut entries, &mut self.entries);
        let mut i: usize = 0;
        while i < entries.len()
            invariant
                i <= entries@.len(),
                keys_increase(entries@),
                forall|j: int| #![trigger entries@[j]]
                    0 <= j < i ==> lists(keys@, entries@[j].0@),
                forall|key: Seq<char>| #[trigger]
                    map_of(entries@).contains_key(key) ==> first.contains_key(key)
                        && first[key] == map_of(entries@)[key],
                forall|key: Seq<char>|
                    first.contains_key(key) && #[trigger] lists(keys@, key) ==> map_of(
                        entries@,
                    ).contains_key(key),
            decreases entries@.len() - i,
        {
            if list_contains(keys, entries[i].0.as_str()) {
                i += 1;
            } else {
                let ghost before = entries@;
                let _ = entries.remove(i);
                proof {
                    lemma_removed(before, entries@, i as int);
                }
            }
        }
        proof {
            let kept = first.restrict(
                Set::new(|key: Seq<char>| first.contains_key(key) && lists(keys@, key)),
            );
            assert forall|key: Seq<char>| map_of(entries@).contains_key(key) == kept.contains_key(
                key,
            ) by {
                if map_of(entries@).contains_key(key) {
                    let j = choose|j: int| key_at(entries@, key, j);
                    assert(lists(keys@, entries@[j].0@));
                }
            }
            assert(map_of(entries@) =~= kept);
        }
        self.entries = entries;
    }
}

impl<V: Copy> Table<V> {
    /// A second table with the same entries.
    pub fn duplicate(&self) -> (copy: Table<V>)
        ensures
            copy@ == self@,
            copy.in_order() == self.in_order(),
    {
        proof {
            use_type_invariant(self);
        }
        let mut entries: Vec<(String, V)> = Vec::new();
        let mut i: usize = 0;
        while i < self.entries.len()
            invariant
                i <= self.entries@.len(),
                entries@ == self.entries@.take(i as int),
            decreases self.entries@.len() - i,
        {
            entries.push((self.entries[i].0.clone(), self.entries[i].1));
            assert(entries@ =~= self.entries@.take(i + 1));
            i += 1;
        }
        assert(entries@ =~= self.entries@);
        Table { entries }
    }
}

/// Whether `key` is one of `keys`.
pub open spec fn lists(keys: Seq<String>, key: Seq<char>) -> bool {
    exists|i: int| 0 <= i < keys.len() && (#[trigger] keys[i])@ == key
}

/// Whether `key` is one of `keys`.
pub fn list_contains(keys: &Vec<String>, key: &str) -> (found: bool)
    ensures
        found == lists(keys@, key@),
{
    let mut i: usize = 0;
    while i < keys.len()
        invariant
            i <= keys@.len(),
            forall|j: int| 0 <= j < i ==> (#[trigger] keys@[j])@ != key@,
        decreases keys@.len() - i,
    {
        if same_text(keys[i].as_str(), key) {
            return true;
        }
        i += 1;
    }
    false
}

proof fn lemma_replaced<V>(before: Seq<(String, V)>, after: Seq<(String, V)>, i: int)
    requires
        keys_increase(before),
        0 <= i < before.len(),
        after.len() == before.len(),
        after[i].0 == before[i].0,
        forall|j: int| 0 <= j < before.len() && j != i ==> after[j] == before[j],
    ensures
        keys_increase(after),
        map_of(after) == map_of(before).insert(after[i].0@, after[i].1),
{
    assert forall|a: int, b: int|
        #![trigger after[a], after[b]]
        0 <= a < b < after.len() implies text_le(after[a].0@, after[b].0@) && after[a].0@
        != after[b].0@ by {
        assert(text_le(before[a].0@, before[b].0@));
    }
    let added = map_of(before).insert(after[i].0@, after[i].1);
    assert forall|key: Seq<char>| map_of(after).contains_key(key) == added.contains_key(key) by {
        if map_of(after).contains_key(key) {
            let j = choose|j: int| key_at(after, key, j);
            assert(key_at(before, key, j));
        }
        if added.contains_key(key) {
            if key == after[i].0@ {
                assert(key_at(after, key, i));
            } else {
                let j = choose|j: int| key_at(before, key, j);
                assert(key_at(after, key, j));
            }
        }
    }
    assert forall|key: Seq<char>| map_of(after).contains_key(key) implies map_of(after)[key]
        == added[key] by {
        let j = choose|j: int| key_at(after, key, j);
        map_of_entry(after, j);
        map_of_entry(before, j);
    }
    assert(map_of(after) =~= added);
}

proof fn lemma_inserted<V>(before: Seq<(String, V)>, after: Seq<(String, V)>, i: int)
    requires
        keys_increase(before),
        0 <= i <= before.len(),
        after == before.insert(i, after[i]),
        forall|j: int|
            #![trigger before[j]]
            0 <= j < before.len() ==> before[j].0@ != after[i].0@,
        forall|j: int| #![trigger before[j]] 0 <= j < i ==> text_le(before[j].0@, after[i].0@),
        forall|j: int|
            #![trigger before[j]]
            i <= j < before.len() ==> text_le(after[i].0@, before[j].0@),
    ensures
        keys_increase(after),
        map_of(after) == map_of(before).insert(after[i].0@, after[i].1),
{
    assert forall|a: int, b: int|
        #![trigger after[a], after[b]]
        0 <= a < b < after.len() implies text_le(after[a].0@, after[b].0@) && after[a].0@
        != after[b].0@ by {
        let from = |j: int| if j < i { j } else { j - 1 };
        if a != i && b != i {
            assert(after[a] == before[from(a)] && after[b] == before[from(b)]);
        } else if a == i {
            assert(after[b] == before[b - 1]);
        } else {
            assert(after[a] == before[a]);
        }
    }
    let added = map_of(before).insert(after[i].0@, after[i].1);
    assert forall|key: Seq<char>| map_of(after).contains_key(key) == added.contains_key(key) by {
        if map_of(after).contains_key(key) && key != after[i].0@ {
            let j = choose|j: int| key_at(after, key, j);
            let k = if j < i { j } else { j - 1 };
            assert(key_at(before, key, k));
        }
        if added.contains_key(key) {
            if key == after[i].0@ {
                assert(key_at(after, key, i));
            } else {
                let j = choose|j: int| key_at(before, key, j);
                let k = if j < i { j } else { j + 1 };
                assert(key_at(after, key, k));
            }
        }
    }
    assert forall|key: Seq<char>| map_of(after).contains_key(key) implies map_of(after)[key]
        == added[key] by {
        let j = choose|j: int| key_at(after, key, j);
        map_of_entry(after, j);
        if j != i {
            let k = if j < i { j } else { j - 1 };
            assert(after[j] == before[k]);
            map_of_entry(before, k);
        }
    }
    assert(map_of(after) =~= added);
}

proof fn lemma_removed<V>(before: Seq<(String, V)>, after: Seq<(String, V)>, i: int)
    requires
        keys_increase(before),
        0 <= i < before.len(),
        after == before.remove(i),
    ensures
        keys_increase(after),
        map_of(after) == map_of(before).remove(before[i].0@),
        map_of(before).contains_key(before[i].0@),
        map_of(before)[before[i].0@] == before[i].1,
{
    map_of_entry(before, i);
    assert forall|a: int, b: int|
        #![trigger after[a], after[b]]
        0 <= a < b < after.len() implies text_le(after[a].0@, after[b].0@) && after[a].0@
        != after[b].0@ by {
        let from = |j: int| if j < i { j } else { j + 1 };
        assert(after[a] == before[from(a)] && after[b] == before[from(b)]);
    }
    let rest = map_of(before).remove(before[i].0@);
    assert forall|key: Seq<char>| map_of(after).contains_key(key) == rest.contains_key(key) by {
        if map_of(after).contains_key(key) {
            let j = choose|j: int| key_at(after, key, j);
            let k = if j < i { j } else { j + 1 };
            assert(before[k] == after[j]);
            assert(key_at(before, key, k));
            assert(before[k].0@ != before[i].0@);
        }
        if rest.contains_key(key) {
            let j = choose|j: int| key_at(before, key, j);
            let k = if j < i { j } else { j - 1 };
            assert(key_at(after, key, k));
        }
    }
    assert forall|key: Seq<char>| map_of(after).contains_key(key) implies map_of(after)[key]
        == rest[key] by {
        let j = choose|j: int| key_at(after, key, j);
        map_of_entry(after, j);
        let k = if j < i { j } else { j + 1 };
        assert(before[k] == after[j]);
        map_of_entry(before, k);
    }
    assert(map_of(after) =~= rest);
}

} // verus!
