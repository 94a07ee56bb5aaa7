//! Tables of serialized records, the common part of the in-memory stores.

use crate::outside::{expose, seal, SecretBytes};
use vstd::prelude::*;

verus! {

/// What the records of a table are filed under. Two keys are the same if and
/// only if their views are.
pub trait TableKey: View + Sized {
    /// Whether both file the same record.
    fn same_key(&self, other: &Self) -> (same: bool)
        ensures
            same == (self@ == other@),
    ;

    /// A key that files the same record.
    fn copy_key(&self) -> (copy: Self)
        ensures
            copy@ == self@,
    ;
}

/// A copy of a record.
pub fn copy_bytes(bytes: &Vec<u8>) -> (copy: Vec<u8>)
    ensures
        copy@ == bytes@,
{
    let copy = bytes.clone();
    assert(copy@ =~= bytes@);
    copy
}

/// Whether two byte strings are equal.
pub fn same_bytes(a: &Vec<u8>, b: &Vec<u8>) -> (same: bool)
    ensures
        same == (a@ == b@),
{
    if a.len() != b.len() {
        return false;
    }
    let mut i: usize = 0;
    while i < a.len()
        invariant
            i <= a@.len(),
            a@.len() == b@.len(),
            forall|j: int| 0 <= j < i ==> a@[j] == b@[j],
        decreases a@.len() - i,
    {
        if a[i] != b[i] {
            return false;
        }
        i = i + 1;
    }
    assert(a@ =~= b@);
    true
}

/// Records by key. No key occurs twice. Many records hold private keys, so each is
/// overwritten when it leaves the table or the table is dropped.
pub struct RecordTable<K: TableKey> {
    entries: Vec<(K, SecretBytes)>,
}

/// `i` is where `key` stands in the entries.
spec fn stands_at<K: TableKey>(entries: Seq<(K, SecretBytes)>, key: K::V, i: int) -> bool {
    0 <= i < entries.len() && entries[i].0@ == key
}

/// No key occurs twice.
spec fn keys_are_distinct<K: TableKey>(entries: Seq<(K, SecretBytes)>) -> bool {
    forall|i: int, j: int|
        0 <= i < j < entries.len() ==> (#[trigger] entries[i]).0@ != (#[trigger] entries[j]).0@
}

/// The records that the entries hold.
spec fn records_of<K: TableKey>(entries: Seq<(K, SecretBytes)>) -> Map<K::V, Seq<u8>> {
    Map::new(
        |key: K::V| exists|i: int| stands_at(entries, key, i),
        |key: K::V| entries[choose|i: int| stands_at(entries, key, i)].1@,
    )
}

/// The record of a key is the one that stands with it.
proof fn lemma_record_at<K: TableKey>(entries: Seq<(K, SecretBytes)>, i: int)
    requires
        keys_are_distinct(entries),
        0 <= i < entries.len(),
    ensures
        records_of(entries).dom().contains(entries[i].0@),
        records_of(entries)[entries[i].0@] == entries[i].1@,
{
    let key = entries[i].0@;
    assert(stands_at(entries, key, i));
    let j = choose|j: int| stands_at(entries, key, j);
    assert(i == j) by {
        if i < j {
            assert(entries[i].0@ != entries[j].0@);
        } else if j < i {
            assert(entries[j].0@ != entries[i].0@);
        }
    }
}

/// A key that stands nowhere has no record.
proof fn lemma_no_record<K: TableKey>(entries: Seq<(K, SecretBytes)>, key: K::V)
    requires
        forall|i: int| 0 <= i < entries.len() ==> (#[trigger] entries[i]).0@ != key,
    ensures
        !records_of(entries).dom().contains(key),
{
}

/// Replacing the record at `i` changes the record of its key alone.
proof fn lemma_replaced<K: TableKey>(
    entries: Seq<(K, SecretBytes)>,
    i: int,
    replacement: (K, SecretBytes),
)
    requires
        keys_are_distinct(entries),
        0 <= i < entries.len(),
        replacement.0@ == entries[i].0@,
    ensures
        keys_are_distinct(entries.update(i, replacement)),
        records_of(entries.update(i, replacement)) == records_of(entries).insert(
            replacement.0@,
            replacement.1@,
        ),
{
    let after = entries.update(i, replacement);
    assert forall|a: int, b: int| 0 <= a < b < after.len() implies (#[trigger] after[a]).0@ != (
    #[trigger] after[b]).0@ by {
        assert(entries[a].0@ != entries[b].0@);
    }
    let expected = records_of(entries).insert(replacement.0@, replacement.1@);
    assert forall|key: K::V| #[trigger]
        records_of(after).dom().contains(key) == expected.dom().contains(key) && (expected.dom().contains(
            key,
        ) ==> records_of(after)[key] == expected[key]) by {
        if exists|j: int| stands_at(entries, key, j) {
            let j = choose|j: int| stands_at(entries, key, j);
            lemma_record_at(entries, j);
            lemma_record_at(after, j);
            if j != i {
                assert(after[j] == entries[j]);
                if j < i {
                    assert(entries[j].0@ != entries[i].0@);
                } else {
                    assert(entries[i].0@ != entries[j].0@);
                }
            }
        } else {
            assert forall|j: int| 0 <= j < after.len() implies (#[trigger] after[j]).0@ != key by {
                assert(!stands_at(entries, key, j));
            }
            lemma_no_record(after, key);
            assert(!stands_at(entries, key, i));
        }
    }
    assert(records_of(after) =~= expected);
}

/// Appending a new key adds its record alone.
proof fn lemma_appended<K: TableKey>(entries: Seq<(K, SecretBytes)>, entry: (K, SecretBytes))
    requires
        keys_are_distinct(entries),
        forall|i: int| 0 <= i < entries.len() ==> (#[trigger] entries[i]).0@ != entry.0@,
    ensures
        keys_are_distinct(entries.push(entry)),
        records_of(entries.push(entry)) == records_of(entries).insert(entry.0@, entry.1@),
{
    let after = entries.push(entry);
    assert forall|a: int, b: int| 0 <= a < b < after.len() implies (#[trigger] after[a]).0@ != (
    #[trigger] after[b]).0@ by {
        if b < entries.len() {
            assert(entries[a].0@ != entries[b].0@);
        } else {
            assert(entries[a].0@ != entry.0@);
        }
    }
    let expected = records_of(entries).insert(entry.0@, entry.1@);
    lemma_record_at(after, entries.len() as int);
    assert forall|key: K::V| #[trigger]
        records_of(after).dom().contains(key) == expected.dom().contains(key) && (expected.dom().contains(
            key,
        ) ==> records_of(after)[key] == expected[key]) by {
        if key != entry.0@ {
            if exists|j: int| stands_at(entries, key, j) {
                let j = choose|j: int| stands_at(entries, key, j);
                lemma_record_at(entries, j);
                lemma_record_at(after, j);
                assert(after[j] == entries[j]);
            } else {
                assert forall|j: int| 0 <= j < after.len() implies (#[trigger] after[j]).0@
                    != key by {
                    assert(!stands_at(entries, key, j));
                }
                lemma_no_record(after, key);
            }
        }
    }
    assert(records_of(after) =~= expected);
}

/// Taking the entry at `i` out removes the record of its key alone.
proof fn lemma_removed<K: TableKey>(entries: Seq<(K, SecretBytes)>, i: int)
    requires
        keys_are_distinct(entries),
        0 <= i < entries.len(),
    ensures
        keys_are_distinct(entries.remove(i)),
        records_of(entries.remove(i)) == records_of(entries).remove(entries[i].0@),
{
    let after = entries.remove(i);
    let before_of = |j: int| if j < i { j } else { j + 1 };
    assert forall|j: int| 0 <= j < after.len() implies #[trigger] after[j] == entries[before_of(
        j,
    )] by {}
    assert forall|a: int, b: int| 0 <= a < b < after.len() implies (#[trigger] after[a]).0@ != (
    #[trigger] after[b]).0@ by {
        assert(entries[before_of(a)].0@ != entries[before_of(b)].0@);
    }
    let expected = records_of(entries).remove(entries[i].0@);
    assert forall|key: K::V| #[trigger]
        records_of(after).dom().contains(key) == expected.dom().contains(key) && (expected.dom().contains(
            key,
        ) ==> records_of(after)[key] == expected[key]) by {
        if key == entries[i].0@ {
            assert forall|j: int| 0 <= j < after.len() implies (#[trigger] after[j]).0@ != key by {
                let k = before_of(j);
                if k < i {
                    assert(entries[k].0@ != entries[i].0@);
                } else {
                    assert(entries[i].0@ != entries[k].0@);
                }
            }
            lemma_no_record(after, key);
        } else if exists|j: int| stands_at(entries, key, j) {
            let j = choose|j: int| stands_at(entries, key, j);
            let k = if j < i { j } else { j - 1 };
            lemma_record_at(entries, j);
            lemma_record_at(after, k);
            assert(after[k] == entries[j]);
        } else {
            assert forall|j: int| 0 <= j < after.len() implies (#[trigger] after[j]).0@ != key by {
                assert(!stands_at(entries, key, before_of(j)));
            }
            lemma_no_record(after, key);
        }
    }
    assert(records_of(after) =~= expected);
}

impl<K: TableKey> View for RecordTable<K> {
    type V = Map<K::V, Seq<u8>>;

    closed spec fn view(&self) -> Map<K::V, Seq<u8>> {
        records_of(self.entries@)
    }
}

impl<K: TableKey> RecordTable<K> {
    #[verifier::type_invariant]
    spec fn inv(&self) -> bool {
        keys_are_distinct(self.entries@)
    }

    /// A table without records.
    pub fn new() -> (table: Self)
        ensures
            table@ == Map::<K::V, Seq<u8>>::empty(),
    {
        let table = RecordTable { entries: Vec::new() };
        assert(table@ =~= Map::<K::V, Seq<u8>>::empty());
        table
    }

    /// Where a key stands.
    fn position(entries: &Vec<(K, SecretBytes)>, key: &K) -> (found: Option<usize>)
        ensures
            match found {
                Some(i) => i < entries@.len() && entries@[i as int].0@ == key@,
                None => forall|i: int|
                    0 <= i < entries@.len() ==> (#[trigger] entries@[i]).0@ != key@,
            },
    {
        let mut i: usize = 0;
        while i < entries.len()
            invariant
                i <= entries@.len(),
                forall|j: int| 0 <= j < i ==> (#[trigger] entries@[j]).0@ != key@,
            decreases entries@.len() - i,
        {
            if entries[i].0.same_key(key) {
                return Some(i);
            }
            i = i + 1;
        }
        None
    }

    /// The record of a key.
    pub fn get(&self, key: &K) -> (record: Option<Vec<u8>>)
        ensures
            match record {
                Some(bytes) => self@.dom().contains(key@) && self@[key@] == bytes@,
                None => !self@.dom().contains(key@),
            },
    {
        proof {
            use_type_invariant(self);
        }
        match Self::position(&self.entries, key) {
            Some(i) => {
                proof {
                    lemma_record_at(self.entries@, i as int);
                }
                Some(expose(&self.entries[i].1))
            },
            None => {
                proof {
                    lemma_no_record(self.entries@, key@);
                }
                None
            },
        }
    }

    /// Files a record, in place of the one that the key had.
    pub fn insert(&mut self, key: &K, record: Vec<u8>)
        ensures
            final(self)@ == old(self)@.insert(key@, record@),
    {
        proof {
            use_type_invariant(&*self);
        }
        let mut entries: Vec<(K, SecretBytes)> = Vec::new();
        std::mem::swap(&mut self.entries, &mut entries);
        let ghost before = entries@;
        let entry = (key.copy_key(), seal(record));
        match Self::position(&entries, key) {
            Some(i) => {
                proof {
                    lemma_replaced(before, i as int, entry);
                }
                entries[i] = entry;
            },
            None => {
                proof {
                    lemma_appended(before, entry);
                }
                entries.push(entry);
            },
        }
        self.entries = entries;
    }

    /// Takes the record of a key out. Whether there was one.
    pub fn remove(&mut self, key: &K) -> (removed: bool)
        ensures
            removed == old(self)@.dom().contains(key@),
            final(self)@ == old(self)@.remove(key@),
    {
        proof {
            use_type_invariant(&*self);
        }
        let mut entries: Vec<(K, SecretBytes)> = Vec::new();
        std::mem::swap(&mut self.entries, &mut entries);
        let ghost before = entries@;
        let removed = match Self::position(&entries, key) {
            Some(i) => {
                proof {
                    lemma_record_at(before, i as int);
                    lemma_removed(before, i as int);
                }
                let _ = entries.remove(i);
                true
            },
            None => {
                proof {
                    lemma_no_record(before, key@);
                    assert(records_of(before).remove(key@) =~= records_of(before));
                }
                false
            },
        };
        self.entries = entries;
        removed
    }
}

impl TableKey for u32 {
    fn same_key(&self, other: &Self) -> (same: bool) {
        *self == *other
    }

    fn copy_key(&self) -> (copy: Self) {
        *self
    }
}

} // verus!
