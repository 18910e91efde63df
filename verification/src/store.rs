//! The entity store: for one category, the mapping from index to record.
//!
//! A store never files a record under an index other than the record's own,
//! so an index occurs at most once.

use crate::records::TIndex;
use std::collections::HashMap;
use vstd::prelude::*;
use vstd::std_specs::iter::IteratorSpec;

verus! {

/// True when every record of `entries` is filed under its own index.
pub open spec fn keyed_by_index<T: TIndex>(entries: Map<u32, T::V>) -> bool {
    forall|k: u32| #[trigger] entries.contains_key(k) ==> T::index_of(entries[k]) == k
}

/// The entries that result from filing `records` one after another, each
/// under its own index: of two records with one index the later one stays.
pub open spec fn filed<T: TIndex>(records: Seq<T>) -> Map<u32, T::V>
    decreases records.len(),
{
    if records.len() == 0 {
        Map::empty()
    } else {
        filed::<T>(records.drop_last()).insert(T::index_of(records.last()@), records.last()@)
    }
}

/// True when `views` holds each record of `entries` exactly once and nothing
/// else, in whatever order.
pub open spec fn lists_exactly<T: TIndex>(views: Seq<T::V>, entries: Map<u32, T::V>) -> bool {
    &&& forall|i: int|
        0 <= i < views.len() ==> entries.contains_key(#[trigger] T::index_of(views[i]))
            && entries[T::index_of(views[i])] == views[i]
    &&& forall|k: u32|
        entries.contains_key(k) ==> exists|i: int|
            0 <= i < views.len() && #[trigger] views[i] == entries[k]
    &&& forall|i: int, j: int|
        0 <= i < j < views.len() ==> T::index_of(views[i]) != T::index_of(views[j])
}

/// The views of `records`, in the same order.
pub open spec fn views_of<T: TIndex>(records: Seq<&T>) -> Seq<T::V> {
    Seq::new(records.len(), |i: int| records[i]@)
}

/// The records of one category, each filed under its index.
#[derive(Debug)]
pub struct EntityStore<T: TIndex> {
    map: HashMap<u32, T>,
}

impl<T: TIndex> View for EntityStore<T> {
    type V = Map<u32, T::V>;

    closed spec fn view(&self) -> Map<u32, T::V> {
        self.map@.map_values(|record: T| record@)
    }
}

impl<T: TIndex> EntityStore<T> {
    /// Every record is filed under its own index.
    pub closed spec fn wf(&self) -> bool {
        forall|k: u32| #[trigger] self.map@.contains_key(k) ==> T::index_of(self.map@[k]@) == k
    }

    /// In a well-formed store the entries are keyed by index.
    pub proof fn lemma_wf_keyed(&self)
        requires
            self.wf(),
        ensures
            keyed_by_index::<T>(self@),
    {
    }

    /// A store without records.
    pub fn new() -> (store: Self)
        ensures
            store.wf(),
            store@ == Map::<u32, T::V>::empty(),
    {
        let store = EntityStore { map: HashMap::new() };
        assert(store@ =~= Map::<u32, T::V>::empty());
        store
    }

    /// Files `record` under its index, replacing the record that was there.
    pub fn upsert(&mut self, record: T)
        requires
            old(self).wf(),
        ensures
            final(self).wf(),
            final(self)@ == old(self)@.insert(T::index_of(record@), record@),
    {
        broadcast use vstd::std_specs::hash::group_hash_axioms;
        let index = record.index();
        let _ = self.map.insert(index, record);
        assert(self@ =~= old(self)@.insert(index, record@));
    }

    /// Deletes the record filed under `index`, if there is one, and hands it
    /// back.
    pub fn remove(&mut self, index: u32) -> (removed: Option<T>)
        requires
            old(self).wf(),
        ensures
            final(self).wf(),
            final(self)@ == old(self)@.remove(index),
            match removed {
                Some(record) => old(self)@.contains_key(index) && record@ == old(self)@[index],
                None => !old(self)@.contains_key(index),
            },
    {
        broadcast use vstd::std_specs::hash::group_hash_axioms;
        let removed = self.map.remove(&index);
        assert(self@ =~= old(self)@.remove(index));
        removed
    }

    /// The record filed under `index`, if there is one.
    pub fn get(&self, index: u32) -> (found: Option<&T>)
        ensures
            match found {
                Some(record) => self@.contains_key(index) && record@ == self@[index],
                None => !self@.contains_key(index),
            },
    {
        broadcast use vstd::std_specs::hash::group_hash_axioms;
        self.map.get(&index)
    }

    /// True when a record is filed under `index`.
    pub fn contains(&self, index: u32) -> (present: bool)
        ensures
            present == self@.contains_key(index),
    {
        broadcast use vstd::std_specs::hash::group_hash_axioms;
        self.map.contains_key(&index)
    }

    /// The number of records.
    pub fn len(&self) -> (count: usize)
        ensures
            count == self@.len(),
            self@.dom().finite(),
    {
        broadcast use vstd::std_specs::hash::group_hash_axioms;
        assert(self@.dom() =~= self.map@.dom());
        self.map.len()
    }

    /// True when the store holds no record.
    pub fn is_empty(&self) -> (empty: bool)
        ensures
            empty == (forall|k: u32| !self@.contains_key(k)),
    {
        broadcast use vstd::std_specs::hash::group_hash_axioms;
        let empty = self.map.is_empty();
        proof {
            if empty {
                assert forall|k: u32| !self@.contains_key(k) by {
                    assert(!self.map@.dom().contains(k));
                }
            } else {
                let k = choose|k: u32| self.map@.dom().contains(k);
                assert(self@.contains_key(k));
            }
        }
        empty
    }

    /// The indices under which records are filed, each once, in no fixed
    /// order.
    pub fn indices(&self) -> (indices: Vec<u32>)
        ensures
            indices@.no_duplicates(),
            forall|k: u32| indices@.contains(k) <==> self@.contains_key(k),
    {
        broadcast use vstd::std_specs::hash::group_hash_axioms;
        let ghost keys = self.map.keys().remaining();
        let ghost mut seen: int = 0;
        let mut indices: Vec<u32> = Vec::new();
        for key in it: self.map.keys()
            invariant
                it.seq() == keys,
                seen == it.index(),
                indices@.len() == seen,
                forall|j: int| 0 <= j < seen ==> indices@[j] == *keys[j],
        {
            indices.push(*key);
            proof {
                seen = seen + 1;
            }
        }
        proof {
            assert(indices@ =~= keys.unref());
            assert forall|i: int, j: int|
                0 <= i < indices@.len() && 0 <= j < indices@.len() && i != j implies indices@[i]
                != indices@[j] by {
                assert(keys[i] != keys[j]);
            }
            assert forall|k: u32| indices@.contains(k) <==> self@.contains_key(k) by {
                assert(indices@.to_set().contains(k) <==> indices@.contains(k));
            }
        }
        indices
    }

    /// The records of the store, each once, in no fixed order.
    pub fn list(&self) -> (records: Vec<&T>)
        requires
            self.wf(),
        ensures
            lists_exactly::<T>(views_of::<T>(records@), self@),
    {
        let indices = self.indices();
        let mut records: Vec<&T> = Vec::new();
        let mut i: usize = 0;
        while i < indices.len()
            invariant
                i <= indices.len(),
                records@.len() == i,
                self.wf(),
                indices@.no_duplicates(),
                forall|k: u32| indices@.contains(k) <==> self@.contains_key(k),
                forall|j: int|
                    0 <= j < i ==> T::index_of(#[trigger] records@[j]@) == indices@[j]
                        && self@.contains_key(indices@[j]) && self@[indices@[j]] == records@[j]@,
            decreases indices.len() - i,
        {
            let index = indices[i];
            assert(indices@.contains(index));
            assert(self.map@.contains_key(index));
            match self.get(index) {
                Some(record) => {
                    records.push(record);
                },
                None => {},
            }
            i = i + 1;
        }
        proof {
            let views = views_of::<T>(records@);
            assert forall|k: u32| self@.contains_key(k) implies exists|i: int|
                0 <= i < views.len() && #[trigger] views[i] == self@[k] by {
                assert(indices@.contains(k));
                let j = choose|j: int| 0 <= j < indices@.len() && indices@[j] == k;
                assert(views[j] == self@[k]);
            }
            assert forall|i: int| 0 <= i < views.len() implies self@.contains_key(
                #[trigger] T::index_of(views[i]),
            ) && self@[T::index_of(views[i])] == views[i] by {
                assert(T::index_of(records@[i]@) == indices@[i]);
            }
            assert forall|i: int, j: int| 0 <= i < j < views.len() implies T::index_of(views[i])
                != T::index_of(views[j]) by {
                assert(T::index_of(records@[i]@) == indices@[i]);
                assert(T::index_of(records@[j]@) == indices@[j]);
            }
        }
        records
    }

    /// The index of some record other than the one filed under `skip`; `None`
    /// when there is no other record. Which one is picked is not fixed.
    pub fn any_index_except(&self, skip: u32) -> (picked: Option<u32>)
        ensures
            match picked {
                Some(index) => self@.contains_key(index) && index != skip,
                None => forall|k: u32| self@.contains_key(k) ==> k == skip,
            },
    {
        broadcast use vstd::std_specs::hash::group_hash_axioms;
        let ghost keys = self.map.keys().remaining();
        let ghost mut seen: int = 0;
        for key in it: self.map.keys()
            invariant
                it.seq() == keys,
                seen == it.index(),
                forall|j: int| 0 <= j < seen ==> *keys[j] == skip,
                keys.unref().to_set() == self.map@.dom(),
        {
            assert(keys.unref()[seen] == *key);
            if *key != skip {
                assert(keys.unref().to_set().contains(*key));
                return Some(*key);
            }
            proof {
                seen = seen + 1;
            }
        }
        proof {
            assert forall|k: u32| self@.contains_key(k) implies k == skip by {
                assert(keys.unref().to_set().contains(k));
                let j = choose|j: int| 0 <= j < keys.unref().len() && keys.unref()[j] == k;
                assert(*keys[j] == k);
            }
        }
        None
    }
}

impl<T: TIndex> Default for EntityStore<T> {
    fn default() -> (store: Self)
        ensures
            store.wf(),
            store@ == Map::<u32, T::V>::empty(),
    {
        EntityStore::new()
    }
}

/// Files the records of a full listing: the store of `elements`, where of two
/// records with one index the later one stays.
pub fn to_map<T: TIndex>(elements: Vec<T>) -> (store: EntityStore<T>)
    ensures
        store.wf(),
        store@ == filed::<T>(elements@),
{
    let mut store: EntityStore<T> = EntityStore::new();
    let ghost mut seen: int = 0;
    for element in it: elements.into_iter()
        invariant
            it.seq() == elements@,
            seen == it.index(),
            store.wf(),
            store@ == filed::<T>(elements@.take(seen)),
    {
        proof {
            assert(elements@.take(seen + 1).drop_last() =~= elements@.take(seen));
            seen = seen + 1;
        }
        store.upsert(element);
    }
    assert(elements@.take(seen) =~= elements@);
    store
}

/// Filing a record twice leaves the entries as filing it once does.
pub proof fn lemma_upsert_idempotent<T: TIndex>(entries: Map<u32, T::V>, record: T::V)
    ensures
        entries.insert(T::index_of(record), record).insert(T::index_of(record), record)
            == entries.insert(T::index_of(record), record),
{
    let once = entries.insert(T::index_of(record), record);
    assert(once.insert(T::index_of(record), record) =~= once);
}

/// Removing an index under which nothing is filed leaves the entries as
/// they were.
pub proof fn lemma_remove_absent<V>(entries: Map<u32, V>, index: u32)
    requires
        !entries.contains_key(index),
    ensures
        entries.remove(index) == entries,
{
    assert(entries.remove(index) =~= entries);
}

/// Filing a record under its index keeps the entries keyed by index, and so
/// does removing one.
pub proof fn lemma_keyed_preserved<T: TIndex>(entries: Map<u32, T::V>, record: T::V, index: u32)
    requires
        keyed_by_index::<T>(entries),
    ensures
        keyed_by_index::<T>(entries.insert(T::index_of(record), record)),
        keyed_by_index::<T>(entries.remove(index)),
{
}

} // verus!
