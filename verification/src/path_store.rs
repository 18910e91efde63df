//! A store for records that are known by an object path.
//!
//! The records are kept in the order in which their paths were first seen,
//! and no path occurs twice.

use vstd::prelude::*;

verus! {

/// A record that is known by an object path.
pub trait TPath: View + Sized {
    /// The path of a record with view `v`.
    spec fn path_of(v: Self::V) -> Seq<char>;

    fn path(&self) -> (path: String)
        ensures
            path@ == Self::path_of(self@),
    ;

    /// True when the record is known by `path`.
    fn has_path(&self, path: &String) -> (same: bool)
        ensures
            same == (Self::path_of(self@) == path@),
    ;
}

/// True when the record at place `i` of `items` is known by `path`.
pub open spec fn held_at<T: TPath>(items: Seq<T>, path: Seq<char>, i: int) -> bool {
    0 <= i < items.len() && T::path_of(items[i]@) == path
}

/// True when no two records of `items` are known by one path.
pub open spec fn distinct_paths<T: TPath>(items: Seq<T>) -> bool {
    forall|i: int, j: int|
        0 <= i < j < items.len() ==> T::path_of(#[trigger] items[i]@) != T::path_of(
            #[trigger] items[j]@,
        )
}

/// The mapping from path to record that `items` stands for.
pub open spec fn by_path<T: TPath>(items: Seq<T>) -> Map<Seq<char>, T::V> {
    Map::new(
        |path: Seq<char>| exists|i: int| held_at::<T>(items, path, i),
        |path: Seq<char>| items[choose|i: int| held_at::<T>(items, path, i)]@,
    )
}

/// The mapping that results from filing `records` one after another, each
/// under its path: of two records with one path the later one stays.
pub open spec fn filed_by_path<T: TPath>(records: Seq<T>) -> Map<Seq<char>, T::V>
    decreases records.len(),
{
    if records.len() == 0 {
        Map::empty()
    } else {
        filed_by_path::<T>(records.drop_last()).insert(
            T::path_of(records.last()@),
            records.last()@,
        )
    }
}

/// With distinct paths, the record at each place is the one that the mapping
/// holds under its path.
pub proof fn lemma_by_path_at<T: TPath>(items: Seq<T>, i: int)
    requires
        distinct_paths::<T>(items),
        0 <= i < items.len(),
    ensures
        by_path::<T>(items).contains_key(T::path_of(items[i]@)),
        by_path::<T>(items)[T::path_of(items[i]@)] == items[i]@,
{
    let path = T::path_of(items[i]@);
    assert(held_at::<T>(items, path, i));
    let chosen = choose|k: int| held_at::<T>(items, path, k);
    assert(held_at::<T>(items, path, chosen));
    if chosen < i {
        assert(T::path_of(items[chosen]@) != T::path_of(items[i]@));
    } else if i < chosen {
        assert(T::path_of(items[i]@) != T::path_of(items[chosen]@));
    }
}

/// The records of one kind, each known by its path.
#[derive(Debug)]
pub struct PathStore<T: TPath> {
    items: Vec<T>,
}

impl<T: TPath> View for PathStore<T> {
    type V = Map<Seq<char>, T::V>;

    closed spec fn view(&self) -> Map<Seq<char>, T::V> {
        by_path::<T>(self.items@)
    }
}

impl<T: TPath> PathStore<T> {
    /// No path occurs twice.
    pub closed spec fn wf(&self) -> bool {
        distinct_paths::<T>(self.items@)
    }

    /// The views of the records in the order in which they are kept.
    pub closed spec fn in_order(&self) -> Seq<T::V> {
        Seq::new(self.items@.len(), |i: int| self.items@[i]@)
    }

    /// Every record is kept under its own path.
    pub proof fn lemma_keyed_by_path(&self)
        ensures
            forall|p: Seq<char>| #[trigger] self@.contains_key(p) ==> T::path_of(self@[p]) == p,
    {
        assert forall|p: Seq<char>| #[trigger] self@.contains_key(p) implies T::path_of(self@[p])
            == p by {
            let k = choose|k: int| held_at::<T>(self.items@, p, k);
            assert(held_at::<T>(self.items@, p, k));
        }
    }

    /// A store without records.
    pub fn new() -> (store: Self)
        ensures
            store.wf(),
            store@ == Map::<Seq<char>, T::V>::empty(),
    {
        let store = PathStore { items: Vec::new() };
        assert(store@ =~= Map::<Seq<char>, T::V>::empty());
        store
    }

    /// The place of the record known by `path`, if there is one.
    fn find(&self, path: &String) -> (place: Option<usize>)
        ensures
            match place {
                Some(i) => held_at::<T>(self.items@, path@, i as int),
                None => forall|i: int| !held_at::<T>(self.items@, path@, i),
            },
    {
        let mut i: usize = 0;
        while i < self.items.len()
            invariant
                i <= self.items.len(),
                forall|k: int| 0 <= k < i ==> !held_at::<T>(self.items@, path@, k),
            decreases self.items.len() - i,
        {
            if self.items[i].has_path(path) {
                return Some(i);
            }
            i = i + 1;
        }
        None
    }

    /// Files `record` under its path, replacing the record that was there.
    pub fn upsert(&mut self, record: T)
        requires
            old(self).wf(),
        ensures
            final(self).wf(),
            final(self)@ == old(self)@.insert(T::path_of(record@), record@),
    {
        let path = record.path();
        let ghost before = self.items@;
        match self.find(&path) {
            Some(place) => {
                self.items[place] = record;
                proof {
                    let after = self.items@;
                    assert(after =~= before.update(place as int, record));
                    assert(distinct_paths::<T>(after)) by {
                        assert forall|i: int, j: int| 0 <= i < j < after.len() implies T::path_of(
                            #[trigger] after[i]@,
                        ) != T::path_of(#[trigger] after[j]@) by {
                            assert(T::path_of(after[i]@) == T::path_of(before[i]@));
                            assert(T::path_of(after[j]@) == T::path_of(before[j]@));
                        }
                    }
                    assert forall|p: Seq<char>|
                        by_path::<T>(after).contains_key(p) == #[trigger] by_path::<T>(
                            before,
                        ).insert(path@, record@).contains_key(p) by {
                        if by_path::<T>(after).contains_key(p) {
                            let k = choose|k: int| held_at::<T>(after, p, k);
                            assert(held_at::<T>(before, p, k));
                        }
                        if by_path::<T>(before).contains_key(p) {
                            let k = choose|k: int| held_at::<T>(before, p, k);
                            assert(held_at::<T>(after, p, k));
                        }
                        assert(held_at::<T>(after, path@, place as int));
                    }
                    assert forall|p: Seq<char>| by_path::<T>(after).contains_key(p) implies (
                    #[trigger] by_path::<T>(after)[p]) == by_path::<T>(before).insert(
                        path@,
                        record@,
                    )[p] by {
                        let k = choose|k: int| held_at::<T>(after, p, k);
                        lemma_by_path_at::<T>(after, k);
                        if p != path@ {
                            assert(held_at::<T>(before, p, k));
                            lemma_by_path_at::<T>(before, k);
                        }
                    }
                    assert(by_path::<T>(after) =~= by_path::<T>(before).insert(path@, record@));
                }
            },
            None => {
                self.items.push(record);
                proof {
                    let after = self.items@;
                    assert(after =~= before.push(record));
                    assert(distinct_paths::<T>(after)) by {
                        assert forall|i: int, j: int| 0 <= i < j < after.len() implies T::path_of(
                            #[trigger] after[i]@,
                        ) != T::path_of(#[trigger] after[j]@) by {
                            if j == before.len() {
                                assert(!held_at::<T>(before, path@, i));
                            }
                        }
                    }
                    assert forall|p: Seq<char>|
                        by_path::<T>(after).contains_key(p) == #[trigger] by_path::<T>(
                            before,
                        ).insert(path@, record@).contains_key(p) by {
                        if by_path::<T>(after).contains_key(p) {
                            let k = choose|k: int| held_at::<T>(after, p, k);
                            if k < before.len() {
                                assert(held_at::<T>(before, p, k));
                            }
                        }
                        if by_path::<T>(before).contains_key(p) {
                            let k = choose|k: int| held_at::<T>(before, p, k);
                            assert(held_at::<T>(after, p, k));
                        }
                        assert(held_at::<T>(after, path@, before.len() as int));
                    }
                    assert forall|p: Seq<char>| by_path::<T>(after).contains_key(p) implies (
                    #[trigger] by_path::<T>(after)[p]) == by_path::<T>(before).insert(
                        path@,
                        record@,
                    )[p] by {
                        let k = choose|k: int| held_at::<T>(after, p, k);
                        lemma_by_path_at::<T>(after, k);
                        if p != path@ {
                            assert(held_at::<T>(before, p, k));
                            lemma_by_path_at::<T>(before, k);
                        }
                    }
                    assert(by_path::<T>(after) =~= by_path::<T>(before).insert(path@, record@));
                }
            },
        }
    }

    /// Deletes the record known by `path`, if there is one, and hands it
    /// back.
    pub fn remove(&mut self, path: &String) -> (removed: Option<T>)
        requires
            old(self).wf(),
        ensures
            final(self).wf(),
            final(self)@ == old(self)@.remove(path@),
            match removed {
                Some(record) => old(self)@.contains_key(path@) && record@ == old(self)@[path@],
                None => !old(self)@.contains_key(path@),
            },
    {
        let ghost before = self.items@;
        match self.find(path) {
            Some(place) => {
                proof {
                    lemma_by_path_at::<T>(before, place as int);
                }
                let record = self.items.remove(place);
                proof {
                    let after = self.items@;
                    assert(after =~= before.remove(place as int));
                    assert(distinct_paths::<T>(after)) by {
                        assert forall|i: int, j: int| 0 <= i < j < after.len() implies T::path_of(
                            #[trigger] after[i]@,
                        ) != T::path_of(#[trigger] after[j]@) by {
                            let bi = if i < place { i } else { i + 1 };
                            let bj = if j < place { j } else { j + 1 };
                            assert(after[i] == before[bi]);
                            assert(after[j] == before[bj]);
                            assert(T::path_of(before[bi]@) != T::path_of(before[bj]@));
                        }
                    }
                    assert forall|p: Seq<char>|
                        by_path::<T>(after).contains_key(p) == #[trigger] by_path::<T>(
                            before,
                        ).remove(path@).contains_key(p) by {
                        if by_path::<T>(after).contains_key(p) {
                            let k = choose|k: int| held_at::<T>(after, p, k);
                            let bk = if k < place { k } else { k + 1 };
                            assert(after[k] == before[bk]);
                            assert(held_at::<T>(before, p, bk));
                            let gone = place as int;
                            if bk < gone {
                                assert(T::path_of(before[bk]@) != T::path_of(before[gone]@));
                            } else {
                                assert(T::path_of(before[gone]@) != T::path_of(before[bk]@));
                            }
                        }
                        if by_path::<T>(before).contains_key(p) && p != path@ {
                            let k = choose|k: int| held_at::<T>(before, p, k);
                            let ak = if k < place { k } else { k - 1 };
                            assert(after[ak] == before[k]);
                            assert(held_at::<T>(after, p, ak));
                        }
                    }
                    assert forall|p: Seq<char>| by_path::<T>(after).contains_key(p) implies (
                    #[trigger] by_path::<T>(after)[p]) == by_path::<T>(before).remove(path@)[p] by {
                        let k = choose|k: int| held_at::<T>(after, p, k);
                        lemma_by_path_at::<T>(after, k);
                        let bk = if k < place { k } else { k + 1 };
                        assert(after[k] == before[bk]);
                        lemma_by_path_at::<T>(before, bk);
                    }
                    assert(by_path::<T>(after) =~= by_path::<T>(before).remove(path@));
                }
                Some(record)
            },
            None => {
                proof {
                    assert(!by_path::<T>(before).contains_key(path@));
                    assert(by_path::<T>(before).remove(path@) =~= by_path::<T>(before));
                }
                None
            },
        }
    }

    /// The record known by `path`, if there is one.
    pub fn get(&self, path: &String) -> (found: Option<&T>)
        requires
            self.wf(),
        ensures
            match found {
                Some(record) => self@.contains_key(path@) && record@ == self@[path@],
                None => !self@.contains_key(path@),
            },
    {
        match self.find(path) {
            Some(place) => {
                proof {
                    lemma_by_path_at::<T>(self.items@, place as int);
                }
                Some(&self.items[place])
            },
            None => None,
        }
    }

    /// True when a record is known by `path`.
    pub fn contains(&self, path: &String) -> (present: bool)
        ensures
            present == self@.contains_key(path@),
    {
        self.find(path).is_some()
    }

    /// The number of records.
    pub fn len(&self) -> (count: usize)
        ensures
            count == self.in_order().len(),
    {
        self.items.len()
    }

    /// True when the store holds no record.
    pub fn is_empty(&self) -> (empty: bool)
        ensures
            empty == (self.in_order().len() == 0),
    {
        self.items.len() == 0
    }

    /// The records in the order in which their paths were first seen.
    pub fn records(&self) -> (records: &Vec<T>)
        ensures
            records@.len() == self.in_order().len(),
            forall|i: int| 0 <= i < records@.len() ==> records@[i]@ == self.in_order()[i],
    {
        &self.items
    }

    /// In a well-formed store, the records in order are exactly those of the
    /// mapping, each once.
    pub proof fn lemma_in_order_is_view(&self)
        requires
            self.wf(),
        ensures
            forall|i: int|
                0 <= i < self.in_order().len() ==> self@.contains_key(
                    #[trigger] T::path_of(self.in_order()[i]),
                ) && self@[T::path_of(self.in_order()[i])] == self.in_order()[i],
            forall|p: Seq<char>|
                self@.contains_key(p) ==> exists|i: int|
                    0 <= i < self.in_order().len() && #[trigger] T::path_of(self.in_order()[i])
                        == p,
            forall|i: int, j: int|
                0 <= i < j < self.in_order().len() ==> T::path_of(self.in_order()[i])
                    != T::path_of(self.in_order()[j]),
    {
        assert forall|i: int| 0 <= i < self.in_order().len() implies self@.contains_key(
            #[trigger] T::path_of(self.in_order()[i]),
        ) && self@[T::path_of(self.in_order()[i])] == self.in_order()[i] by {
            lemma_by_path_at::<T>(self.items@, i);
        }
        assert forall|p: Seq<char>| self@.contains_key(p) implies exists|i: int|
            0 <= i < self.in_order().len() && #[trigger] T::path_of(self.in_order()[i]) == p by {
            let k = choose|k: int| held_at::<T>(self.items@, p, k);
            assert(T::path_of(self.in_order()[k]) == p);
        }
    }
}

impl<T: TPath> Default for PathStore<T> {
    fn default() -> (store: Self)
        ensures
            store.wf(),
            store@ == Map::<Seq<char>, T::V>::empty(),
    {
        PathStore::new()
    }
}

/// Files the records of a listing: the store of `elements`, where of two
/// records with one path the later one stays.
pub fn to_path_map<T: TPath>(elements: Vec<T>) -> (store: PathStore<T>)
    ensures
        store.wf(),
        store@ == filed_by_path::<T>(elements@),
{
    let mut store: PathStore<T> = PathStore::new();
    let ghost mut seen: int = 0;
    for element in it: elements.into_iter()
        invariant
            it.seq() == elements@,
            seen == it.index(),
            store.wf(),
            store@ == filed_by_path::<T>(elements@.take(seen)),
    {
        proof {
            assert(elements@.take(seen + 1).drop_last() =~= elements@.take(seen));
            seen = seen + 1;
        }
        store.upsert(element);
    }
    assert(elements@.take(seen) =~= elements@);
    store
}

} // verus!
