//! The default-device pointer of one category.
//!
//! A pointer either names a device that exists in the category's store or is
//! flagged as a dummy: no valid default exists, and the next device that is
//! added becomes the default.

use crate::records::TIndex;
use crate::store::EntityStore;
use vstd::prelude::*;

verus! {

/// The default pointer of one category.
#[derive(Debug, Clone, Copy, PartialEq, Eq, Structural)]
pub struct DefaultDevice {
    /// Index of the default device; meaningless while `dummy` is set.
    pub index: u32,
    /// Set while no valid default exists.
    pub dummy: bool,
}

impl DefaultDevice {
    /// The pointer names a device among `present`, or is a dummy.
    pub open spec fn valid_for(self, present: Set<u32>) -> bool {
        self.dummy || present.contains(self.index)
    }

    /// The pointer after `index` was chosen as default while the devices
    /// `present` exist: a device that exists becomes the default, any other
    /// choice changes nothing.
    pub open spec fn selected(self, present: Set<u32>, index: u32) -> DefaultDevice {
        if present.contains(index) {
            DefaultDevice { index, dummy: false }
        } else {
            self
        }
    }

    /// The pointer after a device with `index` was added: a dummy adopts it,
    /// a valid default stays.
    pub open spec fn added(self, index: u32) -> DefaultDevice {
        if self.dummy {
            DefaultDevice { index, dummy: false }
        } else {
            self
        }
    }

    /// Relates the pointer before and after the device `index` is removed
    /// from the devices `present`. Removing another device than the default
    /// changes nothing. When the default goes and no device remains, the
    /// pointer becomes a dummy; otherwise it moves to one of the remaining
    /// devices, whichever.
    pub open spec fn removed(self, present: Set<u32>, index: u32, after: DefaultDevice) -> bool {
        if self.index != index {
            after == self
        } else if present.remove(index) =~= Set::<u32>::empty() {
            after == (DefaultDevice { index: self.index, dummy: true })
        } else {
            after.dummy == self.dummy && present.remove(index).contains(after.index)
        }
    }

    /// The pointer for a category whose full listing holds the devices of
    /// `store` and whose backend names `index` as default.
    pub fn initial<T: TIndex>(store: &EntityStore<T>, index: u32) -> (pointer: Self)
        ensures
            pointer == (DefaultDevice { index, dummy: !store@.contains_key(index) }),
            pointer.valid_for(store@.dom()),
    {
        DefaultDevice { index, dummy: !store.contains(index) }
    }

    /// Makes `index` the default if `store` holds such a device, and says
    /// whether it did.
    pub fn select<T: TIndex>(&mut self, store: &EntityStore<T>, index: u32) -> (chosen: bool)
        ensures
            chosen == store@.contains_key(index),
            *final(self) == old(self).selected(store@.dom(), index),
    {
        if store.contains(index) {
            self.index = index;
            self.dummy = false;
            true
        } else {
            false
        }
    }

    /// Reacts to a device with `index` being added.
    pub fn on_added(&mut self, index: u32)
        ensures
            *final(self) == old(self).added(index),
    {
        if self.dummy {
            self.index = index;
            self.dummy = false;
        }
    }

    /// Reacts to the device `index` being removed; `store` is the store as it
    /// is before the removal.
    pub fn on_removed<T: TIndex>(&mut self, store: &EntityStore<T>, index: u32)
        ensures
            old(self).removed(store@.dom(), index, *final(self)),
    {
        if index == self.index {
            match store.any_index_except(index) {
                Some(other) => {
                    self.index = other;
                    assert(store@.dom().remove(index).contains(other));
                },
                None => {
                    self.dummy = true;
                    assert(store@.dom().remove(index) =~= Set::<u32>::empty());
                },
            }
        }
    }
}

/// A pointer that was valid stays valid through a selection and through an
/// addition.
pub proof fn lemma_default_stays_valid(pointer: DefaultDevice, present: Set<u32>, index: u32)
    requires
        pointer.valid_for(present),
    ensures
        pointer.selected(present, index).valid_for(present),
        pointer.added(index).valid_for(present.insert(index)),
{
}

/// A pointer that was valid is valid for the devices that remain after a
/// removal: it never names the device that went.
pub proof fn lemma_default_valid_after_removal(
    pointer: DefaultDevice,
    present: Set<u32>,
    index: u32,
    after: DefaultDevice,
)
    requires
        pointer.valid_for(present),
        pointer.removed(present, index, after),
    ensures
        after.valid_for(present.remove(index)),
{
}

/// When the default device is removed and another device remains, the new
/// default is one of the remaining devices; when none remains, the pointer
/// is a dummy.
pub proof fn lemma_default_removed(
    pointer: DefaultDevice,
    present: Set<u32>,
    index: u32,
    after: DefaultDevice,
)
    requires
        pointer.index == index,
        pointer.removed(present, index, after),
    ensures
        (exists|other: u32| present.remove(index).contains(other)) ==> present.remove(
            index,
        ).contains(after.index),
        (forall|other: u32| !present.remove(index).contains(other)) ==> after.dummy,
{
    if forall|other: u32| !present.remove(index).contains(other) {
        assert(present.remove(index) =~= Set::<u32>::empty());
    }
}

/// An added device becomes the default while the pointer is a dummy, and
/// leaves a valid default as it is.
pub proof fn lemma_default_added(pointer: DefaultDevice, index: u32)
    ensures
        pointer.dummy ==> pointer.added(index) == (DefaultDevice { index, dummy: false }),
        !pointer.dummy ==> pointer.added(index) == pointer,
{
}

} // verus!
