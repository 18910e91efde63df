//! Small helpers.

use vstd::prelude::*;

verus! {

/// Takes a value and drops it: for results that are of no interest.
pub fn ignore<T>(_value: T) {
}

} // verus!
