//! Sizing of a growable instance buffer.

use vstd::prelude::*;

verus! {

/// The capacity of a buffer that must hold `len` instances and holds
/// `capacity` now: unchanged while they fit, else the larger of `len` and
/// twice the old capacity.
pub open spec fn grown(len: int, capacity: int) -> int {
    if len <= capacity {
        capacity
    } else if len >= 2 * capacity {
        len
    } else {
        2 * capacity
    }
}

/// The capacity after making room for `len` instances.
pub fn next_capacity(len: usize, capacity: usize) -> (r: usize)
    requires
        2 * capacity <= usize::MAX,
    ensures
        r == grown(len as int, capacity as int),
        r >= len,
        r >= capacity,
{
    if len <= capacity {
        capacity
    } else {
        let doubled: usize = capacity * 2;
        if len >= doubled {
            len
        } else {
            doubled
        }
    }
}

} // verus!
