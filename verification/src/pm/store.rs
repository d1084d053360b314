//! The store's metadata database: reference counts of stored objects.
use vstd::prelude::*;

verus! {

/// The count after one more reference: an absent count is 0.
pub fn next_refcount(current: Option<u64>) -> (r: u64)
    requires
        current matches Some(c) ==> c < u64::MAX,
    ensures
        r == (match current {
            Some(c) => c + 1,
            None => 1,
        }),
{
    match current {
        Some(c) => c + 1,
        None => 1,
    }
}

} // verus!
