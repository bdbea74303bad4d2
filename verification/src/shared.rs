//! Shared-ownership helpers used when wiring subsystems together.

use vstd::prelude::*;

verus! {

/// Relies on `std::sync::Arc::clone`: the returned handle is equal to the
/// given one and shares the same allocation, so dropping it never outlives
/// the other owners.
#[verifier::external_body]
pub(crate) fn share_arc<T>(a: &std::sync::Arc<T>) -> (r: std::sync::Arc<T>)
    ensures
        r == *a,
{
    std::sync::Arc::clone(a)
}

} // verus!
