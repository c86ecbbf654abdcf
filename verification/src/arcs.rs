//! Shared-ownership handles. Columns and data types are immutable and
//! reference counted, so consumers can hold the same batch without copying.

use std::sync::Arc;
use vstd::prelude::*;

verus! {

/// Relies on std's `Arc::clone`: the result is a handle to the same
/// allocation, hence carries the same value as the argument.
#[verifier::external_body]
pub fn clone_arc<T>(v: &Arc<T>) -> (res: Arc<T>)
    ensures
        res == *v,
{
    v.clone()
}

} // verus!
