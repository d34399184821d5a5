//! Shared ownership of immutable values.

use std::sync::Arc;
use vstd::prelude::*;

verus! {

/// Another pointer to the value that `pointer` points to.
///
/// Trusted: this calls `Arc::clone`, which makes a new pointer to the same
/// allocation; the contract says that the value behind the new pointer is the
/// value behind the old one.
#[verifier::external_body]
pub(crate) fn share<T>(pointer: &Arc<T>) -> (other: Arc<T>)
    ensures
        other == *pointer,
{
    Arc::clone(pointer)
}

} // verus!
