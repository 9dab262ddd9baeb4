//! Descriptors handed back by the backend's document operations.

use vstd::prelude::*;

verus! {

/// Descriptor for an asynchronous upstream operation.
pub struct Update {
    pub id: i64,
}

} // verus!
