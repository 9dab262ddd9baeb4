//! Descriptors of the backend's indexes.

use vstd::prelude::*;

verus! {

/// An index on the backend: a named collection of documents.
pub struct Index {
    pub primary_key: Option<String>,
    pub uid: String,
    pub name: String,
    pub created_at: Option<String>,
    pub updated_at: Option<String>,
}

} // verus!
