//! Typed client for a document-search backend's HTTP API: facet-filter
//! expressions, a fluent search-query builder, request-body encoding, and
//! decoding of paginated result sets into caller-supplied schema types.
//!
//! Transport is left to the caller: a query hands out its URL, credential and
//! encoded body, and the response's status and text are handed back to
//! [`search::decode_response`].

pub mod documents;
pub mod encode;
pub mod facets;
pub mod indices;
pub mod json;
pub mod results;
pub mod search;

use vstd::prelude::*;
use crate::search::QueryError;

pub use crate::documents::Update;
pub use crate::facets::FacetBuilder;
pub use crate::indices::Index;
pub use crate::search::{Crop, Query};

verus! {

/// A facet clause is the attribute name, a colon, and the value.
pub open spec fn clause_spec(key: Seq<char>, value: Seq<char>) -> Seq<char> {
    key + seq![':'] + value
}

/// A document type decodable from one hit of a result set.
pub trait Schema: Sized {
    /// Decodes one hit from its JSON document; yields nothing where the
    /// document does not fit the schema.
    fn from_document(doc: &serde_json::Value) -> Option<Self>;
}

/// Errors the library surfaces.
#[derive(Debug)]
pub enum Error {
    /// The request could not be sent, or a response body failed to decode;
    /// a description of the underlying cause is attached.
    UpstreamError(String),
    /// The backend rejected the query; its structured payload is attached.
    InvalidQuery(QueryError),
}

/// Descriptor of a search backend instance: base endpoint and optional
/// secret credential. Never mutated after construction.
pub struct MeiliMelo {
    host: String,
    secret_key: Option<String>,
}

impl View for MeiliMelo {
    type V = (Seq<char>, Option<Seq<char>>);

    closed spec fn view(&self) -> Self::V {
        (
            self.host@,
            match self.secret_key {
                Some(ref k) => Some(k@),
                None => None,
            },
        )
    }
}

impl MeiliMelo {
    /// Creates a descriptor from the scheme, hostname and port of the
    /// instance; no credential is set.
    pub fn new(host: &str) -> (r: MeiliMelo)
        ensures
            r@ == (host@, None::<Seq<char>>),
    {
        MeiliMelo { host: host.to_owned(), secret_key: None }
    }

    /// Adds the secret key used to authenticate against the instance.
    pub fn with_secret_key(self, key: &str) -> (r: MeiliMelo)
        ensures
            r@ == (self@.0, Some(key@)),
    {
        MeiliMelo { host: self.host, secret_key: Some(key.to_owned()) }
    }

    /// Initializes a search query against the named index; every optional
    /// parameter starts empty.
    pub fn search(&self, index: &str) -> (r: Query)
        ensures
            r.meili == *self,
            r.index@ == index@,
            fresh_query(r),
    {
        Query::new(self, index)
    }

    /// The base endpoint, for the caller that performs the transport.
    pub fn host(&self) -> (r: &str)
        ensures
            r@ == self@.0,
    {
        self.host.as_str()
    }

    /// The configured credential, if any, for the caller that performs the
    /// transport.
    pub fn secret_key(&self) -> (r: Option<&str>)
        ensures
            match r {
                Some(k) => self@.1 == Some(k@),
                None => self@.1 is None,
            },
    {
        match self.secret_key {
            Some(ref k) => Some(k.as_str()),
            None => None,
        }
    }

    /// The authentication header a request must carry: the backend's key
    /// header with the configured credential, or nothing where none is set.
    pub fn auth_header(&self) -> (r: Option<(String, String)>)
        ensures
            match r {
                Some(h) => self@.1 == Some(h.1@) && h.0@ == "X-Meili-API-Key"@,
                None => self@.1 is None,
            },
    {
        match self.secret_key {
            Some(ref k) => Some(("X-Meili-API-Key".to_owned(), k.clone())),
            None => None,
        }
    }

    pub(crate) fn duplicate(&self) -> (r: MeiliMelo)
        ensures
            r == *self,
    {
        MeiliMelo {
            host: self.host.clone(),
            secret_key: match self.secret_key {
                Some(ref k) => Some(k.clone()),
                None => None,
            },
        }
    }
}

/// Every optional search parameter is unset and the match-position flag has
/// its default.
pub open spec fn fresh_query(q: Query) -> bool {
    &&& q.query is None
    &&& q.filters is None
    &&& q.facets is None
    &&& q.limit is None
    &&& q.offset is None
    &&& q.retrieve is None
    &&& q.crop is None
    &&& q.crop_length is None
    &&& q.highlight is None
    &&& q.distribution is None
    &&& q.matches == false
}

} // verus!
