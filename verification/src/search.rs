//! The fluent search-query builder and its wire encoding: each setter takes
//! the query by value and returns a new value with exactly one field changed,
//! and the terminal encoding pins the request body byte for byte.

use vstd::prelude::*;
use crate::MeiliMelo;
use crate::encode::{
    append_i64, int_bytes, int_chars, jstr, jstr_arr, jstr_arr_arr, lit_bytes, push_i64,
    push_json_string, push_string_array, push_string_array_array,
};
use crate::facets::Facets;
use crate::json::{Jv, parsed_json};
use crate::results::{Results, decode_results, get_str, has_str, results_match, results_shape, str_at};
use crate::{Error, Schema};

verus! {

/// A search-request descriptor bound to an instance and an index name.
/// Consumed once by the terminal encoding; each setter yields a new value.
pub struct Query {
    pub meili: MeiliMelo,
    pub index: String,
    pub query: Option<String>,
    pub filters: Option<String>,
    pub facets: Option<Vec<Vec<String>>>,
    pub limit: Option<i64>,
    pub offset: Option<i64>,
    pub retrieve: Option<Vec<String>>,
    pub crop: Option<Vec<String>>,
    pub crop_length: Option<i64>,
    pub highlight: Option<Vec<String>>,
    pub distribution: Option<Vec<String>>,
    pub matches: bool,
}

/// An attribute crop instruction.
pub enum Crop {
    /// Crop the attribute at the query's global crop length.
    Attr(String),
    /// Crop the attribute at the given length.
    At(String, i64),
}

/// How one crop instruction serializes: `attr`, or `attr:length`.
pub open spec fn crop_spec(c: Crop) -> Seq<char> {
    match c {
        Crop::Attr(a) => a@,
        Crop::At(a, n) => a@ + seq![':'] + int_chars(n as int),
    }
}

/// Structured failure payload of a rejected query.
#[derive(Debug)]
pub struct QueryError {
    pub kind: String,
    pub code: String,
    pub message: String,
    pub link: String,
}

impl Query {
    pub(crate) fn new(meili: &MeiliMelo, index: &str) -> (r: Query)
        ensures
            r.meili == *meili,
            r.index@ == index@,
            crate::fresh_query(r),
    {
        Query {
            meili: meili.duplicate(),
            index: index.to_owned(),
            query: None,
            filters: None,
            facets: None,
            limit: None,
            offset: None,
            retrieve: None,
            crop: None,
            crop_length: None,
            highlight: None,
            distribution: None,
            matches: false,
        }
    }

    /// Sets the free-text search string; unset means "match all".
    pub fn query(self, query: &str) -> (r: Query)
        ensures
            r.query matches Some(s) && s@ == query@,
            r == (Query { query: r.query, ..self }),
    {
        Query { query: Some(query.to_owned()), ..self }
    }

    /// Sets a raw filter expression, passed through uninterpreted.
    pub fn filters(self, filters: &str) -> (r: Query)
        ensures
            r.filters matches Some(s) && s@ == filters@,
            r == (Query { filters: r.filters, ..self }),
    {
        Query { filters: Some(filters.to_owned()), ..self }
    }

    /// Sets the number of documents to be returned.
    pub fn limit(self, limit: i64) -> (r: Query)
        ensures
            r == (Query { limit: Some(limit), ..self }),
    {
        Query { limit: Some(limit), ..self }
    }

    /// Sets the number of documents to skip.
    pub fn offset(self, offset: i64) -> (r: Query)
        ensures
            r == (Query { offset: Some(offset), ..self }),
    {
        Query { offset: Some(offset), ..self }
    }

    /// Installs a built facet filter, overwriting any previous one.
    pub fn facets(self, facets: Facets) -> (r: Query)
        ensures
            r.facets matches Some(g) && g.deep_view() == facets@,
            r == (Query { facets: r.facets, ..self }),
    {
        Query { facets: Some(facets.get()), ..self }
    }

    /// Sets the attributes to be returned for each document.
    pub fn retrieve(self, attributes: &[&str]) -> (r: Query)
        ensures
            r.retrieve matches Some(v) && v.deep_view() == attributes@.map_values(
                |s: &str| s@,
            ),
            r == (Query { retrieve: r.retrieve, ..self }),
    {
        Query { retrieve: Some(owned_strings(attributes)), ..self }
    }

    /// Requests value-count aggregation for the listed facet attributes.
    pub fn distribution(self, facets: &[&str]) -> (r: Query)
        ensures
            r.distribution matches Some(v) && v.deep_view() == facets@.map_values(
                |s: &str| s@,
            ),
            r == (Query { distribution: r.distribution, ..self }),
    {
        Query { distribution: Some(owned_strings(facets)), ..self }
    }

    /// Sets the attributes to crop, each serialized as `attr` or
    /// `attr:length`.
    pub fn crop(self, attributes: &[Crop]) -> (r: Query)
        ensures
            r.crop matches Some(v) && v.deep_view() == attributes@.map_values(
                |c: Crop| crop_spec(c),
            ),
            r == (Query { crop: r.crop, ..self }),
    {
        Query { crop: Some(crop_strings(attributes)), ..self }
    }

    /// Sets the crop length used by crop instructions without one of their
    /// own.
    pub fn crop_length(self, length: i64) -> (r: Query)
        ensures
            r == (Query { crop_length: Some(length), ..self }),
    {
        Query { crop_length: Some(length), ..self }
    }

    /// Sets the attributes to highlight.
    pub fn highlight(self, attributes: &[&str]) -> (r: Query)
        ensures
            r.highlight matches Some(v) && v.deep_view() == attributes@.map_values(
                |s: &str| s@,
            ),
            r == (Query { highlight: r.highlight, ..self }),
    {
        Query { highlight: Some(owned_strings(attributes)), ..self }
    }

    /// The full URL of this query's search call: the instance's endpoint
    /// followed by the search path for the bound index.
    pub fn url(&self) -> (r: String)
        ensures
            r@ == self.meili@.0 + "/indexes/"@ + self.index@ + "/search"@,
    {
        let mut u = self.meili.host().to_owned();
        u.append("/indexes/");
        u.append(self.index.as_str());
        u.append("/search");
        proof {
            assert(u@ =~= self.meili@.0 + "/indexes/"@ + self.index@ + "/search"@);
        }
        u
    }

    /// Encodes the parameter fields as the JSON request body.
    pub fn body(&self) -> (r: Vec<u8>)
        ensures
            r@ == spec_body(*self),
    {
        let mut out: Vec<u8> = Vec::new();
        out.extend_from_slice("{".as_bytes());
        proof {
            assert(out@ =~= lit_bytes("{"));
        }
        let ghost p0 = out@;
        push_str_field(&mut out, "\"q\":", &self.query);
        let ghost p1 = out@;
        push_str_field(&mut out, "\"filters\":", &self.filters);
        let ghost p2 = out@;
        push_facets_field(&mut out, &self.facets);
        let ghost p3 = out@;
        push_int_field(&mut out, "\"limit\":", &self.limit);
        let ghost p4 = out@;
        push_int_field(&mut out, "\"offset\":", &self.offset);
        let ghost p5 = out@;
        push_list_field(&mut out, "\"attributesToRetrieve\":", &self.retrieve);
        let ghost p6 = out@;
        push_list_field(&mut out, "\"attributesToCrop\":", &self.crop);
        let ghost p7 = out@;
        push_int_field(&mut out, "\"cropLength\":", &self.crop_length);
        let ghost p8 = out@;
        push_list_field(&mut out, "\"attributesToHighlight\":", &self.highlight);
        let ghost p9 = out@;
        push_list_field(&mut out, "\"facetsDistribution\":", &self.distribution);
        out.extend_from_slice("\"matches\":".as_bytes());
        if self.matches {
            out.extend_from_slice("true".as_bytes());
        } else {
            out.extend_from_slice("false".as_bytes());
        }
        out.extend_from_slice("}".as_bytes());
        proof {
            assert(out@ =~= spec_body(*self));
        }
        out
    }
}

/// Shape of a well-formed error body: the four string fields. Other keys are
/// ignored.
pub open spec fn error_shape(j: Jv) -> bool {
    &&& j is Obj
    &&& has_str(j->fields, "errorType"@)
    &&& has_str(j->fields, "errorCode"@)
    &&& has_str(j->fields, "message"@)
    &&& has_str(j->fields, "errorLink"@)
}

/// The decoded error carries the body's fields verbatim.
pub open spec fn error_match(e: QueryError, j: Jv) -> bool {
    let m = j->fields;
    &&& e.kind@ == str_at(m, "errorType"@)
    &&& e.code@ == str_at(m, "errorCode"@)
    &&& e.message@ == str_at(m, "message"@)
    &&& e.link@ == str_at(m, "errorLink"@)
}

/// Decodes a failure body into its structured payload. Exactly the bodies
/// accepted by [`error_shape`] decode, and the fields come out verbatim.
pub fn decode_query_error(body: &str) -> (r: Option<QueryError>)
    ensures
        r is Some <==> (parsed_json(body@) matches Some(j) && error_shape(j)),
        r matches Some(e) ==> (parsed_json(body@) matches Some(j) && error_match(e, j)),
{
    let v = match crate::json::parse_json(body) {
        Ok(v) => v,
        Err(_) => {
            return None;
        },
    };
    let kind = match get_str(&v, "errorType") {
        Some(s) => s,
        None => {
            return None;
        },
    };
    let code = match get_str(&v, "errorCode") {
        Some(s) => s,
        None => {
            return None;
        },
    };
    let message = match get_str(&v, "message") {
        Some(s) => s,
        None => {
            return None;
        },
    };
    let link = match get_str(&v, "errorLink") {
        Some(s) => s,
        None => {
            return None;
        },
    };
    Some(QueryError { kind, code, message, link })
}

/// Settles a response: a success status decodes the body as a result set;
/// any other status decodes it as the backend's structured rejection, and a
/// malformed rejection body is an upstream failure, never a rejection.
pub fn decode_response<T: Schema>(status: u16, body: &str) -> (r: Result<Results<T>, Error>)
    ensures
        status == 200 ==> {
            &&& (r matches Err(e) ==> e is UpstreamError)
            &&& (parsed_json(body@) is None ==> r is Err)
            &&& (parsed_json(body@) matches Some(j) && !results_shape(j) ==> r is Err)
            &&& (r matches Ok(rs) ==> (parsed_json(body@) matches Some(j) && results_shape(j)
                && results_match(rs, j)))
            &&& ((parsed_json(body@) matches Some(j) && results_shape(j) && j->fields[
                "hits"@
            ]->elems.len() == 0) ==> r is Ok)
        },
        status != 200 ==> {
            &&& r is Err
            &&& ((parsed_json(body@) matches Some(j) && error_shape(j)) <==> (r matches Err(e)
                && e is InvalidQuery))
            &&& (r matches Err(Error::InvalidQuery(qe)) ==> (parsed_json(body@) matches Some(j)
                && error_match(qe, j)))
            &&& (r matches Err(e) ==> (e is InvalidQuery || e is UpstreamError))
        },
{
    if status == 200 {
        decode_results::<T>(body)
    } else {
        match decode_query_error(body) {
            Some(e) => Err(Error::InvalidQuery(e)),
            None => Err(
                Error::UpstreamError("malformed error response body".to_owned()),
            ),
        }
    }
}

/// A string field of the body: nothing when unset, else key, JSON string and
/// trailing comma.
pub open spec fn str_field(key: &str, v: Option<String>) -> Seq<u8> {
    match v {
        Some(s) => lit_bytes(key) + jstr(s@) + seq![44u8],
        None => Seq::empty(),
    }
}

/// An integer field of the body.
pub open spec fn int_field(key: &str, v: Option<i64>) -> Seq<u8> {
    match v {
        Some(n) => lit_bytes(key) + int_bytes(n as int) + seq![44u8],
        None => Seq::empty(),
    }
}

/// A string-list field of the body.
pub open spec fn list_field(key: &str, v: Option<Vec<String>>) -> Seq<u8> {
    match v {
        Some(xs) => lit_bytes(key) + jstr_arr(xs.deep_view()) + seq![44u8],
        None => Seq::empty(),
    }
}

/// The facet-filter field of the body: a list of lists of clause strings.
pub open spec fn facets_field(v: Option<Vec<Vec<String>>>) -> Seq<u8> {
    match v {
        Some(gs) => lit_bytes("\"facetFilters\":") + jstr_arr_arr(gs.deep_view()) + seq![44u8],
        None => Seq::empty(),
    }
}

/// The whole request body: set fields in wire order, then the
/// match-position flag, which always serializes.
pub open spec fn spec_body(q: Query) -> Seq<u8> {
    lit_bytes("{") + str_field("\"q\":", q.query) + str_field("\"filters\":", q.filters)
        + facets_field(q.facets) + int_field("\"limit\":", q.limit) + int_field(
        "\"offset\":",
        q.offset,
    ) + list_field("\"attributesToRetrieve\":", q.retrieve) + list_field(
        "\"attributesToCrop\":",
        q.crop,
    ) + int_field("\"cropLength\":", q.crop_length) + list_field(
        "\"attributesToHighlight\":",
        q.highlight,
    ) + list_field("\"facetsDistribution\":", q.distribution) + lit_bytes("\"matches\":") + (
    if q.matches {
        lit_bytes("true")
    } else {
        lit_bytes("false")
    }) + lit_bytes("}")
}

fn push_str_field(out: &mut Vec<u8>, key: &str, v: &Option<String>)
    ensures
        final(out)@ == old(out)@ + str_field(key, *v),
{
    if let Some(s) = v {
        out.extend_from_slice(key.as_bytes());
        push_json_string(out, s.as_str());
        out.push(44);
        proof {
            assert(final(out)@ =~= old(out)@ + str_field(key, *v));
        }
    }
}

fn push_int_field(out: &mut Vec<u8>, key: &str, v: &Option<i64>)
    ensures
        final(out)@ == old(out)@ + int_field(key, *v),
{
    if let Some(n) = v {
        out.extend_from_slice(key.as_bytes());
        push_i64(out, *n);
        out.push(44);
        proof {
            assert(final(out)@ =~= old(out)@ + int_field(key, *v));
        }
    }
}

fn push_list_field(out: &mut Vec<u8>, key: &str, v: &Option<Vec<String>>)
    ensures
        final(out)@ == old(out)@ + list_field(key, *v),
{
    if let Some(xs) = v {
        out.extend_from_slice(key.as_bytes());
        push_string_array(out, xs);
        out.push(44);
        proof {
            assert(final(out)@ =~= old(out)@ + list_field(key, *v));
        }
    }
}

fn push_facets_field(out: &mut Vec<u8>, v: &Option<Vec<Vec<String>>>)
    ensures
        final(out)@ == old(out)@ + facets_field(*v),
{
    if let Some(gs) = v {
        out.extend_from_slice("\"facetFilters\":".as_bytes());
        push_string_array_array(out, gs);
        out.push(44);
        proof {
            assert(final(out)@ =~= old(out)@ + facets_field(*v));
        }
    }
}

/// Copies borrowed attribute names into owned strings.
fn owned_strings(attributes: &[&str]) -> (r: Vec<String>)
    ensures
        r.deep_view() == attributes@.map_values(|s: &str| s@),
{
    let mut v: Vec<String> = Vec::new();
    let mut i: usize = 0;
    while i < attributes.len()
        invariant
            i <= attributes@.len(),
            v@.len() == i as int,
            forall|j: int| 0 <= j < i as int ==> v@[j]@ == attributes@[j]@,
        decreases attributes@.len() - i,
    {
        v.push(attributes[i].to_owned());
        i = i + 1;
    }
    proof {
        assert(v.deep_view() =~= attributes@.map_values(|s: &str| s@));
    }
    v
}

/// Serializes each crop instruction to its string form.
fn crop_strings(attributes: &[Crop]) -> (r: Vec<String>)
    ensures
        r.deep_view() == attributes@.map_values(|c: Crop| crop_spec(c)),
{
    let mut v: Vec<String> = Vec::new();
    let mut i: usize = 0;
    while i < attributes.len()
        invariant
            i <= attributes@.len(),
            v@.len() == i as int,
            forall|j: int| 0 <= j < i as int ==> v@[j]@ == crop_spec(attributes@[j]),
        decreases attributes@.len() - i,
    {
        let s = match &attributes[i] {
            Crop::Attr(a) => a.clone(),
            Crop::At(a, n) => {
                let mut t = a.clone();
                t.append(":");
                append_i64(&mut t, *n);
                proof {
                    reveal_strlit(":");
                    assert(t@ =~= crop_spec(attributes@[i as int]));
                }
                t
            },
        };
        v.push(s);
        i = i + 1;
    }
    proof {
        assert(v.deep_view() =~= attributes@.map_values(|c: Crop| crop_spec(c)));
    }
    v
}

} // verus!

