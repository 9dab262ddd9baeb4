//! The decoded response of a search call: metadata and the ordered hits,
//! exactly as the backend returned them.

use vstd::prelude::*;
use crate::json::{
    Jv, json_as_array, json_as_bool, json_as_i64, json_as_str, json_get, json_is_null,
    json_object_keys, parsed_json, value_model,
};
use crate::{Error, Schema};

verus! {

/// An immutable decoded result set. `results` holds the hits in
/// backend-assigned order; `hits` is the backend's total-hit count.
pub struct Results<T> {
    pub query: String,
    pub exhaustive_hits: bool,
    pub hits: i64,
    pub exhaustive_facets: Option<bool>,
    pub distribution: Option<Vec<(String, Vec<(String, i64)>)>>,
    pub limit: i64,
    pub offset: i64,
    pub duration: i64,
    pub results: Vec<T>,
}

impl<T> Results<T> {
    /// Non-consuming iteration: the hits, in original order; repeatable.
    pub fn iter_hits(&self) -> (r: &Vec<T>)
        ensures
            r@ == self.results@,
    {
        &self.results
    }

    /// Consuming iteration: the hits, in original order, exactly once.
    pub fn into_hits(self) -> (r: Vec<T>)
        ensures
            r@ == self.results@,
    {
        self.results
    }
}

/// The object has the key, with a string value.
pub open spec fn has_str(m: Map<Seq<char>, Jv>, k: Seq<char>) -> bool {
    m.dom().contains(k) && m[k] is Str
}

/// The string at the key.
pub open spec fn str_at(m: Map<Seq<char>, Jv>, k: Seq<char>) -> Seq<char> {
    m[k]->s
}

/// The object has the key, with a boolean value.
pub open spec fn has_bool(m: Map<Seq<char>, Jv>, k: Seq<char>) -> bool {
    m.dom().contains(k) && m[k] is Bool
}

/// The boolean at the key.
pub open spec fn bool_at(m: Map<Seq<char>, Jv>, k: Seq<char>) -> bool {
    m[k]->b
}

/// The object has the key, with an integer value that fits an `i64`.
pub open spec fn has_i64(m: Map<Seq<char>, Jv>, k: Seq<char>) -> bool {
    &&& m.dom().contains(k)
    &&& m[k] matches Jv::Int { i } && i64::MIN <= i <= i64::MAX
}

/// The integer at the key.
pub open spec fn int_at(m: Map<Seq<char>, Jv>, k: Seq<char>) -> int {
    m[k]->i
}

/// The key is absent, null, or a boolean: the shapes an optional boolean
/// field accepts.
pub open spec fn opt_bool_ok(m: Map<Seq<char>, Jv>, k: Seq<char>) -> bool {
    !m.dom().contains(k) || m[k] is Null || m[k] is Bool
}

/// What an optional boolean field decodes to.
pub open spec fn opt_bool_at(m: Map<Seq<char>, Jv>, k: Seq<char>) -> Option<bool> {
    if m.dom().contains(k) && m[k] is Bool {
        Some(m[k]->b)
    } else {
        None
    }
}

/// Every value of the inner map is an integer that fits an `i64`.
pub open spec fn inner_ok(mi: Map<Seq<char>, Jv>) -> bool {
    forall|k: Seq<char>|
        #[trigger] mi.dom().contains(k) ==> (mi[k] matches Jv::Int { i } && i64::MIN <= i
            <= i64::MAX)
}

/// Every value of the distribution object is an object of such integers.
pub open spec fn dist_ok(o: Map<Seq<char>, Jv>) -> bool {
    forall|k: Seq<char>|
        #[trigger] o.dom().contains(k) ==> (o[k] is Obj && inner_ok(o[k]->fields))
}

/// The key is absent, null, or a well-formed distribution object.
pub open spec fn opt_dist_ok(m: Map<Seq<char>, Jv>, k: Seq<char>) -> bool {
    !m.dom().contains(k) || m[k] is Null || (m[k] is Obj && dist_ok(m[k]->fields))
}

/// The decoded value-count pairs carry exactly the inner map: each key once,
/// each with its count.
pub open spec fn inner_match(ps: Seq<(String, i64)>, mi: Map<Seq<char>, Jv>) -> bool {
    &&& ps.map_values(|p: (String, i64)| p.0@).no_duplicates()
    &&& ps.map_values(|p: (String, i64)| p.0@).to_set() == mi.dom()
    &&& forall|i: int|
        0 <= i < ps.len() ==> #[trigger] mi.dom().contains(ps[i].0@) && mi[ps[i].0@] == (
        Jv::Int { i: ps[i].1 as int })
}

/// The decoded distribution entries carry exactly the distribution object:
/// each facet attribute once, each with its value counts.
pub open spec fn outer_match(
    entries: Seq<(String, Vec<(String, i64)>)>,
    o: Map<Seq<char>, Jv>,
) -> bool {
    &&& entries.map_values(|p: (String, Vec<(String, i64)>)| p.0@).no_duplicates()
    &&& entries.map_values(|p: (String, Vec<(String, i64)>)| p.0@).to_set() == o.dom()
    &&& forall|i: int|
        0 <= i < entries.len() ==> #[trigger] o.dom().contains(entries[i].0@) && o[entries[i].0@]
            is Obj && inner_match(entries[i].1@, o[entries[i].0@]->fields)
}

/// What the optional distribution field decodes to.
pub open spec fn dist_match(
    d: Option<Vec<(String, Vec<(String, i64)>)>>,
    m: Map<Seq<char>, Jv>,
    k: Seq<char>,
) -> bool {
    if m.dom().contains(k) && m[k] is Obj {
        d matches Some(entries) && outer_match(entries@, m[k]->fields)
    } else {
        d is None
    }
}

/// Shape of a well-formed success body: the required fields with their
/// types, and the optional fields absent, null, or well-formed. Other keys
/// are ignored.
pub open spec fn results_shape(j: Jv) -> bool {
    &&& j is Obj
    &&& has_str(j->fields, "query"@)
    &&& has_bool(j->fields, "exhaustiveNbHits"@)
    &&& has_i64(j->fields, "nbHits"@)
    &&& has_i64(j->fields, "limit"@)
    &&& has_i64(j->fields, "offset"@)
    &&& has_i64(j->fields, "processingTimeMs"@)
    &&& j->fields.dom().contains("hits"@) && j->fields["hits"@] is Arr
    &&& opt_bool_ok(j->fields, "exhaustiveFacetsCount"@)
    &&& opt_dist_ok(j->fields, "facetsDistribution"@)
}

/// The decoded result set carries the body's fields verbatim, and as many
/// hits as the body's hit array.
pub open spec fn results_match<T>(rs: Results<T>, j: Jv) -> bool {
    let m = j->fields;
    &&& rs.query@ == str_at(m, "query"@)
    &&& rs.exhaustive_hits == bool_at(m, "exhaustiveNbHits"@)
    &&& rs.hits as int == int_at(m, "nbHits"@)
    &&& rs.limit as int == int_at(m, "limit"@)
    &&& rs.offset as int == int_at(m, "offset"@)
    &&& rs.duration as int == int_at(m, "processingTimeMs"@)
    &&& rs.exhaustive_facets == opt_bool_at(m, "exhaustiveFacetsCount"@)
    &&& dist_match(rs.distribution, m, "facetsDistribution"@)
    &&& rs.results@.len() == m["hits"@]->elems.len()
}

/// Looks a required string field up.
pub(crate) fn get_str(v: &serde_json::Value, key: &str) -> (r: Option<String>)
    ensures
        r is Some <==> (value_model(*v) matches Jv::Obj { fields } && has_str(fields, key@)),
        r matches Some(s) ==> s@ == str_at(value_model(*v)->fields, key@),
{
    match json_get(v, key) {
        Some(f) => match json_as_str(f) {
            Some(s) => Some(s.to_owned()),
            None => None,
        },
        None => None,
    }
}

/// Looks a required boolean field up.
fn get_bool(v: &serde_json::Value, key: &str) -> (r: Option<bool>)
    ensures
        r is Some <==> (value_model(*v) matches Jv::Obj { fields } && has_bool(fields, key@)),
        r matches Some(b) ==> b == bool_at(value_model(*v)->fields, key@),
{
    match json_get(v, key) {
        Some(f) => json_as_bool(f),
        None => None,
    }
}

/// Looks a required integer field up.
fn get_i64(v: &serde_json::Value, key: &str) -> (r: Option<i64>)
    ensures
        r is Some <==> (value_model(*v) matches Jv::Obj { fields } && has_i64(fields, key@)),
        r matches Some(n) ==> n as int == int_at(value_model(*v)->fields, key@),
{
    match json_get(v, key) {
        Some(f) => json_as_i64(f),
        None => None,
    }
}

/// Looks an optional boolean field up; absent and null both decode to
/// nothing, any other non-boolean value is an error.
fn get_opt_bool(v: &serde_json::Value, key: &str) -> (r: Result<Option<bool>, ()>)
    requires
        value_model(*v) is Obj,
    ensures
        r is Ok <==> opt_bool_ok(value_model(*v)->fields, key@),
        r matches Ok(ob) ==> ob == opt_bool_at(value_model(*v)->fields, key@),
{
    match json_get(v, key) {
        None => Ok(None),
        Some(f) => {
            if json_is_null(f) {
                Ok(None)
            } else {
                match json_as_bool(f) {
                    Some(b) => Ok(Some(b)),
                    None => Err(()),
                }
            }
        },
    }
}

/// Decodes one facet's value counts.
fn decode_counts(v: &serde_json::Value) -> (r: Option<Vec<(String, i64)>>)
    ensures
        r is Some <==> (value_model(*v) is Obj && inner_ok(value_model(*v)->fields)),
        r matches Some(ps) ==> inner_match(ps@, value_model(*v)->fields),
{
    let keys = match json_object_keys(v) {
        Some(k) => k,
        None => {
            return None;
        },
    };
    let ghost mi = value_model(*v)->fields;
    let mut ps: Vec<(String, i64)> = Vec::new();
    let mut i: usize = 0;
    while i < keys.len()
        invariant
            value_model(*v) is Obj,
            mi == value_model(*v)->fields,
            keys.deep_view().no_duplicates(),
            keys.deep_view().to_set() == mi.dom(),
            i <= keys@.len(),
            ps@.len() == i as int,
            forall|j: int| 0 <= j < i as int ==> #[trigger] ps@[j].0@ == keys@[j]@,
            forall|j: int|
                0 <= j < i as int ==> #[trigger] mi.dom().contains(ps@[j].0@) && mi[ps@[j].0@]
                    == (Jv::Int { i: ps@[j].1 as int }),
        decreases keys@.len() - i,
    {
        proof {
            assert(keys.deep_view()[i as int] == keys@[i as int]@);
            assert(keys.deep_view().contains(keys.deep_view()[i as int]));
            assert(mi.dom().contains(keys@[i as int]@));
        }
        let kstr: &String = &keys[i];
        let f = match json_get(v, kstr.as_str()) {
            Some(f) => f,
            None => {
                proof {
                    assert(false);
                }
                return None;
            },
        };
        let n = match json_as_i64(f) {
            Some(n) => n,
            None => {
                proof {
                    assert(!inner_ok(mi));
                }
                return None;
            },
        };
        ps.push((kstr.clone(), n));
        i = i + 1;
    }
    proof {
        assert(ps@.map_values(|p: (String, i64)| p.0@) =~= keys.deep_view());
        assert forall|k: Seq<char>| #[trigger] mi.dom().contains(k) implies (mi[k] matches Jv::Int {
            i,
        } && i64::MIN <= i <= i64::MAX) by {
            assert(keys.deep_view().contains(k));
            let j = choose|j: int|
                0 <= j < keys.deep_view().len() && keys.deep_view()[j] == k;
            assert(ps@[j].0@ == k);
            assert(mi[k] == (Jv::Int { i: ps@[j].1 as int }));
        }
        assert(inner_ok(mi));
        assert(inner_match(ps@, mi));
    }
    Some(ps)
}

/// Decodes the distribution object: each facet attribute to its value
/// counts.
fn decode_distribution(v: &serde_json::Value) -> (r: Option<
    Vec<(String, Vec<(String, i64)>)>,
>)
    ensures
        r is Some <==> (value_model(*v) is Obj && dist_ok(value_model(*v)->fields)),
        r matches Some(entries) ==> outer_match(entries@, value_model(*v)->fields),
{
    let keys = match json_object_keys(v) {
        Some(k) => k,
        None => {
            return None;
        },
    };
    let ghost o = value_model(*v)->fields;
    let mut entries: Vec<(String, Vec<(String, i64)>)> = Vec::new();
    let mut i: usize = 0;
    while i < keys.len()
        invariant
            value_model(*v) is Obj,
            o == value_model(*v)->fields,
            keys.deep_view().no_duplicates(),
            keys.deep_view().to_set() == o.dom(),
            i <= keys@.len(),
            entries@.len() == i as int,
            forall|j: int| 0 <= j < i as int ==> #[trigger] entries@[j].0@ == keys@[j]@,
            forall|j: int|
                0 <= j < i as int ==> #[trigger] o.dom().contains(entries@[j].0@) && o[entries@[j].0@]
                    is Obj && inner_match(entries@[j].1@, o[entries@[j].0@]->fields),
        decreases keys@.len() - i,
    {
        proof {
            assert(keys.deep_view()[i as int] == keys@[i as int]@);
            assert(keys.deep_view().contains(keys.deep_view()[i as int]));
            assert(o.dom().contains(keys@[i as int]@));
        }
        let kstr: &String = &keys[i];
        let f = match json_get(v, kstr.as_str()) {
            Some(f) => f,
            None => {
                proof {
                    assert(false);
                }
                return None;
            },
        };
        let counts = match decode_counts(f) {
            Some(c) => c,
            None => {
                proof {
                    assert(!dist_ok(o));
                }
                return None;
            },
        };
        entries.push((kstr.clone(), counts));
        i = i + 1;
    }
    proof {
        assert(entries@.map_values(|p: (String, Vec<(String, i64)>)| p.0@)
            =~= keys.deep_view());
        assert forall|k: Seq<char>| #[trigger] o.dom().contains(k) implies (o[k] is Obj
            && inner_ok(o[k]->fields)) by {
            assert(keys.deep_view().contains(k));
            let j = choose|j: int|
                0 <= j < keys.deep_view().len() && keys.deep_view()[j] == k;
            assert(entries@[j].0@ == k);
            assert(inner_match(entries@[j].1@, o[k]->fields));
        }
        assert(dist_ok(o));
        assert(outer_match(entries@, o));
    }
    Some(entries)
}

/// Looks the optional distribution field up; absent and null both decode to
/// nothing, any other malformed value is an error.
fn get_opt_distribution(v: &serde_json::Value, key: &str) -> (r: Result<
    Option<Vec<(String, Vec<(String, i64)>)>>,
    (),
>)
    requires
        value_model(*v) is Obj,
    ensures
        r is Ok <==> opt_dist_ok(value_model(*v)->fields, key@),
        r matches Ok(d) ==> dist_match(d, value_model(*v)->fields, key@),
{
    match json_get(v, key) {
        None => Ok(None),
        Some(f) => {
            if json_is_null(f) {
                Ok(None)
            } else {
                match decode_distribution(f) {
                    Some(entries) => Ok(Some(entries)),
                    None => Err(()),
                }
            }
        },
    }
}

/// Decodes each hit through the schema; one refusal fails the whole set, as
/// the backend's order would otherwise be lost.
fn decode_hits<T: Schema>(arr: &Vec<serde_json::Value>) -> (r: Option<Vec<T>>)
    ensures
        r matches Some(ts) ==> ts@.len() == arr@.len(),
        arr@.len() == 0 ==> r is Some,
{
    let mut ts: Vec<T> = Vec::new();
    let mut i: usize = 0;
    while i < arr.len()
        invariant
            i <= arr@.len(),
            ts@.len() == i as int,
        decreases arr@.len() - i,
    {
        match T::from_document(&arr[i]) {
            Some(t) => ts.push(t),
            None => {
                return None;
            },
        }
        i = i + 1;
    }
    Some(ts)
}

/// Decodes a success body into a result set.
///
/// Exactly the bodies accepted by [`results_shape`] decode; what comes out
/// carries the body's fields verbatim ([`results_match`]). Decoding of the
/// hits themselves is the schema's, so a body whose hit array is non-empty
/// may still be refused by it; an empty hit array always succeeds.
pub fn decode_results<T: Schema>(body: &str) -> (r: Result<Results<T>, Error>)
    ensures
        r matches Err(e) ==> e is UpstreamError,
        parsed_json(body@) is None ==> r is Err,
        parsed_json(body@) matches Some(j) && !results_shape(j) ==> r is Err,
        r matches Ok(rs) ==> (parsed_json(body@) matches Some(j) && results_shape(j)
            && results_match(rs, j)),
        (parsed_json(body@) matches Some(j) && results_shape(j) && j->fields["hits"@]->elems.len()
            == 0) ==> r is Ok,
{
    let v = match crate::json::parse_json(body) {
        Ok(v) => v,
        Err(msg) => {
            return Err(Error::UpstreamError(msg));
        },
    };
    let query = match get_str(&v, "query") {
        Some(s) => s,
        None => {
            return Err(malformed_results());
        },
    };
    let exhaustive_hits = match get_bool(&v, "exhaustiveNbHits") {
        Some(b) => b,
        None => {
            return Err(malformed_results());
        },
    };
    let hits = match get_i64(&v, "nbHits") {
        Some(n) => n,
        None => {
            return Err(malformed_results());
        },
    };
    let limit = match get_i64(&v, "limit") {
        Some(n) => n,
        None => {
            return Err(malformed_results());
        },
    };
    let offset = match get_i64(&v, "offset") {
        Some(n) => n,
        None => {
            return Err(malformed_results());
        },
    };
    let duration = match get_i64(&v, "processingTimeMs") {
        Some(n) => n,
        None => {
            return Err(malformed_results());
        },
    };
    let exhaustive_facets = match get_opt_bool(&v, "exhaustiveFacetsCount") {
        Ok(ob) => ob,
        Err(()) => {
            return Err(malformed_results());
        },
    };
    let distribution = match get_opt_distribution(&v, "facetsDistribution") {
        Ok(d) => d,
        Err(()) => {
            return Err(malformed_results());
        },
    };
    let arr = match json_get(&v, "hits") {
        Some(f) => match json_as_array(f) {
            Some(a) => a,
            None => {
                return Err(malformed_results());
            },
        },
        None => {
            return Err(malformed_results());
        },
    };
    let results = match decode_hits::<T>(arr) {
        Some(ts) => ts,
        None => {
            return Err(Error::UpstreamError(undecodable_hit()));
        },
    };
    Ok(
        Results {
            query,
            exhaustive_hits,
            hits,
            exhaustive_facets,
            distribution,
            limit,
            offset,
            duration,
            results,
        },
    )
}

fn malformed_results() -> (r: Error)
    ensures
        r is UpstreamError,
{
    Error::UpstreamError("malformed search response body".to_owned())
}

fn undecodable_hit() -> (r: String)
{
    "a hit did not fit the schema".to_owned()
}

/// Iteration is stable: any two non-consuming reads of the same result set
/// yield the same sequence, and the consuming read yields that sequence too.
/// This holds because both reads are pinned to the one hit sequence the set
/// was decoded with.
pub proof fn lemma_iteration_stable<T>(
    rs: Results<T>,
    first: Seq<T>,
    second: Seq<T>,
    consumed: Seq<T>,
)
    requires
        first == rs.results@,
        second == rs.results@,
        consumed == rs.results@,
    ensures
        first == second,
        consumed == first,
{
}

} // verus!
