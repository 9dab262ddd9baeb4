use meilimelo::{Error, Schema};
use meilimelo::results::{Results, decode_results};
use meilimelo::search::decode_response;

#[derive(Debug, PartialEq)]
struct Employee {
    firstname: String,
    lastname: String,
}

impl Schema for Employee {
    fn from_document(doc: &serde_json::Value) -> Option<Employee> {
        Some(Employee {
            firstname: doc.get("firstname")?.as_str()?.to_owned(),
            lastname: doc.get("lastname")?.as_str()?.to_owned(),
        })
    }
}

const OK_BODY: &str = "{\"query\":\"johnson\",\"exhaustiveNbHits\":true,\"nbHits\":2,\"exhaustiveFacetsCount\":false,\"facetsDistribution\":{\"roles\":{\"ops\":1,\"tech\":2}},\"limit\":20,\"offset\":0,\"processingTimeMs\":7,\"hits\":[{\"firstname\":\"Luke\",\"lastname\":\"Skywalker\"},{\"firstname\":\"Leia\",\"lastname\":\"Organa\"}]}";

const ERR_BODY: &str = "{\"errorType\":\"invalid_request_error\",\"errorCode\":\"bad_request\",\"message\":\"the filter is wrong\",\"errorLink\":\"https://docs.example/errors\"}";

#[test]
fn well_formed_results_decode() {
    let rs: Results<Employee> = decode_results(OK_BODY).unwrap();

    assert_eq!(rs.query, "johnson");
    assert_eq!(rs.exhaustive_hits, true);
    assert_eq!(rs.hits, 2);
    assert_eq!(rs.exhaustive_facets, Some(false));
    assert_eq!(rs.limit, 20);
    assert_eq!(rs.offset, 0);
    assert_eq!(rs.duration, 7);
    assert_eq!(rs.results.len(), 2);
    assert_eq!(rs.results[0].firstname, "Luke");
    assert_eq!(rs.results[1].lastname, "Organa");
    assert_eq!(
        rs.distribution,
        Some(vec![(
            "roles".to_string(),
            vec![("ops".to_string(), 1), ("tech".to_string(), 2)]
        )])
    );
}

#[test]
fn optional_fields_null() {
    let body = "{\"query\":\"\",\"exhaustiveNbHits\":false,\"nbHits\":0,\"exhaustiveFacetsCount\":null,\"facetsDistribution\":null,\"limit\":20,\"offset\":0,\"processingTimeMs\":1,\"hits\":[]}";
    let rs: Results<Employee> = decode_results(body).unwrap();

    assert_eq!(rs.exhaustive_facets, None);
    assert_eq!(rs.distribution, None);
}

#[test]
fn optional_fields_absent() {
    let body = "{\"query\":\"\",\"exhaustiveNbHits\":false,\"nbHits\":0,\"limit\":20,\"offset\":0,\"processingTimeMs\":1,\"hits\":[]}";
    let rs: Results<Employee> = decode_results(body).unwrap();

    assert_eq!(rs.exhaustive_facets, None);
    assert_eq!(rs.distribution, None);
    assert_eq!(rs.results.len(), 0);
}

#[test]
fn malformed_results_are_upstream_errors() {
    // not JSON at all
    let r: Result<Results<Employee>, Error> = decode_results("not json");
    assert!(matches!(r, Err(Error::UpstreamError(_))));

    // well-formed JSON of the wrong shape
    let r: Result<Results<Employee>, Error> = decode_results("{\"query\":7}");
    assert!(matches!(r, Err(Error::UpstreamError(_))));

    // a hit the schema refuses
    let body = "{\"query\":\"\",\"exhaustiveNbHits\":false,\"nbHits\":1,\"limit\":20,\"offset\":0,\"processingTimeMs\":1,\"hits\":[{\"firstname\":7}]}";
    let r: Result<Results<Employee>, Error> = decode_results(body);
    assert!(matches!(r, Err(Error::UpstreamError(_))));
}

#[test]
fn success_status_decodes_results() {
    let r: Result<Results<Employee>, Error> = decode_response(200, OK_BODY);
    let rs = r.unwrap();
    assert_eq!(rs.hits, 2);
    assert_eq!(rs.results.len(), 2);
}

#[test]
fn rejection_carries_error_fields_verbatim() {
    let r: Result<Results<Employee>, Error> = decode_response(400, ERR_BODY);
    match r {
        Err(Error::InvalidQuery(e)) => {
            assert_eq!(e.kind, "invalid_request_error");
            assert_eq!(e.code, "bad_request");
            assert_eq!(e.message, "the filter is wrong");
            assert_eq!(e.link, "https://docs.example/errors");
        },
        _ => panic!("expected the invalid-query error"),
    }
}

#[test]
fn malformed_rejection_is_upstream_never_invalid_query() {
    let r: Result<Results<Employee>, Error> = decode_response(400, "oops not json");
    assert!(matches!(r, Err(Error::UpstreamError(_))));

    let r: Result<Results<Employee>, Error> = decode_response(500, "{\"message\":\"x\"}");
    assert!(matches!(r, Err(Error::UpstreamError(_))));
}

#[test]
fn success_status_with_malformed_body_is_upstream() {
    let r: Result<Results<Employee>, Error> = decode_response(200, ERR_BODY);
    assert!(matches!(r, Err(Error::UpstreamError(_))));
}

#[test]
fn iteration_by_reference_is_repeatable() {
    let rs: Results<Employee> = decode_results(OK_BODY).unwrap();

    let first: Vec<&Employee> = rs.iter_hits().iter().collect();
    let second: Vec<&Employee> = rs.iter_hits().iter().collect();
    assert_eq!(first, second);
    assert_eq!(first.len(), 2);

    let consumed = rs.into_hits();
    assert_eq!(consumed.len(), 2);
    assert_eq!(consumed[0].firstname, "Luke");
    assert_eq!(consumed[1].firstname, "Leia");
}
