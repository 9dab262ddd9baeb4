use meilimelo::MeiliMelo;
use meilimelo::facets::FacetBuilder;
use meilimelo::search::Crop;

#[test]
fn index() {
    let meili = MeiliMelo::new("");
    let query = meili.search("employees");

    assert_eq!(query.index, "employees");
    assert_eq!(query.query, None);
}

#[test]
fn query() {
    let meili = MeiliMelo::new("");
    let query = meili.search("employees").query("skywalker");

    assert_eq!(query.query.as_deref(), Some("skywalker"));
}

#[test]
fn filters() {
    let meili = MeiliMelo::new("");
    let query = meili.search("employees").filters("name = skywalker");

    assert_eq!(query.filters.as_deref(), Some("name = skywalker"));
}

#[test]
fn limit_offset() {
    let meili = MeiliMelo::new("");
    let query = meili.search("employees").limit(10).offset(20);

    assert_eq!(query.limit, Some(10));
    assert_eq!(query.offset, Some(20));
}

#[test]
fn facets() {
    let meili = MeiliMelo::new("");
    let query = meili.search("employees").facets(
        FacetBuilder::new("company", "ACME")
            .or("company", "Corp")
            .and("department", "IT")
            .build(),
    );

    assert_eq!(
        query.facets,
        Some(vec![
            vec!["company:ACME".to_string(), "company:Corp".to_string()],
            vec!["department:IT".to_string()]
        ])
    );
}

#[test]
fn retrieve() {
    let meili = MeiliMelo::new("");
    let query = meili.search("employees").retrieve(&["firstname", "lastname"]);

    assert_eq!(
        query.retrieve,
        Some(vec!["firstname".to_string(), "lastname".to_string()])
    );
}

#[test]
fn distribution() {
    let meili = MeiliMelo::new("");
    let query = meili.search("employees").distribution(&["age"]);

    assert_eq!(query.distribution, Some(vec!["age".to_string()]));
}

#[test]
fn crop() {
    let meili = MeiliMelo::new("");
    let query = meili.search("employees").crop(&[
        Crop::Attr("firstname".to_string()),
        Crop::At("lastname".to_string(), 10),
    ]);

    assert_eq!(
        query.crop,
        Some(vec!["firstname".to_string(), "lastname:10".to_string()])
    );
}

#[test]
fn crop_length() {
    let meili = MeiliMelo::new("");
    let query = meili.search("employees").crop_length(32);

    assert_eq!(query.crop_length, Some(32));
}

#[test]
fn highlight() {
    let meili = MeiliMelo::new("");
    let query = meili.search("employees").highlight(&["overview", "bio"]);

    assert_eq!(
        query.highlight,
        Some(vec!["overview".to_string(), "bio".to_string()])
    );
}

#[test]
fn facet_group_shape() {
    let groups = FacetBuilder::new("company", "ACME")
        .or("company", "Big Corp")
        .and("roles", "Tech")
        .build()
        .get();

    assert_eq!(
        groups,
        vec![
            vec!["company:ACME".to_string(), "company:Big Corp".to_string()],
            vec!["roles:Tech".to_string()]
        ]
    );
}

#[test]
fn facet_group_counts() {
    // one group per `and` plus one; clause counts follow the `or` calls
    let groups = FacetBuilder::new("a", "1")
        .or("a", "2")
        .or("a", "3")
        .and("b", "1")
        .and("c", "1")
        .or("c", "2")
        .build()
        .get();

    assert_eq!(groups.len(), 3);
    assert_eq!(groups[0].len(), 3);
    assert_eq!(groups[1].len(), 1);
    assert_eq!(groups[2].len(), 2);
}

#[test]
fn setter_chain_value_semantics() {
    let meili = MeiliMelo::new("");
    let q = meili.search("idx").query("x").limit(10).offset(5);

    assert_eq!(q.query.as_deref(), Some("x"));
    assert_eq!(q.limit, Some(10));
    assert_eq!(q.offset, Some(5));
    assert_eq!(q.filters, None);
    assert_eq!(q.facets, None);
    assert_eq!(q.retrieve, None);
    assert_eq!(q.crop, None);
    assert_eq!(q.crop_length, None);
    assert_eq!(q.highlight, None);
    assert_eq!(q.distribution, None);
    assert_eq!(q.matches, false);
}

#[test]
fn crop_directive_forms() {
    let meili = MeiliMelo::new("");
    let q = meili.search("idx").crop(&[
        Crop::Attr("overview".to_string()),
        Crop::At("description".to_string(), 10),
    ]);

    assert_eq!(
        q.crop,
        Some(vec!["overview".to_string(), "description:10".to_string()])
    );
}

#[test]
fn crop_negative_length() {
    let meili = MeiliMelo::new("");
    let q = meili.search("idx").crop(&[Crop::At("bio".to_string(), -7)]);

    assert_eq!(q.crop, Some(vec!["bio:-7".to_string()]));
}

#[test]
fn search_url() {
    let meili = MeiliMelo::new("http://example.test:7700");
    let q = meili.search("employees");

    assert_eq!(q.url(), "http://example.test:7700/indexes/employees/search");
}

#[test]
fn secret_key_is_kept() {
    let meili = MeiliMelo::new("http://example.test:7700").with_secret_key("abcdef");

    assert_eq!(meili.secret_key(), Some("abcdef"));
    assert_eq!(meili.host(), "http://example.test:7700");

    let bare = MeiliMelo::new("h");
    assert_eq!(bare.secret_key(), None);
}

#[test]
fn auth_header_follows_secret() {
    let meili = MeiliMelo::new("h").with_secret_key("abcdef");
    assert_eq!(
        meili.auth_header(),
        Some(("X-Meili-API-Key".to_string(), "abcdef".to_string()))
    );
    assert_eq!(MeiliMelo::new("h").auth_header(), None);
}

#[test]
fn body_of_fresh_query() {
    let meili = MeiliMelo::new("");
    let q = meili.search("idx");

    assert_eq!(String::from_utf8(q.body()).unwrap(), "{\"matches\":false}");
}

#[test]
fn body_with_parameters() {
    let meili = MeiliMelo::new("");
    let q = meili
        .search("idx")
        .query("johnson")
        .filters("age > 3")
        .facets(FacetBuilder::new("company", "ACME").or("company", "Corp").and("roles", "Tech").build())
        .limit(10)
        .offset(-2)
        .retrieve(&["firstname", "lastname"])
        .crop(&[Crop::Attr("overview".to_string()), Crop::At("bio".to_string(), 12)])
        .crop_length(32)
        .highlight(&["overview"])
        .distribution(&["roles"]);

    let expected = "{\"q\":\"johnson\",\"filters\":\"age > 3\",\"facetFilters\":[[\"company:ACME\",\"company:Corp\"],[\"roles:Tech\"]],\"limit\":10,\"offset\":-2,\"attributesToRetrieve\":[\"firstname\",\"lastname\"],\"attributesToCrop\":[\"overview\",\"bio:12\"],\"cropLength\":32,\"attributesToHighlight\":[\"overview\"],\"facetsDistribution\":[\"roles\"],\"matches\":false}";
    assert_eq!(String::from_utf8(q.body()).unwrap(), expected);
}

#[test]
fn body_escapes_strings() {
    let meili = MeiliMelo::new("");
    let q = meili.search("idx").query("a\"b\\c\nd");

    assert_eq!(
        String::from_utf8(q.body()).unwrap(),
        "{\"q\":\"a\\\"b\\\\c\\u000ad\",\"matches\":false}"
    );
}
