//! Tests for the query builder and its wire grammar.

use tcgdex_sdk::Query;

#[test]
fn test_query_builder() {
    let mut query = Query::new();
    assert_eq!(query.build(), "");

    query.equal("name", "Pikachu");
    assert_eq!(query.build(), "?name=eq%3APikachu");

    query.not_equal("type", "Fire");
    assert_eq!(query.build(), "?name=eq%3APikachu&type=neq%3AFire");

    query.greater_than("hp", "100");
    assert_eq!(
        query.build(),
        "?name=eq%3APikachu&type=neq%3AFire&hp=gt%3A100"
    );

    query.sort("name", "asc");
    assert_eq!(
        query.build(),
        "?name=eq%3APikachu&type=neq%3AFire&hp=gt%3A100&sort%3Afield=name&sort%3Aorder=asc"
    );
}

#[test]
fn fresh_query_builds_empty_string() {
    let query = Query::new();
    assert_eq!(query.build(), "");
    let default_query = Query::default();
    assert_eq!(default_query.build(), "");
}

#[test]
fn one_segment_per_call_in_call_order() {
    let mut query = Query::new();
    query.contains("name", "chu");
    query.is_null("effect");
    query.not_null("hp");
    query.less_than("hp", "60");
    query.less_or_equal_than("retreat", "2");
    query.greater_or_equal_than("hp", "30");
    let built = query.build();
    assert!(built.starts_with('?'));
    let segments: Vec<&str> = built[1..].split('&').collect();
    assert_eq!(
        segments,
        vec![
            "name=chu",
            "effect=null%3A",
            "hp=notnull%3A",
            "hp=lt%3A60",
            "retreat=lte%3A2",
            "hp=gte%3A30",
        ]
    );
}

#[test]
fn sort_and_paginate_append_two_segments() {
    let mut query = Query::new();
    query.sort("hp", "desc");
    assert_eq!(query.build(), "?sort%3Afield=hp&sort%3Aorder=desc");

    let mut paged = Query::new();
    paged.paginate(3, 25);
    assert_eq!(
        paged.build(),
        "?pagination%3Apage=3&pagination%3AitemsPerPage=25"
    );
}

#[test]
fn limit_appends_without_deduplication() {
    let mut query = Query::new();
    query.paginate(1, 10);
    query.limit(5);
    assert_eq!(
        query.build(),
        "?pagination%3Apage=1&pagination%3AitemsPerPage=10&pagination%3AitemsPerPage=5"
    );
}

#[test]
fn aliases_match_their_base_methods() {
    let mut via_alias = Query::new();
    via_alias.includes("a", "1");
    via_alias.like("b", "2");
    via_alias.not_includes("c", "3");
    via_alias.not_like("d", "4");
    via_alias.gt("e", "5");
    via_alias.gte("f", "6");
    via_alias.lt("g", "7");
    via_alias.lte("h", "8");

    let mut via_base = Query::new();
    via_base.contains("a", "1");
    via_base.contains("b", "2");
    via_base.not_contains("c", "3");
    via_base.not_contains("d", "4");
    via_base.greater_than("e", "5");
    via_base.greater_or_equal_than("f", "6");
    via_base.less_than("g", "7");
    via_base.less_or_equal_than("h", "8");

    assert_eq!(via_alias.build(), via_base.build());
}

#[test]
fn spaces_and_quotes_in_values() {
    // A space is first rewritten to `%20`, whose `%` is then form-urlencoded.
    let mut query = Query::new();
    query.equal("name", "Mr. Mime");
    assert_eq!(query.build(), "?name=eq%3AMr.%2520Mime");

    // Quotes and backslashes are stripped before encoding.
    let mut quoted = Query::new();
    quoted.equal("name", "a\"b'c\\d");
    assert_eq!(quoted.build(), "?name=eq%3Aabcd");
}

#[test]
fn round_trip_through_form_urlencoded_decoding() {
    // Encoding must not double-escape the operator separator: the
    // server-side decoding of the encoded value yields `eq:Pikachu` again.
    let mut query = Query::new();
    query.equal("name", "Pikachu");
    let built = query.build();
    assert_eq!(built, "?name=eq%3APikachu");

    let decoded: Vec<(String, String)> = url::form_urlencoded::parse(built[1..].as_bytes())
        .map(|(k, v)| (k.into_owned(), v.into_owned()))
        .collect();
    assert_eq!(decoded.len(), 1);
    assert_eq!(decoded[0].0, "name");
    assert_eq!(decoded[0].1, "eq:Pikachu");
    let filter = decoded[0].1.strip_prefix("eq:").unwrap();
    assert_eq!(filter, "Pikachu");
}

#[test]
fn non_ascii_values_percent_encode_their_utf8_bytes() {
    let mut query = Query::new();
    query.equal("name", "Pok\u{e9}");
    assert_eq!(query.build(), "?name=eq%3APok%C3%A9");
}

#[test]
fn keys_are_encoded_like_values() {
    let mut query = Query::new();
    query.contains("sort:field", "name");
    assert_eq!(query.build(), "?sort%3Afield=name");
}
