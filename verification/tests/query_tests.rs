use anim_pipeline::query::parse_url_query_string;

#[test]
fn query_finds_a_key() {
    assert_eq!(
        parse_url_query_string("?RUST_LOG=info", "RUST_LOG"),
        Some("info")
    );
}

#[test]
fn query_finds_a_later_pair() {
    assert_eq!(parse_url_query_string("?a=b&c=d", "c"), Some("d"));
    assert_eq!(parse_url_query_string("?a=b&c=d", "a"), Some("b"));
}

#[test]
fn query_without_question_mark_is_rejected() {
    assert_eq!(parse_url_query_string("a=b", "a"), None);
    assert_eq!(parse_url_query_string("", "a"), None);
}

#[test]
fn query_missing_key_gives_nothing() {
    assert_eq!(parse_url_query_string("?a=b&c=d", "x"), None);
}

#[test]
fn query_pair_without_equals_aborts_the_lookup() {
    // The pair `a` has no value; the lookup gives up even though `c=d`
    // follows.
    assert_eq!(parse_url_query_string("?a&c=d", "c"), None);
}

#[test]
fn query_value_stops_at_a_second_equals() {
    assert_eq!(parse_url_query_string("?a=b=c", "a"), Some("b"));
}

#[test]
fn query_empty_value() {
    assert_eq!(parse_url_query_string("?a=", "a"), Some(""));
}

#[test]
fn query_first_match_wins() {
    assert_eq!(parse_url_query_string("?k=1&k=2", "k"), Some("1"));
}
