//! Which requests an allow-list covers.

use rocket_cors::method::contains_method;
use rocket_cors::path::match_path;
use rocket_cors::path::match_segments;
use rocket_cors::path::split_pattern;
use rocket_cors::path::strip_leading_separator;
use rocket_cors::path::wildcard;
use rocket_cors::text::split_text;
use rocket_cors::CORSEndpoint;
use rocket_cors::Method;
use rocket_cors::CORS;

fn endpoint(methods: &[Method], pattern: &str) -> CORSEndpoint {
    (methods.to_vec(), pattern.to_owned())
}

fn segments(parts: &[&str]) -> Vec<String> {
    parts.iter().map(|part| part.to_string()).collect()
}

#[test]
fn listed_method_and_equal_path_is_allowed() {
    let cors = CORS::new(vec![endpoint(&[Method::Get], "/endpoint")]);
    assert!(cors.allows(Method::Get, &segments(&["endpoint"])));
}

#[test]
fn every_listed_method_is_allowed() {
    let cors = CORS::new(vec![endpoint(&[Method::Get, Method::Put, Method::Delete], "/a/b")]);
    assert!(cors.allows(Method::Get, &segments(&["a", "b"])));
    assert!(cors.allows(Method::Put, &segments(&["a", "b"])));
    assert!(cors.allows(Method::Delete, &segments(&["a", "b"])));
    assert!(!cors.allows(Method::Post, &segments(&["a", "b"])));
    assert!(!cors.allows(Method::Patch, &segments(&["a", "b"])));
}

#[test]
fn unlisted_method_is_skipped() {
    let cors = CORS::new(vec![endpoint(&[Method::Put], "/endpoint")]);
    assert!(!cors.allows(Method::Get, &segments(&["endpoint"])));
    assert!(!cors.allows(Method::Head, &segments(&["endpoint"])));
}

#[test]
fn skipped_entry_leaves_the_rest_of_the_list_in_force() {
    let path = segments(&["endpoint"]);
    let with = CORS::new(vec![
        endpoint(&[Method::Put], "/endpoint"),
        endpoint(&[Method::Get], "/endpoint"),
    ]);
    let without = CORS::new(vec![endpoint(&[Method::Get], "/endpoint")]);
    assert_eq!(with.allows(Method::Get, &path), without.allows(Method::Get, &path));
    assert!(with.allows(Method::Get, &path));
    assert!(with.allows(Method::Put, &path));
    assert!(!with.allows(Method::Post, &path));
}

#[test]
fn preflight_is_admitted_whatever_the_methods() {
    let cors = CORS::new(vec![endpoint(&[Method::Get], "/endpoint")]);
    assert!(cors.allows(Method::Options, &segments(&["endpoint"])));
    assert!(!cors.allows(Method::Options, &segments(&["other"])));
    assert!(!cors.allows(Method::Options, &segments(&["endpoint", "more"])));
}

#[test]
fn other_segment_count_is_skipped_whatever_the_method() {
    let cors = CORS::new(vec![endpoint(&[Method::Get], "/some/endpoint")]);
    assert!(!cors.allows(Method::Get, &segments(&["endpoint"])));
    assert!(!cors.allows(Method::Options, &segments(&["endpoint"])));
    assert!(!cors.allows(Method::Get, &segments(&["some", "endpoint", "more"])));
    assert!(!cors.allows(Method::Get, &segments(&[])));
    assert!(cors.allows(Method::Get, &segments(&["some", "endpoint"])));
}

#[test]
fn other_segment_is_not_allowed() {
    let cors = CORS::new(vec![endpoint(&[Method::Get], "/some/endpoint")]);
    assert!(!cors.allows(Method::Get, &segments(&["another", "endpoint"])));
    assert!(!cors.allows(Method::Get, &segments(&["some", "other"])));
    assert!(!cors.allows(Method::Get, &segments(&["Some", "endpoint"])));
}

#[test]
fn mismatch_before_a_matching_last_segment_is_not_allowed() {
    let cors = CORS::new(vec![endpoint(&[Method::Get], "/a/b/:c")]);
    assert!(!cors.allows(Method::Get, &segments(&["x", "b", "c"])));
    assert!(!cors.allows(Method::Get, &segments(&["a", "x", "c"])));
    assert!(cors.allows(Method::Get, &segments(&["a", "b", "x"])));
}

#[test]
fn wildcard_matches_any_single_segment() {
    let cors = CORS::new(vec![endpoint(&[Method::Get], "/cors/:something")]);
    assert!(cors.allows(Method::Get, &segments(&["cors", "42"])));
    assert!(cors.allows(Method::Get, &segments(&["cors", "endpoint"])));
    assert!(cors.allows(Method::Get, &segments(&["cors", ""])));
    assert!(cors.allows(Method::Get, &segments(&["cors", ":something"])));
}

#[test]
fn wildcard_matches_no_more_and_no_less_than_one_segment() {
    let cors = CORS::new(vec![endpoint(&[Method::Get], "/cors/:something")]);
    assert!(!cors.allows(Method::Get, &segments(&["cors"])));
    assert!(!cors.allows(Method::Get, &segments(&["cors", "4", "2"])));
    assert!(!cors.allows(Method::Get, &segments(&["other", "42"])));
}

#[test]
fn wildcard_in_the_middle_of_a_pattern() {
    let cors = CORS::new(vec![
        endpoint(&[Method::Get, Method::Put], "/api/:user/action"),
        endpoint(&[Method::Delete], "/api/:user/delete"),
    ]);
    assert!(cors.allows(Method::Get, &segments(&["api", "ada", "action"])));
    assert!(cors.allows(Method::Put, &segments(&["api", "7", "action"])));
    assert!(cors.allows(Method::Delete, &segments(&["api", "ada", "delete"])));
    assert!(!cors.allows(Method::Delete, &segments(&["api", "ada", "action"])));
    assert!(!cors.allows(Method::Get, &segments(&["api", "ada", "delete"])));
}

#[test]
fn later_entry_is_reached_when_earlier_ones_do_not_match() {
    let cors = CORS::new(vec![
        endpoint(&[Method::Get], "/first"),
        endpoint(&[Method::Post], "/second"),
        endpoint(&[Method::Get], "/third/:id"),
    ]);
    assert!(cors.allows(Method::Get, &segments(&["third", "3"])));
    assert!(cors.allows(Method::Post, &segments(&["second"])));
    assert!(!cors.allows(Method::Post, &segments(&["first"])));
}

#[test]
fn empty_list_allows_nothing() {
    let cors = CORS::new(vec![]);
    assert!(!cors.allows(Method::Get, &segments(&["endpoint"])));
    assert!(!cors.allows(Method::Options, &segments(&[])));
}

#[test]
fn empty_method_set_admits_preflight_only() {
    let cors = CORS::new(vec![endpoint(&[], "/endpoint")]);
    assert!(!cors.allows(Method::Get, &segments(&["endpoint"])));
    assert!(cors.allows(Method::Options, &segments(&["endpoint"])));
}

#[test]
fn repeated_method_in_a_set_changes_nothing() {
    let cors = CORS::new(vec![endpoint(&[Method::Get, Method::Get], "/endpoint")]);
    assert!(cors.allows(Method::Get, &segments(&["endpoint"])));
    assert!(!cors.allows(Method::Put, &segments(&["endpoint"])));
}

#[test]
fn leading_slash_of_a_pattern_is_optional() {
    let with = CORS::new(vec![endpoint(&[Method::Get], "/some/endpoint")]);
    let without = CORS::new(vec![endpoint(&[Method::Get], "some/endpoint")]);
    let path = segments(&["some", "endpoint"]);
    assert!(with.allows(Method::Get, &path));
    assert!(without.allows(Method::Get, &path));
    assert_eq!(split_pattern("/some/endpoint"), split_pattern("some/endpoint"));
}

#[test]
fn root_pattern_has_one_empty_segment() {
    let cors = CORS::new(vec![endpoint(&[Method::Get], "/")]);
    assert!(!cors.allows(Method::Get, &segments(&[])));
    assert!(cors.allows(Method::Get, &segments(&[""])));
    assert!(!cors.allows(Method::Get, &segments(&["endpoint"])));
}

#[test]
fn empty_pattern_has_one_empty_segment() {
    let cors = CORS::new(vec![endpoint(&[Method::Get], "")]);
    assert!(!cors.allows(Method::Get, &segments(&[])));
    assert!(cors.allows(Method::Get, &segments(&[""])));
    assert!(!cors.allows(Method::Get, &segments(&["endpoint"])));
}

#[test]
fn split_pattern_gives_the_segments() {
    assert_eq!(split_pattern("/endpoint"), segments(&["endpoint"]));
    assert_eq!(split_pattern("/api/:user/action"), segments(&["api", ":user", "action"]));
    assert_eq!(split_pattern("api/:user"), segments(&["api", ":user"]));
    assert_eq!(split_pattern(""), segments(&[""]));
    assert_eq!(split_pattern("/"), segments(&[""]));
    assert_eq!(split_pattern("//"), segments(&["", ""]));
    assert_eq!(split_pattern("//a"), segments(&["", "a"]));
    assert_eq!(split_pattern("/a/"), segments(&["a", ""]));
    assert_eq!(split_pattern("a//b"), segments(&["a", "", "b"]));
}

#[test]
fn split_pattern_counts_characters_not_bytes() {
    assert_eq!(split_pattern("/caf\u{e9}/:\u{fc}ber/\u{65e5}\u{672c}"), segments(&[
        "caf\u{e9}",
        ":\u{fc}ber",
        "\u{65e5}\u{672c}",
    ]));
    let cors = CORS::new(vec![endpoint(&[Method::Get], "/caf\u{e9}/:id")]);
    assert!(cors.allows(Method::Get, &segments(&["caf\u{e9}", "\u{65e5}"])));
    assert!(!cors.allows(Method::Get, &segments(&["cafe", "1"])));
}

#[test]
fn split_text_gives_one_piece_more_than_separators() {
    assert_eq!(split_text("a,b,c", ','), segments(&["a", "b", "c"]));
    assert_eq!(split_text("abc", ','), segments(&["abc"]));
    assert_eq!(split_text("", ','), segments(&[""]));
    assert_eq!(split_text(",", ','), segments(&["", ""]));
    assert_eq!(split_text(",a,,b,", ','), segments(&["", "a", "", "b", ""]));
    assert_eq!(split_text("a/b", ','), segments(&["a/b"]));
}

#[test]
fn split_text_joined_again_is_the_text() {
    for text in ["", "/", "a/b", "/a//b/", "no separator", "\u{e9}/\u{e8}"] {
        let pieces = split_text(text, '/');
        assert_eq!(pieces.join("/"), text);
        assert!(pieces.iter().all(|piece| !piece.contains('/')));
    }
}

#[test]
fn strip_leading_separator_takes_one_slash_away() {
    assert_eq!(strip_leading_separator("/endpoint"), "endpoint");
    assert_eq!(strip_leading_separator("endpoint"), "endpoint");
    assert_eq!(strip_leading_separator("//endpoint"), "/endpoint");
    assert_eq!(strip_leading_separator("/"), "");
    assert_eq!(strip_leading_separator(""), "");
    assert_eq!(strip_leading_separator("a/"), "a/");
}

#[test]
fn wildcard_begins_with_a_colon() {
    assert!(wildcard(":something"));
    assert!(wildcard(":"));
    assert!(wildcard("::"));
    assert!(!wildcard(""));
    assert!(!wildcard("something"));
    assert!(!wildcard("some:thing"));
    assert!(!wildcard("/:something"));
}

#[test]
fn match_segments_holds_segment_against_segment() {
    assert!(match_segments(&segments(&["a", ":b"]), &segments(&["a", "x"])));
    assert!(!match_segments(&segments(&["a", ":b"]), &segments(&["x", "a"])));
    assert!(!match_segments(&segments(&["a", "b"]), &segments(&["a"])));
    assert!(!match_segments(&segments(&["a"]), &segments(&["a", "b"])));
    assert!(!match_segments(&segments(&["a"]), &segments(&[":a"])));
}

#[test]
fn match_segments_of_none_against_none_holds() {
    assert!(match_segments(&segments(&[]), &segments(&[])));
    assert!(!match_segments(&segments(&[]), &segments(&["a"])));
    assert!(!match_segments(&segments(&[":a"]), &segments(&[])));
}

#[test]
fn match_path_splits_the_pattern_first() {
    assert!(match_path("/cors/:something", &segments(&["cors", "42"])));
    assert!(match_path("cors/:something", &segments(&["cors", "42"])));
    assert!(!match_path("/cors/:something", &segments(&["cors"])));
    assert!(!match_path("/some/endpoint", &segments(&["endpoint"])));
}

#[test]
fn contains_method_finds_what_is_listed() {
    assert!(contains_method(&vec![Method::Get, Method::Put], Method::Put));
    assert!(contains_method(&vec![Method::Get, Method::Put], Method::Get));
    assert!(!contains_method(&vec![Method::Get, Method::Put], Method::Options));
    assert!(!contains_method(&vec![], Method::Get));
}

#[test]
fn options_is_the_preflight_method() {
    assert!(Method::Options.is_preflight());
    for method in [
        Method::Get,
        Method::Put,
        Method::Post,
        Method::Delete,
        Method::Head,
        Method::Trace,
        Method::Connect,
        Method::Patch,
    ] {
        assert!(!method.is_preflight());
    }
}
