//! Path patterns and how request paths are held against them.
//!
//! A pattern is a route written as text, its segments parted by `/`. A segment
//! that begins with `:` is a wildcard: it stands for any one segment of a
//! request path.

use crate::text::{split, split_text};
use vstd::prelude::*;

verus! {

/// The character that parts the segments of a path.
pub const SEPARATOR: char = '/';

/// The character that a wildcard segment begins with.
pub const WILDCARD: char = ':';

/// A pattern without the one `/` that it may begin with.
pub open spec fn pattern_body(pattern: Seq<char>) -> Seq<char> {
    if pattern.len() > 0 && pattern[0] == SEPARATOR {
        pattern.skip(1)
    } else {
        pattern
    }
}

/// The segments of a pattern.
pub open spec fn pattern_segments(pattern: Seq<char>) -> Seq<Seq<char>> {
    split(pattern_body(pattern), SEPARATOR)
}

/// Whether a pattern segment stands for any request segment.
pub open spec fn is_wildcard(segment: Seq<char>) -> bool {
    segment.len() > 0 && segment[0] == WILDCARD
}

/// Whether the pattern segment `pattern` admits the request segment `actual`.
pub open spec fn segment_matches(pattern: Seq<char>, actual: Seq<char>) -> bool {
    pattern == actual || is_wildcard(pattern)
}

/// Whether the pattern segments admit the request segments: as many of the
/// one as of the other, and each pattern segment admits the request segment at
/// its place.
pub open spec fn segments_match(pattern: Seq<Seq<char>>, actual: Seq<Seq<char>>) -> bool {
    &&& pattern.len() == actual.len()
    &&& forall|i: int| 0 <= i < pattern.len() ==> segment_matches(#[trigger] pattern[i], actual[i])
}

/// Whether the pattern admits a request path with the segments `actual`.
pub open spec fn path_matches(pattern: Seq<char>, actual: Seq<Seq<char>>) -> bool {
    segments_match(pattern_segments(pattern), actual)
}

/// `pattern` without the one `/` that it may begin with.
pub fn strip_leading_separator(pattern: &str) -> (body: &str)
    ensures
        body@ == pattern_body(pattern@),
{
    if !pattern.is_empty() && pattern.get_char(0) == SEPARATOR {
        pattern.substring_char(1, pattern.unicode_len())
    } else {
        pattern
    }
}

/// The segments of `pattern`: the pattern split at each `/`, once the one `/`
/// that it may begin with is taken away.
pub fn split_pattern(pattern: &str) -> (segments: Vec<String>)
    ensures
        segments.deep_view() == pattern_segments(pattern@),
{
    split_text(strip_leading_separator(pattern), SEPARATOR)
}

/// Whether `segment` is a wildcard.
pub fn wildcard(segment: &str) -> (wild: bool)
    ensures
        wild == is_wildcard(segment@),
{
    !segment.is_empty() && segment.get_char(0) == WILDCARD
}

/// Whether the pattern segments `pattern` admit the request segments `actual`.
pub fn match_segments(pattern: &Vec<String>, actual: &Vec<String>) -> (matched: bool)
    ensures
        matched == segments_match(pattern.deep_view(), actual.deep_view()),
{
    if pattern.len() != actual.len() {
        return false;
    }
    let mut i: usize = 0;
    while i < pattern.len()
        invariant
            i <= pattern.len(),
            pattern.len() == actual.len(),
            forall|j: int|
                0 <= j < i ==> segment_matches(
                    #[trigger] pattern.deep_view()[j],
                    actual.deep_view()[j],
                ),
        decreases pattern.len() - i,
    {
        let same = pattern[i] == actual[i];
        if !same && !wildcard(pattern[i].as_str()) {
            proof {
                assert(!segment_matches(pattern.deep_view()[i as int], actual.deep_view()[i as int]));
            }
            return false;
        }
        i += 1;
    }
    true
}

/// Whether `pattern` admits a request path with the segments `actual`.
pub fn match_path(pattern: &str, actual: &Vec<String>) -> (matched: bool)
    ensures
        matched == path_matches(pattern@, actual.deep_view()),
{
    let segments = split_pattern(pattern);
    match_segments(&segments, actual)
}

} // verus!
