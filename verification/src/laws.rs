//! What holds of every allow-list, request and response.

use crate::cors::{covers, decorated, endpoint_covers, EndpointView};
use crate::headers::{is_cors_header, with_cors_headers};
use crate::method::Method;
use crate::path::{is_wildcard, pattern_body, pattern_segments, SEPARATOR};
use crate::response::{header_key, Headers, ResponseView};
use crate::text::lemma_split_nonempty;
use vstd::prelude::*;

verus! {

/// A request is covered once an endpoint lists its method and the segments of
/// its path are those of the endpoint's pattern, one for one, where a wildcard
/// may stand for any segment.
pub proof fn lemma_listed_request_is_covered(
    endpoints: Seq<EndpointView>,
    at: int,
    method: Method,
    segments: Seq<Seq<char>>,
)
    requires
        0 <= at < endpoints.len(),
        endpoints[at].0.contains(method),
        segments.len() == pattern_segments(endpoints[at].1).len(),
        forall|i: int|
            0 <= i < segments.len() ==> (#[trigger] pattern_segments(endpoints[at].1)[i])
                == segments[i] || is_wildcard(pattern_segments(endpoints[at].1)[i]),
    ensures
        covers(endpoints, method, segments),
{
    assert(endpoint_covers(endpoints[at], method, segments));
}

/// An endpoint that covers no given request may be struck from the list: the
/// list covers that request with the endpoint as without it.
pub proof fn lemma_endpoint_skipped(
    endpoints: Seq<EndpointView>,
    at: int,
    method: Method,
    segments: Seq<Seq<char>>,
)
    requires
        0 <= at < endpoints.len(),
        !endpoint_covers(endpoints[at], method, segments),
    ensures
        covers(endpoints, method, segments) == covers(endpoints.remove(at), method, segments),
{
    let rest = endpoints.remove(at);
    if covers(endpoints, method, segments) {
        let i = choose|i: int|
            0 <= i < endpoints.len() && endpoint_covers(#[trigger] endpoints[i], method, segments);
        if i < at {
            assert(rest[i] == endpoints[i]);
        } else {
            assert(rest[i - 1] == endpoints[i]);
        }
        assert(covers(rest, method, segments));
    }
    if covers(rest, method, segments) {
        let i = choose|i: int|
            0 <= i < rest.len() && endpoint_covers(#[trigger] rest[i], method, segments);
        if i < at {
            assert(endpoints[i] == rest[i]);
        } else {
            assert(endpoints[i + 1] == rest[i]);
        }
        assert(covers(endpoints, method, segments));
    }
}

/// An endpoint that does not list the method of a request is skipped, unless
/// the request is a preflight request: the endpoint does not cover the request,
/// and the list covers it with the endpoint as without it.
pub proof fn lemma_unlisted_method_is_skipped(
    endpoints: Seq<EndpointView>,
    at: int,
    method: Method,
    segments: Seq<Seq<char>>,
)
    requires
        0 <= at < endpoints.len(),
        !endpoints[at].0.contains(method),
        method != Method::Options,
    ensures
        !endpoint_covers(endpoints[at], method, segments),
        covers(endpoints, method, segments) == covers(endpoints.remove(at), method, segments),
{
    lemma_endpoint_skipped(endpoints, at, method, segments);
}

/// An endpoint whose pattern has more or fewer segments than the path of a
/// request is skipped, whatever the method: the endpoint does not cover the
/// request, and the list covers it with the endpoint as without it.
pub proof fn lemma_other_length_is_skipped(
    endpoints: Seq<EndpointView>,
    at: int,
    method: Method,
    segments: Seq<Seq<char>>,
)
    requires
        0 <= at < endpoints.len(),
        pattern_segments(endpoints[at].1).len() != segments.len(),
    ensures
        !endpoint_covers(endpoints[at], method, segments),
        covers(endpoints, method, segments) == covers(endpoints.remove(at), method, segments),
{
    lemma_endpoint_skipped(endpoints, at, method, segments);
}

/// A pattern has at least one segment, so that no endpoint covers a path of no
/// segments.
pub proof fn lemma_no_segments_not_covered(endpoints: Seq<EndpointView>, method: Method)
    ensures
        !covers(endpoints, method, Seq::<Seq<char>>::empty()),
{
    assert forall|i: int| 0 <= i < endpoints.len() implies !endpoint_covers(
        #[trigger] endpoints[i],
        method,
        Seq::<Seq<char>>::empty(),
    ) by {
        lemma_split_nonempty(pattern_body(endpoints[i].1), SEPARATOR);
    }
}

/// The `/` that a pattern begins with may be left out: the pattern has the
/// same segments with it as without it.
pub proof fn lemma_leading_separator_optional(pattern: Seq<char>)
    requires
        pattern.len() == 0 || pattern[0] != SEPARATOR,
    ensures
        pattern_segments(seq![SEPARATOR] + pattern) == pattern_segments(pattern),
{
    assert((seq![SEPARATOR] + pattern).skip(1) == pattern);
}

/// Decorating a response twice leaves it as decorating it once does: the
/// headers are set, not added to.
pub proof fn lemma_decorate_idempotent(response: ResponseView, is_preflight: bool)
    ensures
        decorated(decorated(response, is_preflight), is_preflight) == decorated(
            response,
            is_preflight,
        ),
{
    let once = decorated(response, is_preflight);
    let twice = decorated(once, is_preflight);
    assert(twice.headers =~= once.headers);
}

/// The three names under which the headers are set are three different header
/// names.
pub proof fn lemma_cors_header_names_differ()
    ensures
        header_key("Access-Control-Allow-Origin"@) != header_key("Access-Control-Allow-Headers"@),
        header_key("Access-Control-Allow-Origin"@) != header_key("Access-Control-Allow-Methods"@),
        header_key("Access-Control-Allow-Headers"@) != header_key("Access-Control-Allow-Methods"@),
{
    reveal_strlit("Access-Control-Allow-Origin");
    reveal_strlit("Access-Control-Allow-Headers");
    reveal_strlit("Access-Control-Allow-Methods");
    let origin = header_key("Access-Control-Allow-Origin"@);
    let headers = header_key("Access-Control-Allow-Headers"@);
    let methods = header_key("Access-Control-Allow-Methods"@);
    assert(origin[21] == 'o');
    assert(headers[21] == 'h');
    assert(methods[21] == 'm');
}

/// Once the headers are set, each of the three has its one value, and every
/// other header is as it was.
pub proof fn lemma_cors_headers_set(headers: Headers)
    ensures
        with_cors_headers(headers).contains_key(header_key("Access-Control-Allow-Origin"@)),
        with_cors_headers(headers)[header_key("Access-Control-Allow-Origin"@)] == seq!["*"@],
        with_cors_headers(headers).contains_key(header_key("Access-Control-Allow-Headers"@)),
        with_cors_headers(headers)[header_key("Access-Control-Allow-Headers"@)]
            == seq!["accept, accept-language, authorization, content-type"@],
        with_cors_headers(headers).contains_key(header_key("Access-Control-Allow-Methods"@)),
        with_cors_headers(headers)[header_key("Access-Control-Allow-Methods"@)]
            == seq!["GET, POST, PUT, DELETE"@],
        forall|name: Seq<char>|
            !is_cors_header(name) ==> with_cors_headers(headers).contains_key(name)
                == headers.contains_key(name),
        forall|name: Seq<char>|
            !is_cors_header(name) ==> with_cors_headers(headers)[name] == headers[name],
{
    lemma_cors_header_names_differ();
}

} // verus!
