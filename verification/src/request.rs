//! What the library reads of a Rocket request.

use crate::method::Method;
use rocket::Request;
use vstd::prelude::*;

verus! {

/// Rocket's `Request`, carried through as Rocket made it: what is inside it is
/// read through the functions below and in no other way.
#[verifier::external_type_specification]
#[verifier::external_body]
pub struct ExRequest<'r>(Request<'r>);

/// The method that a request was made with: what `Request::method` gives for
/// it.
pub uninterp spec fn request_method(request: &Request<'_>) -> Method;

/// The segments of a request's path, in order: what `Path::segments` yields
/// for the path of the request's URI, which is what lies between the slashes
/// of the path, percent-decoded, the empty stretches left out.
pub uninterp spec fn request_segments(request: &Request<'_>) -> Seq<Seq<char>>;

/// Calls `Request::method` and hands the method back as a [`Method`], variant
/// by variant. Trusted: that the result is the request's method.
#[verifier::external_body]
pub(crate) fn method_of(request: &Request<'_>) -> (method: Method)
    ensures
        method == request_method(request),
{
    match request.method() {
        rocket::http::Method::Get => Method::Get,
        rocket::http::Method::Put => Method::Put,
        rocket::http::Method::Post => Method::Post,
        rocket::http::Method::Delete => Method::Delete,
        rocket::http::Method::Options => Method::Options,
        rocket::http::Method::Head => Method::Head,
        rocket::http::Method::Trace => Method::Trace,
        rocket::http::Method::Connect => Method::Connect,
        rocket::http::Method::Patch => Method::Patch,
    }
}

/// Walks `Path::segments` over the path of the request's URI and collects the
/// segments as owned strings. Trusted: that the result holds the request's
/// segments, in order.
#[verifier::external_body]
pub(crate) fn segments_of(request: &Request<'_>) -> (segments: Vec<String>)
    ensures
        segments.deep_view() == request_segments(request),
{
    request.uri().path().segments().map(String::from).collect()
}

} // verus!
