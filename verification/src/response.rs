//! What the library reads and writes of a Rocket response.
//!
//! A response is held as Rocket made it. The library speaks of three things in
//! it: its status code, its headers and the bytes of its body.

use rocket::Response;
use rocket::http::Status;
use std::io::Cursor;
use vstd::prelude::*;

verus! {

/// Rocket's `Response`, carried through as Rocket made it: what is inside it
/// is read and written through the functions below and in no other way.
#[verifier::external_type_specification]
#[verifier::external_body]
pub struct ExResponse<'r>(Response<'r>);

/// The headers of a response: under each header name, folded to lower case by
/// [`header_key`], the values set for that name, in order. A name that the
/// response has no header for is not in the map.
pub type Headers = Map<Seq<char>, Seq<Seq<char>>>;

/// The status code of a response: the code of what `Response::status` gives
/// for it.
pub uninterp spec fn response_status(response: &Response<'_>) -> u16;

/// The headers of a response: what `Response::headers` holds for it.
pub uninterp spec fn response_headers(response: &Response<'_>) -> Headers;

/// The bytes of a response's body: what the body that `Response::body` gives
/// for it yields when it is read to its end.
pub uninterp spec fn response_body(response: &Response<'_>) -> Seq<u8>;

/// A response as the library sees it.
pub struct ResponseView {
    pub status: u16,
    pub headers: Headers,
    pub body: Seq<u8>,
}

/// What the library sees of `response`.
pub open spec fn view_of(response: &Response<'_>) -> ResponseView {
    ResponseView {
        status: response_status(response),
        headers: response_headers(response),
        body: response_body(response),
    }
}

/// An ASCII capital letter as its small letter, any other character as it is.
pub open spec fn ascii_lower(c: char) -> char {
    if 'A' <= c && c <= 'Z' {
        ((c as u8) + 32) as char
    } else {
        c
    }
}

/// The form of a header name under which its values are kept: header names
/// that differ only in the case of ASCII letters are one name.
pub open spec fn header_key(name: Seq<char>) -> Seq<char> {
    name.map_values(|c: char| ascii_lower(c))
}

/// The status code of a response that succeeded.
pub const STATUS_OK: u16 = 200;

/// Calls `Response::set_raw_header`. Trusted: that the header `name` then has
/// the one value `value`, whatever values it had under any casing of its name,
/// and that the other headers, the status and the body are as they were.
#[verifier::external_body]
pub(crate) fn set_header(response: &mut Response<'_>, name: String, value: String)
    ensures
        response_headers(final(response)) == response_headers(old(response)).insert(
            header_key(name@),
            seq![value@],
        ),
        response_status(final(response)) == response_status(old(response)),
        response_body(final(response)) == response_body(old(response)),
{
    response.set_raw_header(name, value);
}

/// Calls `Response::set_status` with the status of code `code`. Trusted: that
/// the response then has that status code, and that its headers and its body
/// are as they were.
#[verifier::external_body]
pub(crate) fn set_status(response: &mut Response<'_>, code: u16)
    ensures
        response_status(final(response)) == code,
        response_headers(final(response)) == response_headers(old(response)),
        response_body(final(response)) == response_body(old(response)),
{
    response.set_status(Status::new(code));
}

/// Calls `Response::set_sized_body` with the size 0 and a reader over no
/// bytes. Trusted: that the response then has a body of no bytes, and that its
/// status and its headers are as they were.
#[verifier::external_body]
pub(crate) fn set_empty_body(response: &mut Response<'_>)
    ensures
        response_body(final(response)) == Seq::<u8>::empty(),
        response_status(final(response)) == response_status(old(response)),
        response_headers(final(response)) == response_headers(old(response)),
{
    response.set_sized_body(0, Cursor::new(""));
}

} // verus!
