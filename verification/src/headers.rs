//! The header lines that allow a response to be read across origins.
//!
//! The lines are hyper's typed headers, written out by hyper.

use crate::method::Method;
use crate::response::{header_key, Headers};
use crate::text::join;
use hyper::header::{
    AccessControlAllowHeaders,
    AccessControlAllowMethods,
    AccessControlAllowOrigin,
    Header,
};
use unicase::UniCase;
use vstd::prelude::*;

verus! {

/// What parts a list from the next in a header value.
pub open spec fn list_separator() -> Seq<char> {
    ", "@
}

/// The tokens of `methods`, in order.
pub open spec fn method_tokens(methods: Seq<Method>) -> Seq<Seq<char>> {
    methods.map_values(|method: Method| method.token())
}

/// The name of hyper's `AccessControlAllowOrigin` header, from its
/// `header_name`. Trusted: the text of the name.
#[verifier::external_body]
pub(crate) fn allow_origin_name() -> (name: String)
    ensures
        name@ == "Access-Control-Allow-Origin"@,
{
    AccessControlAllowOrigin::header_name().to_owned()
}

/// The value that hyper writes for `AccessControlAllowOrigin::Any`. Trusted:
/// that it is a single asterisk.
#[verifier::external_body]
pub(crate) fn allow_any_origin() -> (value: String)
    ensures
        value@ == "*"@,
{
    AccessControlAllowOrigin::Any.to_string()
}

/// The name of hyper's `AccessControlAllowHeaders` header, from its
/// `header_name`. Trusted: the text of the name.
#[verifier::external_body]
pub(crate) fn allow_headers_name() -> (name: String)
    ensures
        name@ == "Access-Control-Allow-Headers"@,
{
    AccessControlAllowHeaders::header_name().to_owned()
}

/// The value that hyper writes for an `AccessControlAllowHeaders` of the header
/// names `names`, each held in a `UniCase`. Trusted: that it is the names as
/// they were given, in order, with a comma and a space between them.
#[verifier::external_body]
pub(crate) fn allow_headers_value(names: Vec<String>) -> (value: String)
    ensures
        value@ == join(names.deep_view(), list_separator()),
{
    AccessControlAllowHeaders(names.into_iter().map(UniCase).collect()).to_string()
}

/// The name of hyper's `AccessControlAllowMethods` header, from its
/// `header_name`. Trusted: the text of the name.
#[verifier::external_body]
pub(crate) fn allow_methods_name() -> (name: String)
    ensures
        name@ == "Access-Control-Allow-Methods"@,
{
    AccessControlAllowMethods::header_name().to_owned()
}

/// The value that hyper writes for an `AccessControlAllowMethods` of
/// `methods`, each handed over as hyper's method of the same name. Trusted:
/// that it is the methods' tokens, in order, with a comma and a space between
/// them.
#[verifier::external_body]
pub(crate) fn allow_methods_value(methods: Vec<Method>) -> (value: String)
    ensures
        value@ == join(method_tokens(methods@), list_separator()),
{
    let methods = methods.into_iter().map(|method| match method {
        Method::Get => hyper::method::Method::Get,
        Method::Put => hyper::method::Method::Put,
        Method::Post => hyper::method::Method::Post,
        Method::Delete => hyper::method::Method::Delete,
        Method::Options => hyper::method::Method::Options,
        Method::Head => hyper::method::Method::Head,
        Method::Trace => hyper::method::Method::Trace,
        Method::Connect => hyper::method::Method::Connect,
        Method::Patch => hyper::method::Method::Patch,
    });
    AccessControlAllowMethods(methods.collect()).to_string()
}

/// The header names that a cross-origin request may carry.
pub open spec fn allowed_request_headers() -> Seq<Seq<char>> {
    seq!["accept"@, "accept-language"@, "authorization"@, "content-type"@]
}

/// The methods that a cross-origin request may be made with.
pub open spec fn allowed_request_methods() -> Seq<Method> {
    seq![Method::Get, Method::Post, Method::Put, Method::Delete]
}

/// Whether `name`, a header name in the form that [`header_key`] gives, is the
/// name of one of the three headers that allow a response to be read across
/// origins.
pub open spec fn is_cors_header(name: Seq<char>) -> bool {
    ||| name == header_key("Access-Control-Allow-Origin"@)
    ||| name == header_key("Access-Control-Allow-Headers"@)
    ||| name == header_key("Access-Control-Allow-Methods"@)
}

/// `headers` with the three headers that allow a response to be read across
/// origins, each with one value, in place of whatever stood under their names.
pub open spec fn with_cors_headers(headers: Headers) -> Headers {
    headers.insert(header_key("Access-Control-Allow-Origin"@), seq!["*"@]).insert(
        header_key("Access-Control-Allow-Headers"@),
        seq!["accept, accept-language, authorization, content-type"@],
    ).insert(header_key("Access-Control-Allow-Methods"@), seq!["GET, POST, PUT, DELETE"@])
}

/// The header names that a cross-origin request may carry, written as one
/// header value.
pub proof fn lemma_allowed_request_headers_value()
    ensures
        join(allowed_request_headers(), list_separator())
            == "accept, accept-language, authorization, content-type"@,
{
    reveal_strlit("accept");
    reveal_strlit("accept-language");
    reveal_strlit("authorization");
    reveal_strlit("content-type");
    reveal_strlit(", ");
    reveal_strlit("accept, accept-language, authorization, content-type");
    let names = allowed_request_headers();
    let by = list_separator();
    let three = names.drop_last();
    let two = three.drop_last();
    let one = two.drop_last();
    assert(join(one, by) == "accept"@);
    assert(join(two, by) == "accept"@ + by + "accept-language"@);
    assert(join(three, by) == join(two, by) + by + "authorization"@);
    assert(join(names, by) == join(three, by) + by + "content-type"@);
    assert(join(names, by) =~= "accept, accept-language, authorization, content-type"@);
}

/// The methods that a cross-origin request may be made with, written as one
/// header value.
pub proof fn lemma_allowed_request_methods_value()
    ensures
        join(method_tokens(allowed_request_methods()), list_separator())
            == "GET, POST, PUT, DELETE"@,
{
    reveal_strlit("GET");
    reveal_strlit("POST");
    reveal_strlit("PUT");
    reveal_strlit("DELETE");
    reveal_strlit(", ");
    reveal_strlit("GET, POST, PUT, DELETE");
    let tokens = method_tokens(allowed_request_methods());
    let by = list_separator();
    let three = tokens.drop_last();
    let two = three.drop_last();
    let one = two.drop_last();
    assert(join(one, by) == "GET"@);
    assert(join(two, by) == "GET"@ + by + "POST"@);
    assert(join(three, by) == join(two, by) + by + "PUT"@);
    assert(join(tokens, by) == join(three, by) + by + "DELETE"@);
    assert(join(tokens, by) =~= "GET, POST, PUT, DELETE"@);
}

} // verus!
