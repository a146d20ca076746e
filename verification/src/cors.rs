//! The allow-list, and what it does to a response.

use crate::headers::{
    allow_any_origin,
    allow_headers_name,
    allow_headers_value,
    allow_methods_name,
    allow_methods_value,
    allow_origin_name,
    allowed_request_headers,
    allowed_request_methods,
    lemma_allowed_request_headers_value,
    lemma_allowed_request_methods_value,
    with_cors_headers,
};
use crate::method::{contains_method, Method};
use crate::path::{match_path, path_matches};
use crate::request::{method_of, request_method, request_segments, segments_of};
use crate::response::{set_empty_body, set_header, set_status, view_of, ResponseView, STATUS_OK};
use rocket::{Request, Response};
use vstd::prelude::*;

verus! {

/// A set of HTTP methods together with the path pattern that they are allowed
/// on.
pub type CORSEndpoint = (Vec<Method>, String);

/// An endpoint as contracts speak of it: its methods and its pattern.
pub type EndpointView = (Seq<Method>, Seq<char>);

/// An allow-list of endpoints. It is fixed when it is made.
pub struct CORS {
    allowed_endpoints: Vec<CORSEndpoint>,
}

/// The endpoints of `endpoints` as contracts speak of them, in order.
pub open spec fn endpoint_views(endpoints: Seq<CORSEndpoint>) -> Seq<EndpointView> {
    endpoints.map_values(|endpoint: CORSEndpoint| (endpoint.0@, endpoint.1@))
}

impl View for CORS {
    type V = Seq<EndpointView>;

    closed spec fn view(&self) -> Seq<EndpointView> {
        endpoint_views(self.allowed_endpoints@)
    }
}

/// Whether `methods` lets a request with `method` through: the method is one of
/// them, or the request is a preflight request.
pub open spec fn method_admitted(methods: Seq<Method>, method: Method) -> bool {
    methods.contains(method) || method == Method::Options
}

/// Whether `endpoint` covers a request with `method` for a path with
/// `segments`.
pub open spec fn endpoint_covers(
    endpoint: EndpointView,
    method: Method,
    segments: Seq<Seq<char>>,
) -> bool {
    method_admitted(endpoint.0, method) && path_matches(endpoint.1, segments)
}

/// Whether one of `endpoints` covers a request with `method` for a path with
/// `segments`.
pub open spec fn covers(
    endpoints: Seq<EndpointView>,
    method: Method,
    segments: Seq<Seq<char>>,
) -> bool {
    exists|i: int| 0 <= i < endpoints.len() && endpoint_covers(#[trigger] endpoints[i], method, segments)
}

/// A response once it is decorated: it has the three headers, and where the
/// request was a preflight request it succeeds with a body of no bytes.
pub open spec fn decorated(response: ResponseView, is_preflight: bool) -> ResponseView {
    ResponseView {
        status: if is_preflight {
            STATUS_OK
        } else {
            response.status
        },
        headers: with_cors_headers(response.headers),
        body: if is_preflight {
            Seq::<u8>::empty()
        } else {
            response.body
        },
    }
}

/// A response once the allow-list of `endpoints` has seen it on its way out, in
/// answer to a request with `method` for a path with `segments`: decorated if
/// the list covers the request, as it was if not.
pub open spec fn intercepted(
    endpoints: Seq<EndpointView>,
    method: Method,
    segments: Seq<Seq<char>>,
    response: ResponseView,
) -> ResponseView {
    if covers(endpoints, method, segments) {
        decorated(response, method == Method::Options)
    } else {
        response
    }
}

impl CORS {
    /// Makes the allow-list of `endpoints`. Only requests that one of them
    /// covers have their responses decorated. A segment of a pattern that
    /// begins with `:` stands for any one segment: `/foo/:bar` covers the path
    /// `/foo/123`.
    pub fn new(endpoints: Vec<CORSEndpoint>) -> (cors: CORS)
        ensures
            cors@ == endpoint_views(endpoints@),
    {
        CORS { allowed_endpoints: endpoints }
    }

    /// Whether the allow-list covers a request with `method` for a path with
    /// `segments`.
    pub fn allows(&self, method: Method, segments: &Vec<String>) -> (allowed: bool)
        ensures
            allowed == covers(self@, method, segments.deep_view()),
    {
        let mut i: usize = 0;
        while i < self.allowed_endpoints.len()
            invariant
                i <= self.allowed_endpoints.len(),
                forall|j: int|
                    0 <= j < i ==> !endpoint_covers(#[trigger] self@[j], method, segments.deep_view()),
            decreases self.allowed_endpoints.len() - i,
        {
            let endpoint = &self.allowed_endpoints[i];
            let admitted = method.is_preflight() || contains_method(&endpoint.0, method);
            if admitted && match_path(endpoint.1.as_str(), segments) {
                assert(endpoint_covers(self@[i as int], method, segments.deep_view()));
                return true;
            }
            assert(!endpoint_covers(self@[i as int], method, segments.deep_view()));
            i += 1;
        }
        false
    }

    /// Whether the allow-list covers `request`.
    pub fn is_allowed(&self, request: &Request<'_>) -> (allowed: bool)
        ensures
            allowed == covers(self@, request_method(request), request_segments(request)),
    {
        let segments = segments_of(request);
        self.allows(method_of(request), &segments)
    }

    /// Sets the three headers that allow `response` to be read across origins.
    /// Whatever stood under their names is replaced.
    pub fn add_headers(response: &mut Response<'_>)
        ensures
            view_of(final(response)).headers == with_cors_headers(view_of(old(response)).headers),
            view_of(final(response)).status == view_of(old(response)).status,
            view_of(final(response)).body == view_of(old(response)).body,
    {
        set_header(response, allow_origin_name(), allow_any_origin());
        let names = vec![
            "accept".to_owned(),
            "accept-language".to_owned(),
            "authorization".to_owned(),
            "content-type".to_owned(),
        ];
        let methods = vec![Method::Get, Method::Post, Method::Put, Method::Delete];
        proof {
            assert(names.deep_view() == allowed_request_headers());
            assert(methods@ == allowed_request_methods());
            lemma_allowed_request_headers_value();
            lemma_allowed_request_methods_value();
        }
        set_header(response, allow_headers_name(), allow_headers_value(names));
        set_header(response, allow_methods_name(), allow_methods_value(methods));
    }

    /// Decorates `response`: sets the three headers and, where the request
    /// was a preflight request, makes the response succeed with a body of no
    /// bytes.
    pub fn decorate(response: &mut Response<'_>, is_preflight: bool)
        ensures
            view_of(final(response)) == decorated(view_of(old(response)), is_preflight),
    {
        CORS::add_headers(response);
        if is_preflight {
            set_status(response, STATUS_OK);
            set_empty_body(response);
        }
    }

    /// Decorates `response` if the allow-list covers a request with `method`
    /// for a path with `segments`, and leaves it as it is if not.
    pub fn intercept(&self, method: Method, segments: &Vec<String>, response: &mut Response<'_>)
        ensures
            view_of(final(response)) == intercepted(
                self@,
                method,
                segments.deep_view(),
                view_of(old(response)),
            ),
            !covers(self@, method, segments.deep_view()) ==> *final(response) == *old(response),
    {
        if self.allows(method, segments) {
            CORS::decorate(response, method.is_preflight());
        }
    }

    /// Decorates `response` if the allow-list covers `request`, and leaves it
    /// as it is if not.
    pub fn on_response(&self, request: &Request<'_>, response: &mut Response<'_>)
        ensures
            view_of(final(response)) == intercepted(
                self@,
                request_method(request),
                request_segments(request),
                view_of(old(response)),
            ),
            !covers(self@, request_method(request), request_segments(request))
                ==> *final(response) == *old(response),
    {
        let segments = segments_of(request);
        self.intercept(method_of(request), &segments, response);
    }
}

} // verus!
