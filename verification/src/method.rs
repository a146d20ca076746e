//! HTTP request methods.

use vstd::prelude::*;

verus! {

/// An HTTP request method.
#[derive(Clone, Copy, Debug, PartialEq, Eq, Hash, Structural)]
pub enum Method {
    Get,
    Put,
    Post,
    Delete,
    Options,
    Head,
    Trace,
    Connect,
    Patch,
}

impl Method {
    /// The method's name as it is written in a request line or a header value.
    pub open spec fn token(self) -> Seq<char> {
        match self {
            Method::Get => "GET"@,
            Method::Put => "PUT"@,
            Method::Post => "POST"@,
            Method::Delete => "DELETE"@,
            Method::Options => "OPTIONS"@,
            Method::Head => "HEAD"@,
            Method::Trace => "TRACE"@,
            Method::Connect => "CONNECT"@,
            Method::Patch => "PATCH"@,
        }
    }

    /// Whether a request with this method is a preflight request.
    pub fn is_preflight(self) -> (preflight: bool)
        ensures
            preflight == (self == Method::Options),
    {
        self == Method::Options
    }
}

/// Whether `method` occurs in `methods`.
pub fn contains_method(methods: &Vec<Method>, method: Method) -> (found: bool)
    ensures
        found == methods@.contains(method),
{
    let mut i: usize = 0;
    while i < methods.len()
        invariant
            i <= methods.len(),
            forall|j: int| 0 <= j < i ==> methods@[j] != method,
        decreases methods.len() - i,
    {
        if methods[i] == method {
            return true;
        }
        i += 1;
    }
    false
}

} // verus!
