//! Requests and responses as plain values, bodies fully buffered.
use vstd::prelude::*;
use vstd::string::StrSliceExecFns;
use vstd::utf8::encode_utf8;

verus! {

/// Status of the substitute response for a backend that could not be reached.
pub const STATUS_NOT_FOUND: u16 = 404;

/// Status of the response to a request that no route rule matches.
pub const STATUS_NO_ROUTE: u16 = 421;

/// Status of the response where the rewritten target is no URI.
pub const STATUS_BAD_TARGET: u16 = 500;

/// Status of the response where a request plugin could not be run.
pub const STATUS_PLUGIN_FAILED: u16 = 502;

/// One header line. The same name may occur in several entries.
#[derive(Debug)]
pub struct Header {
    pub name: String,
    pub value: Vec<u8>,
}

/// An inbound or outbound request.
#[derive(Debug)]
pub struct Request {
    pub method: String,
    pub uri: String,
    pub headers: Vec<Header>,
    pub body: Vec<u8>,
}

/// A response, from a backend or made up by the engine.
#[derive(Debug)]
pub struct Response {
    pub status: u16,
    pub headers: Vec<Header>,
    pub body: Vec<u8>,
}

/// Diagnostic body of the substitute response for an unreachable backend.
pub open spec fn not_found_text() -> Seq<char> {
    "404 Not Found"@
}

/// Diagnostic body of the response to an unroutable request.
pub open spec fn no_route_text() -> Seq<char> {
    "No route for the requested URI"@
}

/// Diagnostic body of the response where the rewritten target is no URI.
pub open spec fn bad_target_text() -> Seq<char> {
    "Invalid backend target"@
}

/// Diagnostic body of the response where a request plugin could not be run.
pub open spec fn plugin_failed_text() -> Seq<char> {
    "Request plugin failed"@
}

/// `resp` has the given status, no headers and the given text as its body.
pub open spec fn is_substitute(resp: Response, status: u16, text: Seq<char>) -> bool {
    resp.status == status && resp.headers@.len() == 0 && resp.body@ == encode_utf8(text)
}

impl Response {
    /// A made-up response: a status and a short diagnostic body.
    pub fn substitute(status: u16, text: &str) -> (r: Response)
        ensures
            is_substitute(r, status, text@),
    {
        Response { status, headers: Vec::new(), body: text.as_bytes_vec() }
    }

    /// The substitute for a backend that could not be reached.
    pub fn not_found() -> (r: Response)
        ensures
            is_substitute(r, STATUS_NOT_FOUND, not_found_text()),
    {
        Response::substitute(STATUS_NOT_FOUND, "404 Not Found")
    }

    /// The answer to a request that no route rule matches.
    pub fn no_route() -> (r: Response)
        ensures
            is_substitute(r, STATUS_NO_ROUTE, no_route_text()),
    {
        Response::substitute(STATUS_NO_ROUTE, "No route for the requested URI")
    }

    /// The answer where the rewritten target is no URI.
    pub fn bad_target() -> (r: Response)
        ensures
            is_substitute(r, STATUS_BAD_TARGET, bad_target_text()),
    {
        Response::substitute(STATUS_BAD_TARGET, "Invalid backend target")
    }

    /// The answer where a request plugin could not be run.
    pub fn plugin_failed() -> (r: Response)
        ensures
            is_substitute(r, STATUS_PLUGIN_FAILED, plugin_failed_text()),
    {
        Response::substitute(STATUS_PLUGIN_FAILED, "Request plugin failed")
    }
}

} // verus!
