//! The routing table: one liveness route, everything else is not found.

use vstd::prelude::*;
use crate::text::str_eq;

verus! {

/// Status of a successful reply.
pub const STATUS_OK: u16 = 200;

/// Status of the reply to a request that matches no route.
pub const STATUS_NOT_FOUND: u16 = 404;

/// What the server sends back for one request.
#[derive(Debug, PartialEq, Eq)]
pub struct Reply {
    /// HTTP status code.
    pub status: u16,
    /// Plain-text body.
    pub body: String,
}

/// A reply as a mathematical value.
pub struct ReplyView {
    pub status: u16,
    pub body: Seq<char>,
}

impl View for Reply {
    type V = ReplyView;

    open spec fn view(&self) -> ReplyView {
        ReplyView { status: self.status, body: self.body@ }
    }
}

impl Clone for Reply {
    fn clone(&self) -> (copy: Reply)
        ensures
            copy@ == self@,
    {
        Reply { status: self.status, body: self.body.clone() }
    }
}

/// The reply of the liveness route: success, with the body `OK`.
pub open spec fn health_reply() -> ReplyView {
    ReplyView { status: STATUS_OK, body: "OK"@ }
}

/// The reply to a request that matches no route: not found, with an empty body.
pub open spec fn not_found_reply() -> ReplyView {
    ReplyView { status: STATUS_NOT_FOUND, body: Seq::empty() }
}

/// Whether a request is for the liveness route: the method is exactly `GET`
/// and the path is exactly `/health`.
pub open spec fn is_health_request(method: Seq<char>, path: Seq<char>) -> bool {
    method == "GET"@ && path == "/health"@
}

/// The reply that the routing table assigns to a request.
pub open spec fn route_reply(method: Seq<char>, path: Seq<char>) -> ReplyView {
    if is_health_request(method, path) {
        health_reply()
    } else {
        not_found_reply()
    }
}

/// The liveness handler. It takes no input and reads no state.
pub fn health_check() -> (reply: Reply)
    ensures
        reply@ == health_reply(),
        reply.status == 200,
        reply.body@ == "OK"@,
{
    Reply { status: STATUS_OK, body: "OK".to_owned() }
}

/// The handler for requests that match no route.
pub fn not_found() -> (reply: Reply)
    ensures
        reply@ == not_found_reply(),
        reply.status == 404,
        reply.body@.len() == 0,
{
    Reply { status: STATUS_NOT_FOUND, body: String::new() }
}

/// Routes one request by its method and path.
///
/// The match is exact on both: no prefix, no trailing slash, no other case.
/// The reply depends on the two arguments alone, so it is the same whatever
/// was asked before.
pub fn dispatch(method: &str, path: &str) -> (reply: Reply)
    ensures
        reply@ == route_reply(method@, path@),
        path@ != "/health"@ ==> reply@ == not_found_reply(),
        method@ == "GET"@ && path@ == "/health"@ ==> reply.status == 200 && reply.body@
            == "OK"@,
{
    if str_eq(method, "GET") && str_eq(path, "/health") {
        health_check()
    } else {
        not_found()
    }
}

} // verus!
