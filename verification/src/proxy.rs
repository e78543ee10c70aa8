use vstd::prelude::*;
use vstd::string::*;

verus! {

/// The status of the reply the proxy gives when forwarding fails.
pub const INTERNAL_SERVER_ERROR: u16 = 500;

/// The reply the proxy hands the original caller when the upstream forward
/// fails at the transport: a 500-class status whose body is the transport
/// error's message.
pub struct ErrorReply {
    pub status: u16,
    pub body: String,
}

/// The target an inbound request is rewritten to: the destination base
/// followed by the request's original path and query, unchanged.
pub fn proxy_target(destination: &str, path_and_query: &str) -> (r: String)
    ensures
        r@ == destination@ + path_and_query@,
{
    let mut s = destination.to_owned();
    s.append(path_and_query);
    s
}

/// The part of the request the proxy keeps when rewriting: its own
/// path-and-query when it has one, else the bare path.
pub fn request_path_and_query<'a>(path_and_query: Option<&'a str>, path: &'a str) -> (r: &'a str)
    ensures
        match path_and_query {
            Some(pq) => r@ == pq@,
            None => r@ == path@,
        },
{
    match path_and_query {
        Some(pq) => pq,
        None => path,
    }
}

/// The reply for a failed forward: status 500, and the transport error's
/// message, verbatim, as the body.  Failures are surfaced to the original
/// caller, never retried.
pub fn forward_error_reply(error_message: &str) -> (r: ErrorReply)
    ensures
        r.status == 500,
        r.body@ == error_message@,
{
    ErrorReply { status: INTERNAL_SERVER_ERROR, body: error_message.to_owned() }
}

} // verus!
