//! What the server's HTTP tracing records about a request: its id, size, route and status.
use vstd::prelude::*;
use vstd::string::*;

use crate::text::{chars_of, decimal, parse_unsigned, parse_unsigned_bounded, u64_to_decimal};

verus! {

/// Makes the spans of incoming requests.
#[derive(Clone, Copy, Debug)]
pub struct AxumOtelSpanCreator {}

/// Records the status of a response on its span.
#[derive(Clone, Copy, Debug)]
pub struct AxumOtelOnResponse {}

/// Marks the span of a request that failed with a server error.
#[derive(Clone, Copy, Debug)]
pub struct AxumOtelOnFailure {}

pub open spec fn opt_str_view(o: Option<&str>) -> Option<Seq<char>> {
    match o {
        Some(s) => Some(s@),
        None => None,
    }
}

/// The id of a request: its `x-request-id` header, else its `svix-req-id` header; where
/// it has neither, a random one is made.
pub fn request_id(x_request_id: Option<&str>, svix_req_id: Option<&str>) -> (r: Option<String>)
    ensures
        opt_view_string(r) == (match x_request_id {
            Some(x) => Some(x@),
            None => opt_str_view(svix_req_id),
        }),
{
    match x_request_id {
        Some(x) => Some(String::from_str(x)),
        None => match svix_req_id {
            Some(s) => Some(String::from_str(s)),
            None => None,
        },
    }
}

pub open spec fn opt_view_string(o: Option<String>) -> Option<Seq<char>> {
    match o {
        Some(s) => Some(s@),
        None => None,
    }
}

/// The length a request declares in its `Content-Length` header, where that is a number.
pub fn content_length(header: Option<&str>) -> (r: Option<u64>)
    ensures
        r == (match header {
            Some(h) => match parse_unsigned(h@, u64::MAX as nat) {
                Some(v) => Some(v as u64),
                None => None,
            },
            None => None,
        }),
{
    match header {
        Some(h) => {
            let cs = chars_of(h);
            parse_unsigned_bounded(cs.as_slice(), u64::MAX)
        },
        None => None,
    }
}

/// The route a request is counted under: its matched path, or `unknown`.
pub fn route_or_unknown(matched_path: Option<&str>) -> (r: String)
    ensures
        r@ == (match matched_path {
            Some(p) => p@,
            None => "unknown"@,
        }),
{
    match matched_path {
        Some(p) => String::from_str(p),
        None => String::from_str("unknown"),
    }
}

impl AxumOtelOnResponse {
    /// The status code and OpenTelemetry status that a finished response records.
    pub fn status_fields(&self, status: u16) -> (r: (String, &'static str))
        ensures
            r.0@ == decimal(status as nat),
            r.1@ == "OK"@,
    {
        (u64_to_decimal(status as u64), "OK")
    }
}

impl AxumOtelOnFailure {
    /// The OpenTelemetry status recorded for a failure: `ERROR` for a server error status,
    /// nothing otherwise.
    pub fn failure_status(&self, status: Option<u16>) -> (r: Option<&'static str>)
        ensures
            r matches Some(s) ==> s@ == "ERROR"@,
            r is Some <==> (status matches Some(c) && 500 <= c <= 599),
    {
        match status {
            Some(c) => if 500 <= c && c <= 599 {
                Some("ERROR")
            } else {
                None
            },
            None => None,
        }
    }
}

} // verus!
