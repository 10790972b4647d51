//! HTTP request model: the request method enumeration and the parsed
//! request the surrounding server hands to its handlers.

use vstd::prelude::*;

use crate::text::str_eq_str;

verus! {

/// An HTTP method, plus a value for anything the enumeration is missing
/// or a client sent wrongly.
#[derive(PartialEq, Eq, Structural, Clone, Copy, Debug)]
pub enum HttpMethod {
    GET,
    POST,
    PUT,
    DELETE,
    OPTIONS,
    HEAD,
    CONNECT,
    TRACE,
    PATCH,
    UNKNOWN,
}

/// The method a request-line token names; anything unrecognised is
/// `UNKNOWN`.
pub open spec fn spec_parse_method(s: Seq<char>) -> HttpMethod {
    if s == "GET"@ {
        HttpMethod::GET
    } else if s == "POST"@ {
        HttpMethod::POST
    } else if s == "PUT"@ {
        HttpMethod::PUT
    } else if s == "DELETE"@ {
        HttpMethod::DELETE
    } else if s == "OPTIONS"@ {
        HttpMethod::OPTIONS
    } else if s == "HEAD"@ {
        HttpMethod::HEAD
    } else if s == "CONNECT"@ {
        HttpMethod::CONNECT
    } else if s == "TRACE"@ {
        HttpMethod::TRACE
    } else if s == "PATCH"@ {
        HttpMethod::PATCH
    } else {
        HttpMethod::UNKNOWN
    }
}

impl HttpMethod {
    /// Builds an `HttpMethod` from its string representation; a string
    /// that names no known method gives `HttpMethod::UNKNOWN`.
    pub fn parse(method_str: &str) -> (r: HttpMethod)
        ensures
            r == spec_parse_method(method_str@),
    {
        if str_eq_str(method_str, "GET") {
            HttpMethod::GET
        } else if str_eq_str(method_str, "POST") {
            HttpMethod::POST
        } else if str_eq_str(method_str, "PUT") {
            HttpMethod::PUT
        } else if str_eq_str(method_str, "DELETE") {
            HttpMethod::DELETE
        } else if str_eq_str(method_str, "OPTIONS") {
            HttpMethod::OPTIONS
        } else if str_eq_str(method_str, "HEAD") {
            HttpMethod::HEAD
        } else if str_eq_str(method_str, "CONNECT") {
            HttpMethod::CONNECT
        } else if str_eq_str(method_str, "TRACE") {
            HttpMethod::TRACE
        } else if str_eq_str(method_str, "PATCH") {
            HttpMethod::PATCH
        } else {
            HttpMethod::UNKNOWN
        }
    }
}

/// One parsed request: method, request target, raw header text and body.
pub struct Request {
    pub method: HttpMethod,
    pub url: String,
    pub headers: String,
    pub body: String,
}

} // verus!
