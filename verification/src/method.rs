//! The seven supported HTTP verbs and the case-insensitive mapping from a
//! method name to one of them.

use vstd::prelude::*;

use crate::text::{ascii_uppercase, upper_seq};

verus! {

/// One of the seven supported HTTP verbs.
#[derive(Clone, Copy, Debug, PartialEq, Eq, Structural)]
pub enum HttpMethod {
    Get,
    Post,
    Put,
    Patch,
    Delete,
    Head,
    Options,
}

/// The verb that a method name denotes, matched case-insensitively on ASCII
/// letters; any other name denotes no verb.
pub open spec fn method_of(s: Seq<char>) -> Option<HttpMethod> {
    let u = upper_seq(s);
    if u == "GET"@ {
        Some(HttpMethod::Get)
    } else if u == "POST"@ {
        Some(HttpMethod::Post)
    } else if u == "PUT"@ {
        Some(HttpMethod::Put)
    } else if u == "PATCH"@ {
        Some(HttpMethod::Patch)
    } else if u == "DELETE"@ {
        Some(HttpMethod::Delete)
    } else if u == "HEAD"@ {
        Some(HttpMethod::Head)
    } else if u == "OPTIONS"@ {
        Some(HttpMethod::Options)
    } else {
        None
    }
}

/// Maps a method name to its verb, exactly as `method_of` says.
pub fn parse_method(s: &str) -> (r: Option<HttpMethod>)
    ensures
        r == method_of(s@),
{
    let u = ascii_uppercase(s);
    if u == String::from_str("GET") {
        Some(HttpMethod::Get)
    } else if u == String::from_str("POST") {
        Some(HttpMethod::Post)
    } else if u == String::from_str("PUT") {
        Some(HttpMethod::Put)
    } else if u == String::from_str("PATCH") {
        Some(HttpMethod::Patch)
    } else if u == String::from_str("DELETE") {
        Some(HttpMethod::Delete)
    } else if u == String::from_str("HEAD") {
        Some(HttpMethod::Head)
    } else if u == String::from_str("OPTIONS") {
        Some(HttpMethod::Options)
    } else {
        None
    }
}

} // verus!
