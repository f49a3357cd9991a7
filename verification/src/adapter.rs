//! The request adapter: turns loosely-checked boundary inputs into a decoded
//! `HttpRequest`, or reports a hard input failure.
//!
//! Each boundary input arrives as a three-way value: absent, present but not
//! decodable as text, or present as text. Method and URL are mandatory; the
//! header list and the body degrade silently when absent or malformed.

use vstd::prelude::*;

use crate::{HttpRequest, pairs_view};

verus! {

/// One textual input handed across the boundary: missing, present but not
/// decodable as text, or decoded text.
pub enum BoundaryInput {
    Absent,
    Malformed,
    Present(String),
}

impl BoundaryInput {
    /// The text carried by a present input (the empty sequence otherwise).
    pub open spec fn text(self) -> Seq<char> {
        match self {
            BoundaryInput::Present(s) => s@,
            _ => Seq::empty(),
        }
    }
}

/// What serde_json's parser yields for a given text when asked for a JSON
/// array of two-element string arrays: `None` when the text is no such
/// document, otherwise the decoded key/value pairs in document order.
pub uninterp spec fn header_pairs_of(s: Seq<char>) -> Option<Seq<(Seq<char>, Seq<char>)>>;

/// Relies on serde_json::from_str: deserializing `Vec<(String, String)>`
/// parses the text as a JSON array of two-element string arrays, keeping
/// document order; the result depends on the input text alone.
#[verifier::external_body]
fn parse_header_pairs(s: &str) -> (r: Option<Vec<(String, String)>>)
    ensures
        r is Some <==> header_pairs_of(s@) is Some,
        r is Some ==> pairs_view(r.unwrap()@) == header_pairs_of(s@).unwrap(),
{
    serde_json::from_str::<Vec<(String, String)>>(s).ok()
}

/// The effective header list for a boundary input: the decoded pairs when the
/// input is text that parses, and the empty list in every other case.
pub open spec fn decoded_headers(h: BoundaryInput) -> Seq<(Seq<char>, Seq<char>)> {
    match h {
        BoundaryInput::Present(s) => match header_pairs_of(s@) {
            Some(ps) => ps,
            None => Seq::empty(),
        },
        _ => Seq::empty(),
    }
}

/// The effective body for a boundary input: present text is kept, anything
/// else means no body.
pub open spec fn decoded_body(b: BoundaryInput) -> Option<Seq<char>> {
    match b {
        BoundaryInput::Present(s) => Some(s@),
        _ => None,
    }
}

/// Decodes the four boundary inputs into a request.
///
/// Method and URL are mandatory: the call yields a request exactly when both
/// are present as text, and otherwise nothing (the hard-failure signal). A
/// missing or malformed header input, and a header text that does not parse,
/// degrade to an empty header list; a missing or malformed body degrades to
/// no body.
pub fn decode_request(
    method: BoundaryInput,
    url: BoundaryInput,
    headers_json: BoundaryInput,
    body: BoundaryInput,
) -> (r: Option<HttpRequest>)
    ensures
        r is Some <==> (method is Present && url is Present),
        r is Some ==> r.unwrap()@.method == method.text(),
        r is Some ==> r.unwrap()@.url == url.text(),
        r is Some ==> r.unwrap()@.headers == decoded_headers(headers_json),
        r is Some ==> r.unwrap()@.body == decoded_body(body),
{
    let method_text = match method {
        BoundaryInput::Present(s) => s,
        _ => {
            return None;
        },
    };
    let url_text = match url {
        BoundaryInput::Present(s) => s,
        _ => {
            return None;
        },
    };
    let headers = match headers_json {
        BoundaryInput::Present(s) => match parse_header_pairs(s.as_str()) {
            Some(v) => v,
            None => Vec::new(),
        },
        _ => Vec::new(),
    };
    let body_text = match body {
        BoundaryInput::Present(s) => Some(s),
        _ => None,
    };
    proof {
        assert(pairs_view(Seq::<(String, String)>::empty()) =~= Seq::<(
            Seq<char>,
            Seq<char>,
        )>::empty());
    }
    Some(HttpRequest { method: method_text, url: url_text, headers, body: body_text })
}

} // verus!
