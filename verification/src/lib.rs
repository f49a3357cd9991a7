//! A small HTTP client shim: it decodes loosely-checked textual inputs into a
//! request value, hands a prepared exchange to a caller-driven transport, and
//! turns the transport's outcome into a JSON-serialized response payload.

use vstd::prelude::*;

pub mod adapter;
pub mod executor;
pub mod json;
pub mod method;
pub mod text;

verus! {

/// A decoded HTTP request: a method name, a target URL, an ordered header
/// list (duplicates allowed), and an optional raw body.
pub struct HttpRequest {
    pub method: String,
    pub url: String,
    pub headers: Vec<(String, String)>,
    pub body: Option<String>,
}

/// The response payload handed back to the caller. A `status_code` of 0 means
/// the request never completed; `body` then carries an error description.
/// `duration_ms` is always the caller-side wall-clock measurement.
pub struct HttpResponse {
    pub status_code: u16,
    pub headers: Vec<(String, String)>,
    pub body: String,
    pub duration_ms: u64,
}

/// Mathematical image of a header list: an ordered sequence of key/value
/// character sequences.
pub open spec fn pairs_view(v: Seq<(String, String)>) -> Seq<(Seq<char>, Seq<char>)> {
    v.map_values(|p: (String, String)| (p.0@, p.1@))
}

/// Mathematical image of an `HttpRequest`.
pub struct RequestView {
    pub method: Seq<char>,
    pub url: Seq<char>,
    pub headers: Seq<(Seq<char>, Seq<char>)>,
    pub body: Option<Seq<char>>,
}

/// Mathematical image of an `HttpResponse`.
pub struct ResponseView {
    pub status_code: u16,
    pub headers: Seq<(Seq<char>, Seq<char>)>,
    pub body: Seq<char>,
    pub duration_ms: u64,
}

impl View for HttpRequest {
    type V = RequestView;

    open spec fn view(&self) -> RequestView {
        RequestView {
            method: self.method@,
            url: self.url@,
            headers: pairs_view(self.headers@),
            body: match self.body {
                Some(b) => Some(b@),
                None => None,
            },
        }
    }
}

impl View for HttpResponse {
    type V = ResponseView;

    open spec fn view(&self) -> ResponseView {
        ResponseView {
            status_code: self.status_code,
            headers: pairs_view(self.headers@),
            body: self.body@,
            duration_ms: self.duration_ms,
        }
    }
}

} // verus!
