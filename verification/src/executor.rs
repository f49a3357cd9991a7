//! The request executor's decision logic: mapping a decoded request to an
//! exchange plan, and mapping the outcome of the one HTTP exchange to the
//! response payload. The exchange itself (network, clock) is driven by the
//! caller; everything decided here is verified.

use vstd::prelude::*;

use crate::{HttpRequest, HttpResponse, ResponseView, pairs_view};
use crate::method::{HttpMethod, method_of, parse_method};

verus! {

/// A ready-to-send exchange: a supported verb, the target URL, the headers in
/// the order they are to be applied, and the optional raw body.
#[derive(Debug)]
pub struct ExchangePlan {
    pub method: HttpMethod,
    pub url: String,
    pub headers: Vec<(String, String)>,
    pub body: Option<String>,
}

/// Mathematical image of an `ExchangePlan`.
pub struct PlanView {
    pub method: HttpMethod,
    pub url: Seq<char>,
    pub headers: Seq<(Seq<char>, Seq<char>)>,
    pub body: Option<Seq<char>>,
}

impl View for ExchangePlan {
    type V = PlanView;

    open spec fn view(&self) -> PlanView {
        PlanView {
            method: self.method,
            url: self.url@,
            headers: pairs_view(self.headers@),
            body: match self.body {
                Some(b) => Some(b@),
                None => None,
            },
        }
    }
}

/// Turns a decoded request into an exchange plan.
///
/// The plan exists exactly when the request's method names a supported verb;
/// the URL, the headers (in their given order) and the body are carried over
/// unchanged. Any other method yields the fixed rejection message.
pub fn prepare_exchange(req: HttpRequest) -> (r: Result<ExchangePlan, String>)
    ensures
        r is Ok <==> method_of(req.method@) is Some,
        r is Ok ==> r.unwrap()@.method == method_of(req.method@).unwrap(),
        r is Ok ==> r.unwrap()@.url == req@.url,
        r is Ok ==> r.unwrap()@.headers == req@.headers,
        r is Ok ==> r.unwrap()@.body == req@.body,
        r is Err ==> r.unwrap_err()@ == "Unsupported HTTP method"@,
{
    match parse_method(req.method.as_str()) {
        Some(m) => Ok(
            ExchangePlan { method: m, url: req.url, headers: req.headers, body: req.body },
        ),
        None => Err(String::from_str("Unsupported HTTP method")),
    }
}

/// What the one HTTP exchange came to: either the remote server's status,
/// headers and textual body, or a failure described by a message.
pub enum ExchangeOutcome {
    Completed { status_code: u16, headers: Vec<(String, String)>, body: String },
    Failed { message: String },
}

/// Mathematical image of an `ExchangeOutcome`.
pub enum OutcomeView {
    Completed { status_code: u16, headers: Seq<(Seq<char>, Seq<char>)>, body: Seq<char> },
    Failed { message: Seq<char> },
}

impl View for ExchangeOutcome {
    type V = OutcomeView;

    open spec fn view(&self) -> OutcomeView {
        match self {
            ExchangeOutcome::Completed { status_code, headers, body } => OutcomeView::Completed {
                status_code: *status_code,
                headers: pairs_view(headers@),
                body: body@,
            },
            ExchangeOutcome::Failed { message } => OutcomeView::Failed { message: message@ },
        }
    }
}

/// The body text of a failure response: the fixed tag followed by the
/// failure's description.
pub open spec fn error_body(msg: Seq<char>) -> Seq<char> {
    "Error: "@ + msg
}

/// The response payload owed for an exchange outcome, with the caller's
/// clock measurement attributed to it: a completed exchange is carried over
/// field by field, a failure becomes status 0, no headers, and a tagged
/// error body.
pub open spec fn outcome_response(o: OutcomeView, duration_ms: u64) -> ResponseView {
    match o {
        OutcomeView::Completed { status_code, headers, body } => ResponseView {
            status_code,
            headers,
            body,
            duration_ms,
        },
        OutcomeView::Failed { message } => ResponseView {
            status_code: 0,
            headers: Seq::empty(),
            body: error_body(message),
            duration_ms,
        },
    }
}

/// Builds the response for an exchange outcome, exactly as
/// `outcome_response` says.
pub fn response_of_outcome(outcome: ExchangeOutcome, duration_ms: u64) -> (r: HttpResponse)
    ensures
        r@ == outcome_response(outcome@, duration_ms),
{
    match outcome {
        ExchangeOutcome::Completed { status_code, headers, body } => HttpResponse {
            status_code,
            headers,
            body,
            duration_ms,
        },
        ExchangeOutcome::Failed { message } => {
            let mut b = String::from_str("Error: ");
            b.append(message.as_str());
            let r = HttpResponse { status_code: 0, headers: Vec::new(), body: b, duration_ms };
            proof {
                assert(pairs_view(Seq::<(String, String)>::empty()) =~= Seq::<(
                    Seq<char>,
                    Seq<char>,
                )>::empty());
            }
            r
        },
    }
}

/// Law: the response payload — status, headers and body — depends on the
/// exchange outcome alone, never on the clock measurement; only
/// `duration_ms` reflects the clock. Two calls whose exchanges come to the
/// same outcome therefore agree on everything but their durations.
pub proof fn lemma_payload_independent_of_clock(o: OutcomeView, d1: u64, d2: u64)
    ensures
        outcome_response(o, d1).status_code == outcome_response(o, d2).status_code,
        outcome_response(o, d1).headers == outcome_response(o, d2).headers,
        outcome_response(o, d1).body == outcome_response(o, d2).body,
        outcome_response(o, d1).duration_ms == d1,
{
}

/// Law: a completed exchange is reported unchanged — the response carries
/// the server's own status, headers and body, with only the caller's clock
/// measurement added.
pub proof fn lemma_completed_exchange_reported(
    status_code: u16,
    headers: Seq<(Seq<char>, Seq<char>)>,
    body: Seq<char>,
    d: u64,
)
    ensures
        outcome_response(OutcomeView::Completed { status_code, headers, body }, d)
            == (ResponseView { status_code, headers, body, duration_ms: d }),
{
}

/// Law: every failure response carries status 0, no headers, and a body
/// that starts with the `Error:` tag.
pub proof fn lemma_failure_response_shape(msg: Seq<char>, d: u64)
    ensures
        outcome_response(OutcomeView::Failed { message: msg }, d).status_code == 0,
        outcome_response(OutcomeView::Failed { message: msg }, d).headers == Seq::<(
            Seq<char>,
            Seq<char>,
        )>::empty(),
        outcome_response(OutcomeView::Failed { message: msg }, d).body.len() >= 6,
        outcome_response(OutcomeView::Failed { message: msg }, d).body.take(6) == "Error:"@,
{
    reveal_strlit("Error: ");
    reveal_strlit("Error:");
    assert(error_body(msg).take(6) =~= "Error:"@);
}

} // verus!
