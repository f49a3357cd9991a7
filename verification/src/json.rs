//! Serialization of a response to its JSON wire form:
//!
//! ```text
//! {"status_code":<uint16>,"headers":[[<string>,<string>],...],"body":<string>,"duration_ms":<uint64>}
//! ```
//!
//! The exact output is pinned down character by character by `response_json`.

use vstd::prelude::*;

use crate::{HttpResponse, ResponseView};
use crate::executor::{ExchangeOutcome, outcome_response, response_of_outcome};
use crate::text::{dec_str, escape_seq, escape_string, u64_to_dec};

verus! {

/// The JSON form of one header pair: a two-element array of escaped strings.
pub open spec fn pair_json(p: (Seq<char>, Seq<char>)) -> Seq<char> {
    "[\""@ + escape_seq(p.0) + "\",\""@ + escape_seq(p.1) + "\"]"@
}

/// The JSON forms of the header pairs in order, joined by commas.
pub open spec fn headers_json(hs: Seq<(Seq<char>, Seq<char>)>) -> Seq<char>
    decreases hs.len(),
{
    if hs.len() == 0 {
        Seq::empty()
    } else if hs.len() == 1 {
        pair_json(hs[0])
    } else {
        headers_json(hs.drop_last()) + seq![','] + pair_json(hs.last())
    }
}

/// The full JSON wire form of a response.
pub open spec fn response_json(r: ResponseView) -> Seq<char> {
    "{\"status_code\":"@ + dec_str(r.status_code as nat) + ",\"headers\":["@ + headers_json(
        r.headers,
    ) + "],\"body\":\""@ + escape_seq(r.body) + "\",\"duration_ms\":"@ + dec_str(
        r.duration_ms as nat,
    ) + "}"@
}

fn append_pair_json(out: &mut String, key: &str, value: &str)
    ensures
        final(out)@ == old(out)@ + pair_json((key@, value@)),
{
    out.append("[\"");
    let ek = escape_string(key);
    out.append(ek.as_str());
    out.append("\",\"");
    let ev = escape_string(value);
    out.append(ev.as_str());
    out.append("\"]");
    proof {
        assert(out@ =~= old(out)@ + pair_json((key@, value@)));
    }
}

/// Serializes a response to its JSON wire form, exactly as `response_json`
/// says. Serialization never fails.
pub fn response_to_json(r: &HttpResponse) -> (s: String)
    ensures
        s@ == response_json(r@),
{
    let mut out = String::from_str("{\"status_code\":");
    let sc = u64_to_dec(r.status_code as u64);
    out.append(sc.as_str());
    out.append(",\"headers\":[");
    let ghost head = out@;
    let n = r.headers.len();
    let mut i: usize = 0;
    while i < n
        invariant
            n == r.headers@.len(),
            i <= n,
            out@ == head + headers_json(r@.headers.take(i as int)),
        decreases n - i,
    {
        if i > 0 {
            crate::text::push_char(&mut out, ',');
        }
        let p = &r.headers[i];
        append_pair_json(&mut out, p.0.as_str(), p.1.as_str());
        proof {
            let hs = r@.headers;
            assert(hs.take(i + 1 as int).drop_last() =~= hs.take(i as int));
            assert(hs[i as int] == (r.headers@[i as int].0@, r.headers@[i as int].1@));
            assert(out@ =~= head + headers_json(hs.take(i + 1 as int)));
        }
        i = i + 1;
    }
    proof {
        assert(r@.headers.take(n as int) =~= r@.headers);
    }
    out.append("],\"body\":\"");
    let eb = escape_string(r.body.as_str());
    out.append(eb.as_str());
    out.append("\",\"duration_ms\":");
    let d = u64_to_dec(r.duration_ms);
    out.append(d.as_str());
    out.append("}");
    proof {
        assert(out@ =~= response_json(r@));
    }
    out
}

/// Builds the response owed for an exchange outcome, attributes the caller's
/// clock measurement to it, and serializes it: the whole payload a caller
/// receives for one exchange.
pub fn render_outcome(outcome: ExchangeOutcome, duration_ms: u64) -> (s: String)
    ensures
        s@ == response_json(outcome_response(outcome@, duration_ms)),
{
    let r = response_of_outcome(outcome, duration_ms);
    response_to_json(&r)
}

} // verus!
