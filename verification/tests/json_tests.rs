use ababil_core::executor::ExchangeOutcome;
use ababil_core::json::{render_outcome, response_to_json};
use ababil_core::text::{ascii_uppercase, escape_string, u64_to_dec};
use ababil_core::HttpResponse;

#[test]
fn decimal_rendering_is_exact() {
    assert_eq!(u64_to_dec(0), "0");
    assert_eq!(u64_to_dec(7), "7");
    assert_eq!(u64_to_dec(10), "10");
    assert_eq!(u64_to_dec(200), "200");
    assert_eq!(u64_to_dec(65535), "65535");
    assert_eq!(u64_to_dec(u64::MAX), "18446744073709551615");
}

#[test]
fn uppercasing_folds_ascii_only() {
    assert_eq!(ascii_uppercase("get"), "GET");
    assert_eq!(ascii_uppercase("PaTcH"), "PATCH");
    assert_eq!(ascii_uppercase("x-1!"), "X-1!");
    assert_eq!(ascii_uppercase("héllo"), "HéLLO");
}

#[test]
fn escaping_is_exact() {
    assert_eq!(escape_string("plain"), "plain");
    assert_eq!(escape_string("a\"b"), "a\\\"b");
    assert_eq!(escape_string("a\\b"), "a\\\\b");
    assert_eq!(escape_string("a\nb\tc\rd"), "a\\nb\\tc\\rd");
    assert_eq!(escape_string("\u{8}\u{c}"), "\\b\\f");
    assert_eq!(escape_string("\u{1}\u{1f}"), "\\u0001\\u001f");
    assert_eq!(escape_string("héllo"), "héllo");
}

#[test]
fn response_serializes_to_the_wire_shape() {
    let r = HttpResponse {
        status_code: 200,
        headers: vec![("a".to_string(), "b".to_string())],
        body: "hi".to_string(),
        duration_ms: 5,
    };
    assert_eq!(
        response_to_json(&r),
        "{\"status_code\":200,\"headers\":[[\"a\",\"b\"]],\"body\":\"hi\",\"duration_ms\":5}"
    );
}

#[test]
fn empty_headers_serialize_to_an_empty_array() {
    let r = HttpResponse {
        status_code: 0,
        headers: Vec::new(),
        body: "Error: boom".to_string(),
        duration_ms: 12,
    };
    assert_eq!(
        response_to_json(&r),
        "{\"status_code\":0,\"headers\":[],\"body\":\"Error: boom\",\"duration_ms\":12}"
    );
}

#[test]
fn several_headers_are_joined_with_commas() {
    let r = HttpResponse {
        status_code: 204,
        headers: vec![
            ("A".to_string(), "1".to_string()),
            ("B".to_string(), "2".to_string()),
            ("C".to_string(), "3".to_string()),
        ],
        body: String::new(),
        duration_ms: 1,
    };
    assert_eq!(
        response_to_json(&r),
        "{\"status_code\":204,\"headers\":[[\"A\",\"1\"],[\"B\",\"2\"],[\"C\",\"3\"]],\"body\":\"\",\"duration_ms\":1}"
    );
}

#[test]
fn serialized_body_is_escaped() {
    let r = HttpResponse {
        status_code: 200,
        headers: vec![("k\"ey".to_string(), "v\\al".to_string())],
        body: "line1\nline2".to_string(),
        duration_ms: 3,
    };
    assert_eq!(
        response_to_json(&r),
        "{\"status_code\":200,\"headers\":[[\"k\\\"ey\",\"v\\\\al\"]],\"body\":\"line1\\nline2\",\"duration_ms\":3}"
    );
}

#[test]
fn serialized_response_parses_back_with_serde_json() {
    let r = HttpResponse {
        status_code: 503,
        headers: vec![("Retry-After".to_string(), "30".to_string())],
        body: "busy \"now\"\n".to_string(),
        duration_ms: 77,
    };
    let json = response_to_json(&r);
    let v: serde_json::Value = serde_json::from_str(&json).unwrap();
    assert_eq!(v["status_code"].as_u64(), Some(503));
    assert_eq!(v["headers"][0][0].as_str(), Some("Retry-After"));
    assert_eq!(v["headers"][0][1].as_str(), Some("30"));
    assert_eq!(v["body"].as_str(), Some("busy \"now\"\n"));
    assert_eq!(v["duration_ms"].as_u64(), Some(77));
}

#[test]
fn rendering_a_failure_outcome_gives_the_error_payload() {
    let s = render_outcome(ExchangeOutcome::Failed { message: "no route".to_string() }, 9);
    assert_eq!(
        s,
        "{\"status_code\":0,\"headers\":[],\"body\":\"Error: no route\",\"duration_ms\":9}"
    );
}

#[test]
fn rendering_a_completed_outcome_gives_the_server_payload() {
    let s = render_outcome(
        ExchangeOutcome::Completed {
            status_code: 404,
            headers: vec![("server".to_string(), "t".to_string())],
            body: "missing".to_string(),
        },
        100,
    );
    assert_eq!(
        s,
        "{\"status_code\":404,\"headers\":[[\"server\",\"t\"]],\"body\":\"missing\",\"duration_ms\":100}"
    );
}
