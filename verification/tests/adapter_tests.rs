use ababil_core::adapter::{decode_request, BoundaryInput};

fn text(s: &str) -> BoundaryInput {
    BoundaryInput::Present(s.to_string())
}

#[test]
fn missing_method_is_a_hard_failure() {
    let r = decode_request(
        BoundaryInput::Absent,
        text("http://example.com/"),
        BoundaryInput::Absent,
        BoundaryInput::Absent,
    );
    assert!(r.is_none());
}

#[test]
fn missing_url_is_a_hard_failure() {
    let r = decode_request(text("GET"), BoundaryInput::Absent, BoundaryInput::Absent, BoundaryInput::Absent);
    assert!(r.is_none());
}

#[test]
fn malformed_method_is_a_hard_failure() {
    let r = decode_request(
        BoundaryInput::Malformed,
        text("http://example.com/"),
        BoundaryInput::Absent,
        BoundaryInput::Absent,
    );
    assert!(r.is_none());
}

#[test]
fn malformed_url_is_a_hard_failure() {
    let r = decode_request(text("GET"), BoundaryInput::Malformed, BoundaryInput::Absent, BoundaryInput::Absent);
    assert!(r.is_none());
}

#[test]
fn valid_inputs_decode_in_full() {
    let r = decode_request(
        text("POST"),
        text("http://example.com/things"),
        text("[[\"A\",\"1\"],[\"B\",\"2\"]]"),
        text("payload"),
    )
    .unwrap();
    assert_eq!(r.method, "POST");
    assert_eq!(r.url, "http://example.com/things");
    assert_eq!(
        r.headers,
        vec![("A".to_string(), "1".to_string()), ("B".to_string(), "2".to_string())]
    );
    assert_eq!(r.body, Some("payload".to_string()));
}

#[test]
fn header_order_and_duplicates_are_kept() {
    let r = decode_request(
        text("GET"),
        text("http://example.com/"),
        text("[[\"X\",\"2\"],[\"A\",\"1\"],[\"X\",\"3\"]]"),
        BoundaryInput::Absent,
    )
    .unwrap();
    assert_eq!(
        r.headers,
        vec![
            ("X".to_string(), "2".to_string()),
            ("A".to_string(), "1".to_string()),
            ("X".to_string(), "3".to_string()),
        ]
    );
}

#[test]
fn malformed_header_json_degrades_to_empty() {
    let r = decode_request(
        text("GET"),
        text("http://example.com/"),
        text("not json"),
        BoundaryInput::Absent,
    )
    .unwrap();
    assert!(r.headers.is_empty());
}

#[test]
fn header_json_of_wrong_shape_degrades_to_empty() {
    let r = decode_request(
        text("GET"),
        text("http://example.com/"),
        text("{\"A\":\"1\"}"),
        BoundaryInput::Absent,
    )
    .unwrap();
    assert!(r.headers.is_empty());
}

#[test]
fn absent_headers_mean_empty() {
    let r = decode_request(text("GET"), text("http://example.com/"), BoundaryInput::Absent, BoundaryInput::Absent)
        .unwrap();
    assert!(r.headers.is_empty());
}

#[test]
fn malformed_headers_input_means_empty() {
    let r = decode_request(
        text("GET"),
        text("http://example.com/"),
        BoundaryInput::Malformed,
        BoundaryInput::Absent,
    )
    .unwrap();
    assert!(r.headers.is_empty());
}

#[test]
fn absent_body_means_no_body() {
    let r = decode_request(text("GET"), text("http://example.com/"), BoundaryInput::Absent, BoundaryInput::Absent)
        .unwrap();
    assert_eq!(r.body, None);
}

#[test]
fn malformed_body_means_no_body() {
    let r = decode_request(
        text("GET"),
        text("http://example.com/"),
        BoundaryInput::Absent,
        BoundaryInput::Malformed,
    )
    .unwrap();
    assert_eq!(r.body, None);
}

#[test]
fn empty_header_array_decodes_to_empty() {
    let r = decode_request(text("GET"), text("http://example.com/"), text("[]"), BoundaryInput::Absent)
        .unwrap();
    assert!(r.headers.is_empty());
}
