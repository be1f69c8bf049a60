use live_gateway::cookies::parse_cookies;
use live_gateway::envelope::{envelope_status, unwrap_envelope, ApiError};
use live_gateway::json::{index_of, JsonValue};
use live_gateway::models::gugugagaApiResponse;

#[test]
fn cookie_pairs_are_split_and_trimmed() {
    let jar = parse_cookies("a=1; b=2; c=");
    assert_eq!(jar.len(), 3);
    assert_eq!(jar.get("a").map(|s| s.as_str()), Some("1"));
    assert_eq!(jar.get("b").map(|s| s.as_str()), Some("2"));
    assert_eq!(jar.get("c").map(|s| s.as_str()), Some(""));
}

#[test]
fn cookie_segment_without_equals_is_dropped() {
    let jar = parse_cookies("novalue;d=4");
    assert_eq!(jar.len(), 1);
    assert!(jar.get("novalue").is_none());
    assert_eq!(jar.get("d").map(|s| s.as_str()), Some("4"));
}

#[test]
fn cookie_value_may_hold_further_equals() {
    let jar = parse_cookies("k=a=b=c");
    assert_eq!(jar.get("k").map(|s| s.as_str()), Some("a=b=c"));
}

#[test]
fn cookie_repeated_name_keeps_last_value() {
    let jar = parse_cookies("x=1; x=2");
    assert_eq!(jar.len(), 2);
    assert_eq!(jar.get("x").map(|s| s.as_str()), Some("2"));
}

#[test]
fn cookie_empty_header_yields_empty_jar() {
    assert_eq!(parse_cookies("").len(), 0);
    assert_eq!(parse_cookies(" ; ; ").len(), 0);
}

fn env<T>(code: i32, message: &str, data: Option<T>) -> gugugagaApiResponse<T> {
    gugugagaApiResponse {
        code,
        message: message.to_string(),
        data,
    }
}

#[test]
fn envelope_success_unwraps_its_payload() {
    assert_eq!(unwrap_envelope(env(0, "", Some(7u64))), Ok(7u64));
}

#[test]
fn envelope_success_without_payload_is_a_protocol_violation() {
    match unwrap_envelope(env::<u64>(0, "", None)) {
        Err(ApiError::MissingData) => {}
        other => panic!("expected MissingData, got {:?}", other),
    }
}

#[test]
fn envelope_failure_preserves_code_and_message() {
    match unwrap_envelope(env::<u64>(-101, "not logged in", None)) {
        Err(ApiError::Remote { code, message }) => {
            assert_eq!(code, -101);
            assert_eq!(message, "not logged in");
        }
        other => panic!("expected Remote, got {:?}", other),
    }
}

#[test]
fn unit_envelope_ignores_a_missing_payload() {
    assert_eq!(envelope_status(env::<u64>(0, "", None)), Ok(()));
    match envelope_status(env::<u64>(1, "boom", None)) {
        Err(ApiError::Remote { code, message }) => {
            assert_eq!(code, 1);
            assert_eq!(message, "boom");
        }
        other => panic!("expected Remote, got {:?}", other),
    }
}

#[test]
fn json_indexing_is_permissive() {
    let null = JsonValue::Null;
    let doc = JsonValue::Obj(vec![
        ("mid".to_string(), JsonValue::UInt(99)),
        ("name".to_string(), JsonValue::Str("x".to_string())),
    ]);
    assert_eq!(index_of(&doc, "mid", &null).as_u64_or(0), 99);
    assert_eq!(index_of(&doc, "absent", &null).as_u64_or(5), 5);
    assert_eq!(index_of(&null, "anything", &null).as_u64_or(3), 3);
    assert_eq!(index_of(&doc, "name", &null).as_str_or("d"), "x");
    assert_eq!(index_of(&doc, "mid", &null).as_str_or("d"), "d");
    assert_eq!(index_of(&doc, "mid", &null).num_text(), "99");
    assert_eq!(index_of(&doc, "name", &null).num_text(), "0");
}
