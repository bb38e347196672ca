use text_polisher::credential::{check_credential, describe_credential, KeyReport};
use text_polisher::error::ErrorKind;
use text_polisher::json::JsonValue;
use text_polisher::request::{build_payload, prepare_request};
use text_polisher::response::{
    extract_candidate_text, interpret_body, interpret_outcome, ShapeGap, UpstreamOutcome,
};
use text_polisher::text::push_decimal;

const KEY: &str = "abcdefghijklmnop";

fn respond(status: u16, body: &str) -> UpstreamOutcome {
    UpstreamOutcome::Responded { status, body: Some(body.to_string()) }
}

fn text_doc(text: &str) -> String {
    format!(
        "{{\"candidates\":[{{\"content\":{{\"parts\":[{{\"text\":{}}}]}}}}]}}",
        format!("{:?}", text)
    )
}

#[test]
fn prompt_contains_caller_text() {
    for text in ["", "hello", "  spaced  ", "ünïcödé text", "line\nbreak"] {
        let req = prepare_request(Some(KEY), text).unwrap();
        assert!(req.payload.prompt.contains(text));
        assert!(req.payload.prompt.ends_with(text));
        assert!(req.payload.prompt.starts_with("Rewrite the following text"));
        assert_eq!(req.api_key, KEY);
    }
}

#[test]
fn payload_has_fixed_generation_settings() {
    let p = build_payload("x");
    assert_eq!(p.temperature_tenths, 7);
    assert_eq!(p.max_output_tokens, 500);
    assert_eq!(p.top_p_tenths, 9);
    assert_eq!(p.top_k, 40);
    assert_eq!(
        p.prompt,
        "Rewrite the following text in a more polished and professional way. Provide only ONE improved version, not multiple options. Return only the rewritten text without any explanations or alternatives: x"
    );
}

#[test]
fn absent_empty_or_blank_credential_is_config_error() {
    for raw in [None, Some(""), Some("   "), Some("\t\n ")] {
        let e = prepare_request(raw, "hi").unwrap_err();
        assert_eq!(e.kind, ErrorKind::ConfigError);
        assert!(e.message.contains("not configured"));
    }
}

#[test]
fn short_credential_is_config_error() {
    for raw in ["abc", "123456789", "   123456789   "] {
        let e = prepare_request(Some(raw), "hi").unwrap_err();
        assert_eq!(e.kind, ErrorKind::ConfigError);
        assert!(e.message.contains("Invalid API key format"));
    }
}

#[test]
fn credential_is_trimmed() {
    assert_eq!(check_credential(Some("  0123456789 \n")).unwrap(), "0123456789");
}

#[test]
fn key_report_shows_length_and_preview() {
    match describe_credential(Some("  abcdefghijkl  ")) {
        KeyReport::Configured { length, preview } => {
            assert_eq!(length, 12);
            assert_eq!(preview, "abcdefgh...");
        }
        KeyReport::Missing => panic!("expected a configured key"),
    }
    match describe_credential(Some("abc")) {
        KeyReport::Configured { length, preview } => {
            assert_eq!(length, 3);
            assert_eq!(preview, "abc...");
        }
        KeyReport::Missing => panic!("expected a configured key"),
    }
    assert!(matches!(describe_credential(Some("  ")), KeyReport::Missing));
    assert!(matches!(describe_credential(None), KeyReport::Missing));
}

#[test]
fn generated_text_is_returned_trimmed() {
    let r = interpret_outcome(respond(200, &text_doc("  Polished.\n")), "orig").unwrap();
    assert_eq!(r.rewritten, "Polished.");
}

#[test]
fn blank_generated_text_falls_back_to_input() {
    let r = interpret_outcome(respond(200, &text_doc("   ")), "my original").unwrap();
    assert_eq!(r.rewritten, "my original");
}

#[test]
fn hello_world_scenario() {
    let body = r#"{"candidates":[{"content":{"parts":[{"text":"Hello, world."}]}}]}"#;
    let r = interpret_outcome(respond(200, body), "hi").unwrap();
    assert_eq!(r.rewritten, "Hello, world.");
}

#[test]
fn empty_candidates_is_malformed() {
    let body = r#"{"candidates":[]}"#;
    let e = interpret_outcome(respond(200, body), "hi").unwrap_err();
    assert_eq!(e.kind, ErrorKind::MalformedUpstreamResponse);
    assert_eq!(e.message, format!("Failed to parse Gemini response: {}", body));
}

#[test]
fn quota_error_is_rejected_with_status_and_message() {
    let body = r#"{"error":{"message":"quota exceeded"}}"#;
    let e = interpret_outcome(respond(429, body), "hi").unwrap_err();
    assert_eq!(e.kind, ErrorKind::UpstreamRejected);
    assert!(e.message.contains("429"));
    assert!(e.message.contains("quota exceeded"));
    assert_eq!(e.message, "Gemini API error: 429 - quota exceeded");
}

#[test]
fn rejected_without_message_carries_body() {
    let body = r#"{"error":{"code":7}}"#;
    let e = interpret_outcome(respond(503, body), "hi").unwrap_err();
    assert_eq!(e.kind, ErrorKind::UpstreamRejected);
    assert_eq!(e.message, format!("Gemini API error: 503 - {}", body));
}

#[test]
fn non_json_body_never_succeeds() {
    let e = interpret_outcome(respond(500, "<html>oops</html>"), "hi").unwrap_err();
    assert_eq!(e.kind, ErrorKind::UpstreamRejected);
    assert_eq!(e.message, "Gemini API error: 500 - <html>oops</html>");
    let e = interpret_outcome(respond(200, "<html>oops</html>"), "hi").unwrap_err();
    assert_eq!(e.kind, ErrorKind::MalformedUpstreamResponse);
    assert!(e.message.starts_with("Failed to parse Gemini response JSON: "));
    assert!(e.message.ends_with(" - <html>oops</html>"));
}

#[test]
fn unreadable_body_uses_placeholder() {
    let outcome = UpstreamOutcome::Responded { status: 502, body: None };
    let e = interpret_outcome(outcome, "hi").unwrap_err();
    assert_eq!(e.kind, ErrorKind::UpstreamRejected);
    assert_eq!(e.message, "Gemini API error: 502 - Failed to get response text");
}

#[test]
fn transport_failure_is_unreachable() {
    let outcome = UpstreamOutcome::TransportFailed("connection refused".to_string());
    let e = interpret_outcome(outcome, "hi").unwrap_err();
    assert_eq!(e.kind, ErrorKind::UpstreamUnreachable);
    assert_eq!(e.message, "Failed to call Gemini API: connection refused");
}

#[test]
fn each_missing_link_is_told_apart() {
    let cases = [
        (r#"{}"#, ShapeGap::NoCandidateList),
        (r#"{"candidates":{}}"#, ShapeGap::NoCandidateList),
        (r#"{"candidates":[]}"#, ShapeGap::NoFirstCandidate),
        (r#"{"candidates":[{}]}"#, ShapeGap::NoPartList),
        (r#"{"candidates":[{"content":{"parts":[]}}]}"#, ShapeGap::NoFirstPart),
        (r#"{"candidates":[{"content":{"parts":[{"text":3}]}}]}"#, ShapeGap::NoText),
    ];
    for (body, gap) in cases {
        let e = interpret_outcome(respond(200, body), "hi").unwrap_err();
        assert_eq!(e.kind, ErrorKind::MalformedUpstreamResponse);
        assert_eq!(e.message, format!("Failed to parse Gemini response: {}", body));
        let parsed = serde_json::from_str::<serde_json::Value>(body).unwrap();
        let doc = JsonValue::from_serde(&parsed, 128);
        assert_eq!(extract_candidate_text(&doc), Err(gap));
    }
}

#[test]
fn extraction_reports_the_missing_link() {
    let text_part = JsonValue::Object(vec![("text".to_string(), JsonValue::Str("hey".to_string()))]);
    let candidate = JsonValue::Object(vec![(
        "content".to_string(),
        JsonValue::Object(vec![("parts".to_string(), JsonValue::Array(vec![text_part]))]),
    )]);
    let doc = JsonValue::Object(vec![("candidates".to_string(), JsonValue::Array(vec![candidate]))]);
    assert_eq!(extract_candidate_text(&doc), Ok("hey"));
    let empty = JsonValue::Object(vec![("candidates".to_string(), JsonValue::Array(vec![]))]);
    assert_eq!(extract_candidate_text(&empty), Err(ShapeGap::NoFirstCandidate));
    assert_eq!(extract_candidate_text(&JsonValue::Null), Err(ShapeGap::NoCandidateList));
    let no_text = JsonValue::Object(vec![(
        "candidates".to_string(),
        JsonValue::Array(vec![JsonValue::Object(vec![(
            "content".to_string(),
            JsonValue::Object(vec![(
                "parts".to_string(),
                JsonValue::Array(vec![JsonValue::Object(vec![("text".to_string(), JsonValue::Number)])]),
            )]),
        )])]),
    )]);
    assert_eq!(extract_candidate_text(&no_text), Err(ShapeGap::NoText));
}

#[test]
fn interpret_body_uses_the_given_parse() {
    let parsed = Err("expected value at line 1 column 1".to_string());
    let e = interpret_body(201, "zzz", &parsed, "hi").unwrap_err();
    assert_eq!(e.kind, ErrorKind::MalformedUpstreamResponse);
    assert_eq!(e.message, "Failed to parse Gemini response JSON: expected value at line 1 column 1 - zzz");
    let doc = JsonValue::Object(vec![(
        "error".to_string(),
        JsonValue::Object(vec![("message".to_string(), JsonValue::Str("bad key".to_string()))]),
    )]);
    let e = interpret_body(403, "ignored", &Ok(doc), "hi").unwrap_err();
    assert_eq!(e.message, "Gemini API error: 403 - bad key");
}

#[test]
fn decimal_rendering() {
    for n in [0u16, 7, 10, 99, 200, 429, 65535] {
        let mut s = String::from("x");
        push_decimal(&mut s, n);
        assert_eq!(s, format!("x{}", n));
    }
}
