use api::json::{array, string_literal, JsonPayload};
use api::message::{message_object, MessageLog};
use api::response::{data_object, error_object, ApiResponse};

#[test]
fn string_literal_puts_text_in_quotes() {
    assert_eq!(string_literal("hello world"), "\"hello world\"");
    assert_eq!(string_literal(""), "\"\"");
}

#[test]
fn string_literal_escapes_what_json_reserves() {
    assert_eq!(string_literal("say \"hi\""), "\"say \\\"hi\\\"\"");
    assert_eq!(string_literal("a\\b"), "\"a\\\\b\"");
    assert_eq!(string_literal("line\nbreak\ttab"), "\"line\\nbreak\\ttab\"");
    assert_eq!(string_literal("\u{1}"), "\"\\u0001\"");
}

#[test]
fn string_literal_keeps_other_characters() {
    assert_eq!(string_literal("caf\u{e9} \u{1f600}"), "\"caf\u{e9} \u{1f600}\"");
}

#[test]
fn array_separates_with_commas() {
    assert_eq!(array(&vec![]), "[]");
    assert_eq!(array(&vec!["1".to_string()]), "[1]");
    assert_eq!(
        array(&vec!["1".to_string(), "\"two\"".to_string(), "{}".to_string()]),
        "[1,\"two\",{}]"
    );
}

#[test]
fn objects_are_framed_without_spaces() {
    assert_eq!(message_object("\"x\""), "{\"content\":\"x\"}");
    assert_eq!(data_object("[]"), "{\"data\":[]}");
    assert_eq!(error_object("\"oops\""), "{\"error\":\"oops\"}");
}

#[test]
fn message_is_written_as_an_object() {
    let mut log = MessageLog::new();
    let message = log.append("quote \" and slash \\".to_string());
    let text = message.to_json();
    assert_eq!(text, "{\"content\":\"quote \\\" and slash \\\\\"}");
    let parsed: serde_json::Value = serde_json::from_str(&text).unwrap();
    assert_eq!(parsed["content"], serde_json::Value::String("quote \" and slash \\".to_string()));
}

#[test]
fn messages_are_written_as_an_array() {
    let mut log = MessageLog::new();
    assert_eq!(log.snapshot().to_json(), "[]");
    log.append("a".to_string());
    assert_eq!(log.snapshot().to_json(), "[{\"content\":\"a\"}]");
    log.append("b".to_string());
    assert_eq!(log.snapshot().to_json(), "[{\"content\":\"a\"},{\"content\":\"b\"}]");
}

#[test]
fn envelope_carries_no_tag() {
    let mut log = MessageLog::new();
    let message = log.append("m".to_string());
    let success = ApiResponse::Success { data: message.clone() };
    let created = ApiResponse::Created { data: message };
    assert_eq!(success.to_json(), "{\"data\":{\"content\":\"m\"}}");
    assert_eq!(created.to_json(), "{\"data\":{\"content\":\"m\"}}");
    let error: ApiResponse<Vec<api::message::Message>> =
        ApiResponse::Error { error: "went \"wrong\"".to_string() };
    assert_eq!(error.to_json(), "{\"error\":\"went \\\"wrong\\\"\"}");
}

#[test]
fn each_variant_has_its_status() {
    let mut log = MessageLog::new();
    let message = log.append("m".to_string());
    let success = ApiResponse::Success { data: message.clone() };
    let created = ApiResponse::Created { data: message };
    let error: ApiResponse<api::message::Message> =
        ApiResponse::Error { error: "e".to_string() };
    assert_eq!(success.status(), 200);
    assert_eq!(created.status(), 201);
    assert_eq!(error.status(), 500);
    assert_eq!(success.into_response().status, 200);
    assert_eq!(created.into_response().status, 201);
    let sent = error.into_response();
    assert_eq!(sent.status, 500);
    assert_eq!(sent.body, "{\"error\":\"e\"}");
}
