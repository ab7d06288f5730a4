use sovereign_agent::agent::Agent;
use sovereign_agent::payload::build_payload;

fn payload_text(from: &str, message: &str) -> String {
    String::from_utf8(build_payload(from, message)).expect("payload must be valid UTF-8")
}

#[test]
fn plain_payload_is_the_expected_json_object() {
    assert_eq!(
        payload_text("did:example:abc", "hello"),
        "{\"from\":\"did:example:abc\",\"message\":\"hello\"}"
    );
}

#[test]
fn quotes_and_backslashes_are_escaped() {
    assert_eq!(
        payload_text("id", "say \"hi\" and c:\\temp"),
        "{\"from\":\"id\",\"message\":\"say \\\"hi\\\" and c:\\\\temp\"}"
    );
}

#[test]
fn control_characters_are_escaped_as_hex() {
    assert_eq!(
        payload_text("id", "line1\nline2\ttab\u{1f}"),
        "{\"from\":\"id\",\"message\":\"line1\\u000aline2\\u0009tab\\u001f\"}"
    );
}

#[test]
fn empty_strings_build_an_empty_fields_object() {
    assert_eq!(payload_text("", ""), "{\"from\":\"\",\"message\":\"\"}");
}

#[test]
fn payload_parses_as_json_with_the_given_fields() {
    let text = payload_text("did:example:abc", "hello \"world\"\n\\end");
    let value: serde_json::Value = serde_json::from_str(&text).expect("payload must parse");
    assert_eq!(value["from"].as_str(), Some("did:example:abc"));
    assert_eq!(value["message"].as_str(), Some("hello \"world\"\n\\end"));
}

#[test]
fn unicode_message_passes_through_unescaped() {
    let text = payload_text("id", "grüße ☀ 你好");
    let value: serde_json::Value = serde_json::from_str(&text).expect("payload must parse");
    assert_eq!(value["message"].as_str(), Some("grüße ☀ 你好"));
}

#[test]
fn agent_payload_carries_its_own_id() {
    let agent = Agent::new();
    let text = String::from_utf8(agent.notify_payload("hello")).unwrap();
    let value: serde_json::Value = serde_json::from_str(&text).expect("payload must parse");
    assert_eq!(value["from"].as_str(), Some(agent.identity.id.as_str()));
    assert_eq!(value["message"].as_str(), Some("hello"));
}
