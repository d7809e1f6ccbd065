use sentrypeer::event::BadActor;
use sentrypeer::json::{bad_actor_to_json, json_log_line, json_to_bad_actor, token_request_json};

fn sample_event() -> BadActor {
    BadActor {
        event_timestamp: String::from("2024-01-02 03:04:05"),
        event_uuid: String::from("460f30e4-ce1d-4d53-9004-dd40a1c4abc9"),
        collected_method: String::from("responsive"),
        created_by_node_id: String::from("350f30e4-ce1d-4d53-9004-dd40a1c4abc8"),
        sip_message: String::from("SIP Message"),
        source_ip: String::from("127.0.0.1"),
        destination_ip: String::from("127.0.0.1"),
        called_number: String::from("441234512346"),
        method: String::from("INVITE"),
        transport_type: String::from("TLS"),
        user_agent: String::from("SIPp"),
    }
}

#[test]
fn serialized_event_has_expected_wire_text() {
    let json = bad_actor_to_json(&sample_event());
    let expected = "{\"app_name\":\"sentrypeer\",\"app_version\":\"4.0.3\",\"event_timestamp\":\"2024-01-02 03:04:05\",\"event_uuid\":\"460f30e4-ce1d-4d53-9004-dd40a1c4abc9\",\"created_by_node_id\":\"350f30e4-ce1d-4d53-9004-dd40a1c4abc8\",\"collected_method\":\"responsive\",\"transport_type\":\"TLS\",\"source_ip\":\"127.0.0.1\",\"destination_ip\":\"127.0.0.1\",\"called_number\":\"441234512346\",\"sip_method\":\"INVITE\",\"sip_user_agent\":\"SIPp\",\"sip_message\":\"SIP Message\"}";
    assert_eq!(json, expected);
}

#[test]
fn serialized_event_is_valid_json_with_expected_fields() {
    let json = bad_actor_to_json(&sample_event());
    let parsed: serde_json::Value = serde_json::from_str(&json).expect("valid JSON");
    assert_eq!(parsed["app_name"], "sentrypeer");
    assert_eq!(parsed["transport_type"], "TLS");
    assert_eq!(parsed["called_number"], "441234512346");
    assert_eq!(parsed["sip_user_agent"], "SIPp");
    assert_eq!(parsed["sip_message"], "SIP Message");
}

#[test]
fn round_trip_reproduces_every_field() {
    let event = sample_event();
    let json = bad_actor_to_json(&event);
    let back = json_to_bad_actor(&json).expect("wire form parses");
    assert_eq!(back.event_timestamp, event.event_timestamp);
    assert_eq!(back.event_uuid, event.event_uuid);
    assert_eq!(back.collected_method, "responsive");
    assert_eq!(back.created_by_node_id, event.created_by_node_id);
    assert_eq!(back.sip_message, event.sip_message);
    assert_eq!(back.source_ip, "127.0.0.1");
    assert_eq!(back.destination_ip, event.destination_ip);
    assert_eq!(back.called_number, event.called_number);
    assert_eq!(back.method, event.method);
    assert_eq!(back.transport_type, "TLS");
    assert_eq!(back.user_agent, event.user_agent);
}

#[test]
fn round_trip_survives_escaping() {
    let mut event = sample_event();
    event.sip_message = String::from("a \"quoted\" \\ line\r\nwith\tcontrol\u{1}bytes");
    event.user_agent = String::from("");
    let json = bad_actor_to_json(&event);
    let back = json_to_bad_actor(&json).expect("escaped wire form parses");
    assert_eq!(back.sip_message, event.sip_message);
    assert_eq!(back.user_agent, "");
    let parsed: serde_json::Value = serde_json::from_str(&json).expect("still valid JSON");
    assert_eq!(
        parsed["sip_message"],
        "a \"quoted\" \\ line\r\nwith\tcontrol\u{1}bytes"
    );
}

#[test]
fn test_json_to_bad_actor_rs() {
    let json_str = r#"{
        "app_name": "sentrypeer",
        "app_version": "0.1.0",
        "event_timestamp": "blah",
        "event_uuid": "460f30e4-ce1d-4d53-9004-dd40a1c4abc9",
        "created_by_node_id": "350f30e4-ce1d-4d53-9004-dd40a1c4abc8",
        "collected_method": "responsive",
        "transport_type": "UDP",
        "source_ip": "127.0.0.1",
        "destination_ip": "127.0.0.1",
        "called_number": "1234",
        "sip_method": "INVITE",
        "sip_user_agent": "SIPp",
        "sip_message": "INVITE"
    }"#;

    let bad_actor_event = json_to_bad_actor(json_str).expect("parses");
    assert_eq!(bad_actor_event.collected_method, String::from("responsive"));
}

#[test]
fn parser_rejects_what_is_not_the_wire_form() {
    assert!(json_to_bad_actor("").is_none());
    assert!(json_to_bad_actor("{}").is_none());
    assert!(json_to_bad_actor("[1,2,3]").is_none());
    assert!(json_to_bad_actor("{\"app_name\":\"sentrypeer\"}").is_none());
    let unterminated = "{\"app_name\":\"sentrypeer";
    assert!(json_to_bad_actor(unterminated).is_none());
    let event = sample_event();
    let mut json = bad_actor_to_json(&event);
    json.push('x');
    assert!(json_to_bad_actor(&json).is_none());
}

#[test]
fn parser_decodes_short_and_unicode_escapes() {
    let json = "{\"app_name\":\"sentrypeer\",\"app_version\":\"4.0.3\",\"event_timestamp\":\"t\",\"event_uuid\":\"u\",\"created_by_node_id\":\"n\",\"collected_method\":\"m\",\"transport_type\":\"\\u0054CP\",\"source_ip\":\"s\",\"destination_ip\":\"d\",\"called_number\":\"c\",\"sip_method\":\"\\/slash\\b\\f\",\"sip_user_agent\":\"line\\nbreak\",\"sip_message\":\"tab\\there\"}";
    let back = json_to_bad_actor(json).expect("escapes parse");
    assert_eq!(back.transport_type, "TCP");
    assert_eq!(back.method, "/slash\u{8}\u{c}");
    assert_eq!(back.user_agent, "line\nbreak");
    assert_eq!(back.sip_message, "tab\there");
}

#[test]
fn log_line_is_wire_form_plus_newline() {
    let event = sample_event();
    let line = json_log_line(&event);
    let json = bad_actor_to_json(&event);
    assert_eq!(line, format!("{}\n", json));
}

#[test]
fn token_request_body_matches_wire_form() {
    let body = token_request_json("my-id", "SECRET-REDACTED", "https://sentrypeer.com/api");
    assert_eq!(
        body,
        "{\"client_id\":\"my-id\",\"client_secret\":\"SECRET-REDACTED\",\"audience\":\"https://sentrypeer.com/api\",\"grant_type\":\"client_credentials\"}"
    );
    let parsed: serde_json::Value = serde_json::from_str(&body).expect("valid JSON");
    assert_eq!(parsed["grant_type"], "client_credentials");
}
