use chrono::Utc;
use sentrypeer::event::{probe_to_event, return_bad_actor_new, BadActor, InboundProbe, Transport};
use sentrypeer::{return_exit_status, return_string, EXIT_FAILURE, EXIT_SUCCESS};

#[test]
fn test_return_exit_status() {
    assert_eq!(return_exit_status(true), EXIT_SUCCESS);
    assert_eq!(return_exit_status(false), EXIT_FAILURE);
}

#[test]
fn test_return_string() {
    assert_eq!(return_string(), "Greetings from Rust");
}

#[test]
fn test_return_bad_actor_new() {
    let bad_actor = return_bad_actor_new(
        String::from("blah"),
        String::from("127.0.0.1"),
        String::from("127.0.0.1"),
        String::from("1234"),
        String::from("INVITE"),
        String::from("UDP"),
        String::from("SIPp"),
        String::from("INVITE"),
        String::from("460f30e4-ce1d-4d53-9004-dd40a1c4abc9"),
    );

    assert_eq!(
        bad_actor.event_timestamp,
        Utc::now().format("%Y-%m-%d %H:%M:%S").to_string()
    );
    assert_eq!(bad_actor.event_uuid.len(), 36);
    assert_eq!(bad_actor.sip_message, "blah");
    assert_eq!(bad_actor.source_ip, "127.0.0.1");
    assert_eq!(bad_actor.destination_ip, "127.0.0.1");
    assert_eq!(bad_actor.called_number, "1234");
    assert_eq!(bad_actor.method, "INVITE");
    assert_eq!(bad_actor.transport_type, "UDP");
    assert_eq!(bad_actor.user_agent, "SIPp");
    assert_eq!(bad_actor.collected_method, "INVITE");
    assert_eq!(
        bad_actor.created_by_node_id,
        "460f30e4-ce1d-4d53-9004-dd40a1c4abc9"
    );
}

#[test]
fn fresh_events_get_distinct_uuids() {
    let a = BadActor::new(
        String::new(),
        String::new(),
        String::new(),
        String::new(),
        String::new(),
        String::new(),
        String::new(),
        String::new(),
        String::new(),
    );
    let b = BadActor::new(
        String::new(),
        String::new(),
        String::new(),
        String::new(),
        String::new(),
        String::new(),
        String::new(),
        String::new(),
        String::new(),
    );
    assert_eq!(a.event_uuid.len(), 36);
    assert_eq!(b.event_uuid.len(), 36);
    assert_ne!(a.event_uuid, b.event_uuid);
}

#[test]
fn probe_payload_is_decoded_lossily() {
    let probe = InboundProbe {
        payload: vec![b'O', b'P', b'T', 0xFF, 0xFE],
        transport: Transport::Tcp,
        peer_addr: String::from("192.0.2.7:4242"),
        local_addr: String::from("0.0.0.0:5060"),
    };
    let event = probe_to_event(probe, String::from("responsive"), String::from("node-1"));
    assert_eq!(event.sip_message, "OPT\u{FFFD}\u{FFFD}");
    assert_eq!(event.transport_type, "TCP");
    assert_eq!(event.source_ip, "192.0.2.7:4242");
    assert_eq!(event.destination_ip, "0.0.0.0:5060");
    assert_eq!(event.collected_method, "responsive");
    assert_eq!(event.created_by_node_id, "node-1");
    assert_eq!(event.called_number, "");
    assert_eq!(event.method, "");
    assert_eq!(event.user_agent, "");
    assert!(!event.event_timestamp.is_empty());
}

#[test]
fn transport_labels() {
    assert_eq!(Transport::Tcp.label(), "TCP");
    assert_eq!(Transport::Udp.label(), "UDP");
    assert_eq!(Transport::Tls.label(), "TLS");
}
