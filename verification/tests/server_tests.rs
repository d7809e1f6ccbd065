use sentrypeer::config::Config;
use sentrypeer::event::{InboundProbe, Transport};
use sentrypeer::server::{handle_probe, ListenerGroup};
use sentrypeer::sip::gen_sip_reply;

fn probe(transport: Transport, payload: &[u8]) -> InboundProbe {
    InboundProbe {
        payload: payload.to_vec(),
        transport,
        peer_addr: String::from("203.0.113.9:5060"),
        local_addr: String::from("0.0.0.0:5060"),
    }
}

#[test]
fn each_transport_yields_one_event_with_matching_label() {
    for (transport, label) in [
        (Transport::Tcp, "TCP"),
        (Transport::Udp, "UDP"),
        (Transport::Tls, "TLS"),
    ] {
        let outcome = handle_probe(
            probe(transport, b"OPTIONS sip:server SIP/2.0\r\n"),
            false,
            String::from("node-9"),
        );
        assert_eq!(outcome.event.transport_type, label);
        assert_eq!(outcome.event.source_ip, "203.0.113.9:5060");
        assert_eq!(outcome.event.sip_message, "OPTIONS sip:server SIP/2.0\r\n");
        assert_eq!(outcome.event.collected_method, "unresponsive");
        assert!(outcome.reply.is_none());
    }
}

#[test]
fn responsive_mode_sends_exactly_one_canned_reply() {
    for transport in [Transport::Tcp, Transport::Udp, Transport::Tls] {
        let outcome = handle_probe(probe(transport, b"REGISTER"), true, String::from("n"));
        assert_eq!(outcome.event.collected_method, "responsive");
        let reply = outcome.reply.expect("responsive mode replies");
        assert_eq!(reply, gen_sip_reply());
        assert!(reply.starts_with("SIP/2.0 200 OK\r\n"));
        assert!(reply.ends_with("Content-Length:  0\r\n"));
    }
}

#[test]
fn canned_reply_headers_are_the_fixed_literal() {
    let reply = gen_sip_reply();
    for header in [
        "Via:", "Call-ID:", "From:", "To:", "CSeq:", "Accept:", "Allow:", "Supported:",
        "Accept-Encoding:", "Accept-Language:", "Server:", "Content-Length:",
    ] {
        assert!(reply.contains(header), "missing header {header}");
    }
}

#[test]
fn shutdown_stops_acceptance_and_lets_in_flight_finish() {
    let mut group = ListenerGroup::start(Config::default(), false, String::from("node"));
    assert!(group.accepting);
    assert_eq!(group.in_flight, 0);

    let _one = group.accept_probe(probe(Transport::Tcp, b"hi"));
    let _two = group.accept_probe(probe(Transport::Udp, b"hi"));
    assert_eq!(group.in_flight, 2);

    group.signal_shutdown();
    assert!(!group.accepting);
    assert_eq!(group.in_flight, 2);

    group.finish_probe();
    group.finish_probe();
    assert_eq!(group.in_flight, 0);
    assert!(!group.accepting);
}

#[test]
fn udp_scenario_with_responsive_mode() {
    // A listener group with responsive mode on receives one ten-byte UDP
    // datagram: the peer gets exactly the canned reply text back, and the
    // collector gets one event labelled UDP.
    let mut group = ListenerGroup::start(Config::default(), true, String::from("node-a"));
    let datagram: [u8; 10] = *b"OPTIONS si";
    let outcome = group.accept_probe(InboundProbe {
        payload: datagram.to_vec(),
        transport: Transport::Udp,
        peer_addr: String::from("127.0.0.1:34567"),
        local_addr: String::from("127.0.0.1:5060"),
    });
    let reply = outcome.reply.expect("reply in responsive mode");
    assert_eq!(reply, gen_sip_reply());
    assert_eq!(outcome.event.transport_type, "UDP");
    assert_eq!(outcome.event.sip_message, "OPTIONS si");
    assert_eq!(outcome.event.source_ip, "127.0.0.1:34567");
    group.finish_probe();
    assert_eq!(group.in_flight, 0);
}
