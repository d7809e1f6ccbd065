//! Bad-actor events and the inbound probes they are built from.
//!
//! A probe is one accepted connection or datagram: its raw bytes, the
//! transport it arrived on and the two socket addresses, already rendered as
//! text at the I/O edge. The event is the immutable structured record handed
//! to the collector and, optionally, the webhook: it carries the probe's
//! attribution plus a fresh timestamp and a fresh UUID.

use vstd::prelude::*;

verus! {

/// The three transports a probe can arrive on.
#[derive(Clone, Copy, PartialEq, Eq, Structural)]
pub enum Transport {
    Tcp,
    Udp,
    Tls,
}

/// The wire label of a transport.
pub open spec fn spec_transport_label(t: Transport) -> Seq<char> {
    match t {
        Transport::Tcp => "TCP"@,
        Transport::Udp => "UDP"@,
        Transport::Tls => "TLS"@,
    }
}

impl Transport {
    /// The transport's label as it appears in events.
    pub fn label(&self) -> (r: String)
        ensures
            r@ == spec_transport_label(*self),
    {
        match self {
            Transport::Tcp => String::from_str("TCP"),
            Transport::Udp => String::from_str("UDP"),
            Transport::Tls => String::from_str("TLS"),
        }
    }
}

/// One inbound probe: a single read from an accepted connection (TCP, TLS)
/// or one datagram (UDP). Ephemeral: consumed immediately by the pipeline.
pub struct InboundProbe {
    /// The raw bytes of the single read.
    pub payload: Vec<u8>,
    /// The transport the probe arrived on.
    pub transport: Transport,
    /// The peer's socket address, as text.
    pub peer_addr: String,
    /// The local (destination) socket address, as text.
    pub local_addr: String,
}

/// The structured record describing one probe. Constructed once per probe
/// and immutable thereafter. Every field may be empty except the timestamp
/// and the UUID, which are always populated at construction.
pub struct BadActor {
    pub event_timestamp: String,
    pub event_uuid: String,
    pub collected_method: String,
    pub created_by_node_id: String,
    pub sip_message: String,
    pub source_ip: String,
    pub destination_ip: String,
    pub called_number: String,
    pub method: String,
    pub transport_type: String,
    pub user_agent: String,
}

/// Mathematical model of a `BadActor`: every field as a character sequence.
pub struct BadActorView {
    pub event_timestamp: Seq<char>,
    pub event_uuid: Seq<char>,
    pub collected_method: Seq<char>,
    pub created_by_node_id: Seq<char>,
    pub sip_message: Seq<char>,
    pub source_ip: Seq<char>,
    pub destination_ip: Seq<char>,
    pub called_number: Seq<char>,
    pub method: Seq<char>,
    pub transport_type: Seq<char>,
    pub user_agent: Seq<char>,
}

impl View for BadActor {
    type V = BadActorView;

    open spec fn view(&self) -> BadActorView {
        BadActorView {
            event_timestamp: self.event_timestamp@,
            event_uuid: self.event_uuid@,
            collected_method: self.collected_method@,
            created_by_node_id: self.created_by_node_id@,
            sip_message: self.sip_message@,
            source_ip: self.source_ip@,
            destination_ip: self.destination_ip@,
            called_number: self.called_number@,
            method: self.method@,
            transport_type: self.transport_type@,
            user_agent: self.user_agent@,
        }
    }
}

/// Relies on chrono's Utc::now and DateTime::format: renders the current
/// UTC time as `YYYY-MM-DD hh:mm:ss`, never an empty string.
#[verifier::external_body]
fn now_timestamp() -> (r: String)
    ensures
        r@.len() > 0,
{
    chrono::Utc::now().format("%Y-%m-%d %H:%M:%S").to_string()
}

/// Relies on uuid's Uuid::new_v4 and its Display form: a fresh random v4
/// UUID renders as 36 hyphenated lower-case hex characters.
#[verifier::external_body]
fn new_uuid() -> (r: String)
    ensures
        r@.len() == 36,
{
    uuid::Uuid::new_v4().to_string()
}

/// The characters that `String::from_utf8_lossy` decodes a byte sequence to.
pub uninterp spec fn utf8_lossy_of(bytes: Seq<u8>) -> Seq<char>;

/// Relies on String::from_utf8_lossy: decodes bytes as UTF-8, substituting
/// the replacement character for invalid sequences; valid UTF-8 decodes
/// unchanged. The result depends on the bytes alone.
#[verifier::external_body]
fn utf8_lossy(bytes: &Vec<u8>) -> (r: String)
    ensures
        r@ == utf8_lossy_of(bytes@),
        vstd::utf8::valid_utf8(bytes@) ==> r@ == vstd::utf8::decode_utf8(bytes@),
{
    String::from_utf8_lossy(bytes.as_slice()).into_owned()
}

impl BadActor {
    /// Builds an event from its attribution fields, generating the timestamp
    /// and the UUID fresh. Every other field is exactly the argument given.
    pub fn new(
        sip_message: String,
        source_ip: String,
        destination_ip: String,
        called_number: String,
        method: String,
        transport_type: String,
        user_agent: String,
        collected_method: String,
        created_by_node_id: String,
    ) -> (r: Self)
        ensures
            r.sip_message@ == sip_message@,
            r.source_ip@ == source_ip@,
            r.destination_ip@ == destination_ip@,
            r.called_number@ == called_number@,
            r.method@ == method@,
            r.transport_type@ == transport_type@,
            r.user_agent@ == user_agent@,
            r.collected_method@ == collected_method@,
            r.created_by_node_id@ == created_by_node_id@,
            r.event_timestamp@.len() > 0,
            r.event_uuid@.len() == 36,
    {
        BadActor {
            event_timestamp: now_timestamp(),
            event_uuid: new_uuid(),
            collected_method,
            created_by_node_id,
            sip_message,
            source_ip,
            destination_ip,
            called_number,
            method,
            transport_type,
            user_agent,
        }
    }
}

/// Builds a heap-allocated event; the fields behave as in `BadActor::new`.
pub fn return_bad_actor_new(
    sip_message: String,
    source_ip: String,
    destination_ip: String,
    called_number: String,
    method: String,
    transport_type: String,
    user_agent: String,
    collected_method: String,
    created_by_node_id: String,
) -> (r: Box<BadActor>)
    ensures
        r.sip_message@ == sip_message@,
        r.source_ip@ == source_ip@,
        r.destination_ip@ == destination_ip@,
        r.called_number@ == called_number@,
        r.method@ == method@,
        r.transport_type@ == transport_type@,
        r.user_agent@ == user_agent@,
        r.collected_method@ == collected_method@,
        r.created_by_node_id@ == created_by_node_id@,
        r.event_timestamp@.len() > 0,
        r.event_uuid@.len() == 36,
{
    Box::new(
        BadActor::new(
            sip_message,
            source_ip,
            destination_ip,
            called_number,
            method,
            transport_type,
            user_agent,
            collected_method,
            created_by_node_id,
        ),
    )
}

/// Normalizes one inbound probe into an event: the message text is the
/// lossy UTF-8 decoding of the payload, the transport label, source and
/// destination come from the probe, and the best-effort SIP fields stay
/// empty — their extraction is the collector's job, not duplicated here.
pub fn probe_to_event(probe: InboundProbe, collected_method: String, node_id: String) -> (r:
    BadActor)
    ensures
        r.sip_message@ == utf8_lossy_of(probe.payload@),
        r.source_ip@ == probe.peer_addr@,
        r.destination_ip@ == probe.local_addr@,
        r.transport_type@ == spec_transport_label(probe.transport),
        r.collected_method@ == collected_method@,
        r.created_by_node_id@ == node_id@,
        r.called_number@ == Seq::<char>::empty(),
        r.method@ == Seq::<char>::empty(),
        r.user_agent@ == Seq::<char>::empty(),
        r.event_timestamp@.len() > 0,
        r.event_uuid@.len() == 36,
{
    let message = utf8_lossy(&probe.payload);
    let label = probe.transport.label();
    BadActor::new(
        message,
        probe.peer_addr,
        probe.local_addr,
        String::new(),
        String::new(),
        label,
        String::new(),
        collected_method,
        node_id,
    )
}

} // verus!
