//! The listener group: per-probe handling and the coordinated lifecycle.
//!
//! Three transport acceptors share one immutable configuration snapshot and
//! one node identity. The accept loops, sockets and TLS handshakes live at
//! the I/O edge; this module holds what they decide: how one probe turns
//! into exactly one event and at most one canned reply, and how the group's
//! single-use shutdown signal halts acceptance without touching work
//! already in flight.

use vstd::prelude::*;

use crate::config::Config;
use crate::event::{BadActor, InboundProbe, spec_transport_label, utf8_lossy_of, probe_to_event};
use crate::sip::{gen_sip_reply, spec_sip_reply};

verus! {

/// The collection-method label of a probe, decided by responsive mode.
pub open spec fn spec_collected_method(responsive: bool) -> Seq<char> {
    if responsive {
        "responsive"@
    } else {
        "unresponsive"@
    }
}

/// The executable form of `spec_collected_method`.
pub fn collected_method_label(responsive: bool) -> (r: String)
    ensures
        r@ == spec_collected_method(responsive),
{
    if responsive {
        String::from_str("responsive")
    } else {
        String::from_str("unresponsive")
    }
}

/// What handling one probe produces: exactly one event for the collector,
/// and the canned reply exactly when responsive mode is on.
pub struct ProbeOutcome {
    /// The one event to forward to the collector.
    pub event: BadActor,
    /// The reply to write back to the peer, if any.
    pub reply: Option<String>,
}

/// Handles one inbound probe: builds the one event that is forwarded to
/// the collector — transport label, source and destination from the probe,
/// message text the lossy decoding of the payload — and, in responsive
/// mode, exactly one canned reply for the peer. The reply does not depend
/// on whether forwarding succeeds.
pub fn handle_probe(probe: InboundProbe, responsive: bool, node_id: String) -> (r: ProbeOutcome)
    ensures
        r.event.transport_type@ == spec_transport_label(probe.transport),
        r.event.source_ip@ == probe.peer_addr@,
        r.event.destination_ip@ == probe.local_addr@,
        r.event.sip_message@ == utf8_lossy_of(probe.payload@),
        r.event.collected_method@ == spec_collected_method(responsive),
        r.event.created_by_node_id@ == node_id@,
        r.event.called_number@ == Seq::<char>::empty(),
        r.event.method@ == Seq::<char>::empty(),
        r.event.user_agent@ == Seq::<char>::empty(),
        r.event.event_timestamp@.len() > 0,
        r.event.event_uuid@.len() == 36,
        (match r.reply {
            Option::Some(rep) => responsive && rep@ == spec_sip_reply(),
            Option::None => !responsive,
        }),
{
    let method = collected_method_label(responsive);
    let event = probe_to_event(probe, method, node_id);
    let reply = if responsive {
        Some(gen_sip_reply())
    } else {
        None
    };
    ProbeOutcome { event, reply }
}

/// One running set of TCP, UDP and TLS acceptors. The group accepts until
/// its single-use shutdown signal fires; probes in flight at that moment
/// still finish.
pub struct ListenerGroup {
    /// The immutable configuration snapshot the group was started with.
    pub config: Config,
    /// Whether responsive mode is on.
    pub responsive: bool,
    /// The stable identity this node stamps on every event.
    pub node_id: String,
    /// Whether the accept loops are still running.
    pub accepting: bool,
    /// How many accepted probes are still being handled.
    pub in_flight: usize,
}

/// The one transition the shutdown signal performs: acceptance stops, and
/// nothing else changes — neither the configuration nor the work in flight.
pub open spec fn spec_signal_shutdown(pre: ListenerGroup, post: ListenerGroup) -> bool {
    &&& pre.accepting
    &&& !post.accepting
    &&& post.in_flight == pre.in_flight
    &&& post.config == pre.config
    &&& post.responsive == pre.responsive
    &&& post.node_id == pre.node_id
}

impl ListenerGroup {
    /// Starts a listener group: accepting, with nothing yet in flight.
    /// Binding the sockets happens at the caller's edge; a bind failure is
    /// surfaced there and no group exists.
    pub fn start(config: Config, responsive: bool, node_id: String) -> (r: Self)
        ensures
            r.accepting,
            r.in_flight == 0,
            r.config == config,
            r.responsive == responsive,
            r.node_id == node_id,
    {
        ListenerGroup { config, responsive, node_id, accepting: true, in_flight: 0 }
    }

    /// Accepts one probe: only while the group is accepting, and each
    /// acceptance adds exactly one unit of work in flight and produces
    /// exactly one event, labelled with the probe's transport.
    pub fn accept_probe(&mut self, probe: InboundProbe) -> (r: ProbeOutcome)
        requires
            old(self).accepting,
            old(self).in_flight < usize::MAX,
        ensures
            final(self).accepting,
            final(self).in_flight == old(self).in_flight + 1,
            final(self).config == old(self).config,
            final(self).responsive == old(self).responsive,
            final(self).node_id == old(self).node_id,
            r.event.transport_type@ == spec_transport_label(probe.transport),
            r.event.source_ip@ == probe.peer_addr@,
            r.event.destination_ip@ == probe.local_addr@,
            r.event.sip_message@ == utf8_lossy_of(probe.payload@),
            r.event.collected_method@ == spec_collected_method(old(self).responsive),
            r.event.created_by_node_id@ == old(self).node_id@,
            r.event.event_timestamp@.len() > 0,
            r.event.event_uuid@.len() == 36,
            (match r.reply {
                Option::Some(rep) => old(self).responsive && rep@ == spec_sip_reply(),
                Option::None => !old(self).responsive,
            }),
    {
        self.in_flight = self.in_flight + 1;
        let node_id = self.node_id.clone();
        handle_probe(probe, self.responsive, node_id)
    }

    /// Finishes one probe's handling. Allowed whether or not the group is
    /// still accepting: work in flight when shutdown fires runs to its end.
    pub fn finish_probe(&mut self)
        requires
            old(self).in_flight > 0,
        ensures
            final(self).in_flight == old(self).in_flight - 1,
            final(self).accepting == old(self).accepting,
            final(self).config == old(self).config,
            final(self).responsive == old(self).responsive,
            final(self).node_id == old(self).node_id,
    {
        self.in_flight = self.in_flight - 1;
    }

    /// Fires the group's single-use shutdown signal. Only a running group
    /// may be signalled: signalling a stopped group is a lifecycle bug in
    /// the caller, not a runtime condition, and is excluded here.
    pub fn signal_shutdown(&mut self)
        requires
            old(self).accepting,
        ensures
            spec_signal_shutdown(*old(self), *final(self)),
    {
        self.accepting = false;
    }
}

/// Shutdown halts acceptance and only acceptance: after the signal no
/// probe can be accepted any more, while every probe in flight at that
/// moment can still finish, and the configuration stands unchanged.
pub proof fn lemma_shutdown_halts_only_acceptance(pre: ListenerGroup, post: ListenerGroup)
    requires
        spec_signal_shutdown(pre, post),
    ensures
        !post.accepting,
        post.in_flight == pre.in_flight,
        post.config == pre.config,
        post.responsive == pre.responsive,
{
}

} // verus!
