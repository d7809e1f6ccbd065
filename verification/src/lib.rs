//! Core logic of a SIP honeypot's network layer: layered configuration
//! resolution, inbound-probe event construction, the JSON wire codec for
//! bad-actor events, the canned SIP reply, the listener-group lifecycle,
//! and the webhook delivery pipeline's OAuth2 token state machine.

use vstd::prelude::*;

pub mod config;
pub mod event;
pub mod json;
pub mod server;
pub mod sip;
pub mod webhook;

verus! {

/// Exit status reported to the process host on success.
pub const EXIT_SUCCESS: i32 = 0;

/// Exit status reported to the process host on failure.
pub const EXIT_FAILURE: i32 = 1;

/// Maps a success flag to the conventional process exit status.
pub fn return_exit_status(success: bool) -> (r: i32)
    ensures
        r == if success {
            EXIT_SUCCESS
        } else {
            EXIT_FAILURE
        },
{
    if success {
        EXIT_SUCCESS
    } else {
        EXIT_FAILURE
    }
}

/// The greeting used to confirm that calling this library works at all.
pub fn return_string() -> (r: String)
    ensures
        r@ == "Greetings from Rust"@,
{
    String::from_str("Greetings from Rust")
}

/// Opaque handle of the peer-to-peer DHT service: a 20-byte info hash,
/// kept only to be handed back to that service.
#[allow(non_camel_case_types)]
pub struct dht_infohash {
    pub d: [u8; 20],
}

/// Opaque placeholder for the DHT service's operation token.
#[allow(non_camel_case_types)]
pub struct dht_op_token {
    pub d: [u8; 0],
}

/// Opaque placeholder for the DHT service's runner handle.
#[allow(non_camel_case_types)]
pub struct dht_runner {
    pub d: [u8; 0],
}

/// Opaque placeholder for the administrative HTTP daemon's handle.
#[allow(non_camel_case_types)]
pub struct MHD_Daemon {
    pub _address: u8,
}

} // verus!
