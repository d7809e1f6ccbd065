//! The canned SIP reply.
//!
//! In responsive mode every probe is answered with one fixed, literal
//! `SIP/2.0 200 OK` response, identical on every transport. Writing it to
//! the peer happens at the I/O edge; this module is the single source of
//! its exact text.

use vstd::prelude::*;

verus! {

/// The exact text of the canned reply, with `\r\n` line endings and an
/// empty body.
pub open spec fn spec_sip_reply() -> Seq<char> {
    "SIP/2.0 200 OK\r\nVia: SIP/2.0/UDP 127.0.0.1:5061\r\nCall-ID: 1179563087@127.0.0.1\r\nFrom: <sip:sipsak@127.0.0.1>;tag=464eb44f\r\nTo: <sip:asterisk@127.0.0.1>;tag=z9hG4bK.1c882828\r\nCSeq: 1 OPTIONS\r\nAccept: application/sdp, application/dialog-info+xml, application/simple-message-summary, application/xpidf+xml, application/cpim-pidf+xml, application/pidf+xml, application/pidf+xml, application/dialog-info+xml, application/simple-message-summary, message/sipfrag;version=2.0\r\nAllow: OPTIONS, SUBSCRIBE, NOTIFY, PUBLISH, INVITE, ACK, BYE, CANCEL, UPDATE, PRACK, REGISTER, REFER, MESSAGE\r\nSupported: 100rel, timer, replaces, norefersub\r\nAccept-Encoding: text/plain\r\nAccept-Language: en\r\nServer: FPBX-16.0.33(18.13.0)\r\nContent-Length:  0\r\n"@
}

/// Builds the canned `200 OK` reply sent back to a probing peer.
pub fn gen_sip_reply() -> (r: String)
    ensures
        r@ == spec_sip_reply(),
{
    String::from_str(
        "SIP/2.0 200 OK\r\nVia: SIP/2.0/UDP 127.0.0.1:5061\r\nCall-ID: 1179563087@127.0.0.1\r\nFrom: <sip:sipsak@127.0.0.1>;tag=464eb44f\r\nTo: <sip:asterisk@127.0.0.1>;tag=z9hG4bK.1c882828\r\nCSeq: 1 OPTIONS\r\nAccept: application/sdp, application/dialog-info+xml, application/simple-message-summary, application/xpidf+xml, application/cpim-pidf+xml, application/pidf+xml, application/pidf+xml, application/dialog-info+xml, application/simple-message-summary, message/sipfrag;version=2.0\r\nAllow: OPTIONS, SUBSCRIBE, NOTIFY, PUBLISH, INVITE, ACK, BYE, CANCEL, UPDATE, PRACK, REGISTER, REFER, MESSAGE\r\nSupported: 100rel, timer, replaces, norefersub\r\nAccept-Encoding: text/plain\r\nAccept-Language: en\r\nServer: FPBX-16.0.33(18.13.0)\r\nContent-Length:  0\r\n",
    )
}

} // verus!
