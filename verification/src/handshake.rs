//! The legacy protocol-switch handshake announcement.
//!
//! A server speaking this protocol defaults to a legacy XML event stream.
//! Before the first framed binary write, the client must send one fixed XML
//! document declaring a protocol-negotiation request event; receivers
//! recognize this exact byte sequence, so it is a constant, never generated
//! dynamically. The same bytes are written on a plaintext connection right
//! after the TCP connect, and on a secured connection right after the TLS
//! handshake.

use vstd::prelude::*;
use vstd::string::StrSliceExecFns;
use vstd::utf8::encode_utf8;

verus! {

/// The fixed handshake announcement: a sentinel event requesting protocol
/// version 1, terminated by two newlines.
pub const PROTOCOL_CHANGE: &'static str = "
    <event version='2.0' uid='protouid' type='t-x-takp-q' time='TIME' start='TIME' stale='TIME' how='m-g'>
      <point lat='0.0' lon='0.0' hae='0.0' ce='999999' le='999999'/>
      <detail>
        <TakControl>
          <TakRequest version='1'/>
        </TakControl>
      </detail>
    </event>\n\n";

/// The bytes of the handshake announcement.
pub open spec fn spec_handshake_bytes() -> Seq<u8> {
    encode_utf8(PROTOCOL_CHANGE@)
}

/// Produces the handshake announcement bytes.
pub fn handshake_bytes() -> (r: Vec<u8>)
    ensures
        r@ == spec_handshake_bytes(),
{
    PROTOCOL_CHANGE.as_bytes_vec()
}

/// The handshake write is byte-identical across repeated connections: any
/// two announcements produced for any two connection attempts are equal.
pub proof fn lemma_handshake_deterministic(a: Seq<u8>, b: Seq<u8>)
    requires
        a == spec_handshake_bytes(),
        b == spec_handshake_bytes(),
    ensures
        a == b,
{
}

} // verus!
