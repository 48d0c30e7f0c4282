//! Destination-specific wire framing of a serialized payload.
//!
//! One serialized payload is framed two ways. A multicast datagram is the
//! three magic bytes `0xBF 0x01 0xBF` followed by the payload, sent as one
//! datagram. A server stream message is the magic byte `0xBF`, the payload
//! length as a variable-length integer, then the payload, written as three
//! sequential writes on the same stream.

use vstd::prelude::*;

use crate::varint::{encode_varint, lemma_varint_round_trip, spec_varint, spec_varint_decode};

verus! {

/// The datagram frame: three magic bytes, then the payload.
pub open spec fn spec_multicast_frame(payload: Seq<u8>) -> Seq<u8> {
    seq![0xbfu8, 0x01u8, 0xbfu8] + payload
}

/// The stream frame: one magic byte, the payload length as a
/// variable-length integer, then the payload.
pub open spec fn spec_stream_frame(payload: Seq<u8>) -> Seq<u8> {
    seq![0xbfu8] + spec_varint(payload.len()) + payload
}

/// Builds the datagram frame for a payload.
pub fn multicast_frame(payload: &Vec<u8>) -> (r: Vec<u8>)
    ensures
        r@ == spec_multicast_frame(payload@),
{
    let mut out: Vec<u8> = Vec::new();
    out.push(0xbf);
    out.push(0x01);
    out.push(0xbf);
    out.extend_from_slice(payload.as_slice());
    assert(out@ =~= spec_multicast_frame(payload@));
    out
}

/// Builds the length prefix of the stream frame for a payload.
pub fn stream_length_prefix(payload: &Vec<u8>) -> (r: Vec<u8>)
    ensures
        r@ == spec_varint(payload@.len()),
{
    encode_varint(payload.len() as u64)
}

/// A datagram frame always begins with the exact three magic bytes, and
/// everything after them is the payload unchanged.
pub proof fn lemma_multicast_frame_shape(payload: Seq<u8>)
    ensures
        spec_multicast_frame(payload).len() == payload.len() + 3,
        spec_multicast_frame(payload).subrange(0, 3) == seq![0xbfu8, 0x01u8, 0xbfu8],
        spec_multicast_frame(payload).skip(3) == payload,
{
    assert(spec_multicast_frame(payload).subrange(0, 3) =~= seq![0xbfu8, 0x01u8, 0xbfu8]);
    assert(spec_multicast_frame(payload).skip(3) =~= payload);
}

/// A stream frame always begins with the magic byte, followed by a
/// length prefix that decodes to the exact byte length of the payload that
/// follows it.
pub proof fn lemma_stream_frame_shape(payload: Seq<u8>)
    ensures
        spec_stream_frame(payload)[0] == 0xbfu8,
        spec_stream_frame(payload) == seq![0xbfu8] + spec_varint(payload.len()) + payload,
        spec_varint_decode(spec_varint(payload.len())) == payload.len(),
        spec_stream_frame(payload).skip(1 + spec_varint(payload.len()).len() as int) == payload,
{
    lemma_varint_round_trip(payload.len());
    assert(spec_stream_frame(payload).skip(1 + spec_varint(payload.len()).len() as int)
        =~= payload);
}

} // verus!
