//! Unsigned variable-length integer encoding (LEB128 style).
//!
//! Each byte carries seven data bits, least-significant group first; the
//! continuation bit (`0x80`) is set on every byte but the last. The server
//! stream framing prefixes each payload with its length in this encoding.

use vstd::prelude::*;

verus! {

/// The variable-length encoding of `n`: seven data bits per byte, least
/// significant group first, continuation bit set on all but the final byte.
pub open spec fn spec_varint(n: nat) -> Seq<u8>
    decreases n,
{
    if n < 0x80 {
        seq![n as u8]
    } else {
        seq![(0x80 + n % 0x80) as u8] + spec_varint(n / 0x80)
    }
}

/// The value a receiver reads back from a variable-length encoding:
/// the inverse of `spec_varint`.
pub open spec fn spec_varint_decode(s: Seq<u8>) -> nat
    decreases s.len(),
{
    if s.len() == 0 {
        0
    } else if s[0] < 0x80 {
        s[0] as nat
    } else {
        (s[0] - 0x80) as nat + 0x80 * spec_varint_decode(s.drop_first())
    }
}

/// Decoding is the inverse of encoding: a length prefix written with
/// `spec_varint` always reads back as the value that was written.
pub proof fn lemma_varint_round_trip(n: nat)
    ensures
        spec_varint_decode(spec_varint(n)) == n,
    decreases n,
{
    if n < 0x80 {
        assert(spec_varint(n) == seq![n as u8]);
    } else {
        let head: u8 = (0x80 + n % 0x80) as u8;
        let tail = spec_varint(n / 0x80);
        assert(spec_varint(n) == seq![head] + tail);
        assert((seq![head] + tail)[0] == head);
        assert((seq![head] + tail).drop_first() =~= tail);
        lemma_varint_round_trip(n / 0x80);
        assert((head - 0x80) as nat + 0x80 * spec_varint_decode(tail) == n % 0x80 + 0x80 * (n
            / 0x80));
    }
}

/// Encodes `n` as a variable-length integer.
pub fn encode_varint(n: u64) -> (r: Vec<u8>)
    ensures
        r@ == spec_varint(n as nat),
{
    let mut out: Vec<u8> = Vec::new();
    let mut v: u64 = n;
    loop
        invariant
            out@ + spec_varint(v as nat) == spec_varint(n as nat),
        decreases v,
    {
        if v < 0x80 {
            out.push(v as u8);
            assert(out@ =~= spec_varint(n as nat));
            return out;
        }
        out.push((0x80 + v % 0x80) as u8);
        proof {
            assert(spec_varint(v as nat) == seq![(0x80 + v as nat % 0x80) as u8] + spec_varint(
                v as nat / 0x80));
            assert(out@ + spec_varint(v as nat / 0x80) =~= spec_varint(n as nat));
        }
        v = v / 0x80;
    }
}

} // verus!
