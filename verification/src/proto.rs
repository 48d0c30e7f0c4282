//! The structured event payload and its binary encoding.
//!
//! A published event is carried as a `TakMessage`: a control block (protocol
//! version bounds and the contact identifier) and an event block (type,
//! classification, identifier, timestamps, position, and a detail block).
//! The message is serialized in protocol-buffer wire format: every field is
//! a single-byte key (field number and wire type) followed by a
//! variable-length integer, a little-endian 64-bit value, or a
//! length-prefixed byte string. Fields holding their default value (empty
//! text, a zero number, a zero position coordinate) are omitted; the two
//! blocks and the detail block are always present.
//!
//! Position coordinates and error estimates travel as the raw bit patterns
//! of 64-bit IEEE-754 values: the encoder copies bits and never computes on
//! them.

use vstd::prelude::*;

use crate::varint::{encode_varint, spec_varint};

verus! {

/// Control block: the protocol versions this client speaks and the stable
/// contact identifier.
pub struct TakControl {
    pub min_proto_version: u32,
    pub max_proto_version: u32,
    pub contact_uid: Vec<u8>,
}

/// Contact sub-block of the detail block.
pub struct EventContact {
    pub endpoint: Vec<u8>,
    pub callsign: Vec<u8>,
}

/// Precision-location sub-block of the detail block.
pub struct EventPrecisionLocation {
    pub geopointsrc: Vec<u8>,
    pub altsrc: Vec<u8>,
}

/// Detail block: free-form XML text plus optional contact and
/// precision-location sub-blocks. Group, status, device and track
/// sub-blocks are never emitted by this client.
pub struct Detail {
    pub xml_detail: Vec<u8>,
    pub contact: Option<EventContact>,
    pub precision_location: Option<EventPrecisionLocation>,
}

/// Event block. Timestamps are epoch milliseconds; `lat_bits` through
/// `le_bits` are IEEE-754 bit patterns of the position values.
pub struct CotEvent {
    pub event_type: Vec<u8>,
    pub access: Vec<u8>,
    pub qos: Vec<u8>,
    pub opex: Vec<u8>,
    pub uid: Vec<u8>,
    pub send_time: u64,
    pub start_time: u64,
    pub stale_time: u64,
    pub how: Vec<u8>,
    pub lat_bits: u64,
    pub lon_bits: u64,
    pub hae_bits: u64,
    pub ce_bits: u64,
    pub le_bits: u64,
    pub detail: Detail,
}

/// One published message: control block and event block.
pub struct TakMessage {
    pub control: TakControl,
    pub event: CotEvent,
}

/// Mathematical model of a `TakControl`.
#[verifier::ext_equal]
pub struct TakControlView {
    pub min_proto_version: u32,
    pub max_proto_version: u32,
    pub contact_uid: Seq<u8>,
}

/// Mathematical model of an `EventContact`.
#[verifier::ext_equal]
pub struct ContactView {
    pub endpoint: Seq<u8>,
    pub callsign: Seq<u8>,
}

/// Mathematical model of an `EventPrecisionLocation`.
#[verifier::ext_equal]
pub struct PrecisionLocationView {
    pub geopointsrc: Seq<u8>,
    pub altsrc: Seq<u8>,
}

/// Mathematical model of a `Detail`.
#[verifier::ext_equal]
pub struct DetailView {
    pub xml_detail: Seq<u8>,
    pub contact: Option<ContactView>,
    pub precision_location: Option<PrecisionLocationView>,
}

/// Mathematical model of a `CotEvent`.
#[verifier::ext_equal]
pub struct CotEventView {
    pub event_type: Seq<u8>,
    pub access: Seq<u8>,
    pub qos: Seq<u8>,
    pub opex: Seq<u8>,
    pub uid: Seq<u8>,
    pub send_time: u64,
    pub start_time: u64,
    pub stale_time: u64,
    pub how: Seq<u8>,
    pub lat_bits: u64,
    pub lon_bits: u64,
    pub hae_bits: u64,
    pub ce_bits: u64,
    pub le_bits: u64,
    pub detail: DetailView,
}

/// Mathematical model of a `TakMessage`.
#[verifier::ext_equal]
pub struct TakMessageView {
    pub control: TakControlView,
    pub event: CotEventView,
}

impl View for TakControl {
    type V = TakControlView;

    open spec fn view(&self) -> TakControlView {
        TakControlView {
            min_proto_version: self.min_proto_version,
            max_proto_version: self.max_proto_version,
            contact_uid: self.contact_uid@,
        }
    }
}

impl View for EventContact {
    type V = ContactView;

    open spec fn view(&self) -> ContactView {
        ContactView { endpoint: self.endpoint@, callsign: self.callsign@ }
    }
}

impl View for EventPrecisionLocation {
    type V = PrecisionLocationView;

    open spec fn view(&self) -> PrecisionLocationView {
        PrecisionLocationView { geopointsrc: self.geopointsrc@, altsrc: self.altsrc@ }
    }
}

impl View for Detail {
    type V = DetailView;

    open spec fn view(&self) -> DetailView {
        DetailView {
            xml_detail: self.xml_detail@,
            contact: match self.contact {
                Some(c) => Some(c@),
                None => None,
            },
            precision_location: match self.precision_location {
                Some(p) => Some(p@),
                None => None,
            },
        }
    }
}

impl View for CotEvent {
    type V = CotEventView;

    open spec fn view(&self) -> CotEventView {
        CotEventView {
            event_type: self.event_type@,
            access: self.access@,
            qos: self.qos@,
            opex: self.opex@,
            uid: self.uid@,
            send_time: self.send_time,
            start_time: self.start_time,
            stale_time: self.stale_time,
            how: self.how@,
            lat_bits: self.lat_bits,
            lon_bits: self.lon_bits,
            hae_bits: self.hae_bits,
            ce_bits: self.ce_bits,
            le_bits: self.le_bits,
            detail: self.detail@,
        }
    }
}

impl View for TakMessage {
    type V = TakMessageView;

    open spec fn view(&self) -> TakMessageView {
        TakMessageView { control: self.control@, event: self.event@ }
    }
}

/// A length-prefixed field: key byte, byte length of the content as a
/// variable-length integer, then the content.
pub open spec fn spec_len_prefixed(key: u8, data: Seq<u8>) -> Seq<u8> {
    seq![key] + spec_varint(data.len()) + data
}

/// A byte-string field: omitted entirely when the content is empty,
/// otherwise length-prefixed.
pub open spec fn spec_bytes_field(key: u8, data: Seq<u8>) -> Seq<u8> {
    if data.len() == 0 {
        Seq::empty()
    } else {
        spec_len_prefixed(key, data)
    }
}

/// An unsigned integer field: omitted when zero, otherwise the key byte
/// followed by the value as a variable-length integer.
pub open spec fn spec_varint_field(key: u8, v: u64) -> Seq<u8> {
    if v == 0 {
        Seq::empty()
    } else {
        seq![key] + spec_varint(v as nat)
    }
}

/// The eight bytes of a 64-bit value, least significant first.
pub open spec fn spec_le_bytes(bits: u64) -> Seq<u8> {
    seq![
        (bits & 0xff) as u8,
        ((bits >> 8) & 0xff) as u8,
        ((bits >> 16) & 0xff) as u8,
        ((bits >> 24) & 0xff) as u8,
        ((bits >> 32) & 0xff) as u8,
        ((bits >> 40) & 0xff) as u8,
        ((bits >> 48) & 0xff) as u8,
        ((bits >> 56) & 0xff) as u8,
    ]
}

/// A 64-bit floating-point field, carried as its bit pattern: omitted when
/// the bits are all zero, otherwise the key byte followed by the eight
/// little-endian bytes.
pub open spec fn spec_double_field(key: u8, bits: u64) -> Seq<u8> {
    if bits == 0 {
        Seq::empty()
    } else {
        seq![key] + spec_le_bytes(bits)
    }
}

/// Encoding of the contact sub-block: endpoint is field 1, callsign is
/// field 2, both byte strings.
pub open spec fn spec_contact(c: ContactView) -> Seq<u8> {
    spec_bytes_field(0x0a, c.endpoint) + spec_bytes_field(0x12, c.callsign)
}

/// Encoding of the precision-location sub-block: geopointsrc is field 1,
/// altsrc is field 2, both byte strings.
pub open spec fn spec_precision_location(p: PrecisionLocationView) -> Seq<u8> {
    spec_bytes_field(0x0a, p.geopointsrc) + spec_bytes_field(0x12, p.altsrc)
}

/// Encoding of the detail block: XML text is field 1, the contact
/// sub-block field 2, the precision-location sub-block field 4. Optional
/// sub-blocks are emitted exactly when present, even when empty inside.
pub open spec fn spec_detail(d: DetailView) -> Seq<u8> {
    spec_bytes_field(0x0a, d.xml_detail) + (match d.contact {
        Some(c) => spec_len_prefixed(0x12, spec_contact(c)),
        None => Seq::empty(),
    }) + (match d.precision_location {
        Some(p) => spec_len_prefixed(0x22, spec_precision_location(p)),
        None => Seq::empty(),
    })
}

/// Encoding of the control block: minimum and maximum protocol versions are
/// fields 1 and 2, the contact identifier is field 3.
pub open spec fn spec_control(c: TakControlView) -> Seq<u8> {
    spec_varint_field(0x08, c.min_proto_version as u64) + spec_varint_field(
        0x10,
        c.max_proto_version as u64,
    ) + spec_bytes_field(0x1a, c.contact_uid)
}

/// Encoding of the event block: fields 1 through 15 in order, with the
/// detail block always present as field 15.
pub open spec fn spec_event(e: CotEventView) -> Seq<u8> {
    spec_bytes_field(0x0a, e.event_type) + spec_bytes_field(0x12, e.access) + spec_bytes_field(
        0x1a,
        e.qos,
    ) + spec_bytes_field(0x22, e.opex) + spec_bytes_field(0x2a, e.uid) + spec_varint_field(
        0x30,
        e.send_time,
    ) + spec_varint_field(0x38, e.start_time) + spec_varint_field(0x40, e.stale_time)
        + spec_bytes_field(0x4a, e.how) + spec_double_field(0x51, e.lat_bits) + spec_double_field(
        0x59,
        e.lon_bits,
    ) + spec_double_field(0x61, e.hae_bits) + spec_double_field(0x69, e.ce_bits)
        + spec_double_field(0x71, e.le_bits) + spec_len_prefixed(0x7a, spec_detail(e.detail))
}

/// Encoding of one whole message: the control block is field 1, the event
/// block is field 2; both are always present.
pub open spec fn spec_tak_message(m: TakMessageView) -> Seq<u8> {
    spec_len_prefixed(0x0a, spec_control(m.control)) + spec_len_prefixed(0x12, spec_event(m.event))
}

/// Appends a length-prefixed field.
fn put_len_prefixed(out: &mut Vec<u8>, key: u8, data: &Vec<u8>)
    ensures
        final(out)@ == old(out)@ + spec_len_prefixed(key, data@),
{
    out.push(key);
    let n: u64 = data.len() as u64;
    let mut prefix = encode_varint(n);
    out.append(&mut prefix);
    out.extend_from_slice(data.as_slice());
    assert(out@ =~= old(out)@ + spec_len_prefixed(key, data@));
}

/// Appends a byte-string field, skipping it when the content is empty.
fn put_bytes_field(out: &mut Vec<u8>, key: u8, data: &Vec<u8>)
    ensures
        final(out)@ == old(out)@ + spec_bytes_field(key, data@),
{
    if data.len() > 0 {
        put_len_prefixed(out, key, data);
    } else {
        assert(out@ =~= old(out)@ + spec_bytes_field(key, data@));
    }
}

/// Appends an unsigned integer field, skipping it when the value is zero.
fn put_varint_field(out: &mut Vec<u8>, key: u8, v: u64)
    ensures
        final(out)@ == old(out)@ + spec_varint_field(key, v),
{
    if v != 0 {
        out.push(key);
        let mut enc = encode_varint(v);
        out.append(&mut enc);
        assert(out@ =~= old(out)@ + spec_varint_field(key, v));
    } else {
        assert(out@ =~= old(out)@ + spec_varint_field(key, v));
    }
}

/// Appends a 64-bit floating-point field from its bit pattern, skipping it
/// when the bits are all zero.
fn put_double_field(out: &mut Vec<u8>, key: u8, bits: u64)
    ensures
        final(out)@ == old(out)@ + spec_double_field(key, bits),
{
    if bits != 0 {
        out.push(key);
        out.push((bits & 0xff) as u8);
        out.push(((bits >> 8) & 0xff) as u8);
        out.push(((bits >> 16) & 0xff) as u8);
        out.push(((bits >> 24) & 0xff) as u8);
        out.push(((bits >> 32) & 0xff) as u8);
        out.push(((bits >> 40) & 0xff) as u8);
        out.push(((bits >> 48) & 0xff) as u8);
        out.push(((bits >> 56) & 0xff) as u8);
        assert(out@ =~= old(out)@ + spec_double_field(key, bits));
    } else {
        assert(out@ =~= old(out)@ + spec_double_field(key, bits));
    }
}

/// Encodes the contact sub-block.
fn encode_contact(c: &EventContact) -> (r: Vec<u8>)
    ensures
        r@ == spec_contact(c@),
{
    let mut out: Vec<u8> = Vec::new();
    put_bytes_field(&mut out, 0x0a, &c.endpoint);
    put_bytes_field(&mut out, 0x12, &c.callsign);
    assert(out@ =~= spec_contact(c@));
    out
}

/// Encodes the precision-location sub-block.
fn encode_precision_location(p: &EventPrecisionLocation) -> (r: Vec<u8>)
    ensures
        r@ == spec_precision_location(p@),
{
    let mut out: Vec<u8> = Vec::new();
    put_bytes_field(&mut out, 0x0a, &p.geopointsrc);
    put_bytes_field(&mut out, 0x12, &p.altsrc);
    assert(out@ =~= spec_precision_location(p@));
    out
}

/// Encodes the detail block.
fn encode_detail(d: &Detail) -> (r: Vec<u8>)
    ensures
        r@ == spec_detail(d@),
{
    let mut out: Vec<u8> = Vec::new();
    put_bytes_field(&mut out, 0x0a, &d.xml_detail);
    match &d.contact {
        Some(c) => {
            let enc = encode_contact(c);
            put_len_prefixed(&mut out, 0x12, &enc);
        },
        None => {},
    }
    match &d.precision_location {
        Some(p) => {
            let enc = encode_precision_location(p);
            put_len_prefixed(&mut out, 0x22, &enc);
        },
        None => {},
    }
    assert(out@ =~= spec_detail(d@));
    out
}

/// Encodes the control block.
fn encode_control(c: &TakControl) -> (r: Vec<u8>)
    ensures
        r@ == spec_control(c@),
{
    let mut out: Vec<u8> = Vec::new();
    put_varint_field(&mut out, 0x08, c.min_proto_version as u64);
    put_varint_field(&mut out, 0x10, c.max_proto_version as u64);
    put_bytes_field(&mut out, 0x1a, &c.contact_uid);
    assert(out@ =~= spec_control(c@));
    out
}

/// Encodes the event block.
fn encode_event(e: &CotEvent) -> (r: Vec<u8>)
    ensures
        r@ == spec_event(e@),
{
    let mut out: Vec<u8> = Vec::new();
    put_bytes_field(&mut out, 0x0a, &e.event_type);
    put_bytes_field(&mut out, 0x12, &e.access);
    put_bytes_field(&mut out, 0x1a, &e.qos);
    put_bytes_field(&mut out, 0x22, &e.opex);
    put_bytes_field(&mut out, 0x2a, &e.uid);
    put_varint_field(&mut out, 0x30, e.send_time);
    put_varint_field(&mut out, 0x38, e.start_time);
    put_varint_field(&mut out, 0x40, e.stale_time);
    put_bytes_field(&mut out, 0x4a, &e.how);
    put_double_field(&mut out, 0x51, e.lat_bits);
    put_double_field(&mut out, 0x59, e.lon_bits);
    put_double_field(&mut out, 0x61, e.hae_bits);
    put_double_field(&mut out, 0x69, e.ce_bits);
    put_double_field(&mut out, 0x71, e.le_bits);
    let detail = encode_detail(&e.detail);
    put_len_prefixed(&mut out, 0x7a, &detail);
    assert(out@ =~= spec_event(e@));
    out
}

/// Serializes one message to its payload bytes.
pub fn encode_tak_message(m: &TakMessage) -> (r: Vec<u8>)
    ensures
        r@ == spec_tak_message(m@),
{
    let mut out: Vec<u8> = Vec::new();
    let control = encode_control(&m.control);
    put_len_prefixed(&mut out, 0x0a, &control);
    let event = encode_event(&m.event);
    put_len_prefixed(&mut out, 0x12, &event);
    assert(out@ =~= spec_tak_message(m@));
    out
}

} // verus!
