//! The publisher facade: configuration surface and the publish operation.
//!
//! A `CotPublisher` holds one publishing identity's attributes, the two
//! optional destinations, and the abstract state of the transport session.
//! Setters are pure in-memory mutations; reconfiguring a destination also
//! tears down its transport state and, for the server connection, directs
//! the transport layer to shut the open stream down gracefully first.
//! `publish` builds the event, serializes it exactly once, and frames the
//! payload for every configured destination; `connect` materializes the
//! server transport eagerly. Both only describe socket work, as plans of
//! plain values: the unverified shell that owns the real sockets executes
//! a plan and reports the outcome back through the `note_` methods.

use vstd::prelude::*;
use vstd::string::StrSliceExecFns;
use vstd::utf8::encode_utf8;

use crate::clock::now_millis_since_epoch;
use crate::frame::{multicast_frame, spec_multicast_frame, spec_stream_frame, stream_length_prefix};
use crate::proto::{
    encode_tak_message, spec_tak_message, ContactView, CotEvent, CotEventView, Detail, DetailView,
    EventContact, EventPrecisionLocation, PrecisionLocationView, TakControl, TakControlView,
    TakMessage, TakMessageView,
};
use crate::session::{build_connect_plan, spec_connect_plan_ok, ConnectPlan, MulticastLink, ServerLink};
use crate::tls::TakServerSettings;
use crate::varint::spec_varint;

verus! {

/// Milliseconds after the send time at which an event goes stale, unless
/// configured otherwise.
pub const DEFAULT_STALE_TIME_MS: u64 = 60000;

/// The only binary protocol version this client speaks; the control
/// block's minimum and maximum are both fixed to it.
pub const PROTO_VERSION: u32 = 2;

/// Contact attributes copied into the event's detail block.
pub struct Contact {
    pub endpoint: String,
    pub callsign: String,
}

/// A configured position: latitude, longitude, height above ellipsoid and
/// the circular and linear error estimates, each held as the bit pattern
/// of a 64-bit IEEE-754 value. The publisher only stores and copies these
/// bits; it never computes on them.
#[derive(Clone, Copy, PartialEq, Eq, Structural, Debug)]
pub struct Position {
    pub lat_bits: u64,
    pub lng_bits: u64,
    pub hae_bits: u64,
    pub ce_bits: u64,
    pub le_bits: u64,
}

/// Precision-location attributes copied into the event's detail block.
pub struct PrecisionLocation {
    pub altsrc: String,
    pub geopointsrc: String,
}

/// A datagram to send on the multicast destination: the framed bytes, the
/// target address, and whether the socket must be bound first.
pub struct DatagramSend {
    pub dest: String,
    pub bind_first: bool,
    pub frame: Vec<u8>,
}

/// The writes to issue on the server stream: an optional connection
/// attempt first, then the magic byte, the length prefix and the payload
/// as three sequential writes.
pub struct StreamSend {
    pub connect_first: Option<ConnectPlan>,
    pub magic: Vec<u8>,
    pub length_prefix: Vec<u8>,
    pub payload: Vec<u8>,
}

/// Everything one `publish` call asks the transport layer to do. Both
/// parts absent means no socket operation at all.
pub struct PublishPlan {
    pub multicast: Option<DatagramSend>,
    pub server: Option<StreamSend>,
}

/// One logical publishing identity: its event attributes, destinations,
/// TLS settings, and the abstract state of its transport session.
pub struct CotPublisher {
    pub multicast: Option<String>,
    pub tak_server: Option<(String, u16)>,
    pub tak_server_settings: Option<TakServerSettings>,
    pub stale_time_ms: u64,
    pub uid: String,
    pub event_type: String,
    pub access: String,
    pub qos: String,
    pub opex: String,
    pub how: String,
    pub contact: Option<Contact>,
    pub xml_detail: Option<String>,
    pub position: Option<Position>,
    pub precision_location: Option<PrecisionLocation>,
    pub multicast_link: MulticastLink,
    pub server_link: ServerLink,
}

/// The view of an optional borrowed string, empty when absent.
pub open spec fn spec_str_or_empty(o: Option<&str>) -> Seq<char> {
    match o {
        Some(s) => s@,
        None => Seq::empty(),
    }
}

/// The position written into an event: the configured one, or all-zero
/// bits when none was ever set.
pub open spec fn spec_event_position(p: Option<Position>) -> Position {
    match p {
        Some(q) => q,
        None => Position { lat_bits: 0, lng_bits: 0, hae_bits: 0, ce_bits: 0, le_bits: 0 },
    }
}

/// The position after replacing latitude and longitude: height and error
/// estimates of an existing position are preserved; without one they start
/// at zero bits.
pub open spec fn spec_position_after_set(
    prior: Option<Position>,
    lat_bits: u64,
    lng_bits: u64,
) -> Position {
    match prior {
        Some(p) => Position { lat_bits, lng_bits, ..p },
        None => Position { lat_bits, lng_bits, hae_bits: 0, ce_bits: 0, le_bits: 0 },
    }
}

/// The expiry timestamp: the send time plus the configured stale
/// duration, saturating at the largest representable timestamp.
pub open spec fn spec_stale_time(now_ms: u64, stale_ms: u64) -> u64 {
    if now_ms + stale_ms <= u64::MAX {
        (now_ms + stale_ms) as u64
    } else {
        u64::MAX
    }
}

/// The detail block built from the configured attributes.
pub open spec fn spec_detail_of(p: CotPublisher) -> DetailView {
    DetailView {
        xml_detail: match p.xml_detail {
            Some(x) => encode_utf8(x@),
            None => Seq::empty(),
        },
        contact: match p.contact {
            Some(c) => Some(
                ContactView { endpoint: encode_utf8(c.endpoint@), callsign: encode_utf8(c.callsign@) },
            ),
            None => None,
        },
        precision_location: match p.precision_location {
            Some(l) => Some(
                PrecisionLocationView {
                    geopointsrc: encode_utf8(l.geopointsrc@),
                    altsrc: encode_utf8(l.altsrc@),
                },
            ),
            None => None,
        },
    }
}

/// The event one `publish` call emits, given the publisher's attributes
/// and the wall-clock time captured for the call: send and start time are
/// that one capture, the expiry time adds the stale duration, the position
/// block holds the most recently set values or all-zero bits, and the
/// detail block carries the configured attributes.
pub open spec fn spec_built_event(p: CotPublisher, now_ms: u64) -> TakMessageView {
    TakMessageView {
        control: TakControlView {
            min_proto_version: PROTO_VERSION,
            max_proto_version: PROTO_VERSION,
            contact_uid: encode_utf8(p.uid@),
        },
        event: CotEventView {
            event_type: encode_utf8(p.event_type@),
            access: encode_utf8(p.access@),
            qos: encode_utf8(p.qos@),
            opex: encode_utf8(p.opex@),
            uid: encode_utf8(p.uid@),
            send_time: now_ms,
            start_time: now_ms,
            stale_time: spec_stale_time(now_ms, p.stale_time_ms),
            how: encode_utf8(p.how@),
            lat_bits: spec_event_position(p.position).lat_bits,
            lon_bits: spec_event_position(p.position).lng_bits,
            hae_bits: spec_event_position(p.position).hae_bits,
            ce_bits: spec_event_position(p.position).ce_bits,
            le_bits: spec_event_position(p.position).le_bits,
            detail: spec_detail_of(p),
        },
    }
}

/// What a correct publish plan holds for a given publisher state and
/// clock capture: a datagram for the multicast destination exactly when
/// one is configured and usable, the stream writes exactly when a server
/// is configured, a connection attempt first exactly when the server link
/// is not open, and every frame derived from the one serialized payload.
pub open spec fn spec_publish_plan_ok(p: CotPublisher, now_ms: u64, plan: PublishPlan) -> bool {
    let payload = spec_tak_message(spec_built_event(p, now_ms));
    &&& (plan.multicast is Some <==> (p.multicast is Some && p.multicast_link
        != MulticastLink::Failed))
    &&& (plan.multicast matches Some(d) ==> {
        &&& (p.multicast matches Some(m) && d.dest@ == m@)
        &&& d.bind_first == (p.multicast_link == MulticastLink::Unbound)
        &&& d.frame@ == spec_multicast_frame(payload)
    })
    &&& (plan.server is Some <==> p.tak_server is Some)
    &&& (plan.server matches Some(s) ==> {
        &&& (s.connect_first is Some <==> p.server_link != ServerLink::Open)
        &&& (s.connect_first matches Some(cp) ==> (p.tak_server matches Some(t)
            && spec_connect_plan_ok(t.0@, t.1, p.tak_server_settings, cp)))
        &&& s.magic@ == seq![0xbfu8]
        &&& s.length_prefix@ == spec_varint(payload.len())
        &&& s.payload@ == payload
    })
}

impl CotPublisher {
    /// Creates a publisher with an identity, an event type and optional
    /// destinations; every other attribute starts absent or at its
    /// default, and no transport exists yet.
    pub fn new(
        uid: &str,
        event_type: &str,
        multicast: Option<&str>,
        tak_server: Option<(&str, u16)>,
    ) -> (r: CotPublisher)
        ensures
            r.uid@ == uid@,
            r.event_type@ == event_type@,
            (multicast is None ==> r.multicast is None),
            (multicast matches Some(m) ==> (r.multicast matches Some(s) && s@ == m@)),
            (tak_server is None ==> r.tak_server is None),
            (tak_server matches Some(t) ==> (r.tak_server matches Some(s) && s.0@ == t.0@ && s.1
                == t.1)),
            r.tak_server_settings is None,
            r.stale_time_ms == DEFAULT_STALE_TIME_MS,
            r.access@ == Seq::<char>::empty(),
            r.qos@ == Seq::<char>::empty(),
            r.opex@ == Seq::<char>::empty(),
            r.how@ == "m-g"@,
            r.contact is None,
            r.xml_detail is None,
            r.position is None,
            r.precision_location is None,
            r.multicast_link == MulticastLink::Unbound,
            r.server_link == ServerLink::Closed,
    {
        CotPublisher {
            multicast: match multicast {
                Some(m) => Some(m.to_owned()),
                None => None,
            },
            tak_server: match tak_server {
                Some(t) => Some((t.0.to_owned(), t.1)),
                None => None,
            },
            tak_server_settings: None,
            stale_time_ms: DEFAULT_STALE_TIME_MS,
            uid: uid.to_owned(),
            event_type: event_type.to_owned(),
            access: String::new(),
            qos: String::new(),
            opex: String::new(),
            how: "m-g".to_owned(),
            contact: None,
            xml_detail: None,
            position: None,
            precision_location: None,
            multicast_link: MulticastLink::Unbound,
            server_link: ServerLink::Closed,
        }
    }

    /// Replaces the multicast destination. Any existing multicast socket
    /// is discarded, and the next `publish` with a destination configured
    /// binds a fresh one.
    pub fn set_multicast(&mut self, multicast: Option<&str>)
        ensures
            (multicast is None ==> final(self).multicast is None),
            (multicast matches Some(m) ==> (final(self).multicast matches Some(s) && s@ == m@)),
            final(self).multicast_link == MulticastLink::Unbound,
            *final(self) == (CotPublisher {
                multicast: final(self).multicast,
                multicast_link: final(self).multicast_link,
                ..*old(self)
            }),
    {
        self.multicast = match multicast {
            Some(m) => Some(m.to_owned()),
            None => None,
        };
        self.multicast_link = MulticastLink::Unbound;
    }

    /// Replaces the server destination. The result says whether an open
    /// connection existed: the transport layer must then shut that stream
    /// down gracefully, exactly once, before anything else; the server
    /// link is closed either way.
    pub fn set_takserver(&mut self, takserver: Option<(&str, u16)>) -> (shutdown: bool)
        ensures
            shutdown == (old(self).server_link == ServerLink::Open),
            (takserver is None ==> final(self).tak_server is None),
            (takserver matches Some(t) ==> (final(self).tak_server matches Some(s) && s.0@ == t.0@
                && s.1 == t.1)),
            final(self).server_link == ServerLink::Closed,
            *final(self) == (CotPublisher {
                tak_server: final(self).tak_server,
                server_link: final(self).server_link,
                ..*old(self)
            }),
    {
        let shutdown = self.server_link == ServerLink::Open;
        self.server_link = ServerLink::Closed;
        self.tak_server = match takserver {
            Some(t) => Some((t.0.to_owned(), t.1)),
            None => None,
        };
        shutdown
    }

    /// Replaces the TLS settings for the server connection. As with a new
    /// server target, the result says whether an open connection existed
    /// that the transport layer must shut down gracefully first.
    pub fn set_tak_server_tls_settings(&mut self, settings: Option<TakServerSettings>) -> (shutdown:
        bool)
        ensures
            shutdown == (old(self).server_link == ServerLink::Open),
            final(self).tak_server_settings == settings,
            final(self).server_link == ServerLink::Closed,
            *final(self) == (CotPublisher {
                tak_server_settings: final(self).tak_server_settings,
                server_link: final(self).server_link,
                ..*old(self)
            }),
    {
        let shutdown = self.server_link == ServerLink::Open;
        self.server_link = ServerLink::Closed;
        self.tak_server_settings = settings;
        shutdown
    }

    /// Replaces the stable event identifier.
    pub fn set_uid(&mut self, uid: &str)
        ensures
            final(self).uid@ == uid@,
            *final(self) == (CotPublisher { uid: final(self).uid, ..*old(self) }),
    {
        self.uid = uid.to_owned();
    }

    /// Replaces the contact attributes; absent callsign or endpoint parts
    /// default to empty text, and clearing both clears the contact.
    pub fn set_contact(&mut self, callsign: Option<&str>, endpoint: Option<&str>)
        ensures
            ((callsign is None && endpoint is None) ==> final(self).contact is None),
            ((callsign is Some || endpoint is Some) ==> (final(self).contact matches Some(c)
                && c.callsign@ == spec_str_or_empty(callsign) && c.endpoint@ == spec_str_or_empty(
                endpoint,
            ))),
            *final(self) == (CotPublisher { contact: final(self).contact, ..*old(self) }),
    {
        if callsign.is_none() && endpoint.is_none() {
            self.contact = None;
            return ;
        }
        self.contact = Some(
            Contact {
                endpoint: match endpoint {
                    Some(e) => e.to_owned(),
                    None => String::new(),
                },
                callsign: match callsign {
                    Some(c) => c.to_owned(),
                    None => String::new(),
                },
            },
        );
    }

    /// Replaces the free-form XML detail text.
    pub fn set_xml_detail(&mut self, xml_detail: Option<&str>)
        ensures
            (xml_detail is None ==> final(self).xml_detail is None),
            (xml_detail matches Some(x) ==> (final(self).xml_detail matches Some(s) && s@ == x@)),
            *final(self) == (CotPublisher { xml_detail: final(self).xml_detail, ..*old(self) }),
    {
        self.xml_detail = match xml_detail {
            Some(x) => Some(x.to_owned()),
            None => None,
        };
    }

    /// Replaces latitude and longitude. When a position already exists its
    /// height and error estimates are preserved; otherwise they start at
    /// zero bits.
    pub fn set_position(&mut self, lat_bits: u64, lng_bits: u64)
        ensures
            final(self).position == Some(
                spec_position_after_set(old(self).position, lat_bits, lng_bits),
            ),
            *final(self) == (CotPublisher { position: final(self).position, ..*old(self) }),
    {
        match &mut self.position {
            Some(pos) => {
                pos.lat_bits = lat_bits;
                pos.lng_bits = lng_bits;
            },
            None => {
                self.position = Some(
                    Position { lat_bits, lng_bits, hae_bits: 0, ce_bits: 0, le_bits: 0 },
                );
            },
        }
    }

    /// Replaces the whole position, including height and error estimates.
    pub fn set_position_extended(
        &mut self,
        lat_bits: u64,
        lng_bits: u64,
        hae_bits: u64,
        ce_bits: u64,
        le_bits: u64,
    )
        ensures
            final(self).position == Some(
                (Position { lat_bits, lng_bits, hae_bits, ce_bits, le_bits }),
            ),
            *final(self) == (CotPublisher { position: final(self).position, ..*old(self) }),
    {
        self.position = Some(Position { lat_bits, lng_bits, hae_bits, ce_bits, le_bits });
    }

    /// Replaces the precision-location attributes; absent parts default to
    /// empty text, and clearing both clears the block.
    pub fn set_precision_location(&mut self, geopointsrc: Option<&str>, altsrc: Option<&str>)
        ensures
            ((geopointsrc is None && altsrc is None) ==> final(self).precision_location is None),
            ((geopointsrc is Some || altsrc is Some) ==> (final(self).precision_location
                matches Some(l) && l.geopointsrc@ == spec_str_or_empty(geopointsrc) && l.altsrc@
                == spec_str_or_empty(altsrc))),
            *final(self) == (CotPublisher {
                precision_location: final(self).precision_location,
                ..*old(self)
            }),
    {
        if geopointsrc.is_none() && altsrc.is_none() {
            self.precision_location = None;
            return ;
        }
        self.precision_location = Some(
            PrecisionLocation {
                altsrc: match altsrc {
                    Some(a) => a.to_owned(),
                    None => String::new(),
                },
                geopointsrc: match geopointsrc {
                    Some(g) => g.to_owned(),
                    None => String::new(),
                },
            },
        );
    }

    /// Records that the transport layer executed a connection plan to
    /// completion: the server link is now open.
    pub fn note_server_opened(&mut self)
        ensures
            *final(self) == (CotPublisher { server_link: ServerLink::Open, ..*old(self) }),
    {
        self.server_link = ServerLink::Open;
    }

    /// Records that the transport layer bound the multicast socket.
    pub fn note_multicast_bound(&mut self)
        ensures
            *final(self) == (CotPublisher { multicast_link: MulticastLink::Bound, ..*old(self) }),
    {
        self.multicast_link = MulticastLink::Bound;
    }

    /// Records that binding the multicast socket failed: the destination
    /// stays unusable until it is reconfigured.
    pub fn note_multicast_bind_failed(&mut self)
        ensures
            *final(self) == (CotPublisher { multicast_link: MulticastLink::Failed, ..*old(self) }),
    {
        self.multicast_link = MulticastLink::Failed;
    }

    /// Materializes the server transport eagerly: the plan for one
    /// connection attempt, or nothing when no server is configured or the
    /// connection is already open.
    pub fn connect(&self) -> (r: Option<ConnectPlan>)
        ensures
            ((self.tak_server is None || self.server_link == ServerLink::Open) ==> r is None),
            (self.server_link != ServerLink::Open ==> (self.tak_server matches Some(t) ==> (r
                matches Some(p) && spec_connect_plan_ok(t.0@, t.1, self.tak_server_settings, p)))),
    {
        if self.server_link == ServerLink::Open {
            return None;
        }
        match &self.tak_server {
            Some(t) => Some(build_connect_plan(&t.0, t.1, &self.tak_server_settings)),
            None => None,
        }
    }

    /// Builds the event one `publish` call emits, from the configured
    /// attributes and one wall-clock capture.
    pub fn build_event(&self, now_ms: u64) -> (m: TakMessage)
        ensures
            m@ == spec_built_event(*self, now_ms),
    {
        let pos = match &self.position {
            Some(p) => *p,
            None => Position { lat_bits: 0, lng_bits: 0, hae_bits: 0, ce_bits: 0, le_bits: 0 },
        };
        let stale_time = if now_ms <= u64::MAX - self.stale_time_ms {
            now_ms + self.stale_time_ms
        } else {
            u64::MAX
        };
        let contact = match &self.contact {
            Some(c) => Some(
                EventContact {
                    endpoint: c.endpoint.as_str().as_bytes_vec(),
                    callsign: c.callsign.as_str().as_bytes_vec(),
                },
            ),
            None => None,
        };
        let precision_location = match &self.precision_location {
            Some(l) => Some(
                EventPrecisionLocation {
                    geopointsrc: l.geopointsrc.as_str().as_bytes_vec(),
                    altsrc: l.altsrc.as_str().as_bytes_vec(),
                },
            ),
            None => None,
        };
        let xml_detail = match &self.xml_detail {
            Some(x) => x.as_str().as_bytes_vec(),
            None => Vec::new(),
        };
        let m = TakMessage {
            control: TakControl {
                min_proto_version: PROTO_VERSION,
                max_proto_version: PROTO_VERSION,
                contact_uid: self.uid.as_str().as_bytes_vec(),
            },
            event: CotEvent {
                event_type: self.event_type.as_str().as_bytes_vec(),
                access: self.access.as_str().as_bytes_vec(),
                qos: self.qos.as_str().as_bytes_vec(),
                opex: self.opex.as_str().as_bytes_vec(),
                uid: self.uid.as_str().as_bytes_vec(),
                send_time: now_ms,
                start_time: now_ms,
                stale_time,
                how: self.how.as_str().as_bytes_vec(),
                lat_bits: pos.lat_bits,
                lon_bits: pos.lng_bits,
                hae_bits: pos.hae_bits,
                ce_bits: pos.ce_bits,
                le_bits: pos.le_bits,
                detail: Detail { xml_detail, contact, precision_location },
            },
        };
        assert(m@ =~~= spec_built_event(*self, now_ms));
        m
    }

    /// The publish operation for one wall-clock capture: builds the event,
    /// serializes it exactly once, and frames the payload for every
    /// configured destination; with neither destination configured the
    /// plan is empty and no socket operation is asked for.
    pub fn publish_at(&self, now_ms: u64) -> (plan: PublishPlan)
        ensures
            spec_publish_plan_ok(*self, now_ms, plan),
    {
        if self.multicast.is_none() && self.tak_server.is_none() {
            return PublishPlan { multicast: None, server: None };
        }
        let message = self.build_event(now_ms);
        let payload = encode_tak_message(&message);
        let multicast = match &self.multicast {
            Some(dest) => if self.multicast_link != MulticastLink::Failed {
                Some(
                    DatagramSend {
                        dest: dest.clone(),
                        bind_first: self.multicast_link == MulticastLink::Unbound,
                        frame: multicast_frame(&payload),
                    },
                )
            } else {
                None
            },
            None => None,
        };
        let server = match &self.tak_server {
            Some(t) => {
                let connect_first = if self.server_link != ServerLink::Open {
                    Some(build_connect_plan(&t.0, t.1, &self.tak_server_settings))
                } else {
                    None
                };
                let length_prefix = stream_length_prefix(&payload);
                let mut magic: Vec<u8> = Vec::new();
                magic.push(0xbf);
                Some(StreamSend { connect_first, magic, length_prefix, payload: payload.clone() })
            },
            None => None,
        };
        PublishPlan { multicast, server }
    }

    /// The publish operation: one wall-clock capture, then `publish_at`.
    /// A clock reading before the epoch counts as zero.
    pub fn publish(&self) -> (plan: PublishPlan)
        ensures
            exists|now_ms: u64| spec_publish_plan_ok(*self, now_ms, plan),
    {
        let now_ms = match now_millis_since_epoch() {
            Some(v) => v,
            None => 0,
        };
        self.publish_at(now_ms)
    }
}

/// With neither destination configured, `publish` asks for zero socket
/// operations: its plan holds no datagram and no stream write.
pub proof fn lemma_publish_unconfigured_is_noop(p: CotPublisher, now_ms: u64, plan: PublishPlan)
    requires
        spec_publish_plan_ok(p, now_ms, plan),
        p.multicast is None,
        p.tak_server is None,
    ensures
        plan.multicast is None,
        plan.server is None,
{
}

/// The emitted event's position block equals the most recently set
/// position; with no position ever set, all five fields are zero bits.
pub proof fn lemma_event_position_is_latest(p: CotPublisher, now_ms: u64)
    ensures
        (p.position matches Some(q) ==> {
            &&& spec_built_event(p, now_ms).event.lat_bits == q.lat_bits
            &&& spec_built_event(p, now_ms).event.lon_bits == q.lng_bits
            &&& spec_built_event(p, now_ms).event.hae_bits == q.hae_bits
            &&& spec_built_event(p, now_ms).event.ce_bits == q.ce_bits
            &&& spec_built_event(p, now_ms).event.le_bits == q.le_bits
        }),
        (p.position is None ==> {
            &&& spec_built_event(p, now_ms).event.lat_bits == 0
            &&& spec_built_event(p, now_ms).event.lon_bits == 0
            &&& spec_built_event(p, now_ms).event.hae_bits == 0
            &&& spec_built_event(p, now_ms).event.ce_bits == 0
            &&& spec_built_event(p, now_ms).event.le_bits == 0
        }),
{
}

/// After a latitude-and-longitude update, the emitted event carries the
/// new values in its position block and preserves the prior height and
/// error estimates; with no prior position those start at zero bits.
pub proof fn lemma_event_position_after_set(
    before: CotPublisher,
    after: CotPublisher,
    lat_bits: u64,
    lng_bits: u64,
    now_ms: u64,
)
    requires
        after.position == Some(spec_position_after_set(before.position, lat_bits, lng_bits)),
    ensures
        spec_built_event(after, now_ms).event.lat_bits == lat_bits,
        spec_built_event(after, now_ms).event.lon_bits == lng_bits,
        (before.position matches Some(p) ==> {
            &&& spec_built_event(after, now_ms).event.hae_bits == p.hae_bits
            &&& spec_built_event(after, now_ms).event.ce_bits == p.ce_bits
            &&& spec_built_event(after, now_ms).event.le_bits == p.le_bits
        }),
        (before.position is None ==> {
            &&& spec_built_event(after, now_ms).event.hae_bits == 0
            &&& spec_built_event(after, now_ms).event.ce_bits == 0
            &&& spec_built_event(after, now_ms).event.le_bits == 0
        }),
{
}

/// The stale timestamp minus the send timestamp always equals the
/// configured stale duration, for every publish whose expiry timestamp is
/// representable.
pub proof fn lemma_stale_offset(p: CotPublisher, now_ms: u64)
    requires
        now_ms + p.stale_time_ms <= u64::MAX,
    ensures
        spec_built_event(p, now_ms).event.stale_time - spec_built_event(p, now_ms).event.send_time
            == p.stale_time_ms,
{
}

/// The three stream writes of a publish plan, taken together, are exactly
/// the stream frame of the payload.
pub proof fn lemma_stream_send_is_frame(s: StreamSend, payload: Seq<u8>)
    requires
        s.magic@ == seq![0xbfu8],
        s.length_prefix@ == spec_varint(payload.len()),
        s.payload@ == payload,
    ensures
        s.magic@ + s.length_prefix@ + s.payload@ == spec_stream_frame(payload),
{
}

} // verus!
