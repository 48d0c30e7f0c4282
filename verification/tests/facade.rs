//! Tests of the publisher facade: setters, the event builder and the
//! publish plans.

use cotpub::publisher::{CotPublisher, DEFAULT_STALE_TIME_MS};

#[test]
fn publish_with_no_destination_is_a_noop() {
    let p = CotPublisher::new("U1", "a-f-G", None, None);
    let plan = p.publish_at(7);
    assert!(plan.multicast.is_none());
    assert!(plan.server.is_none());
    // The wall-clock path asks for nothing either.
    let plan = p.publish();
    assert!(plan.multicast.is_none());
    assert!(plan.server.is_none());
}

#[test]
fn stale_time_is_send_time_plus_stale_duration() {
    let p = CotPublisher::new("U1", "a-f-G", None, None);
    for now in [0u64, 1, 1700000000000, u64::MAX - DEFAULT_STALE_TIME_MS] {
        let m = p.build_event(now);
        assert_eq!(m.event.send_time, now);
        assert_eq!(m.event.start_time, now);
        assert_eq!(m.event.stale_time - m.event.send_time, DEFAULT_STALE_TIME_MS);
    }
}

#[test]
fn position_defaults_to_zero_bits() {
    let p = CotPublisher::new("U1", "a-f-G", None, None);
    let m = p.build_event(1);
    assert_eq!(m.event.lat_bits, 0);
    assert_eq!(m.event.lon_bits, 0);
    assert_eq!(m.event.hae_bits, 0);
    assert_eq!(m.event.ce_bits, 0);
    assert_eq!(m.event.le_bits, 0);
    assert_eq!(f64::from_bits(m.event.lat_bits), 0.0);
}

#[test]
fn position_update_preserves_unset_fields() {
    let mut p = CotPublisher::new("U1", "a-f-G", None, None);
    p.set_position_extended(
        1.0f64.to_bits(),
        2.0f64.to_bits(),
        3.0f64.to_bits(),
        4.0f64.to_bits(),
        5.0f64.to_bits(),
    );
    p.set_position(6.0f64.to_bits(), 7.0f64.to_bits());
    let m = p.build_event(1);
    assert_eq!(f64::from_bits(m.event.lat_bits), 6.0);
    assert_eq!(f64::from_bits(m.event.lon_bits), 7.0);
    assert_eq!(f64::from_bits(m.event.hae_bits), 3.0);
    assert_eq!(f64::from_bits(m.event.ce_bits), 4.0);
    assert_eq!(f64::from_bits(m.event.le_bits), 5.0);
}

#[test]
fn position_set_without_prior_position_zeroes_the_rest() {
    let mut p = CotPublisher::new("U1", "a-f-G", None, None);
    p.set_position(6.0f64.to_bits(), 7.0f64.to_bits());
    let m = p.build_event(1);
    assert_eq!(f64::from_bits(m.event.lat_bits), 6.0);
    assert_eq!(f64::from_bits(m.event.lon_bits), 7.0);
    assert_eq!(m.event.hae_bits, 0);
    assert_eq!(m.event.ce_bits, 0);
    assert_eq!(m.event.le_bits, 0);
}

#[test]
fn contact_parts_default_to_empty_and_clear_together() {
    let mut p = CotPublisher::new("U1", "a-f-G", None, None);
    p.set_contact(Some("CS"), None);
    let m = p.build_event(1);
    let c = m.event.detail.contact.expect("contact configured");
    assert_eq!(c.callsign, b"CS");
    assert_eq!(c.endpoint, b"");
    p.set_contact(None, None);
    let m = p.build_event(1);
    assert!(m.event.detail.contact.is_none());
}

#[test]
fn precision_location_parts_default_to_empty() {
    let mut p = CotPublisher::new("U1", "a-f-G", None, None);
    p.set_precision_location(None, Some("DTED0"));
    let m = p.build_event(1);
    let l = m.event.detail.precision_location.expect("configured");
    assert_eq!(l.altsrc, b"DTED0");
    assert_eq!(l.geopointsrc, b"");
}

#[test]
fn xml_detail_defaults_to_empty_text() {
    let mut p = CotPublisher::new("U1", "a-f-G", None, None);
    assert_eq!(p.build_event(1).event.detail.xml_detail, b"");
    p.set_xml_detail(Some("<remarks/>"));
    assert_eq!(p.build_event(1).event.detail.xml_detail, b"<remarks/>");
    p.set_xml_detail(None);
    assert_eq!(p.build_event(1).event.detail.xml_detail, b"");
}

#[test]
fn uid_and_type_are_copied_into_the_event() {
    let mut p = CotPublisher::new("U1", "a-f-G", None, None);
    p.set_uid("U2");
    let m = p.build_event(1);
    assert_eq!(m.control.contact_uid, b"U2");
    assert_eq!(m.event.uid, b"U2");
    assert_eq!(m.event.event_type, b"a-f-G");
    assert_eq!(m.control.min_proto_version, 2);
    assert_eq!(m.control.max_proto_version, 2);
    assert_eq!(m.event.how, b"m-g");
    assert_eq!(m.event.access, b"");
}

#[test]
fn multicast_scenario_emits_one_framed_datagram() {
    let mut p = CotPublisher::new("U1", "a-f-G", Some("239.2.3.1:6969"), None);
    let plan = p.publish_at(1);
    assert!(plan.server.is_none());
    let d = plan.multicast.expect("multicast configured");
    assert_eq!(d.dest, "239.2.3.1:6969");
    assert!(d.bind_first);
    assert_eq!(&d.frame[..3], &[0xbf, 0x01, 0xbf]);
    // The decoded payload carries the configured type and an all-zero
    // position block: it equals the encoding of the built event, whose
    // position fields are zero bits and whose type is the configured one.
    let m = p.build_event(1);
    assert_eq!(m.event.event_type, b"a-f-G");
    assert_eq!(m.event.lat_bits, 0);
    assert_eq!(m.event.le_bits, 0);
    assert_eq!(&d.frame[3..], &cotpub::proto::encode_tak_message(&m)[..]);
    // Once the socket is bound, later publishes reuse it.
    p.note_multicast_bound();
    let plan = p.publish_at(2);
    assert!(!plan.multicast.expect("still configured").bind_first);
}

#[test]
fn failed_multicast_bind_disables_the_destination_until_reconfigured() {
    let mut p = CotPublisher::new("U1", "a-f-G", Some("239.2.3.1:6969"), None);
    p.note_multicast_bind_failed();
    let plan = p.publish_at(1);
    assert!(plan.multicast.is_none());
    // Reconfiguring the destination makes it usable again.
    p.set_multicast(Some("239.2.3.1:6969"));
    let plan = p.publish_at(2);
    assert!(plan.multicast.expect("reconfigured").bind_first);
}

#[test]
fn clearing_the_multicast_target_stops_datagrams() {
    let mut p = CotPublisher::new("U1", "a-f-G", Some("239.2.3.1:6969"), None);
    p.note_multicast_bound();
    p.set_multicast(None);
    let plan = p.publish_at(1);
    assert!(plan.multicast.is_none());
    assert!(plan.server.is_none());
}

#[test]
fn reconfiguring_server_target_shuts_down_an_open_connection_once() {
    let mut p = CotPublisher::new("U1", "a-f-G", None, Some(("10.0.0.1", 8089)));
    // No connection yet: nothing to shut down.
    assert!(!p.set_takserver(Some(("10.0.0.2", 8089))));
    p.note_server_opened();
    // Open connection: exactly one graceful shutdown is directed, and the
    // link is closed before the field is overwritten.
    assert!(p.set_takserver(Some(("10.0.0.3", 8089))));
    // The link was torn down: a second reconfiguration has nothing left.
    assert!(!p.set_takserver(None));
}

#[test]
fn changing_tls_settings_shuts_down_an_open_connection() {
    let mut p = CotPublisher::new("U1", "a-f-G", None, Some(("10.0.0.1", 8089)));
    p.note_server_opened();
    assert!(p.set_tak_server_tls_settings(None));
    assert!(!p.set_tak_server_tls_settings(None));
}

#[test]
fn server_publish_connects_lazily_and_reuses_an_open_link() {
    let mut p = CotPublisher::new("U1", "a-f-G", None, Some(("takserver.example", 8089)));
    let plan = p.publish_at(1);
    let s = plan.server.expect("server configured");
    let cp = s.connect_first.expect("link not open yet");
    assert_eq!(cp.host, "takserver.example");
    assert_eq!(cp.port, 8089);
    assert!(cp.tls.is_none());
    p.note_server_opened();
    let plan = p.publish_at(2);
    assert!(plan.server.expect("still configured").connect_first.is_none());
}
