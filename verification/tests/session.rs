//! Tests of connection plans, certificate resolution and the handshake.

use cotpub::handshake::handshake_bytes;
use cotpub::publisher::CotPublisher;
use cotpub::tls::{tls_steps, verify_mode, TakServerSettings, TlsStep, VerifyMode, PEM};

fn tls_settings(root: PEM, cert: PEM, key: PEM, verify_hostname: bool) -> TakServerSettings {
    TakServerSettings {
        tls: true,
        client_key: key,
        client_cert: cert,
        root_cert: root,
        ignore_invalid: false,
        verify_hostname,
    }
}

#[test]
fn handshake_is_byte_identical_across_connections() {
    let first = handshake_bytes();
    let second = handshake_bytes();
    assert_eq!(first, second);
    let text = String::from_utf8(first).expect("announcement is text");
    assert!(text.contains("type='t-x-takp-q'"));
    assert!(text.contains("<TakRequest version='1'/>"));
    assert!(text.ends_with("\n\n"));
}

#[test]
fn plaintext_connect_plan_carries_the_handshake() {
    let p = CotPublisher::new("U1", "a-f-G", None, Some(("203.0.113.9", 8087)));
    let plan = p.connect().expect("closed link and configured target");
    assert_eq!(plan.host, "203.0.113.9");
    assert_eq!(plan.port, 8087);
    assert!(plan.tls.is_none());
    assert_eq!(plan.handshake, handshake_bytes());
}

#[test]
fn repeated_connections_write_the_same_handshake() {
    let p = CotPublisher::new("U1", "a-f-G", None, Some(("203.0.113.9", 8087)));
    let first = p.connect().expect("planned");
    let second = p.connect().expect("planned again");
    assert_eq!(first.handshake, second.handshake);
}

#[test]
fn connect_is_a_noop_when_open_or_unconfigured() {
    let mut p = CotPublisher::new("U1", "a-f-G", None, None);
    assert!(p.connect().is_none());
    p.set_takserver(Some(("203.0.113.9", 8087)));
    assert!(p.connect().is_some());
    p.note_server_opened();
    assert!(p.connect().is_none());
}

#[test]
fn tls_connect_plan_resolves_credentials_in_order() {
    let mut p = CotPublisher::new("U1", "a-f-G", None, Some(("takserver.example", 8089)));
    p.set_tak_server_tls_settings(Some(tls_settings(
        PEM::File("ca.pem".to_string()),
        PEM::Text("CERT-TEXT".to_string()),
        PEM::File("client.key".to_string()),
        true,
    )));
    let plan = p.connect().expect("configured");
    let tls = plan.tls.expect("tls enabled");
    assert_eq!(tls.server_name, "takserver.example");
    assert_eq!(tls.verify, VerifyMode::RequirePeerCert);
    assert_eq!(tls.read_timeout_ms, 100);
    assert_eq!(tls.post_handshake_delay_ms, 300);
    assert_eq!(tls.steps.len(), 3);
    assert!(matches!(&tls.steps[0], TlsStep::RootCertFile(f) if f == "ca.pem"));
    assert!(matches!(&tls.steps[1], TlsStep::ClientCertText(t) if t == "CERT-TEXT"));
    assert!(matches!(&tls.steps[2], TlsStep::ClientKeyFile(f) if f == "client.key"));
    assert_eq!(plan.handshake, handshake_bytes());
}

#[test]
fn absent_credentials_contribute_no_steps() {
    let s = tls_settings(PEM::Absent, PEM::Absent, PEM::Absent, false);
    assert!(tls_steps(&s).is_empty());
    assert_eq!(verify_mode(&s), VerifyMode::NoVerification);
}

#[test]
fn tls_disabled_settings_mean_a_plaintext_plan() {
    let mut p = CotPublisher::new("U1", "a-f-G", None, Some(("203.0.113.9", 8087)));
    let mut s = tls_settings(PEM::Absent, PEM::Absent, PEM::Absent, false);
    s.tls = false;
    p.set_tak_server_tls_settings(Some(s));
    let plan = p.connect().expect("configured");
    assert!(plan.tls.is_none());
}

#[test]
fn failed_tls_connect_leaves_no_connection_and_publish_retries() {
    // A root certificate path that cannot be loaded: the transport layer
    // abandons the attempt and never reports the link open. The library
    // keeps the link closed and every later publish plans a fresh
    // connection attempt instead of silently succeeding.
    let mut p = CotPublisher::new("U1", "a-f-G", None, Some(("takserver.example", 8089)));
    p.set_tak_server_tls_settings(Some(tls_settings(
        PEM::File("/nonexistent/ca.pem".to_string()),
        PEM::Absent,
        PEM::Absent,
        true,
    )));
    let plan = p.connect().expect("first attempt is planned");
    assert!(plan.tls.is_some());
    // The attempt failed: no note_server_opened call.
    let plan = p.publish_at(5);
    let s = plan.server.expect("server still configured");
    let retry = s.connect_first.expect("publish plans a reconnection");
    assert!(matches!(
        &retry.tls.expect("still tls").steps[0],
        TlsStep::RootCertFile(f) if f == "/nonexistent/ca.pem"
    ));
}
