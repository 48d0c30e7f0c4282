//! Transport-session state and connection plans.
//!
//! The publisher owns at most one multicast socket and at most one server
//! connection, both materialized lazily. The session logic here decides
//! what the transport layer must do — which endpoint to dial, which TLS
//! context to build, which handshake bytes to write — and records what the
//! transport layer reports back. The socket work itself is carried out by
//! an unverified shell that executes these plans.

use vstd::prelude::*;

use crate::handshake::{handshake_bytes, spec_handshake_bytes};
use crate::tls::{spec_tls_steps, spec_verify_mode, tls_steps, verify_mode, TakServerSettings, TlsStep, VerifyMode};

verus! {

/// State of the server connection: open only after a connect plan was
/// executed to completion, including the handshake write.
#[derive(Clone, Copy, PartialEq, Eq, Structural, Debug)]
pub enum ServerLink {
    Closed,
    Open,
}

/// State of the multicast socket. A failed bind leaves the destination
/// unusable until it is reconfigured; there is no implicit retry.
#[derive(Clone, Copy, PartialEq, Eq, Structural, Debug)]
pub enum MulticastLink {
    Unbound,
    Bound,
    Failed,
}

/// Read timeout set on a secured stream before the handshake write, in
/// milliseconds.
pub const TLS_READ_TIMEOUT_MS: u64 = 100;

/// Fixed interval to wait after the handshake write on a secured stream,
/// giving the server time to process the protocol-switch request, in
/// milliseconds.
pub const TLS_POST_HANDSHAKE_DELAY_MS: u64 = 300;

/// How to secure the server connection: the context-build steps, the
/// verification mode, the name presented and verified during the TLS
/// handshake, and the two fixed timing parameters.
pub struct TlsConnectPlan {
    pub steps: Vec<TlsStep>,
    pub verify: VerifyMode,
    pub server_name: String,
    pub read_timeout_ms: u64,
    pub post_handshake_delay_ms: u64,
}

/// One server connection attempt: dial `host:port`, secure the stream as
/// `tls` says (plaintext when absent), then write the handshake
/// announcement. A failure at any step abandons the attempt and leaves no
/// connection behind.
pub struct ConnectPlan {
    pub host: String,
    pub port: u16,
    pub tls: Option<TlsConnectPlan>,
    pub handshake: Vec<u8>,
}

/// What a correct TLS part of a connection plan holds: the resolved
/// context-build steps, the configured verification mode, the server host
/// as the presented name, and the fixed timing parameters.
pub open spec fn spec_tls_plan_ok(s: TakServerSettings, host: Seq<char>, t: TlsConnectPlan) -> bool {
    &&& t.steps.deep_view() == spec_tls_steps(s)
    &&& t.verify == spec_verify_mode(s)
    &&& t.server_name@ == host
    &&& t.read_timeout_ms == TLS_READ_TIMEOUT_MS
    &&& t.post_handshake_delay_ms == TLS_POST_HANDSHAKE_DELAY_MS
}

/// What a correct connection plan holds: the configured endpoint, the
/// fixed handshake announcement, and a TLS part exactly when TLS is
/// enabled in the settings; absent settings mean plaintext.
pub open spec fn spec_connect_plan_ok(
    host: Seq<char>,
    port: u16,
    settings: Option<TakServerSettings>,
    p: ConnectPlan,
) -> bool {
    &&& p.host@ == host
    &&& p.port == port
    &&& p.handshake@ == spec_handshake_bytes()
    &&& match settings {
        Some(s) => if s.tls {
            p.tls matches Some(t) && spec_tls_plan_ok(s, host, t)
        } else {
            p.tls is None
        },
        None => p.tls is None,
    }
}

/// Builds the plan for one server connection attempt from the configured
/// endpoint and settings.
pub fn build_connect_plan(
    host: &String,
    port: u16,
    settings: &Option<TakServerSettings>,
) -> (r: ConnectPlan)
    ensures
        spec_connect_plan_ok(host@, port, *settings, r),
{
    let tls = match settings {
        Some(s) => if s.tls {
            Some(
                TlsConnectPlan {
                    steps: tls_steps(s),
                    verify: verify_mode(s),
                    server_name: host.clone(),
                    read_timeout_ms: TLS_READ_TIMEOUT_MS,
                    post_handshake_delay_ms: TLS_POST_HANDSHAKE_DELAY_MS,
                },
            )
        } else {
            None
        },
        None => None,
    };
    ConnectPlan { host: host.clone(), port, tls, handshake: handshake_bytes() }
}

} // verus!
