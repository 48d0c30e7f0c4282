//! Server TLS settings and certificate material resolution.
//!
//! A credential may be absent, a filesystem path, or inline PEM text. The
//! resolver normalizes the three forms into the sequence of context-build
//! steps the TLS layer must perform for a connection attempt: install root
//! trust material, install the client certificate, install the client
//! private key, in that order, each only when configured. Resolution
//! happens fresh on every connection attempt; nothing is parsed or cached
//! at configuration time.

use vstd::prelude::*;

verus! {

/// PEM-encoded key or certificate material: absent, a filesystem path, or
/// literal text. A root certificate given as text may contain a chain of
/// several certificates.
#[derive(Clone)]
pub enum PEM {
    Absent,
    File(String),
    Text(String),
}

/// Settings for the server connection's transport-layer security.
pub struct TakServerSettings {
    pub tls: bool,
    pub client_key: PEM,
    pub client_cert: PEM,
    pub root_cert: PEM,
    pub ignore_invalid: bool,
    pub verify_hostname: bool,
}

/// Peer-certificate verification: require and validate a peer certificate,
/// or disable verification entirely.
#[derive(Clone, Copy, PartialEq, Eq, Structural, Debug)]
pub enum VerifyMode {
    RequirePeerCert,
    NoVerification,
}

/// One step of building a TLS client context. `File` steps load material
/// from a path at context-build time; `Text` steps parse the in-memory
/// PEM text. A failing step abandons the connection attempt.
pub enum TlsStep {
    RootCertFile(String),
    RootCertText(String),
    ClientCertFile(String),
    ClientCertText(String),
    ClientKeyFile(String),
    ClientKeyText(String),
}

/// Mathematical model of a `TlsStep`.
pub enum TlsStepView {
    RootCertFile(Seq<char>),
    RootCertText(Seq<char>),
    ClientCertFile(Seq<char>),
    ClientCertText(Seq<char>),
    ClientKeyFile(Seq<char>),
    ClientKeyText(Seq<char>),
}

impl View for TlsStep {
    type V = TlsStepView;

    open spec fn view(&self) -> TlsStepView {
        match self {
            TlsStep::RootCertFile(p) => TlsStepView::RootCertFile(p@),
            TlsStep::RootCertText(t) => TlsStepView::RootCertText(t@),
            TlsStep::ClientCertFile(p) => TlsStepView::ClientCertFile(p@),
            TlsStep::ClientCertText(t) => TlsStepView::ClientCertText(t@),
            TlsStep::ClientKeyFile(p) => TlsStepView::ClientKeyFile(p@),
            TlsStep::ClientKeyText(t) => TlsStepView::ClientKeyText(t@),
        }
    }
}

impl DeepView for TlsStep {
    type V = TlsStepView;

    open spec fn deep_view(&self) -> TlsStepView {
        self.view()
    }
}

/// The context-build steps a root credential contributes: a CA bundle file,
/// or a trust store parsed from inline text, or nothing.
pub open spec fn spec_root_steps(p: PEM) -> Seq<TlsStepView> {
    match p {
        PEM::Absent => Seq::empty(),
        PEM::File(f) => seq![TlsStepView::RootCertFile(f@)],
        PEM::Text(t) => seq![TlsStepView::RootCertText(t@)],
    }
}

/// The context-build steps a client-certificate credential contributes.
pub open spec fn spec_client_cert_steps(p: PEM) -> Seq<TlsStepView> {
    match p {
        PEM::Absent => Seq::empty(),
        PEM::File(f) => seq![TlsStepView::ClientCertFile(f@)],
        PEM::Text(t) => seq![TlsStepView::ClientCertText(t@)],
    }
}

/// The context-build steps a client-key credential contributes.
pub open spec fn spec_client_key_steps(p: PEM) -> Seq<TlsStepView> {
    match p {
        PEM::Absent => Seq::empty(),
        PEM::File(f) => seq![TlsStepView::ClientKeyFile(f@)],
        PEM::Text(t) => seq![TlsStepView::ClientKeyText(t@)],
    }
}

/// The full context-build sequence for a connection attempt: root trust
/// material first, then the client certificate, then the client key, each
/// contributing nothing when absent.
pub open spec fn spec_tls_steps(s: TakServerSettings) -> Seq<TlsStepView> {
    spec_root_steps(s.root_cert) + spec_client_cert_steps(s.client_cert) + spec_client_key_steps(
        s.client_key,
    )
}

/// The verification mode a connection attempt uses: require and validate a
/// peer certificate when hostname verification is requested, otherwise no
/// verification at all.
pub open spec fn spec_verify_mode(s: TakServerSettings) -> VerifyMode {
    if s.verify_hostname {
        VerifyMode::RequirePeerCert
    } else {
        VerifyMode::NoVerification
    }
}

/// Resolves the configured credentials into the ordered context-build
/// steps for one connection attempt.
pub fn tls_steps(s: &TakServerSettings) -> (r: Vec<TlsStep>)
    ensures
        r.deep_view() == spec_tls_steps(*s),
{
    let mut out: Vec<TlsStep> = Vec::new();
    match &s.root_cert {
        PEM::Absent => {},
        PEM::File(f) => out.push(TlsStep::RootCertFile(f.clone())),
        PEM::Text(t) => out.push(TlsStep::RootCertText(t.clone())),
    }
    match &s.client_cert {
        PEM::Absent => {},
        PEM::File(f) => out.push(TlsStep::ClientCertFile(f.clone())),
        PEM::Text(t) => out.push(TlsStep::ClientCertText(t.clone())),
    }
    match &s.client_key {
        PEM::Absent => {},
        PEM::File(f) => out.push(TlsStep::ClientKeyFile(f.clone())),
        PEM::Text(t) => out.push(TlsStep::ClientKeyText(t.clone())),
    }
    assert(out.deep_view() =~= spec_tls_steps(*s));
    out
}

/// Selects the verification mode for one connection attempt.
pub fn verify_mode(s: &TakServerSettings) -> (r: VerifyMode)
    ensures
        r == spec_verify_mode(*s),
{
    if s.verify_hostname {
        VerifyMode::RequirePeerCert
    } else {
        VerifyMode::NoVerification
    }
}

} // verus!
