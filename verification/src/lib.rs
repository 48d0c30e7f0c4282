//! A verified Cursor-on-Target (COT) event publisher core.
//!
//! The crate models the connection/session manager of a COT client: the
//! publisher configuration surface, the event builder, the binary wire
//! framing of published messages, and the transport-session state machine
//! that decides when sockets are opened, handed a handshake, and torn down.
//! Actual socket and TLS work is described by plans of plain values that an
//! unverified shell executes.

mod clock;
pub mod frame;
pub mod handshake;
pub mod proto;
pub mod publisher;
pub mod session;
pub mod tls;
pub mod varint;

pub use publisher::CotPublisher;
pub use tls::{TakServerSettings, PEM};
