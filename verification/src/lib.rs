//! Channel cell protocol layer for an anonymity-network stack.
//!
//! The heart of this library is the channel cell state machine: it frames
//! and parses fixed- and variable-length cells from a raw byte stream,
//! drives a connection through its `New`, `Handshake` and `Open` stages,
//! restricts which message commands are legal at each stage per peer role
//! and link protocol version, and keeps running SHA-256 digests of the
//! handshake transcript.  Every rule of that layer is stated in contracts
//! and proved.
//!
//! Around the core sit a few smaller verified components: the Equi-X
//! solution checker, certificate-request document building, a token-bucket
//! rate limiter, and an incoming-traffic timestamp.

pub mod acme;
pub mod buf;
pub mod cell;
pub mod chancmd;
pub mod codec;
pub mod equix;
pub mod err;
pub mod handler;
pub mod hscrypto;
pub mod keymgr;
pub mod logratelim;
pub mod linkv4;
pub mod linkv5;
pub mod msg;
pub mod netdoc;
pub mod ratelim;
pub mod sha256;
pub mod traffic;
