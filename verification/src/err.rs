//! Error taxonomy of the channel cell layer.
//!
//! Four disjoint kinds are distinguished, because their recovery
//! implications differ:
//!
//! * [`Error::HandshakeProto`]: a malformed or illegal-for-stage message
//!   met while the channel was still handshaking; the caller must abort
//!   the handshake and close the connection.
//! * [`Error::ChanProto`]: the same class of violation on an open
//!   channel; the caller must tear the channel down.
//! * [`Error::Encode`]: the caller handed the encoder a structurally
//!   invalid cell; a caller bug, reported loudly rather than truncated.
//! * [`Error::Bug`]: the caller violated the state machine's contract;
//!   never caused by the peer, and never to be conflated with a
//!   network-triggered condition.
//!
//! "Not enough bytes buffered yet" is not an error at all: decoding
//! reports it as "no cell produced", and the caller retries once more
//! input has arrived.

use vstd::prelude::*;

use crate::msg::{ChannelType, MessageDirection};

verus! {

/// A protocol violation attributable to the peer (or, for
/// [`ProtoProblem::NotVersions`], to a caller using the wrong stage's
/// encoder), carrying the context needed for diagnosis.
#[derive(Debug, Clone, Copy, PartialEq, Eq, Structural)]
pub enum ProtoProblem {
    /// A buffer decoded during the New stage did not begin with the
    /// header of a VERSIONS cell.
    InvalidVersionsCell,
    /// A VERSIONS payload had odd length and cannot be a sequence of
    /// two-byte version numbers.
    MalformedVersions,
    /// A cell carried a circuit identifier its command does not accept.
    BadCircId { cmd: u8, circid: u32 },
    /// A message was not in the legal set for this link version, role,
    /// stage and direction.
    NotAllowed {
        link_version: u16,
        channel_type: ChannelType,
        direction: MessageDirection,
        cmd: u8,
    },
    /// A link protocol version outside the recognized set was seen.
    UnknownLinkVersion { link_version: u16 },
    /// A non-VERSIONS message was handed to the New-stage encoder.
    NotVersions { cmd: u8 },
}

/// A structurally invalid cell handed to the encoder.
#[derive(Debug, Clone, Copy, PartialEq, Eq, Structural)]
pub enum EncodeProblem {
    /// The payload cannot fit its cell's framing: longer than the
    /// two-byte length field allows for a variable-length cell, or
    /// longer than the constant payload size for a fixed-length cell.
    /// For a VERSIONS message `len` counts versions, else payload bytes.
    OversizedBody { cmd: u8, len: usize },
    /// A circuit identifier too wide for the legacy two-byte field of
    /// link protocol versions below 4.
    CircIdTooWide { circid: u32 },
    /// A non-VERSIONS message handed to the New-stage encoder, which
    /// can frame nothing else.
    NotVersions { cmd: u8 },
}

/// A violation of the state machine's calling contract.
#[derive(Debug, Clone, Copy, PartialEq, Eq, Structural)]
pub enum InternalProblem {
    /// A link protocol version was set on a handler not in the New state.
    NotInNewState,
    /// An operation requiring the Handshake state was called in another
    /// state.
    NotInHandshakeState,
    /// A transcript digest was retrieved that does not exist for this
    /// role, or had already been taken: each digest can be consumed
    /// exactly once.
    DigestAbsent,
}

/// An error of the channel cell layer.  See the module documentation for
/// the meaning of each kind.
#[derive(Debug, Clone, Copy, PartialEq, Eq, Structural)]
pub enum Error {
    /// The caller violated the state machine's contract.
    Bug(InternalProblem),
    /// Protocol violation during the Handshake stage.
    HandshakeProto(ProtoProblem),
    /// Protocol violation on an open channel.
    ChanProto(ProtoProblem),
    /// The caller handed the encoder a cell that cannot be framed.
    Encode(EncodeProblem),
}

} // verus!
