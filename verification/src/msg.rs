//! Message legality: which commands may cross a channel, per link
//! protocol version, peer role, negotiation stage and direction.
//!
//! Legality is not a property of the global protocol: the legal set
//! depends simultaneously on all four coordinates.  The closed per-family
//! sets live in [`crate::linkv4`] and [`crate::linkv5`]; this module
//! defines the roles, stages and directions, the dispatch from the four
//! coordinates to a set family, and the [`MessageFilter`] that a channel
//! handler pins to one (version, role, stage) triple.

use vstd::prelude::*;

use crate::chancmd;
use crate::err::{Error, ProtoProblem};
use crate::linkv4;
use crate::linkv5;

verus! {

/// The role a channel plays: which side opened the connection, and
/// whether this side is a relay.
///
/// Fixed at connection creation, except that the `authenticated` flag of
/// `RelayResponder` flips from false to true exactly once, when the
/// handshake completes successfully.
#[derive(Debug, Clone, Copy, PartialEq, Eq, Structural)]
pub enum ChannelType {
    /// A client that opened the connection.
    ClientInitiator,
    /// A relay that opened the connection.
    RelayInitiator,
    /// A relay that accepted the connection.  `authenticated` records
    /// whether the peer proved it is itself a relay.
    RelayResponder { authenticated: bool },
}

/// The negotiation stage a [`MessageFilter`] applies to.
///
/// There is no New stage here: the filter exists only once a link
/// protocol version has been negotiated, which is what leaves New.
#[derive(Debug, Clone, Copy, PartialEq, Eq, Structural)]
pub enum MessageStage {
    /// The channel is still working to become open.
    Handshake,
    /// The channel is open.
    Open,
}

/// Whether a message is being received or sent.  The legal message set
/// differs by direction.
#[derive(Debug, Clone, Copy, PartialEq, Eq, Structural)]
pub enum MessageDirection {
    /// A message that is being received.
    Inbound,
    /// A message that is being sent.
    Outbound,
}

/// The command and direction of one message, as the filter judges it.
#[derive(Debug, Clone, Copy, PartialEq, Eq, Structural)]
pub struct MessageDetails {
    /// Channel command of the message.
    pub cmd: u8,
    /// Direction of the message.
    pub direction: MessageDirection,
}

impl MessageDetails {
    /// Details of a message being received.
    pub fn new_inbound(cmd: u8) -> (r: Self)
        ensures
            r == (MessageDetails { cmd, direction: MessageDirection::Inbound }),
    {
        MessageDetails { cmd, direction: MessageDirection::Inbound }
    }

    /// Details of a message being sent.
    pub fn new_outbound(cmd: u8) -> (r: Self)
        ensures
            r == (MessageDetails { cmd, direction: MessageDirection::Outbound }),
    {
        MessageDetails { cmd, direction: MessageDirection::Outbound }
    }
}

impl MessageStage {
    /// The error that a protocol violation takes in this stage.
    pub open spec fn spec_violation_err(self, problem: ProtoProblem) -> Error {
        match self {
            MessageStage::Handshake => Error::HandshakeProto(problem),
            MessageStage::Open => Error::ChanProto(problem),
        }
    }

    /// The error kind that a protocol violation takes in this stage:
    /// handshake violations and open-channel violations must stay
    /// distinguishable, since their recovery differs.
    pub fn to_err(&self, problem: ProtoProblem) -> (r: Error)
        ensures
            r == self.spec_violation_err(problem),
    {
        match self {
            MessageStage::Handshake => Error::HandshakeProto(problem),
            MessageStage::Open => Error::ChanProto(problem),
        }
    }
}

/// True iff `v` is a link protocol version this library speaks.
pub open spec fn spec_link_version_known(v: u16) -> bool {
    v == 4 || v == 5
}

/// Return true iff the given link protocol version value is known to us.
pub fn is_link_version_known(v: u16) -> (r: bool)
    ensures
        r == spec_link_version_known(v),
{
    v == 4 || v == 5
}

/// Handshake messages a relay acting as initiator may send under link
/// protocol version `v`.  Version 5 adds VPADDING.
pub open spec fn spec_handshake_relay_initiator(v: u16, cmd: u8) -> bool {
    ||| cmd == chancmd::AUTHENTICATE
    ||| cmd == chancmd::CERTS
    ||| cmd == chancmd::NETINFO
    ||| (v == 5 && cmd == chancmd::VPADDING)
}

/// Handshake messages a relay acting as responder may send under link
/// protocol version `v`.  Version 5 adds VPADDING.
pub open spec fn spec_handshake_relay_responder(v: u16, cmd: u8) -> bool {
    ||| cmd == chancmd::AUTH_CHALLENGE
    ||| cmd == chancmd::CERTS
    ||| cmd == chancmd::NETINFO
    ||| (v == 5 && cmd == chancmd::VPADDING)
}

/// Handshake messages a client (always the initiator) may send under
/// link protocol version `v`.  Version 5 adds VPADDING.
pub open spec fn spec_handshake_client_initiator(v: u16, cmd: u8) -> bool {
    ||| cmd == chancmd::NETINFO
    ||| (v == 5 && cmd == chancmd::VPADDING)
}

/// Messages a client may send to a relay on an open channel: any
/// structurally valid message.  This permissiveness is deliberate; the
/// relay validates at a higher layer.
pub open spec fn spec_open_client_to_relay(v: u16, cmd: u8) -> bool {
    true
}

/// Messages a relay may send to a client on an open channel.  Version 5
/// adds PADDING.
pub open spec fn spec_open_relay_to_client(v: u16, cmd: u8) -> bool {
    ||| cmd == chancmd::CREATED_FAST
    ||| cmd == chancmd::CREATED2
    ||| cmd == chancmd::RELAY
    ||| cmd == chancmd::DESTROY
    ||| (v == 5 && cmd == chancmd::PADDING)
}

/// Messages a relay may send to a relay, in either direction, on an open
/// channel.  Version 5 adds PADDING.
pub open spec fn spec_open_relay_to_relay(v: u16, cmd: u8) -> bool {
    ||| cmd == chancmd::RELAY
    ||| cmd == chancmd::RELAY_EARLY
    ||| cmd == chancmd::DESTROY
    ||| (v == 5 && cmd == chancmd::PADDING)
}

/// The dispatch table: the legal set for each (role, stage, direction)
/// coordinate, applied to `cmd` under link protocol version `v`.
pub open spec fn spec_allowed(
    v: u16,
    chan_type: ChannelType,
    stage: MessageStage,
    direction: MessageDirection,
    cmd: u8,
) -> bool {
    match chan_type {
        ChannelType::ClientInitiator => match stage {
            MessageStage::Handshake => match direction {
                MessageDirection::Inbound => spec_handshake_relay_responder(v, cmd),
                MessageDirection::Outbound => spec_handshake_client_initiator(v, cmd),
            },
            MessageStage::Open => match direction {
                MessageDirection::Inbound => spec_open_relay_to_client(v, cmd),
                MessageDirection::Outbound => spec_open_client_to_relay(v, cmd),
            },
        },
        ChannelType::RelayInitiator => match stage {
            MessageStage::Handshake => match direction {
                MessageDirection::Inbound => spec_handshake_relay_responder(v, cmd),
                MessageDirection::Outbound => spec_handshake_relay_initiator(v, cmd),
            },
            MessageStage::Open => spec_open_relay_to_relay(v, cmd),
        },
        ChannelType::RelayResponder { authenticated } => match stage {
            MessageStage::Handshake => match direction {
                MessageDirection::Inbound => spec_handshake_relay_initiator(v, cmd),
                MessageDirection::Outbound => spec_handshake_relay_responder(v, cmd),
            },
            MessageStage::Open => {
                if authenticated {
                    spec_open_relay_to_relay(v, cmd)
                } else {
                    match direction {
                        MessageDirection::Inbound => spec_open_client_to_relay(v, cmd),
                        MessageDirection::Outbound => spec_open_relay_to_client(v, cmd),
                    }
                }
            },
        },
    }
}

/// Decides whether a message is allowed on a channel.  Pinned at
/// construction to one link protocol version, channel role and stage.
#[derive(Debug, Clone, Copy, PartialEq, Eq, Structural)]
pub struct MessageFilter {
    /// The link protocol version this filter applies to.
    pub link_version: u16,
    /// The channel role this filter applies to.
    pub channel_type: ChannelType,
    /// The stage this filter applies to.
    pub stage: MessageStage,
}

impl MessageFilter {
    /// Constructor.
    pub fn new(link_version: u16, channel_type: ChannelType, stage: MessageStage) -> (r: Self)
        ensures
            r == (MessageFilter { link_version, channel_type, stage }),
    {
        MessageFilter { link_version, channel_type, stage }
    }

    /// Return Ok exactly when the message is allowed by this filter's
    /// coordinates; otherwise an error of the stage's kind, carrying the
    /// full context of the rejection.
    ///
    /// A filter holding an unrecognized link version cannot arise from
    /// the state machine, but if one is built by hand the answer is an
    /// error, never a panic.
    pub fn is_allowed(&self, details: &MessageDetails) -> (r: Result<(), Error>)
        ensures
            !spec_link_version_known(self.link_version) ==> r == Err::<(), Error>(
                Error::ChanProto(ProtoProblem::UnknownLinkVersion {
                    link_version: self.link_version,
                }),
            ),
            spec_link_version_known(self.link_version) ==> {
                if spec_allowed(
                    self.link_version,
                    self.channel_type,
                    self.stage,
                    details.direction,
                    details.cmd,
                ) {
                    r == Ok::<(), Error>(())
                } else {
                    r == Err::<(), Error>(
                        self.stage.spec_violation_err(
                            ProtoProblem::NotAllowed {
                                link_version: self.link_version,
                                channel_type: self.channel_type,
                                direction: details.direction,
                                cmd: details.cmd,
                            },
                        ),
                    )
                }
            },
    {
        let allowed = match self.link_version {
            4 => linkv4::is_allowed(self.channel_type, &self.stage, details),
            5 => linkv5::is_allowed(self.channel_type, &self.stage, details),
            _ => {
                return Err(Error::ChanProto(ProtoProblem::UnknownLinkVersion {
                    link_version: self.link_version,
                }));
            },
        };
        if allowed {
            Ok(())
        } else {
            Err(self.stage.to_err(ProtoProblem::NotAllowed {
                link_version: self.link_version,
                channel_type: self.channel_type,
                direction: details.direction,
                cmd: details.cmd,
            }))
        }
    }
}

} // verus!
