//! Restricted message sets for link protocol version 5, which added
//! padding support: VPADDING joins every handshake set and PADDING joins
//! both restrictive open-stage sets, relative to version 4.  That is the
//! only behavioural difference between the two versions' sets.

use vstd::prelude::*;

use crate::chancmd;
use crate::msg::{spec_allowed, ChannelType, MessageDetails, MessageDirection, MessageStage};

verus! {

/// Handshake messages for a relay as the initiator.
fn handshake_relay_initiator_contains(cmd: u8) -> (r: bool)
    ensures
        r == crate::msg::spec_handshake_relay_initiator(5, cmd),
{
    cmd == chancmd::AUTHENTICATE || cmd == chancmd::CERTS || cmd == chancmd::NETINFO
        || cmd == chancmd::VPADDING
}

/// Handshake messages for a relay as the responder.
fn handshake_relay_responder_contains(cmd: u8) -> (r: bool)
    ensures
        r == crate::msg::spec_handshake_relay_responder(5, cmd),
{
    cmd == chancmd::AUTH_CHALLENGE || cmd == chancmd::CERTS || cmd == chancmd::NETINFO
        || cmd == chancmd::VPADDING
}

/// Handshake messages for a client, which is always the initiator.
fn handshake_client_initiator_contains(cmd: u8) -> (r: bool)
    ensures
        r == crate::msg::spec_handshake_client_initiator(5, cmd),
{
    cmd == chancmd::NETINFO || cmd == chancmd::VPADDING
}

/// Messages a client may send to a relay on an open channel: anything
/// structurally valid.  Deliberately permissive; see the protocol's
/// design notes.
fn open_client_to_relay_contains(cmd: u8) -> (r: bool)
    ensures
        r == crate::msg::spec_open_client_to_relay(5, cmd),
{
    true
}

/// Messages a relay may send to a client on an open channel.
fn open_relay_to_client_contains(cmd: u8) -> (r: bool)
    ensures
        r == crate::msg::spec_open_relay_to_client(5, cmd),
{
    cmd == chancmd::PADDING || cmd == chancmd::CREATED_FAST || cmd == chancmd::CREATED2
        || cmd == chancmd::RELAY || cmd == chancmd::DESTROY
}

/// Messages relays may exchange, in either direction, on an open channel.
fn open_relay_to_relay_contains(cmd: u8) -> (r: bool)
    ensures
        r == crate::msg::spec_open_relay_to_relay(5, cmd),
{
    cmd == chancmd::PADDING || cmd == chancmd::RELAY || cmd == chancmd::RELAY_EARLY
        || cmd == chancmd::DESTROY
}

/// Return true iff the given channel type at the given negotiation stage
/// allows the given message, under link protocol version 5.
///
/// Every branch of the dispatch is written out: being easy for a human
/// to follow matters more here than being compact.
pub fn is_allowed(
    chan_type: ChannelType,
    stage: &MessageStage,
    details: &MessageDetails,
) -> (r: bool)
    ensures
        r == spec_allowed(5, chan_type, *stage, details.direction, details.cmd),
{
    let cmd = details.cmd;
    match chan_type {
        ChannelType::ClientInitiator => match stage {
            MessageStage::Handshake => match details.direction {
                MessageDirection::Inbound => handshake_relay_responder_contains(cmd),
                MessageDirection::Outbound => handshake_client_initiator_contains(cmd),
            },
            MessageStage::Open => match details.direction {
                MessageDirection::Inbound => open_relay_to_client_contains(cmd),
                MessageDirection::Outbound => open_client_to_relay_contains(cmd),
            },
        },
        ChannelType::RelayInitiator => match stage {
            MessageStage::Handshake => match details.direction {
                MessageDirection::Inbound => handshake_relay_responder_contains(cmd),
                MessageDirection::Outbound => handshake_relay_initiator_contains(cmd),
            },
            // Regardless of direction, the same restricted set applies
            // between two relays.
            MessageStage::Open => open_relay_to_relay_contains(cmd),
        },
        ChannelType::RelayResponder { authenticated } => match stage {
            // Whether the peer authenticated is only learned when the
            // handshake is done.
            MessageStage::Handshake => match details.direction {
                MessageDirection::Inbound => handshake_relay_initiator_contains(cmd),
                MessageDirection::Outbound => handshake_relay_responder_contains(cmd),
            },
            MessageStage::Open => {
                if authenticated {
                    // An authenticated responder is talking to a relay;
                    // the same set applies in both directions.
                    open_relay_to_relay_contains(cmd)
                } else {
                    // An unauthenticated responder is talking to a client.
                    match details.direction {
                        MessageDirection::Inbound => open_client_to_relay_contains(cmd),
                        MessageDirection::Outbound => open_relay_to_client_contains(cmd),
                    }
                }
            },
        },
    }
}

} // verus!
