//! Tests of the message filter and the restricted message sets.

use arti::err::{Error, ProtoProblem};
use arti::msg::{
    ChannelType, MessageDetails, MessageDirection, MessageFilter, MessageStage,
};

const PADDING: u8 = 0;
const RELAY: u8 = 3;
const DESTROY: u8 = 4;
const CREATED_FAST: u8 = 6;
const NETINFO: u8 = 8;
const RELAY_EARLY: u8 = 9;
const CREATED2: u8 = 11;
const VPADDING: u8 = 0x80;
const CERTS: u8 = 0x81;
const AUTH_CHALLENGE: u8 = 0x82;
const AUTHENTICATE: u8 = 0x83;

fn allowed(filter: &MessageFilter, details: MessageDetails) -> bool {
    filter.is_allowed(&details).is_ok()
}

#[test]
fn handshake_sets_v4() {
    let client = MessageFilter::new(4, ChannelType::ClientInitiator, MessageStage::Handshake);
    // Outbound from a client: NETINFO only.
    assert!(allowed(&client, MessageDetails::new_outbound(NETINFO)));
    assert!(!allowed(&client, MessageDetails::new_outbound(CERTS)));
    assert!(!allowed(&client, MessageDetails::new_outbound(VPADDING)));
    // Inbound to a client: the relay responder's set.
    assert!(allowed(&client, MessageDetails::new_inbound(AUTH_CHALLENGE)));
    assert!(allowed(&client, MessageDetails::new_inbound(CERTS)));
    assert!(allowed(&client, MessageDetails::new_inbound(NETINFO)));
    assert!(!allowed(&client, MessageDetails::new_inbound(AUTHENTICATE)));
    assert!(!allowed(&client, MessageDetails::new_inbound(VPADDING)));

    let initiator = MessageFilter::new(4, ChannelType::RelayInitiator, MessageStage::Handshake);
    assert!(allowed(&initiator, MessageDetails::new_outbound(AUTHENTICATE)));
    assert!(allowed(&initiator, MessageDetails::new_outbound(CERTS)));
    assert!(allowed(&initiator, MessageDetails::new_outbound(NETINFO)));
    assert!(!allowed(&initiator, MessageDetails::new_outbound(AUTH_CHALLENGE)));

    let responder = MessageFilter::new(
        4,
        ChannelType::RelayResponder { authenticated: false },
        MessageStage::Handshake,
    );
    // Inbound to a responder: the initiator's set.
    assert!(allowed(&responder, MessageDetails::new_inbound(AUTHENTICATE)));
    assert!(!allowed(&responder, MessageDetails::new_inbound(AUTH_CHALLENGE)));
    // Outbound from a responder: its own set.
    assert!(allowed(&responder, MessageDetails::new_outbound(AUTH_CHALLENGE)));
    assert!(!allowed(&responder, MessageDetails::new_outbound(AUTHENTICATE)));
}

#[test]
fn version_five_adds_padding() {
    // VPADDING joins every handshake set in version 5 and only there.
    for channel_type in [
        ChannelType::ClientInitiator,
        ChannelType::RelayInitiator,
        ChannelType::RelayResponder { authenticated: false },
    ] {
        let v4 = MessageFilter::new(4, channel_type, MessageStage::Handshake);
        let v5 = MessageFilter::new(5, channel_type, MessageStage::Handshake);
        assert!(!allowed(&v4, MessageDetails::new_outbound(VPADDING)));
        assert!(v5.is_allowed(&MessageDetails::new_outbound(VPADDING)).is_ok());
    }
    // PADDING joins both restrictive open-stage sets in version 5.
    let client_v4 = MessageFilter::new(4, ChannelType::ClientInitiator, MessageStage::Open);
    let client_v5 = MessageFilter::new(5, ChannelType::ClientInitiator, MessageStage::Open);
    assert!(!allowed(&client_v4, MessageDetails::new_inbound(PADDING)));
    assert!(allowed(&client_v5, MessageDetails::new_inbound(PADDING)));
    let relay_v4 = MessageFilter::new(4, ChannelType::RelayInitiator, MessageStage::Open);
    let relay_v5 = MessageFilter::new(5, ChannelType::RelayInitiator, MessageStage::Open);
    assert!(!allowed(&relay_v4, MessageDetails::new_inbound(PADDING)));
    assert!(allowed(&relay_v5, MessageDetails::new_inbound(PADDING)));
}

#[test]
fn open_stage_sets() {
    // Relay to client: only CREATED_FAST, CREATED2, RELAY, DESTROY (v4).
    let client = MessageFilter::new(4, ChannelType::ClientInitiator, MessageStage::Open);
    for cmd in [CREATED_FAST, CREATED2, RELAY, DESTROY] {
        assert!(allowed(&client, MessageDetails::new_inbound(cmd)));
    }
    for cmd in [RELAY_EARLY, CERTS, AUTH_CHALLENGE, 7u8] {
        assert!(!allowed(&client, MessageDetails::new_inbound(cmd)));
    }
    // Client to relay: anything structurally valid, even unknown codes.
    for cmd in [RELAY, RELAY_EARLY, CERTS, 7u8, 99u8, 250u8] {
        assert!(allowed(&client, MessageDetails::new_outbound(cmd)));
    }

    // Relay to relay, either direction: RELAY, RELAY_EARLY, DESTROY (v4).
    let relay = MessageFilter::new(4, ChannelType::RelayInitiator, MessageStage::Open);
    for cmd in [RELAY, RELAY_EARLY, DESTROY] {
        assert!(allowed(&relay, MessageDetails::new_inbound(cmd)));
        assert!(allowed(&relay, MessageDetails::new_outbound(cmd)));
    }
    for cmd in [CREATED_FAST, CREATED2, CERTS, PADDING] {
        assert!(!allowed(&relay, MessageDetails::new_inbound(cmd)));
        assert!(!allowed(&relay, MessageDetails::new_outbound(cmd)));
    }

    // An authenticated responder talks to a relay in both directions.
    let auth = MessageFilter::new(
        5,
        ChannelType::RelayResponder { authenticated: true },
        MessageStage::Open,
    );
    assert!(allowed(&auth, MessageDetails::new_inbound(RELAY_EARLY)));
    assert!(allowed(&auth, MessageDetails::new_outbound(RELAY_EARLY)));
    assert!(!allowed(&auth, MessageDetails::new_inbound(CREATED2)));

    // An unauthenticated responder sends the relay-to-client set.
    let unauth = MessageFilter::new(
        5,
        ChannelType::RelayResponder { authenticated: false },
        MessageStage::Open,
    );
    assert!(!allowed(&unauth, MessageDetails::new_outbound(RELAY_EARLY)));
    assert!(allowed(&unauth, MessageDetails::new_outbound(RELAY)));
}

#[test]
fn rejection_error_matches_stage() {
    // A handshake-stage rejection is a handshake protocol error, an
    // open-stage rejection a channel protocol error, with full context.
    let handshake = MessageFilter::new(5, ChannelType::ClientInitiator, MessageStage::Handshake);
    let r = handshake.is_allowed(&MessageDetails::new_outbound(CERTS));
    assert!(matches!(
        r,
        Err(Error::HandshakeProto(ProtoProblem::NotAllowed {
            link_version: 5,
            channel_type: ChannelType::ClientInitiator,
            direction: MessageDirection::Outbound,
            cmd: CERTS,
        }))
    ));

    let open = MessageFilter::new(5, ChannelType::ClientInitiator, MessageStage::Open);
    let r = open.is_allowed(&MessageDetails::new_inbound(RELAY_EARLY));
    assert!(matches!(
        r,
        Err(Error::ChanProto(ProtoProblem::NotAllowed {
            link_version: 5,
            channel_type: ChannelType::ClientInitiator,
            direction: MessageDirection::Inbound,
            cmd: RELAY_EARLY,
        }))
    ));
}

#[test]
fn unknown_version_in_filter_is_an_error_not_a_panic() {
    // The state machine never builds such a filter, but one built by
    // hand answers with an error.
    let filter = MessageFilter::new(7, ChannelType::ClientInitiator, MessageStage::Open);
    let r = filter.is_allowed(&MessageDetails::new_inbound(RELAY));
    assert!(matches!(
        r,
        Err(Error::ChanProto(ProtoProblem::UnknownLinkVersion { link_version: 7 }))
    ));
}

#[test]
fn direct_set_functions_agree() {
    // The per-version entry points answer as the bound filter does.
    let details = MessageDetails::new_outbound(NETINFO);
    assert!(arti::linkv4::is_allowed(
        ChannelType::ClientInitiator,
        &MessageStage::Handshake,
        &details,
    ));
    assert!(arti::linkv5::is_allowed(
        ChannelType::ClientInitiator,
        &MessageStage::Handshake,
        &details,
    ));
    let details = MessageDetails::new_outbound(VPADDING);
    assert!(!arti::linkv4::is_allowed(
        ChannelType::ClientInitiator,
        &MessageStage::Handshake,
        &details,
    ));
    assert!(arti::linkv5::is_allowed(
        ChannelType::ClientInitiator,
        &MessageStage::Handshake,
        &details,
    ));
}
