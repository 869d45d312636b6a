//! Tests of the channel cell handler: stage transitions, encoding and
//! decoding through each stage, and the transcript digests.

use bytes::BytesMut;
use sha2::Digest;

use arti::cell::{AnyChanCell, AnyChanMsg};
use arti::err::{Error, InternalProblem, ProtoProblem};
use arti::handler::{ChannelCellHandler, OpenChannelHandler};
use arti::msg::{is_link_version_known, ChannelType};

fn fixed_body(first: &[u8]) -> Vec<u8> {
    let mut body = first.to_vec();
    body.resize(509, 0);
    body
}

#[test]
fn known_link_version() {
    // Unknown low link version.
    assert!(!is_link_version_known(1));
    // Known link versions.
    assert!(is_link_version_known(4));
    assert!(is_link_version_known(5));
    // Unknown above link versions.
    assert!(!is_link_version_known(6));
    assert!(!is_link_version_known(42));
}

#[test]
fn check_client_encoding() {
    let mut handler = ChannelCellHandler::Open(OpenChannelHandler::new(
        5,
        ChannelType::ClientInitiator,
    ));
    let mut dst = BytesMut::new();

    let destroycell = AnyChanCell::new(
        7,
        AnyChanMsg::Recognized { cmd: 4, body: vec![2] },
    );
    handler.encode(destroycell, &mut dst).unwrap();

    let nocerts = AnyChanCell::new(
        0,
        AnyChanMsg::Recognized { cmd: 0x81, body: vec![0] },
    );
    handler.encode(nocerts, &mut dst).unwrap();

    let data: Vec<u8> = dst.to_vec();
    assert_eq!(
        &data[0..10],
        &[0x00, 0x00, 0x00, 0x07, 0x04, 0x02, 0x00, 0x00, 0x00, 0x00][..]
    );
    assert_eq!(
        &data[514..],
        &[0x00, 0x00, 0x00, 0x00, 0x81, 0x00, 0x01, 0x00][..]
    );
}

#[test]
fn check_client_decoding() {
    let mut dat = Vec::new();
    // DESTROY cell.
    dat.extend_from_slice(&[0x00, 0x00, 0x00, 0x07, 0x04, 0x02, 0x00, 0x00, 0x00, 0x00][..]);
    dat.resize(514, 0);
    let mut src = BytesMut::from(&dat[..]);
    let mut handler = ChannelCellHandler::Open(OpenChannelHandler::new(
        5,
        ChannelType::ClientInitiator,
    ));

    let destroy = handler.decode(&mut src).unwrap().unwrap();

    assert_eq!(destroy.circid(), 7);
    assert_eq!(destroy.msg().cmd(), 4);

    assert!(src.is_empty());
}

#[test]
fn set_open_without_handshake_is_a_bug() {
    // A freshly constructed New handler may not skip negotiation.
    let mut handler = ChannelCellHandler::new(ChannelType::ClientInitiator);
    let r = handler.set_open();
    assert!(matches!(
        r,
        Err(Error::Bug(InternalProblem::NotInHandshakeState))
    ));
}

#[test]
fn unknown_link_version_is_a_protocol_error() {
    let mut handler = ChannelCellHandler::new(ChannelType::ClientInitiator);
    let r = handler.set_link_version(6);
    assert!(matches!(
        r,
        Err(Error::ChanProto(ProtoProblem::UnknownLinkVersion { link_version: 6 }))
    ));
    // Not an internal bug: the peer sent garbage, the caller must close.
    assert!(!matches!(r, Err(Error::Bug(_))));
    // The handler did not move forward: digests are still unavailable.
    assert!(matches!(
        handler.get_clog_digest(),
        Err(Error::Bug(InternalProblem::NotInHandshakeState))
    ));
}

#[test]
fn client_end_to_end() {
    let mut handler = ChannelCellHandler::new(ChannelType::ClientInitiator);

    // A VERSIONS cell in legacy framing advertising versions 4 and 5.
    let mut src = BytesMut::from(&[0x00, 0x00, 0x07, 0x00, 0x04, 0x00, 0x04, 0x00, 0x05][..]);
    let cell = handler.decode(&mut src).unwrap().unwrap();
    match cell.msg() {
        AnyChanMsg::Versions { versions } => assert_eq!(versions, &vec![4u16, 5u16]),
        other => panic!("expected a VERSIONS message, got command {}", other.cmd()),
    }
    assert!(src.is_empty());

    handler.set_link_version(5).unwrap();

    // NETINFO is in the client-initiator outbound handshake set.
    let mut dst = BytesMut::new();
    let netinfo = AnyChanCell::new(0, AnyChanMsg::Recognized { cmd: 8, body: fixed_body(&[]) });
    handler.encode(netinfo, &mut dst).unwrap();

    // CERTS is not: a handshake protocol error, and nothing is written.
    let written = dst.len();
    let certs = AnyChanCell::new(0, AnyChanMsg::Recognized { cmd: 0x81, body: vec![0] });
    let r = handler.encode(certs, &mut dst);
    assert!(matches!(r, Err(Error::HandshakeProto(ProtoProblem::NotAllowed { cmd: 0x81, .. }))));
    assert_eq!(dst.len(), written);

    handler.set_open().unwrap();

    // RELAY is legal client-to-relay on an open channel.
    let relay = AnyChanCell::new(5, AnyChanMsg::Recognized { cmd: 3, body: fixed_body(&[1]) });
    handler.encode(relay, &mut dst).unwrap();
}

#[test]
fn relay_responder_end_to_end() {
    let mut handler = ChannelCellHandler::new(ChannelType::RelayResponder {
        authenticated: false,
    });

    // The initiator's VERSIONS cell arrives.
    let mut src = BytesMut::from(&[0x00, 0x00, 0x07, 0x00, 0x02, 0x00, 0x04][..]);
    let cell = handler.decode(&mut src).unwrap().unwrap();
    match cell.msg() {
        AnyChanMsg::Versions { versions } => assert_eq!(versions, &vec![4u16]),
        other => panic!("expected a VERSIONS message, got command {}", other.cmd()),
    }
    handler.set_link_version(4).unwrap();

    // Outbound AUTH_CHALLENGE is the responder's to send; AUTHENTICATE
    // is not.
    let mut dst = BytesMut::new();
    let challenge = AnyChanCell::new(
        0,
        AnyChanMsg::Recognized { cmd: 0x82, body: vec![0; 38] },
    );
    handler.encode(challenge, &mut dst).unwrap();
    let authenticate = AnyChanCell::new(
        0,
        AnyChanMsg::Recognized { cmd: 0x83, body: vec![0; 4] },
    );
    let r = handler.encode(authenticate, &mut dst);
    assert!(matches!(
        r,
        Err(Error::HandshakeProto(ProtoProblem::NotAllowed { cmd: 0x83, .. }))
    ));

    // Inbound AUTHENTICATE is the initiator's set, so it is accepted.
    let mut frame = vec![0x00, 0x00, 0x00, 0x00, 0x83, 0x00, 0x01, 0x05];
    let mut src = BytesMut::from(&frame[..]);
    let cell = handler.decode(&mut src).unwrap().unwrap();
    assert_eq!(cell.msg().cmd(), 0x83);

    // The transcript digests cover what was sent and received.
    let clog = handler.get_clog_digest().unwrap();
    assert_eq!(clog, <[u8; 32]>::from(sha2::Sha256::digest(&dst[..])));
    let slog = handler.get_slog_digest().unwrap();
    frame.splice(0..0, [0x00u8, 0x00, 0x07, 0x00, 0x02, 0x00, 0x04]);
    assert_eq!(slog, <[u8; 32]>::from(sha2::Sha256::digest(&frame[..])));

    // Once open (still unauthenticated), the responder answers a client.
    handler.set_open().unwrap();
    let mut dst = BytesMut::new();
    let relay = AnyChanCell::new(2, AnyChanMsg::Recognized { cmd: 3, body: fixed_body(&[]) });
    handler.encode(relay, &mut dst).unwrap();
}

#[test]
fn relay_early_filtering_by_authentication() {
    // An unauthenticated responder is talking to a client: RELAY_EARLY
    // may not be sent towards the client.
    let mut unauth = ChannelCellHandler::Open(OpenChannelHandler::new(
        5,
        ChannelType::RelayResponder { authenticated: false },
    ));
    let mut dst = BytesMut::new();
    let relay_early = AnyChanCell::new(
        9,
        AnyChanMsg::Recognized { cmd: 9, body: fixed_body(&[]) },
    );
    let r = unauth.encode(relay_early, &mut dst);
    assert!(matches!(r, Err(Error::ChanProto(ProtoProblem::NotAllowed { cmd: 9, .. }))));
    assert!(dst.is_empty());

    // An authenticated responder is talking to a relay: inbound
    // RELAY_EARLY is accepted.
    let mut auth = ChannelCellHandler::Open(OpenChannelHandler::new(
        5,
        ChannelType::RelayResponder { authenticated: true },
    ));
    let mut frame = vec![0x00, 0x00, 0x00, 0x09, 0x09];
    frame.resize(514, 0);
    let mut src = BytesMut::from(&frame[..]);
    let cell = auth.decode(&mut src).unwrap().unwrap();
    assert_eq!(cell.msg().cmd(), 9);
    assert_eq!(cell.circid(), 9);
}

#[test]
fn clog_digest_matches_transcript() {
    // Encode a sequence of handshake cells as a relay initiator, then
    // finalize CLOG: the incremental digest must equal hashing the
    // concatenation of the exact output bytes at once.
    let mut handler = ChannelCellHandler::new(ChannelType::RelayInitiator);
    handler.set_link_version(5).unwrap();

    let mut dst = BytesMut::new();
    let certs = AnyChanCell::new(0, AnyChanMsg::Recognized { cmd: 0x81, body: vec![0] });
    handler.encode(certs, &mut dst).unwrap();
    let netinfo = AnyChanCell::new(0, AnyChanMsg::Recognized { cmd: 8, body: fixed_body(&[7]) });
    handler.encode(netinfo, &mut dst).unwrap();

    let clog = handler.get_clog_digest().unwrap();
    let direct: [u8; 32] = sha2::Sha256::digest(&dst[..]).into();
    assert_eq!(clog, direct);
}

#[test]
fn slog_digest_matches_consumed_bytes() {
    // Decode one inbound handshake cell as a relay initiator: SLOG must
    // cover exactly the consumed frame, not the bytes still buffered.
    let mut handler = ChannelCellHandler::new(ChannelType::RelayInitiator);
    handler.set_link_version(5).unwrap();

    // An AUTH_CHALLENGE cell (inbound from the responder), followed by
    // three extra bytes that are not yet a complete frame.
    let mut frame = vec![0x00, 0x00, 0x00, 0x00, 0x82, 0x00, 0x02, 0xaa, 0xbb];
    let frame_len = frame.len();
    frame.extend_from_slice(&[0x00, 0x00, 0x00]);
    let mut src = BytesMut::from(&frame[..]);

    let cell = handler.decode(&mut src).unwrap().unwrap();
    assert_eq!(cell.msg().cmd(), 0x82);
    assert_eq!(src.len(), 3);

    let slog = handler.get_slog_digest().unwrap();
    let direct: [u8; 32] = sha2::Sha256::digest(&frame[..frame_len]).into();
    assert_eq!(slog, direct);
}

#[test]
fn client_digests_are_absent() {
    // Clients keep no transcript: retrieving a digest that does not
    // exist for the role is the caller's bug, not a normal return.
    let mut handler = ChannelCellHandler::new(ChannelType::ClientInitiator);
    handler.set_link_version(4).unwrap();
    assert!(matches!(
        handler.get_clog_digest(),
        Err(Error::Bug(InternalProblem::DigestAbsent))
    ));
    assert!(matches!(
        handler.get_slog_digest(),
        Err(Error::Bug(InternalProblem::DigestAbsent))
    ));
}

#[test]
fn digests_are_consumed_exactly_once() {
    // Each digest finalizes once; a second retrieval is the caller's
    // bug.
    let mut handler = ChannelCellHandler::new(ChannelType::RelayInitiator);
    handler.set_link_version(5).unwrap();
    assert!(handler.get_clog_digest().is_ok());
    assert!(matches!(
        handler.get_clog_digest(),
        Err(Error::Bug(InternalProblem::DigestAbsent))
    ));
    assert!(handler.get_slog_digest().is_ok());
    assert!(matches!(
        handler.get_slog_digest(),
        Err(Error::Bug(InternalProblem::DigestAbsent))
    ));
}

#[test]
fn new_stage_rejects_non_versions() {
    let mut handler = ChannelCellHandler::new(ChannelType::ClientInitiator);

    // Encoding anything but VERSIONS in the New stage cannot be framed.
    let mut dst = BytesMut::new();
    let netinfo = AnyChanCell::new(0, AnyChanMsg::Recognized { cmd: 8, body: fixed_body(&[]) });
    let r = handler.encode(netinfo, &mut dst);
    assert!(matches!(
        r,
        Err(Error::Encode(arti::err::EncodeProblem::NotVersions { cmd: 8 }))
    ));

    // A buffer that does not begin with a VERSIONS header is a
    // handshake protocol error.
    let mut src = BytesMut::from(&[0x00, 0x01, 0x07, 0x00, 0x02, 0x00, 0x04][..]);
    let r = handler.decode(&mut src);
    assert!(matches!(
        r,
        Err(Error::HandshakeProto(ProtoProblem::InvalidVersionsCell))
    ));
    assert_eq!(src.len(), 7);
}

#[test]
fn new_stage_versions_encoding() {
    let mut handler = ChannelCellHandler::new(ChannelType::ClientInitiator);
    let mut dst = BytesMut::new();
    let versions = AnyChanCell::new(0, AnyChanMsg::Versions { versions: vec![4, 5] });
    handler.encode(versions, &mut dst).unwrap();
    assert_eq!(
        &dst[..],
        &[0x00, 0x00, 0x07, 0x00, 0x04, 0x00, 0x04, 0x00, 0x05][..]
    );
}

#[test]
fn set_link_version_twice_is_a_bug() {
    let mut handler = ChannelCellHandler::new(ChannelType::RelayInitiator);
    handler.set_link_version(4).unwrap();
    // The handler has left New: setting a version again is the
    // caller's bug, not a protocol error.
    let r = handler.set_link_version(5);
    assert!(matches!(r, Err(Error::Bug(InternalProblem::NotInNewState))));
    handler.set_open().unwrap();
    let r = handler.set_link_version(5);
    assert!(matches!(r, Err(Error::Bug(InternalProblem::NotInNewState))));
}

#[test]
fn odd_versions_payload_in_new_stage() {
    // A complete VERSIONS frame whose payload length is odd: the frame
    // is consumed (the stream is dead) and reported as malformed.
    let mut handler = ChannelCellHandler::new(ChannelType::ClientInitiator);
    let mut src = BytesMut::from(&[0x00, 0x00, 0x07, 0x00, 0x03, 0x00, 0x04, 0x00][..]);
    let r = handler.decode(&mut src);
    assert!(matches!(
        r,
        Err(Error::HandshakeProto(ProtoProblem::MalformedVersions))
    ));
    assert!(src.is_empty());
}

#[test]
fn incomplete_buffers_consume_nothing() {
    // New stage: five header bytes are not enough.
    let mut handler = ChannelCellHandler::new(ChannelType::ClientInitiator);
    let mut src = BytesMut::from(&[0x00, 0x00, 0x07, 0x00, 0x04][..]);
    assert!(handler.decode(&mut src).unwrap().is_none());
    assert_eq!(src.len(), 5);

    // New stage: a declared payload longer than what is buffered.
    let mut src = BytesMut::from(&[0x00, 0x00, 0x07, 0x02, 0x00, 0x00, 0x00, 0x05][..]);
    assert!(handler.decode(&mut src).unwrap().is_none());
    assert_eq!(src.len(), 8);

    // Open stage: a fixed-length cell cut short.
    let mut open = ChannelCellHandler::Open(OpenChannelHandler::new(
        5,
        ChannelType::ClientInitiator,
    ));
    let mut short = vec![0x00, 0x00, 0x00, 0x07, 0x04];
    short.resize(100, 0);
    let mut src = BytesMut::from(&short[..]);
    assert!(open.decode(&mut src).unwrap().is_none());
    assert_eq!(src.len(), 100);
}
