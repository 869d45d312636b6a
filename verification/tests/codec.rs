//! Tests of the cell codec: framing, round trips, structural checks
//! and encoding failures.

use bytes::BytesMut;

use arti::cell::{AnyChanCell, AnyChanMsg};
use arti::codec::{encode_cell_bytes, ChannelCodec};
use arti::err::{EncodeProblem, ProtoProblem};

fn fixed_body(first: &[u8]) -> Vec<u8> {
    let mut body = first.to_vec();
    body.resize(509, 0);
    body
}

fn roundtrip(cell: AnyChanCell, version: u16) {
    let codec = ChannelCodec::new(version);
    let bytes = encode_cell_bytes(&cell, version).unwrap();
    let mut src = BytesMut::from(&bytes[..]);
    let decoded = codec.decode_cell(&mut src).unwrap().unwrap();
    assert!(src.is_empty());
    assert_eq!(decoded, cell);
}

#[test]
fn roundtrip_fixed_cells() {
    for v in [4u16, 5u16] {
        // RELAY with an arbitrary payload.
        roundtrip(
            AnyChanCell::new(3, AnyChanMsg::Recognized { cmd: 3, body: fixed_body(&[9, 8, 7]) }),
            v,
        );
        // DESTROY with reason 2.
        roundtrip(
            AnyChanCell::new(7, AnyChanMsg::Recognized { cmd: 4, body: fixed_body(&[2]) }),
            v,
        );
        // PADDING travels with no circuit.
        roundtrip(
            AnyChanCell::new(0, AnyChanMsg::Recognized { cmd: 0, body: fixed_body(&[]) }),
            v,
        );
        // An unrecognized fixed-class command.
        roundtrip(
            AnyChanCell::new(1, AnyChanMsg::Unrecognized { cmd: 99, body: fixed_body(&[1]) }),
            v,
        );
    }
}

#[test]
fn roundtrip_variable_cells() {
    for v in [4u16, 5u16] {
        // CERTS with a short payload.
        roundtrip(
            AnyChanCell::new(0, AnyChanMsg::Recognized { cmd: 0x81, body: vec![0] }),
            v,
        );
        // VPADDING with an empty payload.
        roundtrip(
            AnyChanCell::new(0, AnyChanMsg::Recognized { cmd: 0x80, body: vec![] }),
            v,
        );
        // VERSIONS through the regular codec.
        roundtrip(
            AnyChanCell::new(0, AnyChanMsg::Versions { versions: vec![3, 4, 5] }),
            v,
        );
        // An unrecognized variable-class command.
        roundtrip(
            AnyChanCell::new(2, AnyChanMsg::Unrecognized { cmd: 200, body: vec![1, 2, 3] }),
            v,
        );
    }
}

#[test]
fn exact_destroy_encoding() {
    // The DESTROY cell from the channel tests, byte for byte.
    let cell = AnyChanCell::new(7, AnyChanMsg::Recognized { cmd: 4, body: vec![2] });
    let bytes = encode_cell_bytes(&cell, 5).unwrap();
    assert_eq!(bytes.len(), 514);
    assert_eq!(
        &bytes[0..10],
        &[0x00, 0x00, 0x00, 0x07, 0x04, 0x02, 0x00, 0x00, 0x00, 0x00][..]
    );
    assert!(bytes[10..].iter().all(|b| *b == 0));
}

#[test]
fn short_fixed_bodies_are_padded() {
    // Encoding pads, so decode returns the padded body: the round trip
    // is exact only for full-width fixed bodies.
    let cell = AnyChanCell::new(7, AnyChanMsg::Recognized { cmd: 4, body: vec![2] });
    let bytes = encode_cell_bytes(&cell, 5).unwrap();
    let codec = ChannelCodec::new(5);
    let mut src = BytesMut::from(&bytes[..]);
    let decoded = codec.decode_cell(&mut src).unwrap().unwrap();
    assert_eq!(decoded.msg().cmd(), 4);
    match decoded.msg() {
        AnyChanMsg::Recognized { body, .. } => {
            assert_eq!(body.len(), 509);
            assert_eq!(body[0], 2);
        },
        _ => panic!("expected a recognized message"),
    }
}

#[test]
fn oversized_bodies_are_refused() {
    // A variable payload beyond the two-byte length field.
    let cell = AnyChanCell::new(0, AnyChanMsg::Recognized { cmd: 0x81, body: vec![0; 65536] });
    let r = encode_cell_bytes(&cell, 5);
    assert!(matches!(r, Err(EncodeProblem::OversizedBody { cmd: 0x81, len: 65536 })));

    // A fixed payload beyond the constant cell size.
    let cell = AnyChanCell::new(3, AnyChanMsg::Recognized { cmd: 3, body: vec![0; 510] });
    let r = encode_cell_bytes(&cell, 5);
    assert!(matches!(r, Err(EncodeProblem::OversizedBody { cmd: 3, len: 510 })));

    // A version list whose payload cannot be framed.
    let cell = AnyChanCell::new(0, AnyChanMsg::Versions { versions: vec![4; 40000] });
    let r = encode_cell_bytes(&cell, 5);
    assert!(matches!(r, Err(EncodeProblem::OversizedBody { cmd: 7, len: 40000 })));
}

#[test]
fn legacy_two_byte_circuit_ids() {
    // Below link protocol version 4, circuit identifiers are two bytes:
    // a wide identifier cannot be framed, a narrow one round-trips.
    let codec = ChannelCodec::new(3);
    let wide = AnyChanCell::new(0x10000, AnyChanMsg::Recognized { cmd: 3, body: fixed_body(&[]) });
    let mut dst = BytesMut::new();
    let r = codec.write_cell(wide, &mut dst);
    assert!(matches!(r, Err(EncodeProblem::CircIdTooWide { circid: 0x10000 })));
    assert!(dst.is_empty());

    let narrow = AnyChanCell::new(0x1234, AnyChanMsg::Recognized { cmd: 3, body: fixed_body(&[6]) });
    codec.write_cell(narrow.clone(), &mut dst).unwrap();
    assert_eq!(&dst[0..3], &[0x12, 0x34, 0x03]);
    assert_eq!(dst.len(), 512);
    let decoded = codec.decode_cell(&mut dst).unwrap().unwrap();
    assert_eq!(decoded, narrow);
}

#[test]
fn bad_circuit_ids_are_decode_errors() {
    let codec = ChannelCodec::new(5);

    // A RELAY cell with circuit identifier zero.
    let mut frame = vec![0x00, 0x00, 0x00, 0x00, 0x03];
    frame.resize(514, 0);
    let mut src = BytesMut::from(&frame[..]);
    let r = codec.decode_cell(&mut src);
    assert!(matches!(r, Err(ProtoProblem::BadCircId { cmd: 3, circid: 0 })));
    // The frame was consumed: the stream is dead anyway.
    assert!(src.is_empty());

    // A NETINFO cell with a nonzero circuit identifier.
    let mut frame = vec![0x00, 0x00, 0x00, 0x05, 0x08];
    frame.resize(514, 0);
    let mut src = BytesMut::from(&frame[..]);
    let r = codec.decode_cell(&mut src);
    assert!(matches!(r, Err(ProtoProblem::BadCircId { cmd: 8, circid: 5 })));
}

#[test]
fn odd_versions_payload_is_malformed() {
    let codec = ChannelCodec::new(5);
    let frame = [0x00, 0x00, 0x00, 0x00, 0x07, 0x00, 0x03, 0x00, 0x04, 0x00];
    let mut src = BytesMut::from(&frame[..]);
    let r = codec.decode_cell(&mut src);
    assert!(matches!(r, Err(ProtoProblem::MalformedVersions)));
}

#[test]
fn unrecognized_commands_still_decode() {
    let codec = ChannelCodec::new(5);
    // Command 0xC8 is variable-class (extended range) and unknown.
    let frame = [0x00, 0x00, 0x00, 0x00, 0xc8, 0x00, 0x02, 0xde, 0xad];
    let mut src = BytesMut::from(&frame[..]);
    let cell = codec.decode_cell(&mut src).unwrap().unwrap();
    match cell.msg() {
        AnyChanMsg::Unrecognized { cmd, body } => {
            assert_eq!(*cmd, 0xc8);
            assert_eq!(body, &vec![0xde, 0xad]);
        },
        _ => panic!("expected an unrecognized message"),
    }
}

#[test]
fn variable_framing_waits_for_payload() {
    let codec = ChannelCodec::new(5);
    // Header says two payload bytes; only one has arrived.
    let frame = [0x00, 0x00, 0x00, 0x00, 0x81, 0x00, 0x02, 0xaa];
    let mut src = BytesMut::from(&frame[..]);
    assert!(codec.decode_cell(&mut src).unwrap().is_none());
    assert_eq!(src.len(), 8);
}

#[test]
fn two_cells_in_one_buffer() {
    let codec = ChannelCodec::new(4);
    let first = AnyChanCell::new(0, AnyChanMsg::Recognized { cmd: 0x80, body: vec![1, 2] });
    let second = AnyChanCell::new(9, AnyChanMsg::Recognized { cmd: 3, body: fixed_body(&[5]) });
    let mut buffer = BytesMut::new();
    codec.write_cell(first.clone(), &mut buffer).unwrap();
    codec.write_cell(second.clone(), &mut buffer).unwrap();
    let got_first = codec.decode_cell(&mut buffer).unwrap().unwrap();
    let got_second = codec.decode_cell(&mut buffer).unwrap().unwrap();
    assert_eq!(got_first, first);
    assert_eq!(got_second, second);
    assert!(buffer.is_empty());
    assert!(codec.decode_cell(&mut buffer).unwrap().is_none());
}
