use kiss::{
    fesc_other, fesc_tfend, parse_frame, take_frame_data, tfend, unescape_frame_data, DecodeError,
    Frame, Parsed, Payload, FEND, FESC, TFEND, TFESC,
};

/// Reference byte-stuffer for building wire frames in tests.
fn escape_all(data: &[u8]) -> Vec<u8> {
    let mut out = Vec::new();
    for &b in data {
        if b == FEND {
            out.push(FESC);
            out.push(TFEND);
        } else if b == FESC {
            out.push(FESC);
            out.push(TFESC);
        } else {
            out.push(b);
        }
    }
    out
}

/// Builds the wire encoding of a frame with the given header byte and
/// literal (pre-stuffing) payload bytes.
fn frame_bytes(header: u8, payload: &[u8]) -> Vec<u8> {
    let mut interior = vec![header];
    interior.extend_from_slice(payload);
    let mut out = vec![FEND];
    out.extend_from_slice(&escape_all(&interior));
    out.push(FEND);
    out
}

fn expect_frame(wire: &[u8], port: u8, payload: Payload) {
    assert_eq!(
        Parsed::Complete(wire.len(), Frame { port, payload }),
        parse_frame(wire)
    );
}

#[test]
fn round_trip_data() {
    expect_frame(
        &frame_bytes(0x20, &[1, 2, 3]),
        2,
        Payload::Data(vec![1, 2, 3]),
    );
    expect_frame(&frame_bytes(0x00, &[]), 0, Payload::Data(vec![]));
    let all: Vec<u8> = (0u8..=255).collect();
    expect_frame(&frame_bytes(0x00, &all), 0, Payload::Data(all.clone()));
}

#[test]
fn round_trip_data_with_reserved_bytes() {
    let literal = [FEND, FESC, TFEND, TFESC];
    expect_frame(
        &frame_bytes(0x10, &literal),
        1,
        Payload::Data(literal.to_vec()),
    );
}

#[test]
fn round_trip_txdelay_bounds() {
    expect_frame(&frame_bytes(0x01, &[0]), 0, Payload::TXDelay(0));
    expect_frame(&frame_bytes(0x01, &[255]), 0, Payload::TXDelay(255));
}

#[test]
fn round_trip_one_byte_parameters() {
    expect_frame(&frame_bytes(0x42, &[17]), 4, Payload::P(17));
    expect_frame(&frame_bytes(0x93, &[200]), 9, Payload::SlotTime(200));
    expect_frame(&frame_bytes(0x04, &[33]), 0, Payload::TXTail(33));
}

#[test]
fn round_trip_fullduplex() {
    expect_frame(&frame_bytes(0x05, &[0]), 0, Payload::FullDuplex(false));
    expect_frame(&frame_bytes(0x05, &[1]), 0, Payload::FullDuplex(true));
}

#[test]
fn round_trip_sethardware() {
    expect_frame(
        &frame_bytes(0x66, &[9, 8, 7]),
        6,
        Payload::SetHardware(vec![9, 8, 7]),
    );
    expect_frame(&frame_bytes(0x06, &[]), 0, Payload::SetHardware(vec![]));
}

#[test]
fn round_trip_return() {
    expect_frame(&frame_bytes(0xFF, &[]), 0x0F, Payload::Return);
}

#[test]
fn unescape_inverts_escape() {
    let literal: Vec<u8> = vec![0x41, FEND, FESC, TFEND, TFESC, 0x00, 0xFF];
    let stuffed = escape_all(&literal);
    assert_eq!(
        Parsed::Complete(stuffed.len(), literal.clone()),
        unescape_frame_data(&stuffed)
    );

    let empty: Vec<u8> = vec![];
    assert_eq!(Parsed::Complete(0, empty), unescape_frame_data(&[]));

    let all: Vec<u8> = (0u8..=255).collect();
    let stuffed = escape_all(&all);
    assert_eq!(
        Parsed::Complete(stuffed.len(), all),
        unescape_frame_data(&stuffed)
    );
}

#[test]
fn stray_escape_passes_byte_through() {
    assert_eq!(
        Parsed::Complete(2, vec![0x41]),
        unescape_frame_data(&[FESC, 0x41])
    );
}

#[test]
fn return_bound_to_port_fifteen() {
    for port in 0u8..=14 {
        let header = (port << 4) | 0x0F;
        assert_eq!(
            Parsed::Failed(DecodeError::InvalidReturnPort),
            parse_frame(&[FEND, header, FEND])
        );
    }
    expect_frame(&[FEND, 0xFF, FEND], 0x0F, Payload::Return);
}

#[test]
fn streaming_split_equivalence() {
    let wire = frame_bytes(0x30, &[0x10, FEND, FESC, 0x20]);
    let whole = parse_frame(&wire);
    assert_eq!(
        Parsed::Complete(
            wire.len(),
            Frame { port: 3, payload: Payload::Data(vec![0x10, FEND, FESC, 0x20]) }
        ),
        whole
    );
    for split in 0..wire.len() {
        // The first half alone only asks for more input...
        assert_eq!(Parsed::Incomplete, parse_frame(&wire[..split]));
        // ...and retrying with the second half appended gives the same frame.
        assert_eq!(whole, parse_frame(&wire));
    }
}

#[test]
fn empty_frame_is_header_underflow() {
    assert_eq!(
        Parsed::Failed(DecodeError::HeaderUnderflow),
        parse_frame(&[FEND, FEND])
    );
}

#[test]
fn unframed_garbage_is_framing_error() {
    assert_eq!(
        Parsed::Failed(DecodeError::Framing),
        parse_frame(&[0x01, FEND, 0x00, FEND])
    );
    assert_eq!(Parsed::Failed(DecodeError::Framing), parse_frame(&[0x54]));
}

#[test]
fn unknown_frame_type_code() {
    assert_eq!(
        Parsed::Failed(DecodeError::UnknownFrameType),
        parse_frame(&[FEND, 0x07, FEND])
    );
    assert_eq!(
        Parsed::Failed(DecodeError::UnknownFrameType),
        parse_frame(&[FEND, 0x0E, FEND])
    );
}

#[test]
fn fixed_payload_underflow() {
    assert_eq!(
        Parsed::Failed(DecodeError::PayloadUnderflow),
        parse_frame(&[FEND, 0x01, FEND])
    );
    assert_eq!(
        Parsed::Failed(DecodeError::PayloadUnderflow),
        parse_frame(&[FEND, 0x05, FEND])
    );
}

#[test]
fn fixed_payload_overflow() {
    assert_eq!(
        Parsed::Failed(DecodeError::PayloadOverflow),
        parse_frame(&[FEND, 0x01, 0x2A, 0x2B, FEND])
    );
    assert_eq!(
        Parsed::Failed(DecodeError::PayloadOverflow),
        parse_frame(&[FEND, 0xFF, 0x01, FEND])
    );
}

#[test]
fn unexpected_token_on_mismatch() {
    assert_eq!(Parsed::Failed(DecodeError::UnexpectedToken), tfend(&[0x00]));
    assert_eq!(
        Parsed::Failed(DecodeError::UnexpectedToken),
        fesc_tfend(&[FESC, 0x41])
    );
    assert_eq!(
        Parsed::Failed(DecodeError::UnexpectedToken),
        fesc_other(&[0x00])
    );
}

#[test]
fn incomplete_inputs_ask_for_more() {
    assert_eq!(Parsed::Incomplete, parse_frame(&[]));
    // Terminator not yet arrived.
    assert_eq!(Parsed::Incomplete, parse_frame(&[FEND, 0x00, 0x54]));
    // Interior cut off in the middle of an escape pair.
    assert_eq!(Parsed::Incomplete, parse_frame(&[FEND, 0x00, FESC, FEND]));
    assert_eq!(Parsed::Incomplete, take_frame_data(&[FESC]));
    assert_eq!(Parsed::Incomplete, unescape_frame_data(&[0x41, FESC]));
}

#[test]
fn consumed_count_advances_over_back_to_back_frames() {
    let mut stream = frame_bytes(0x01, &[0x05]);
    stream.extend_from_slice(&frame_bytes(0xFF, &[]));
    match parse_frame(&stream) {
        Parsed::Complete(used, first) => {
            assert_eq!(4, used);
            assert_eq!(Frame { port: 0, payload: Payload::TXDelay(0x05) }, first);
            assert_eq!(
                Parsed::Complete(3, Frame { port: 0x0F, payload: Payload::Return }),
                parse_frame(&stream[used..])
            );
        },
        other => panic!("expected a complete frame, got {:?}", other),
    }
}
