use kiss::{
    data_frame, fend, fesc, frame_content, frame_type_port, fullduplex_frame, p_frame,
    parse_frame, return_frame, sethardware_frame, slot_time_frame, take_frame_data, tfend, tfesc,
    txdelay_frame, txtail_frame, Frame, FrameType, Parsed, Payload, FEND, FESC, TFEND, TFESC,
};

#[test]
fn test_fend_fesc() {
    assert_eq!(Parsed::Complete(1, FEND), fend(&[FEND]));
    assert_eq!(Parsed::Complete(1, TFEND), tfend(&[TFEND]));
    assert_eq!(Parsed::Complete(1, FESC), fesc(&[FESC]));
    assert_eq!(Parsed::Complete(1, TFESC), tfesc(&[TFESC]));
}

#[test]
fn test_frame_type_port() {
    let data = &[0x50 | 0x02];
    assert_eq!(Ok((5u8, FrameType::P)), frame_type_port(data));

    let data = &[0xF0 | 0x0F];
    assert_eq!(Ok((0x0F, FrameType::Return)), frame_type_port(data));

    let data = &[0x0F];
    assert_ne!(Ok((0x00, FrameType::Return)), frame_type_port(data));
}

#[test]
fn test_take_frame_data() {
    assert_eq!(Parsed::Complete(1, 0x00), take_frame_data(&[0x00]));

    let data: &[u8] = &[0x00, 0x42];
    assert_eq!(Parsed::Complete(1, 0x00), take_frame_data(data));

    let data: &[u8] = &[FESC, TFEND];
    assert_eq!(Parsed::Complete(2, FEND), take_frame_data(data));

    let data: &[u8] = &[FESC, TFEND, 0x42];
    assert_eq!(Parsed::Complete(2, FEND), take_frame_data(data));

    let data: &[u8] = &[FESC, TFESC];
    assert_eq!(Parsed::Complete(2, FESC), take_frame_data(data));

    let data: &[u8] = &[FESC, TFESC, 0x42];
    assert_eq!(Parsed::Complete(2, FESC), take_frame_data(data));
}

#[test]
fn test_txdelay_frame() {
    let data = &[42];
    assert_eq!(Ok(Payload::TXDelay(42)), txdelay_frame(data));
}

#[test]
fn test_data_frame() {
    let data = &[42, 43];
    assert_eq!(Ok(Payload::Data(vec![42, 43])), data_frame(data));
}

#[test]
fn test_p_frame() {
    let data = &[42];
    assert_eq!(Ok(Payload::P(42)), p_frame(data));
}

#[test]
fn test_slot_time_frame() {
    let data = &[42];
    assert_eq!(Ok(Payload::SlotTime(42)), slot_time_frame(data));
}

#[test]
fn test_txtail_frame() {
    let data = &[42];
    assert_eq!(Ok(Payload::TXTail(42)), txtail_frame(data));
}

#[test]
fn test_fullduplex_frame() {
    let data = &[0];
    assert_eq!(Ok(Payload::FullDuplex(false)), fullduplex_frame(data));

    let data = &[42];
    assert_eq!(Ok(Payload::FullDuplex(true)), fullduplex_frame(data));
}

#[test]
fn test_sethardware_frame() {
    let data = &[42, 43];
    assert_eq!(Ok(Payload::SetHardware(vec![42, 43])), sethardware_frame(data));
}

#[test]
fn test_return_frame() {
    let empty: &[u8] = &[];
    assert_eq!(Ok(Payload::Return), return_frame(empty));
}

#[test]
fn test_frame_content() {
    let data = &[0x20 | 0x00, 42, 43];
    assert_eq!(
        Ok(Frame { port: 2, payload: Payload::Data(vec![42, 43]) }),
        frame_content(data)
    );

    let data = &[0x30 | 0x01, 42];
    assert_eq!(
        Ok(Frame { port: 3, payload: Payload::TXDelay(42) }),
        frame_content(data)
    );

    let data = &[0x00 | 0x02, 42];
    assert_eq!(Ok(Frame { port: 0, payload: Payload::P(42) }), frame_content(data));

    let data = &[0xC0 | 0x03, 42];
    assert_eq!(
        Ok(Frame { port: 0x0C, payload: Payload::SlotTime(42) }),
        frame_content(data)
    );

    let data = &[0xF0 | 0x04, 42];
    assert_eq!(
        Ok(Frame { port: 0x0F, payload: Payload::TXTail(42) }),
        frame_content(data)
    );

    let data = &[0x30 | 0x05, 0];
    assert_eq!(
        Ok(Frame { port: 3, payload: Payload::FullDuplex(false) }),
        frame_content(data)
    );

    let data = &[0x70 | 0x05, 42];
    assert_eq!(
        Ok(Frame { port: 7, payload: Payload::FullDuplex(true) }),
        frame_content(data)
    );

    let data = &[0x80 | 0x06, 42, 43];
    assert_eq!(
        Ok(Frame { port: 8, payload: Payload::SetHardware(vec![42, 43]) }),
        frame_content(data)
    );

    let data = &[0x30 | 0x0F];
    assert_ne!(
        Ok(Frame { port: 0x0F, payload: Payload::Return }),
        frame_content(data)
    );

    let data = &[0xF0 | 0x0F];
    assert_eq!(
        Ok(Frame { port: 0x0F, payload: Payload::Return }),
        frame_content(data)
    );
}

#[test]
fn send_the_characters_test_out_of_tnc_port_0() {
    let frame_data = &[0xC0, 0x00, 0x54, 0x45, 0x53, 0x54, 0xC0];
    assert_eq!(
        Parsed::Complete(
            7,
            Frame { port: 0, payload: Payload::Data(vec![0x54, 0x45, 0x53, 0x54]) }
        ),
        parse_frame(frame_data)
    );
}

#[test]
fn send_the_characters_hello_out_of_tnc_port_5() {
    let frame_data: [u8; 8] = [0xC0, 0x50, 0x48, 0x65, 0x6C, 0x6C, 0x6F, 0xC0];
    assert_eq!(
        Parsed::Complete(
            8,
            Frame { port: 5, payload: Payload::Data(vec![0x48, 0x65, 0x6C, 0x6C, 0x6F]) }
        ),
        parse_frame(&frame_data)
    );
}

#[test]
fn send_some_bytes_out_of_tnc_port_0() {
    let frame_data: [u8; 7] = [0xC0, 0x00, 0xDB, 0xDC, 0xDB, 0xDD, 0xC0];
    assert_eq!(
        Parsed::Complete(7, Frame { port: 0, payload: Payload::Data(vec![0xC0, 0xDB]) }),
        parse_frame(&frame_data)
    );
}
