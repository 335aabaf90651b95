use anne_led::protocol::{decode_frame, encode_frame, LedOp, MsgType, MAX_PAYLOAD};

#[test]
fn encode_config_frame() {
    let f = encode_frame(MsgType::Led, LedOp::ConfigCmd.to_byte(), &[1, 0, 0]);
    assert_eq!(f, vec![9, 4, 2, 1, 0, 0]);
}

#[test]
fn encode_operation_only_frame() {
    let f = encode_frame(MsgType::Ble, 7, &[]);
    assert_eq!(f, vec![6, 1, 7]);
}

fn round_trip(len: usize) {
    let payload: Vec<u8> = (0..len).map(|i| (i * 7 + 3) as u8).collect();
    let f = encode_frame(MsgType::Led, 0x42, &payload);
    assert_eq!(f.len(), len + 3);
    let m = decode_frame(&f).expect("a frame");
    assert_eq!(m.msg_type, MsgType::Led);
    assert_eq!(m.operation, 0x42);
    assert_eq!(m.data, payload);
}

#[test]
fn round_trip_empty_payload() {
    round_trip(0);
}

#[test]
fn round_trip_one_byte_payload() {
    round_trip(1);
}

#[test]
fn round_trip_longest_payload() {
    round_trip(MAX_PAYLOAD);
}

#[test]
fn round_trip_unnamed_channel() {
    let f = encode_frame(MsgType::Other(200), 1, &[5, 6]);
    let m = decode_frame(&f).unwrap();
    assert_eq!(m.msg_type, MsgType::Other(200));
    assert_eq!(m.data, vec![5, 6]);
}

#[test]
fn decode_ignores_bytes_past_the_frame() {
    let m = decode_frame(&[9, 2, 0x81, 4, 0xee, 0xee]).unwrap();
    assert_eq!(m.msg_type, MsgType::Led);
    assert_eq!(m.operation, 0x81);
    assert_eq!(m.data, vec![4]);
}

#[test]
fn decode_rejects_short_buffer() {
    assert!(decode_frame(&[9, 1]).is_none());
    assert!(decode_frame(&[]).is_none());
}

#[test]
fn decode_rejects_zero_length() {
    assert!(decode_frame(&[9, 0, 1]).is_none());
}

#[test]
fn decode_rejects_length_past_buffer() {
    assert!(decode_frame(&[9, 3, 1, 2]).is_none());
}

#[test]
fn channel_bytes() {
    assert_eq!(MsgType::from_byte(9), MsgType::Led);
    assert_eq!(MsgType::from_byte(6), MsgType::Ble);
    assert_eq!(MsgType::from_byte(77), MsgType::Other(77));
    for b in 0..=255u8 {
        assert_eq!(MsgType::from_byte(b).to_byte(), b);
        assert_eq!(LedOp::from_byte(b).to_byte(), b);
    }
}

#[test]
fn acknowledgement_codes() {
    assert_eq!(LedOp::from_byte(0x81), LedOp::AckThemeMode);
    assert_eq!(LedOp::from_byte(0x82), LedOp::AckConfigCmd);
    assert_eq!(LedOp::from_byte(0x86), LedOp::AckSetIndividualKeys);
    assert_eq!(LedOp::from_byte(0x40), LedOp::Unknown(0x40));
}
