use anne_led::keys::to_packed_bits;
use anne_led::led::{rx, tx, BluetoothMode, Disposition, Led, LedMode};
use anne_led::serial::{Serial, WouldBlock};

fn led(rx_len: usize) -> Led {
    Led::new(Serial::new(), vec![0u8; rx_len])
}

/// Feeds the outgoing frame out through the transmit interrupt.
fn drain(led: &mut Led) -> Vec<u8> {
    let mut out = Vec::new();
    while let Some(b) = tx(led) {
        out.push(b);
    }
    out
}

#[test]
fn toggle_alternates() {
    let mut l = led(4);
    assert!(!l.state);
    assert_eq!(l.toggle(), Ok(()));
    assert!(l.state);
    assert_eq!(drain(&mut l), vec![9, 1, 1]);
    assert_eq!(l.toggle(), Ok(()));
    assert!(!l.state);
    assert_eq!(drain(&mut l), vec![9, 2, 1, 0]);
    assert_eq!(l.toggle(), Ok(()));
    assert!(l.state);
    assert_eq!(drain(&mut l), vec![9, 1, 1]);
}

#[test]
fn toggle_flips_even_when_link_busy() {
    let mut l = led(4);
    assert_eq!(l.toggle(), Ok(()));
    assert_eq!(l.toggle(), Err(WouldBlock));
    assert!(!l.state);
    assert_eq!(drain(&mut l), vec![9, 1, 1]);
}

#[test]
fn config_payloads_are_one_hot() {
    let mut l = led(4);
    assert_eq!(l.next_theme(), Ok(()));
    let a = drain(&mut l);
    assert_eq!(l.next_brightness(), Ok(()));
    let b = drain(&mut l);
    assert_eq!(l.next_animation_speed(), Ok(()));
    let c = drain(&mut l);
    assert_eq!(a, vec![9, 4, 2, 1, 0, 0]);
    assert_eq!(b, vec![9, 4, 2, 0, 0, 1]);
    assert_eq!(c, vec![9, 4, 2, 0, 1, 0]);
    for p in [&a[3..], &b[3..], &c[3..]].iter() {
        assert_eq!(p.iter().filter(|&&x| x != 0).count(), 1);
    }
    assert_ne!(a, b);
    assert_ne!(b, c);
    assert_ne!(a, c);
}

#[test]
fn second_send_would_block() {
    let mut l = led(4);
    assert_eq!(l.set_theme(3), Ok(()));
    assert_eq!(l.get_theme_id(), Err(WouldBlock));
    assert_eq!(drain(&mut l), vec![9, 2, 1, 3]);
    assert_eq!(tx(&mut l), None);
    assert_eq!(l.get_theme_id(), Ok(()));
    assert_eq!(drain(&mut l), vec![9, 1, 5]);
}

#[test]
fn music_and_keys_payloads() {
    let mut l = led(4);
    assert_eq!(l.send_music(&[7, 8, 9]), Ok(()));
    assert_eq!(drain(&mut l), vec![9, 4, 4, 7, 8, 9]);
    assert_eq!(l.set_keys(&[0xca, 0]), Ok(()));
    assert_eq!(drain(&mut l), vec![9, 3, 6, 0xca, 0]);
    assert_eq!(l.theme_mode(), Ok(()));
    assert_eq!(drain(&mut l), vec![9, 1, 1]);
}

#[test]
fn key_state_is_packed_in_key_order() {
    let mut state = [false; 70];
    state[0] = true;
    state[9] = true;
    state[69] = true;
    assert_eq!(to_packed_bits(&state), vec![0x01, 0x02, 0, 0, 0, 0, 0, 0, 0x20]);
    let mut l = led(4);
    assert_eq!(l.send_keys(&state), Ok(()));
    assert_eq!(drain(&mut l), vec![9, 10, 3, 0x01, 0x02, 0, 0, 0, 0, 0, 0, 0x20]);
}

#[test]
fn packing_edges() {
    assert_eq!(to_packed_bits(&[]), Vec::<u8>::new());
    assert_eq!(to_packed_bits(&[true; 8]), vec![0xff]);
    assert_eq!(to_packed_bits(&[true; 9]), vec![0xff, 0x01]);
    assert_eq!(to_packed_bits(&[false, false, false, false, false, false, false, true]), vec![0x80]);
}

fn bluetooth_payload(mode: BluetoothMode) -> Vec<u8> {
    let mut l = led(4);
    assert_eq!(l.bluetooth_mode(mode), Ok(()));
    let f = drain(&mut l);
    assert_eq!(f[0], 9);
    assert_eq!(f[2], 6);
    assert_eq!(f[1] as usize, f.len() - 2);
    f[3..].to_vec()
}

#[test]
fn bluetooth_legacy_is_yellow() {
    let p = bluetooth_payload(BluetoothMode::Legacy);
    assert_eq!(p.len(), 52);
    assert_eq!(p[0], 0xca);
    assert_eq!(p[1], 0x0a);
    assert_eq!(&p[42..47], &[10, 0xff, 0xff, 0x00, LedMode::On.to_byte()]);
}

#[test]
fn bluetooth_ble_is_green() {
    let p = bluetooth_payload(BluetoothMode::Ble);
    assert_eq!(p[1], 0x0a);
    assert_eq!(&p[43..46], &[0x00, 0xff, 0x00]);
}

#[test]
fn bluetooth_unknown_is_blue() {
    let p = bluetooth_payload(BluetoothMode::Unknown);
    assert_eq!(p[1], 0x0a);
    assert_eq!(&p[43..46], &[0x00, 0x00, 0xff]);
    assert_eq!(&p[2..12], &[0, 0xff, 0xff, 0x00, 1, 1, 0xff, 0x00, 0x00, 2]);
}

#[test]
fn indicator_line() {
    let mut l = led(4);
    assert!(!l.indicator);
    l.on();
    assert!(l.indicator);
    l.off();
    assert!(!l.indicator);
}

fn receive(l: &mut Led, bytes: &[u8]) {
    for &b in bytes {
        assert!(l.receive_byte(b));
    }
}

#[test]
fn poll_waits_for_a_full_buffer() {
    let mut l = led(4);
    assert_eq!(l.poll(), None);
    receive(&mut l, &[9, 2, 0x81]);
    assert_eq!(rx(&mut l), None);
    assert_eq!(l.rx_transfer.as_ref().unwrap().received, 3);
    receive(&mut l, &[1]);
    assert_eq!(rx(&mut l), Some(Disposition::Acknowledgement));
    let t = l.rx_transfer.as_ref().expect("re-armed");
    assert_eq!(t.received, 0);
    assert_eq!(t.buffer.len(), 4);
}

#[test]
fn receive_stays_armed_over_many_frames() {
    let mut l = led(4);
    let frames: [[u8; 4]; 4] = [[9, 2, 0x82, 0], [6, 2, 1, 0], [9, 0, 1, 0], [9, 2, 0x03, 0]];
    let expected = [
        Disposition::Acknowledgement,
        Disposition::Unhandled,
        Disposition::Malformed,
        Disposition::Unhandled,
    ];
    for (f, e) in frames.iter().zip(expected.iter()) {
        receive(&mut l, f);
        assert!(!l.receive_byte(0xee));
        assert_eq!(l.poll(), Some(*e));
        assert!(l.rx_transfer.is_some());
        assert_eq!(l.rx_transfer.as_ref().unwrap().received, 0);
    }
}

#[test]
fn ack_set_individual_keys_is_accepted() {
    let mut l = led(4);
    receive(&mut l, &[9, 2, 0x86, 202]);
    assert_eq!(l.poll(), Some(Disposition::Acknowledgement));
}
