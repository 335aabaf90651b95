use anne_led::endpoint::{
    clear_ctr_write, compute_toggle_write, status_write, Direction, EndpointStatus, UsbExt,
};
use std::cell::Cell;

/// What the peripheral holds after taking the write `w` while holding `c`.
fn after_write(c: u32, w: u32) -> u32 {
    ((c ^ w) & 0x7070) | (c & w & 0x8080) | (w & !(0x7070u32 | 0x8080))
}

fn tx_status(r: u32) -> u32 {
    (r >> 4) & 3
}

fn rx_status(r: u32) -> u32 {
    (r >> 12) & 3
}

const ALL: [EndpointStatus; 4] = [
    EndpointStatus::Disabled,
    EndpointStatus::Stall,
    EndpointStatus::Nak,
    EndpointStatus::Valid,
];

#[test]
fn toggle_write_flips_only_differing_bits() {
    assert_eq!(compute_toggle_write(0x20, 0x30, 0x30), 0x10);
    assert_eq!(compute_toggle_write(0x3000, 0x0000, 0x3000), 0x3000);
    assert_eq!(compute_toggle_write(0xffff, 0xffff, 0x30), 0);
}

#[test]
fn toggle_write_reaches_every_target() {
    for c in 0u32..4 {
        for t in 0u32..4 {
            let w = compute_toggle_write(c << 4, t << 4, 0x30);
            assert_eq!(((c << 4) ^ w) & 0x30, t << 4);
        }
    }
}

#[test]
fn tx_valid_from_zero() {
    assert_eq!(status_write(0x0000, Direction::Tx, EndpointStatus::Valid, false), 0x80b0);
}

#[test]
fn tx_valid_from_nak() {
    assert_eq!(status_write(0x0020, Direction::Tx, EndpointStatus::Valid, false), 0x8090);
}

#[test]
fn rx_valid_from_stall_with_data_toggle() {
    assert_eq!(status_write(0x1000, Direction::Rx, EndpointStatus::Valid, true), 0xe080);
}

#[test]
fn status_write_reaches_target_and_keeps_the_rest() {
    let samples = [0x0000u32, 0x8080, 0x0203, 0x7070, 0xf0f0, 0x8f8f, 0x1234, 0xa5a5, 0xffff];
    for &c in samples.iter() {
        for &s in ALL.iter() {
            for &dtog in [false, true].iter() {
                let w = status_write(c, Direction::Tx, s, dtog);
                let a = after_write(c, w);
                assert_eq!(tx_status(a), s.code());
                assert_eq!(rx_status(a), rx_status(c));
                assert_eq!(a & 0x8080, c & 0x8080);
                assert_eq!(w & 0x8080, 0x8080);
                assert_eq!(a & 0x0f0f, c & 0x0f0f);
                assert_eq!(a & 0x40, (c & 0x40) ^ if dtog { 0x40 } else { 0 });
                assert_eq!(a & 0x4000, c & 0x4000);

                let w = status_write(c, Direction::Rx, s, dtog);
                let a = after_write(c, w);
                assert_eq!(rx_status(a), s.code());
                assert_eq!(tx_status(a), tx_status(c));
                assert_eq!(a & 0x8080, c & 0x8080);
                assert_eq!(a & 0x4000, (c & 0x4000) ^ if dtog { 0x4000 } else { 0 });
                assert_eq!(a & 0x40, c & 0x40);
            }
        }
    }
}

#[test]
fn clear_tx_flag() {
    assert_eq!(clear_ctr_write(0x8283, Direction::Tx), 0x8203);
    let a = after_write(0x8283, 0x8203);
    assert_eq!(a & 0x80, 0);
    assert_eq!(a & 0x8000, 0x8000);
}

#[test]
fn clear_rx_flag_keeps_tx_flag() {
    assert_eq!(clear_ctr_write(0x8283, Direction::Rx), 0x0283);
    let a = after_write(0x8283, 0x0283);
    assert_eq!(a & 0x8000, 0);
    assert_eq!(a & 0x80, 0x80);
}

#[test]
fn status_codes() {
    assert_eq!(EndpointStatus::Disabled.code(), 0);
    assert_eq!(EndpointStatus::Stall.code(), 1);
    assert_eq!(EndpointStatus::Nak.code(), 2);
    assert_eq!(EndpointStatus::Valid.code(), 3);
}

struct Registers {
    ep: [Cell<u32>; 8],
}

impl UsbExt for Registers {
    fn read_endpoint(&self, ep: usize) -> u32 {
        self.ep[ep].get()
    }

    fn write_endpoint(&self, ep: usize, bits: u32) {
        self.ep[ep].set(after_write(self.ep[ep].get(), bits));
    }
}

fn registers(ep0: u32, ep1: u32) -> Registers {
    let r = Registers { ep: Default::default() };
    r.ep[0].set(ep0);
    r.ep[1].set(ep1);
    r
}

#[test]
fn usb_ext_sets_endpoint_zero_valid() {
    let r = registers(0x8223, 0x0000);
    r.set_ep_tx_status_valid();
    assert_eq!(r.ep[0].get(), 0x8233);
    r.set_ep_rx_status_valid_dtog();
    assert_eq!(r.ep[0].get(), 0xf233);
    assert_eq!(r.ep[1].get(), 0);
}

#[test]
fn usb_ext_clears_flags_per_endpoint() {
    let r = registers(0x8080, 0x8081);
    r.clear_tx_ep_ctr();
    assert_eq!(r.ep[0].get(), 0x8000);
    r.clear_rx_ep1_ctr();
    assert_eq!(r.ep[1].get(), 0x0081);
    r.clear_tx_ep1_ctr();
    assert_eq!(r.ep[1].get(), 0x0001);
    r.clear_rx_ep_ctr();
    assert_eq!(r.ep[0].get(), 0x0000);
}

#[test]
fn usb_ext_endpoint_one_tx_valid_with_toggle() {
    let r = registers(0, 0x0001);
    r.set_ep1_tx_status_valid_dtog();
    assert_eq!(r.ep[1].get(), 0x0071);
    r.set_ep_tx_status_valid_dtog();
    r.set_ep_rx_status_valid();
    assert_eq!(r.ep[0].get(), 0x3070);
}
