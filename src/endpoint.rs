//! Bit-level transforms for a USB full-speed endpoint control register.
//!
//! The register mixes three kinds of bits:
//! - read/write bits (address, kind, type, setup), written as they are;
//! - toggle bits (both status fields and both data-toggle bits), which flip
//!   where a `1` is written and stay where a `0` is written;
//! - the sticky transfer-complete flags `CTR_RX` and `CTR_TX`, which are
//!   cleared by writing `0` and left alone by writing `1`.
//!
//! Each function here takes the value read from the register and returns the
//! value to write back; where that value comes from and goes to is up to an
//! implementation of [`UsbExt`].

use vstd::prelude::*;

verus! {

/// Bits that a read-modify-write carries over unchanged:
/// `CTR_RX | SETUP | EP_TYPE | EP_KIND | CTR_TX | EA`.
pub const EPREG_MASK: u32 = 0x8F8F;
/// The two transmit status bits.
pub const STAT_TX: u32 = 0x0030;
/// The two receive status bits.
pub const STAT_RX: u32 = 0x3000;
/// Transmit data toggle.
pub const DTOG_TX: u32 = 0x0040;
/// Receive data toggle.
pub const DTOG_RX: u32 = 0x4000;
/// Sticky "transmit complete" flag.
pub const CTR_TX: u32 = 0x0080;
/// Sticky "receive complete" flag.
pub const CTR_RX: u32 = 0x8000;
/// Every bit that flips when written as `1`.
pub const TOGGLE_BITS: u32 = 0x7070;
/// Both sticky flags.
pub const CTR_BITS: u32 = 0x8080;
/// Plain read/write bits.
pub const RW_BITS: u32 = 0x0F0F;

/// Position of the transmit status field.
pub const TX_SHIFT: u32 = 4;
/// Position of the receive status field.
pub const RX_SHIFT: u32 = 12;

/// Register contents after the hardware takes the write `w` while holding
/// `current`: toggle bits flip where `w` is `1`, sticky flags are cleared where
/// `w` is `0`, and every other bit takes the value written.
pub open spec fn register_after_write(current: u32, w: u32) -> u32 {
    ((current ^ w) & TOGGLE_BITS) | (current & w & CTR_BITS) | (w & !(TOGGLE_BITS | CTR_BITS))
}

/// The transmit status code (0 to 3) held in a register value.
pub open spec fn tx_status_of(reg: u32) -> u32 {
    (reg >> 4u32) & 3u32
}

/// The receive status code (0 to 3) held in a register value.
pub open spec fn rx_status_of(reg: u32) -> u32 {
    (reg >> 12u32) & 3u32
}

/// Logical state of one direction of an endpoint.
#[derive(Clone, Copy, Debug, PartialEq, Eq, Structural)]
pub enum EndpointStatus {
    Disabled,
    Stall,
    Nak,
    Valid,
}

impl EndpointStatus {
    /// The two-bit hardware code of the state.
    pub open spec fn spec_code(self) -> u32 {
        match self {
            EndpointStatus::Disabled => 0,
            EndpointStatus::Stall => 1,
            EndpointStatus::Nak => 2,
            EndpointStatus::Valid => 3,
        }
    }

    pub fn code(self) -> (r: u32)
        ensures
            r == self.spec_code(),
            r < 4,
    {
        match self {
            EndpointStatus::Disabled => 0,
            EndpointStatus::Stall => 1,
            EndpointStatus::Nak => 2,
            EndpointStatus::Valid => 3,
        }
    }
}

/// The value that moves the toggle bits selected by `mask` from `current` to
/// `target`: a bit is written as `1` exactly where the two differ.
pub open spec fn toggle_write(current: u32, target: u32, mask: u32) -> u32 {
    (current ^ target) & mask
}

/// Computes the write value that flips the bits of `mask` in `current` so that
/// they read as in `target`.
pub fn compute_toggle_write(current: u32, target: u32, mask: u32) -> (r: u32)
    ensures
        r == toggle_write(current, target, mask),
{
    (current ^ target) & mask
}

/// Toggle-bit algebra: flipping `current` at the `1` bits of the computed
/// write value leaves exactly `target` in the masked field.
pub proof fn lemma_toggle_write_reaches_target(current: u32, target: u32, mask: u32)
    ensures
        (current ^ toggle_write(current, target, mask)) & mask == target & mask,
        toggle_write(current, target, mask) & !mask == 0,
{
    assert((current ^ ((current ^ target) & mask)) & mask == target & mask) by (bit_vector);
    assert(((current ^ target) & mask) & !mask == 0) by (bit_vector);
}

/// Direction of an endpoint.
#[derive(Clone, Copy, Debug, PartialEq, Eq, Structural)]
pub enum Direction {
    Tx,
    Rx,
}

impl Direction {
    /// The two status bits of this direction.
    pub open spec fn stat_field(self) -> u32 {
        match self {
            Direction::Tx => STAT_TX,
            Direction::Rx => STAT_RX,
        }
    }

    /// Position of this direction's status field.
    pub open spec fn shift(self) -> u32 {
        match self {
            Direction::Tx => TX_SHIFT,
            Direction::Rx => RX_SHIFT,
        }
    }

    /// This direction's data-toggle bit.
    pub open spec fn dtog_bit(self) -> u32 {
        match self {
            Direction::Tx => DTOG_TX,
            Direction::Rx => DTOG_RX,
        }
    }

    /// This direction's sticky complete flag.
    pub open spec fn ctr_bit(self) -> u32 {
        match self {
            Direction::Tx => CTR_TX,
            Direction::Rx => CTR_RX,
        }
    }

    /// The status code of this direction held in a register value.
    pub open spec fn status_of(self, reg: u32) -> u32 {
        match self {
            Direction::Tx => tx_status_of(reg),
            Direction::Rx => rx_status_of(reg),
        }
    }

    pub open spec fn other(self) -> Direction {
        match self {
            Direction::Tx => Direction::Rx,
            Direction::Rx => Direction::Tx,
        }
    }
}

/// The value written to move the status of `dir` to the code `code`: the
/// preserved bits as read, the status field toggled from its current value to
/// `code`, the data toggle flipped when asked, and `1` in both sticky flags.
pub open spec fn status_write_value(current: u32, dir: Direction, code: u32, toggle_data: bool) -> u32 {
    (current & EPREG_MASK) | toggle_write(current, code << dir.shift(), dir.stat_field()) | (
    if toggle_data {
        dir.dtog_bit()
    } else {
        0
    }) | CTR_RX | CTR_TX
}

/// The value written to clear the sticky flag of `dir`: the preserved bits as
/// read, `0` in that flag, `1` in the other one, and `0` in every toggle bit.
pub open spec fn clear_ctr_value(current: u32, dir: Direction) -> u32 {
    (current & EPREG_MASK & !dir.ctr_bit()) | dir.other().ctr_bit()
}

proof fn lemma_tx_status_write(current: u32, code: u32, dtog: u32)
    requires
        code < 4,
        dtog == 0 || dtog == DTOG_TX,
    ensures
        ({
            let w = (current & EPREG_MASK) | ((current ^ (code << TX_SHIFT)) & STAT_TX) | dtog
                | CTR_RX | CTR_TX;
            let after = register_after_write(current, w);
            &&& tx_status_of(after) == code
            &&& rx_status_of(after) == rx_status_of(current)
            &&& after & CTR_BITS == current & CTR_BITS
            &&& w & CTR_BITS == CTR_BITS
            &&& after & RW_BITS == current & RW_BITS
            &&& after & DTOG_TX == (current & DTOG_TX) ^ dtog
            &&& after & DTOG_RX == current & DTOG_RX
        }),
{
    let w = (current & EPREG_MASK) | ((current ^ (code << TX_SHIFT)) & STAT_TX) | dtog | CTR_RX
        | CTR_TX;
    let after = ((current ^ w) & TOGGLE_BITS) | (current & w & CTR_BITS) | (w & !(TOGGLE_BITS
        | CTR_BITS));
    assert(tx_status_of(after) == code) by (bit_vector)
        requires
            code < 4,
            w == (current & 0x8F8F) | ((current ^ (code << 4u32)) & 0x30) | dtog | 0x8000 | 0x80,
            dtog == 0 || dtog == 0x40,
            after == ((current ^ w) & 0x7070) | (current & w & 0x8080) | (w & !(0x7070u32
                | 0x8080)),
    ;
    assert(rx_status_of(after) == rx_status_of(current) && after & 0x8080 == current & 0x8080
        && w & 0x8080 == 0x8080 && after & 0x0F0F == current & 0x0F0F && after & 0x40 == (current
        & 0x40) ^ dtog && after & 0x4000 == current & 0x4000) by (bit_vector)
        requires
            w == (current & 0x8F8F) | ((current ^ (code << 4u32)) & 0x30) | dtog | 0x8000 | 0x80,
            dtog == 0 || dtog == 0x40,
            after == ((current ^ w) & 0x7070) | (current & w & 0x8080) | (w & !(0x7070u32
                | 0x8080)),
    ;
}

proof fn lemma_rx_status_write(current: u32, code: u32, dtog: u32)
    requires
        code < 4,
        dtog == 0 || dtog == DTOG_RX,
    ensures
        ({
            let w = (current & EPREG_MASK) | ((current ^ (code << RX_SHIFT)) & STAT_RX) | dtog
                | CTR_RX | CTR_TX;
            let after = register_after_write(current, w);
            &&& rx_status_of(after) == code
            &&& tx_status_of(after) == tx_status_of(current)
            &&& after & CTR_BITS == current & CTR_BITS
            &&& w & CTR_BITS == CTR_BITS
            &&& after & RW_BITS == current & RW_BITS
            &&& after & DTOG_RX == (current & DTOG_RX) ^ dtog
            &&& after & DTOG_TX == current & DTOG_TX
        }),
{
    let w = (current & EPREG_MASK) | ((current ^ (code << RX_SHIFT)) & STAT_RX) | dtog | CTR_RX
        | CTR_TX;
    let after = ((current ^ w) & TOGGLE_BITS) | (current & w & CTR_BITS) | (w & !(TOGGLE_BITS
        | CTR_BITS));
    assert(rx_status_of(after) == code) by (bit_vector)
        requires
            code < 4,
            w == (current & 0x8F8F) | ((current ^ (code << 12u32)) & 0x3000) | dtog | 0x8000
                | 0x80,
            dtog == 0 || dtog == 0x4000,
            after == ((current ^ w) & 0x7070) | (current & w & 0x8080) | (w & !(0x7070u32
                | 0x8080)),
    ;
    assert(tx_status_of(after) == tx_status_of(current) && after & 0x8080 == current & 0x8080
        && w & 0x8080 == 0x8080 && after & 0x0F0F == current & 0x0F0F && after & 0x4000 == (
    current & 0x4000) ^ dtog && after & 0x40 == current & 0x40) by (bit_vector)
        requires
            w == (current & 0x8F8F) | ((current ^ (code << 12u32)) & 0x3000) | dtog | 0x8000
                | 0x80,
            dtog == 0 || dtog == 0x4000,
            after == ((current ^ w) & 0x7070) | (current & w & 0x8080) | (w & !(0x7070u32
                | 0x8080)),
    ;
}

/// Computes the value to write so that the status of `dir` becomes `status`,
/// flipping that direction's data toggle when `toggle_data` is set. The write
/// leaves the other direction's status and data toggle, both sticky flags and
/// every read/write bit as they were.
pub fn status_write(current: u32, dir: Direction, status: EndpointStatus, toggle_data: bool) -> (r: u32)
    ensures
        r == status_write_value(current, dir, status.spec_code(), toggle_data),
        r & 0xFFFF_0000 == 0,
        dir.status_of(register_after_write(current, r)) == status.spec_code(),
        dir.other().status_of(register_after_write(current, r)) == dir.other().status_of(current),
        r & CTR_BITS == CTR_BITS,
        register_after_write(current, r) & CTR_BITS == current & CTR_BITS,
        register_after_write(current, r) & RW_BITS == current & RW_BITS,
        register_after_write(current, r) & dir.dtog_bit() == (current & dir.dtog_bit()) ^ (
        if toggle_data {
            dir.dtog_bit()
        } else {
            0
        }),
        register_after_write(current, r) & dir.other().dtog_bit() == current & dir.other().dtog_bit(),
{
    let code = status.code();
    let (field, target, dtog) = match dir {
        Direction::Tx => (STAT_TX, code << TX_SHIFT, DTOG_TX),
        Direction::Rx => (STAT_RX, code << RX_SHIFT, DTOG_RX),
    };
    let toggles = compute_toggle_write(current, target, field);
    let data = if toggle_data {
        dtog
    } else {
        0
    };
    let r = (current & EPREG_MASK) | toggles | data | CTR_RX | CTR_TX;
    proof {
        match dir {
            Direction::Tx => lemma_tx_status_write(current, code, data),
            Direction::Rx => lemma_rx_status_write(current, code, data),
        }
        assert(r & 0xFFFF_0000 == 0) by (bit_vector)
            requires
                r == (current & 0x8F8F) | toggles | data | 0x8000 | 0x80,
                toggles == (current ^ target) & field,
                field == 0x30 || field == 0x3000,
                data == 0 || data == 0x40 || data == 0x4000,
        ;
    }
    r
}

/// Computes the value to write so that the sticky complete flag of `dir` is
/// cleared. The other flag is written as `1`, so it stays as it was, and both
/// status fields, both data toggles and every read/write bit are kept.
pub fn clear_ctr_write(current: u32, dir: Direction) -> (r: u32)
    ensures
        r == clear_ctr_value(current, dir),
        r & 0xFFFF_0000 == 0,
        register_after_write(current, r) & dir.ctr_bit() == 0,
        register_after_write(current, r) & dir.other().ctr_bit() == current & dir.other().ctr_bit(),
        r & dir.other().ctr_bit() == dir.other().ctr_bit(),
        register_after_write(current, r) & TOGGLE_BITS == current & TOGGLE_BITS,
        register_after_write(current, r) & RW_BITS == current & RW_BITS,
        tx_status_of(register_after_write(current, r)) == tx_status_of(current),
        rx_status_of(register_after_write(current, r)) == rx_status_of(current),
{
    let (flag, keep) = match dir {
        Direction::Tx => (CTR_TX, CTR_RX),
        Direction::Rx => (CTR_RX, CTR_TX),
    };
    let r = (current & EPREG_MASK & !flag) | keep;
    proof {
        let after = register_after_write(current, r);
        assert(after & flag == 0 && after & keep == current & keep && r & keep == keep && after
            & 0x7070 == current & 0x7070 && after & 0x0F0F == current & 0x0F0F && tx_status_of(
            after) == tx_status_of(current) && rx_status_of(after) == rx_status_of(current) && r
            & 0xFFFF_0000 == 0)
            by (bit_vector)
            requires
                (flag == 0x80 && keep == 0x8000) || (flag == 0x8000 && keep == 0x80),
                r == (current & 0x8F8F & !flag) | keep,
                after == ((current ^ r) & 0x7070) | (current & r & 0x8080) | (r & !(0x7070u32
                    | 0x8080)),
        ;
    }
    r
}

/// Endpoint-register operations of a USB device peripheral.
///
/// An implementation supplies raw access to the endpoint registers; the
/// provided methods perform one read-modify-write each, computing the value
/// written with [`status_write`] or [`clear_ctr_write`]. The sequence is not
/// atomic: callers keep other contexts from writing the same register
/// meanwhile.
pub trait UsbExt {
    /// Reads the control register of endpoint `ep`.
    fn read_endpoint(&self, ep: usize) -> u32;

    /// Writes `bits` to the control register of endpoint `ep`.
    fn write_endpoint(&self, ep: usize, bits: u32);

    /// Sets the status of one direction of endpoint `ep`.
    fn set_status(&self, ep: usize, dir: Direction, status: EndpointStatus, toggle_data: bool) {
        let current = self.read_endpoint(ep);
        self.write_endpoint(ep, status_write(current, dir, status, toggle_data));
    }

    /// Clears the sticky complete flag of one direction of endpoint `ep`.
    fn clear_ctr(&self, ep: usize, dir: Direction) {
        let current = self.read_endpoint(ep);
        self.write_endpoint(ep, clear_ctr_write(current, dir));
    }

    fn clear_tx_ep_ctr(&self) {
        self.clear_ctr(0, Direction::Tx);
    }

    fn clear_rx_ep_ctr(&self) {
        self.clear_ctr(0, Direction::Rx);
    }

    fn clear_tx_ep1_ctr(&self) {
        self.clear_ctr(1, Direction::Tx);
    }

    fn clear_rx_ep1_ctr(&self) {
        self.clear_ctr(1, Direction::Rx);
    }

    fn set_ep_tx_status_valid(&self) {
        self.set_status(0, Direction::Tx, EndpointStatus::Valid, false);
    }

    fn set_ep_tx_status_valid_dtog(&self) {
        self.set_status(0, Direction::Tx, EndpointStatus::Valid, true);
    }

    fn set_ep_rx_status_valid(&self) {
        self.set_status(0, Direction::Rx, EndpointStatus::Valid, false);
    }

    fn set_ep_rx_status_valid_dtog(&self) {
        self.set_status(0, Direction::Rx, EndpointStatus::Valid, true);
    }

    fn set_ep1_tx_status_valid_dtog(&self) {
        self.set_status(1, Direction::Tx, EndpointStatus::Valid, true);
    }
}

} // verus!
