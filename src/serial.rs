//! Non-blocking byte transport with one transfer in each direction.
//!
//! The receive side hands a buffer to the hardware as a [`Transfer`], which
//! the hardware fills byte by byte; the transfer completes when the buffer is
//! full and only then gives the buffer back. The send side holds at most one
//! outgoing frame and feeds it out one byte per transmit interrupt.

use vstd::prelude::*;
use crate::protocol::{encode_frame, frame, MsgType, MAX_PAYLOAD};

verus! {

/// The operation has not completed yet; try again on the next interrupt.
#[derive(Clone, Copy, Debug, PartialEq, Eq, Structural)]
pub struct WouldBlock;

/// A receive in progress: the buffer and how many bytes have arrived in it.
#[derive(Debug)]
pub struct Transfer {
    pub buffer: Vec<u8>,
    pub received: usize,
}

impl Transfer {
    pub open spec fn wf(&self) -> bool {
        self.received <= self.buffer@.len()
    }

    /// Every byte that the buffer has room for has arrived.
    pub open spec fn is_complete(&self) -> bool {
        self.received == self.buffer@.len()
    }

    /// Stores one byte that arrived, as the hardware does; a byte that finds
    /// the buffer full is dropped and `false` returned.
    pub fn store(&mut self, byte: u8) -> (r: bool)
        requires
            old(self).wf(),
        ensures
            final(self).wf(),
            r == !old(self).is_complete(),
            r ==> final(self).buffer@ == old(self).buffer@.update(old(self).received as int, byte)
                && final(self).received == old(self).received + 1,
            !r ==> *final(self) == *old(self),
    {
        if self.received < self.buffer.len() {
            self.buffer.set(self.received, byte);
            self.received = self.received + 1;
            true
        } else {
            false
        }
    }

    /// `Ok` once the whole buffer has arrived, `WouldBlock` before.
    pub fn poll(&self) -> (r: Result<(), WouldBlock>)
        requires
            self.wf(),
        ensures
            r is Ok <==> self.is_complete(),
    {
        if self.received == self.buffer.len() {
            Ok(())
        } else {
            Err(WouldBlock)
        }
    }

    /// Gives the filled buffer back.
    pub fn finish(self) -> (r: Vec<u8>)
        requires
            self.is_complete(),
        ensures
            r@ == self.buffer@,
    {
        self.buffer
    }
}

/// The send side of the link: the frame being sent and how much of it has gone out.
#[derive(Debug)]
pub struct Serial {
    pub tx_frame: Vec<u8>,
    pub tx_sent: usize,
}

/// What a call of [`Serial::send`] does: with a frame still going out it
/// reports `WouldBlock` and changes nothing, otherwise it takes the new frame.
pub open spec fn send_outcome(
    before: Serial,
    after: Serial,
    r: Result<(), WouldBlock>,
    channel: u8,
    op: u8,
    payload: Seq<u8>,
) -> bool {
    if before.tx_busy() {
        r is Err && after == before
    } else {
        &&& r is Ok
        &&& after.tx_frame@ == frame(channel, op, payload)
        &&& after.tx_sent == 0
    }
}

impl Serial {
    pub open spec fn wf(&self) -> bool {
        self.tx_sent <= self.tx_frame@.len()
    }

    /// A frame is still going out.
    pub open spec fn tx_busy(&self) -> bool {
        self.tx_sent < self.tx_frame@.len()
    }

    /// A link with nothing to send.
    pub fn new() -> (r: Serial)
        ensures
            r.wf(),
            !r.tx_busy(),
    {
        Serial { tx_frame: Vec::new(), tx_sent: 0 }
    }

    /// Queues the frame for `channel`, `op` and `payload`; `WouldBlock` while
    /// the previous frame is still going out.
    pub fn send(&mut self, channel: MsgType, op: u8, payload: &[u8]) -> (r: Result<(), WouldBlock>)
        requires
            old(self).wf(),
            payload@.len() <= MAX_PAYLOAD,
        ensures
            final(self).wf(),
            send_outcome(*old(self), *final(self), r, channel.spec_byte(), op, payload@),
            r is Ok ==> final(self).tx_busy(),
    {
        if self.tx_sent < self.tx_frame.len() {
            return Err(WouldBlock);
        }
        self.tx_frame = encode_frame(channel, op, payload);
        self.tx_sent = 0;
        Ok(())
    }

    /// Transmit interrupt: the next byte to put on the line, or `None` once the
    /// frame has gone out.
    pub fn tx_interrupt(&mut self) -> (r: Option<u8>)
        requires
            old(self).wf(),
        ensures
            final(self).wf(),
            final(self).tx_frame == old(self).tx_frame,
            old(self).tx_busy() ==> r == Some(old(self).tx_frame@[old(self).tx_sent as int])
                && final(self).tx_sent == old(self).tx_sent + 1,
            !old(self).tx_busy() ==> r is None && *final(self) == *old(self),
    {
        if self.tx_sent < self.tx_frame.len() {
            let b = self.tx_frame[self.tx_sent];
            self.tx_sent = self.tx_sent + 1;
            Some(b)
        } else {
            None
        }
    }

    /// Arms a receive into `buffer`.
    pub fn receive(&mut self, buffer: Vec<u8>) -> (r: Transfer)
        ensures
            *final(self) == *old(self),
            r.buffer@ == buffer@,
            r.received == 0,
            r.wf(),
    {
        Transfer { buffer, received: 0 }
    }
}

} // verus!
