//! Keyboard-controller glue: the USB endpoint status register transforms, a
//! byte transport with one transfer in each direction, the LED link framing,
//! and the LED controller that drives them.

pub mod endpoint;
pub mod keys;
pub mod led;
pub mod protocol;
pub mod serial;
