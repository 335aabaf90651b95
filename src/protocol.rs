//! Framing of the link to the LED controller.
//!
//! A frame is `[channel, length, operation, payload...]`, where `length`
//! counts the operation byte and the payload. There is no checksum and no
//! escaping: a receive buffer holds exactly one frame.

use vstd::prelude::*;

verus! {

/// Channel of a frame.
#[derive(Clone, Copy, Debug, PartialEq, Eq, Structural)]
pub enum MsgType {
    Reserved,
    Error,
    System,
    Ack,
    Reboot,
    Macro,
    Ble,
    Keyboard,
    KeyState,
    Led,
    /// A channel byte with no name here.
    Other(u8),
}

/// The channel named by a byte.
pub open spec fn msg_type_of(b: u8) -> MsgType {
    if b == 0 {
        MsgType::Reserved
    } else if b == 1 {
        MsgType::Error
    } else if b == 2 {
        MsgType::System
    } else if b == 3 {
        MsgType::Ack
    } else if b == 4 {
        MsgType::Reboot
    } else if b == 5 {
        MsgType::Macro
    } else if b == 6 {
        MsgType::Ble
    } else if b == 7 {
        MsgType::Keyboard
    } else if b == 8 {
        MsgType::KeyState
    } else if b == 9 {
        MsgType::Led
    } else {
        MsgType::Other(b)
    }
}

impl MsgType {
    /// The byte that stands for the channel on the wire.
    pub open spec fn spec_byte(self) -> u8 {
        match self {
            MsgType::Reserved => 0,
            MsgType::Error => 1,
            MsgType::System => 2,
            MsgType::Ack => 3,
            MsgType::Reboot => 4,
            MsgType::Macro => 5,
            MsgType::Ble => 6,
            MsgType::Keyboard => 7,
            MsgType::KeyState => 8,
            MsgType::Led => 9,
            MsgType::Other(b) => b,
        }
    }

    /// A channel is well formed unless it is `Other` of a byte that has a name.
    pub open spec fn wf(self) -> bool {
        match self {
            MsgType::Other(b) => b > 9,
            _ => true,
        }
    }

    pub fn to_byte(self) -> (r: u8)
        ensures
            r == self.spec_byte(),
    {
        match self {
            MsgType::Reserved => 0,
            MsgType::Error => 1,
            MsgType::System => 2,
            MsgType::Ack => 3,
            MsgType::Reboot => 4,
            MsgType::Macro => 5,
            MsgType::Ble => 6,
            MsgType::Keyboard => 7,
            MsgType::KeyState => 8,
            MsgType::Led => 9,
            MsgType::Other(b) => b,
        }
    }

    pub fn from_byte(b: u8) -> (r: MsgType)
        ensures
            r == msg_type_of(b),
            r.wf(),
            r.spec_byte() == b,
    {
        match b {
            0 => MsgType::Reserved,
            1 => MsgType::Error,
            2 => MsgType::System,
            3 => MsgType::Ack,
            4 => MsgType::Reboot,
            5 => MsgType::Macro,
            6 => MsgType::Ble,
            7 => MsgType::Keyboard,
            8 => MsgType::KeyState,
            9 => MsgType::Led,
            _ => MsgType::Other(b),
        }
    }
}

/// A well-formed channel comes back from its byte.
pub proof fn lemma_msg_type_round_trip(t: MsgType)
    requires
        t.wf(),
    ensures
        msg_type_of(t.spec_byte()) == t,
{
}

/// Operation codes of the `Led` channel.
#[derive(Clone, Copy, Debug, PartialEq, Eq, Structural)]
pub enum LedOp {
    ThemeMode,
    ConfigCmd,
    Key,
    Music,
    GetThemeId,
    SetIndividualKeys,
    AckThemeMode,
    AckConfigCmd,
    AckSetIndividualKeys,
    /// An operation byte with no name here.
    Unknown(u8),
}

/// The `Led` operation named by a byte.
pub open spec fn led_op_of(b: u8) -> LedOp {
    if b == 0x01 {
        LedOp::ThemeMode
    } else if b == 0x02 {
        LedOp::ConfigCmd
    } else if b == 0x03 {
        LedOp::Key
    } else if b == 0x04 {
        LedOp::Music
    } else if b == 0x05 {
        LedOp::GetThemeId
    } else if b == 0x06 {
        LedOp::SetIndividualKeys
    } else if b == 0x81 {
        LedOp::AckThemeMode
    } else if b == 0x82 {
        LedOp::AckConfigCmd
    } else if b == 0x86 {
        LedOp::AckSetIndividualKeys
    } else {
        LedOp::Unknown(b)
    }
}

impl LedOp {
    /// The operation byte; an acknowledgement has the top bit of what it acknowledges set.
    pub open spec fn spec_byte(self) -> u8 {
        match self {
            LedOp::ThemeMode => 0x01,
            LedOp::ConfigCmd => 0x02,
            LedOp::Key => 0x03,
            LedOp::Music => 0x04,
            LedOp::GetThemeId => 0x05,
            LedOp::SetIndividualKeys => 0x06,
            LedOp::AckThemeMode => 0x81,
            LedOp::AckConfigCmd => 0x82,
            LedOp::AckSetIndividualKeys => 0x86,
            LedOp::Unknown(b) => b,
        }
    }

    pub fn to_byte(self) -> (r: u8)
        ensures
            r == self.spec_byte(),
    {
        match self {
            LedOp::ThemeMode => 0x01,
            LedOp::ConfigCmd => 0x02,
            LedOp::Key => 0x03,
            LedOp::Music => 0x04,
            LedOp::GetThemeId => 0x05,
            LedOp::SetIndividualKeys => 0x06,
            LedOp::AckThemeMode => 0x81,
            LedOp::AckConfigCmd => 0x82,
            LedOp::AckSetIndividualKeys => 0x86,
            LedOp::Unknown(b) => b,
        }
    }

    pub fn from_byte(b: u8) -> (r: LedOp)
        ensures
            r == led_op_of(b),
            r.spec_byte() == b,
    {
        match b {
            0x01 => LedOp::ThemeMode,
            0x02 => LedOp::ConfigCmd,
            0x03 => LedOp::Key,
            0x04 => LedOp::Music,
            0x05 => LedOp::GetThemeId,
            0x06 => LedOp::SetIndividualKeys,
            0x81 => LedOp::AckThemeMode,
            0x82 => LedOp::AckConfigCmd,
            0x86 => LedOp::AckSetIndividualKeys,
            _ => LedOp::Unknown(b),
        }
    }
}

/// Longest payload a frame can carry: the length byte also counts the operation.
pub const MAX_PAYLOAD: usize = 254;

/// The bytes of the frame for `channel`, `op` and `payload`.
pub open spec fn frame(channel: u8, op: u8, payload: Seq<u8>) -> Seq<u8> {
    seq![channel, (payload.len() + 1) as u8, op] + payload
}

/// Whether `buf` holds a frame: a header of three bytes, a length of at least
/// one, and as many bytes after the operation as the length announces.
pub open spec fn is_frame(buf: Seq<u8>) -> bool {
    &&& buf.len() >= 3
    &&& buf[1] >= 1
    &&& 2 + buf[1] <= buf.len()
}

/// The payload that the header of `buf` delimits.
pub open spec fn frame_payload(buf: Seq<u8>) -> Seq<u8> {
    buf.subrange(3, 2 + buf[1])
}

/// Channel byte, operation and payload of `buf`, where it holds a frame.
pub open spec fn decoded(buf: Seq<u8>) -> Option<(u8, u8, Seq<u8>)> {
    if is_frame(buf) {
        Some((buf[0], buf[2], frame_payload(buf)))
    } else {
        None
    }
}

/// One received frame.
#[derive(Debug)]
pub struct Message {
    pub msg_type: MsgType,
    pub operation: u8,
    pub data: Vec<u8>,
}

/// Encodes the frame for `channel`, `op` and `payload`.
pub fn encode_frame(channel: MsgType, op: u8, payload: &[u8]) -> (r: Vec<u8>)
    requires
        payload@.len() <= MAX_PAYLOAD,
    ensures
        r@ == frame(channel.spec_byte(), op, payload@),
{
    let mut r: Vec<u8> = Vec::with_capacity(payload.len() + 3);
    r.push(channel.to_byte());
    r.push((payload.len() + 1) as u8);
    r.push(op);
    let mut i: usize = 0;
    while i < payload.len()
        invariant
            i <= payload@.len(),
            r@ == seq![channel.spec_byte(), (payload@.len() + 1) as u8, op] + payload@.subrange(0, i as int),
        decreases payload@.len() - i,
    {
        r.push(payload[i]);
        i = i + 1;
        assert(payload@.subrange(0, i as int) == payload@.subrange(0, i - 1) + seq![payload@[i - 1]]);
    }
    assert(payload@.subrange(0, i as int) == payload@);
    r
}

/// Decodes the frame held in `buffer`; `None` where the header does not fit the buffer.
pub fn decode_frame(buffer: &[u8]) -> (r: Option<Message>)
    ensures
        r.is_some() <==> is_frame(buffer@),
        r.is_some() ==> {
            let m = r.unwrap();
            &&& m.msg_type == msg_type_of(buffer@[0])
            &&& m.operation == buffer@[2]
            &&& m.data@ == frame_payload(buffer@)
        },
{
    if buffer.len() < 3 {
        return None;
    }
    let length = buffer[1] as usize;
    if length < 1 || 2 + length > buffer.len() {
        return None;
    }
    let end = 2 + length;
    let mut data: Vec<u8> = Vec::with_capacity(length - 1);
    let mut i: usize = 3;
    while i < end
        invariant
            3 <= i <= end,
            end <= buffer@.len(),
            end == 2 + buffer@[1],
            data@ == buffer@.subrange(3, i as int),
        decreases end - i,
    {
        data.push(buffer[i]);
        i = i + 1;
        assert(buffer@.subrange(3, i as int) == buffer@.subrange(3, i - 1) + seq![buffer@[i - 1]]);
    }
    Some(Message { msg_type: MsgType::from_byte(buffer[0]), operation: buffer[2], data })
}

/// Frame round trip: decoding an encoded frame gives back its channel,
/// operation and payload.
pub proof fn lemma_frame_round_trip(channel: u8, op: u8, payload: Seq<u8>)
    requires
        payload.len() <= MAX_PAYLOAD,
    ensures
        decoded(frame(channel, op, payload)) == Some((channel, op, payload)),
{
    let f = frame(channel, op, payload);
    assert(f[1] == payload.len() + 1);
    assert(frame_payload(f) =~= payload);
}

} // verus!
