//! The LED controller: commands to the LED microcontroller, the indicator
//! line, and the receive path that keeps one buffer armed at all times.

use vstd::prelude::*;
use crate::keys::{
    packed_bits, packed_len, to_packed_bits, KEY_A, KEY_B, KEY_EQUAL, KEY_ESCAPE, KEY_MINUS,
    KEY_N0, KEY_N1, KEY_N2, KEY_N3, KEY_N4,
};
use crate::protocol::{decode_frame, decoded, led_op_of, msg_type_of, LedOp, Message, MsgType, MAX_PAYLOAD};
use crate::serial::{send_outcome, Serial, Transfer, WouldBlock};

verus! {

/// How a key light is driven.
#[derive(Clone, Copy, Debug, PartialEq, Eq, Structural)]
pub enum LedMode {
    Off,
    On,
    Flash,
}

impl LedMode {
    pub open spec fn spec_byte(self) -> u8 {
        match self {
            LedMode::Off => 0,
            LedMode::On => 1,
            LedMode::Flash => 2,
        }
    }

    pub fn to_byte(self) -> (r: u8)
        ensures
            r == self.spec_byte(),
    {
        match self {
            LedMode::Off => 0,
            LedMode::On => 1,
            LedMode::Flash => 2,
        }
    }
}

/// State of the Bluetooth connection.
#[derive(Clone, Copy, Debug, PartialEq, Eq, Structural)]
pub enum BluetoothMode {
    Unknown,
    Ble,
    Legacy,
}

/// Colour shown for a Bluetooth connection state: blue while unknown, green
/// for low energy, yellow for legacy.
pub open spec fn mode_color(mode: BluetoothMode) -> (u8, u8, u8) {
    match mode {
        BluetoothMode::Unknown => (0x00, 0x00, 0xff),
        BluetoothMode::Ble => (0x00, 0xff, 0x00),
        BluetoothMode::Legacy => (0xff, 0xff, 0x00),
    }
}

/// Magic byte that opens a per-key colour payload.
pub const KEYS_MAGIC: u8 = 0xca;
/// Number of key records in the Bluetooth status payload.
pub const STATUS_RECORDS: u8 = 0x0a;
/// Index of the record whose colour shows the connection state.
pub const STATUS_RECORD: u8 = 8;

/// One key record: key index, red, green, blue and light mode.
pub open spec fn key_record(key: u8, r: u8, g: u8, b: u8, mode: LedMode) -> Seq<u8> {
    seq![key, r, g, b, mode.spec_byte()]
}

/// The per-key colour payload that shows the Bluetooth connection state.
pub open spec fn bluetooth_payload(mode: BluetoothMode) -> Seq<u8> {
    let c = mode_color(mode);
    seq![KEYS_MAGIC, STATUS_RECORDS]
        + key_record(KEY_ESCAPE, 0xff, 0xff, 0x00, LedMode::On)
        + key_record(KEY_N1, 0xff, 0x00, 0x00, LedMode::Flash)
        + key_record(KEY_N2, 0xff, 0x00, 0x00, LedMode::On)
        + key_record(KEY_N3, 0xff, 0x00, 0x00, LedMode::On)
        + key_record(KEY_N4, 0xff, 0x00, 0x00, LedMode::On)
        + key_record(KEY_EQUAL, 0x00, 0xff, 0x00, LedMode::On)
        + key_record(KEY_B, 0x00, 0xff, 0x00, LedMode::Flash)
        + key_record(KEY_MINUS, 0x00, 0xff, 0x00, LedMode::On)
        + key_record(KEY_N0, c.0, c.1, c.2, LedMode::On)
        + key_record(KEY_A, 0x00, 0xff, 0x00, LedMode::On)
}

/// The Bluetooth status payload announces ten records, and the status record
/// carries the colour of the connection state.
pub proof fn lemma_bluetooth_payload(mode: BluetoothMode)
    ensures
        bluetooth_payload(mode).len() == 2 + 5 * STATUS_RECORDS,
        bluetooth_payload(mode)[1] == 0x0a,
        bluetooth_payload(mode)[2 + 5 * (STATUS_RECORD as int) + 1] == mode_color(mode).0,
        bluetooth_payload(mode)[2 + 5 * (STATUS_RECORD as int) + 2] == mode_color(mode).1,
        bluetooth_payload(mode)[2 + 5 * (STATUS_RECORD as int) + 3] == mode_color(mode).2,
        mode == BluetoothMode::Legacy ==> mode_color(mode) == (0xffu8, 0xffu8, 0x00u8),
        mode == BluetoothMode::Ble ==> mode_color(mode) == (0x00u8, 0xffu8, 0x00u8),
{
}

/// Which setting a configuration command advances.
#[derive(Clone, Copy, Debug, PartialEq, Eq, Structural)]
pub enum ConfigTarget {
    Theme,
    Brightness,
    AnimationSpeed,
}

/// Payload of the configuration command: one byte per setting, in the order
/// theme, animation speed, brightness, with `1` for the one to advance.
pub open spec fn config_payload(target: ConfigTarget) -> Seq<u8> {
    match target {
        ConfigTarget::Theme => seq![1u8, 0u8, 0u8],
        ConfigTarget::Brightness => seq![0u8, 0u8, 1u8],
        ConfigTarget::AnimationSpeed => seq![0u8, 1u8, 0u8],
    }
}

/// Each configuration payload has three bytes of which exactly one is not
/// zero, and payloads for different settings differ.
pub proof fn lemma_config_payloads_one_hot(a: ConfigTarget, b: ConfigTarget)
    ensures
        config_payload(a).len() == 3,
        exists|i: int|
            0 <= i < 3 && config_payload(a)[i] != 0 && forall|j: int|
                0 <= j < 3 && j != i ==> config_payload(a)[j] == 0,
        a != b ==> config_payload(a) != config_payload(b),
{
    let p = config_payload(a);
    let i: int = match a {
        ConfigTarget::Theme => 0,
        ConfigTarget::Brightness => 2,
        ConfigTarget::AnimationSpeed => 1,
    };
    assert(0 <= i < 3 && p[i] != 0 && forall|j: int| 0 <= j < 3 && j != i ==> p[j] == 0);
    if a != b {
        let q = config_payload(b);
        let k: int = match b {
            ConfigTarget::Theme => 0,
            ConfigTarget::Brightness => 2,
            ConfigTarget::AnimationSpeed => 1,
        };
        assert(q[k] != p[k]);
    }
}

/// Payload of the command sent by [`Led::toggle`] from `state`: a bare theme
/// request when the lights are off, theme `0` when they are on.
pub open spec fn toggle_payload(state: bool) -> Seq<u8> {
    if state {
        seq![0u8]
    } else {
        Seq::empty()
    }
}

/// The lights' state after `n` calls of [`Led::toggle`] from `start`: each
/// call flips it.
pub open spec fn toggled(start: bool, n: nat) -> bool
    decreases n,
{
    if n == 0 {
        start
    } else {
        !toggled(start, (n - 1) as nat)
    }
}

/// Toggling alternates indefinitely: starting with the lights off, the toggle
/// numbered `n` (from zero) finds them off and requests the theme when `n` is
/// even, finds them on and selects theme `0` when `n` is odd.
pub proof fn lemma_toggle_alternates(n: nat)
    ensures
        toggled(false, n) == (n % 2 == 1),
        toggle_payload(toggled(false, n)) == (if n % 2 == 0 {
            Seq::<u8>::empty()
        } else {
            seq![0u8]
        }),
    decreases n,
{
    if n > 0 {
        lemma_toggle_alternates((n - 1) as nat);
    }
}

/// What the controller does with a received frame.
#[derive(Clone, Copy, Debug, PartialEq, Eq, Structural)]
pub enum Disposition {
    /// An acknowledgement from the LED controller: accepted, nothing to do.
    Acknowledgement,
    /// Any other frame: reported and dropped.
    Unhandled,
    /// The buffer held no frame.
    Malformed,
}

/// How a frame of channel `msg_type` and operation `op` is handled.
pub open spec fn disposition_of(msg_type: MsgType, op: u8) -> Disposition {
    if msg_type == MsgType::Led && (led_op_of(op) == LedOp::AckThemeMode || led_op_of(op)
        == LedOp::AckConfigCmd || led_op_of(op) == LedOp::AckSetIndividualKeys) {
        Disposition::Acknowledgement
    } else {
        Disposition::Unhandled
    }
}

/// How a filled receive buffer is handled.
pub open spec fn buffer_disposition(buf: Seq<u8>) -> Disposition {
    match decoded(buf) {
        Some(f) => disposition_of(msg_type_of(f.0), f.1),
        None => Disposition::Malformed,
    }
}

/// The LED controller.
#[derive(Debug)]
pub struct Led {
    pub serial: Serial,
    pub rx_transfer: Option<Transfer>,
    /// Level of the indicator line.
    pub indicator: bool,
    /// Whether the lights were turned on by [`Led::toggle`].
    pub state: bool,
}

/// `after` is `before` with a command of operation `op` and `payload` handed
/// to the link on the `Led` channel.
pub open spec fn led_sent(before: Led, after: Led, r: Result<(), WouldBlock>, op: LedOp, payload: Seq<u8>) -> bool {
    &&& send_outcome(before.serial, after.serial, r, MsgType::Led.spec_byte(), op.spec_byte(), payload)
    &&& after.rx_transfer == before.rx_transfer
    &&& after.indicator == before.indicator
    &&& after.state == before.state
}

impl Led {
    /// The link is consistent and a receive transfer is always held.
    pub open spec fn wf(&self) -> bool {
        &&& self.serial.wf()
        &&& self.rx_transfer is Some
        &&& self.rx_transfer.unwrap().wf()
    }

    /// A controller with a receive armed into `rx_buffer`, the indicator low
    /// and the lights off.
    pub fn new(serial: Serial, rx_buffer: Vec<u8>) -> (r: Led)
        requires
            serial.wf(),
        ensures
            r.wf(),
            r.serial == serial,
            r.rx_transfer.unwrap().buffer@ == rx_buffer@,
            r.rx_transfer.unwrap().received == 0,
            !r.indicator,
            !r.state,
    {
        let mut serial = serial;
        let rx_transfer = serial.receive(rx_buffer);
        Led { serial, rx_transfer: Some(rx_transfer), indicator: false, state: false }
    }

    /// Drives the indicator line high.
    pub fn on(&mut self)
        ensures
            final(self).indicator,
            final(self).serial == old(self).serial,
            final(self).rx_transfer == old(self).rx_transfer,
            final(self).state == old(self).state,
    {
        self.indicator = true;
    }

    /// Drives the indicator line low.
    pub fn off(&mut self)
        ensures
            !final(self).indicator,
            final(self).serial == old(self).serial,
            final(self).rx_transfer == old(self).rx_transfer,
            final(self).state == old(self).state,
    {
        self.indicator = false;
    }

    fn send_led(&mut self, op: LedOp, payload: &[u8]) -> (r: Result<(), WouldBlock>)
        requires
            old(self).wf(),
            payload@.len() <= MAX_PAYLOAD,
        ensures
            final(self).wf(),
            led_sent(*old(self), *final(self), r, op, payload@),
    {
        self.serial.send(MsgType::Led, op.to_byte(), payload)
    }

    /// Turns the lights on (requesting the current theme) or off (theme `0`),
    /// whichever they are not; the state flips whether or not the link took
    /// the command.
    pub fn toggle(&mut self) -> (r: Result<(), WouldBlock>)
        requires
            old(self).wf(),
        ensures
            final(self).wf(),
            final(self).state == !old(self).state,
            send_outcome(old(self).serial, final(self).serial, r, MsgType::Led.spec_byte(),
                LedOp::ThemeMode.spec_byte(), toggle_payload(old(self).state)),
            final(self).rx_transfer == old(self).rx_transfer,
            final(self).indicator == old(self).indicator,
    {
        let result = if !self.state {
            self.theme_mode()
        } else {
            self.set_theme(0)
        };
        assert(toggle_payload(false) =~= Seq::<u8>::empty());
        self.state = !self.state;
        result
    }

    fn config_cmd(&mut self, target: ConfigTarget) -> (r: Result<(), WouldBlock>)
        requires
            old(self).wf(),
        ensures
            final(self).wf(),
            led_sent(*old(self), *final(self), r, LedOp::ConfigCmd, config_payload(target)),
    {
        let payload: [u8; 3] = match target {
            ConfigTarget::Theme => [1, 0, 0],
            ConfigTarget::Brightness => [0, 0, 1],
            ConfigTarget::AnimationSpeed => [0, 1, 0],
        };
        let r = self.send_led(LedOp::ConfigCmd, payload.as_slice());
        assert(payload@ =~= config_payload(target));
        r
    }

    /// Asks the LED controller to move to its next theme.
    pub fn next_theme(&mut self) -> (r: Result<(), WouldBlock>)
        requires
            old(self).wf(),
        ensures
            final(self).wf(),
            led_sent(*old(self), *final(self), r, LedOp::ConfigCmd, config_payload(ConfigTarget::Theme)),
    {
        self.config_cmd(ConfigTarget::Theme)
    }

    /// Asks the LED controller to move to its next brightness.
    pub fn next_brightness(&mut self) -> (r: Result<(), WouldBlock>)
        requires
            old(self).wf(),
        ensures
            final(self).wf(),
            led_sent(*old(self), *final(self), r, LedOp::ConfigCmd, config_payload(ConfigTarget::Brightness)),
    {
        self.config_cmd(ConfigTarget::Brightness)
    }

    /// Asks the LED controller to move to its next animation speed.
    pub fn next_animation_speed(&mut self) -> (r: Result<(), WouldBlock>)
        requires
            old(self).wf(),
        ensures
            final(self).wf(),
            led_sent(*old(self), *final(self), r, LedOp::ConfigCmd,
                config_payload(ConfigTarget::AnimationSpeed)),
    {
        self.config_cmd(ConfigTarget::AnimationSpeed)
    }

    /// Selects theme `theme`.
    pub fn set_theme(&mut self, theme: u8) -> (r: Result<(), WouldBlock>)
        requires
            old(self).wf(),
        ensures
            final(self).wf(),
            led_sent(*old(self), *final(self), r, LedOp::ThemeMode, seq![theme]),
    {
        let payload: [u8; 1] = [theme];
        let r = self.send_led(LedOp::ThemeMode, payload.as_slice());
        assert(payload@ =~= seq![theme]);
        r
    }

    /// Sends the key-state map, one bit per key.
    pub fn send_keys(&mut self, state: &[bool]) -> (r: Result<(), WouldBlock>)
        requires
            old(self).wf(),
            packed_len(state@.len()) <= MAX_PAYLOAD,
        ensures
            final(self).wf(),
            led_sent(*old(self), *final(self), r, LedOp::Key, packed_bits(state@)),
    {
        let packed = to_packed_bits(state);
        self.send_led(LedOp::Key, packed.as_slice())
    }

    /// Sends a music payload as it is.
    pub fn send_music(&mut self, keys: &[u8]) -> (r: Result<(), WouldBlock>)
        requires
            old(self).wf(),
            keys@.len() <= MAX_PAYLOAD,
        ensures
            final(self).wf(),
            led_sent(*old(self), *final(self), r, LedOp::Music, keys@),
    {
        self.send_led(LedOp::Music, keys)
    }

    /// Asks for the current theme id; the answer comes as a frame of its own.
    pub fn get_theme_id(&mut self) -> (r: Result<(), WouldBlock>)
        requires
            old(self).wf(),
        ensures
            final(self).wf(),
            led_sent(*old(self), *final(self), r, LedOp::GetThemeId, Seq::empty()),
    {
        let payload: [u8; 0] = [];
        let r = self.send_led(LedOp::GetThemeId, payload.as_slice());
        assert(payload@ =~= Seq::<u8>::empty());
        r
    }

    /// Sends per-key colour records.
    pub fn set_keys(&mut self, payload: &[u8]) -> (r: Result<(), WouldBlock>)
        requires
            old(self).wf(),
            payload@.len() <= MAX_PAYLOAD,
        ensures
            final(self).wf(),
            led_sent(*old(self), *final(self), r, LedOp::SetIndividualKeys, payload@),
    {
        self.send_led(LedOp::SetIndividualKeys, payload)
    }

    /// Asks the LED controller to show its current theme.
    pub fn theme_mode(&mut self) -> (r: Result<(), WouldBlock>)
        requires
            old(self).wf(),
        ensures
            final(self).wf(),
            led_sent(*old(self), *final(self), r, LedOp::ThemeMode, Seq::empty()),
    {
        let payload: [u8; 0] = [];
        let r = self.send_led(LedOp::ThemeMode, payload.as_slice());
        assert(payload@ =~= Seq::<u8>::empty());
        r
    }

    /// Shows the Bluetooth connection state on the keys.
    pub fn bluetooth_mode(&mut self, mode: BluetoothMode) -> (r: Result<(), WouldBlock>)
        requires
            old(self).wf(),
        ensures
            final(self).wf(),
            led_sent(*old(self), *final(self), r, LedOp::SetIndividualKeys, bluetooth_payload(mode)),
    {
        let (red, green, blue): (u8, u8, u8) = match mode {
            BluetoothMode::Unknown => (0x00, 0x00, 0xff),
            BluetoothMode::Ble => (0x00, 0xff, 0x00),
            BluetoothMode::Legacy => (0xff, 0xff, 0x00),
        };
        let mut payload: Vec<u8> = Vec::with_capacity(52);
        payload.push(KEYS_MAGIC);
        payload.push(STATUS_RECORDS);
        push_record(&mut payload, KEY_ESCAPE, 0xff, 0xff, 0x00, LedMode::On);
        push_record(&mut payload, KEY_N1, 0xff, 0x00, 0x00, LedMode::Flash);
        push_record(&mut payload, KEY_N2, 0xff, 0x00, 0x00, LedMode::On);
        push_record(&mut payload, KEY_N3, 0xff, 0x00, 0x00, LedMode::On);
        push_record(&mut payload, KEY_N4, 0xff, 0x00, 0x00, LedMode::On);
        push_record(&mut payload, KEY_EQUAL, 0x00, 0xff, 0x00, LedMode::On);
        push_record(&mut payload, KEY_B, 0x00, 0xff, 0x00, LedMode::Flash);
        push_record(&mut payload, KEY_MINUS, 0x00, 0xff, 0x00, LedMode::On);
        push_record(&mut payload, KEY_N0, red, green, blue, LedMode::On);
        push_record(&mut payload, KEY_A, 0x00, 0xff, 0x00, LedMode::On);
        assert(payload@ =~= bluetooth_payload(mode));
        self.set_keys(payload.as_slice())
    }

    /// Classifies a received frame: acknowledgements on the `Led` channel are
    /// accepted and need nothing more; every other frame is for the caller to
    /// report and drop.
    pub fn handle_message(&mut self, message: &Message) -> (r: Disposition)
        ensures
            r == disposition_of(message.msg_type, message.operation),
            *final(self) == *old(self),
    {
        match message.msg_type {
            MsgType::Led => match LedOp::from_byte(message.operation) {
                LedOp::AckThemeMode | LedOp::AckConfigCmd | LedOp::AckSetIndividualKeys => {
                    Disposition::Acknowledgement
                },
                _ => Disposition::Unhandled,
            },
            _ => Disposition::Unhandled,
        }
    }

    /// Stores one received byte into the armed receive buffer; `false` where
    /// the buffer is already full and the byte is dropped.
    pub fn receive_byte(&mut self, byte: u8) -> (r: bool)
        requires
            old(self).wf(),
        ensures
            final(self).wf(),
            final(self).serial == old(self).serial,
            final(self).indicator == old(self).indicator,
            final(self).state == old(self).state,
            ({
                let t = old(self).rx_transfer.unwrap();
                let u = final(self).rx_transfer.unwrap();
                &&& r == !t.is_complete()
                &&& r ==> u.buffer@ == t.buffer@.update(t.received as int, byte) && u.received
                    == t.received + 1
                &&& !r ==> u == t
            }),
    {
        match &mut self.rx_transfer {
            Some(t) => t.store(byte),
            None => false,
        }
    }

    /// Receive interrupt: while the transfer is in flight, `None` and nothing
    /// changes; once it is complete, the frame is decoded and classified, and
    /// the same buffer is armed again before returning, so a receive is always
    /// held.
    pub fn poll(&mut self) -> (r: Option<Disposition>)
        requires
            old(self).wf(),
        ensures
            final(self).wf(),
            final(self).serial == old(self).serial,
            final(self).indicator == old(self).indicator,
            final(self).state == old(self).state,
            ({
                let t = old(self).rx_transfer.unwrap();
                let u = final(self).rx_transfer.unwrap();
                &&& !t.is_complete() ==> r is None && *final(self) == *old(self)
                &&& t.is_complete() ==> r == Some(buffer_disposition(t.buffer@)) && u.buffer@
                    == t.buffer@ && u.received == 0
            }),
    {
        let result = match &self.rx_transfer {
            Some(t) => t.poll(),
            None => Err(WouldBlock),
        };
        match result {
            Err(_) => None,
            Ok(()) => {
                let transfer = self.rx_transfer.take().unwrap();
                let buffer = transfer.finish();
                let d = match decode_frame(buffer.as_slice()) {
                    Some(message) => self.handle_message(&message),
                    None => Disposition::Malformed,
                };
                self.rx_transfer = Some(self.serial.receive(buffer));
                Some(d)
            },
        }
    }
}

fn push_record(v: &mut Vec<u8>, key: u8, red: u8, green: u8, blue: u8, mode: LedMode)
    ensures
        final(v)@ == old(v)@ + key_record(key, red, green, blue, mode),
{
    v.push(key);
    v.push(red);
    v.push(green);
    v.push(blue);
    v.push(mode.to_byte());
    assert(final(v)@ =~= old(v)@ + key_record(key, red, green, blue, mode));
}

/// Receive-complete interrupt entry point.
pub fn rx(led: &mut Led) -> (r: Option<Disposition>)
    requires
        old(led).wf(),
    ensures
        final(led).wf(),
        final(led).serial == old(led).serial,
        ({
            let t = old(led).rx_transfer.unwrap();
            &&& !t.is_complete() ==> r is None && *final(led) == *old(led)
            &&& t.is_complete() ==> r == Some(buffer_disposition(t.buffer@))
                && final(led).rx_transfer.unwrap().buffer@ == t.buffer@
                && final(led).rx_transfer.unwrap().received == 0
        }),
{
    led.poll()
}

/// Transmit-complete interrupt entry point: the next byte of the outgoing frame.
pub fn tx(led: &mut Led) -> (r: Option<u8>)
    requires
        old(led).wf(),
    ensures
        final(led).wf(),
        final(led).rx_transfer == old(led).rx_transfer,
        final(led).serial.tx_frame == old(led).serial.tx_frame,
        old(led).serial.tx_busy() ==> r == Some(old(led).serial.tx_frame@[old(led).serial.tx_sent as int])
            && final(led).serial.tx_sent == old(led).serial.tx_sent + 1,
        !old(led).serial.tx_busy() ==> r is None && *final(led) == *old(led),
{
    led.serial.tx_interrupt()
}

} // verus!
