//! The wireless bridge: the attribute server's values (a writable text
//! attribute and a battery-level attribute), the radio's Idle / Advertising /
//! Connected state machine, and the advertising payloads.
use crate::message::{truncated, Message, MESSAGE_CAPACITY};
use vstd::prelude::*;

verus! {

/// Advertising flags: LE only, general discoverable mode.
pub const ADV_FLAGS_LE_ONLY_GENERAL_DISC: u8 = 0x06;

/// The text attribute, read and write.
pub struct TextService {
    pub message: Message,
}

/// The battery-level attribute, read and notify: one byte.
pub struct BatteryService {
    pub percentage: u8,
}

/// The attribute server: the values of both services.
pub struct Server {
    pub text: TextService,
    pub battery: BatteryService,
}

/// The text attribute before anything is written: twenty spaces.
pub open spec fn blank_message() -> Seq<u8> {
    Seq::new(MESSAGE_CAPACITY as nat, |i: int| 32u8)
}

/// An event of the attribute server on a connection.
pub enum ServerEvent {
    /// A client wrote these bytes to the text attribute.
    TextWritten(Vec<u8>),
    /// A client turned notifications of the battery level on or off.
    BatteryNotifications(bool),
}

impl Server {
    pub open spec fn wf(&self) -> bool {
        self.text.message.wf()
    }

    /// The server as registered: the text attribute blank, the battery level
    /// `percent`.
    pub fn new(percent: u8) -> (s: Server)
        ensures
            s.wf(),
            s.text.message@ == blank_message(),
            s.battery.percentage == percent,
    {
        let blank: Vec<u8> = vec![32u8; MESSAGE_CAPACITY];
        let message = Message::from_bytes(blank.as_slice());
        assert(truncated(blank@) =~= blank_message());
        Server { text: TextService { message }, battery: BatteryService { percentage: percent } }
    }

    /// Handle an event on the connection; returns the message to hand to the
    /// display when the text attribute was written. A write longer than the
    /// attribute is truncated; a change of battery notifications is only
    /// acknowledged.
    pub fn on_event(&mut self, event: &ServerEvent) -> (inbound: Option<Message>)
        requires
            old(self).wf(),
        ensures
            final(self).wf(),
            final(self).battery == old(self).battery,
            match event {
                ServerEvent::TextWritten(data) => {
                    &&& inbound is Some
                    &&& inbound->Some_0@ == truncated(data@)
                    &&& final(self).text.message@ == truncated(data@)
                },
                ServerEvent::BatteryNotifications(_) => {
                    &&& inbound is None
                    &&& final(self).text.message@ == old(self).text.message@
                },
            },
    {
        match event {
            ServerEvent::TextWritten(data) => {
                self.text.message = Message::from_bytes(data.as_slice());
                Some(Message::from_bytes(data.as_slice()))
            },
            ServerEvent::BatteryNotifications(_) => None,
        }
    }
}

/// The radio's state.
#[derive(PartialEq, Eq, Structural, Clone, Copy, Debug)]
pub enum RadioState {
    /// Radio off, waiting for a press.
    Idle,
    /// Advertising as a connectable peripheral.
    Advertising,
    /// A central is connected and the attribute server runs.
    Connected,
}

/// What the radio task observed.
#[derive(PartialEq, Eq, Structural, Clone, Copy, Debug)]
pub enum RadioEvent {
    ButtonPressed,
    /// Advertising ended in a connection.
    ConnectionEstablished,
    /// The central went away.
    Disconnected,
}

/// What the radio task does next.
#[derive(PartialEq, Eq, Structural, Clone, Copy, Debug)]
pub enum RadioAction {
    /// Start advertising, racing it against the next press.
    StartAdvertising,
    /// Serve the attribute server on the connection, racing it against the
    /// next press.
    Serve,
    /// Stop advertising or drop the connection, and turn the radio off.
    TurnOff,
    /// Nothing to do.
    Nothing,
}

/// The next state and action of the radio after an event.
pub open spec fn radio_step_spec(state: RadioState, event: RadioEvent) -> (RadioState, RadioAction) {
    match (state, event) {
        (RadioState::Idle, RadioEvent::ButtonPressed) => (RadioState::Advertising, RadioAction::StartAdvertising),
        (RadioState::Advertising, RadioEvent::ButtonPressed) => (RadioState::Idle, RadioAction::TurnOff),
        (RadioState::Advertising, RadioEvent::ConnectionEstablished) => (RadioState::Connected, RadioAction::Serve),
        (RadioState::Connected, RadioEvent::ButtonPressed) => (RadioState::Idle, RadioAction::TurnOff),
        (RadioState::Connected, RadioEvent::Disconnected) => (RadioState::Idle, RadioAction::Nothing),
        _ => (state, RadioAction::Nothing),
    }
}

/// Step the radio: a press turns an idle radio on and any other one off; a
/// connection starts the server; a disconnection turns the radio off.
pub fn radio_step(state: RadioState, event: RadioEvent) -> (r: (RadioState, RadioAction))
    ensures
        r == radio_step_spec(state, event),
{
    match (state, event) {
        (RadioState::Idle, RadioEvent::ButtonPressed) => (RadioState::Advertising, RadioAction::StartAdvertising),
        (RadioState::Advertising, RadioEvent::ButtonPressed) => (RadioState::Idle, RadioAction::TurnOff),
        (RadioState::Advertising, RadioEvent::ConnectionEstablished) => (RadioState::Connected, RadioAction::Serve),
        (RadioState::Connected, RadioEvent::ButtonPressed) => (RadioState::Idle, RadioAction::TurnOff),
        (RadioState::Connected, RadioEvent::Disconnected) => (RadioState::Idle, RadioAction::Nothing),
        _ => (state, RadioAction::Nothing),
    }
}

/// The advertising payload: the flags, the 16-bit service list (0x1809),
/// and the complete local name `HelloRust`.
pub open spec fn advertising_data_spec() -> Seq<u8> {
    seq![
        0x02u8, 0x01u8, ADV_FLAGS_LE_ONLY_GENERAL_DISC,
        0x03u8, 0x03u8, 0x09u8, 0x18u8,
        0x0au8, 0x09u8, 72u8, 101u8, 108u8, 108u8, 111u8, 82u8, 117u8, 115u8, 116u8,
    ]
}

/// The scan response: the 16-bit service list (0x1809).
pub open spec fn scan_data_spec() -> Seq<u8> {
    seq![0x03u8, 0x03u8, 0x09u8, 0x18u8]
}

/// The advertising payload.
pub fn advertising_data() -> (r: Vec<u8>)
    ensures
        r@ == advertising_data_spec(),
{
    let r = vec![
        0x02u8, 0x01u8, ADV_FLAGS_LE_ONLY_GENERAL_DISC,
        0x03u8, 0x03u8, 0x09u8, 0x18u8,
        0x0au8, 0x09u8, 72u8, 101u8, 108u8, 108u8, 111u8, 82u8, 117u8, 115u8, 116u8,
    ];
    assert(r@ =~= advertising_data_spec());
    r
}

/// The scan response payload.
pub fn scan_data() -> (r: Vec<u8>)
    ensures
        r@ == scan_data_spec(),
{
    let r = vec![0x03u8, 0x03u8, 0x09u8, 0x18u8];
    assert(r@ =~= scan_data_spec());
    r
}

} // verus!
