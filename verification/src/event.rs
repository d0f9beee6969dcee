//! Events as the input device reports them, and the four keys that are acted on.

use vstd::prelude::*;

verus! {

/// Event type of a key transition.
pub const EV_KEY: u16 = 1;

/// Code of the wake-up key, which follows the ignition line.
pub const KEY_WAKEUP: u16 = 143;

/// Code of the first programmable key, the shutdown button.
pub const KEY_PROG1: u16 = 148;

/// Code of the second programmable key, the alert line.
pub const KEY_PROG2: u16 = 149;

/// Code of the battery key.
pub const KEY_BATTERY: u16 = 236;

/// One event as read from the device: its type, its code and its value.
#[derive(Clone, Copy, Debug, PartialEq, Eq, Structural)]
pub struct InputEvent {
    pub event_type: u16,
    pub code: u16,
    pub value: i32,
}

/// A key changed state. Which value means "active" depends on the key.
#[derive(Clone, Copy, Debug, PartialEq, Eq, Structural)]
pub struct KeyEvent {
    pub code: u16,
    pub value: i32,
}

/// The keys that are acted on; every other code is `Unrecognized`.
#[derive(Clone, Copy, Debug, PartialEq, Eq, Structural)]
pub enum KeyClass {
    Battery,
    Wakeup,
    Prog1,
    Prog2,
    Unrecognized,
}

/// The key transition that an event reports, if it reports one.
pub open spec fn key_event_spec(event: InputEvent) -> Option<KeyEvent> {
    if event.event_type == EV_KEY {
        Some(KeyEvent { code: event.code, value: event.value })
    } else {
        None
    }
}

/// The class of a key code.
pub open spec fn classify_spec(code: u16) -> KeyClass {
    if code == KEY_BATTERY {
        KeyClass::Battery
    } else if code == KEY_WAKEUP {
        KeyClass::Wakeup
    } else if code == KEY_PROG1 {
        KeyClass::Prog1
    } else if code == KEY_PROG2 {
        KeyClass::Prog2
    } else {
        KeyClass::Unrecognized
    }
}

/// Trusted: `evdev::InputEvent::kind`, on an event made by `evdev::InputEvent::new`.
/// The kind is `Key` exactly for events of type `EV_KEY`, and the key then holds
/// the event's code unchanged.
#[verifier::external_body]
fn kind_key_code(event_type: u16, code: u16, value: i32) -> (key: Option<u16>)
    ensures
        key == (if event_type == EV_KEY { Some(code) } else { None::<u16> }),
{
    let event = evdev::InputEvent::new(evdev::EventType(event_type), code, value);
    match event.kind() {
        evdev::InputEventKind::Key(key) => Some(key.code()),
        _ => None,
    }
}

/// Trusted: the code of `evdev::Key::KEY_BATTERY`.
#[verifier::external_body]
fn battery_key_code() -> (code: u16)
    ensures
        code == KEY_BATTERY,
{
    evdev::Key::KEY_BATTERY.code()
}

/// Trusted: the code of `evdev::Key::KEY_WAKEUP`.
#[verifier::external_body]
fn wakeup_key_code() -> (code: u16)
    ensures
        code == KEY_WAKEUP,
{
    evdev::Key::KEY_WAKEUP.code()
}

/// Trusted: the code of `evdev::Key::KEY_PROG1`.
#[verifier::external_body]
fn prog1_key_code() -> (code: u16)
    ensures
        code == KEY_PROG1,
{
    evdev::Key::KEY_PROG1.code()
}

/// Trusted: the code of `evdev::Key::KEY_PROG2`.
#[verifier::external_body]
fn prog2_key_code() -> (code: u16)
    ensures
        code == KEY_PROG2,
{
    evdev::Key::KEY_PROG2.code()
}

impl InputEvent {
    /// The key transition that this event reports; `None` for every other type of event.
    pub fn key_event(&self) -> (key: Option<KeyEvent>)
        ensures
            key == key_event_spec(*self),
    {
        match kind_key_code(self.event_type, self.code, self.value) {
            Some(code) => Some(KeyEvent { code, value: self.value }),
            None => None,
        }
    }
}

impl KeyEvent {
    /// The class of this event's key.
    pub fn class(&self) -> (class: KeyClass)
        ensures
            class == classify_spec(self.code),
    {
        if self.code == battery_key_code() {
            KeyClass::Battery
        } else if self.code == wakeup_key_code() {
            KeyClass::Wakeup
        } else if self.code == prog1_key_code() {
            KeyClass::Prog1
        } else if self.code == prog2_key_code() {
            KeyClass::Prog2
        } else {
            KeyClass::Unrecognized
        }
    }
}

} // verus!
