//! Kernel input events and their classification.
//!
//! An event is an immutable value `(type, code, value)`. The relay never
//! mutates one; it only copies events from the physical source to the
//! synthetic sink. Classification serves diagnostics alone and never alters
//! what is forwarded.

use vstd::prelude::*;

verus! {

/// Event type code for synchronization markers (`EV_SYN`).
pub const EVENT_TYPE_SYNCHRONIZATION: u16 = 0x00;

/// Event type code for key and button events (`EV_KEY`).
pub const EVENT_TYPE_KEY: u16 = 0x01;

/// Event type code for relative-axis motion (`EV_REL`).
pub const EVENT_TYPE_RELATIVE: u16 = 0x02;

/// Button code of the left mouse button (`BTN_LEFT`).
pub const BTN_LEFT: u16 = 0x110;

/// Button code of the right mouse button (`BTN_RIGHT`).
pub const BTN_RIGHT: u16 = 0x111;

/// Button code of the middle mouse button (`BTN_MIDDLE`).
pub const BTN_MIDDLE: u16 = 0x112;

/// Button code of the first side button (`BTN_SIDE`).
pub const BTN_SIDE: u16 = 0x113;

/// Button code of the second side button (`BTN_EXTRA`).
pub const BTN_EXTRA: u16 = 0x114;

/// Relative-axis code for horizontal motion (`REL_X`).
pub const REL_X: u16 = 0x00;

/// Relative-axis code for vertical motion (`REL_Y`).
pub const REL_Y: u16 = 0x01;

/// Relative-axis code for horizontal wheel scroll (`REL_HWHEEL`).
pub const REL_HWHEEL: u16 = 0x06;

/// Relative-axis code for vertical wheel scroll (`REL_WHEEL`).
pub const REL_WHEEL: u16 = 0x08;

/// One kernel input event: an immutable `(type, code, value)` triple.
#[derive(Clone, Copy, PartialEq, Eq, Structural, Debug)]
pub struct InputEventRec {
    /// The event type (`EVENT_TYPE_KEY`, `EVENT_TYPE_RELATIVE`, ...).
    pub event_type: u16,
    /// The code within the type (a button code, an axis code, ...).
    pub code: u16,
    /// The payload: press state for buttons, delta for relative axes.
    pub value: i32,
}

/// The diagnostic class of an event. Classification never changes what is
/// forwarded; it only decides what the shell may log.
#[derive(Clone, Copy, PartialEq, Eq, Structural, Debug)]
pub enum EventClass {
    /// A button press or release (`EV_KEY`).
    Button,
    /// A relative-axis delta (`EV_REL`).
    RelativeMotion,
    /// A synchronization marker delimiting an atomic group (`EV_SYN`).
    Synchronization,
    /// Any other event type.
    Other,
}

/// The class an event falls in, by its type code.
pub open spec fn classify_spec(ev: InputEventRec) -> EventClass {
    if ev.event_type == EVENT_TYPE_KEY {
        EventClass::Button
    } else if ev.event_type == EVENT_TYPE_RELATIVE {
        EventClass::RelativeMotion
    } else if ev.event_type == EVENT_TYPE_SYNCHRONIZATION {
        EventClass::Synchronization
    } else {
        EventClass::Other
    }
}

/// Whether an event is a synchronization marker.
pub open spec fn is_sync(ev: InputEventRec) -> bool {
    classify_spec(ev) == EventClass::Synchronization
}

/// Synchronization markers are too frequent to be worth a diagnostic line;
/// every other event gets one.
pub open spec fn should_log_spec(ev: InputEventRec) -> bool {
    !is_sync(ev)
}

impl InputEventRec {
    /// Builds an event value.
    pub fn new(event_type: u16, code: u16, value: i32) -> (ev: InputEventRec)
        ensures
            ev == (InputEventRec { event_type, code, value }),
    {
        InputEventRec { event_type, code, value }
    }

    /// Classifies the event for diagnostics.
    pub fn classify(&self) -> (c: EventClass)
        ensures
            c == classify_spec(*self),
    {
        if self.event_type == EVENT_TYPE_KEY {
            EventClass::Button
        } else if self.event_type == EVENT_TYPE_RELATIVE {
            EventClass::RelativeMotion
        } else if self.event_type == EVENT_TYPE_SYNCHRONIZATION {
            EventClass::Synchronization
        } else {
            EventClass::Other
        }
    }

    /// Whether the shell should emit a diagnostic line for this event:
    /// true exactly when the event is not a synchronization marker.
    pub fn should_log(&self) -> (b: bool)
        ensures
            b == should_log_spec(*self),
    {
        self.event_type != EVENT_TYPE_SYNCHRONIZATION
    }
}

/// A mouse button with a symbolic name, for diagnostic output.
#[derive(Clone, Copy, PartialEq, Eq, Structural, Debug)]
pub enum MouseButton {
    /// `BTN_LEFT`
    Left,
    /// `BTN_RIGHT`
    Right,
    /// `BTN_MIDDLE`
    Middle,
    /// `BTN_SIDE`
    Side,
    /// `BTN_EXTRA`
    Extra,
}

/// The symbolic button a key code stands for, if it is one of the mouse
/// buttons the relay knows.
pub open spec fn decode_button_spec(code: u16) -> Option<MouseButton> {
    if code == BTN_LEFT {
        Some(MouseButton::Left)
    } else if code == BTN_RIGHT {
        Some(MouseButton::Right)
    } else if code == BTN_MIDDLE {
        Some(MouseButton::Middle)
    } else if code == BTN_SIDE {
        Some(MouseButton::Side)
    } else if code == BTN_EXTRA {
        Some(MouseButton::Extra)
    } else {
        None
    }
}

/// Decodes a key code to its symbolic button name, for diagnostics.
pub fn decode_button(code: u16) -> (r: Option<MouseButton>)
    ensures
        r == decode_button_spec(code),
{
    if code == BTN_LEFT {
        Some(MouseButton::Left)
    } else if code == BTN_RIGHT {
        Some(MouseButton::Right)
    } else if code == BTN_MIDDLE {
        Some(MouseButton::Middle)
    } else if code == BTN_SIDE {
        Some(MouseButton::Side)
    } else if code == BTN_EXTRA {
        Some(MouseButton::Extra)
    } else {
        None
    }
}

} // verus!
