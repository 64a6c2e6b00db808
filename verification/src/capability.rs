//! The capability set a synthetic device declares.
//!
//! Two disjoint sets of codes: buttons (press/release) and relative axes
//! (deltas). The set is declared once, before the synthetic device is built,
//! and is immutable afterwards; the OS accepts from the device only events
//! whose code is declared for their type.

use vstd::prelude::*;

use crate::event::BTN_EXTRA;
use crate::event::BTN_LEFT;
use crate::event::BTN_MIDDLE;
use crate::event::BTN_RIGHT;
use crate::event::BTN_SIDE;
use crate::event::EVENT_TYPE_KEY;
use crate::event::EVENT_TYPE_RELATIVE;
use crate::event::EVENT_TYPE_SYNCHRONIZATION;
use crate::event::InputEventRec;
use crate::event::REL_HWHEEL;
use crate::event::REL_WHEEL;
use crate::event::REL_X;
use crate::event::REL_Y;

verus! {

/// The codes a synthetic device claims to support: button codes and
/// relative-axis codes, disjoint by construction since they belong to
/// different event types.
#[derive(Debug)]
pub struct CapabilitySet {
    /// The declared button codes.
    pub buttons: Vec<u16>,
    /// The declared relative-axis codes.
    pub relative_axes: Vec<u16>,
}

impl CapabilitySet {
    /// The declared button codes, as a set.
    pub open spec fn button_set(self) -> Set<u16> {
        self.buttons@.to_set()
    }

    /// The declared relative-axis codes, as a set.
    pub open spec fn axis_set(self) -> Set<u16> {
        self.relative_axes@.to_set()
    }

    /// Whether the synthetic device accepts an event: synchronization
    /// markers always pass, a button event passes when its code is
    /// declared, a relative-axis event when its code is declared, and
    /// every other type is rejected since no capability was declared
    /// for it.
    pub open spec fn accepts_spec(self, ev: InputEventRec) -> bool {
        if ev.event_type == EVENT_TYPE_SYNCHRONIZATION {
            true
        } else if ev.event_type == EVENT_TYPE_KEY {
            self.button_set().contains(ev.code)
        } else if ev.event_type == EVENT_TYPE_RELATIVE {
            self.axis_set().contains(ev.code)
        } else {
            false
        }
    }

    /// Decides whether the synthetic device accepts the event.
    pub fn accepts(&self, ev: &InputEventRec) -> (b: bool)
        ensures
            b == self.accepts_spec(*ev),
    {
        if ev.event_type == EVENT_TYPE_SYNCHRONIZATION {
            true
        } else if ev.event_type == EVENT_TYPE_KEY {
            contains_code(&self.buttons, ev.code)
        } else if ev.event_type == EVENT_TYPE_RELATIVE {
            contains_code(&self.relative_axes, ev.code)
        } else {
            false
        }
    }
}

/// Whether a code stands in a declared list.
fn contains_code(codes: &Vec<u16>, code: u16) -> (b: bool)
    ensures
        b == codes@.to_set().contains(code),
{
    let mut i: usize = 0;
    while i < codes.len()
        invariant
            i <= codes.len(),
            forall|j: int| 0 <= j < i ==> codes@[j] != code,
        decreases codes.len() - i,
    {
        if codes[i] == code {
            assert(codes@.to_set().contains(code));
            return true;
        }
        i += 1;
    }
    assert(!codes@.contains(code));
    false
}

/// The fixed capability set of a typical mouse: the five buttons
/// `BTN_LEFT`, `BTN_RIGHT`, `BTN_MIDDLE`, `BTN_SIDE`, `BTN_EXTRA` and the
/// four relative axes `REL_X`, `REL_Y`, `REL_WHEEL`, `REL_HWHEEL`.
pub fn declare_capabilities() -> (cs: CapabilitySet)
    ensures
        cs.buttons@ == seq![BTN_LEFT, BTN_RIGHT, BTN_MIDDLE, BTN_SIDE, BTN_EXTRA],
        cs.relative_axes@ == seq![REL_X, REL_Y, REL_WHEEL, REL_HWHEEL],
{
    let mut buttons: Vec<u16> = Vec::new();
    buttons.push(BTN_LEFT);
    buttons.push(BTN_RIGHT);
    buttons.push(BTN_MIDDLE);
    buttons.push(BTN_SIDE);
    buttons.push(BTN_EXTRA);
    let mut relative_axes: Vec<u16> = Vec::new();
    relative_axes.push(REL_X);
    relative_axes.push(REL_Y);
    relative_axes.push(REL_WHEEL);
    relative_axes.push(REL_HWHEEL);
    assert(buttons@ =~= seq![BTN_LEFT, BTN_RIGHT, BTN_MIDDLE, BTN_SIDE, BTN_EXTRA]);
    assert(relative_axes@ =~= seq![REL_X, REL_Y, REL_WHEEL, REL_HWHEEL]);
    CapabilitySet { buttons, relative_axes }
}

} // verus!
