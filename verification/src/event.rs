//! Input events as the kernel reports them, and their semantic kinds.

use evdev::{EventType, InputEvent, InputEventKind};
use vstd::prelude::*;

verus! {

/// Kernel type number of a synchronization event.
pub const EV_SYN: u16 = 0x00;

/// Kernel type number of a key or button event.
pub const EV_KEY: u16 = 0x01;

/// Kernel type number of a movement on a relative axis.
pub const EV_REL: u16 = 0x02;

/// Kernel type number of a movement on an absolute axis.
pub const EV_ABS: u16 = 0x03;

/// Kernel type number of a miscellaneous event.
pub const EV_MSC: u16 = 0x04;

/// Kernel type number of a switch event.
pub const EV_SW: u16 = 0x05;

/// Kernel type number of an LED event.
pub const EV_LED: u16 = 0x11;

/// Kernel type number of a sound event.
pub const EV_SND: u16 = 0x12;

/// The miscellaneous code under which a device echoes the raw scan code of a key.
pub const MSC_SCAN: u16 = 0x04;

/// What an event is about, together with the code within that kind.
///
/// `Other` stands for every kernel type that has no kind of its own here.
#[derive(Clone, Copy, Debug, PartialEq, Eq, Structural)]
pub enum EventKind {
    Synchronization(u16),
    Key(u16),
    RelativeAxis(u16),
    AbsoluteAxis(u16),
    Miscellaneous(u16),
    Switch(u16),
    Led(u16),
    Sound(u16),
    Other,
}

/// One event as read from a device: the kernel's type number, the code within
/// that type, and the signed value.
#[derive(Clone, Copy, Debug, PartialEq, Eq, Structural)]
pub struct RawEvent {
    pub event_type: u16,
    pub code: u16,
    pub value: i32,
}

/// The kind of an event with the given kernel type number and code.
pub open spec fn kind_of(event_type: u16, code: u16) -> EventKind {
    if event_type == EV_SYN {
        EventKind::Synchronization(code)
    } else if event_type == EV_KEY {
        EventKind::Key(code)
    } else if event_type == EV_REL {
        EventKind::RelativeAxis(code)
    } else if event_type == EV_ABS {
        EventKind::AbsoluteAxis(code)
    } else if event_type == EV_MSC {
        EventKind::Miscellaneous(code)
    } else if event_type == EV_SW {
        EventKind::Switch(code)
    } else if event_type == EV_LED {
        EventKind::Led(code)
    } else if event_type == EV_SND {
        EventKind::Sound(code)
    } else {
        EventKind::Other
    }
}

/// Calls `evdev::InputEvent::kind` on an event built by `evdev::InputEvent::new`
/// from the given type number and code.
///
/// Trusted: `kind` matches on the type number and wraps the code in the newtype
/// of that type. The eight types listed in [`kind_of`] keep their code; every
/// other type, the force-feedback and uinput types that evdev tells apart
/// included, is reported as `Other`.
#[verifier::external_body]
fn classify_with_evdev(event_type: u16, code: u16) -> (kind: EventKind)
    ensures
        kind == kind_of(event_type, code),
{
    match InputEvent::new(EventType(event_type), code, 0).kind() {
        InputEventKind::Synchronization(s) => EventKind::Synchronization(s.0),
        InputEventKind::Key(k) => EventKind::Key(k.0),
        InputEventKind::RelAxis(a) => EventKind::RelativeAxis(a.0),
        InputEventKind::AbsAxis(a) => EventKind::AbsoluteAxis(a.0),
        InputEventKind::Misc(m) => EventKind::Miscellaneous(m.0),
        InputEventKind::Switch(s) => EventKind::Switch(s.0),
        InputEventKind::Led(l) => EventKind::Led(l.0),
        InputEventKind::Sound(s) => EventKind::Sound(s.0),
        _ => EventKind::Other,
    }
}

impl RawEvent {
    /// An event with the given kernel type number, code and value.
    pub fn new(event_type: u16, code: u16, value: i32) -> (event: RawEvent)
        ensures
            event == (RawEvent { event_type, code, value }),
    {
        RawEvent { event_type, code, value }
    }

    /// The kind of this event.
    pub open spec fn kind_spec(self) -> EventKind {
        kind_of(self.event_type, self.code)
    }

    /// The kind of this event, as evdev classifies it.
    pub fn kind(&self) -> (kind: EventKind)
        ensures
            kind == self.kind_spec(),
    {
        classify_with_evdev(self.event_type, self.code)
    }
}

} // verus!
