use vstd::prelude::*;
use crate::flags::{EVENT_FLAGS_CHANGED, EVENT_KEY_DOWN, EVENT_KEY_UP};

verus! {

/// The kinds of keyboard event that the tap listens for.
#[derive(Debug, Clone, Copy, PartialEq, Eq, Structural)]
pub enum EventKind {
    KeyDown,
    KeyUp,
    FlagsChanged,
    Unknown,
}

/// The kind of an event of the given raw type.
pub open spec fn kind_of(raw_type: u32) -> EventKind {
    if raw_type == EVENT_KEY_DOWN {
        EventKind::KeyDown
    } else if raw_type == EVENT_KEY_UP {
        EventKind::KeyUp
    } else if raw_type == EVENT_FLAGS_CHANGED {
        EventKind::FlagsChanged
    } else {
        EventKind::Unknown
    }
}

impl EventKind {
    /// The name under which scripts and the monitoring view see the kind.
    pub open spec fn name_spec(self) -> Seq<char> {
        match self {
            EventKind::KeyDown => "keyDown"@,
            EventKind::KeyUp => "keyUp"@,
            EventKind::FlagsChanged => "flagsChanged"@,
            EventKind::Unknown => "unknown"@,
        }
    }

    /// The name of the kind; see `name_spec`.
    pub fn name(&self) -> (r: &'static str)
        ensures
            r@ == self.name_spec(),
    {
        match self {
            EventKind::KeyDown => "keyDown",
            EventKind::KeyUp => "keyUp",
            EventKind::FlagsChanged => "flagsChanged",
            EventKind::Unknown => "unknown",
        }
    }
}

/// Classifies a raw event type.
pub fn event_kind(raw_type: u32) -> (r: EventKind)
    ensures
        r == kind_of(raw_type),
{
    if raw_type == EVENT_KEY_DOWN {
        EventKind::KeyDown
    } else if raw_type == EVENT_KEY_UP {
        EventKind::KeyUp
    } else if raw_type == EVENT_FLAGS_CHANGED {
        EventKind::FlagsChanged
    } else {
        EventKind::Unknown
    }
}

/// The name of the kind of a raw event type.
pub fn event_type(raw_type: u32) -> (r: &'static str)
    ensures
        r@ == kind_of(raw_type).name_spec(),
{
    event_kind(raw_type).name()
}

/// A normalised keyboard event.
#[derive(Debug)]
pub struct Event {
    pub kind: EventKind,
    pub event_type: String,
    pub keycode: i64,
    pub flags: u64,
    pub timestamp: u64,
}

/// The event object that a script's entry point receives. `flags` is present on
/// flags-changed events only.
#[derive(Debug)]
pub struct KeyEventObject {
    pub event_type: String,
    pub keycode: i64,
    pub flags: Option<u64>,
}

impl Event {
    /// `e` is the normalised form of a raw event with these fields.
    pub open spec fn normalises(e: Event, raw_type: u32, keycode: i64, flags: u64, timestamp: u64) -> bool {
        &&& e.kind == kind_of(raw_type)
        &&& e.event_type@ == kind_of(raw_type).name_spec()
        &&& e.keycode == keycode
        &&& e.flags == flags
        &&& e.timestamp == timestamp
    }

    /// Normalises a raw event: its type, key code field, modifier flags, and the time of
    /// arrival in whole seconds.
    pub fn from_cf(raw_type: u32, keycode: i64, flags: u64, timestamp: u64) -> (r: Event)
        ensures
            Event::normalises(r, raw_type, keycode, flags, timestamp),
    {
        let kind = event_kind(raw_type);
        Event { kind, event_type: String::from_str(kind.name()), keycode, flags, timestamp }
    }

    /// Builds the object handed to the script entry point for this event.
    pub fn build_key_event(&self) -> (r: KeyEventObject)
        ensures
            r.event_type@ == self.event_type@,
            r.keycode == self.keycode,
            r.flags == (if self.kind == EventKind::FlagsChanged {
                Some(self.flags)
            } else {
                None::<u64>
            }),
    {
        let flags = match self.kind {
            EventKind::FlagsChanged => Some(self.flags),
            _ => None,
        };
        KeyEventObject { event_type: self.event_type.clone(), keycode: self.keycode, flags }
    }
}

} // verus!
