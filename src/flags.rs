use vstd::prelude::*;

verus! {

/// Caps lock.
pub const MASK_ALPHA_SHIFT: u64 = 0x10000;

/// Either shift key.
pub const MASK_SHIFT: u64 = 0x20000;

/// Either control key.
pub const MASK_CONTROL: u64 = 0x40000;

/// Either option (alt) key.
pub const MASK_ALTERNATE: u64 = 0x80000;

/// Either command key.
pub const MASK_COMMAND: u64 = 0x100000;

/// A key of the numeric pad.
pub const MASK_NUMERIC_PAD: u64 = 0x200000;

/// The help key.
pub const MASK_HELP: u64 = 0x400000;

/// The secondary function (fn) key.
pub const MASK_SECONDARY_FN: u64 = 0x800000;

/// Set on events that the system did not coalesce; stands alone as "no modifiers held".
pub const MASK_NON_COALESCED: u64 = 0x100;

/// The modifier bits that hotkey matching looks at: control, alt, shift and command.
pub const SIGNIFICANT_MODIFIERS: u64 = MASK_CONTROL | MASK_ALTERNATE | MASK_SHIFT | MASK_COMMAND;

/// The raw type of an event that has been suppressed.
pub const EVENT_NULL: u32 = 0;

/// The raw type of a key press.
pub const EVENT_KEY_DOWN: u32 = 10;

/// The raw type of a key release.
pub const EVENT_KEY_UP: u32 = 11;

/// The raw type of a change of the held modifiers.
pub const EVENT_FLAGS_CHANGED: u32 = 12;

/// The event field that holds the key code.
pub const FIELD_KEYBOARD_KEYCODE: u32 = 9;

/// The event field that holds the user data of the event's source.
pub const FIELD_SOURCE_USER_DATA: u32 = 42;

/// The user data that marks an event as injected by this library's own injector.
pub const SENTINEL_USER_DATA: i64 = 5963;

/// The event-type, field and flag constants that scripts see, by name, in registration order.
pub open spec fn script_constants_spec() -> Seq<(&'static str, u64)> {
    seq![
        ("kCGEventKeyDown", EVENT_KEY_DOWN as u64),
        ("kCGEventKeyUp", EVENT_KEY_UP as u64),
        ("kCGEventFlagsChanged", EVENT_FLAGS_CHANGED as u64),
        ("kCGKeyboardEventKeycode", FIELD_KEYBOARD_KEYCODE as u64),
        ("kCGEventFlagMaskNonCoalesced", MASK_NON_COALESCED),
        ("kCGEventFlagMaskAlphaShift", MASK_ALPHA_SHIFT),
        ("kCGEventFlagMaskShift", MASK_SHIFT),
        ("kCGEventFlagMaskControl", MASK_CONTROL),
        ("kCGEventFlagMaskAlternate", MASK_ALTERNATE),
        ("kCGEventFlagMaskCommand", MASK_COMMAND),
        ("kCGEventFlagMaskHelp", MASK_HELP),
        ("kCGEventFlagMaskSecondaryFn", MASK_SECONDARY_FN),
        ("kCGEventFlagMaskNumericPad", MASK_NUMERIC_PAD),
    ]
}

/// The constants that the script environment registers as read-only globals.
pub fn register_constants() -> (r: Vec<(&'static str, u64)>)
    ensures
        r@ == script_constants_spec(),
{
    let mut v: Vec<(&'static str, u64)> = Vec::new();
    v.push(("kCGEventKeyDown", EVENT_KEY_DOWN as u64));
    v.push(("kCGEventKeyUp", EVENT_KEY_UP as u64));
    v.push(("kCGEventFlagsChanged", EVENT_FLAGS_CHANGED as u64));
    v.push(("kCGKeyboardEventKeycode", FIELD_KEYBOARD_KEYCODE as u64));
    v.push(("kCGEventFlagMaskNonCoalesced", MASK_NON_COALESCED));
    v.push(("kCGEventFlagMaskAlphaShift", MASK_ALPHA_SHIFT));
    v.push(("kCGEventFlagMaskShift", MASK_SHIFT));
    v.push(("kCGEventFlagMaskControl", MASK_CONTROL));
    v.push(("kCGEventFlagMaskAlternate", MASK_ALTERNATE));
    v.push(("kCGEventFlagMaskCommand", MASK_COMMAND));
    v.push(("kCGEventFlagMaskHelp", MASK_HELP));
    v.push(("kCGEventFlagMaskSecondaryFn", MASK_SECONDARY_FN));
    v.push(("kCGEventFlagMaskNumericPad", MASK_NUMERIC_PAD));
    proof {
        assert(v@ =~= script_constants_spec());
    }
    v
}

} // verus!
