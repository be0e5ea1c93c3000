//! Key events, modifier masks, and recorded key states.
//!
//! A hardware keyboard transition is either a key press, a key release, or a
//! change of the modifier flags. The modifier mask is a bitset over the four
//! tracked modifier keys; all other bits (such as the non-coalesced marker)
//! are carried through but never take part in shortcut matching.
use vstd::prelude::*;

verus! {

/// Modifier-mask bit for the Control key.
pub const MASK_CONTROL: u64 = 0x40000;

/// Modifier-mask bit for the Shift key.
pub const MASK_SHIFT: u64 = 0x20000;

/// Modifier-mask bit for the Alternate (Option) key.
pub const MASK_ALTERNATE: u64 = 0x80000;

/// Modifier-mask bit for the Command key.
pub const MASK_COMMAND: u64 = 0x100000;

/// All four tracked modifier bits together.
pub const MASK_ALL_MODIFIERS: u64 = 0x1e0000;

/// The mask every plain event carries on this platform.
pub const MASK_NON_COALESCED: u64 = 0x100;

/// One physical keyboard transition, captured before it reaches the
/// application. `KeyPress` and `KeyRelease` carry the platform key code;
/// `FlagsChanged` carries the code of the modifier key that moved and the
/// complete new modifier mask.
#[derive(PartialEq, Eq, Structural, Clone, Copy, Debug)]
pub enum Event {
    KeyPress(u16),
    KeyRelease(u16),
    FlagsChanged(u16, u64),
}

/// A snapshot of one recorded key press: the key code and the modifier mask
/// that was active at that instant.
#[derive(PartialEq, Eq, Structural, Clone, Copy, Debug)]
pub struct KeyState {
    pub code: u16,
    pub flags: u64,
}

/// True when `flags` holds at least one of the four tracked modifiers.
pub open spec fn spec_any_modifier(flags: u64) -> bool {
    flags & MASK_ALL_MODIFIERS != 0
}

/// Whether any tracked modifier key is held in `flags`.
pub fn any_modifier_pressed(flags: u64) -> (r: bool)
    ensures
        r == spec_any_modifier(flags),
{
    flags & MASK_ALL_MODIFIERS != 0
}

/// The script-visible type name of an event.
pub open spec fn spec_event_type_name(e: Event) -> Seq<char> {
    match e {
        Event::KeyPress(_) => "keyDown"@,
        Event::KeyRelease(_) => "keyUp"@,
        Event::FlagsChanged(_, _) => "flagsChanged"@,
    }
}

/// The key code an event carries.
pub open spec fn spec_event_keycode(e: Event) -> u16 {
    match e {
        Event::KeyPress(code) => code,
        Event::KeyRelease(code) => code,
        Event::FlagsChanged(code, _) => code,
    }
}

/// The modifier mask an event carries: present only for a flags change.
pub open spec fn spec_event_flags(e: Event) -> Option<u64> {
    match e {
        Event::KeyPress(_) => None,
        Event::KeyRelease(_) => None,
        Event::FlagsChanged(_, flags) => Some(flags),
    }
}

/// The script-visible type name of the event.
pub fn event_type_name(e: &Event) -> (r: &'static str)
    ensures
        r@ == spec_event_type_name(*e),
{
    match e {
        Event::KeyPress(_) => "keyDown",
        Event::KeyRelease(_) => "keyUp",
        Event::FlagsChanged(_, _) => "flagsChanged",
    }
}

/// The key code the event carries.
pub fn event_keycode(e: &Event) -> (r: u16)
    ensures
        r == spec_event_keycode(*e),
{
    match e {
        Event::KeyPress(code) => *code,
        Event::KeyRelease(code) => *code,
        Event::FlagsChanged(code, _) => *code,
    }
}

/// The modifier mask the event carries, present only for a flags change.
pub fn event_flags(e: &Event) -> (r: Option<u64>)
    ensures
        r == spec_event_flags(*e),
{
    match e {
        Event::KeyPress(_) => None,
        Event::KeyRelease(_) => None,
        Event::FlagsChanged(_, flags) => Some(*flags),
    }
}

} // verus!
