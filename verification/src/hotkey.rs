//! The hotkey matcher: a chord specification names zero or more modifiers
//! and exactly one key; a live modifier mask and key code match it only when
//! the tracked modifiers equal the chord's modifiers exactly and the key code
//! is the chord's key.
use vstd::prelude::*;

use crate::keycode::{key_code, spec_key_code};
use crate::keys::{
    MASK_ALL_MODIFIERS, MASK_ALTERNATE, MASK_COMMAND, MASK_CONTROL, MASK_SHIFT,
};

verus! {

/// The fixed chord that triggers macro replay: a modifier mask plus one key
/// code. Immutable after construction.
#[derive(PartialEq, Eq, Structural, Clone, Copy, Debug)]
pub struct Shortcut {
    pub flags: u64,
    pub keycode: u16,
}

/// Failure of chord parsing: the text does not decompose into zero or more
/// modifier tokens plus exactly one known key token.
#[derive(PartialEq, Eq, Structural, Clone, Copy, Debug)]
pub enum HotKeyError {
    InvalidChordSyntax,
}

impl Shortcut {
    /// A well-formed shortcut holds tracked modifier bits only.
    pub open spec fn wf(&self) -> bool {
        self.flags & MASK_ALL_MODIFIERS == self.flags
    }

    /// Tests the shortcut against a live modifier mask and key code.
    pub fn matches(&self, flags: u64, keycode: u16) -> (r: bool)
        ensures
            r == spec_shortcut_matches(flags, keycode, *self),
    {
        is_shortcut_pressed(flags, keycode, self)
    }
}

/// True exactly when `flags`, masked to the four tracked modifiers, equals
/// the shortcut's modifiers — no extra modifier tolerated — and the key code
/// is the shortcut's key.
pub open spec fn spec_shortcut_matches(flags: u64, code: u16, shortcut: Shortcut) -> bool {
    flags & MASK_ALL_MODIFIERS == shortcut.flags && code == shortcut.keycode
}

/// Whether the live mask and key code press the configured shortcut.
pub fn is_shortcut_pressed(flags: u64, code: u16, shortcut: &Shortcut) -> (r: bool)
    ensures
        r == spec_shortcut_matches(flags, code, *shortcut),
{
    let is_correct_flags_pressed: bool = flags & MASK_ALL_MODIFIERS == shortcut.flags;
    let is_correct_keycode: bool = code == shortcut.keycode;
    is_correct_flags_pressed && is_correct_keycode
}

/// Modifier-mask bit for a modifier token, or `None` when the character is
/// no modifier token.
pub open spec fn spec_modifier_bit(c: char) -> Option<u64> {
    if c == 'C' {
        Some(MASK_CONTROL)
    } else if c == 'S' {
        Some(MASK_SHIFT)
    } else if c == 'M' {
        Some(MASK_ALTERNATE)
    } else if c == 'D' {
        Some(MASK_COMMAND)
    } else {
        None
    }
}

/// Looks the modifier token up.
pub fn modifier_bit(c: char) -> (r: Option<u64>)
    ensures
        r == spec_modifier_bit(c),
{
    match c {
        'C' => Some(MASK_CONTROL),
        'S' => Some(MASK_SHIFT),
        'M' => Some(MASK_ALTERNATE),
        'D' => Some(MASK_COMMAND),
        _ => None,
    }
}

/// The shortcut a chord text denotes, after `mask` has been collected from
/// the modifier tokens already consumed; `None` when the rest is no valid
/// chord.
pub open spec fn spec_parse_chord_from(s: Seq<char>, mask: u64) -> Option<Shortcut>
    decreases s.len(),
{
    if s.len() >= 2 && s[1] == '-' && spec_modifier_bit(s[0]) is Some {
        spec_parse_chord_from(
            s.subrange(2, s.len() as int),
            mask | spec_modifier_bit(s[0]).unwrap(),
        )
    } else {
        match spec_key_code(s) {
            Some(code) => Some(Shortcut { flags: mask, keycode: code }),
            None => None,
        }
    }
}

/// The shortcut a chord text denotes, or `None` when the text is no valid
/// chord.
pub open spec fn spec_parse_chord(s: Seq<char>) -> Option<Shortcut> {
    spec_parse_chord_from(s, 0)
}

/// A parsed chord holds tracked modifier bits only.
pub proof fn lemma_parse_chord_wf(s: Seq<char>, mask: u64)
    requires
        mask & MASK_ALL_MODIFIERS == mask,
        spec_parse_chord_from(s, mask) is Some,
    ensures
        spec_parse_chord_from(s, mask).unwrap().wf(),
    decreases s.len(),
{
    if s.len() >= 2 && s[1] == '-' && spec_modifier_bit(s[0]) is Some {
        let bit = spec_modifier_bit(s[0]).unwrap();
        assert((mask | 0x40000u64) & 0x1e0000u64 == (mask | 0x40000u64) && (mask | 0x20000u64)
            & 0x1e0000u64 == (mask | 0x20000u64) && (mask | 0x80000u64) & 0x1e0000u64 == (mask
            | 0x80000u64) && (mask | 0x100000u64) & 0x1e0000u64 == (mask | 0x100000u64)) by (bit_vector)
            requires
                mask & 0x1e0000u64 == mask,
        ;
        lemma_parse_chord_wf(s.subrange(2, s.len() as int), mask | bit);
    }
}

/// Parses the tail of a chord text, the first `i` characters being already
/// consumed into `mask`.
fn parse_chord_from(s: &str, i: usize, mask: u64) -> (r: Result<Shortcut, HotKeyError>)
    requires
        i <= s@.len(),
    ensures
        match r {
            Ok(sc) => spec_parse_chord_from(s@.subrange(i as int, s@.len() as int), mask) == Some(
                sc,
            ),
            Err(e) => spec_parse_chord_from(s@.subrange(i as int, s@.len() as int), mask)
                is None && e == HotKeyError::InvalidChordSyntax,
        },
    decreases s@.len() - i,
{
    let ghost rest = s@.subrange(i as int, s@.len() as int);
    let len = s.unicode_len();
    if i < len && i + 1 < len {
        let c0 = s.get_char(i);
        let c1 = s.get_char(i + 1);
        let mb = modifier_bit(c0);
        if c1 == '-' && mb.is_some() {
            let bit = mb.unwrap();
            assert(rest.len() >= 2 && rest[1] == '-' && spec_modifier_bit(rest[0]) == Some(bit));
            let r = parse_chord_from(s, i + 2, mask | bit);
            proof {
                assert(s@.subrange(i + 2, s@.len() as int) =~= rest.subrange(
                    2,
                    rest.len() as int,
                ));
            }
            return r;
        }
    }
    proof {
        assert(!(rest.len() >= 2 && rest[1] == '-' && spec_modifier_bit(rest[0]) is Some));
    }
    let key = s.substring_char(i, len);
    match key_code(key) {
        Some(code) => Ok(Shortcut { flags: mask, keycode: code }),
        None => Err(HotKeyError::InvalidChordSyntax),
    }
}

/// Parses a chord specification: zero or more one-character modifier tokens,
/// each followed by `-`, then exactly one key name from the key table.
/// Returns the shortcut exactly when the text is such a chord, and
/// `InvalidChordSyntax` otherwise.
pub fn parse_chord(text: &str) -> (r: Result<Shortcut, HotKeyError>)
    ensures
        match r {
            Ok(sc) => spec_parse_chord(text@) == Some(sc) && sc.wf(),
            Err(e) => spec_parse_chord(text@) is None && e == HotKeyError::InvalidChordSyntax,
        },
{
    proof {
        assert(text@.subrange(0, text@.len() as int) =~= text@);
        assert(0u64 & 0x1e0000u64 == 0u64) by (bit_vector);
    }
    let r = parse_chord_from(text, 0, 0);
    proof {
        if r is Ok {
            lemma_parse_chord_wf(text@, 0);
        }
    }
    r
}

/// Exactness of matching: a live mask that holds a tracked modifier the
/// shortcut does not expect never matches, whatever the key code and the
/// expected modifiers.
pub proof fn lemma_extra_modifier_rejected(flags: u64, code: u16, shortcut: Shortcut, m: u64)
    requires
        m == MASK_CONTROL || m == MASK_SHIFT || m == MASK_ALTERNATE || m == MASK_COMMAND,
        flags & m != 0,
        shortcut.flags & m == 0,
    ensures
        !spec_shortcut_matches(flags, code, shortcut),
{
    let sf = shortcut.flags;
    assert(!((m == 0x40000u64 || m == 0x20000u64 || m == 0x80000u64 || m == 0x100000u64) && flags
        & m != 0 && sf & m == 0 && flags & 0x1e0000u64 == sf) == true) by (bit_vector);
}

} // verus!
