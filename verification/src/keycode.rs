//! The symbolic key table: a read-only mapping from key names to platform
//! key codes. A name is a single letter or digit, or the word for one of the
//! named control keys. Unknown names have no code; lookups never fail for
//! known names.
use vstd::prelude::*;

use crate::strutil::str_eq;

verus! {

/// Platform key code for a one-character key name, or `None` when the
/// character names no key.
pub open spec fn spec_char_code(c: char) -> Option<u16> {
    if c == 'a' {
        Some(0u16)
    } else if c == 's' {
        Some(1u16)
    } else if c == 'd' {
        Some(2u16)
    } else if c == 'f' {
        Some(3u16)
    } else if c == 'h' {
        Some(4u16)
    } else if c == 'g' {
        Some(5u16)
    } else if c == 'z' {
        Some(6u16)
    } else if c == 'x' {
        Some(7u16)
    } else if c == 'c' {
        Some(8u16)
    } else if c == 'v' {
        Some(9u16)
    } else if c == 'b' {
        Some(11u16)
    } else if c == 'q' {
        Some(12u16)
    } else if c == 'w' {
        Some(13u16)
    } else if c == 'e' {
        Some(14u16)
    } else if c == 'r' {
        Some(15u16)
    } else if c == 'y' {
        Some(16u16)
    } else if c == 't' {
        Some(17u16)
    } else if c == '1' {
        Some(18u16)
    } else if c == '2' {
        Some(19u16)
    } else if c == '3' {
        Some(20u16)
    } else if c == '4' {
        Some(21u16)
    } else if c == '6' {
        Some(22u16)
    } else if c == '5' {
        Some(23u16)
    } else if c == '9' {
        Some(25u16)
    } else if c == '7' {
        Some(26u16)
    } else if c == '8' {
        Some(28u16)
    } else if c == '0' {
        Some(29u16)
    } else if c == 'o' {
        Some(31u16)
    } else if c == 'u' {
        Some(32u16)
    } else if c == 'i' {
        Some(34u16)
    } else if c == 'p' {
        Some(35u16)
    } else if c == 'l' {
        Some(37u16)
    } else if c == 'j' {
        Some(38u16)
    } else if c == 'k' {
        Some(40u16)
    } else if c == 'n' {
        Some(45u16)
    } else if c == 'm' {
        Some(46u16)
    } else {
        None
    }
}

/// Platform key code for a key name, or `None` when the name is unknown.
/// One-character names go through the letter and digit table; longer names
/// cover the named control keys.
pub open spec fn spec_key_code(name: Seq<char>) -> Option<u16> {
    if name.len() == 1 {
        spec_char_code(name[0])
    } else if name == "return"@ {
        Some(36u16)
    } else if name == "tab"@ {
        Some(48u16)
    } else if name == "space"@ {
        Some(49u16)
    } else if name == "delete"@ {
        Some(51u16)
    } else if name == "escape"@ {
        Some(53u16)
    } else {
        None
    }
}

/// Looks a one-character key name up in the table.
pub fn char_code(c: char) -> (r: Option<u16>)
    ensures
        r == spec_char_code(c),
{
    match c {
        'a' => Some(0u16),
        's' => Some(1u16),
        'd' => Some(2u16),
        'f' => Some(3u16),
        'h' => Some(4u16),
        'g' => Some(5u16),
        'z' => Some(6u16),
        'x' => Some(7u16),
        'c' => Some(8u16),
        'v' => Some(9u16),
        'b' => Some(11u16),
        'q' => Some(12u16),
        'w' => Some(13u16),
        'e' => Some(14u16),
        'r' => Some(15u16),
        'y' => Some(16u16),
        't' => Some(17u16),
        '1' => Some(18u16),
        '2' => Some(19u16),
        '3' => Some(20u16),
        '4' => Some(21u16),
        '6' => Some(22u16),
        '5' => Some(23u16),
        '9' => Some(25u16),
        '7' => Some(26u16),
        '8' => Some(28u16),
        '0' => Some(29u16),
        'o' => Some(31u16),
        'u' => Some(32u16),
        'i' => Some(34u16),
        'p' => Some(35u16),
        'l' => Some(37u16),
        'j' => Some(38u16),
        'k' => Some(40u16),
        'n' => Some(45u16),
        'm' => Some(46u16),
        _ => None,
    }
}

/// Looks a key name up in the table.
pub fn key_code(name: &str) -> (r: Option<u16>)
    ensures
        r == spec_key_code(name@),
{
    let len = name.unicode_len();
    if len == 1 {
        char_code(name.get_char(0))
    } else if str_eq(name, "return") {
        Some(36u16)
    } else if str_eq(name, "tab") {
        Some(48u16)
    } else if str_eq(name, "space") {
        Some(49u16)
    } else if str_eq(name, "delete") {
        Some(51u16)
    } else if str_eq(name, "escape") {
        Some(53u16)
    } else {
        None
    }
}

} // verus!
