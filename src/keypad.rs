//! The mapping from host key codes to keypad keys.
use vstd::prelude::*;

verus! {

/// The keypad key that a host key code stands for: the characters `0`-`9`
/// give keys 0-9 and `a`-`f` give keys 10-15; any other code gives none.
pub open spec fn key_of_code(code: int) -> Option<u8> {
    if 48 <= code <= 57 {
        Some((code - 48) as u8)
    } else if 97 <= code <= 102 {
        Some((code - 87) as u8)
    } else {
        None
    }
}

/// Maps a host key code (the character code of the key's label) to a keypad
/// key, or `None` for a key that has no place on the keypad.
pub fn parse_key(code: i32) -> (r: Option<u8>)
    ensures
        r == key_of_code(code as int),
        r matches Some(k) ==> k < 16,
{
    if 48 <= code && code <= 57 {
        Some((code - 48) as u8)
    } else if 97 <= code && code <= 102 {
        Some((code - 87) as u8)
    } else {
        None
    }
}

} // verus!
