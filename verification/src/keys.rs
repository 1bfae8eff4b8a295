//! The character-to-keystroke table.
//!
//! Each supported character resolves to a physical key identifier and a
//! flag saying whether shift must be held. The table is intentionally
//! partial: it covers the letters, the digits and four punctuation marks
//! (`-`, `?`, `!`, `,`); every other character, space and period included,
//! has no entry and produces no keystroke. `?` and `!` come from shifted
//! physical keys (shift+slash and shift+1) rather than keys of their own.

use vstd::prelude::*;

verus! {

/// An abstract name for a physical key on a standard keyboard,
/// independent of the character it produces.
#[derive(Clone, Copy, Debug, PartialEq, Eq, Structural)]
pub enum KeyId {
    KeyA,
    KeyB,
    KeyC,
    KeyD,
    KeyE,
    KeyF,
    KeyG,
    KeyH,
    KeyI,
    KeyJ,
    KeyK,
    KeyL,
    KeyM,
    KeyN,
    KeyO,
    KeyP,
    KeyQ,
    KeyR,
    KeyS,
    KeyT,
    KeyU,
    KeyV,
    KeyW,
    KeyX,
    KeyY,
    KeyZ,
    Num0,
    Num1,
    Num2,
    Num3,
    Num4,
    Num5,
    Num6,
    Num7,
    Num8,
    Num9,
    Minus,
    Slash,
    Comma,
    ShiftLeft,
}

/// The characters the table covers: lowercase and uppercase letters,
/// digits, and the four punctuation marks `-`, `?`, `!`, `,`.
pub open spec fn is_supported_char(c: char) -> bool {
    ('a' <= c && c <= 'z') || ('A' <= c && c <= 'Z') || ('0' <= c && c <= '9') || c == '-' || c
        == '?' || c == '!' || c == ','
}

/// The key and shift flag for one character, or `None` for a character
/// outside the table. This is the table itself: `?` and `!` map to
/// shift+slash and shift+1 by the physical layout, not by any formula.
pub open spec fn char_to_key_spec(c: char) -> Option<(KeyId, bool)> {
    match c {
        'a' => Some((KeyId::KeyA, false)),
        'b' => Some((KeyId::KeyB, false)),
        'c' => Some((KeyId::KeyC, false)),
        'd' => Some((KeyId::KeyD, false)),
        'e' => Some((KeyId::KeyE, false)),
        'f' => Some((KeyId::KeyF, false)),
        'g' => Some((KeyId::KeyG, false)),
        'h' => Some((KeyId::KeyH, false)),
        'i' => Some((KeyId::KeyI, false)),
        'j' => Some((KeyId::KeyJ, false)),
        'k' => Some((KeyId::KeyK, false)),
        'l' => Some((KeyId::KeyL, false)),
        'm' => Some((KeyId::KeyM, false)),
        'n' => Some((KeyId::KeyN, false)),
        'o' => Some((KeyId::KeyO, false)),
        'p' => Some((KeyId::KeyP, false)),
        'q' => Some((KeyId::KeyQ, false)),
        'r' => Some((KeyId::KeyR, false)),
        's' => Some((KeyId::KeyS, false)),
        't' => Some((KeyId::KeyT, false)),
        'u' => Some((KeyId::KeyU, false)),
        'v' => Some((KeyId::KeyV, false)),
        'w' => Some((KeyId::KeyW, false)),
        'x' => Some((KeyId::KeyX, false)),
        'y' => Some((KeyId::KeyY, false)),
        'z' => Some((KeyId::KeyZ, false)),
        'A' => Some((KeyId::KeyA, true)),
        'B' => Some((KeyId::KeyB, true)),
        'C' => Some((KeyId::KeyC, true)),
        'D' => Some((KeyId::KeyD, true)),
        'E' => Some((KeyId::KeyE, true)),
        'F' => Some((KeyId::KeyF, true)),
        'G' => Some((KeyId::KeyG, true)),
        'H' => Some((KeyId::KeyH, true)),
        'I' => Some((KeyId::KeyI, true)),
        'J' => Some((KeyId::KeyJ, true)),
        'K' => Some((KeyId::KeyK, true)),
        'L' => Some((KeyId::KeyL, true)),
        'M' => Some((KeyId::KeyM, true)),
        'N' => Some((KeyId::KeyN, true)),
        'O' => Some((KeyId::KeyO, true)),
        'P' => Some((KeyId::KeyP, true)),
        'Q' => Some((KeyId::KeyQ, true)),
        'R' => Some((KeyId::KeyR, true)),
        'S' => Some((KeyId::KeyS, true)),
        'T' => Some((KeyId::KeyT, true)),
        'U' => Some((KeyId::KeyU, true)),
        'V' => Some((KeyId::KeyV, true)),
        'W' => Some((KeyId::KeyW, true)),
        'X' => Some((KeyId::KeyX, true)),
        'Y' => Some((KeyId::KeyY, true)),
        'Z' => Some((KeyId::KeyZ, true)),
        '0' => Some((KeyId::Num0, false)),
        '1' => Some((KeyId::Num1, false)),
        '2' => Some((KeyId::Num2, false)),
        '3' => Some((KeyId::Num3, false)),
        '4' => Some((KeyId::Num4, false)),
        '5' => Some((KeyId::Num5, false)),
        '6' => Some((KeyId::Num6, false)),
        '7' => Some((KeyId::Num7, false)),
        '8' => Some((KeyId::Num8, false)),
        '9' => Some((KeyId::Num9, false)),
        '-' => Some((KeyId::Minus, false)),
        '?' => Some((KeyId::Slash, true)),
        '!' => Some((KeyId::Num1, true)),
        ',' => Some((KeyId::Comma, false)),
        _ => None,
    }
}

/// Look one character up in the table. Characters outside the table get
/// `None` and are meant to be skipped, not treated as errors.
pub fn char_to_key(c: char) -> (r: Option<(KeyId, bool)>)
    ensures
        r == char_to_key_spec(c),
        r.is_some() <==> is_supported_char(c),
{
    match c {
        'a' => Some((KeyId::KeyA, false)),
        'b' => Some((KeyId::KeyB, false)),
        'c' => Some((KeyId::KeyC, false)),
        'd' => Some((KeyId::KeyD, false)),
        'e' => Some((KeyId::KeyE, false)),
        'f' => Some((KeyId::KeyF, false)),
        'g' => Some((KeyId::KeyG, false)),
        'h' => Some((KeyId::KeyH, false)),
        'i' => Some((KeyId::KeyI, false)),
        'j' => Some((KeyId::KeyJ, false)),
        'k' => Some((KeyId::KeyK, false)),
        'l' => Some((KeyId::KeyL, false)),
        'm' => Some((KeyId::KeyM, false)),
        'n' => Some((KeyId::KeyN, false)),
        'o' => Some((KeyId::KeyO, false)),
        'p' => Some((KeyId::KeyP, false)),
        'q' => Some((KeyId::KeyQ, false)),
        'r' => Some((KeyId::KeyR, false)),
        's' => Some((KeyId::KeyS, false)),
        't' => Some((KeyId::KeyT, false)),
        'u' => Some((KeyId::KeyU, false)),
        'v' => Some((KeyId::KeyV, false)),
        'w' => Some((KeyId::KeyW, false)),
        'x' => Some((KeyId::KeyX, false)),
        'y' => Some((KeyId::KeyY, false)),
        'z' => Some((KeyId::KeyZ, false)),
        'A' => Some((KeyId::KeyA, true)),
        'B' => Some((KeyId::KeyB, true)),
        'C' => Some((KeyId::KeyC, true)),
        'D' => Some((KeyId::KeyD, true)),
        'E' => Some((KeyId::KeyE, true)),
        'F' => Some((KeyId::KeyF, true)),
        'G' => Some((KeyId::KeyG, true)),
        'H' => Some((KeyId::KeyH, true)),
        'I' => Some((KeyId::KeyI, true)),
        'J' => Some((KeyId::KeyJ, true)),
        'K' => Some((KeyId::KeyK, true)),
        'L' => Some((KeyId::KeyL, true)),
        'M' => Some((KeyId::KeyM, true)),
        'N' => Some((KeyId::KeyN, true)),
        'O' => Some((KeyId::KeyO, true)),
        'P' => Some((KeyId::KeyP, true)),
        'Q' => Some((KeyId::KeyQ, true)),
        'R' => Some((KeyId::KeyR, true)),
        'S' => Some((KeyId::KeyS, true)),
        'T' => Some((KeyId::KeyT, true)),
        'U' => Some((KeyId::KeyU, true)),
        'V' => Some((KeyId::KeyV, true)),
        'W' => Some((KeyId::KeyW, true)),
        'X' => Some((KeyId::KeyX, true)),
        'Y' => Some((KeyId::KeyY, true)),
        'Z' => Some((KeyId::KeyZ, true)),
        '0' => Some((KeyId::Num0, false)),
        '1' => Some((KeyId::Num1, false)),
        '2' => Some((KeyId::Num2, false)),
        '3' => Some((KeyId::Num3, false)),
        '4' => Some((KeyId::Num4, false)),
        '5' => Some((KeyId::Num5, false)),
        '6' => Some((KeyId::Num6, false)),
        '7' => Some((KeyId::Num7, false)),
        '8' => Some((KeyId::Num8, false)),
        '9' => Some((KeyId::Num9, false)),
        '-' => Some((KeyId::Minus, false)),
        '?' => Some((KeyId::Slash, true)),
        '!' => Some((KeyId::Num1, true)),
        ',' => Some((KeyId::Comma, false)),
        _ => None,
    }
}

/// Case-mapping law: an uppercase letter resolves to the same physical
/// key as its lowercase counterpart, differing only in the shift flag
/// (false for the lowercase form, true for the uppercase one).
pub proof fn lemma_case_mapping(lo: char, up: char)
    requires
        'a' <= lo && lo <= 'z',
        up as int == lo as int - 32,
    ensures
        char_to_key_spec(lo).is_some(),
        char_to_key_spec(up).is_some(),
        (char_to_key_spec(up)->Some_0).0 == (char_to_key_spec(lo)->Some_0).0,
        (char_to_key_spec(lo)->Some_0).1 == false,
        (char_to_key_spec(up)->Some_0).1 == true,
{
}

} // verus!
