//! The keyboard keys that stand for the keys of the keypad.
//!
//! Four rows of four keyboard keys are used, identified by their key codes,
//! which for these keys are the ASCII codes of the characters they type:
//!
//! ```text
//! keyboard      keypad
//! 1 2 3 4       1 2 3 C
//! q w e r       4 5 6 D
//! a s d f       7 8 9 E
//! z x c v       8 9 0 F
//! ```

use vstd::prelude::*;
use crate::state::NUM_KEYS;

verus! {

/// The key codes of the sixteen keyboard keys, row by row.
pub open spec fn keyboard_keys() -> Seq<int> {
    seq![
        0x31, 0x32, 0x33, 0x34,
        0x71, 0x77, 0x65, 0x72,
        0x61, 0x73, 0x64, 0x66,
        0x7A, 0x78, 0x63, 0x76,
    ]
}

/// The keypad keys that the keyboard keys stand for, in the same order.
pub open spec fn keypad_keys() -> Seq<int> {
    seq![
        0x1, 0x2, 0x3, 0xC,
        0x4, 0x5, 0x6, 0xD,
        0x7, 0x8, 0x9, 0xE,
        0x8, 0x9, 0x0, 0xF,
    ]
}

/// The keypad key that the keyboard key with code `code` stands for, if it
/// stands for one.
pub open spec fn keypad_key_of(code: int) -> Option<int> {
    if keyboard_keys().contains(code) {
        Some(keypad_keys()[keyboard_keys().index_of(code)])
    } else {
        None
    }
}

/// `code` is the key code at position `at` of `keyboard_keys`, where no key
/// code occurs twice.
proof fn lemma_keyboard_key_at(code: int, at: int)
    requires
        0 <= at < 16,
        keyboard_keys()[at] == code,
    ensures
        keypad_key_of(code) == Some(keypad_keys()[at]),
{
    let keys = keyboard_keys();
    assert(keys.contains(code));
    let found = keys.index_of(code);
    assert(0 <= found < 16 && keys[found] == code);
    assert(forall|i: int, j: int| 0 <= i < j < 16 ==> keys[i] != keys[j]);
}

/// Maps the key code of a keyboard key to the number of the keypad key that
/// it stands for.
pub fn map_keycode(code: i32) -> (key: Option<usize>)
    ensures
        match key {
            Some(index) => index < NUM_KEYS && keypad_key_of(code as int) == Some(index as int),
            None => keypad_key_of(code as int) is None,
        },
{
    let (at, key): (Ghost<int>, Option<usize>) = match code {
        0x31 => (Ghost(0), Some(0x1)),
        0x32 => (Ghost(1), Some(0x2)),
        0x33 => (Ghost(2), Some(0x3)),
        0x34 => (Ghost(3), Some(0xC)),
        0x71 => (Ghost(4), Some(0x4)),
        0x77 => (Ghost(5), Some(0x5)),
        0x65 => (Ghost(6), Some(0x6)),
        0x72 => (Ghost(7), Some(0xD)),
        0x61 => (Ghost(8), Some(0x7)),
        0x73 => (Ghost(9), Some(0x8)),
        0x64 => (Ghost(10), Some(0x9)),
        0x66 => (Ghost(11), Some(0xE)),
        0x7A => (Ghost(12), Some(0x8)),
        0x78 => (Ghost(13), Some(0x9)),
        0x63 => (Ghost(14), Some(0x0)),
        0x76 => (Ghost(15), Some(0xF)),
        _ => (Ghost(-1), None),
    };
    proof {
        if key is Some {
            lemma_keyboard_key_at(code as int, at@);
        } else {
            assert forall|i: int| 0 <= i < 16 implies keyboard_keys()[i] != code by {}
        }
    }
    key
}

} // verus!
