//! The built-in hexadecimal font: sixteen glyphs of five bytes each.

use vstd::prelude::*;

verus! {

/// Number of bytes taken by the font at the start of memory.
pub const FONTSET_SIZE: usize = 80;

/// The glyphs for the digits `0` to `F`, five rows per glyph, one byte per row.
pub const FONTSET: [u8; 80] = [
    0xF0, 0x90, 0x90, 0x90, 0xF0,
    0x20, 0x60, 0x20, 0x20, 0x70,
    0xF0, 0x10, 0xF0, 0x80, 0xF0,
    0xF0, 0x10, 0xF0, 0x10, 0xF0,
    0x90, 0x90, 0xF0, 0x10, 0x10,
    0xF0, 0x80, 0xF0, 0x10, 0xF0,
    0xF0, 0x80, 0xF0, 0x90, 0xF0,
    0xF0, 0x10, 0x20, 0x40, 0x40,
    0xF0, 0x90, 0xF0, 0x90, 0xF0,
    0xF0, 0x90, 0xF0, 0x10, 0xF0,
    0xF0, 0x90, 0xF0, 0x90, 0x90,
    0xE0, 0x90, 0xE0, 0x90, 0xE0,
    0xF0, 0x80, 0x80, 0x80, 0xF0,
    0xE0, 0x90, 0x90, 0x90, 0xE0,
    0xF0, 0x80, 0xF0, 0x80, 0xF0,
    0xF0, 0x80, 0xF0, 0x80, 0x80,
];

/// `memory` with its first bytes replaced by the font.
pub open spec fn with_font(memory: Seq<u8>) -> Seq<u8> {
    Seq::new(memory.len(), |i: int| if i < FONTSET@.len() { FONTSET@[i] } else { memory[i] })
}

/// Copies the font into the first bytes of `memory`.
pub fn load_font(memory: &mut [u8; 4096])
    ensures
        final(memory)@ == with_font(old(memory)@),
{
    let mut i: usize = 0;
    while i < FONTSET_SIZE
        invariant
            i <= FONTSET_SIZE,
            forall|j: int| 0 <= j < i ==> memory@[j] == FONTSET@[j],
            forall|j: int| i <= j < 4096 ==> memory@[j] == old(memory)@[j],
        decreases FONTSET_SIZE - i,
    {
        memory[i] = FONTSET[i];
        i += 1;
    }
    assert(memory@ =~= with_font(old(memory)@));
}

} // verus!
