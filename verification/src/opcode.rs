//! Splitting a 16-bit instruction word into its fields.
//!
//! An instruction word is read as four 4-bit nibbles, most significant first.
//! Depending on the instruction, the second and third nibble name the
//! registers `X` and `Y`, the low byte is an immediate `NN`, and the low
//! twelve bits are an address `NNN`.

use vstd::prelude::*;

verus! {

/// The four nibbles of `op`, most significant first.
pub open spec fn nibbles_of(op: u16) -> (int, int, int, int) {
    (op as int / 0x1000, (op as int / 0x100) % 0x10, (op as int / 0x10) % 0x10, op as int % 0x10)
}

/// The register number `X`: the second nibble of `op`.
pub open spec fn x_of(op: u16) -> int {
    nibbles_of(op).1
}

/// The immediate byte `NN`: the low eight bits of `op`.
pub open spec fn byte_of(op: u16) -> u8 {
    (op as int % 0x100) as u8
}

/// The address `NNN`: the low twelve bits of `op`.
pub open spec fn address_of(op: u16) -> u16 {
    (op as int % 0x1000) as u16
}

/// Splits `op` into its four nibbles, most significant first.
pub fn decode(op: u16) -> (digits: (u8, u8, u8, u8))
    ensures
        digits.0 as int == nibbles_of(op).0,
        digits.1 as int == nibbles_of(op).1,
        digits.2 as int == nibbles_of(op).2,
        digits.3 as int == nibbles_of(op).3,
        digits.0 < 16 && digits.1 < 16 && digits.2 < 16 && digits.3 < 16,
{
    let digit1 = (op & 0xF000) >> 12;
    let digit2 = (op & 0x0F00) >> 8;
    let digit3 = (op & 0x00F0) >> 4;
    let digit4 = op & 0x000F;
    assert(digit1 == op / 0x1000 && digit1 < 16) by (bit_vector)
        requires
            digit1 == (op & 0xF000) >> 12,
    ;
    assert(digit2 == (op / 0x100) % 0x10 && digit2 < 16) by (bit_vector)
        requires
            digit2 == (op & 0x0F00) >> 8,
    ;
    assert(digit3 == (op / 0x10) % 0x10 && digit3 < 16) by (bit_vector)
        requires
            digit3 == (op & 0x00F0) >> 4,
    ;
    assert(digit4 == op % 0x10 && digit4 < 16) by (bit_vector)
        requires
            digit4 == op & 0x000F,
    ;
    (digit1 as u8, digit2 as u8, digit3 as u8, digit4 as u8)
}

/// The immediate byte `NN` of `op`.
pub fn immediate_byte(op: u16) -> (nn: u8)
    ensures
        nn == byte_of(op),
{
    let low = op & 0x00FF;
    assert(low == op % 0x100 && low < 0x100) by (bit_vector)
        requires
            low == op & 0x00FF,
    ;
    low as u8
}

/// The address `NNN` of `op`.
pub fn immediate_address(op: u16) -> (nnn: u16)
    ensures
        nnn == address_of(op),
        nnn < 0x1000,
{
    let nnn = op & 0x0FFF;
    assert(nnn == op % 0x1000 && nnn < 0x1000) by (bit_vector)
        requires
            nnn == op & 0x0FFF,
    ;
    nnn
}

} // verus!
