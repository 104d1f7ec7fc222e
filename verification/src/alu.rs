//! The register-to-register arithmetic of the `8XY?` instructions.

use vstd::prelude::*;
use crate::state::{FLAG_REGISTER, NUM_REGS};

verus! {

/// `value` reduced modulo 256: the result of 8-bit arithmetic that wraps.
pub open spec fn wrap8(value: int) -> u8 {
    (value % 0x100) as u8
}

/// 1 when `condition` holds and 0 otherwise: the value of a flag.
pub open spec fn flag(condition: bool) -> u8 {
    if condition {
        1
    } else {
        0
    }
}

/// `operation` selects one of the nine arithmetic instructions.
pub open spec fn is_alu_operation(operation: int) -> bool {
    0 <= operation <= 7 || operation == 0xE
}

/// The registers after the arithmetic instruction selected by `operation`
/// was applied to registers `x` and `y`.
///
/// | `operation` | register `x` becomes | flag register becomes |
/// |---|---|---|
/// | 0 | `Vy` | unchanged |
/// | 1, 2, 3 | `Vx` or, and, exclusive-or `Vy` | unchanged |
/// | 4 | `Vx + Vy` modulo 256 | 1 on carry, else 0 |
/// | 5 | `Vx - Vy` modulo 256 | 1 if `Vx >= Vy` (no borrow), else 0 |
/// | 6 | `Vy` shifted right by one | the bit of `Vy` shifted out |
/// | 7 | `Vy - Vx` modulo 256 | 1 if `Vy >= Vx` (no borrow), else 0 |
/// | 0xE | `Vy` shifted left by one | the bit of `Vy` shifted out |
///
/// The writes happen in the order given below, which matters when `x` names
/// the flag register: the later write wins. In the two shifts the flag is
/// written between the copy of `Vy` and the shift, so that with `x` naming
/// the flag register it is the flag that gets shifted.
pub open spec fn alu(registers: Seq<u8>, x: int, y: int, operation: int) -> Seq<u8> {
    let vx = registers[x];
    let vy = registers[y];
    if operation == 0 {
        registers.update(x, vy)
    } else if operation == 1 {
        registers.update(x, vx | vy)
    } else if operation == 2 {
        registers.update(x, vx & vy)
    } else if operation == 3 {
        registers.update(x, vx ^ vy)
    } else if operation == 4 {
        registers.update(x, wrap8(vx + vy)).update(0xF, flag(vx + vy > 0xFF))
    } else if operation == 5 {
        registers.update(0xF, flag(vx >= vy)).update(x, wrap8(vx - vy))
    } else if operation == 6 {
        let loaded = registers.update(x, vy).update(0xF, vy % 2);
        loaded.update(x, loaded[x] / 2)
    } else if operation == 7 {
        registers.update(0xF, flag(vy >= vx)).update(x, wrap8(vy - vx))
    } else {
        let loaded = registers.update(x, vy).update(0xF, vy / 0x80);
        loaded.update(x, wrap8(loaded[x] * 2))
    }
}

/// Applies the arithmetic instruction selected by `operation` to registers
/// `x` and `y`.
pub fn apply(registers: &mut [u8; NUM_REGS], x: usize, y: usize, operation: u8)
    requires
        x < NUM_REGS,
        y < NUM_REGS,
        is_alu_operation(operation as int),
    ensures
        final(registers)@ == alu(old(registers)@, x as int, y as int, operation as int),
{
    let vx = registers[x];
    let vy = registers[y];
    match operation {
        0 => {
            registers[x] = vy;
        },
        1 => {
            registers[x] = vx | vy;
        },
        2 => {
            registers[x] = vx & vy;
        },
        3 => {
            registers[x] = vx ^ vy;
        },
        4 => {
            let carry: u8 = if vx as u16 + vy as u16 > 0xFF {
                1
            } else {
                0
            };
            registers[x] = vx.wrapping_add(vy);
            registers[FLAG_REGISTER] = carry;
        },
        5 => {
            registers[FLAG_REGISTER] = if vx >= vy {
                1
            } else {
                0
            };
            registers[x] = vx.wrapping_sub(vy);
        },
        6 => {
            registers[x] = vy;
            registers[FLAG_REGISTER] = vy & 1;
            let loaded = registers[x];
            registers[x] = loaded >> 1;
            assert(vy & 1 == vy % 2) by (bit_vector);
            assert(loaded >> 1 == loaded / 2) by (bit_vector);
        },
        7 => {
            registers[FLAG_REGISTER] = if vy >= vx {
                1
            } else {
                0
            };
            registers[x] = vy.wrapping_sub(vx);
        },
        _ => {
            registers[x] = vy;
            registers[FLAG_REGISTER] = (vy >> 7) & 1;
            let loaded = registers[x];
            registers[x] = loaded << 1;
            assert((vy >> 7) & 1 == vy / 0x80) by (bit_vector);
            assert(loaded << 1 == (loaded * 2) % 0x100) by (bit_vector);
        },
    }
    assert(registers@ =~= alu(old(registers)@, x as int, y as int, operation as int));
}

} // verus!
