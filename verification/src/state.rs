//! The mathematical model of the machine: what a machine is, apart from how
//! it is stored.

use vstd::prelude::*;
use crate::font::FONTSET;

verus! {

/// Number of bytes of memory.
pub const RAM_SIZE: usize = 4096;

/// Number of general-purpose registers.
pub const NUM_REGS: usize = 16;

/// Number of return addresses the stack can hold.
pub const STACK_SIZE: usize = 16;

/// Number of keys on the keypad.
pub const NUM_KEYS: usize = 16;

/// Number of pixels of the display, stored row by row.
pub const SCREEN_SIZE: usize = 2048;

/// Address at which programs are loaded and at which execution starts.
pub const START_ADDR: u16 = 0x200;

/// Number of the register that receives carry, borrow, shift and collision flags.
pub const FLAG_REGISTER: usize = 0xF;

/// The complete state of a machine.
#[verifier::ext_equal]
pub struct MachineState {
    /// Address of the next instruction.
    pub program_counter: u16,
    /// The 4096 bytes of memory.
    pub memory: Seq<u8>,
    /// The registers `V0` to `VF`.
    pub registers: Seq<u8>,
    /// The index register `I`.
    pub index_register: u16,
    /// The sixteen stack slots; those below `stack_pointer` are in use.
    pub stack: Seq<u16>,
    /// Number of return addresses on the stack: the next free slot.
    pub stack_pointer: nat,
    /// For each key, whether it is held down.
    pub keypad: Seq<bool>,
    /// The delay timer.
    pub delay_timer: u8,
    /// The sound timer.
    pub sound_timer: u8,
    /// The pixels, row by row: the pixel at `(x, y)` is cell `y * 64 + x`.
    pub framebuffer: Seq<bool>,
}

impl MachineState {
    /// The sizes are the fixed ones and the stack pointer is within the stack.
    pub open spec fn wf(self) -> bool {
        &&& self.memory.len() == RAM_SIZE
        &&& self.registers.len() == NUM_REGS
        &&& self.stack.len() == STACK_SIZE
        &&& self.stack_pointer <= STACK_SIZE
        &&& self.keypad.len() == NUM_KEYS
        &&& self.framebuffer.len() == SCREEN_SIZE
    }

    /// The state of a machine that was just built or reset: execution starts
    /// at `START_ADDR`, memory holds the font followed by zeros, and
    /// everything else is zero or off.
    pub open spec fn initial() -> MachineState {
        MachineState {
            program_counter: START_ADDR,
            memory: Seq::new(RAM_SIZE as nat, |i: int| if i < FONTSET@.len() { FONTSET@[i] } else { 0u8 }),
            registers: Seq::new(NUM_REGS as nat, |i: int| 0u8),
            index_register: 0,
            stack: Seq::new(STACK_SIZE as nat, |i: int| 0u16),
            stack_pointer: 0,
            keypad: Seq::new(NUM_KEYS as nat, |i: int| false),
            delay_timer: 0,
            sound_timer: 0,
            framebuffer: Seq::new(SCREEN_SIZE as nat, |i: int| false),
        }
    }
}

} // verus!
