//! What each operation of the machine does, stated on `MachineState`.
//!
//! Every operation either yields the next state or a `Fault`. A fault leaves
//! the machine as it was before the operation.
//!
//! Instructions and timers run on separate clocks: an instruction cycle
//! (`stepped`) never lets the timers decay, and a tick of the 60 Hz clock
//! (`timers_ticked`) never runs an instruction.

use vstd::prelude::*;
use crate::alu::{alu, flag, is_alu_operation, wrap8};
use crate::display::sprite_at;
use crate::fault::Fault;
use crate::keypad::lowest_pressed;
use crate::opcode::{address_of, byte_of, nibbles_of};
use crate::state::{MachineState, RAM_SIZE, STACK_SIZE, START_ADDR};

verus! {

/// `value` reduced modulo 65536: the result of 16-bit arithmetic that wraps.
pub open spec fn wrap16(value: int) -> u16 {
    (value % 0x10000) as u16
}

/// The three decimal digits of `value`: hundreds, tens, ones.
pub open spec fn bcd(value: u8) -> Seq<u8> {
    seq![value / 100, (value / 10) % 10, value % 10]
}

/// `op` belongs to the instruction set.
///
/// | instruction | | instruction | |
/// |---|---|---|---|
/// | `00E0` | clear the display | `8XY?` | arithmetic, for `?` in 0 to 7 and E |
/// | `00EE` | return | `9XY0` | skip if `Vx != Vy` |
/// | `1NNN` | jump | `ANNN` | set the index register |
/// | `2NNN` | call | `BNNN` | jump to `V0 + NNN` |
/// | `3XNN` | skip if `Vx == NN` | `CXNN` | random byte and `NN` |
/// | `4XNN` | skip if `Vx != NN` | `DXYN` | draw a sprite |
/// | `5XY0` | skip if `Vx == Vy` | `EX9E` | skip if the key in `Vx` is pressed |
/// | `6XNN` | set `Vx` | `FX07`, `FX0A` | read the delay timer, wait for a key |
/// | `7XNN` | add to `Vx` | `FX15`, `FX18`, `FX33` | set a timer, store decimal digits |
pub open spec fn is_implemented(op: u16) -> bool {
    let (class, x, y, n) = nibbles_of(op);
    ||| class == 0 && x == 0 && y == 0xE && (n == 0 || n == 0xE)
    ||| 1 <= class <= 4
    ||| 6 <= class <= 7
    ||| 0xA <= class <= 0xD
    ||| (class == 5 || class == 9) && n == 0
    ||| class == 8 && is_alu_operation(n)
    ||| class == 0xE && y == 9 && n == 0xE
    ||| class == 0xF && y == 0 && (n == 7 || n == 0xA)
    ||| class == 0xF && y == 1 && (n == 5 || n == 8)
    ||| class == 0xF && y == 3 && n == 3
}

/// `op` is the instruction that draws a random byte.
pub open spec fn uses_random(op: u16) -> bool {
    nibbles_of(op).0 == 0xC
}

impl MachineState {
    /// This state with the program counter set to `address`.
    pub open spec fn jump(self, address: u16) -> MachineState {
        MachineState { program_counter: address, ..self }
    }

    /// This state with the next instruction skipped if `condition` holds.
    pub open spec fn skip_if(self, condition: bool) -> MachineState {
        if condition {
            self.jump(wrap16(self.program_counter + 2))
        } else {
            self
        }
    }

    /// This state with register `x` set to `value`.
    pub open spec fn set_register(self, x: int, value: u8) -> MachineState {
        MachineState { registers: self.registers.update(x, value), ..self }
    }

    /// This state with `value` pushed onto the stack, or the fault if the
    /// stack is full.
    pub open spec fn pushed(self, value: u16) -> Result<MachineState, Fault> {
        if self.stack_pointer >= STACK_SIZE {
            Err(Fault::StackOverflow)
        } else {
            Ok(
                MachineState {
                    stack: self.stack.update(self.stack_pointer as int, value),
                    stack_pointer: self.stack_pointer + 1,
                    ..self
                },
            )
        }
    }

    /// The top of the stack and this state without it, or the fault if the
    /// stack is empty.
    pub open spec fn popped(self) -> Result<(u16, MachineState), Fault> {
        if self.stack_pointer == 0 {
            Err(Fault::StackUnderflow)
        } else {
            Ok(
                (
                    self.stack[self.stack_pointer - 1],
                    MachineState { stack_pointer: (self.stack_pointer - 1) as nat, ..self },
                ),
            )
        }
    }

    /// The instruction word at the program counter, high byte first, and
    /// this state with the program counter moved past it; or the fault if the
    /// word does not lie within memory.
    pub open spec fn fetched(self) -> Result<(u16, MachineState), Fault> {
        let pc = self.program_counter as int;
        if pc + 1 >= RAM_SIZE {
            Err(Fault::MemoryOutOfBounds)
        } else {
            Ok(((self.memory[pc] * 0x100 + self.memory[pc + 1]) as u16, self.jump((pc + 2) as u16)))
        }
    }

    /// The fault that executing `op` in this state raises, if any.
    pub open spec fn fault_of(self, op: u16) -> Option<Fault> {
        let (class, x, y, n) = nibbles_of(op);
        if !is_implemented(op) {
            Some(Fault::UnimplementedOpcode(op))
        } else if class == 0 && n == 0xE && self.stack_pointer == 0 {
            Some(Fault::StackUnderflow)
        } else if class == 2 && self.stack_pointer >= STACK_SIZE {
            Some(Fault::StackOverflow)
        } else if class == 0xD && n > 0 && self.index_register + n > RAM_SIZE {
            Some(Fault::MemoryOutOfBounds)
        } else if class == 0xF && y == 3 && self.index_register + 2 >= RAM_SIZE {
            Some(Fault::MemoryOutOfBounds)
        } else {
            None
        }
    }

    /// The state after `00E0`: every pixel is off.
    pub open spec fn clear_screen(self) -> MachineState {
        MachineState { framebuffer: Seq::new(self.framebuffer.len(), |cell: int| false), ..self }
    }

    /// The state after `00EE`: the program counter is the address popped
    /// from the stack.
    pub open spec fn ret(self) -> MachineState {
        MachineState {
            program_counter: self.stack[self.stack_pointer - 1],
            stack_pointer: (self.stack_pointer - 1) as nat,
            ..self
        }
    }

    /// The state after `2NNN`: the program counter is pushed and then set to
    /// `address`.
    pub open spec fn call(self, address: u16) -> MachineState {
        MachineState {
            program_counter: address,
            stack: self.stack.update(self.stack_pointer as int, self.program_counter),
            stack_pointer: self.stack_pointer + 1,
            ..self
        }
    }

    /// The state after the sprite of `height` rows at the index register
    /// was drawn at `(x, y)`: the covered pixels are flipped, and the flag
    /// register tells whether a lit pixel was turned off.
    pub open spec fn drawn(self, x: u8, y: u8, height: int) -> MachineState {
        let sprite = sprite_at(self.memory, self.index_register as int, height, x, y);
        MachineState {
            framebuffer: sprite.drawn_onto(self.framebuffer),
            registers: self.registers.update(0xF, flag(sprite.collides_with(self.framebuffer))),
            ..self
        }
    }

    /// The state after `FX0A`: register `x` receives the lowest pressed key;
    /// with no key pressed the program counter is moved back onto the
    /// instruction, so that it runs again.
    pub open spec fn wait_for_key(self, x: int) -> MachineState {
        match lowest_pressed(self.keypad) {
            Some(key) => self.set_register(x, key as u8),
            None => self.jump(wrap16(self.program_counter - 2)),
        }
    }

    /// The state after the decimal digits of `value` were stored at the
    /// index register and the two bytes after it.
    pub open spec fn bcd_stored(self, value: u8) -> MachineState {
        let at = self.index_register as int;
        let digits = bcd(value);
        MachineState {
            memory: self.memory.update(at, digits[0]).update(at + 1, digits[1]).update(at + 2, digits[2]),
            ..self
        }
    }

    /// The state after executing the implemented instruction `op`, where
    /// `random` is the byte drawn for `CXNN`.
    pub open spec fn effect_of(self, op: u16, random: u8) -> MachineState {
        let (class, x, y, n) = nibbles_of(op);
        let nn = byte_of(op);
        let nnn = address_of(op);
        let vx = self.registers[x];
        let vy = self.registers[y];
        if class == 0 && n == 0 {
            self.clear_screen()
        } else if class == 0 {
            self.ret()
        } else if class == 1 {
            self.jump(nnn)
        } else if class == 2 {
            self.call(nnn)
        } else if class == 3 {
            self.skip_if(vx == nn)
        } else if class == 4 {
            self.skip_if(vx != nn)
        } else if class == 5 {
            self.skip_if(vx == vy)
        } else if class == 6 {
            self.set_register(x, nn)
        } else if class == 7 {
            self.set_register(x, wrap8(vx + nn))
        } else if class == 8 {
            MachineState { registers: alu(self.registers, x, y, n), ..self }
        } else if class == 9 {
            self.skip_if(vx != vy)
        } else if class == 0xA {
            MachineState { index_register: nnn, ..self }
        } else if class == 0xB {
            self.jump((self.registers[0] + nnn) as u16)
        } else if class == 0xC {
            self.set_register(x, random & nn)
        } else if class == 0xD {
            self.drawn(vx, vy, n)
        } else if class == 0xE {
            self.skip_if(vx < 16 && self.keypad[vx as int])
        } else if y == 0 && n == 7 {
            self.set_register(x, self.delay_timer)
        } else if y == 0 {
            self.wait_for_key(x)
        } else if y == 1 && n == 5 {
            MachineState { delay_timer: vx, ..self }
        } else if y == 1 {
            MachineState { sound_timer: vx, ..self }
        } else {
            self.bcd_stored(vx)
        }
    }

    /// The state after executing `op`, or the fault that it raises.
    pub open spec fn executed(self, op: u16, random: u8) -> Result<MachineState, Fault> {
        match self.fault_of(op) {
            Some(fault) => Err(fault),
            None => Ok(self.effect_of(op, random)),
        }
    }

    /// The state after one instruction cycle: fetch, then execute.
    pub open spec fn stepped(self, random: u8) -> Result<MachineState, Fault> {
        match self.fetched() {
            Ok((op, next)) => next.executed(op, random),
            Err(fault) => Err(fault),
        }
    }

    /// The state after one tick of the 60 Hz clock: each timer that is not
    /// zero goes down by one.
    pub open spec fn timers_ticked(self) -> MachineState {
        MachineState {
            delay_timer: if self.delay_timer > 0 {
                (self.delay_timer - 1) as u8
            } else {
                0
            },
            sound_timer: if self.sound_timer > 0 {
                (self.sound_timer - 1) as u8
            } else {
                0
            },
            ..self
        }
    }

    /// The next instruction cycle draws a random byte: the instruction at
    /// the program counter is `CXNN`.
    pub open spec fn draws_random(self) -> bool {
        match self.fetched() {
            Ok((op, next)) => uses_random(op),
            Err(fault) => false,
        }
    }

    /// This state with `program` copied into memory from `START_ADDR` on.
    pub open spec fn program_loaded(self, program: Seq<u8>) -> MachineState {
        MachineState {
            memory: Seq::new(
                self.memory.len(),
                |i: int|
                    if START_ADDR <= i < START_ADDR + program.len() {
                        program[i - START_ADDR]
                    } else {
                        self.memory[i]
                    },
            ),
            ..self
        }
    }

    /// A tick of the clock in this state signals the tone: the sound timer
    /// is about to reach zero.
    pub open spec fn tone_signalled(self) -> bool {
        self.sound_timer == 1
    }
}

/// Whether a machine that went from `before` to `after` and reported
/// `reported` did what `expected` says: on success it is in the expected
/// state, on a fault it reports that fault and is unchanged.
pub open spec fn follows(
    expected: Result<MachineState, Fault>,
    before: MachineState,
    after: MachineState,
    reported: Result<(), Fault>,
) -> bool {
    match expected {
        Ok(next) => reported is Ok && after == next,
        Err(fault) => reported == Err::<(), Fault>(fault) && after == before,
    }
}

/// As `follows`, for an operation that also hands back a value: on success
/// it reports the expected value and is in the expected state, on a fault it
/// reports that fault and is unchanged.
pub open spec fn yields<T>(
    expected: Result<(T, MachineState), Fault>,
    before: MachineState,
    after: MachineState,
    reported: Result<T, Fault>,
) -> bool {
    match expected {
        Ok((value, next)) => reported == Ok::<T, Fault>(value) && after == next,
        Err(fault) => reported == Err::<T, Fault>(fault) && after == before,
    }
}

} // verus!
