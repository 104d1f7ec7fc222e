//! The machine itself: its storage and the operations that drive it.

use vstd::prelude::*;
use crate::alu;
use crate::display::{draw_sprite, sprite_at};
use crate::dump::{ram_dump, screen_dump, shows, write_ram_dump, write_screen_dump};
use crate::fault::Fault;
use crate::font::load_font;
use crate::keypad::first_pressed_key;
use crate::opcode::{decode, immediate_address, immediate_byte};
use crate::random::random_byte;
use crate::semantics::{follows, uses_random, yields};
use crate::{SCREEN_HEIGHT, SCREEN_WIDTH};
use crate::state::{
    FLAG_REGISTER, MachineState, NUM_KEYS, NUM_REGS, RAM_SIZE, SCREEN_SIZE, STACK_SIZE, START_ADDR,
};

verus! {

/// A CHIP-8 machine.
pub struct Emu {
    pc: u16,
    ram: [u8; RAM_SIZE],
    screen: [bool; SCREEN_SIZE],
    v_reg: [u8; NUM_REGS],
    i_reg: u16,
    sp: u16,
    stack: [u16; STACK_SIZE],
    keys: [bool; NUM_KEYS],
    dt: u8,
    st: u8,
}

impl View for Emu {
    type V = MachineState;

    closed spec fn view(&self) -> MachineState {
        MachineState {
            program_counter: self.pc,
            memory: self.ram@,
            registers: self.v_reg@,
            index_register: self.i_reg,
            stack: self.stack@,
            stack_pointer: self.sp as nat,
            keypad: self.keys@,
            delay_timer: self.dt,
            sound_timer: self.st,
            framebuffer: self.screen@,
        }
    }
}

impl Emu {
    /// The machine is in a state that the operations can start from: the
    /// stack pointer is within the stack.
    pub open spec fn wf(&self) -> bool {
        self@.wf()
    }

    /// The view leaves nothing out: two machines with the same view are the
    /// same machine.
    pub proof fn lemma_view_is_faithful(self, other: Emu)
        requires
            self@ == other@,
        ensures
            self == other,
    {
        assert(self.ram =~= other.ram);
        assert(self.screen =~= other.screen);
        assert(self.v_reg =~= other.v_reg);
        assert(self.stack =~= other.stack);
        assert(self.keys =~= other.keys);
    }

    /// Builds a machine in its initial state.
    pub fn new() -> (emu: Emu)
        ensures
            emu.wf(),
            emu@ == MachineState::initial(),
    {
        let mut ram = [0u8; RAM_SIZE];
        load_font(&mut ram);
        let emu = Emu {
            pc: START_ADDR,
            ram,
            screen: [false; SCREEN_SIZE],
            v_reg: [0u8; NUM_REGS],
            i_reg: 0,
            sp: 0,
            stack: [0u16; STACK_SIZE],
            keys: [false; NUM_KEYS],
            dt: 0,
            st: 0,
        };
        assert(emu@ =~= MachineState::initial());
        emu
    }

    /// Puts the machine back into its initial state, whatever state it was in.
    pub fn reset(&mut self)
        ensures
            final(self).wf(),
            final(self)@ == MachineState::initial(),
    {
        self.pc = START_ADDR;
        self.ram = [0u8; RAM_SIZE];
        self.screen = [false; SCREEN_SIZE];
        self.v_reg = [0u8; NUM_REGS];
        self.i_reg = 0;
        self.sp = 0;
        self.stack = [0u16; STACK_SIZE];
        self.keys = [false; NUM_KEYS];
        self.dt = 0;
        self.st = 0;
        load_font(&mut self.ram);
        assert(self@ =~= MachineState::initial());
    }

    /// Pushes `val` onto the stack.
    pub fn push(&mut self, val: u16) -> (pushed: Result<(), Fault>)
        requires
            old(self).wf(),
        ensures
            final(self).wf(),
            follows(old(self)@.pushed(val), old(self)@, final(self)@, pushed),
    {
        if self.sp as usize >= STACK_SIZE {
            return Err(Fault::StackOverflow);
        }
        self.stack[self.sp as usize] = val;
        self.sp += 1;
        Ok(())
    }

    /// Takes the most recently pushed value off the stack.
    pub fn pop(&mut self) -> (popped: Result<u16, Fault>)
        requires
            old(self).wf(),
        ensures
            final(self).wf(),
            yields(old(self)@.popped(), old(self)@, final(self)@, popped),
    {
        if self.sp == 0 {
            return Err(Fault::StackUnderflow);
        }
        self.sp -= 1;
        Ok(self.stack[self.sp as usize])
    }

    /// Reads the instruction word at the program counter, high byte first,
    /// and moves the program counter past it.
    pub fn fetch(&mut self) -> (fetched: Result<u16, Fault>)
        requires
            old(self).wf(),
        ensures
            final(self).wf(),
            yields(old(self)@.fetched(), old(self)@, final(self)@, fetched),
    {
        let pc = self.pc as usize;
        if pc + 1 >= RAM_SIZE {
            return Err(Fault::MemoryOutOfBounds);
        }
        let higher_byte = self.ram[pc] as u16;
        let lower_byte = self.ram[pc + 1] as u16;
        let op = (higher_byte << 8) | lower_byte;
        assert(op == higher_byte * 0x100 + lower_byte) by (bit_vector)
            requires
                op == (higher_byte << 8) | lower_byte,
                higher_byte < 0x100,
                lower_byte < 0x100,
        ;
        self.pc += 2;
        Ok(op)
    }

    /// Executes the instruction `op`, with `random` as the byte that `CXNN`
    /// draws.
    ///
    /// The program counter is expected to have been moved past the
    /// instruction already, as `fetch` does.
    pub fn execute_with(&mut self, op: u16, random: u8) -> (done: Result<(), Fault>)
        requires
            old(self).wf(),
        ensures
            final(self).wf(),
            follows(old(self)@.executed(op, random), old(self)@, final(self)@, done),
    {
        let (digit1, digit2, digit3, digit4) = decode(op);
        let x = digit2 as usize;
        let y = digit3 as usize;
        let nn = immediate_byte(op);
        let nnn = immediate_address(op);
        let vx = self.v_reg[x];
        let vy = self.v_reg[y];

        match (digit1, digit2, digit3, digit4) {
            (0, 0, 0xE, 0) => {
                self.screen = [false; SCREEN_SIZE];
                assert(self@ =~= old(self)@.clear_screen());
                Ok(())
            },
            (0, 0, 0xE, 0xE) => {
                match self.pop() {
                    Ok(ret_addr) => {
                        self.pc = ret_addr;
                        Ok(())
                    },
                    Err(fault) => Err(fault),
                }
            },
            (1, _, _, _) => {
                self.pc = nnn;
                Ok(())
            },
            (2, _, _, _) => {
                match self.push(self.pc) {
                    Ok(()) => {
                        self.pc = nnn;
                        Ok(())
                    },
                    Err(fault) => Err(fault),
                }
            },
            (3, _, _, _) => {
                self.skip_if(vx == nn);
                Ok(())
            },
            (4, _, _, _) => {
                self.skip_if(vx != nn);
                Ok(())
            },
            (5, _, _, 0) => {
                self.skip_if(vx == vy);
                Ok(())
            },
            (6, _, _, _) => {
                self.set_register(x, nn);
                Ok(())
            },
            (7, _, _, _) => {
                self.set_register(x, vx.wrapping_add(nn));
                Ok(())
            },
            (8, _, _, 0..=7) | (8, _, _, 0xE) => {
                alu::apply(&mut self.v_reg, x, y, digit4);
                Ok(())
            },
            (9, _, _, 0) => {
                self.skip_if(vx != vy);
                Ok(())
            },
            (0xA, _, _, _) => {
                self.i_reg = nnn;
                Ok(())
            },
            (0xB, _, _, _) => {
                self.pc = self.v_reg[0] as u16 + nnn;
                Ok(())
            },
            (0xC, _, _, _) => {
                self.set_register(x, random & nn);
                Ok(())
            },
            (0xD, _, _, _) => self.draw(vx, vy, digit4),
            (0xE, _, 9, 0xE) => {
                let key = vx as usize;
                self.skip_if(key < NUM_KEYS && self.keys[key]);
                Ok(())
            },
            (0xF, _, 0, 7) => {
                self.set_register(x, self.dt);
                Ok(())
            },
            (0xF, _, 0, 0xA) => {
                match first_pressed_key(&self.keys) {
                    Some(key) => {
                        self.set_register(x, key);
                    },
                    None => {
                        self.pc = self.pc.wrapping_sub(2);
                    },
                }
                Ok(())
            },
            (0xF, _, 1, 5) => {
                self.dt = vx;
                Ok(())
            },
            (0xF, _, 1, 8) => {
                self.st = vx;
                Ok(())
            },
            (0xF, _, 3, 3) => self.store_bcd(vx),
            _ => Err(Fault::UnimplementedOpcode(op)),
        }
    }

    /// Skips the next instruction if `condition` holds.
    fn skip_if(&mut self, condition: bool)
        ensures
            final(self)@ == old(self)@.skip_if(condition),
    {
        if condition {
            self.pc = self.pc.wrapping_add(2);
        }
    }

    /// Draws the sprite of `height` rows found at the index register at
    /// `(x, y)`, and sets the flag register to 1 if that turned a lit pixel
    /// off and to 0 otherwise.
    fn draw(&mut self, x: u8, y: u8, height: u8) -> (done: Result<(), Fault>)
        requires
            height < 16,
        ensures
            follows(
                if height > 0 && old(self)@.index_register + height > RAM_SIZE {
                    Err(Fault::MemoryOutOfBounds)
                } else {
                    Ok(old(self)@.drawn(x, y, height as int))
                },
                old(self)@,
                final(self)@,
                done,
            ),
    {
        let index = self.i_reg as usize;
        if height > 0 && index + height as usize > RAM_SIZE {
            return Err(Fault::MemoryOutOfBounds);
        }
        let collision = if height > 0 {
            draw_sprite(&mut self.screen, &self.ram, index, height, x, y)
        } else {
            proof {
                let sprite = sprite_at(self.ram@, index as int, 0, x, y);
                assert(self.screen@ =~= sprite.drawn_onto(self.screen@));
            }
            false
        };
        self.v_reg[FLAG_REGISTER] = if collision {
            1
        } else {
            0
        };
        assert(self@ =~= old(self)@.drawn(x, y, height as int));
        Ok(())
    }

    /// Stores the three decimal digits of `value` at the index register and
    /// the two bytes after it.
    fn store_bcd(&mut self, value: u8) -> (done: Result<(), Fault>)
        ensures
            follows(
                if old(self)@.index_register + 2 >= RAM_SIZE {
                    Err(Fault::MemoryOutOfBounds)
                } else {
                    Ok(old(self)@.bcd_stored(value))
                },
                old(self)@,
                final(self)@,
                done,
            ),
    {
        let at = self.i_reg as usize;
        if at + 2 >= RAM_SIZE {
            return Err(Fault::MemoryOutOfBounds);
        }
        self.ram[at] = value / 100;
        self.ram[at + 1] = (value / 10) % 10;
        self.ram[at + 2] = value % 10;
        assert(self@ =~= old(self)@.bcd_stored(value));
        Ok(())
    }

    /// Executes the instruction `op`, drawing a random byte if it is `CXNN`.
    ///
    /// The outcome is that of `execute_with` for the byte drawn; for every
    /// other instruction no byte is drawn and the outcome is determined.
    pub fn execute(&mut self, op: u16) -> (done: Result<(), Fault>)
        requires
            old(self).wf(),
        ensures
            final(self).wf(),
            exists|random: u8|
                follows(#[trigger] old(self)@.executed(op, random), old(self)@, final(self)@, done),
            !uses_random(op) ==> follows(old(self)@.executed(op, 0), old(self)@, final(self)@, done),
    {
        let (class, _, _, _) = decode(op);
        let random = if class == 0xC {
            random_byte()
        } else {
            0
        };
        self.execute_with(op, random)
    }

    /// Runs one instruction cycle: fetches the instruction at the program
    /// counter and executes it.
    ///
    /// A fault, whether raised by the fetch or by the instruction, leaves the
    /// machine as it was, with the program counter on the faulting instruction.
    pub fn step(&mut self) -> (done: Result<(), Fault>)
        requires
            old(self).wf(),
        ensures
            final(self).wf(),
            exists|random: u8|
                follows(#[trigger] old(self)@.stepped(random), old(self)@, final(self)@, done),
            !old(self)@.draws_random() ==> follows(
                old(self)@.stepped(0),
                old(self)@,
                final(self)@,
                done,
            ),
    {
        let start = self.pc;
        match self.fetch() {
            Ok(op) => {
                let ghost fetched = self@;
                let done = self.execute(op);
                let ghost drawn = choose|random: u8|
                    follows(#[trigger] fetched.executed(op, random), fetched, self@, done);
                if let Err(_) = done {
                    self.pc = start;
                    assert(self@ =~= old(self)@);
                }
                assert(follows(old(self)@.stepped(drawn), old(self)@, self@, done));
                done
            },
            Err(fault) => {
                assert(follows(old(self)@.stepped(0), old(self)@, self@, Err::<(), Fault>(fault)));
                Err(fault)
            },
        }
    }

    /// Runs one instruction cycle, exactly as `step` does.
    ///
    /// The timers are left alone: they decay in `tick_timers` only.
    pub fn tick(&mut self) -> (done: Result<(), Fault>)
        requires
            old(self).wf(),
        ensures
            final(self).wf(),
            exists|random: u8|
                follows(#[trigger] old(self)@.stepped(random), old(self)@, final(self)@, done),
            !old(self)@.draws_random() ==> follows(
                old(self)@.stepped(0),
                old(self)@,
                final(self)@,
                done,
            ),
    {
        self.step()
    }

    /// Copies `program` into memory, starting at `START_ADDR`.
    ///
    /// The program must fit into the memory above `START_ADDR`.
    pub fn load_program(&mut self, program: &[u8])
        requires
            old(self).wf(),
            program@.len() <= RAM_SIZE - START_ADDR,
        ensures
            final(self).wf(),
            final(self)@ == old(self)@.program_loaded(program@),
    {
        let mut i: usize = 0;
        while i < program.len()
            invariant
                i <= program@.len() <= RAM_SIZE - START_ADDR,
                self@ == old(self)@.program_loaded(program@.take(i as int)),
            decreases program@.len() - i,
        {
            self.ram[START_ADDR as usize + i] = program[i];
            i += 1;
            assert(self@ =~= old(self)@.program_loaded(program@.take(i as int)));
        }
        assert(program@.take(i as int) =~= program@);
    }

    /// Advances the 60 Hz clock by one tick: each timer that is not zero goes
    /// down by one. Returns whether the tone is signalled on this tick, which
    /// is when the sound timer was exactly one.
    pub fn tick_timers(&mut self) -> (tone: bool)
        requires
            old(self).wf(),
        ensures
            final(self).wf(),
            final(self)@ == old(self)@.timers_ticked(),
            tone == old(self)@.tone_signalled(),
    {
        if self.dt > 0 {
            self.dt -= 1;
        }
        let mut tone = false;
        if self.st > 0 {
            if self.st == 1 {
                tone = true;
            }
            self.st -= 1;
        }
        tone
    }
    /// The address of the next instruction.
    pub fn program_counter(&self) -> (address: u16)
        ensures
            address == self@.program_counter,
    {
        self.pc
    }

    /// Sets the address of the next instruction.
    pub fn set_program_counter(&mut self, address: u16)
        ensures
            final(self)@ == old(self)@.jump(address),
    {
        self.pc = address;
    }

    /// The 4096 bytes of memory.
    pub fn memory(&self) -> (memory: &[u8; RAM_SIZE])
        ensures
            memory@ == self@.memory,
    {
        &self.ram
    }

    /// Stores `value` at `address`.
    pub fn write_memory(&mut self, address: usize, value: u8)
        requires
            address < RAM_SIZE,
        ensures
            final(self)@ == (MachineState {
                memory: old(self)@.memory.update(address as int, value),
                ..old(self)@
            }),
    {
        self.ram[address] = value;
    }

    /// The registers `V0` to `VF`.
    pub fn registers(&self) -> (registers: &[u8; NUM_REGS])
        ensures
            registers@ == self@.registers,
    {
        &self.v_reg
    }

    /// Sets register `x` to `value`.
    pub fn set_register(&mut self, x: usize, value: u8)
        requires
            x < NUM_REGS,
        ensures
            final(self)@ == old(self)@.set_register(x as int, value),
    {
        self.v_reg[x] = value;
    }

    /// The index register.
    pub fn index_register(&self) -> (address: u16)
        ensures
            address == self@.index_register,
    {
        self.i_reg
    }

    /// Sets the index register.
    pub fn set_index_register(&mut self, address: u16)
        ensures
            final(self)@ == (MachineState { index_register: address, ..old(self)@ }),
    {
        self.i_reg = address;
    }

    /// The number of return addresses on the stack.
    pub fn stack_pointer(&self) -> (depth: u16)
        ensures
            depth == self@.stack_pointer,
    {
        self.sp
    }

    /// The sixteen stack slots, of which the first `stack_pointer` are in use.
    pub fn stack(&self) -> (stack: &[u16; STACK_SIZE])
        ensures
            stack@ == self@.stack,
    {
        &self.stack
    }

    /// For each key, whether it is held down.
    pub fn keypad(&self) -> (keys: &[bool; NUM_KEYS])
        ensures
            keys@ == self@.keypad,
    {
        &self.keys
    }

    /// Records that key `index` is held down (`pressed`) or released.
    pub fn set_key(&mut self, index: usize, pressed: bool)
        requires
            index < NUM_KEYS,
        ensures
            final(self)@ == (MachineState {
                keypad: old(self)@.keypad.update(index as int, pressed),
                ..old(self)@
            }),
    {
        self.keys[index] = pressed;
    }

    /// The delay timer.
    pub fn delay_timer(&self) -> (value: u8)
        ensures
            value == self@.delay_timer,
    {
        self.dt
    }

    /// Sets the delay timer.
    pub fn set_delay_timer(&mut self, value: u8)
        ensures
            final(self)@ == (MachineState { delay_timer: value, ..old(self)@ }),
    {
        self.dt = value;
    }

    /// The sound timer.
    pub fn sound_timer(&self) -> (value: u8)
        ensures
            value == self@.sound_timer,
    {
        self.st
    }

    /// Sets the sound timer.
    pub fn set_sound_timer(&mut self, value: u8)
        ensures
            final(self)@ == (MachineState { sound_timer: value, ..old(self)@ }),
    {
        self.st = value;
    }

    /// Whether the tone should be sounding: the sound timer is not zero.
    pub fn tone_active(&self) -> (active: bool)
        ensures
            active == (self@.sound_timer > 0),
    {
        self.st > 0
    }

    /// The pixels, row by row.
    pub fn framebuffer(&self) -> (pixels: &[bool; SCREEN_SIZE])
        ensures
            pixels@ == self@.framebuffer,
    {
        &self.screen
    }

    /// Whether the pixel in column `x` of row `y` is lit.
    pub fn pixel(&self, x: usize, y: usize) -> (lit: bool)
        requires
            x < SCREEN_WIDTH,
            y < SCREEN_HEIGHT,
        ensures
            lit == self@.framebuffer[y * SCREEN_WIDTH + x],
    {
        self.screen[y * SCREEN_WIDTH + x]
    }

    /// The whole text of a memory dump, line by line: the heading, then
    /// memory at sixteen bytes to a line. The machine is not changed.
    pub fn dump_ram(&self) -> (lines: Vec<Vec<char>>)
        ensures
            shows(lines@, ram_dump(self@.memory)),
    {
        write_ram_dump(&self.ram)
    }

    /// The whole text of a display dump, line by line: the heading, the
    /// display at one row to a line, and the closing line. The machine is not
    /// changed.
    pub fn dump_screen(&self) -> (lines: Vec<Vec<char>>)
        ensures
            shows(lines@, screen_dump(self@.framebuffer)),
    {
        write_screen_dump(&self.screen)
    }

    /// Turns the pixel in cell `cell` of the row-by-row display on or off.
    pub fn set_pixel(&mut self, cell: usize, lit: bool)
        requires
            cell < SCREEN_SIZE,
        ensures
            final(self)@ == (MachineState {
                framebuffer: old(self)@.framebuffer.update(cell as int, lit),
                ..old(self)@
            }),
    {
        self.screen[cell] = lit;
    }
}

impl Default for Emu {
    /// A machine in its initial state.
    fn default() -> (emu: Emu)
        ensures
            emu.wf(),
            emu@ == MachineState::initial(),
    {
        Emu::new()
    }
}

} // verus!
