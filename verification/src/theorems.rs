//! Facts about the machine that follow from what its operations are defined
//! to do.

use vstd::prelude::*;
use crate::alu::flag;
use crate::display::Sprite;
use crate::fault::Fault;
use crate::keypad::{is_lowest_pressed, lemma_lowest_pressed_is, lemma_lowest_pressed_none};
use crate::opcode::{nibbles_of, x_of};
use crate::semantics::{bcd, uses_random};
use crate::state::{MachineState, STACK_SIZE};

verus! {

/// `op` is the instruction `FX0A`, which waits for a key.
pub open spec fn is_key_wait(op: u16) -> bool {
    let (class, x, y, n) = nibbles_of(op);
    class == 0xF && y == 0 && n == 0xA
}

/// While no key is held down, an instruction cycle that runs `FX0A` leaves
/// the whole machine unchanged, the program counter included: the
/// instruction will run again on the next cycle.
pub proof fn lemma_key_wait_blocks(s: MachineState, random: u8)
    requires
        s.wf(),
        s.fetched() matches Ok((op, next)) && is_key_wait(op),
        forall|key: int| 0 <= key < s.keypad.len() ==> !s.keypad[key],
    ensures
        s.stepped(random) == Ok::<MachineState, Fault>(s),
{
    lemma_lowest_pressed_none(s.keypad);
    let next = s.fetched()->Ok_0.1;
    let op = s.fetched()->Ok_0.0;
    assert(next.effect_of(op, random) =~= s);
}

/// Once a key is held down, an instruction cycle that runs `FX0A` moves the
/// program counter past the instruction and puts the number of the
/// lowest-numbered pressed key into register `X`; nothing else changes.
pub proof fn lemma_key_wait_captures_lowest(s: MachineState, random: u8, key: int)
    requires
        s.wf(),
        s.fetched() matches Ok((op, next)) && is_key_wait(op),
        is_lowest_pressed(s.keypad, key),
    ensures
        s.fetched() matches Ok((op, next)) && s.stepped(random) == Ok::<MachineState, Fault>(
            MachineState {
                program_counter: (s.program_counter + 2) as u16,
                registers: s.registers.update(x_of(op), key as u8),
                ..s
            },
        ),
{
    lemma_lowest_pressed_is(s.keypad, key);
}

/// `op` is one of the two instructions that set a timer, `FX15` and `FX18`.
pub open spec fn sets_timer(op: u16) -> bool {
    let (class, x, y, n) = nibbles_of(op);
    class == 0xF && y == 1 && (n == 5 || n == 8)
}

/// An instruction cycle leaves both timers alone unless the instruction is
/// one of the two that set a timer: the timers decay on the 60 Hz clock only.
pub proof fn lemma_step_leaves_timers_alone(s: MachineState, random: u8)
    requires
        s.wf(),
        s.fetched() matches Ok((op, next)) && !sets_timer(op),
    ensures
        s.stepped(random) matches Ok(after) ==> after.delay_timer == s.delay_timer
            && after.sound_timer == s.sound_timer,
{
}

/// A tick of the 60 Hz clock changes the timers and nothing else: no
/// instruction runs and the program counter stays.
pub proof fn lemma_clock_tick_runs_no_instruction(s: MachineState)
    ensures
        s.timers_ticked() == (MachineState {
            delay_timer: s.timers_ticked().delay_timer,
            sound_timer: s.timers_ticked().sound_timer,
            ..s
        }),
        s.timers_ticked().delay_timer + flag(s.delay_timer > 0) == s.delay_timer,
        s.timers_ticked().sound_timer + flag(s.sound_timer > 0) == s.sound_timer,
{
}

/// A value pushed onto a stack that has room is the value that the next pop
/// returns, and that pop brings the stack pointer back to where it was.
pub proof fn lemma_push_then_pop(s: MachineState, value: u16)
    requires
        s.wf(),
        s.stack_pointer < STACK_SIZE,
    ensures
        s.pushed(value) matches Ok(pushed) && pushed.popped() matches Ok((top, popped)) && top == value
            && popped.stack_pointer == s.stack_pointer && popped == (MachineState {
            stack: s.stack.update(s.stack_pointer as int, value),
            ..s
        }),
{
}

/// The random byte matters to `CXNN` alone: every other instruction has the
/// same outcome whatever byte is supplied.
pub proof fn lemma_random_matters_to_cxnn_only(s: MachineState, op: u16, first: u8, second: u8)
    requires
        !uses_random(op),
    ensures
        s.executed(op, first) == s.executed(op, second),
{
}

/// Executing an instruction keeps a well-formed state well-formed.
pub proof fn lemma_executed_is_wf(s: MachineState, op: u16, random: u8)
    requires
        s.wf(),
    ensures
        s.executed(op, random) matches Ok(next) ==> next.wf(),
{
}

/// The three digits stored by `FX33` are decimal digits, and they are the
/// hundreds, tens and ones of the value.
pub proof fn lemma_bcd_digits(value: u8)
    ensures
        bcd(value).len() == 3,
        bcd(value)[0] < 10 && bcd(value)[1] < 10 && bcd(value)[2] < 10,
        bcd(value)[0] * 100 + bcd(value)[1] * 10 + bcd(value)[2] == value,
{
}

/// Drawing a sprite flips pixels and nothing else, so drawing it a second
/// time at the same place restores the display.
pub proof fn lemma_draw_twice_restores(sprite: Sprite, screen: Seq<bool>)
    ensures
        sprite.drawn_onto(sprite.drawn_onto(screen)) == screen,
{
    assert(sprite.drawn_onto(sprite.drawn_onto(screen)) =~= screen);
}

/// Drawing a sprite onto a display turns a lit pixel off exactly when the
/// display shows fewer lit pixels under the sprite afterwards: a collision
/// is reported if and only if some covered pixel was lit before.
pub proof fn lemma_collision_turns_pixel_off(sprite: Sprite, screen: Seq<bool>)
    ensures
        sprite.collides_with(screen) <==> exists|cell: int|
            0 <= cell < screen.len() && screen[cell] && !(#[trigger] sprite.drawn_onto(screen)[cell]),
{
    if sprite.collides_with(screen) {
        let cell = choose|cell: int| 0 <= cell < screen.len() && screen[cell] && #[trigger] sprite.covers(cell);
        assert(!sprite.drawn_onto(screen)[cell]);
    }
    if exists|cell: int|
        0 <= cell < screen.len() && screen[cell] && !(#[trigger] sprite.drawn_onto(screen)[cell]) {
        let cell = choose|cell: int|
            0 <= cell < screen.len() && screen[cell] && !(#[trigger] sprite.drawn_onto(screen)[cell]);
        assert(sprite.covers(cell));
    }
}

} // verus!
