//! A CHIP-8 virtual machine: machine state, the fetch/decode/execute cycle,
//! timers and the monochrome display, with machine-checked contracts.
//!
//! [`Emu`] is the machine. A driver loads a program, calls [`Emu::step`] at
//! the pace at which instructions should run and [`Emu::tick_timers`] sixty
//! times a second, reads the display with [`Emu::framebuffer`] and reports
//! the keyboard with [`Emu::set_key`]. The fatal conditions of the machine
//! are returned as a [`Fault`] instead of being raised as panics.
//!
//! What the machine does is defined on [`state::MachineState`], a
//! mathematical model of the machine, in the module [`semantics`]; the
//! contracts of the operations refer to it. The module [`theorems`] holds
//! facts proved about that definition.
//!
//! The modules [`keymap`], [`color`] and [`dump`] hold what a front end needs
//! besides the machine: the keyboard layout, colours given as text, and the
//! machine's memory and display rendered as text.

use vstd::prelude::*;

pub mod alu;
pub mod color;
pub mod display;
pub mod dump;
pub mod fault;
pub mod font;
pub mod keymap;
pub mod keypad;
pub mod machine;
pub mod opcode;
pub mod random;
pub mod semantics;
pub mod state;
pub mod theorems;

pub use crate::fault::Fault;
pub use crate::font::{FONTSET, FONTSET_SIZE};
pub use crate::machine::Emu;
pub use crate::state::START_ADDR;

verus! {

/// Width of the display in pixels.
pub const SCREEN_WIDTH: usize = 64;

/// Height of the display in pixels.
pub const SCREEN_HEIGHT: usize = 32;

} // verus!
