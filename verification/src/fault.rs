//! The fatal conditions that stop the machine.

use vstd::prelude::*;

verus! {

/// A fatal condition met while running a program.
///
/// A fault is reported at the point where it is detected; the machine offers
/// no way to resume afterwards other than `reset`.
#[derive(Clone, Copy, Debug, PartialEq, Eq, Structural)]
pub enum Fault {
    /// A call was made while all sixteen stack slots were in use.
    StackOverflow,
    /// A return address was asked for while the stack was empty.
    StackUnderflow,
    /// The instruction word is not part of the supported instruction set.
    UnimplementedOpcode(u16),
    /// An instruction fetch or an index-addressed access left the 4096 bytes of memory.
    MemoryOutOfBounds,
}

} // verus!
