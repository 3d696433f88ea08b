//! The errors the machine reports to its host.

use vstd::prelude::*;

verus! {

/// Why a program could not be placed in memory.
#[derive(Clone, Copy, Debug, PartialEq, Eq, Structural)]
pub enum LoadError {
    /// The program has more bytes than the program area holds.
    TooLarge,
    /// The program has no bytes at all.
    Empty,
}

/// A fatal condition met while executing an instruction. The host halts the
/// machine when it sees one.
#[derive(Clone, Copy, Debug, PartialEq, Eq, Structural)]
pub enum CpuError {
    /// A call was made with sixteen return addresses already on the stack.
    StackOverflow,
    /// A return was made with no return address on the stack.
    StackUnderflow,
    /// The word at the program counter is no instruction, and the machine is
    /// strict about it.
    UnknownOpcode(u16),
}

} // verus!
