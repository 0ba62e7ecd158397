//! Fatal conditions. None is retried: the host halts and reports.

use vstd::prelude::*;

verus! {

/// A fatal condition raised by the machine. When an operation reports one,
/// it has left the machine exactly as it found it, so the program counter
/// and the offending instruction word can still be read from the state.
#[derive(Clone, Copy, Debug, PartialEq, Eq, Structural)]
pub enum Fault {
    /// The word matches no instruction of the catalogue.
    UnknownOpcode(u16),
    /// A call with sixteen return addresses already stacked; carries the
    /// program counter of the call.
    StackOverflow(u16),
    /// A return with nothing stacked; carries the program counter of the
    /// return.
    StackUnderflow(u16),
    /// An instruction, or its fetch, would touch a byte beyond address
    /// 4095; carries the program counter of that instruction.
    MemoryOutOfBounds(u16),
    /// A program does not fit between its load offset and the end of memory.
    ProgramTooLarge,
}

} // verus!
