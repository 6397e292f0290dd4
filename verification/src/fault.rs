//! Terminal conditions of the interpreter: the fault taxonomy and the
//! machine's run state.

use vstd::prelude::*;

verus! {

/// A fatal condition raised during execution.  Every fault is a programming
/// or data error in the loaded program (or a too-small resource allocation),
/// so there is no recovery: the execution loop turns the fault into a
/// terminal state and stops.
#[derive(Clone, Copy, Debug, PartialEq, Eq, Structural)]
pub enum Fault {
    /// A register index or memory address outside the declared capacity.
    IndexOutOfRange,
    /// A call was performed while the call stack was already full.
    StackOverflow,
    /// A return was performed while the call stack was empty.
    StackUnderflow,
    /// The decoded fields of the carried instruction match no known pattern.
    UnimplementedOpcode(u16),
    /// An instruction fetch touched an address outside memory.
    OutOfBounds,
}

/// The run state of the machine.  `Running` is the only state in which a
/// step has any effect; `Halted` and `Faulted` are terminal.
#[derive(Clone, Copy, Debug, PartialEq, Eq, Structural)]
pub enum State {
    Running,
    Halted,
    Faulted(Fault),
}

} // verus!
