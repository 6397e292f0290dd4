//! The mathematical model of the machine: an abstract view of the CPU
//! state, its well-formedness condition, and the transition functions that
//! the executable interpreter is proved against.

use vstd::prelude::*;

use crate::decode::{instruction_of, opcode_from_bytes, Instruction};
use crate::fault::{Fault, State};

verus! {

/// Number of general-purpose registers.
pub const REG_COUNT: usize = 16;

/// The register reserved for the arithmetic overflow flag.
pub const FLAG_REGISTER: usize = 15;

/// Number of bytes of memory.
pub const MEM_SIZE: usize = 4096;

/// Maximum number of nested calls the stack can hold.
pub const STACK_DEPTH: usize = 16;

/// The abstract state of the machine: what the interpreter looks like to a
/// specification.
pub ghost struct CpuView {
    /// The register file, `REG_COUNT` 8-bit values.
    pub registers: Seq<u8>,
    /// The program counter: the memory offset of the next fetch.
    pub pc: nat,
    /// The flat byte memory, `MEM_SIZE` entries.
    pub memory: Seq<u8>,
    /// The call stack's storage, `STACK_DEPTH` saved return addresses.
    pub stack: Seq<u16>,
    /// The stack pointer: the next free stack slot; 0 means empty.
    pub sp: nat,
    /// The run state.
    pub state: State,
}

impl CpuView {
    /// Well-formedness: the three storage areas have their declared fixed
    /// capacities, the stack pointer stays within the stack, the program
    /// counter does not point past the end of memory, and every live stack
    /// entry is a return address inside memory.  Constructors establish
    /// this and every operation preserves it.
    pub open spec fn wf(self) -> bool {
        &&& self.registers.len() == REG_COUNT
        &&& self.memory.len() == MEM_SIZE
        &&& self.stack.len() == STACK_DEPTH
        &&& self.sp <= STACK_DEPTH
        &&& self.pc <= MEM_SIZE
        &&& forall|i: int| 0 <= i < self.sp ==> self.stack[i] <= MEM_SIZE as u16
    }

    /// Whether the next fetch is in bounds: both instruction bytes lie
    /// inside memory.
    pub open spec fn can_fetch(self) -> bool {
        self.pc + 1 < MEM_SIZE
    }

    /// The instruction at the program counter, assembled high byte first.
    pub open spec fn fetched(self) -> u16
        recommends
            self.can_fetch(),
    {
        opcode_from_bytes(self.memory[self.pc as int], self.memory[self.pc as int + 1])
    }
}

/// The sum of two register values truncated to 8 bits: what an add stores
/// in its destination register.
pub open spec fn wrapped_sum(a: u8, b: u8) -> u8 {
    ((a + b) % 256) as u8
}

/// The overflow flag an add stores in the flag register: 1 exactly when
/// the true sum exceeds the largest 8-bit value, else 0.
pub open spec fn carry_flag(a: u8, b: u8) -> u8 {
    if a + b > 255 {
        1
    } else {
        0
    }
}

/// Effect of `add_with_flag` on the machine: the truncated sum goes into
/// register `x`, then the overflow flag into the flag register (in that
/// order, so the flag wins when `x` is the flag register itself).
pub open spec fn add_of(c: CpuView, x: u8, y: u8) -> CpuView
    recommends
        c.wf(),
        x < REG_COUNT,
        y < REG_COUNT,
{
    let a = c.registers[x as int];
    let b = c.registers[y as int];
    CpuView {
        registers: c.registers.update(x as int, wrapped_sum(a, b)).update(
            FLAG_REGISTER as int,
            carry_flag(a, b),
        ),
        ..c
    }
}

/// Effect of a successful call: the current program counter is saved at
/// the stack pointer, the pointer moves up one slot, and execution jumps
/// to `addr`.  Only defined for a stack below capacity.
pub open spec fn call_of(c: CpuView, addr: u16) -> CpuView
    recommends
        c.wf(),
        c.sp < STACK_DEPTH,
        addr <= MEM_SIZE as u16,
{
    CpuView {
        stack: c.stack.update(c.sp as int, c.pc as u16),
        sp: c.sp + 1,
        pc: addr as nat,
        ..c
    }
}

/// Effect of a successful return: the stack pointer moves down one slot
/// and execution resumes at the address stored there.  Only defined for a
/// non-empty stack.
pub open spec fn ret_of(c: CpuView) -> CpuView
    recommends
        c.wf(),
        c.sp > 0,
{
    CpuView { sp: (c.sp - 1) as nat, pc: c.stack[c.sp - 1] as nat, ..c }
}

/// The machine with the given fault recorded as its terminal state.
pub open spec fn faulted(c: CpuView, f: Fault) -> CpuView {
    CpuView { state: State::Faulted(f), ..c }
}

/// Dispatch of an already-fetched instruction on a machine whose program
/// counter has already advanced past it: a total function over the
/// instruction enumeration.  The halt sentinel halts; a return pops (or
/// faults on an empty stack); a call pushes and jumps (or faults on a
/// full stack); an add stores sum and overflow flag; an unimplemented
/// opcode faults carrying the raw instruction.
pub open spec fn dispatch_of(c: CpuView, op: u16) -> CpuView
    recommends
        c.wf(),
{
    match instruction_of(op) {
        Instruction::Halt => CpuView { state: State::Halted, ..c },
        Instruction::Return => if c.sp == 0 {
            faulted(c, Fault::StackUnderflow)
        } else {
            ret_of(c)
        },
        Instruction::Call(nnn) => if c.sp >= STACK_DEPTH {
            faulted(c, Fault::StackOverflow)
        } else {
            call_of(c, nnn)
        },
        Instruction::AddWithFlag(x, y) => add_of(c, x, y),
        Instruction::Unimplemented(raw) => faulted(c, Fault::UnimplementedOpcode(raw)),
    }
}

/// One step of the machine.  A step does nothing unless the machine is
/// running; otherwise it fetches (faulting if the fetch is out of bounds),
/// advances the program counter by 2 *before* dispatch — so a call saves a
/// return address pointing past itself — and dispatches.
pub open spec fn step_of(c: CpuView) -> CpuView
    recommends
        c.wf(),
{
    if !(c.state is Running) {
        c
    } else if !c.can_fetch() {
        faulted(c, Fault::OutOfBounds)
    } else {
        dispatch_of(CpuView { pc: c.pc + 2, ..c }, c.fetched())
    }
}

/// The machine after `n` steps.
pub open spec fn steps(c: CpuView, n: nat) -> CpuView
    decreases n,
{
    if n == 0 {
        c
    } else {
        step_of(steps(c, (n - 1) as nat))
    }
}

/// Termination measure for the execution loop, one budget per stack
/// level.  A frame that is still saved on the stack resumes at its stored
/// return address and has `MEM_SIZE + 1 - address` left; the active top
/// frame (level `sp`) has `MEM_SIZE - pc` left; levels that are not live
/// yet sit at the maximum.  Every running step strictly decreases the
/// tuple of these budgets, ordered bottom of the stack first: an ordinary
/// instruction advances the active frame's counter; a call advances it
/// *and then* saves it, shrinking the budget at level `sp` before opening
/// level `sp + 1`; a return closes the top frame, and level `sp - 1` drops
/// from its saved budget to the strictly smaller active one.
pub open spec fn frame_budget(c: CpuView, i: int) -> int {
    if i < c.sp {
        MEM_SIZE + 1 - c.stack[i]
    } else if i == c.sp {
        MEM_SIZE - c.pc
    } else {
        MEM_SIZE + 2
    }
}

/// Unrolling `steps` one transition at a time.
pub proof fn lemma_steps_succ(c: CpuView, n: nat)
    ensures
        steps(c, n + 1) == step_of(steps(c, n)),
{
}

/// A step preserves well-formedness.
pub proof fn lemma_step_of_preserves_wf(c: CpuView)
    requires
        c.wf(),
    ensures
        step_of(c).wf(),
{
    if c.state is Running && c.can_fetch() {
        crate::decode::lemma_decode_bounds(c.fetched());
    }
}

} // verus!
