//! Laws of the interpreter: properties relating several operations,
//! stated over the model and proved once for all machines.

use vstd::prelude::*;

use crate::decode::{lemma_decode_bounds, op_c, op_d, op_nnn, op_x, op_y, opcode_from_bytes};
use crate::fault::{Fault, State};
use crate::model::{
    call_of, carry_flag, ret_of, step_of, steps, wrapped_sum, CpuView, MEM_SIZE, STACK_DEPTH,
};

verus! {

/// `add_with_flag` is commutative in its stored values: swapping the two
/// register contents changes neither the truncated sum nor the overflow
/// flag; and the flag is 1 exactly when the true sum exceeds 255, else 0,
/// for every pair of 8-bit inputs.
pub proof fn lemma_add_with_flag_commutes(a: u8, b: u8)
    ensures
        wrapped_sum(a, b) == wrapped_sum(b, a),
        carry_flag(a, b) == carry_flag(b, a),
        carry_flag(a, b) == 1 <==> a + b > 255,
        carry_flag(a, b) == 0 <==> a + b <= 255,
{
}

/// Call/return round trip at the operation level: a call followed
/// immediately by a return restores the program counter the machine had
/// when the call was made — which, inside a step, is the counter already
/// advanced past the call instruction — and restores the stack pointer,
/// registers, memory and run state.  Only the used stack slot keeps the
/// saved address it was given.
pub proof fn lemma_call_ret_roundtrip(c: CpuView, addr: u16)
    requires
        c.wf(),
        c.sp < STACK_DEPTH,
        addr <= MEM_SIZE as u16,
    ensures
        ret_of(call_of(c, addr)).pc == c.pc,
        ret_of(call_of(c, addr)).sp == c.sp,
        ret_of(call_of(c, addr)).registers == c.registers,
        ret_of(call_of(c, addr)).memory == c.memory,
        ret_of(call_of(c, addr)).state == c.state,
{
}

/// Call/return round trip at the machine level: when a running machine
/// faces a call instruction whose target holds the return instruction
/// `00EE`, two steps later it is running again at the address just past
/// the call — the exact program counter current after the call
/// instruction's fetch-and-advance — with its stack pointer and registers
/// restored.
pub proof fn lemma_step_call_then_ret(c: CpuView)
    requires
        c.wf(),
        c.state is Running,
        c.can_fetch(),
        op_c(c.fetched()) == 0x2,
        c.sp < STACK_DEPTH,
        op_nnn(c.fetched()) + 1 < MEM_SIZE,
        c.memory[op_nnn(c.fetched()) as int] == 0x00,
        c.memory[op_nnn(c.fetched()) as int + 1] == 0xEE,
    ensures
        steps(c, 2).state is Running,
        steps(c, 2).pc == c.pc + 2,
        steps(c, 2).sp == c.sp,
        steps(c, 2).registers == c.registers,
        steps(c, 2).memory == c.memory,
{
    let op = c.fetched();
    lemma_decode_bounds(op);
    crate::model::lemma_steps_succ(c, 0);
    crate::model::lemma_steps_succ(c, 1);
    assert(steps(c, 0) == c);
    let c1 = step_of(c);
    assert(op_c(op) != 0);
    assert(c1 == call_of(CpuView { pc: c.pc + 2, ..c }, op_nnn(op)));
    let ret_op = c1.fetched();
    assert(ret_op == opcode_from_bytes(0x00, 0xEE));
    assert(op_c(opcode_from_bytes(0x00, 0xEE)) == 0 && op_x(opcode_from_bytes(0x00, 0xEE)) == 0
        && op_y(opcode_from_bytes(0x00, 0xEE)) == 0xE && op_d(opcode_from_bytes(0x00, 0xEE))
        == 0xE) by (bit_vector);
    assert(steps(c, 2) == step_of(step_of(c)));
}

/// Pushing beyond capacity always faults: whatever the prior history, a
/// running machine that faces a call instruction with its call stack full
/// steps to `Faulted(StackOverflow)`, leaving registers, stack and stack
/// pointer exactly as they were at the moment of the fault.
pub proof fn lemma_push_beyond_capacity_faults(c: CpuView)
    requires
        c.wf(),
        c.state is Running,
        c.can_fetch(),
        op_c(c.fetched()) == 0x2,
        c.sp >= STACK_DEPTH,
    ensures
        step_of(c).state == State::Faulted(Fault::StackOverflow),
        step_of(c).registers == c.registers,
        step_of(c).stack == c.stack,
        step_of(c).sp == c.sp,
{
    assert(op_c(c.fetched()) != 0);
}

/// Popping an empty stack always faults: whatever the prior history, a
/// running machine that faces the return instruction with an empty call
/// stack steps to `Faulted(StackUnderflow)`, leaving registers, stack and
/// stack pointer exactly as they were at the moment of the fault.
pub proof fn lemma_pop_empty_faults(c: CpuView)
    requires
        c.wf(),
        c.state is Running,
        c.can_fetch(),
        op_c(c.fetched()) == 0x0,
        op_x(c.fetched()) == 0x0,
        op_y(c.fetched()) == 0xE,
        op_d(c.fetched()) == 0xE,
        c.sp == 0,
    ensures
        step_of(c).state == State::Faulted(Fault::StackUnderflow),
        step_of(c).registers == c.registers,
        step_of(c).stack == c.stack,
        step_of(c).sp == c.sp,
{
}

} // verus!
