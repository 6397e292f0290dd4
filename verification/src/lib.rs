//! A small register-machine instruction interpreter in the CHIP-8 style.
//!
//! The interpreter fetches two-byte instructions from a flat memory array,
//! decodes them into four-bit operand fields, dispatches to an operation,
//! and mutates register, call-stack and program-counter state accordingly.
//! Execution runs until the machine halts on an all-zero instruction or
//! faults on a bad access, a full or empty call stack, or an opcode outside
//! the implemented set.

pub mod cpu;
pub mod decode;
pub mod fault;
pub mod laws;
pub mod model;
