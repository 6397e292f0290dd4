//! The instruction decoder: a pure function from a 16-bit instruction to
//! its four 4-bit operand fields and the derived 12-bit address field.

use vstd::prelude::*;

verus! {

/// Operation class: the high nibble of the high byte.
pub open spec fn op_c(op: u16) -> u8 {
    ((op >> 12) & 0xF) as u8
}

/// First operand register index: the low nibble of the high byte.
pub open spec fn op_x(op: u16) -> u8 {
    ((op >> 8) & 0xF) as u8
}

/// Second operand register index: the high nibble of the low byte.
pub open spec fn op_y(op: u16) -> u8 {
    ((op >> 4) & 0xF) as u8
}

/// Operation subgroup: the low nibble of the low byte.
pub open spec fn op_d(op: u16) -> u8 {
    (op & 0xF) as u8
}

/// The 12-bit address field, used by call instructions as a jump target.
pub open spec fn op_nnn(op: u16) -> u16 {
    op & 0x0FFF
}

/// The 16-bit instruction assembled from two consecutive memory bytes,
/// high byte first.
pub open spec fn opcode_from_bytes(hi: u8, lo: u8) -> u16 {
    ((hi as u16) << 8) | (lo as u16)
}

/// Every nibble is a value below 16, and the address field is below 4096.
pub proof fn lemma_decode_bounds(op: u16)
    by (bit_vector)
    ensures
        op_c(op) < 16,
        op_x(op) < 16,
        op_y(op) < 16,
        op_d(op) < 16,
        op_nnn(op) < 0x1000,
{
}

/// Decoding is lossless: the four nibbles of any 16-bit instruction,
/// shifted back into place and joined, give back exactly that instruction.
pub proof fn lemma_decode_roundtrip(op: u16)
    by (bit_vector)
    ensures
        ((op_c(op) as u16) << 12) | ((op_x(op) as u16) << 8) | ((op_y(op) as u16) << 4) | (op_d(
            op,
        ) as u16) == op,
{
}

/// The instruction set as a closed enumeration, already mapped from
/// nibble patterns.  An explicit `Unimplemented` variant carrying the raw
/// instruction replaces a catch-all, so dispatch is a total function over
/// this type and adding an opcode is a localized extension.
#[derive(Clone, Copy, Debug, PartialEq, Eq, Structural)]
pub enum Instruction {
    /// The all-zero halt sentinel: the pattern uninitialized memory
    /// holds, read as "no more program to execute".
    Halt,
    /// `00EE`: return from a subroutine.
    Return,
    /// `2nnn`: call the subroutine at address `nnn`.
    Call(u16),
    /// `8xy4`: add register `y` into register `x`, recording overflow in
    /// the flag register.
    AddWithFlag(u8, u8),
    /// Any other pattern, kept with the raw instruction for reporting.
    Unimplemented(u16),
}

/// The operation a 16-bit instruction encodes, keyed on its nibbles.
pub open spec fn instruction_of(op: u16) -> Instruction {
    let c = op_c(op);
    let x = op_x(op);
    let y = op_y(op);
    let d = op_d(op);
    if c == 0 && x == 0 && y == 0 && d == 0 {
        Instruction::Halt
    } else if c == 0 && x == 0 && y == 0xE && d == 0xE {
        Instruction::Return
    } else if c == 0x2 {
        Instruction::Call(op_nnn(op))
    } else if c == 0x8 && d == 0x4 {
        Instruction::AddWithFlag(x, y)
    } else {
        Instruction::Unimplemented(op)
    }
}

/// Maps an instruction to the operation it encodes.  Total: every 16-bit
/// value yields a variant.
pub fn parse_instruction(op: u16) -> (instr: Instruction)
    ensures
        instr == instruction_of(op),
{
    let (c, x, y, d) = decode(op);
    if c == 0 && x == 0 && y == 0 && d == 0 {
        Instruction::Halt
    } else if c == 0 && x == 0 && y == 0xE && d == 0xE {
        Instruction::Return
    } else if c == 0x2 {
        Instruction::Call(address_field(op))
    } else if c == 0x8 && d == 0x4 {
        Instruction::AddWithFlag(x, y)
    } else {
        Instruction::Unimplemented(op)
    }
}

/// Splits an instruction into its four nibbles `(c, x, y, d)`.
pub fn decode(op: u16) -> (r: (u8, u8, u8, u8))
    ensures
        r.0 == op_c(op),
        r.1 == op_x(op),
        r.2 == op_y(op),
        r.3 == op_d(op),
        r.0 < 16 && r.1 < 16 && r.2 < 16 && r.3 < 16,
{
    proof {
        lemma_decode_bounds(op);
    }
    let c = ((op >> 12) & 0xF) as u8;
    let x = ((op >> 8) & 0xF) as u8;
    let y = ((op >> 4) & 0xF) as u8;
    let d = (op & 0xF) as u8;
    (c, x, y, d)
}

/// Extracts the 12-bit address field of an instruction.
pub fn address_field(op: u16) -> (nnn: u16)
    ensures
        nnn == op_nnn(op),
        nnn < 0x1000,
{
    proof {
        lemma_decode_bounds(op);
    }
    op & 0x0FFF
}

/// Joins four nibbles into the instruction they decode from.
pub fn assemble(c: u8, x: u8, y: u8, d: u8) -> (op: u16)
    requires
        c < 16,
        x < 16,
        y < 16,
        d < 16,
    ensures
        op_c(op) == c,
        op_x(op) == x,
        op_y(op) == y,
        op_d(op) == d,
{
    let op = ((c as u16) << 12) | ((x as u16) << 8) | ((y as u16) << 4) | (d as u16);
    proof {
        assert(op_c(op) == c && op_x(op) == x && op_y(op) == y && op_d(op) == d)
            by (bit_vector)
            requires
                c < 16,
                x < 16,
                y < 16,
                d < 16,
                op == ((c as u16) << 12) | ((x as u16) << 8) | ((y as u16) << 4) | (d as u16),
        ;
    }
    op
}

} // verus!
