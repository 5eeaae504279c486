//! The arithmetic of the instruction set on plain values: what each
//! operation computes and which flags it leaves.

use vstd::prelude::*;
use crate::soc::register::{difference8, sum8, Flags, MathOps, Registers};

verus! {

/// The operations that combine the accumulator with an 8-bit value.
#[derive(Clone, Copy, Debug, PartialEq, Eq)]
pub enum AluOp {
    Add,
    Adc,
    Sub,
    Sbc,
    And,
    Or,
    Xor,
    Cp,
}

/// The operations that move the bits of one 8-bit value.
#[derive(Clone, Copy, Debug, PartialEq, Eq)]
pub enum ShiftOp {
    Rlc,
    Rl,
    Rrc,
    Rr,
    Sla,
    Sra,
    Srl,
    Swap,
}

/// The operations on a single bit of an 8-bit value.
#[derive(Clone, Copy, Debug, PartialEq, Eq)]
pub enum BitOp {
    Test,
    Raise,
    Clear,
}

/// The operand of an add or subtract with carry: one more than `n`,
/// wrapped, where the Carry flag is set.
pub open spec fn with_carry_in(registers: Registers, n: u8) -> u8 {
    if registers.flag(Flags::Carry) {
        sum8(n, 1)
    } else {
        n
    }
}

/// The register file after an accumulator operation with the value `n`.
///
/// Additions and subtractions leave the flags of the flag-setting helpers.
/// AND sets HalfCarry and clears Carry, OR and XOR clear both, and all
/// three clear Subtract and set Zero iff the result is zero. CP leaves the
/// flags of a subtraction and the accumulator as it was.
pub open spec fn accumulated(registers: Registers, op: AluOp, n: u8) -> Registers {
    let a = registers.A;
    match op {
        AluOp::Add => Registers { A: sum8(a, n), ..registers.after_add8(a, n) },
        AluOp::Adc => Registers {
            A: sum8(a, with_carry_in(registers, n)),
            ..registers.after_add8(a, with_carry_in(registers, n))
        },
        AluOp::Sub => Registers { A: difference8(a, n), ..registers.after_sub8(a, n) },
        AluOp::Sbc => Registers {
            A: difference8(a, with_carry_in(registers, n)),
            ..registers.after_sub8(a, with_carry_in(registers, n))
        },
        AluOp::And => Registers { A: a & n, ..registers.with_flags(a & n == 0, false, true, false) },
        AluOp::Or => Registers { A: a | n, ..registers.with_flags(a | n == 0, false, false, false) },
        AluOp::Xor => Registers { A: a ^ n, ..registers.with_flags(a ^ n == 0, false, false, false) },
        AluOp::Cp => registers.after_sub8(a, n),
    }
}

/// Performs an accumulator operation.
pub fn accumulate(registers: &mut Registers, op: AluOp, n: u8)
    ensures
        *final(registers) == accumulated(*old(registers), op, n),
{
    let a: u8 = registers.A;
    match op {
        AluOp::Add => {
            let result: u8 = registers.carrying_add(a, n);
            registers.A = result;
        },
        AluOp::Adc => {
            let m: u8 = if registers.read_flag(Flags::Carry) { n.wrapping_add(1) } else { n };
            let result: u8 = registers.carrying_add(a, m);
            registers.A = result;
        },
        AluOp::Sub => {
            let result: u8 = registers.borrowing_sub(a, n);
            registers.A = result;
        },
        AluOp::Sbc => {
            let m: u8 = if registers.read_flag(Flags::Carry) { n.wrapping_add(1) } else { n };
            let result: u8 = registers.borrowing_sub(a, m);
            registers.A = result;
        },
        AluOp::And => {
            let result: u8 = a & n;
            registers.assign_flags(result == 0, false, true, false);
            registers.A = result;
        },
        AluOp::Or => {
            let result: u8 = a | n;
            registers.assign_flags(result == 0, false, false, false);
            registers.A = result;
        },
        AluOp::Xor => {
            let result: u8 = a ^ n;
            registers.assign_flags(result == 0, false, false, false);
            registers.A = result;
        },
        AluOp::Cp => {
            let _discarded: u8 = registers.borrowing_sub(a, n);
        },
    }
}

/// What a shift, rotate or swap makes of a value.
///
/// RLC and SLA move every bit one place up and RRC and SRL one place down;
/// the bit that leaves is not brought back in. RL and RR do the same and
/// put the incoming Carry flag in the place that was vacated. SRA moves
/// every bit one place down and keeps bit 7. SWAP exchanges the nibbles.
pub open spec fn shifted(op: ShiftOp, value: u8, carry_in: bool) -> u8 {
    match op {
        ShiftOp::Rlc | ShiftOp::Sla => ((value * 2) % 256) as u8,
        ShiftOp::Rl => ((value * 2) % 256 + (if carry_in { 1int } else { 0 })) as u8,
        ShiftOp::Rrc | ShiftOp::Srl => value / 2,
        ShiftOp::Rr => (value / 2 + (if carry_in { 128int } else { 0 })) as u8,
        ShiftOp::Sra => (value / 2 + (if value >= 128 { 128int } else { 0 })) as u8,
        ShiftOp::Swap => ((value % 16) * 16 + value / 16) as u8,
    }
}

/// The bit that a shift or rotate moves out of the value: bit 7 when the
/// bits move up, bit 0 when they move down. SWAP moves none out.
pub open spec fn shifted_out(op: ShiftOp, value: u8) -> bool {
    match op {
        ShiftOp::Rlc | ShiftOp::Rl | ShiftOp::Sla => value >= 128,
        ShiftOp::Rrc | ShiftOp::Rr | ShiftOp::Sra | ShiftOp::Srl => value % 2 == 1,
        ShiftOp::Swap => false,
    }
}

/// Shifts, rotates or swaps a value, and tells which bit left it.
pub fn shift(op: ShiftOp, value: u8, carry_in: bool) -> (result: (u8, bool))
    ensures
        result.0 == shifted(op, value, carry_in),
        result.1 == shifted_out(op, value),
{
    assert({
        &&& value << 1 == (value * 2) % 256
        &&& (value << 1) | 0x01 == (value * 2) % 256 + 1
        &&& value >> 1 == value / 2
        &&& (value >> 1) | 0x80 == value / 2 + 128
        &&& (value & 0x80) | (value >> 1) == value / 2 + (if value >= 128 { 128int } else { 0 })
        &&& (value & 0xF0) >> 4 | (value & 0x0F) << 4 == (value % 16) * 16 + value / 16
        &&& (value & 0x80 != 0) == (value >= 128)
        &&& (value & 0x01 != 0) == (value % 2 == 1)
    }) by (bit_vector);
    let up: bool = value & 0x80 != 0;
    let down: bool = value & 0x01 != 0;
    match op {
        ShiftOp::Rlc | ShiftOp::Sla => (value << 1, up),
        ShiftOp::Rl => (if carry_in { (value << 1) | 0x01 } else { value << 1 }, up),
        ShiftOp::Rrc | ShiftOp::Srl => (value >> 1, down),
        ShiftOp::Rr => (if carry_in { (value >> 1) | 0x80 } else { value >> 1 }, down),
        ShiftOp::Sra => ((value & 0x80) | (value >> 1), down),
        ShiftOp::Swap => ((value & 0xF0) >> 4 | (value & 0x0F) << 4, false),
    }
}

/// The value with one bit set or cleared; BIT leaves the value as it is.
pub open spec fn with_bit(op: BitOp, bit: u8, value: u8) -> u8 {
    match op {
        BitOp::Test => value,
        BitOp::Raise => value | (1u8 << bit),
        BitOp::Clear => value & !(1u8 << bit),
    }
}

/// Whether the bit of the value is clear.
pub open spec fn bit_is_clear(bit: u8, value: u8) -> bool {
    value & (1u8 << bit) == 0
}

/// A set bit reads as set, a cleared bit as clear, and neither operation
/// touches another bit.
pub proof fn lemma_with_bit(bit: u8, other: u8, value: u8)
    by (bit_vector)
    requires
        bit < 8,
        other < 8,
    ensures
        (value | (1u8 << bit)) & (1u8 << bit) != 0,
        (value & !(1u8 << bit)) & (1u8 << bit) == 0,
        other != bit ==> (value | (1u8 << bit)) & (1u8 << other) == value & (1u8 << other),
        other != bit ==> (value & !(1u8 << bit)) & (1u8 << other) == value & (1u8 << other),
{
}

} // verus!
