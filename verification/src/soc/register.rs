//! The register file, its flag bits and the flag-setting arithmetic helpers.

use vstd::prelude::*;
use crate::utils::{as_u16, hilo, pack, high_byte, low_byte};

verus! {

/// The four condition flags kept in the upper nibble of register `F`.
#[derive(Clone, Copy, Debug, PartialEq, Eq)]
pub enum Flags {
    Zero,
    Subtract,
    HalfCarry,
    Carry,
}

impl Flags {
    /// The bit of `F` that holds the flag: bit 7 for Zero, 6 for Subtract,
    /// 5 for HalfCarry and 4 for Carry.
    pub open spec fn mask(self) -> u8 {
        match self {
            Flags::Zero => 0x80u8,
            Flags::Subtract => 0x40u8,
            Flags::HalfCarry => 0x20u8,
            Flags::Carry => 0x10u8,
        }
    }

    /// Computes the mask of the flag.
    pub fn bit_mask(self) -> (m: u8)
        ensures
            m == self.mask(),
    {
        match self {
            Flags::Zero => 0x80u8,
            Flags::Subtract => 0x40u8,
            Flags::HalfCarry => 0x20u8,
            Flags::Carry => 0x10u8,
        }
    }
}

/// The register file: eight 8-bit registers, the stack pointer, the program
/// counter and the interrupt register.
#[allow(non_snake_case)]
#[derive(Debug)]
pub struct Registers {
    pub A: u8,
    pub B: u8,
    pub C: u8,
    pub D: u8,
    pub E: u8,
    pub F: u8,
    pub H: u8,
    pub L: u8,
    /// Stack pointer.
    pub SP: u16,
    /// Program counter.
    pub PC: u16,
    /// Interrupt register.
    pub IR: u8,
}

/// The upper nibble of `F` that holds exactly the given flags.
pub open spec fn flag_bits(zero: bool, subtract: bool, half_carry: bool, carry: bool) -> u8 {
    ((if zero { 0x80int } else { 0 }) + (if subtract { 0x40int } else { 0 })
        + (if half_carry { 0x20int } else { 0 }) + (if carry { 0x10int } else { 0 })) as u8
}

impl Registers {
    /// The register file after a reset: every register is zero.
    pub open spec fn reset_state() -> Registers {
        Registers { A: 0, B: 0, C: 0, D: 0, E: 0, F: 0, H: 0, L: 0, SP: 0, PC: 0, IR: 0 }
    }

    /// The pair AF, `A` in the high byte.
    pub open spec fn af(self) -> u16 {
        pack(self.A, self.F)
    }

    /// The pair HL, `H` in the high byte.
    pub open spec fn hl(self) -> u16 {
        pack(self.H, self.L)
    }

    /// The pair BC, `B` in the high byte.
    pub open spec fn bc(self) -> u16 {
        pack(self.B, self.C)
    }

    /// The pair DE, `D` in the high byte.
    pub open spec fn de(self) -> u16 {
        pack(self.D, self.E)
    }

    /// The register file after AF was written: `A` takes the high byte, `F`
    /// the low byte with its reserved lower nibble cleared.
    pub open spec fn with_af(self, data: u16) -> Registers {
        Registers { A: high_byte(data), F: (low_byte(data) - low_byte(data) % 16) as u8, ..self }
    }

    /// The register file after HL was written.
    pub open spec fn with_hl(self, data: u16) -> Registers {
        Registers { H: high_byte(data), L: low_byte(data), ..self }
    }

    /// The register file after BC was written.
    pub open spec fn with_bc(self, data: u16) -> Registers {
        Registers { B: high_byte(data), C: low_byte(data), ..self }
    }

    /// The register file after DE was written.
    pub open spec fn with_de(self, data: u16) -> Registers {
        Registers { D: high_byte(data), E: low_byte(data), ..self }
    }

    /// Whether the flag is set.
    pub open spec fn flag(self, flag: Flags) -> bool {
        self.F & flag.mask() != 0
    }

    /// The register file with the flag set.
    pub open spec fn with_flag_set(self, flag: Flags) -> Registers {
        Registers { F: self.F | flag.mask(), ..self }
    }

    /// The register file with the flag cleared.
    pub open spec fn with_flag_reset(self, flag: Flags) -> Registers {
        Registers { F: self.F & !flag.mask(), ..self }
    }

    /// The register file with all four flags replaced and the lower nibble
    /// of `F` kept.
    pub open spec fn with_flags(self, zero: bool, subtract: bool, half_carry: bool, carry: bool)
        -> Registers {
        Registers {
            F: (self.F % 16 + flag_bits(zero, subtract, half_carry, carry)) as u8,
            ..self
        }
    }

    /// The state after an 8-bit addition: Zero iff the sum is zero,
    /// Subtract clear, HalfCarry iff the lower nibbles carry into bit 4,
    /// Carry iff the sum exceeds eight bits.
    pub open spec fn after_add8(self, x: u8, y: u8) -> Registers {
        self.with_flags(sum8(x, y) == 0, false, x % 16 + y % 16 > 15, x + y > 255)
    }

    /// The state after an 8-bit subtraction: Zero iff the difference is
    /// zero, Subtract set, HalfCarry iff the lower nibble needs no borrow,
    /// Carry iff the whole byte needs none.
    pub open spec fn after_sub8(self, x: u8, y: u8) -> Registers {
        self.with_flags(difference8(x, y) == 0, true, x % 16 >= y % 16, x >= y)
    }

    /// The state after a 16-bit addition: Zero iff the sum is zero,
    /// Subtract clear, HalfCarry iff the lower twelve bits carry into bit
    /// 12, Carry iff the sum exceeds sixteen bits.
    pub open spec fn after_add16(self, x: u16, y: u16) -> Registers {
        self.with_flags(sum16(x, y) == 0, false, x % 4096 + y % 4096 > 4095, x + y > 65535)
    }

    /// The state after a 16-bit subtraction: Zero iff the difference is
    /// zero, Subtract set, HalfCarry iff the lower twelve bits need no
    /// borrow, Carry iff the whole word needs none.
    pub open spec fn after_sub16(self, x: u16, y: u16) -> Registers {
        self.with_flags(difference16(x, y) == 0, true, x % 4096 >= y % 4096, x >= y)
    }

    // Special registers
    #[allow(non_snake_case)]
    pub fn read_AF(&self) -> (value: u16)
        ensures
            value == self.af(),
    {
        as_u16(self.A, self.F)
    }

    #[allow(non_snake_case)]
    pub fn read_HL(&self) -> (value: u16)
        ensures
            value == self.hl(),
    {
        as_u16(self.H, self.L)
    }

    #[allow(non_snake_case)]
    pub fn read_BC(&self) -> (value: u16)
        ensures
            value == self.bc(),
    {
        as_u16(self.B, self.C)
    }

    #[allow(non_snake_case)]
    pub fn read_DE(&self) -> (value: u16)
        ensures
            value == self.de(),
    {
        as_u16(self.D, self.E)
    }

    // Write operations
    /// Writes AF. The lower nibble of `F` is reserved and stays clear.
    #[allow(non_snake_case)]
    pub fn write_AF(&mut self, data: u16)
        ensures
            *final(self) == old(self).with_af(data),
            final(self).F % 16 == 0,
    {
        let (hi, lo) = hilo(data);
        assert(lo & 0xF0 == lo - lo % 16) by (bit_vector);
        self.A = hi;
        self.F = lo & 0xF0;
    }

    #[allow(non_snake_case)]
    pub fn write_HL(&mut self, data: u16)
        ensures
            *final(self) == old(self).with_hl(data),
    {
        let (hi, lo) = hilo(data);
        self.H = hi;
        self.L = lo;
    }

    #[allow(non_snake_case)]
    pub fn write_BC(&mut self, data: u16)
        ensures
            *final(self) == old(self).with_bc(data),
    {
        let (hi, lo) = hilo(data);
        self.B = hi;
        self.C = lo;
    }

    #[allow(non_snake_case)]
    pub fn write_DE(&mut self, data: u16)
        ensures
            *final(self) == old(self).with_de(data),
    {
        let (hi, lo) = hilo(data);
        self.D = hi;
        self.E = lo;
    }

    // Flag operations
    pub fn read_flag(&self, flag: Flags) -> (on: bool)
        ensures
            on == self.flag(flag),
    {
        self.F & flag.bit_mask() != 0
    }

    pub fn set_flag(&mut self, flag: Flags)
        ensures
            *final(self) == old(self).with_flag_set(flag),
    {
        self.F = self.F | flag.bit_mask();
    }

    pub fn reset_flag(&mut self, flag: Flags)
        ensures
            *final(self) == old(self).with_flag_reset(flag),
    {
        self.F = self.F & !flag.bit_mask();
    }
}


impl Registers {
    /// Replaces all four flags at once and keeps the lower nibble of `F`.
    pub fn assign_flags(&mut self, zero: bool, subtract: bool, half_carry: bool, carry: bool)
        ensures
            *final(self) == old(self).with_flags(zero, subtract, half_carry, carry),
    {
        let z: u8 = if zero { 0x80 } else { 0 };
        let n: u8 = if subtract { 0x40 } else { 0 };
        let h: u8 = if half_carry { 0x20 } else { 0 };
        let c: u8 = if carry { 0x10 } else { 0 };
        let f: u8 = self.F;
        let low: u8 = f & 0x0F;
        assert(low | z | n | h | c == low + z + n + h + c && low == f % 16) by (bit_vector)
            requires
                low == f & 0x0F,
                z == 0x80 || z == 0,
                n == 0x40 || n == 0,
                h == 0x20 || h == 0,
                c == 0x10 || c == 0,
        ;
        self.F = low | z | n | h | c;
    }
}

/// Flag-setting addition and subtraction on operands of width `T`.
pub trait MathOps<T> {
    /// The sum of `x` and `y`, wrapped to the operand width.
    spec fn sum(x: T, y: T) -> T;

    /// The difference of `x` and `y`, wrapped to the operand width.
    spec fn difference(x: T, y: T) -> T;

    /// The state that an addition of `x` and `y` leaves.
    spec fn after_add(&self, x: T, y: T) -> Self where Self: Sized;

    /// The state that a subtraction of `y` from `x` leaves.
    spec fn after_sub(&self, x: T, y: T) -> Self where Self: Sized;

    fn carrying_add(&mut self, x: T, y: T) -> (result: T) where Self: Sized
        ensures
            result == Self::sum(x, y),
            *final(self) == old(self).after_add(x, y),
    ;

    fn borrowing_sub(&mut self, x: T, y: T) -> (result: T) where Self: Sized
        ensures
            result == Self::difference(x, y),
            *final(self) == old(self).after_sub(x, y),
    ;
}

/// The 8-bit sum, wrapped.
pub open spec fn sum8(x: u8, y: u8) -> u8 {
    ((x + y) % 256) as u8
}

/// The 8-bit difference, wrapped.
pub open spec fn difference8(x: u8, y: u8) -> u8 {
    ((x - y) % 256) as u8
}

/// The 16-bit sum, wrapped.
pub open spec fn sum16(x: u16, y: u16) -> u16 {
    ((x + y) % 65536) as u16
}

/// The 16-bit difference, wrapped.
pub open spec fn difference16(x: u16, y: u16) -> u16 {
    ((x - y) % 65536) as u16
}

impl MathOps<u8> for Registers {
    open spec fn sum(x: u8, y: u8) -> u8 {
        sum8(x, y)
    }

    open spec fn difference(x: u8, y: u8) -> u8 {
        difference8(x, y)
    }

    open spec fn after_add(&self, x: u8, y: u8) -> Registers {
        self.after_add8(x, y)
    }

    open spec fn after_sub(&self, x: u8, y: u8) -> Registers {
        self.after_sub8(x, y)
    }

    fn carrying_add(&mut self, x: u8, y: u8) -> (result: u8) {
        let sum: u8 = x.wrapping_add(y);
        let carry: bool = y > u8::MAX - x;
        let half_carry: bool = (x % 16) + (y % 16) > 15;
        self.assign_flags(sum == 0, false, half_carry, carry);
        sum
    }

    fn borrowing_sub(&mut self, x: u8, y: u8) -> (result: u8) {
        let sub: u8 = x.wrapping_sub(y);
        let borrow: bool = x < y;
        let half_borrow: bool = (x % 16) < (y % 16);
        self.assign_flags(sub == 0, true, !half_borrow, !borrow);
        sub
    }
}

impl MathOps<u16> for Registers {
    open spec fn sum(x: u16, y: u16) -> u16 {
        sum16(x, y)
    }

    open spec fn difference(x: u16, y: u16) -> u16 {
        difference16(x, y)
    }

    open spec fn after_add(&self, x: u16, y: u16) -> Registers {
        self.after_add16(x, y)
    }

    open spec fn after_sub(&self, x: u16, y: u16) -> Registers {
        self.after_sub16(x, y)
    }

    fn carrying_add(&mut self, x: u16, y: u16) -> (result: u16) {
        let sum: u16 = x.wrapping_add(y);
        let carry: bool = y > u16::MAX - x;
        let half_carry: bool = (x % 4096) + (y % 4096) > 4095;
        self.assign_flags(sum == 0, false, half_carry, carry);
        sum
    }

    fn borrowing_sub(&mut self, x: u16, y: u16) -> (result: u16) {
        let sub: u16 = x.wrapping_sub(y);
        let borrow: bool = x < y;
        let half_borrow: bool = (x % 4096) < (y % 4096);
        self.assign_flags(sub == 0, true, !half_borrow, !borrow);
        sub
    }
}

impl Default for Registers {
    fn default() -> (registers: Registers)
        ensures
            registers == Registers::reset_state(),
    {
        Registers { A: 0, B: 0, C: 0, D: 0, E: 0, F: 0, H: 0, L: 0, SP: 0, PC: 0, IR: 0 }
    }
}

/// Setting or clearing one flag bit of `f` changes that bit and nothing else.
pub proof fn lemma_flag_bit(f: u8, m: u8)
    by (bit_vector)
    requires
        m == 0x80 || m == 0x40 || m == 0x20 || m == 0x10,
    ensures
        (f | m) & m != 0,
        (f & !m) & m == 0,
        (f | m) == (if f & m != 0 { f } else { (f + m) as u8 }),
        (f & !m) == (if f & m != 0 { (f - m) as u8 } else { f }),
        f & m != 0 <==> (f / m) % 2 == 1,
{
}

/// Reading a flag of a register file whose flags were replaced gives the
/// value that was put there, and the lower nibble of `F` is as before.
pub proof fn lemma_with_flags(
    registers: Registers,
    zero: bool,
    subtract: bool,
    half_carry: bool,
    carry: bool,
)
    ensures
        registers.with_flags(zero, subtract, half_carry, carry).flag(Flags::Zero) == zero,
        registers.with_flags(zero, subtract, half_carry, carry).flag(Flags::Subtract) == subtract,
        registers.with_flags(zero, subtract, half_carry, carry).flag(Flags::HalfCarry)
            == half_carry,
        registers.with_flags(zero, subtract, half_carry, carry).flag(Flags::Carry) == carry,
        registers.with_flags(zero, subtract, half_carry, carry).F % 16 == registers.F % 16,
{
    let f = registers.with_flags(zero, subtract, half_carry, carry).F;
    lemma_flag_bit(f, 0x80);
    lemma_flag_bit(f, 0x40);
    lemma_flag_bit(f, 0x20);
    lemma_flag_bit(f, 0x10);
}

/// Setting a flag makes it read as set, clearing it makes it read as clear,
/// and either leaves the other three flags as they were.
pub proof fn lemma_set_reset_flag(registers: Registers, flag: Flags, other: Flags)
    ensures
        registers.with_flag_set(flag).flag(flag),
        !registers.with_flag_reset(flag).flag(flag),
        other != flag ==> registers.with_flag_set(flag).flag(other) == registers.flag(other),
        other != flag ==> registers.with_flag_reset(flag).flag(other) == registers.flag(other),
{
    let f = registers.F;
    let m = flag.mask();
    let o = other.mask();
    assert((f | m) & m != 0 && (f & !m) & m == 0) by (bit_vector)
        requires
            m == 0x80 || m == 0x40 || m == 0x20 || m == 0x10,
    ;
    if other != flag {
        assert((f | m) & o == f & o && (f & !m) & o == f & o) by (bit_vector)
            requires
                m == 0x80 || m == 0x40 || m == 0x20 || m == 0x10,
                o == 0x80 || o == 0x40 || o == 0x20 || o == 0x10,
                o != m,
        ;
    }
}

/// A register pair that was written reads back as the value written. For AF
/// this holds of the values whose lower nibble is clear; of any value, AF
/// reads back as the value with its lower nibble cleared.
pub proof fn lemma_pair_round_trip(registers: Registers, value: u16)
    ensures
        registers.with_hl(value).hl() == value,
        registers.with_bc(value).bc() == value,
        registers.with_de(value).de() == value,
        value % 16 == 0 ==> registers.with_af(value).af() == value,
        registers.with_af(value).af() == value - value % 16,
{
}

} // verus!
