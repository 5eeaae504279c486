//! Operands, instructions and the two opcode tables.

use vstd::prelude::*;
use vstd::std_specs::convert::FromSpecImpl;

verus! {

/// What an instruction reads from or writes to.
#[derive(Debug, PartialEq, Eq)]
pub enum Operand {
    // Cpu registers
    A,
    B,
    C,
    D,
    E,
    F,
    H,
    L,
    // Cpu double registers
    HL,
    AF,
    BC,
    DE,
    // Special registers
    SP,
    PC,
    // Branch conditions
    Zero,
    NoZero,
    Carry,
    NoCarry,
    /// The byte that follows in the instruction stream.
    Word,
    /// The two bytes that follow in the instruction stream, high byte first.
    DWord,
    /// The memory cell whose address is the value of the inner operand plus
    /// the constant offset.
    Memory(Box<Operand>, u16),
}

#[allow(non_camel_case_types)]
#[derive(Debug, PartialEq, Eq)]
pub enum Instruction {
    LD8(Operand, Operand),
    LD16(Operand, Operand),
    LDD(Operand, Operand),
    LDI(Operand, Operand),
    LDH(Operand, Operand),
    LDHL(Operand, Operand),
    PUSH(Operand),
    POP(Operand),
    ADD8(Operand, Operand),
    ADD16(Operand, Operand),
    ADC(Operand, Operand),
    SUB(Operand),
    SBC(Operand, Operand),
    AND(Operand),
    OR(Operand),
    XOR(Operand),
    CP(Operand),
    INC8(Operand),
    DEC8(Operand),
    INC16(Operand),
    DEC16(Operand),
    // Special instructions
    SWAP(Operand),
    DAA,
    CPL,
    CCF,
    SCF,
    NOP,
    HALT,
    STOP,
    DI,
    EI,
    RLCA,
    RLA,
    RRCA,
    RRA,
    JP1(Operand),
    JP(Operand, Operand),
    JR1(Operand),
    JR(Operand, Operand),
    CALL1(Operand),
    CALL(Operand, Operand),
    RST(u16),
    RET_,
    RET(Operand),
    RETI,
    RLC(Operand),
    RL(Operand),
    RRC(Operand),
    RR(Operand),
    SLA(Operand),
    SRA(Operand),
    SRL(Operand),
    BIT(u8, Operand),
    SET(u8, Operand),
    RES(u8, Operand),
}

impl Operand {
    /// A copy of the operand.
    pub fn duplicate(&self) -> (copy: Operand)
        ensures
            copy == *self,
        decreases *self,
    {
        match self {
            Operand::A => Operand::A,
            Operand::B => Operand::B,
            Operand::C => Operand::C,
            Operand::D => Operand::D,
            Operand::E => Operand::E,
            Operand::F => Operand::F,
            Operand::H => Operand::H,
            Operand::L => Operand::L,
            Operand::HL => Operand::HL,
            Operand::AF => Operand::AF,
            Operand::BC => Operand::BC,
            Operand::DE => Operand::DE,
            Operand::SP => Operand::SP,
            Operand::PC => Operand::PC,
            Operand::Zero => Operand::Zero,
            Operand::NoZero => Operand::NoZero,
            Operand::Carry => Operand::Carry,
            Operand::NoCarry => Operand::NoCarry,
            Operand::Word => Operand::Word,
            Operand::DWord => Operand::DWord,
            Operand::Memory(base, offset) => Operand::Memory(Box::new(base.duplicate()), *offset),
        }
    }
}

impl Clone for Operand {
    fn clone(&self) -> (copy: Operand)
        ensures
            copy == *self,
    {
        self.duplicate()
    }
}

/// The memory cell addressed by `base` plus `offset`.
pub open spec fn cell(base: Operand, offset: u16) -> Operand {
    Operand::Memory(Box::new(base), offset)
}

/// The 8-bit operand that a three-bit field of an opcode selects:
/// B, C, D, E, H, L, the cell at HL, A.
pub open spec fn slot(index: int) -> Operand {
    if index == 0 {
        Operand::B
    } else if index == 1 {
        Operand::C
    } else if index == 2 {
        Operand::D
    } else if index == 3 {
        Operand::E
    } else if index == 4 {
        Operand::H
    } else if index == 5 {
        Operand::L
    } else if index == 6 {
        cell(Operand::HL, 0)
    } else {
        Operand::A
    }
}

/// The register pair that a two-bit field selects in 16-bit loads and
/// arithmetic: BC, DE, HL, SP.
pub open spec fn wide_slot(index: int) -> Operand {
    if index == 0 {
        Operand::BC
    } else if index == 1 {
        Operand::DE
    } else if index == 2 {
        Operand::HL
    } else {
        Operand::SP
    }
}

/// The register pair that a two-bit field selects in PUSH and POP:
/// BC, DE, HL, AF.
pub open spec fn stack_slot(index: int) -> Operand {
    if index == 0 {
        Operand::BC
    } else if index == 1 {
        Operand::DE
    } else if index == 2 {
        Operand::HL
    } else {
        Operand::AF
    }
}

/// The branch condition that a two-bit field selects:
/// NoZero, Zero, NoCarry, Carry.
pub open spec fn condition(index: int) -> Operand {
    if index == 0 {
        Operand::NoZero
    } else if index == 1 {
        Operand::Zero
    } else if index == 2 {
        Operand::NoCarry
    } else {
        Operand::Carry
    }
}

/// The accumulator operation on `source` that field `family` selects, for
/// the opcodes 0x80 to 0xBF.
pub open spec fn accumulator_op(family: int, source: Operand) -> Instruction {
    if family == 0 {
        Instruction::ADD8(Operand::A, source)
    } else if family == 1 {
        Instruction::ADC(Operand::A, source)
    } else if family == 2 {
        Instruction::SUB(source)
    } else if family == 3 {
        Instruction::SBC(Operand::A, source)
    } else if family == 4 {
        Instruction::AND(source)
    } else if family == 5 {
        Instruction::XOR(source)
    } else if family == 6 {
        Instruction::OR(source)
    } else {
        Instruction::CP(source)
    }
}

/// The opcodes 0x00 to 0x3F, by their fields `y` (bits 3 to 5) and `z`
/// (bits 0 to 2).
pub open spec fn decode_low_block(y: int, z: int) -> Instruction {
    if z == 0 {
        if y == 0 {
            Instruction::NOP
        } else if y == 1 {
            Instruction::LD16(cell(Operand::DWord, 0), Operand::SP)
        } else if y == 2 {
            Instruction::STOP
        } else if y == 3 {
            Instruction::JR1(Operand::Word)
        } else {
            Instruction::JR(condition(y - 4), Operand::DWord)
        }
    } else if z == 1 {
        if y % 2 == 0 {
            Instruction::LD16(wide_slot(y / 2), Operand::DWord)
        } else {
            Instruction::ADD16(Operand::HL, wide_slot(y / 2))
        }
    } else if z == 2 {
        if y == 0 {
            Instruction::LD8(cell(Operand::B, 0), Operand::A)
        } else if y == 1 {
            Instruction::LD8(Operand::A, cell(Operand::BC, 0))
        } else if y == 2 {
            Instruction::LD8(cell(Operand::DE, 0), Operand::A)
        } else if y == 3 {
            Instruction::LD8(Operand::A, cell(Operand::DE, 0))
        } else if y == 4 {
            Instruction::LDI(cell(Operand::HL, 0), Operand::A)
        } else if y == 5 {
            Instruction::LDI(Operand::A, cell(Operand::HL, 0))
        } else if y == 6 {
            Instruction::LDD(cell(Operand::HL, 0), Operand::A)
        } else {
            Instruction::LDD(Operand::A, cell(Operand::HL, 0))
        }
    } else if z == 3 {
        if y % 2 == 0 {
            Instruction::INC16(wide_slot(y / 2))
        } else {
            Instruction::DEC16(wide_slot(y / 2))
        }
    } else if z == 4 {
        Instruction::INC8(slot(y))
    } else if z == 5 {
        Instruction::DEC8(slot(y))
    } else if z == 6 {
        if y == 7 {
            Instruction::NOP
        } else {
            Instruction::LD8(slot(y), Operand::Word)
        }
    } else {
        if y == 0 {
            Instruction::RLCA
        } else if y == 1 {
            Instruction::RRCA
        } else if y == 2 {
            Instruction::RLA
        } else if y == 3 {
            Instruction::RRA
        } else if y == 4 {
            Instruction::DAA
        } else if y == 5 {
            Instruction::CPL
        } else if y == 6 {
            Instruction::SCF
        } else {
            Instruction::CCF
        }
    }
}

/// The opcodes 0xC0 to 0xFF, by their fields `y` (bits 3 to 5) and `z`
/// (bits 0 to 2).
pub open spec fn decode_high_block(y: int, z: int) -> Instruction {
    if z == 0 {
        if y < 4 {
            Instruction::RET(condition(y))
        } else if y == 4 {
            Instruction::LDH(cell(Operand::Word, 0xFF00), Operand::A)
        } else if y == 5 {
            Instruction::ADD16(Operand::SP, Operand::Word)
        } else if y == 6 {
            Instruction::LDH(Operand::A, cell(Operand::Word, 0xFF00))
        } else {
            Instruction::LDHL(Operand::SP, Operand::Word)
        }
    } else if z == 1 {
        if y % 2 == 0 {
            Instruction::POP(stack_slot(y / 2))
        } else if y == 1 {
            Instruction::RET_
        } else if y == 3 {
            Instruction::RETI
        } else if y == 5 {
            Instruction::JP1(cell(Operand::HL, 0))
        } else {
            Instruction::LD16(Operand::SP, Operand::HL)
        }
    } else if z == 2 {
        if y < 4 {
            Instruction::JP(condition(y), Operand::DWord)
        } else if y == 4 {
            Instruction::LD8(cell(Operand::C, 0xFF00), Operand::A)
        } else if y == 5 {
            Instruction::LD8(cell(Operand::DWord, 0), Operand::A)
        } else if y == 6 {
            Instruction::LD8(Operand::A, cell(Operand::C, 0xFF00))
        } else {
            Instruction::LD8(Operand::A, cell(Operand::DWord, 0))
        }
    } else if z == 3 {
        if y == 0 {
            Instruction::JP1(Operand::DWord)
        } else if y == 6 {
            Instruction::DI
        } else if y == 7 {
            Instruction::EI
        } else {
            Instruction::NOP
        }
    } else if z == 4 {
        if y < 4 {
            Instruction::CALL(condition(y), Operand::DWord)
        } else {
            Instruction::NOP
        }
    } else if z == 5 {
        if y % 2 == 0 {
            Instruction::PUSH(stack_slot(y / 2))
        } else if y == 1 {
            Instruction::CALL1(Operand::DWord)
        } else {
            Instruction::NOP
        }
    } else if z == 6 {
        if y == 0 {
            Instruction::ADC(Operand::A, Operand::Word)
        } else if y == 2 {
            Instruction::SUB(Operand::Word)
        } else if y == 4 {
            Instruction::AND(Operand::Word)
        } else if y == 5 {
            Instruction::XOR(Operand::Word)
        } else if y == 6 {
            Instruction::OR(Operand::Word)
        } else if y == 7 {
            Instruction::CP(Operand::Word)
        } else {
            Instruction::NOP
        }
    } else {
        Instruction::RST((y * 8) as u16)
    }
}

/// The instruction that a single-byte opcode stands for. The opcode is read
/// as three fields: bits 6 and 7 select the block, bits 3 to 5 and bits 0 to
/// 2 the operation and its operands. An opcode that no instruction is
/// assigned to is a NOP.
pub open spec fn decode_spec(opcode: u8) -> Instruction {
    let block = opcode as int / 64;
    let y = (opcode as int / 8) % 8;
    let z = opcode as int % 8;
    if block == 0 {
        decode_low_block(y, z)
    } else if block == 1 {
        if opcode == 0x76 {
            Instruction::HALT
        } else {
            Instruction::LD8(slot(y), slot(z))
        }
    } else if block == 2 {
        accumulator_op(y, slot(z))
    } else {
        decode_high_block(y, z)
    }
}

/// The rotate, shift or swap of `target` that field `family` selects, for
/// the extended opcodes 0xCB00 to 0xCB3F.
pub open spec fn shift_op(family: int, target: Operand) -> Instruction {
    if family == 0 {
        Instruction::RLC(target)
    } else if family == 1 {
        Instruction::RRC(target)
    } else if family == 2 {
        Instruction::RL(target)
    } else if family == 3 {
        Instruction::RR(target)
    } else if family == 4 {
        Instruction::SLA(target)
    } else if family == 5 {
        Instruction::SRA(target)
    } else if family == 6 {
        Instruction::SWAP(target)
    } else {
        Instruction::SRL(target)
    }
}

/// The instruction that an extended opcode stands for: the prefix 0xCB in
/// the high byte, and in the low byte a block (bits 6 and 7), a family or
/// bit index (bits 3 to 5) and an operand (bits 0 to 2). Any other value is
/// a NOP.
pub open spec fn decode_extended_spec(opcode: u16) -> Instruction {
    let low = opcode as int % 256;
    let block = low / 64;
    let y = (low / 8) % 8;
    let z = low % 8;
    if opcode as int / 256 != 0xCB {
        Instruction::NOP
    } else if block == 0 {
        shift_op(y, slot(z))
    } else if block == 1 {
        Instruction::BIT(y as u8, slot(z))
    } else if block == 2 {
        Instruction::RES(y as u8, slot(z))
    } else {
        Instruction::SET(y as u8, slot(z))
    }
}

/// The bit index of a decoded BIT, RES or SET is always below 8, so that
/// executing a decoded instruction never fails for its bit index.
pub proof fn lemma_decoded_bit_index(opcode: u16)
    ensures
        decode_extended_spec(opcode) matches Instruction::BIT(bit, _) ==> bit < 8,
        decode_extended_spec(opcode) matches Instruction::RES(bit, _) ==> bit < 8,
        decode_extended_spec(opcode) matches Instruction::SET(bit, _) ==> bit < 8,
{
}

/// The index of the group of eight opcodes, counted from `base`, that
/// `opcode` lies in.
pub fn nth_bit(opcode: u16, base: u16) -> (bit: u8)
    requires
        base <= opcode,
        opcode - base < 2048,
    ensures
        bit == (opcode - base) / 8,
{
    ((opcode - base) / 8) as u8
}


impl FromSpecImpl<u8> for Instruction {
    open spec fn obeys_from_spec() -> bool {
        true
    }

    open spec fn from_spec(opcode: u8) -> Instruction {
        decode_spec(opcode)
    }
}

impl From<u8> for Instruction {
    /// Decodes a single-byte opcode by table lookup.
    fn from(opcode: u8) -> (instruction: Instruction)
        ensures
            instruction == decode_spec(opcode),
    {
        match opcode {
            0x00 => Instruction::NOP,
            0x01 => Instruction::LD16(Operand::BC, Operand::DWord),
            0x02 => Instruction::LD8(Operand::Memory(Box::new(Operand::B), 0), Operand::A),
            0x03 => Instruction::INC16(Operand::BC),
            0x04 => Instruction::INC8(Operand::B),
            0x05 => Instruction::DEC8(Operand::B),
            0x06 => Instruction::LD8(Operand::B, Operand::Word),
            0x07 => Instruction::RLCA,
            0x08 => Instruction::LD16(Operand::Memory(Box::new(Operand::DWord), 0), Operand::SP),
            0x09 => Instruction::ADD16(Operand::HL, Operand::BC),
            0x0A => Instruction::LD8(Operand::A, Operand::Memory(Box::new(Operand::BC), 0)),
            0x0B => Instruction::DEC16(Operand::BC),
            0x0C => Instruction::INC8(Operand::C),
            0x0D => Instruction::DEC8(Operand::C),
            0x0E => Instruction::LD8(Operand::C, Operand::Word),
            0x0F => Instruction::RRCA,
            0x10 => Instruction::STOP,
            0x11 => Instruction::LD16(Operand::DE, Operand::DWord),
            0x12 => Instruction::LD8(Operand::Memory(Box::new(Operand::DE), 0), Operand::A),
            0x13 => Instruction::INC16(Operand::DE),
            0x14 => Instruction::INC8(Operand::D),
            0x15 => Instruction::DEC8(Operand::D),
            0x16 => Instruction::LD8(Operand::D, Operand::Word),
            0x17 => Instruction::RLA,
            0x18 => Instruction::JR1(Operand::Word),
            0x19 => Instruction::ADD16(Operand::HL, Operand::DE),
            0x1A => Instruction::LD8(Operand::A, Operand::Memory(Box::new(Operand::DE), 0)),
            0x1B => Instruction::DEC16(Operand::DE),
            0x1C => Instruction::INC8(Operand::E),
            0x1D => Instruction::DEC8(Operand::E),
            0x1E => Instruction::LD8(Operand::E, Operand::Word),
            0x1F => Instruction::RRA,
            0x20 => Instruction::JR(Operand::NoZero, Operand::DWord),
            0x21 => Instruction::LD16(Operand::HL, Operand::DWord),
            0x22 => Instruction::LDI(Operand::Memory(Box::new(Operand::HL), 0), Operand::A),
            0x23 => Instruction::INC16(Operand::HL),
            0x24 => Instruction::INC8(Operand::H),
            0x25 => Instruction::DEC8(Operand::H),
            0x26 => Instruction::LD8(Operand::H, Operand::Word),
            0x27 => Instruction::DAA,
            0x28 => Instruction::JR(Operand::Zero, Operand::DWord),
            0x29 => Instruction::ADD16(Operand::HL, Operand::HL),
            0x2A => Instruction::LDI(Operand::A, Operand::Memory(Box::new(Operand::HL), 0)),
            0x2B => Instruction::DEC16(Operand::HL),
            0x2C => Instruction::INC8(Operand::L),
            0x2D => Instruction::DEC8(Operand::L),
            0x2E => Instruction::LD8(Operand::L, Operand::Word),
            0x2F => Instruction::CPL,
            0x30 => Instruction::JR(Operand::NoCarry, Operand::DWord),
            0x31 => Instruction::LD16(Operand::SP, Operand::DWord),
            0x32 => Instruction::LDD(Operand::Memory(Box::new(Operand::HL), 0), Operand::A),
            0x33 => Instruction::INC16(Operand::SP),
            0x34 => Instruction::INC8(Operand::Memory(Box::new(Operand::HL), 0)),
            0x35 => Instruction::DEC8(Operand::Memory(Box::new(Operand::HL), 0)),
            0x36 => Instruction::LD8(Operand::Memory(Box::new(Operand::HL), 0), Operand::Word),
            0x37 => Instruction::SCF,
            0x38 => Instruction::JR(Operand::Carry, Operand::DWord),
            0x39 => Instruction::ADD16(Operand::HL, Operand::SP),
            0x3A => Instruction::LDD(Operand::A, Operand::Memory(Box::new(Operand::HL), 0)),
            0x3B => Instruction::DEC16(Operand::SP),
            0x3C => Instruction::INC8(Operand::A),
            0x3D => Instruction::DEC8(Operand::A),
            0x3F => Instruction::CCF,
            0x40 => Instruction::LD8(Operand::B, Operand::B),
            0x41 => Instruction::LD8(Operand::B, Operand::C),
            0x42 => Instruction::LD8(Operand::B, Operand::D),
            0x43 => Instruction::LD8(Operand::B, Operand::E),
            0x44 => Instruction::LD8(Operand::B, Operand::H),
            0x45 => Instruction::LD8(Operand::B, Operand::L),
            0x46 => Instruction::LD8(Operand::B, Operand::Memory(Box::new(Operand::HL), 0)),
            0x47 => Instruction::LD8(Operand::B, Operand::A),
            0x48 => Instruction::LD8(Operand::C, Operand::B),
            0x49 => Instruction::LD8(Operand::C, Operand::C),
            0x4A => Instruction::LD8(Operand::C, Operand::D),
            0x4B => Instruction::LD8(Operand::C, Operand::E),
            0x4C => Instruction::LD8(Operand::C, Operand::H),
            0x4D => Instruction::LD8(Operand::C, Operand::L),
            0x4E => Instruction::LD8(Operand::C, Operand::Memory(Box::new(Operand::HL), 0)),
            0x4F => Instruction::LD8(Operand::C, Operand::A),
            0x50 => Instruction::LD8(Operand::D, Operand::B),
            0x51 => Instruction::LD8(Operand::D, Operand::C),
            0x52 => Instruction::LD8(Operand::D, Operand::D),
            0x53 => Instruction::LD8(Operand::D, Operand::E),
            0x54 => Instruction::LD8(Operand::D, Operand::H),
            0x55 => Instruction::LD8(Operand::D, Operand::L),
            0x56 => Instruction::LD8(Operand::D, Operand::Memory(Box::new(Operand::HL), 0)),
            0x57 => Instruction::LD8(Operand::D, Operand::A),
            0x58 => Instruction::LD8(Operand::E, Operand::B),
            0x59 => Instruction::LD8(Operand::E, Operand::C),
            0x5A => Instruction::LD8(Operand::E, Operand::D),
            0x5B => Instruction::LD8(Operand::E, Operand::E),
            0x5C => Instruction::LD8(Operand::E, Operand::H),
            0x5D => Instruction::LD8(Operand::E, Operand::L),
            0x5E => Instruction::LD8(Operand::E, Operand::Memory(Box::new(Operand::HL), 0)),
            0x5F => Instruction::LD8(Operand::E, Operand::A),
            0x60 => Instruction::LD8(Operand::H, Operand::B),
            0x61 => Instruction::LD8(Operand::H, Operand::C),
            0x62 => Instruction::LD8(Operand::H, Operand::D),
            0x63 => Instruction::LD8(Operand::H, Operand::E),
            0x64 => Instruction::LD8(Operand::H, Operand::H),
            0x65 => Instruction::LD8(Operand::H, Operand::L),
            0x66 => Instruction::LD8(Operand::H, Operand::Memory(Box::new(Operand::HL), 0)),
            0x67 => Instruction::LD8(Operand::H, Operand::A),
            0x68 => Instruction::LD8(Operand::L, Operand::B),
            0x69 => Instruction::LD8(Operand::L, Operand::C),
            0x6A => Instruction::LD8(Operand::L, Operand::D),
            0x6B => Instruction::LD8(Operand::L, Operand::E),
            0x6C => Instruction::LD8(Operand::L, Operand::H),
            0x6D => Instruction::LD8(Operand::L, Operand::L),
            0x6E => Instruction::LD8(Operand::L, Operand::Memory(Box::new(Operand::HL), 0)),
            0x6F => Instruction::LD8(Operand::L, Operand::A),
            0x70 => Instruction::LD8(Operand::Memory(Box::new(Operand::HL), 0), Operand::B),
            0x71 => Instruction::LD8(Operand::Memory(Box::new(Operand::HL), 0), Operand::C),
            0x72 => Instruction::LD8(Operand::Memory(Box::new(Operand::HL), 0), Operand::D),
            0x73 => Instruction::LD8(Operand::Memory(Box::new(Operand::HL), 0), Operand::E),
            0x74 => Instruction::LD8(Operand::Memory(Box::new(Operand::HL), 0), Operand::H),
            0x75 => Instruction::LD8(Operand::Memory(Box::new(Operand::HL), 0), Operand::L),
            0x76 => Instruction::HALT,
            0x77 => Instruction::LD8(Operand::Memory(Box::new(Operand::HL), 0), Operand::A),
            0x78 => Instruction::LD8(Operand::A, Operand::B),
            0x79 => Instruction::LD8(Operand::A, Operand::C),
            0x7A => Instruction::LD8(Operand::A, Operand::D),
            0x7B => Instruction::LD8(Operand::A, Operand::E),
            0x7C => Instruction::LD8(Operand::A, Operand::H),
            0x7D => Instruction::LD8(Operand::A, Operand::L),
            0x7E => Instruction::LD8(Operand::A, Operand::Memory(Box::new(Operand::HL), 0)),
            0x7F => Instruction::LD8(Operand::A, Operand::A),
            0x80 => Instruction::ADD8(Operand::A, Operand::B),
            0x81 => Instruction::ADD8(Operand::A, Operand::C),
            0x82 => Instruction::ADD8(Operand::A, Operand::D),
            0x83 => Instruction::ADD8(Operand::A, Operand::E),
            0x84 => Instruction::ADD8(Operand::A, Operand::H),
            0x85 => Instruction::ADD8(Operand::A, Operand::L),
            0x86 => Instruction::ADD8(Operand::A, Operand::Memory(Box::new(Operand::HL), 0)),
            0x87 => Instruction::ADD8(Operand::A, Operand::A),
            0x88 => Instruction::ADC(Operand::A, Operand::B),
            0x89 => Instruction::ADC(Operand::A, Operand::C),
            0x8A => Instruction::ADC(Operand::A, Operand::D),
            0x8B => Instruction::ADC(Operand::A, Operand::E),
            0x8C => Instruction::ADC(Operand::A, Operand::H),
            0x8D => Instruction::ADC(Operand::A, Operand::L),
            0x8E => Instruction::ADC(Operand::A, Operand::Memory(Box::new(Operand::HL), 0)),
            0x8F => Instruction::ADC(Operand::A, Operand::A),
            0x90 => Instruction::SUB(Operand::B),
            0x91 => Instruction::SUB(Operand::C),
            0x92 => Instruction::SUB(Operand::D),
            0x93 => Instruction::SUB(Operand::E),
            0x94 => Instruction::SUB(Operand::H),
            0x95 => Instruction::SUB(Operand::L),
            0x96 => Instruction::SUB(Operand::Memory(Box::new(Operand::HL), 0)),
            0x97 => Instruction::SUB(Operand::A),
            0x98 => Instruction::SBC(Operand::A, Operand::B),
            0x99 => Instruction::SBC(Operand::A, Operand::C),
            0x9A => Instruction::SBC(Operand::A, Operand::D),
            0x9B => Instruction::SBC(Operand::A, Operand::E),
            0x9C => Instruction::SBC(Operand::A, Operand::H),
            0x9D => Instruction::SBC(Operand::A, Operand::L),
            0x9E => Instruction::SBC(Operand::A, Operand::Memory(Box::new(Operand::HL), 0)),
            0x9F => Instruction::SBC(Operand::A, Operand::A),
            0xA0 => Instruction::AND(Operand::B),
            0xA1 => Instruction::AND(Operand::C),
            0xA2 => Instruction::AND(Operand::D),
            0xA3 => Instruction::AND(Operand::E),
            0xA4 => Instruction::AND(Operand::H),
            0xA5 => Instruction::AND(Operand::L),
            0xA6 => Instruction::AND(Operand::Memory(Box::new(Operand::HL), 0)),
            0xA7 => Instruction::AND(Operand::A),
            0xA8 => Instruction::XOR(Operand::B),
            0xA9 => Instruction::XOR(Operand::C),
            0xAA => Instruction::XOR(Operand::D),
            0xAB => Instruction::XOR(Operand::E),
            0xAC => Instruction::XOR(Operand::H),
            0xAD => Instruction::XOR(Operand::L),
            0xAE => Instruction::XOR(Operand::Memory(Box::new(Operand::HL), 0)),
            0xAF => Instruction::XOR(Operand::A),
            0xB0 => Instruction::OR(Operand::B),
            0xB1 => Instruction::OR(Operand::C),
            0xB2 => Instruction::OR(Operand::D),
            0xB3 => Instruction::OR(Operand::E),
            0xB4 => Instruction::OR(Operand::H),
            0xB5 => Instruction::OR(Operand::L),
            0xB6 => Instruction::OR(Operand::Memory(Box::new(Operand::HL), 0)),
            0xB7 => Instruction::OR(Operand::A),
            0xB8 => Instruction::CP(Operand::B),
            0xB9 => Instruction::CP(Operand::C),
            0xBA => Instruction::CP(Operand::D),
            0xBB => Instruction::CP(Operand::E),
            0xBC => Instruction::CP(Operand::H),
            0xBD => Instruction::CP(Operand::L),
            0xBE => Instruction::CP(Operand::Memory(Box::new(Operand::HL), 0)),
            0xBF => Instruction::CP(Operand::A),
            0xC0 => Instruction::RET(Operand::NoZero),
            0xC1 => Instruction::POP(Operand::BC),
            0xC2 => Instruction::JP(Operand::NoZero, Operand::DWord),
            0xC3 => Instruction::JP1(Operand::DWord),
            0xC4 => Instruction::CALL(Operand::NoZero, Operand::DWord),
            0xC5 => Instruction::PUSH(Operand::BC),
            0xC6 => Instruction::ADC(Operand::A, Operand::Word),
            0xC7 => Instruction::RST(0x0000),
            0xC8 => Instruction::RET(Operand::Zero),
            0xC9 => Instruction::RET_,
            0xCA => Instruction::JP(Operand::Zero, Operand::DWord),
            0xCC => Instruction::CALL(Operand::Zero, Operand::DWord),
            0xCD => Instruction::CALL1(Operand::DWord),
            0xCF => Instruction::RST(0x0008),
            0xD0 => Instruction::RET(Operand::NoCarry),
            0xD1 => Instruction::POP(Operand::DE),
            0xD2 => Instruction::JP(Operand::NoCarry, Operand::DWord),
            0xD4 => Instruction::CALL(Operand::NoCarry, Operand::DWord),
            0xD5 => Instruction::PUSH(Operand::DE),
            0xD6 => Instruction::SUB(Operand::Word),
            0xD7 => Instruction::RST(0x0010),
            0xD8 => Instruction::RET(Operand::Carry),
            0xD9 => Instruction::RETI,
            0xDA => Instruction::JP(Operand::Carry, Operand::DWord),
            0xDC => Instruction::CALL(Operand::Carry, Operand::DWord),
            0xDF => Instruction::RST(0x0018),
            0xE0 => Instruction::LDH(Operand::Memory(Box::new(Operand::Word), 0xFF00), Operand::A),
            0xE1 => Instruction::POP(Operand::HL),
            0xE2 => Instruction::LD8(Operand::Memory(Box::new(Operand::C), 0xFF00), Operand::A),
            0xE5 => Instruction::PUSH(Operand::HL),
            0xE6 => Instruction::AND(Operand::Word),
            0xE7 => Instruction::RST(0x0020),
            0xE8 => Instruction::ADD16(Operand::SP, Operand::Word),
            0xE9 => Instruction::JP1(Operand::Memory(Box::new(Operand::HL), 0)),
            0xEA => Instruction::LD8(Operand::Memory(Box::new(Operand::DWord), 0), Operand::A),
            0xEE => Instruction::XOR(Operand::Word),
            0xEF => Instruction::RST(0x0028),
            0xF0 => Instruction::LDH(Operand::A, Operand::Memory(Box::new(Operand::Word), 0xFF00)),
            0xF1 => Instruction::POP(Operand::AF),
            0xF2 => Instruction::LD8(Operand::A, Operand::Memory(Box::new(Operand::C), 0xFF00)),
            0xF3 => Instruction::DI,
            0xF5 => Instruction::PUSH(Operand::AF),
            0xF6 => Instruction::OR(Operand::Word),
            0xF7 => Instruction::RST(0x0030),
            0xF8 => Instruction::LDHL(Operand::SP, Operand::Word),
            0xF9 => Instruction::LD16(Operand::SP, Operand::HL),
            0xFA => Instruction::LD8(Operand::A, Operand::Memory(Box::new(Operand::DWord), 0)),
            0xFB => Instruction::EI,
            0xFE => Instruction::CP(Operand::Word),
            0xFF => Instruction::RST(0x0038),
            _ => Instruction::NOP,
        }
    }
}

impl FromSpecImpl<u16> for Instruction {
    open spec fn obeys_from_spec() -> bool {
        true
    }

    open spec fn from_spec(opcode: u16) -> Instruction {
        decode_extended_spec(opcode)
    }
}

impl From<u16> for Instruction {
    /// Decodes an extended opcode: the prefix 0xCB and the byte after it.
    /// The bit index of BIT, RES and SET is the position of the opcode in
    /// its column of the table.
    fn from(opcode: u16) -> (instruction: Instruction)
        ensures
            instruction == decode_extended_spec(opcode),
    {
        match opcode {
            // RLC n
            0xCB00 => Instruction::RLC(Operand::B),
            0xCB01 => Instruction::RLC(Operand::C),
            0xCB02 => Instruction::RLC(Operand::D),
            0xCB03 => Instruction::RLC(Operand::E),
            0xCB04 => Instruction::RLC(Operand::H),
            0xCB05 => Instruction::RLC(Operand::L),
            0xCB06 => Instruction::RLC(Operand::Memory(Box::new(Operand::HL), 0)),
            0xCB07 => Instruction::RLC(Operand::A),
            // RRC n
            0xCB08 => Instruction::RRC(Operand::B),
            0xCB09 => Instruction::RRC(Operand::C),
            0xCB0A => Instruction::RRC(Operand::D),
            0xCB0B => Instruction::RRC(Operand::E),
            0xCB0C => Instruction::RRC(Operand::H),
            0xCB0D => Instruction::RRC(Operand::L),
            0xCB0E => Instruction::RRC(Operand::Memory(Box::new(Operand::HL), 0)),
            0xCB0F => Instruction::RRC(Operand::A),
            // RL n
            0xCB10 => Instruction::RL(Operand::B),
            0xCB11 => Instruction::RL(Operand::C),
            0xCB12 => Instruction::RL(Operand::D),
            0xCB13 => Instruction::RL(Operand::E),
            0xCB14 => Instruction::RL(Operand::H),
            0xCB15 => Instruction::RL(Operand::L),
            0xCB16 => Instruction::RL(Operand::Memory(Box::new(Operand::HL), 0)),
            0xCB17 => Instruction::RL(Operand::A),
            // RR n
            0xCB18 => Instruction::RR(Operand::B),
            0xCB19 => Instruction::RR(Operand::C),
            0xCB1A => Instruction::RR(Operand::D),
            0xCB1B => Instruction::RR(Operand::E),
            0xCB1C => Instruction::RR(Operand::H),
            0xCB1D => Instruction::RR(Operand::L),
            0xCB1E => Instruction::RR(Operand::Memory(Box::new(Operand::HL), 0)),
            0xCB1F => Instruction::RR(Operand::A),
            // SLA n
            0xCB20 => Instruction::SLA(Operand::B),
            0xCB21 => Instruction::SLA(Operand::C),
            0xCB22 => Instruction::SLA(Operand::D),
            0xCB23 => Instruction::SLA(Operand::E),
            0xCB24 => Instruction::SLA(Operand::H),
            0xCB25 => Instruction::SLA(Operand::L),
            0xCB26 => Instruction::SLA(Operand::Memory(Box::new(Operand::HL), 0)),
            0xCB27 => Instruction::SLA(Operand::A),
            // SRA n
            0xCB28 => Instruction::SRA(Operand::B),
            0xCB29 => Instruction::SRA(Operand::C),
            0xCB2A => Instruction::SRA(Operand::D),
            0xCB2B => Instruction::SRA(Operand::E),
            0xCB2C => Instruction::SRA(Operand::H),
            0xCB2D => Instruction::SRA(Operand::L),
            0xCB2E => Instruction::SRA(Operand::Memory(Box::new(Operand::HL), 0)),
            0xCB2F => Instruction::SRA(Operand::A),
            // SWAP n
            0xCB30 => Instruction::SWAP(Operand::B),
            0xCB31 => Instruction::SWAP(Operand::C),
            0xCB32 => Instruction::SWAP(Operand::D),
            0xCB33 => Instruction::SWAP(Operand::E),
            0xCB34 => Instruction::SWAP(Operand::H),
            0xCB35 => Instruction::SWAP(Operand::L),
            0xCB36 => Instruction::SWAP(Operand::Memory(Box::new(Operand::HL), 0)),
            0xCB37 => Instruction::SWAP(Operand::A),
            // SRL n
            0xCB38 => Instruction::SRL(Operand::B),
            0xCB39 => Instruction::SRL(Operand::C),
            0xCB3A => Instruction::SRL(Operand::D),
            0xCB3B => Instruction::SRL(Operand::E),
            0xCB3C => Instruction::SRL(Operand::H),
            0xCB3D => Instruction::SRL(Operand::L),
            0xCB3E => Instruction::SRL(Operand::Memory(Box::new(Operand::HL), 0)),
            0xCB3F => Instruction::SRL(Operand::A),
            // BIT b,r
            0xCB40 | 0xCB48 | 0xCB50 | 0xCB58 | 0xCB60 | 0xCB68 | 0xCB70 | 0xCB78 => {
                let bit: u8 = nth_bit(opcode, 0xCB40);
                Instruction::BIT(bit, Operand::B)
            },
            0xCB41 | 0xCB49 | 0xCB51 | 0xCB59 | 0xCB61 | 0xCB69 | 0xCB71 | 0xCB79 => {
                let bit: u8 = nth_bit(opcode, 0xCB41);
                Instruction::BIT(bit, Operand::C)
            },
            0xCB42 | 0xCB4A | 0xCB52 | 0xCB5A | 0xCB62 | 0xCB6A | 0xCB72 | 0xCB7A => {
                let bit: u8 = nth_bit(opcode, 0xCB42);
                Instruction::BIT(bit, Operand::D)
            },
            0xCB43 | 0xCB4B | 0xCB53 | 0xCB5B | 0xCB63 | 0xCB6B | 0xCB73 | 0xCB7B => {
                let bit: u8 = nth_bit(opcode, 0xCB43);
                Instruction::BIT(bit, Operand::E)
            },
            0xCB44 | 0xCB4C | 0xCB54 | 0xCB5C | 0xCB64 | 0xCB6C | 0xCB74 | 0xCB7C => {
                let bit: u8 = nth_bit(opcode, 0xCB44);
                Instruction::BIT(bit, Operand::H)
            },
            0xCB45 | 0xCB4D | 0xCB55 | 0xCB5D | 0xCB65 | 0xCB6D | 0xCB75 | 0xCB7D => {
                let bit: u8 = nth_bit(opcode, 0xCB45);
                Instruction::BIT(bit, Operand::L)
            },
            0xCB46 | 0xCB4E | 0xCB56 | 0xCB5E | 0xCB66 | 0xCB6E | 0xCB76 | 0xCB7E => {
                let bit: u8 = nth_bit(opcode, 0xCB46);
                Instruction::BIT(bit, Operand::Memory(Box::new(Operand::HL), 0))
            },
            0xCB47 | 0xCB4F | 0xCB57 | 0xCB5F | 0xCB67 | 0xCB6F | 0xCB77 | 0xCB7F => {
                let bit: u8 = nth_bit(opcode, 0xCB47);
                Instruction::BIT(bit, Operand::A)
            },
            // RES b,r
            0xCB80 | 0xCB88 | 0xCB90 | 0xCB98 | 0xCBA0 | 0xCBA8 | 0xCBB0 | 0xCBB8 => {
                let bit: u8 = nth_bit(opcode, 0xCB80);
                Instruction::RES(bit, Operand::B)
            },
            0xCB81 | 0xCB89 | 0xCB91 | 0xCB99 | 0xCBA1 | 0xCBA9 | 0xCBB1 | 0xCBB9 => {
                let bit: u8 = nth_bit(opcode, 0xCB81);
                Instruction::RES(bit, Operand::C)
            },
            0xCB82 | 0xCB8A | 0xCB92 | 0xCB9A | 0xCBA2 | 0xCBAA | 0xCBB2 | 0xCBBA => {
                let bit: u8 = nth_bit(opcode, 0xCB82);
                Instruction::RES(bit, Operand::D)
            },
            0xCB83 | 0xCB8B | 0xCB93 | 0xCB9B | 0xCBA3 | 0xCBAB | 0xCBB3 | 0xCBBB => {
                let bit: u8 = nth_bit(opcode, 0xCB83);
                Instruction::RES(bit, Operand::E)
            },
            0xCB84 | 0xCB8C | 0xCB94 | 0xCB9C | 0xCBA4 | 0xCBAC | 0xCBB4 | 0xCBBC => {
                let bit: u8 = nth_bit(opcode, 0xCB84);
                Instruction::RES(bit, Operand::H)
            },
            0xCB85 | 0xCB8D | 0xCB95 | 0xCB9D | 0xCBA5 | 0xCBAD | 0xCBB5 | 0xCBBD => {
                let bit: u8 = nth_bit(opcode, 0xCB85);
                Instruction::RES(bit, Operand::L)
            },
            0xCB86 | 0xCB8E | 0xCB96 | 0xCB9E | 0xCBA6 | 0xCBAE | 0xCBB6 | 0xCBBE => {
                let bit: u8 = nth_bit(opcode, 0xCB86);
                Instruction::RES(bit, Operand::Memory(Box::new(Operand::HL), 0))
            },
            0xCB87 | 0xCB8F | 0xCB97 | 0xCB9F | 0xCBA7 | 0xCBAF | 0xCBB7 | 0xCBBF => {
                let bit: u8 = nth_bit(opcode, 0xCB87);
                Instruction::RES(bit, Operand::A)
            },
            // SET b,r
            0xCBC0 | 0xCBC8 | 0xCBD0 | 0xCBD8 | 0xCBE0 | 0xCBE8 | 0xCBF0 | 0xCBF8 => {
                let bit: u8 = nth_bit(opcode, 0xCBC0);
                Instruction::SET(bit, Operand::B)
            },
            0xCBC1 | 0xCBC9 | 0xCBD1 | 0xCBD9 | 0xCBE1 | 0xCBE9 | 0xCBF1 | 0xCBF9 => {
                let bit: u8 = nth_bit(opcode, 0xCBC1);
                Instruction::SET(bit, Operand::C)
            },
            0xCBC2 | 0xCBCA | 0xCBD2 | 0xCBDA | 0xCBE2 | 0xCBEA | 0xCBF2 | 0xCBFA => {
                let bit: u8 = nth_bit(opcode, 0xCBC2);
                Instruction::SET(bit, Operand::D)
            },
            0xCBC3 | 0xCBCB | 0xCBD3 | 0xCBDB | 0xCBE3 | 0xCBEB | 0xCBF3 | 0xCBFB => {
                let bit: u8 = nth_bit(opcode, 0xCBC3);
                Instruction::SET(bit, Operand::E)
            },
            0xCBC4 | 0xCBCC | 0xCBD4 | 0xCBDC | 0xCBE4 | 0xCBEC | 0xCBF4 | 0xCBFC => {
                let bit: u8 = nth_bit(opcode, 0xCBC4);
                Instruction::SET(bit, Operand::H)
            },
            0xCBC5 | 0xCBCD | 0xCBD5 | 0xCBDD | 0xCBE5 | 0xCBED | 0xCBF5 | 0xCBFD => {
                let bit: u8 = nth_bit(opcode, 0xCBC5);
                Instruction::SET(bit, Operand::L)
            },
            0xCBC6 | 0xCBCE | 0xCBD6 | 0xCBDE | 0xCBE6 | 0xCBEE | 0xCBF6 | 0xCBFE => {
                let bit: u8 = nth_bit(opcode, 0xCBC6);
                Instruction::SET(bit, Operand::Memory(Box::new(Operand::HL), 0))
            },
            0xCBC7 | 0xCBCF | 0xCBD7 | 0xCBDF | 0xCBE7 | 0xCBEF | 0xCBF7 | 0xCBFF => {
                let bit: u8 = nth_bit(opcode, 0xCBC7);
                Instruction::SET(bit, Operand::A)
            },
            _ => Instruction::NOP,
        }
    }
}

} // verus!
