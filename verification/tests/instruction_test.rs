use rustboy::soc::instruction::{nth_bit, Instruction, Operand};

fn slots() -> [Operand; 8] {
    [
        Operand::B,
        Operand::C,
        Operand::D,
        Operand::E,
        Operand::H,
        Operand::L,
        Operand::Memory(Box::new(Operand::HL), 0),
        Operand::A,
    ]
}

#[test]
fn decoding_is_total_and_deterministic() {
    for opcode in 0u8..=255 {
        assert_eq!(Instruction::from(opcode), Instruction::from(opcode));
    }
    for low in 0u16..=255 {
        let opcode = 0xCB00 | low;
        assert_eq!(Instruction::from(opcode), Instruction::from(opcode));
    }
}

#[test]
fn register_to_register_loads_fill_their_block() {
    let slots = slots();
    for opcode in 0x40u8..=0x7F {
        let target = slots[((opcode >> 3) & 7) as usize].clone();
        let source = slots[(opcode & 7) as usize].clone();
        if opcode == 0x76 {
            assert_eq!(Instruction::from(opcode), Instruction::HALT);
        } else {
            assert_eq!(Instruction::from(opcode), Instruction::LD8(target, source));
        }
    }
}

#[test]
fn accumulator_operations_fill_their_block() {
    let slots = slots();
    for opcode in 0x80u8..=0xBF {
        let source = slots[(opcode & 7) as usize].clone();
        let expected = match (opcode >> 3) & 7 {
            0 => Instruction::ADD8(Operand::A, source),
            1 => Instruction::ADC(Operand::A, source),
            2 => Instruction::SUB(source),
            3 => Instruction::SBC(Operand::A, source),
            4 => Instruction::AND(source),
            5 => Instruction::XOR(source),
            6 => Instruction::OR(source),
            _ => Instruction::CP(source),
        };
        assert_eq!(Instruction::from(opcode), expected);
    }
}

#[test]
fn selected_opcodes_decode_to_their_instruction() {
    let indirect = |base: Operand, offset: u16| Operand::Memory(Box::new(base), offset);
    assert_eq!(Instruction::from(0x00u8), Instruction::NOP);
    assert_eq!(Instruction::from(0x01u8), Instruction::LD16(Operand::BC, Operand::DWord));
    assert_eq!(Instruction::from(0x06u8), Instruction::LD8(Operand::B, Operand::Word));
    assert_eq!(Instruction::from(0x07u8), Instruction::RLCA);
    assert_eq!(
        Instruction::from(0x08u8),
        Instruction::LD16(indirect(Operand::DWord, 0), Operand::SP)
    );
    assert_eq!(Instruction::from(0x09u8), Instruction::ADD16(Operand::HL, Operand::BC));
    assert_eq!(Instruction::from(0x0Au8), Instruction::LD8(Operand::A, indirect(Operand::BC, 0)));
    assert_eq!(Instruction::from(0x0Fu8), Instruction::RRCA);
    assert_eq!(Instruction::from(0x10u8), Instruction::STOP);
    assert_eq!(Instruction::from(0x17u8), Instruction::RLA);
    assert_eq!(Instruction::from(0x18u8), Instruction::JR1(Operand::Word));
    assert_eq!(Instruction::from(0x1Fu8), Instruction::RRA);
    assert_eq!(Instruction::from(0x20u8), Instruction::JR(Operand::NoZero, Operand::DWord));
    assert_eq!(Instruction::from(0x22u8), Instruction::LDI(indirect(Operand::HL, 0), Operand::A));
    assert_eq!(Instruction::from(0x27u8), Instruction::DAA);
    assert_eq!(Instruction::from(0x2Au8), Instruction::LDI(Operand::A, indirect(Operand::HL, 0)));
    assert_eq!(Instruction::from(0x2Fu8), Instruction::CPL);
    assert_eq!(Instruction::from(0x32u8), Instruction::LDD(indirect(Operand::HL, 0), Operand::A));
    assert_eq!(Instruction::from(0x34u8), Instruction::INC8(indirect(Operand::HL, 0)));
    assert_eq!(Instruction::from(0x36u8), Instruction::LD8(indirect(Operand::HL, 0), Operand::Word));
    assert_eq!(Instruction::from(0x37u8), Instruction::SCF);
    assert_eq!(Instruction::from(0x3Bu8), Instruction::DEC16(Operand::SP));
    assert_eq!(Instruction::from(0x3Fu8), Instruction::CCF);
    assert_eq!(Instruction::from(0x76u8), Instruction::HALT);
    assert_eq!(Instruction::from(0xC0u8), Instruction::RET(Operand::NoZero));
    assert_eq!(Instruction::from(0xC1u8), Instruction::POP(Operand::BC));
    assert_eq!(Instruction::from(0xC3u8), Instruction::JP1(Operand::DWord));
    assert_eq!(Instruction::from(0xC4u8), Instruction::CALL(Operand::NoZero, Operand::DWord));
    assert_eq!(Instruction::from(0xC9u8), Instruction::RET_);
    assert_eq!(Instruction::from(0xCAu8), Instruction::JP(Operand::Zero, Operand::DWord));
    assert_eq!(Instruction::from(0xCDu8), Instruction::CALL1(Operand::DWord));
    assert_eq!(Instruction::from(0xD6u8), Instruction::SUB(Operand::Word));
    assert_eq!(Instruction::from(0xD9u8), Instruction::RETI);
    assert_eq!(Instruction::from(0xE0u8), Instruction::LDH(indirect(Operand::Word, 0xFF00), Operand::A));
    assert_eq!(Instruction::from(0xE2u8), Instruction::LD8(indirect(Operand::C, 0xFF00), Operand::A));
    assert_eq!(Instruction::from(0xE8u8), Instruction::ADD16(Operand::SP, Operand::Word));
    assert_eq!(Instruction::from(0xE9u8), Instruction::JP1(indirect(Operand::HL, 0)));
    assert_eq!(Instruction::from(0xEAu8), Instruction::LD8(indirect(Operand::DWord, 0), Operand::A));
    assert_eq!(Instruction::from(0xF0u8), Instruction::LDH(Operand::A, indirect(Operand::Word, 0xFF00)));
    assert_eq!(Instruction::from(0xF1u8), Instruction::POP(Operand::AF));
    assert_eq!(Instruction::from(0xF3u8), Instruction::DI);
    assert_eq!(Instruction::from(0xF5u8), Instruction::PUSH(Operand::AF));
    assert_eq!(Instruction::from(0xF8u8), Instruction::LDHL(Operand::SP, Operand::Word));
    assert_eq!(Instruction::from(0xF9u8), Instruction::LD16(Operand::SP, Operand::HL));
    assert_eq!(Instruction::from(0xFBu8), Instruction::EI);
    assert_eq!(Instruction::from(0xFEu8), Instruction::CP(Operand::Word));
}

#[test]
fn restarts_carry_their_vector() {
    let opcodes = [0xC7u8, 0xCF, 0xD7, 0xDF, 0xE7, 0xEF, 0xF7, 0xFF];
    for (index, opcode) in opcodes.iter().enumerate() {
        assert_eq!(Instruction::from(*opcode), Instruction::RST(index as u16 * 8));
    }
}

#[test]
fn unassigned_opcodes_are_no_ops() {
    for opcode in [0x3Eu8, 0xCB, 0xCE, 0xD3, 0xDB, 0xDD, 0xDE, 0xE3, 0xE4, 0xEB, 0xEC, 0xED, 0xF4, 0xFC, 0xFD] {
        assert_eq!(Instruction::from(opcode), Instruction::NOP);
    }
    // An extended opcode without the prefix in its high byte.
    for opcode in [0x0000u16, 0x0037, 0xCA37, 0xCC00, 0xFFFF] {
        assert_eq!(Instruction::from(opcode), Instruction::NOP);
    }
}

#[test]
fn shifts_and_rotates_fill_the_first_quarter_of_the_extended_table() {
    let slots = slots();
    for low in 0x00u16..=0x3F {
        let target = slots[(low & 7) as usize].clone();
        let expected = match (low >> 3) & 7 {
            0 => Instruction::RLC(target),
            1 => Instruction::RRC(target),
            2 => Instruction::RL(target),
            3 => Instruction::RR(target),
            4 => Instruction::SLA(target),
            5 => Instruction::SRA(target),
            6 => Instruction::SWAP(target),
            _ => Instruction::SRL(target),
        };
        assert_eq!(Instruction::from(0xCB00 | low), expected);
    }
}

#[test]
fn bit_index_comes_from_the_position_of_the_opcode() {
    let slots = slots();
    for low in 0x40u16..=0xFF {
        let target = slots[(low & 7) as usize].clone();
        let bit = ((low >> 3) & 7) as u8;
        let expected = match low >> 6 {
            1 => Instruction::BIT(bit, target),
            2 => Instruction::RES(bit, target),
            _ => Instruction::SET(bit, target),
        };
        assert_eq!(Instruction::from(0xCB00 | low), expected);
    }
    assert_eq!(Instruction::from(0xCB40u16), Instruction::BIT(0, Operand::B));
    assert_eq!(Instruction::from(0xCB7Fu16), Instruction::BIT(7, Operand::A));
    assert_eq!(
        Instruction::from(0xCB9Eu16),
        Instruction::RES(3, Operand::Memory(Box::new(Operand::HL), 0))
    );
    assert_eq!(Instruction::from(0xCBC0u16), Instruction::SET(0, Operand::B));
}

#[test]
fn nth_bit_counts_groups_of_eight() {
    assert_eq!(nth_bit(0xCB40, 0xCB40), 0);
    assert_eq!(nth_bit(0xCB47, 0xCB40), 0);
    assert_eq!(nth_bit(0xCB48, 0xCB40), 1);
    assert_eq!(nth_bit(0xCB78, 0xCB40), 7);
    assert_eq!(nth_bit(0xCBFF, 0xCBC7), 7);
}

#[test]
fn operands_can_be_copied() {
    let nested = Operand::Memory(Box::new(Operand::Memory(Box::new(Operand::C), 0xFF00)), 3);
    assert_eq!(nested.clone(), nested);
    assert_eq!(nested.duplicate(), nested);
    assert_eq!(Operand::DWord.clone(), Operand::DWord);
    assert_ne!(Operand::Word, Operand::DWord);
}
