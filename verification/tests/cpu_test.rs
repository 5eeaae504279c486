use rustboy::cartridge::cartridge::decode_cartridge;
use rustboy::memory::MemorySpace;
use rustboy::soc::cpu::{ReadWrite, CPU};
use rustboy::soc::instruction::{Instruction, Operand};
use rustboy::soc::register::Flags;

/// A processor whose cartridge holds `program` from address 0 on, with the
/// boot sequence marked as completed, so that the program counter of a
/// fresh processor points at the program.
fn cpu_with_program(program: &[u8]) -> CPU {
    let mut image = vec![0u8; 0x8000];
    image[..program.len()].copy_from_slice(program);
    let cartridge = decode_cartridge(image).expect("a plain ROM");
    let mut memory = MemorySpace::new(cartridge);
    memory.write(0xFF50, 1).expect("the boot status is writable");
    CPU::new(memory)
}

fn step(cpu: &mut CPU) {
    cpu.exec_single_instruction().expect("the instruction executes");
}

#[test]
fn should_load_immediate_value() {
    // LD r, Word
    let mut cpu = cpu_with_program(&[0x06, 0x11]);
    step(&mut cpu);
    assert_eq!(cpu.register.B, 0x11);
    assert_eq!(cpu.cycle, 8);

    let mut cpu = cpu_with_program(&[0x0E, 0x11]);
    step(&mut cpu);
    assert_eq!(cpu.register.C, 0x11);
    assert_eq!(cpu.cycle, 8);

    let mut cpu = cpu_with_program(&[0x16, 0x11]);
    step(&mut cpu);
    assert_eq!(cpu.register.D, 0x11);
    assert_eq!(cpu.cycle, 8);

    let mut cpu = cpu_with_program(&[0x1E, 0x11]);
    step(&mut cpu);
    assert_eq!(cpu.register.E, 0x11);
    assert_eq!(cpu.cycle, 8);

    let mut cpu = cpu_with_program(&[0x26, 0x11]);
    step(&mut cpu);
    assert_eq!(cpu.register.H, 0x11);
    assert_eq!(cpu.cycle, 8);

    let mut cpu = cpu_with_program(&[0x2E, 0x11]);
    step(&mut cpu);
    assert_eq!(cpu.register.L, 0x11);
    assert_eq!(cpu.cycle, 8);
}

#[test]
fn should_load_between_registers() {
    // ------------
    // LD A, r2
    // ------------
    let mut cpu = cpu_with_program(&[0x7F]);
    cpu.register.A = 0xFF;
    step(&mut cpu);
    assert_eq!(cpu.register.A, 0xFF);
    assert_eq!(cpu.cycle, 4);

    let mut cpu = cpu_with_program(&[0x78]);
    cpu.register.B = 0xFF;
    step(&mut cpu);
    assert_eq!(cpu.register.A, 0xFF);
    assert_eq!(cpu.cycle, 4);

    let mut cpu = cpu_with_program(&[0x79]);
    cpu.register.C = 0xFF;
    step(&mut cpu);
    assert_eq!(cpu.register.A, 0xFF);
    assert_eq!(cpu.cycle, 4);

    let mut cpu = cpu_with_program(&[0x7A]);
    cpu.register.D = 0xFF;
    step(&mut cpu);
    assert_eq!(cpu.register.A, 0xFF);
    assert_eq!(cpu.cycle, 4);

    let mut cpu = cpu_with_program(&[0x7B]);
    cpu.register.E = 0xFF;
    step(&mut cpu);
    assert_eq!(cpu.register.A, 0xFF);
    assert_eq!(cpu.cycle, 4);

    let mut cpu = cpu_with_program(&[0x7C]);
    cpu.register.H = 0xFF;
    step(&mut cpu);
    assert_eq!(cpu.register.A, 0xFF);
    assert_eq!(cpu.cycle, 4);

    let mut cpu = cpu_with_program(&[0x7D]);
    cpu.register.L = 0xFF;
    step(&mut cpu);
    assert_eq!(cpu.register.A, 0xFF);
    assert_eq!(cpu.cycle, 4);

    let mut cpu = cpu_with_program(&[0x7E, 0xFF]);
    cpu.register.write_HL(0x01);
    step(&mut cpu);
    assert_eq!(cpu.register.A, 0xFF);
    assert_eq!(cpu.cycle, 8);
}

#[test]
fn should_load_immediate_double_value() {
    let mut cpu = cpu_with_program(&[0x01, 0x11, 0x22]);
    step(&mut cpu);
    assert_eq!(cpu.register.B, 0x11);
    assert_eq!(cpu.register.C, 0x22);
    assert_eq!(cpu.cycle, 12);

    let mut cpu = cpu_with_program(&[0x11, 0x11, 0x22]);
    step(&mut cpu);
    assert_eq!(cpu.register.D, 0x11);
    assert_eq!(cpu.register.E, 0x22);
    assert_eq!(cpu.cycle, 12);

    let mut cpu = cpu_with_program(&[0x21, 0x11, 0x22]);
    step(&mut cpu);
    assert_eq!(cpu.register.H, 0x11);
    assert_eq!(cpu.register.L, 0x22);
    assert_eq!(cpu.cycle, 12);

    let mut cpu = cpu_with_program(&[0x31, 0x11, 0x22]);
    step(&mut cpu);
    assert_eq!(cpu.register.SP, 0x1122);
    assert_eq!(cpu.cycle, 12);

    let mut cpu = cpu_with_program(&[0xF9]);
    cpu.register.write_HL(0x1234);
    step(&mut cpu);
    assert_eq!(cpu.register.SP, 0x1234);
}

#[test]
fn should_push() {
    // The stack lies in working RAM: the ROM window takes no data. The
    // stack pointer goes down before each byte, high byte first.
    let mut cpu = cpu_with_program(&[0xF5, 0x00, 0x00]);
    cpu.register.write_AF(0x1234);
    cpu.register.SP = 0xC002;
    let prev_sp = cpu.register.SP;

    step(&mut cpu);
    assert_eq!(cpu.register.SP, prev_sp - 2);
    assert_eq!(cpu.memory.read(0xC001), Ok(0x12));
    // The lower nibble of F is reserved and reads as zero.
    assert_eq!(cpu.memory.read(0xC000), Ok(0x30));
    assert_eq!(cpu.cycle, 12);

    let mut cpu = cpu_with_program(&[0xC5, 0x00, 0x00]);
    cpu.register.write_BC(0x1234);
    cpu.register.SP = 0xC002;
    let prev_sp = cpu.register.SP;

    step(&mut cpu);
    assert_eq!(cpu.register.SP, prev_sp - 2);
    assert_eq!(cpu.memory.read(0xC001), Ok(0x12));
    assert_eq!(cpu.memory.read(0xC000), Ok(0x34));
    assert_eq!(cpu.cycle, 12);

    let mut cpu = cpu_with_program(&[0xD5, 0x00, 0x00]);
    cpu.register.write_DE(0x1234);
    cpu.register.SP = 0xC002;
    let prev_sp = cpu.register.SP;

    step(&mut cpu);
    assert_eq!(cpu.register.SP, prev_sp - 2);
    assert_eq!(cpu.memory.read(0xC001), Ok(0x12));
    assert_eq!(cpu.memory.read(0xC000), Ok(0x34));
    assert_eq!(cpu.cycle, 12);

    let mut cpu = cpu_with_program(&[0xE5, 0x00, 0x00]);
    cpu.register.write_HL(0x1234);
    cpu.register.SP = 0xC002;
    let prev_sp = cpu.register.SP;

    step(&mut cpu);
    assert_eq!(cpu.register.SP, prev_sp - 2);
    assert_eq!(cpu.memory.read(0xC001), Ok(0x12));
    assert_eq!(cpu.memory.read(0xC000), Ok(0x34));
    assert_eq!(cpu.cycle, 12);
}

#[test]
fn should_pop() {
    // The low byte is popped first, as the inverse of a push.
    let mut cpu = cpu_with_program(&[0xF1, 0x12, 0x34]);
    cpu.register.SP = 1;
    step(&mut cpu);
    assert_eq!(cpu.register.SP, 3);
    assert_eq!(cpu.register.A, 0x34);
    // The lower nibble of F is reserved and stays clear.
    assert_eq!(cpu.register.F, 0x10);
    assert_eq!(cpu.cycle, 12);

    let mut cpu = cpu_with_program(&[0xC1, 0x12, 0x34]);
    cpu.register.SP = 1;
    step(&mut cpu);
    assert_eq!(cpu.register.SP, 3);
    assert_eq!(cpu.register.B, 0x34);
    assert_eq!(cpu.register.C, 0x12);
    assert_eq!(cpu.cycle, 12);

    let mut cpu = cpu_with_program(&[0xD1, 0x12, 0x34]);
    cpu.register.SP = 1;
    step(&mut cpu);
    assert_eq!(cpu.register.SP, 3);
    assert_eq!(cpu.register.D, 0x34);
    assert_eq!(cpu.register.E, 0x12);
    assert_eq!(cpu.cycle, 12);

    let mut cpu = cpu_with_program(&[0xE1, 0x12, 0x34]);
    cpu.register.SP = 1;
    step(&mut cpu);
    assert_eq!(cpu.register.SP, 3);
    assert_eq!(cpu.register.H, 0x34);
    assert_eq!(cpu.register.L, 0x12);
    assert_eq!(cpu.cycle, 12);
}

#[test]
fn should_add() {
    let mut cpu = cpu_with_program(&[0x87]);
    cpu.register.A = 1;
    step(&mut cpu);
    assert_eq!(cpu.register.A, 2);
    assert_eq!(cpu.cycle, 4);

    let mut cpu = cpu_with_program(&[0x80]);
    cpu.register.B = 1;
    step(&mut cpu);
    assert_eq!(cpu.register.A, 1);
    assert_eq!(cpu.cycle, 4);

    let mut cpu = cpu_with_program(&[0x81]);
    cpu.register.C = 1;
    step(&mut cpu);
    assert_eq!(cpu.register.A, 1);
    assert_eq!(cpu.cycle, 4);

    let mut cpu = cpu_with_program(&[0x82]);
    cpu.register.D = 1;
    step(&mut cpu);
    assert_eq!(cpu.register.A, 1);
    assert_eq!(cpu.cycle, 4);

    let mut cpu = cpu_with_program(&[0x83]);
    cpu.register.E = 1;
    step(&mut cpu);
    assert_eq!(cpu.register.A, 1);
    assert_eq!(cpu.cycle, 4);

    let mut cpu = cpu_with_program(&[0x84]);
    cpu.register.H = 1;
    step(&mut cpu);
    assert_eq!(cpu.register.A, 1);
    assert_eq!(cpu.cycle, 4);

    let mut cpu = cpu_with_program(&[0x85]);
    cpu.register.L = 1;
    step(&mut cpu);
    assert_eq!(cpu.register.A, 1);
    assert_eq!(cpu.cycle, 4);

    let mut cpu = cpu_with_program(&[0x86, 0x12]);
    cpu.register.write_HL(1);
    step(&mut cpu);
    assert_eq!(cpu.register.A, 0x12);
    assert_eq!(cpu.cycle, 8);

    let mut cpu = cpu_with_program(&[0xC6, 0x34]);
    step(&mut cpu);
    assert_eq!(cpu.register.A, 0x34);
    assert_eq!(cpu.cycle, 8);
}

#[test]
fn should_sub() {
    let mut cpu = cpu_with_program(&[0x97]);
    cpu.register.A = 1;
    step(&mut cpu);
    assert_eq!(cpu.register.A, 0);
    assert_eq!(cpu.cycle, 4);

    let mut cpu = cpu_with_program(&[0x90]);
    cpu.register.A = 1;
    cpu.register.B = 1;
    step(&mut cpu);
    assert_eq!(cpu.register.A, 0);
    assert_eq!(cpu.cycle, 4);

    let mut cpu = cpu_with_program(&[0x91]);
    cpu.register.A = 1;
    cpu.register.C = 1;
    step(&mut cpu);
    assert_eq!(cpu.register.A, 0);
    assert_eq!(cpu.cycle, 4);

    let mut cpu = cpu_with_program(&[0x92]);
    cpu.register.A = 1;
    cpu.register.D = 1;
    step(&mut cpu);
    assert_eq!(cpu.register.A, 0);
    assert_eq!(cpu.cycle, 4);

    let mut cpu = cpu_with_program(&[0x93]);
    cpu.register.A = 1;
    cpu.register.E = 1;
    step(&mut cpu);
    assert_eq!(cpu.register.A, 0);
    assert_eq!(cpu.cycle, 4);

    let mut cpu = cpu_with_program(&[0x94]);
    cpu.register.A = 1;
    cpu.register.H = 1;
    step(&mut cpu);
    assert_eq!(cpu.register.A, 0);
    assert_eq!(cpu.cycle, 4);

    let mut cpu = cpu_with_program(&[0x95]);
    cpu.register.A = 1;
    cpu.register.L = 1;
    step(&mut cpu);
    assert_eq!(cpu.register.A, 0);
    assert_eq!(cpu.cycle, 4);

    let mut cpu = cpu_with_program(&[0x96, 0x01]);
    cpu.register.A = 1;
    cpu.register.write_HL(1);
    step(&mut cpu);
    assert_eq!(cpu.register.A, 0x00);
    assert_eq!(cpu.cycle, 8);

    let mut cpu = cpu_with_program(&[0xD6, 0x01]);
    cpu.register.A = 1;
    step(&mut cpu);
    assert_eq!(cpu.register.A, 0x00);
    assert_eq!(cpu.cycle, 8);
}

#[test]
fn should_swap() {
    let mut cpu = cpu_with_program(&[0xCB, 0x37]);
    cpu.register.A = 0xAB;
    step(&mut cpu);
    assert_eq!(cpu.register.A, 0xBA);
    assert_eq!(cpu.cycle, 8);

    let mut cpu = cpu_with_program(&[0xCB, 0x30]);
    cpu.register.B = 0xAB;
    step(&mut cpu);
    assert_eq!(cpu.register.B, 0xBA);
    assert_eq!(cpu.cycle, 8);

    let mut cpu = cpu_with_program(&[0xCB, 0x31]);
    cpu.register.C = 0xAB;
    step(&mut cpu);
    assert_eq!(cpu.register.C, 0xBA);
    assert_eq!(cpu.cycle, 8);

    let mut cpu = cpu_with_program(&[0xCB, 0x32]);
    cpu.register.D = 0xAB;
    step(&mut cpu);
    assert_eq!(cpu.register.D, 0xBA);
    assert_eq!(cpu.cycle, 8);

    let mut cpu = cpu_with_program(&[0xCB, 0x33]);
    cpu.register.E = 0xAB;
    step(&mut cpu);
    assert_eq!(cpu.register.E, 0xBA);
    assert_eq!(cpu.cycle, 8);

    let mut cpu = cpu_with_program(&[0xCB, 0x34]);
    cpu.register.H = 0xAB;
    step(&mut cpu);
    assert_eq!(cpu.register.H, 0xBA);
    assert_eq!(cpu.cycle, 8);

    let mut cpu = cpu_with_program(&[0xCB, 0x35]);
    cpu.register.L = 0xAB;
    step(&mut cpu);
    assert_eq!(cpu.register.L, 0xBA);
    assert_eq!(cpu.cycle, 8);

    // The cell that HL points at lies in working RAM: the ROM window takes
    // no data.
    let mut cpu = cpu_with_program(&[0xCB, 0x36]);
    cpu.memory.write(0xC002, 0xAB).unwrap();
    cpu.register.write_HL(0xC002);
    step(&mut cpu);
    assert_eq!(cpu.memory.read(0xC002), Ok(0xBA));
    assert_eq!(cpu.cycle, 16);
}

#[test]
fn should_complement_register() {
    let mut cpu = cpu_with_program(&[0x2F]);
    cpu.register.A = 0x00;
    step(&mut cpu);
    assert_eq!(cpu.register.A, 0xFF);
    assert_eq!(cpu.cycle, 4);
}

#[test]
fn should_complement_carry_flag() {
    let mut cpu = cpu_with_program(&[0x3F]);
    cpu.register.F = 0b01100000;
    step(&mut cpu);
    assert_eq!(cpu.register.F, 0b00010000);
    assert_eq!(cpu.cycle, 4);

    let mut cpu = cpu_with_program(&[0x3F]);
    cpu.register.F = 0b11110000;
    step(&mut cpu);
    assert_eq!(cpu.register.F, 0b10000000);
    assert_eq!(cpu.cycle, 4);
}

#[test]
fn should_set_carry_flag() {
    let mut cpu = cpu_with_program(&[0x37]);
    cpu.register.F = 0b01100000;
    step(&mut cpu);
    assert_eq!(cpu.register.F, 0b00010000);
    assert_eq!(cpu.cycle, 4);
}

#[test]
fn should_nope() {
    let mut cpu = cpu_with_program(&[0x00]);
    step(&mut cpu);
    assert_eq!(cpu.register.A, 0x0);
    assert_eq!(cpu.cycle, 4);
}

#[test]
fn should_rotate_left() {
    let mut cpu = cpu_with_program(&[0x07]);
    cpu.register.A = 0b10010101;
    step(&mut cpu);
    assert_eq!(cpu.register.A, 0b00101010);
    assert_eq!(cpu.cycle, 4);
    assert_eq!(cpu.register.read_flag(Flags::Carry), true);
    assert_eq!(cpu.register.read_flag(Flags::Subtract), false);
    assert_eq!(cpu.register.read_flag(Flags::HalfCarry), false);

    let mut cpu = cpu_with_program(&[0x07]);
    cpu.register.A = 0b01010101;
    step(&mut cpu);
    assert_eq!(cpu.register.A, 0b10101010);
    assert_eq!(cpu.cycle, 4);
    assert_eq!(cpu.register.read_flag(Flags::Carry), false);
    assert_eq!(cpu.register.read_flag(Flags::Subtract), false);
    assert_eq!(cpu.register.read_flag(Flags::HalfCarry), false);

    let mut cpu = cpu_with_program(&[0x07]);
    cpu.register.A = 0x00;
    step(&mut cpu);
    assert_eq!(cpu.register.A, 0x00);
    assert_eq!(cpu.cycle, 4);
    assert_eq!(cpu.register.read_flag(Flags::Zero), true);
}

#[test]
fn should_rotate_left_through_carry() {
    let mut cpu = cpu_with_program(&[0x17]);
    cpu.register.A = 0b10010101;
    step(&mut cpu);
    assert_eq!(cpu.register.A, 0b00101010);
    assert_eq!(cpu.cycle, 4);
    assert_eq!(cpu.register.read_flag(Flags::Carry), true);
    assert_eq!(cpu.register.read_flag(Flags::Subtract), false);
    assert_eq!(cpu.register.read_flag(Flags::HalfCarry), false);

    let mut cpu = cpu_with_program(&[0x17]);
    cpu.register.F = 0b00010000; // carry on
    cpu.register.A = 0b01010101;
    step(&mut cpu);
    assert_eq!(cpu.register.A, 0b10101011);
    assert_eq!(cpu.cycle, 4);
    assert_eq!(cpu.register.read_flag(Flags::Carry), false);
    assert_eq!(cpu.register.read_flag(Flags::Subtract), false);
    assert_eq!(cpu.register.read_flag(Flags::HalfCarry), false);

    let mut cpu = cpu_with_program(&[0x17]);
    cpu.register.F = 0b00010000; // carry on
    cpu.register.A = 0b11010101;
    step(&mut cpu);
    assert_eq!(cpu.register.A, 0b10101011);
    assert_eq!(cpu.cycle, 4);
    assert_eq!(cpu.register.read_flag(Flags::Carry), true);
    assert_eq!(cpu.register.read_flag(Flags::Subtract), false);
    assert_eq!(cpu.register.read_flag(Flags::HalfCarry), false);
}

#[test]
fn should_rotate_right() {
    let mut cpu = cpu_with_program(&[0x0F]);
    cpu.register.A = 0b10100101;
    step(&mut cpu);
    assert_eq!(cpu.register.A, 0b01010010);
    assert_eq!(cpu.cycle, 4);
    assert_eq!(cpu.register.read_flag(Flags::Carry), true);
    assert_eq!(cpu.register.read_flag(Flags::Subtract), false);
    assert_eq!(cpu.register.read_flag(Flags::HalfCarry), false);

    let mut cpu = cpu_with_program(&[0x0F]);
    cpu.register.A = 0b10101010;
    step(&mut cpu);
    assert_eq!(cpu.register.A, 0b01010101);
    assert_eq!(cpu.cycle, 4);
    assert_eq!(cpu.register.read_flag(Flags::Carry), false);
    assert_eq!(cpu.register.read_flag(Flags::Subtract), false);
    assert_eq!(cpu.register.read_flag(Flags::HalfCarry), false);

    let mut cpu = cpu_with_program(&[0x0F]);
    cpu.register.A = 0x00;
    step(&mut cpu);
    assert_eq!(cpu.register.A, 0x00);
    assert_eq!(cpu.cycle, 4);
    assert_eq!(cpu.register.read_flag(Flags::Zero), true);
}

#[test]
fn should_rotate_right_through_carry() {
    let mut cpu = cpu_with_program(&[0x1F]);
    cpu.register.A = 0b10100101;
    step(&mut cpu);
    assert_eq!(cpu.register.A, 0b01010010);
    assert_eq!(cpu.cycle, 4);
    assert_eq!(cpu.register.read_flag(Flags::Carry), true);
    assert_eq!(cpu.register.read_flag(Flags::Subtract), false);
    assert_eq!(cpu.register.read_flag(Flags::HalfCarry), false);

    let mut cpu = cpu_with_program(&[0x1F]);
    cpu.register.F = 0b00010000; // carry on
    cpu.register.A = 0b10101010;
    step(&mut cpu);
    assert_eq!(cpu.register.A, 0b11010101);
    assert_eq!(cpu.cycle, 4);
    assert_eq!(cpu.register.read_flag(Flags::Carry), false);
    assert_eq!(cpu.register.read_flag(Flags::Subtract), false);
    assert_eq!(cpu.register.read_flag(Flags::HalfCarry), false);

    let mut cpu = cpu_with_program(&[0x1F]);
    cpu.register.F = 0b00010000; // carry on
    cpu.register.A = 0b10101011;
    step(&mut cpu);
    assert_eq!(cpu.register.A, 0b11010101);
    assert_eq!(cpu.cycle, 4);
    assert_eq!(cpu.register.read_flag(Flags::Carry), true);
    assert_eq!(cpu.register.read_flag(Flags::Subtract), false);
    assert_eq!(cpu.register.read_flag(Flags::HalfCarry), false);
}

#[test]
fn should_test_bits() {
    let args = [
        //  register, test base-op
        (Operand::A, 0x47u8),
        (Operand::B, 0x40u8),
        (Operand::C, 0x41u8),
        (Operand::D, 0x42u8),
        (Operand::E, 0x43u8),
        (Operand::H, 0x44u8),
        (Operand::L, 0x45u8),
    ];

    for iter in 0..7_u8 {
        for (operand, test_base_opcode) in &args {
            // TEST NEGATIVE BIT
            let opcode = test_base_opcode + iter * 8;

            let mut cpu = cpu_with_program(&[0xCB, opcode]);
            cpu.write(operand.clone(), 0x00 as u8).unwrap();
            step(&mut cpu);
            assert_eq!(cpu.cycle, 8);
            assert_eq!(cpu.register.read_flag(Flags::Zero), true);
            assert_eq!(cpu.register.read_flag(Flags::Subtract), false);
            assert_eq!(cpu.register.read_flag(Flags::HalfCarry), true);
            // TEST POSITIVE BIT
            let mut cpu = cpu_with_program(&[0xCB, opcode]);
            cpu.write(operand.clone(), (1 << iter) as u8).unwrap();
            step(&mut cpu);
            assert_eq!(cpu.cycle, 8);
            assert_eq!(cpu.register.read_flag(Flags::Zero), false);
            assert_eq!(cpu.register.read_flag(Flags::Subtract), false);
            assert_eq!(cpu.register.read_flag(Flags::HalfCarry), true);
        }
    }
}

#[test]
fn should_set_bits() {
    let args = [
        //  register, set base op
        (Operand::A, 0xC7u8),
        (Operand::B, 0xC0u8),
        (Operand::C, 0xC1u8),
        (Operand::D, 0xC2u8),
        (Operand::E, 0xC3u8),
        (Operand::H, 0xC4u8),
        (Operand::L, 0xC5u8),
    ];

    for iter in 0..7_u8 {
        for (operand, set_base_opcode) in &args {
            // SET NEGATIVE BIT
            let opcode = set_base_opcode + iter * 8;
            let mut cpu = cpu_with_program(&[0xCB, opcode]);
            step(&mut cpu);
            assert_eq!(cpu.cycle, 8);
            let value: u8 = cpu.read(operand.clone()).unwrap();
            assert_ne!(value & (1 << iter), 0x00);
        }
    }
}

#[test]
fn should_reset_bits() {
    let args = [
        //  register, reset base op
        (Operand::A, 0x87u8),
        (Operand::B, 0x80u8),
        (Operand::C, 0x81u8),
        (Operand::D, 0x82u8),
        (Operand::E, 0x83u8),
        (Operand::H, 0x84u8),
        (Operand::L, 0x85u8),
    ];

    for iter in 0..7_u8 {
        for (operand, reset_base_opcode) in &args {
            // SET NEGATIVE BIT
            let opcode = reset_base_opcode + iter * 8;
            let mut cpu = cpu_with_program(&[0xCB, opcode]);

            // Ensure bits are set
            cpu.register.write_AF(0xFF);
            cpu.register.write_HL(0xFF);
            cpu.register.write_DE(0xFF);
            cpu.register.write_BC(0xFF);

            step(&mut cpu);
            assert_eq!(cpu.cycle, 8);
            let value: u8 = cpu.read(operand.clone()).unwrap();
            assert_eq!(value & (1 << iter), 0x00);
        }
    }
}

#[test]
fn should_fetch_opcode() {
    let mut cpu = cpu_with_program(&[0xFF]);
    let current_cycle = cpu.cycle;
    let current_program_counter = cpu.register.PC;

    let opcode = cpu.fetch().unwrap();

    assert_eq!(opcode, 0xFF);
    assert_eq!(cpu.cycle, current_cycle + 4);
    assert_eq!(cpu.register.PC, current_program_counter + 1);
}

#[test]
fn should_decode_simple_instruction() {
    let mut cpu = cpu_with_program(&[0xFF]);

    let instruction = cpu.decode(0x06).unwrap();
    assert_eq!(instruction, Instruction::LD8(Operand::B, Operand::Word));
}

#[test]
fn should_decode_complex_instruction() {
    let mut cpu = cpu_with_program(&[0x37]);

    let instruction = cpu.decode(0xCB).unwrap();
    assert_eq!(instruction, Instruction::SWAP(Operand::A));
}
