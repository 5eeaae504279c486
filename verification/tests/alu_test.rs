use rustboy::soc::alu::{accumulate, shift, AluOp, ShiftOp};
use rustboy::soc::register::{Flags, Registers};
use rustboy::utils::{as_u16, hilo};

fn flags(register: &Registers) -> (bool, bool, bool, bool) {
    (
        register.read_flag(Flags::Zero),
        register.read_flag(Flags::Subtract),
        register.read_flag(Flags::HalfCarry),
        register.read_flag(Flags::Carry),
    )
}

#[test]
fn bytes_are_packed_high_byte_first() {
    assert_eq!(as_u16(0x12, 0x34), 0x1234);
    assert_eq!(as_u16(0x00, 0xFF), 0x00FF);
    assert_eq!(as_u16(0xFF, 0x00), 0xFF00);
    assert_eq!(hilo(0x1234), (0x12, 0x34));
    assert_eq!(hilo(0x00FF), (0x00, 0xFF));
    for value in [0u16, 1, 0x00FF, 0x0100, 0x8000, 0xFFFF] {
        let (hi, lo) = hilo(value);
        assert_eq!(as_u16(hi, lo), value);
    }
}

#[test]
fn shifts_on_values() {
    assert_eq!(shift(ShiftOp::Rlc, 0b1001_0101, false), (0b0010_1010, true));
    assert_eq!(shift(ShiftOp::Rlc, 0b1001_0101, true), (0b0010_1010, true));
    assert_eq!(shift(ShiftOp::Rl, 0b0101_0101, true), (0b1010_1011, false));
    assert_eq!(shift(ShiftOp::Rl, 0b0101_0101, false), (0b1010_1010, false));
    assert_eq!(shift(ShiftOp::Rrc, 0b1010_0101, true), (0b0101_0010, true));
    assert_eq!(shift(ShiftOp::Rr, 0b1010_1010, true), (0b1101_0101, false));
    assert_eq!(shift(ShiftOp::Rr, 0b1010_1011, false), (0b0101_0101, true));
    assert_eq!(shift(ShiftOp::Sla, 0b1100_0001, true), (0b1000_0010, true));
    assert_eq!(shift(ShiftOp::Sra, 0b1000_0001, false), (0b1100_0000, true));
    assert_eq!(shift(ShiftOp::Sra, 0b0100_0010, false), (0b0010_0001, false));
    assert_eq!(shift(ShiftOp::Srl, 0b1000_0001, true), (0b0100_0000, true));
    assert_eq!(shift(ShiftOp::Swap, 0xAB, true), (0xBA, false));
    assert_eq!(shift(ShiftOp::Swap, 0x0F, false), (0xF0, false));
}

#[test]
fn accumulator_operations_on_registers() {
    let mut register = Registers::default();
    register.A = 0x3C;
    accumulate(&mut register, AluOp::Add, 0x12);
    assert_eq!(register.A, 0x4E);
    assert_eq!(flags(&register), (false, false, false, false));

    accumulate(&mut register, AluOp::Sub, 0x4E);
    assert_eq!(register.A, 0x00);
    assert_eq!(flags(&register), (true, true, true, true));

    // The carry that the subtraction left goes into the addition.
    accumulate(&mut register, AluOp::Adc, 0xFF);
    assert_eq!(register.A, 0x00);
    assert_eq!(flags(&register), (true, false, false, false));

    register.A = 0x10;
    register.set_flag(Flags::Carry);
    accumulate(&mut register, AluOp::Sbc, 0x0F);
    assert_eq!(register.A, 0x00);
    assert_eq!(flags(&register), (true, true, true, true));

    register.A = 0xF0;
    accumulate(&mut register, AluOp::And, 0x0F);
    assert_eq!(register.A, 0x00);
    assert_eq!(flags(&register), (true, false, true, false));

    accumulate(&mut register, AluOp::Or, 0x81);
    assert_eq!(register.A, 0x81);
    assert_eq!(flags(&register), (false, false, false, false));

    accumulate(&mut register, AluOp::Xor, 0x80);
    assert_eq!(register.A, 0x01);
    assert_eq!(flags(&register), (false, false, false, false));

    accumulate(&mut register, AluOp::Cp, 0x02);
    assert_eq!(register.A, 0x01);
    // A borrow in both places: neither Carry nor HalfCarry.
    assert_eq!(flags(&register), (false, true, false, false));
}
