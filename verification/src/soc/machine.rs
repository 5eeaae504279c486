//! The processor as a mathematical machine: its state, and what every
//! access and every instruction makes of a state.

use vstd::prelude::*;
use crate::error::{Error, Failure};
use crate::cartridge::cartridge::Controller;
use crate::memory::{region_of, MemoryModel, Region};
use crate::soc::alu::{accumulated, bit_is_clear, shifted, shifted_out, with_bit, AluOp, BitOp, ShiftOp};
use crate::soc::instruction::{decode_extended_spec, decode_spec, Instruction, Operand};
use crate::soc::register::{difference16, difference8, sum16, sum8, Flags, Registers};
use crate::utils::{high_byte, low_byte, pack};

verus! {

/// The first address of the high RAM that the processor holds itself.
pub const HIGH_RAM_START: u16 = 0xFF80;

/// The last address of the high RAM.
pub const HIGH_RAM_END: u16 = 0xFFFE;

/// The address of the interrupt register.
pub const INTERRUPT_REGISTER: u16 = 0xFFFF;

/// The value `v` as an address: taken modulo 65536.
pub open spec fn wrap16(v: int) -> u16 {
    (v % 65536) as u16
}

/// The state of the processor and of everything it owns.
#[verifier::ext_equal]
pub struct CpuModel {
    pub register: Registers,
    pub memory: MemoryModel,
    pub cycle: u32,
    pub halted: bool,
    pub stopped: bool,
    pub interrupts_enabled: bool,
    pub high_ram: Seq<u8>,
}

/// Whether the processor goes on executing.
#[derive(Clone, Copy, Debug, PartialEq, Eq, Structural)]
pub enum RunState {
    Running,
    Halted,
    Stopped,
}

/// A state together with what the operation that led to it returned.
pub type Outcome<T> = (CpuModel, Result<T, Error>);

impl CpuModel {
    /// The state after a reset: running, every register zero (so the
    /// program counter and the stack pointer are 0x0000), no cycle spent,
    /// interrupts enabled, high RAM zeroed.
    pub open spec fn fresh(memory: MemoryModel) -> CpuModel {
        CpuModel {
            register: Registers::reset_state(),
            memory,
            cycle: 0,
            halted: false,
            stopped: false,
            interrupts_enabled: true,
            high_ram: Seq::new(127, |i: int| 0u8),
        }
    }

    /// The memories have their fixed sizes.
    pub open spec fn valid(self) -> bool {
        self.memory.valid() && self.high_ram.len() == 127
    }

    /// The run state: halted once HALT was executed, else stopped once
    /// STOP was executed, else running.
    pub open spec fn state(self) -> RunState {
        if self.halted {
            RunState::Halted
        } else if self.stopped {
            RunState::Stopped
        } else {
            RunState::Running
        }
    }

    /// The state with `cycles` more cycles spent. The counter wraps at
    /// 2^32.
    pub open spec fn tick(self, cycles: u32) -> CpuModel {
        CpuModel { cycle: ((self.cycle + cycles) % 0x1_0000_0000) as u32, ..self }
    }

    /// The state with another register file.
    pub open spec fn with_register(self, register: Registers) -> CpuModel {
        CpuModel { register, ..self }
    }

    /// The state with another program counter.
    pub open spec fn with_pc(self, pc: u16) -> CpuModel {
        self.with_register(Registers { PC: pc, ..self.register })
    }

    /// The state with another stack pointer.
    pub open spec fn with_sp(self, sp: u16) -> CpuModel {
        self.with_register(Registers { SP: sp, ..self.register })
    }

    /// Reading the memory cell at an address. High RAM and the interrupt
    /// register are the processor's own and cost no cycle; every other
    /// address costs four cycles and is the address space's to answer.
    pub open spec fn load(self, address: u16) -> Outcome<u8> {
        if HIGH_RAM_START <= address <= HIGH_RAM_END {
            (self, Ok(self.high_ram[address - HIGH_RAM_START]))
        } else if address == INTERRUPT_REGISTER {
            (self, Ok(self.register.IR))
        } else {
            (self.tick(4), self.memory.read(address))
        }
    }

    /// Writing the memory cell at an address, with the same division as
    /// for reading.
    pub open spec fn store(self, address: u16, data: u8) -> Outcome<()> {
        if HIGH_RAM_START <= address <= HIGH_RAM_END {
            (
                CpuModel { high_ram: self.high_ram.update(address - HIGH_RAM_START, data), ..self },
                Ok(()),
            )
        } else if address == INTERRUPT_REGISTER {
            (self.with_register(Registers { IR: data, ..self.register }), Ok(()))
        } else {
            (
                CpuModel { memory: self.memory.write(address, data).0, ..self.tick(4) },
                self.memory.write(address, data).1,
            )
        }
    }

    /// Taking the next byte of the instruction stream: the byte that the
    /// address space holds at the program counter. It costs four cycles and
    /// moves the program counter on by one. Where the address space
    /// refuses the address, nothing changes.
    pub open spec fn next_byte(self) -> Outcome<u8> {
        match self.memory.read(self.register.PC) {
            Ok(byte) => (self.with_pc(wrap16(self.register.PC + 1)).tick(4), Ok(byte)),
            Err(error) => (self, Err(error)),
        }
    }

    /// Reading an 8-bit operand that is not a memory cell: a register or
    /// the next byte of the instruction stream.
    pub open spec fn read8_direct(self, operand: Operand) -> Outcome<u8> {
        match operand {
            Operand::A => (self, Ok(self.register.A)),
            Operand::B => (self, Ok(self.register.B)),
            Operand::C => (self, Ok(self.register.C)),
            Operand::D => (self, Ok(self.register.D)),
            Operand::E => (self, Ok(self.register.E)),
            Operand::F => (self, Ok(self.register.F)),
            Operand::H => (self, Ok(self.register.H)),
            Operand::L => (self, Ok(self.register.L)),
            Operand::Word => self.next_byte(),
            _ => (self, Err(Error::InvalidOperand(operand))),
        }
    }

    /// Reading a 16-bit operand: a register pair, SP or PC; an 8-bit
    /// register or immediate, widened; or the next two bytes of the
    /// instruction stream, high byte first.
    pub open spec fn read16(self, operand: Operand) -> Outcome<u16> {
        match operand {
            Operand::HL => (self, Ok(self.register.hl())),
            Operand::AF => (self, Ok(self.register.af())),
            Operand::BC => (self, Ok(self.register.bc())),
            Operand::DE => (self, Ok(self.register.de())),
            Operand::SP => (self, Ok(self.register.SP)),
            Operand::PC => (self, Ok(self.register.PC)),
            Operand::DWord => match self.next_byte() {
                (after_high, Ok(high)) => match after_high.next_byte() {
                    (after_low, Ok(low)) => (after_low, Ok(pack(high, low))),
                    (after_low, Err(error)) => (after_low, Err(error)),
                },
                (after_high, Err(error)) => (after_high, Err(error)),
            },
            Operand::Memory(_, _) | Operand::Zero | Operand::NoZero | Operand::Carry
            | Operand::NoCarry => (self, Err(Error::InvalidOperand(operand))),
            _ => match self.read8_direct(operand) {
                (after, Ok(byte)) => (after, Ok(byte as u16)),
                (after, Err(error)) => (after, Err(error)),
            },
        }
    }

    /// Reading an 8-bit operand. The address of a memory cell is the value
    /// of its base operand plus its offset, modulo 65536.
    pub open spec fn read8(self, operand: Operand) -> Outcome<u8> {
        match operand {
            Operand::Memory(base, offset) => match self.read16(*base) {
                (after, Ok(address)) => after.load(wrap16(address + offset)),
                (after, Err(error)) => (after, Err(error)),
            },
            _ => self.read8_direct(operand),
        }
    }

    /// Writing an 8-bit operand: a register or a memory cell.
    pub open spec fn write8(self, operand: Operand, data: u8) -> Outcome<()> {
        match operand {
            Operand::A => (self.with_register(Registers { A: data, ..self.register }), Ok(())),
            Operand::B => (self.with_register(Registers { B: data, ..self.register }), Ok(())),
            Operand::C => (self.with_register(Registers { C: data, ..self.register }), Ok(())),
            Operand::D => (self.with_register(Registers { D: data, ..self.register }), Ok(())),
            Operand::E => (self.with_register(Registers { E: data, ..self.register }), Ok(())),
            Operand::F => (self.with_register(Registers { F: data, ..self.register }), Ok(())),
            Operand::H => (self.with_register(Registers { H: data, ..self.register }), Ok(())),
            Operand::L => (self.with_register(Registers { L: data, ..self.register }), Ok(())),
            Operand::Memory(base, offset) => match self.read16(*base) {
                (after, Ok(address)) => after.store(wrap16(address + offset), data),
                (after, Err(error)) => (after, Err(error)),
            },
            _ => (self, Err(Error::InvalidOperand(operand))),
        }
    }

    /// Writing a 16-bit operand: a register pair, SP or PC.
    pub open spec fn write16(self, operand: Operand, data: u16) -> Outcome<()> {
        match operand {
            Operand::HL => (self.with_register(self.register.with_hl(data)), Ok(())),
            Operand::AF => (self.with_register(self.register.with_af(data)), Ok(())),
            Operand::BC => (self.with_register(self.register.with_bc(data)), Ok(())),
            Operand::DE => (self.with_register(self.register.with_de(data)), Ok(())),
            Operand::SP => (self.with_sp(data), Ok(())),
            Operand::PC => (self.with_pc(data), Ok(())),
            _ => (self, Err(Error::InvalidOperand(operand))),
        }
    }

    /// Pushing a byte: the stack pointer goes down by one, then the byte is
    /// stored where it points.
    pub open spec fn push8(self, data: u8) -> Outcome<()> {
        self.with_sp(wrap16(self.register.SP - 1)).store(wrap16(self.register.SP - 1), data)
    }

    /// Popping a byte: the byte where the stack pointer points is read,
    /// then the stack pointer goes up by one.
    pub open spec fn pop8(self) -> Outcome<u8> {
        match self.load(self.register.SP) {
            (after, Ok(byte)) => (after.with_sp(wrap16(after.register.SP + 1)), Ok(byte)),
            (after, Err(error)) => (after, Err(error)),
        }
    }

    /// Pushing a 16-bit value: the high byte, then the low byte.
    pub open spec fn push16(self, data: u16) -> Outcome<()> {
        match self.push8(high_byte(data)) {
            (after, Ok(_)) => after.push8(low_byte(data)),
            (after, Err(error)) => (after, Err(error)),
        }
    }

    /// Popping a 16-bit value: the low byte, then the high byte.
    pub open spec fn pop16(self) -> Outcome<u16> {
        match self.pop8() {
            (after_low, Ok(low)) => match after_low.pop8() {
                (after_high, Ok(high)) => (after_high, Ok(pack(high, low))),
                (after_high, Err(error)) => (after_high, Err(error)),
            },
            (after_low, Err(error)) => (after_low, Err(error)),
        }
    }

    /// Whether a branch on the condition is taken: Zero and Carry ask for
    /// the flag to be set, NoZero and NoCarry for it to be clear. Any other
    /// operand is `InvalidOperand`.
    pub open spec fn jump_allowed(self, condition: Operand) -> Result<bool, Error> {
        match condition {
            Operand::Zero => Ok(self.register.flag(Flags::Zero)),
            Operand::NoZero => Ok(!self.register.flag(Flags::Zero)),
            Operand::Carry => Ok(self.register.flag(Flags::Carry)),
            Operand::NoCarry => Ok(!self.register.flag(Flags::Carry)),
            _ => Err(Error::InvalidOperand(condition)),
        }
    }

    /// The state after control went to an address: eight cycles spent.
    pub open spec fn jump(self, address: u16) -> CpuModel {
        self.with_pc(address).tick(8)
    }
}

impl CpuModel {
    /// Copying an 8-bit operand: the source is read first.
    pub open spec fn move8(self, target: Operand, source: Operand) -> Outcome<()> {
        match self.read8(source) {
            (after, Ok(data)) => after.write8(target, data),
            (after, Err(error)) => (after, Err(error)),
        }
    }

    /// Copying a 16-bit operand: the source is read first.
    pub open spec fn move16(self, target: Operand, source: Operand) -> Outcome<()> {
        match self.read16(source) {
            (after, Ok(data)) => after.write16(target, data),
            (after, Err(error)) => (after, Err(error)),
        }
    }

    /// Adding one to an 8-bit operand, or subtracting one from it, with the
    /// flags of the flag-setting helpers. The flags are set before the
    /// result is written back.
    pub open spec fn adjust8(self, operand: Operand, up: bool) -> Outcome<()> {
        match self.read8(operand) {
            (after, Ok(n)) => if up {
                after.with_register(after.register.after_add8(n, 1)).write8(operand, sum8(n, 1))
            } else {
                after.with_register(after.register.after_sub8(n, 1)).write8(
                    operand,
                    difference8(n, 1),
                )
            },
            (after, Err(error)) => (after, Err(error)),
        }
    }

    /// Adding one to a 16-bit operand, or subtracting one from it, with the
    /// flags of the flag-setting helpers.
    pub open spec fn adjust16(self, operand: Operand, up: bool) -> Outcome<()> {
        match self.read16(operand) {
            (after, Ok(n)) => if up {
                after.with_register(after.register.after_add16(n, 1)).write16(operand, sum16(n, 1))
            } else {
                after.with_register(after.register.after_sub16(n, 1)).write16(
                    operand,
                    difference16(n, 1),
                )
            },
            (after, Err(error)) => (after, Err(error)),
        }
    }

    /// An accumulator operation with an operand.
    pub open spec fn accumulate(self, source: Operand, op: AluOp) -> Outcome<()> {
        match self.read8(source) {
            (after, Ok(n)) => (after.with_register(accumulated(after.register, op, n)), Ok(())),
            (after, Err(error)) => (after, Err(error)),
        }
    }

    /// A 16-bit addition: both operands are read, target first, the flags
    /// are set, and the sum is written to the target.
    pub open spec fn add16(self, target: Operand, source: Operand) -> Outcome<()> {
        match self.read16(target) {
            (after_x, Ok(x)) => match after_x.read16(source) {
                (after_y, Ok(y)) => after_y.with_register(
                    after_y.register.after_add16(x, y),
                ).write16(target, sum16(x, y)),
                (after_y, Err(error)) => (after_y, Err(error)),
            },
            (after_x, Err(error)) => (after_x, Err(error)),
        }
    }

    /// A shift, rotate or swap of an operand. The result is written back;
    /// then Zero is set iff the result is zero, Carry iff a set bit left
    /// the value, and Subtract and HalfCarry are cleared.
    pub open spec fn shift(self, target: Operand, op: ShiftOp) -> Outcome<()> {
        match self.read8(target) {
            (after, Ok(value)) => {
                let result = shifted(op, value, after.register.flag(Flags::Carry));
                match after.write8(target, result) {
                    (written, Ok(_)) => (
                        written.with_register(
                            written.register.with_flags(
                                result == 0,
                                false,
                                false,
                                shifted_out(op, value),
                            ),
                        ),
                        Ok(()),
                    ),
                    (written, Err(error)) => (written, Err(error)),
                }
            },
            (after, Err(error)) => (after, Err(error)),
        }
    }

    /// An operation on one bit of an operand. A bit index above 7 is
    /// `InvalidOperand`. BIT sets Zero iff the bit is clear, sets HalfCarry,
    /// clears Subtract and writes nothing; SET and RES write the operand
    /// back and touch no flag.
    pub open spec fn bit(self, op: BitOp, bit: u8, target: Operand) -> Outcome<()> {
        if bit >= 8 {
            (self, Err(Error::InvalidOperand(target)))
        } else {
            match self.read8(target) {
                (after, Ok(value)) => if op == BitOp::Test {
                    (
                        after.with_register(
                            after.register.with_flags(
                                bit_is_clear(bit, value),
                                false,
                                true,
                                after.register.flag(Flags::Carry),
                            ),
                        ),
                        Ok(()),
                    )
                } else {
                    after.write8(target, with_bit(op, bit, value))
                },
                (after, Err(error)) => (after, Err(error)),
            }
        }
    }

    /// What a conditional instruction does: `taken` where the condition
    /// holds, nothing where it does not, and `InvalidOperand` where the
    /// operand is no condition.
    pub open spec fn conditional(self, condition: Operand, taken: Outcome<()>) -> Outcome<()> {
        match self.jump_allowed(condition) {
            Ok(allowed) => if allowed {
                taken
            } else {
                (self, Ok(()))
            },
            Err(error) => (self, Err(error)),
        }
    }

    /// An absolute jump: the program counter becomes the value of the
    /// operand.
    pub open spec fn jp(self, target: Operand) -> Outcome<()> {
        match self.read16(target) {
            (after, Ok(address)) => (after.with_pc(address), Ok(())),
            (after, Err(error)) => (after, Err(error)),
        }
    }

    /// A relative jump: the value of the operand, unsigned, is added to the
    /// program counter.
    pub open spec fn jr(self, offset: Operand) -> Outcome<()> {
        match self.read8(offset) {
            (after, Ok(distance)) => (
                after.with_pc(wrap16(after.register.PC + distance)),
                Ok(()),
            ),
            (after, Err(error)) => (after, Err(error)),
        }
    }

    /// A call: the target is read, the program counter, which then points
    /// behind the instruction, is pushed, and control goes to the target.
    pub open spec fn call(self, target: Operand) -> Outcome<()> {
        match self.read16(target) {
            (after, Ok(address)) => match after.push16(after.register.PC) {
                (pushed, Ok(_)) => (pushed.jump(address), Ok(())),
                (pushed, Err(error)) => (pushed, Err(error)),
            },
            (after, Err(error)) => (after, Err(error)),
        }
    }

    /// A restart: the program counter is pushed and control goes to the
    /// vector, at a cost of twenty cycles beyond the push and the jump.
    pub open spec fn rst(self, vector: u16) -> Outcome<()> {
        match self.push16(self.register.PC) {
            (pushed, Ok(_)) => (pushed.jump(vector).tick(20), Ok(())),
            (pushed, Err(error)) => (pushed, Err(error)),
        }
    }

    /// A return: the address is popped and control goes there.
    pub open spec fn ret(self) -> Outcome<()> {
        match self.pop16() {
            (after, Ok(address)) => (after.jump(address), Ok(())),
            (after, Err(error)) => (after, Err(error)),
        }
    }

    /// An 8-bit copy followed by a step of HL, up or down, with the flags
    /// of the step.
    pub open spec fn move8_and_step(self, target: Operand, source: Operand, up: bool) -> Outcome<
        (),
    > {
        match self.move8(target, source) {
            (after, Ok(_)) => after.adjust16(Operand::HL, up),
            (after, Err(error)) => (after, Err(error)),
        }
    }

    /// HL becomes the stack pointer plus the value of the operand,
    /// unsigned. No flag changes.
    pub open spec fn load_hl_from_sp(self, source: Operand) -> Outcome<()> {
        match self.read8(source) {
            (after, Ok(offset)) => after.write16(Operand::HL, wrap16(after.register.SP + offset)),
            (after, Err(error)) => (after, Err(error)),
        }
    }

    /// Pushing the value of a 16-bit operand.
    pub open spec fn push_operand(self, source: Operand) -> Outcome<()> {
        match self.read16(source) {
            (after, Ok(data)) => after.push16(data),
            (after, Err(error)) => (after, Err(error)),
        }
    }

    /// Popping a value into a 16-bit operand.
    pub open spec fn pop_operand(self, target: Operand) -> Outcome<()> {
        match self.pop16() {
            (after, Ok(data)) => after.write16(target, data),
            (after, Err(error)) => (after, Err(error)),
        }
    }

    /// The instructions that load and store.
    pub open spec fn execute_load(self, instruction: Instruction) -> Outcome<()> {
        match instruction {
            Instruction::LD8(target, source) => self.move8(target, source),
            Instruction::LDH(target, source) => self.move8(target, source),
            Instruction::LD16(target, source) => self.move16(target, source),
            Instruction::LDD(target, source) => self.move8_and_step(target, source, false),
            Instruction::LDI(target, source) => self.move8_and_step(target, source, true),
            Instruction::LDHL(_, source) => self.load_hl_from_sp(source),
            Instruction::PUSH(source) => self.push_operand(source),
            Instruction::POP(target) => self.pop_operand(target),
            _ => (self, Ok(())),
        }
    }

    /// The instructions that compute.
    pub open spec fn execute_arithmetic(self, instruction: Instruction) -> Outcome<()> {
        match instruction {
            Instruction::ADD8(_, source) => self.accumulate(source, AluOp::Add),
            Instruction::ADC(_, source) => self.accumulate(source, AluOp::Adc),
            Instruction::SUB(source) => self.accumulate(source, AluOp::Sub),
            Instruction::SBC(_, source) => self.accumulate(source, AluOp::Sbc),
            Instruction::AND(source) => self.accumulate(source, AluOp::And),
            Instruction::OR(source) => self.accumulate(source, AluOp::Or),
            Instruction::XOR(source) => self.accumulate(source, AluOp::Xor),
            Instruction::CP(source) => self.accumulate(source, AluOp::Cp),
            Instruction::ADD16(target, source) => self.add16(target, source),
            Instruction::INC8(operand) => self.adjust8(operand, true),
            Instruction::DEC8(operand) => self.adjust8(operand, false),
            Instruction::INC16(operand) => self.adjust16(operand, true),
            Instruction::DEC16(operand) => self.adjust16(operand, false),
            Instruction::CPL => (
                self.with_register(
                    Registers { A: (255 - self.register.A) as u8, ..self.register }.with_flags(
                        self.register.flag(Flags::Zero),
                        false,
                        false,
                        self.register.flag(Flags::Carry),
                    ),
                ),
                Ok(()),
            ),
            Instruction::CCF => (
                self.with_register(
                    self.register.with_flags(
                        self.register.flag(Flags::Zero),
                        false,
                        false,
                        !self.register.flag(Flags::Carry),
                    ),
                ),
                Ok(()),
            ),
            Instruction::SCF => (
                self.with_register(
                    self.register.with_flags(self.register.flag(Flags::Zero), false, false, true),
                ),
                Ok(()),
            ),
            _ => (self, Ok(())),
        }
    }

    /// The instructions that shift, rotate, swap, or work on one bit.
    pub open spec fn execute_bits(self, instruction: Instruction) -> Outcome<()> {
        match instruction {
            Instruction::SWAP(target) => self.shift(target, ShiftOp::Swap),
            Instruction::RLCA => self.shift(Operand::A, ShiftOp::Rlc),
            Instruction::RLA => self.shift(Operand::A, ShiftOp::Rl),
            Instruction::RRCA => self.shift(Operand::A, ShiftOp::Rrc),
            Instruction::RRA => self.shift(Operand::A, ShiftOp::Rr),
            Instruction::RLC(target) => self.shift(target, ShiftOp::Rlc),
            Instruction::RL(target) => self.shift(target, ShiftOp::Rl),
            Instruction::RRC(target) => self.shift(target, ShiftOp::Rrc),
            Instruction::RR(target) => self.shift(target, ShiftOp::Rr),
            Instruction::SLA(target) => self.shift(target, ShiftOp::Sla),
            Instruction::SRA(target) => self.shift(target, ShiftOp::Sra),
            Instruction::SRL(target) => self.shift(target, ShiftOp::Srl),
            Instruction::BIT(bit, target) => self.bit(BitOp::Test, bit, target),
            Instruction::SET(bit, target) => self.bit(BitOp::Raise, bit, target),
            Instruction::RES(bit, target) => self.bit(BitOp::Clear, bit, target),
            _ => (self, Ok(())),
        }
    }

    /// The instructions that transfer control or change the run state.
    pub open spec fn execute_control(self, instruction: Instruction) -> Outcome<()> {
        match instruction {
            Instruction::JP1(target) => self.jp(target),
            Instruction::JP(condition, target) => self.conditional(condition, self.jp(target)),
            Instruction::JR1(offset) => self.jr(offset),
            Instruction::JR(condition, offset) => self.conditional(condition, self.jr(offset)),
            Instruction::CALL1(target) => self.call(target),
            Instruction::CALL(condition, target) => self.conditional(condition, self.call(target)),
            Instruction::RST(vector) => self.rst(vector),
            Instruction::RET_ => self.ret(),
            Instruction::RET(condition) => self.conditional(condition, self.ret()),
            Instruction::RETI => match self.ret() {
                (after, Ok(_)) => (CpuModel { interrupts_enabled: true, ..after }, Ok(())),
                (after, Err(error)) => (after, Err(error)),
            },
            Instruction::HALT => (CpuModel { halted: true, ..self }, Ok(())),
            Instruction::STOP => (CpuModel { stopped: true, ..self }, Ok(())),
            Instruction::DI => (CpuModel { interrupts_enabled: false, ..self }, Ok(())),
            Instruction::EI => (CpuModel { interrupts_enabled: true, ..self }, Ok(())),
            _ => (self, Ok(())),
        }
    }

    /// The family of an instruction: 0 for loads and stores, 1 for
    /// arithmetic, 2 for shifts and bit operations, 3 for control.
    pub open spec fn family(instruction: Instruction) -> int {
        match instruction {
            Instruction::LD8(_, _)
            | Instruction::LDH(_, _)
            | Instruction::LD16(_, _)
            | Instruction::LDD(_, _)
            | Instruction::LDI(_, _)
            | Instruction::LDHL(_, _)
            | Instruction::PUSH(_)
            | Instruction::POP(_) => 0,
            Instruction::ADD8(_, _)
            | Instruction::ADC(_, _)
            | Instruction::SUB(_)
            | Instruction::SBC(_, _)
            | Instruction::AND(_)
            | Instruction::OR(_)
            | Instruction::XOR(_)
            | Instruction::CP(_)
            | Instruction::ADD16(_, _)
            | Instruction::INC8(_)
            | Instruction::DEC8(_)
            | Instruction::INC16(_)
            | Instruction::DEC16(_)
            | Instruction::DAA
            | Instruction::CPL
            | Instruction::CCF
            | Instruction::SCF => 1,
            Instruction::SWAP(_)
            | Instruction::RLCA
            | Instruction::RLA
            | Instruction::RRCA
            | Instruction::RRA
            | Instruction::RLC(_)
            | Instruction::RL(_)
            | Instruction::RRC(_)
            | Instruction::RR(_)
            | Instruction::SLA(_)
            | Instruction::SRA(_)
            | Instruction::SRL(_)
            | Instruction::BIT(_, _)
            | Instruction::SET(_, _)
            | Instruction::RES(_, _) => 2,
            _ => 3,
        }
    }

    /// What an instruction makes of a state. NOP and DAA change nothing.
    /// An instruction that fails leaves the state as it was when the
    /// failure was met.
    pub open spec fn execute(self, instruction: Instruction) -> Outcome<()> {
        if Self::family(instruction) == 0 {
            self.execute_load(instruction)
        } else if Self::family(instruction) == 1 {
            self.execute_arithmetic(instruction)
        } else if Self::family(instruction) == 2 {
            self.execute_bits(instruction)
        } else {
            self.execute_control(instruction)
        }
    }

    /// Decoding an opcode that was fetched. The prefix 0xCB takes one more
    /// byte from the instruction stream and goes by the extended table.
    pub open spec fn decode(self, opcode: u8) -> Outcome<Instruction> {
        if opcode == 0xCB {
            match self.next_byte() {
                (after, Ok(next)) => (after, Ok(decode_extended_spec(pack(opcode, next)))),
                (after, Err(error)) => (after, Err(error)),
            }
        } else {
            (self, Ok(decode_spec(opcode)))
        }
    }

    /// One instruction: fetched, decoded and executed. A failure is
    /// reported with the address that the instruction was fetched from and
    /// with its opcode, if the fetch got that far.
    pub open spec fn step(self) -> (CpuModel, Result<(), Failure>) {
        let address = self.register.PC;
        match self.next_byte() {
            (fetched, Ok(opcode)) => match fetched.decode(opcode) {
                (decoded, Ok(instruction)) => match decoded.execute(instruction) {
                    (executed, Ok(_)) => (executed, Ok(())),
                    (executed, Err(error)) => (
                        executed,
                        Err(Failure { error, address, opcode: Some(opcode) }),
                    ),
                },
                (decoded, Err(error)) => (
                    decoded,
                    Err(Failure { error, address, opcode: Some(opcode) }),
                ),
            },
            (fetched, Err(error)) => (fetched, Err(Failure { error, address, opcode: None })),
        }
    }

    /// A run of at most `limit` instructions: it ends with the first
    /// instruction that fails or after which the processor is halted.
    pub open spec fn run(self, limit: nat) -> (CpuModel, Result<(), Failure>)
        decreases limit,
    {
        if limit == 0 {
            (self, Ok(()))
        } else {
            match self.step() {
                (after, Ok(_)) => if after.halted {
                    (after, Ok(()))
                } else {
                    after.run((limit - 1) as nat)
                },
                (after, Err(failure)) => (after, Err(failure)),
            }
        }
    }
}

/// A 16-bit register operand that was written reads back as the value
/// written, at no cost and without a failure. For AF this holds of the
/// values whose lower nibble is clear; of any value, AF reads back as the
/// value with its lower nibble cleared.
pub proof fn lemma_write_read16(machine: CpuModel, operand: Operand, value: u16)
    requires
        operand == Operand::HL || operand == Operand::BC || operand == Operand::DE || operand
            == Operand::SP || operand == Operand::PC || operand == Operand::AF,
    ensures
        machine.write16(operand, value).1 is Ok,
        operand != Operand::AF || value % 16 == 0 ==> machine.write16(operand, value).0.read16(
            operand,
        ) == (machine.write16(operand, value).0, Ok::<u16, Error>(value)),
        operand == Operand::AF ==> machine.write16(operand, value).0.read16(operand).1 == Ok::<
            u16,
            Error,
        >((value - value % 16) as u16),
{
}

/// Whether a byte stored at the address stays there as it was stored. That
/// is so above the ROM window, whose writes select banks; but the RAM built
/// into an MBC2 keeps only the low nibble of a byte.
pub open spec fn keeps(machine: CpuModel, address: u16, data: u8) -> bool {
    &&& address >= 0x8000
    &&& (machine.memory.cartridge.controller == Controller::Mbc2 && region_of(address)
        == Region::CartridgeRam) ==> data < 16
}

/// A byte that was stored in a cell that keeps it is what a load of the
/// cell gives, and the neighbouring cell below is as it was.
pub proof fn lemma_store_load(machine: CpuModel, address: u16, data: u8)
    requires
        machine.valid(),
        machine.store(address, data).1 is Ok,
        keeps(machine, address, data),
    ensures
        machine.store(address, data).0.valid(),
        machine.store(address, data).0.load(address).1 == Ok::<u8, Error>(data),
        machine.store(address, data).0.register.SP == machine.register.SP,
        machine.store(address, data).0.memory.cartridge.controller
            == machine.memory.cartridge.controller,
        machine.store(address, data).0.load(wrap16(address + 1)).1 == machine.load(
            wrap16(address + 1),
        ).1,
{
    let after = machine.store(address, data).0;
    let above = wrap16(address + 1);
    if region_of(address) == Region::CartridgeRam {
        let cartridge = machine.memory.cartridge;
        assert(cartridge.ram_reachable(address));
        assert(after.memory.cartridge == cartridge.with_ram_cell(address, data));
        if region_of(above) == Region::CartridgeRam {
            assert(cartridge.ram_offset(above) != cartridge.ram_offset(address));
        }
    }
}

/// Pushing a 16-bit value and popping it again gives the value back and
/// leaves the stack pointer where it was, wherever the push succeeds and
/// the two cells under the stack pointer keep what is stored in them.
pub proof fn lemma_push_pop(machine: CpuModel, value: u16)
    requires
        machine.valid(),
        machine.push16(value).1 is Ok,
        keeps(machine, wrap16(machine.register.SP - 1), high_byte(value)),
        keeps(machine, wrap16(machine.register.SP - 2), low_byte(value)),
    ensures
        machine.push16(value).0.pop16().1 == Ok::<u16, Error>(value),
        machine.push16(value).0.pop16().0.register.SP == machine.register.SP,
{
    let sp = machine.register.SP;
    let upper = wrap16(sp - 1);
    let lower = wrap16(sp - 2);
    let lowered = machine.with_sp(upper);
    let first = lowered.store(upper, high_byte(value)).0;
    lemma_store_load(lowered, upper, high_byte(value));
    let lowered_again = first.with_sp(lower);
    assert(wrap16(upper - 1) == lower && wrap16(lower + 1) == upper && wrap16(upper + 1) == sp);
    lemma_store_load(lowered_again, lower, low_byte(value));
    let second = lowered_again.store(lower, low_byte(value)).0;
    assert(machine.push16(value).0 == second);
    assert(second.pop8().0.load(upper).1 == second.load(upper).1);
    assert(lowered_again.load(upper).1 == first.load(upper).1);
}

} // verus!
