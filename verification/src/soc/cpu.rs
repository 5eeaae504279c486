//! The processor: fetch, decode, execute.

use vstd::prelude::*;
use crate::error::{Error, Failure};
use crate::memory::MemorySpace;
use crate::soc::alu::{accumulate, shift, AluOp, BitOp, ShiftOp};
use crate::soc::instruction::{Instruction, Operand};
use crate::soc::machine::{
    CpuModel,
    Outcome,
    RunState,
    HIGH_RAM_END,
    HIGH_RAM_START,
    INTERRUPT_REGISTER,
};
use crate::soc::register::{Flags, MathOps, Registers};
use crate::utils::{as_u16, hilo};

verus! {

pub type OpCode = u8;

pub struct CPU {
    pub register: Registers,
    pub memory: MemorySpace,
    pub cycle: u32,
    pub halted: bool,
    pub stopped: bool,
    pub interrupts_enabled: bool,
    pub high_ram: [u8; 127],
}

impl View for CPU {
    type V = CpuModel;

    open spec fn view(&self) -> CpuModel {
        CpuModel {
            register: self.register,
            memory: self.memory@,
            cycle: self.cycle,
            halted: self.halted,
            stopped: self.stopped,
            interrupts_enabled: self.interrupts_enabled,
            high_ram: self.high_ram@,
        }
    }
}

/// Reading and writing operands of width `T`.
pub trait ReadWrite<T> {
    /// The machine that the operands belong to.
    spec fn machine(&self) -> CpuModel;

    /// What reading the operand makes of a machine, and what it gives.
    spec fn read_outcome(machine: CpuModel, operand: Operand) -> Outcome<T>;

    /// What writing the operand makes of a machine.
    spec fn write_outcome(machine: CpuModel, operand: Operand, data: T) -> Outcome<()>;

    fn read(&mut self, operand: Operand) -> (result: Result<T, Error>)
        ensures
            (final(self).machine(), result) == Self::read_outcome(old(self).machine(), operand),
    ;

    fn write(&mut self, operand: Operand, data: T) -> (result: Result<(), Error>)
        ensures
            (final(self).machine(), result) == Self::write_outcome(
                old(self).machine(),
                operand,
                data,
            ),
    ;
}

/// Pushing and popping values of width `T`.
pub trait PushPop<T> {
    /// The machine that the stack belongs to.
    spec fn stack_machine(&self) -> CpuModel;

    /// What pushing the value makes of a machine.
    spec fn push_outcome(machine: CpuModel, data: T) -> Outcome<()>;

    /// What popping a value makes of a machine, and what it gives.
    spec fn pop_outcome(machine: CpuModel) -> Outcome<T>;

    fn push(&mut self, data: T) -> (result: Result<(), Error>)
        ensures
            (final(self).stack_machine(), result) == Self::push_outcome(
                old(self).stack_machine(),
                data,
            ),
    ;

    fn pop(&mut self) -> (result: Result<T, Error>)
        ensures
            (final(self).stack_machine(), result) == Self::pop_outcome(old(self).stack_machine()),
    ;
}

impl CPU {
    pub fn new(memory: MemorySpace) -> (cpu: CPU)
        ensures
            cpu@ == CpuModel::fresh(memory@),
    {
        let cpu = CPU {
            register: Registers::default(),
            memory,
            cycle: 0,
            halted: false,
            stopped: false,
            interrupts_enabled: true,
            high_ram: [0; 127],
        };
        assert(cpu.high_ram@ =~= Seq::new(127, |i: int| 0u8));
        cpu
    }

    /// The memories of a processor always have their fixed sizes.
    pub proof fn lemma_valid(&self)
        ensures
            self@.valid(),
    {
        self.memory.lemma_valid();
    }

    /// The run state of the processor.
    pub fn state(&self) -> (state: RunState)
        ensures
            state == self@.state(),
    {
        if self.halted {
            RunState::Halted
        } else if self.stopped {
            RunState::Stopped
        } else {
            RunState::Running
        }
    }

    /// Spends cycles.
    fn tick(&mut self, cycles: u32)
        ensures
            final(self)@ == old(self)@.tick(cycles),
    {
        self.cycle = self.cycle.wrapping_add(cycles);
    }

    /// Reads the memory cell at `address`.
    pub fn load(&mut self, address: u16) -> (result: Result<u8, Error>)
        ensures
            (final(self)@, result) == old(self)@.load(address),
    {
        if HIGH_RAM_START <= address && address <= HIGH_RAM_END {
            Ok(self.high_ram[(address - HIGH_RAM_START) as usize])
        } else if address == INTERRUPT_REGISTER {
            Ok(self.register.IR)
        } else {
            self.tick(4);
            self.memory.read(address)
        }
    }

    /// Writes the memory cell at `address`.
    pub fn store(&mut self, address: u16, data: u8) -> (result: Result<(), Error>)
        ensures
            (final(self)@, result) == old(self)@.store(address, data),
    {
        if HIGH_RAM_START <= address && address <= HIGH_RAM_END {
            self.high_ram[(address - HIGH_RAM_START) as usize] = data;
            Ok(())
        } else if address == INTERRUPT_REGISTER {
            self.register.IR = data;
            Ok(())
        } else {
            self.tick(4);
            self.memory.write(address, data)
        }
    }

    /// Takes the next byte of the instruction stream.
    pub fn fetch(&mut self) -> (result: Result<OpCode, Error>)
        ensures
            (final(self)@, result) == old(self)@.next_byte(),
    {
        let byte: u8 = self.memory.read(self.register.PC)?;
        self.register.PC = self.register.PC.wrapping_add(1);
        self.tick(4);
        Ok(byte)
    }

    /// Reads an 8-bit operand that is not a memory cell.
    fn read_direct(&mut self, operand: &Operand) -> (result: Result<u8, Error>)
        ensures
            (final(self)@, result) == old(self)@.read8_direct(*operand),
    {
        match operand {
            Operand::A => Ok(self.register.A),
            Operand::B => Ok(self.register.B),
            Operand::C => Ok(self.register.C),
            Operand::D => Ok(self.register.D),
            Operand::E => Ok(self.register.E),
            Operand::F => Ok(self.register.F),
            Operand::H => Ok(self.register.H),
            Operand::L => Ok(self.register.L),
            Operand::Word => self.fetch(),
            _ => Err(Error::InvalidOperand(operand.duplicate())),
        }
    }

    /// Reads a 16-bit operand.
    pub fn read_dword(&mut self, operand: &Operand) -> (result: Result<u16, Error>)
        ensures
            (final(self)@, result) == old(self)@.read16(*operand),
    {
        match operand {
            Operand::HL => Ok(self.register.read_HL()),
            Operand::AF => Ok(self.register.read_AF()),
            Operand::BC => Ok(self.register.read_BC()),
            Operand::DE => Ok(self.register.read_DE()),
            Operand::SP => Ok(self.register.SP),
            Operand::PC => Ok(self.register.PC),
            Operand::DWord => {
                let high: u8 = self.fetch()?;
                let low: u8 = self.fetch()?;
                Ok(as_u16(high, low))
            },
            Operand::Memory(_, _)
            | Operand::Zero
            | Operand::NoZero
            | Operand::Carry
            | Operand::NoCarry => Err(Error::InvalidOperand(operand.duplicate())),
            _ => {
                let byte: u8 = self.read_direct(operand)?;
                Ok(as_u16(0, byte))
            },
        }
    }

    /// Reads an 8-bit operand.
    pub fn read_word(&mut self, operand: &Operand) -> (result: Result<u8, Error>)
        ensures
            (final(self)@, result) == old(self)@.read8(*operand),
    {
        match operand {
            Operand::Memory(base, offset) => {
                let address: u16 = self.read_dword(base)?;
                self.load(address.wrapping_add(*offset))
            },
            _ => self.read_direct(operand),
        }
    }

    /// Writes an 8-bit operand.
    pub fn write_word(&mut self, operand: &Operand, data: u8) -> (result: Result<(), Error>)
        ensures
            (final(self)@, result) == old(self)@.write8(*operand, data),
    {
        match operand {
            Operand::A => self.register.A = data,
            Operand::B => self.register.B = data,
            Operand::C => self.register.C = data,
            Operand::D => self.register.D = data,
            Operand::E => self.register.E = data,
            Operand::F => self.register.F = data,
            Operand::H => self.register.H = data,
            Operand::L => self.register.L = data,
            Operand::Memory(base, offset) => {
                let address: u16 = self.read_dword(base)?;
                return self.store(address.wrapping_add(*offset), data);
            },
            _ => {
                return Err(Error::InvalidOperand(operand.duplicate()));
            },
        }
        Ok(())
    }

    /// Writes a 16-bit operand.
    pub fn write_dword(&mut self, operand: &Operand, data: u16) -> (result: Result<(), Error>)
        ensures
            (final(self)@, result) == old(self)@.write16(*operand, data),
    {
        match operand {
            Operand::HL => self.register.write_HL(data),
            Operand::AF => self.register.write_AF(data),
            Operand::BC => self.register.write_BC(data),
            Operand::DE => self.register.write_DE(data),
            Operand::SP => self.register.SP = data,
            Operand::PC => self.register.PC = data,
            _ => {
                return Err(Error::InvalidOperand(operand.duplicate()));
            },
        }
        Ok(())
    }
}

impl CPU {
    /// Copies an 8-bit operand.
    fn move_word(&mut self, target: &Operand, source: &Operand) -> (result: Result<(), Error>)
        ensures
            (final(self)@, result) == old(self)@.move8(*target, *source),
    {
        let data: u8 = self.read_word(source)?;
        self.write_word(target, data)
    }

    /// Copies a 16-bit operand.
    fn move_dword(&mut self, target: &Operand, source: &Operand) -> (result: Result<(), Error>)
        ensures
            (final(self)@, result) == old(self)@.move16(*target, *source),
    {
        let data: u16 = self.read_dword(source)?;
        self.write_dword(target, data)
    }

    /// Adds one to an 8-bit operand or subtracts one from it.
    fn adjust_word(&mut self, operand: &Operand, up: bool) -> (result: Result<(), Error>)
        ensures
            (final(self)@, result) == old(self)@.adjust8(*operand, up),
    {
        let n: u8 = self.read_word(operand)?;
        let adjusted: u8 = if up {
            self.register.carrying_add(n, 1u8)
        } else {
            self.register.borrowing_sub(n, 1u8)
        };
        self.write_word(operand, adjusted)
    }

    /// Adds one to a 16-bit operand or subtracts one from it.
    fn adjust_dword(&mut self, operand: &Operand, up: bool) -> (result: Result<(), Error>)
        ensures
            (final(self)@, result) == old(self)@.adjust16(*operand, up),
    {
        let n: u16 = self.read_dword(operand)?;
        let adjusted: u16 = if up {
            self.register.carrying_add(n, 1u16)
        } else {
            self.register.borrowing_sub(n, 1u16)
        };
        self.write_dword(operand, adjusted)
    }

    /// Performs an accumulator operation with an operand.
    fn accumulate_operand(&mut self, source: &Operand, op: AluOp) -> (result: Result<(), Error>)
        ensures
            (final(self)@, result) == old(self)@.accumulate(*source, op),
    {
        let n: u8 = self.read_word(source)?;
        accumulate(&mut self.register, op, n);
        Ok(())
    }

    /// Adds a 16-bit operand to another.
    fn add_dword(&mut self, target: &Operand, source: &Operand) -> (result: Result<(), Error>)
        ensures
            (final(self)@, result) == old(self)@.add16(*target, *source),
    {
        let x: u16 = self.read_dword(target)?;
        let y: u16 = self.read_dword(source)?;
        let sum: u16 = self.register.carrying_add(x, y);
        self.write_dword(target, sum)
    }

    /// Shifts, rotates or swaps an operand.
    fn shift_operand(&mut self, target: &Operand, op: ShiftOp) -> (result: Result<(), Error>)
        ensures
            (final(self)@, result) == old(self)@.shift(*target, op),
    {
        let value: u8 = self.read_word(target)?;
        let carry_in: bool = self.register.read_flag(Flags::Carry);
        let (shifted, carry_out) = shift(op, value, carry_in);
        self.write_word(target, shifted)?;
        self.register.assign_flags(shifted == 0, false, false, carry_out);
        Ok(())
    }

    /// Tests, sets or clears one bit of an operand.
    fn bit_operand(&mut self, op: BitOp, bit: u8, target: &Operand) -> (result: Result<(), Error>)
        ensures
            (final(self)@, result) == old(self)@.bit(op, bit, *target),
    {
        if bit >= 8 {
            return Err(Error::InvalidOperand(target.duplicate()));
        }
        let value: u8 = self.read_word(target)?;
        match op {
            BitOp::Test => {
                let is_zero: bool = value & (1u8 << bit) == 0;
                let carry: bool = self.register.read_flag(Flags::Carry);
                self.register.assign_flags(is_zero, false, true, carry);
                Ok(())
            },
            BitOp::Raise => self.write_word(target, value | (1u8 << bit)),
            BitOp::Clear => self.write_word(target, value & !(1u8 << bit)),
        }
    }

    /// Whether a branch on the condition is taken.
    fn condition_holds(&self, condition: &Operand) -> (result: Result<bool, Error>)
        ensures
            result == self@.jump_allowed(*condition),
    {
        match condition {
            Operand::Zero => Ok(self.register.read_flag(Flags::Zero)),
            Operand::NoZero => Ok(!self.register.read_flag(Flags::Zero)),
            Operand::Carry => Ok(self.register.read_flag(Flags::Carry)),
            Operand::NoCarry => Ok(!self.register.read_flag(Flags::Carry)),
            _ => Err(Error::InvalidOperand(condition.duplicate())),
        }
    }

    /// Evaluates a branch condition against the flags.
    pub fn jump_allowed(&self, operand: Operand) -> (result: Result<bool, Error>)
        ensures
            result == self@.jump_allowed(operand),
    {
        self.condition_holds(&operand)
    }

    /// Hands control to an address.
    pub fn jump(&mut self, address: u16)
        ensures
            final(self)@ == old(self)@.jump(address),
    {
        self.register.PC = address;
        self.tick(8);
    }

    /// Jumps to the address that an operand gives.
    fn jump_to(&mut self, target: &Operand) -> (result: Result<(), Error>)
        ensures
            (final(self)@, result) == old(self)@.jp(*target),
    {
        let address: u16 = self.read_dword(target)?;
        self.register.PC = address;
        Ok(())
    }

    /// Jumps forward by the distance that an operand gives.
    fn jump_by(&mut self, offset: &Operand) -> (result: Result<(), Error>)
        ensures
            (final(self)@, result) == old(self)@.jr(*offset),
    {
        let distance: u8 = self.read_word(offset)?;
        self.register.PC = self.register.PC.wrapping_add(distance as u16);
        Ok(())
    }

    /// Calls the routine at the address that an operand gives.
    fn call(&mut self, target: &Operand) -> (result: Result<(), Error>)
        ensures
            (final(self)@, result) == old(self)@.call(*target),
    {
        let address: u16 = self.read_dword(target)?;
        // Push the address of the next instruction
        let next: u16 = self.register.PC;
        self.push(next)?;
        self.jump(address);
        Ok(())
    }

    /// Restarts at a fixed vector.
    fn restart(&mut self, vector: u16) -> (result: Result<(), Error>)
        ensures
            (final(self)@, result) == old(self)@.rst(vector),
    {
        let next: u16 = self.register.PC;
        self.push(next)?;
        self.jump(vector);
        self.tick(20);
        Ok(())
    }

    /// Returns to the address on the stack.
    fn ret(&mut self) -> (result: Result<(), Error>)
        ensures
            (final(self)@, result) == old(self)@.ret(),
    {
        let address: u16 = self.pop()?;
        self.jump(address);
        Ok(())
    }

    /// Copies an 8-bit operand, then steps HL up or down.
    fn move_word_and_step(&mut self, target: &Operand, source: &Operand, up: bool) -> (result:
        Result<(), Error>)
        ensures
            (final(self)@, result) == old(self)@.move8_and_step(*target, *source, up),
    {
        self.move_word(target, source)?;
        self.adjust_dword(&Operand::HL, up)
    }

    /// Loads HL with the stack pointer plus an unsigned offset.
    fn load_hl_from_sp(&mut self, source: &Operand) -> (result: Result<(), Error>)
        ensures
            (final(self)@, result) == old(self)@.load_hl_from_sp(*source),
    {
        let offset: u8 = self.read_word(source)?;
        let address: u16 = self.register.SP.wrapping_add(offset as u16);
        // Write addr to HL
        self.write_dword(&Operand::HL, address)
    }

    /// Pushes the value of a 16-bit operand.
    fn push_operand(&mut self, source: &Operand) -> (result: Result<(), Error>)
        ensures
            (final(self)@, result) == old(self)@.push_operand(*source),
    {
        let data: u16 = self.read_dword(source)?;
        self.push(data)
    }

    /// Pops a value into a 16-bit operand.
    fn pop_operand(&mut self, target: &Operand) -> (result: Result<(), Error>)
        ensures
            (final(self)@, result) == old(self)@.pop_operand(*target),
    {
        let data: u16 = self.pop()?;
        self.write_dword(target, data)
    }

    /// Executes an instruction that loads or stores.
    fn execute_load(&mut self, instruction: Instruction) -> (result: Result<(), Error>)
        ensures
            (final(self)@, result) == old(self)@.execute_load(instruction),
    {
        match instruction {
            Instruction::LD8(op1, op2) => self.move_word(&op1, &op2),
            // identical to LD8 since the offset is set at instruction level
            Instruction::LDH(op1, op2) => self.move_word(&op1, &op2),
            Instruction::LD16(op1, op2) => self.move_dword(&op1, &op2),
            Instruction::LDD(op1, op2) => self.move_word_and_step(&op1, &op2, false),
            Instruction::LDI(op1, op2) => self.move_word_and_step(&op1, &op2, true),
            Instruction::LDHL(_, op2) => self.load_hl_from_sp(&op2),
            Instruction::PUSH(op) => self.push_operand(&op),
            Instruction::POP(op) => self.pop_operand(&op),
            _ => Ok(()),
        }
    }

    /// Executes an instruction that computes.
    fn execute_arithmetic(&mut self, instruction: Instruction) -> (result: Result<(), Error>)
        ensures
            (final(self)@, result) == old(self)@.execute_arithmetic(instruction),
    {
        match instruction {
            Instruction::ADD8(_, op2) => self.accumulate_operand(&op2, AluOp::Add),
            Instruction::ADC(_, op2) => self.accumulate_operand(&op2, AluOp::Adc),
            Instruction::SUB(op) => self.accumulate_operand(&op, AluOp::Sub),
            Instruction::SBC(_, op2) => self.accumulate_operand(&op2, AluOp::Sbc),
            Instruction::AND(op) => self.accumulate_operand(&op, AluOp::And),
            Instruction::OR(op) => self.accumulate_operand(&op, AluOp::Or),
            Instruction::XOR(op) => self.accumulate_operand(&op, AluOp::Xor),
            Instruction::CP(op) => self.accumulate_operand(&op, AluOp::Cp),
            Instruction::ADD16(op1, op2) => self.add_dword(&op1, &op2),
            Instruction::INC8(op) => self.adjust_word(&op, true),
            Instruction::DEC8(op) => self.adjust_word(&op, false),
            Instruction::INC16(op) => self.adjust_dword(&op, true),
            Instruction::DEC16(op) => self.adjust_dword(&op, false),
            Instruction::CPL => {
                let zero: bool = self.register.read_flag(Flags::Zero);
                let carry: bool = self.register.read_flag(Flags::Carry);
                self.register.A = 0xFF - self.register.A;
                self.register.assign_flags(zero, false, false, carry);
                Ok(())
            },
            Instruction::CCF => {
                let zero: bool = self.register.read_flag(Flags::Zero);
                let carry: bool = self.register.read_flag(Flags::Carry);
                self.register.assign_flags(zero, false, false, !carry);
                Ok(())
            },
            Instruction::SCF => {
                let zero: bool = self.register.read_flag(Flags::Zero);
                self.register.assign_flags(zero, false, false, true);
                Ok(())
            },
            _ => Ok(()),
        }
    }

    /// Executes a shift, a rotate, a swap or a bit instruction.
    fn execute_bits(&mut self, instruction: Instruction) -> (result: Result<(), Error>)
        ensures
            (final(self)@, result) == old(self)@.execute_bits(instruction),
    {
        match instruction {
            Instruction::SWAP(op) => self.shift_operand(&op, ShiftOp::Swap),
            Instruction::RLCA => self.shift_operand(&Operand::A, ShiftOp::Rlc),
            Instruction::RLA => self.shift_operand(&Operand::A, ShiftOp::Rl),
            Instruction::RRCA => self.shift_operand(&Operand::A, ShiftOp::Rrc),
            Instruction::RRA => self.shift_operand(&Operand::A, ShiftOp::Rr),
            Instruction::RLC(op) => self.shift_operand(&op, ShiftOp::Rlc),
            Instruction::RL(op) => self.shift_operand(&op, ShiftOp::Rl),
            Instruction::RRC(op) => self.shift_operand(&op, ShiftOp::Rrc),
            Instruction::RR(op) => self.shift_operand(&op, ShiftOp::Rr),
            Instruction::SLA(op) => self.shift_operand(&op, ShiftOp::Sla),
            Instruction::SRA(op) => self.shift_operand(&op, ShiftOp::Sra),
            Instruction::SRL(op) => self.shift_operand(&op, ShiftOp::Srl),
            Instruction::BIT(nth_bit, op2) => self.bit_operand(BitOp::Test, nth_bit, &op2),
            Instruction::SET(nth_bit, op2) => self.bit_operand(BitOp::Raise, nth_bit, &op2),
            Instruction::RES(nth_bit, op2) => self.bit_operand(BitOp::Clear, nth_bit, &op2),
            _ => Ok(()),
        }
    }

    /// Executes an instruction that transfers control or changes the run
    /// state.
    fn execute_control(&mut self, instruction: Instruction) -> (result: Result<(), Error>)
        ensures
            (final(self)@, result) == old(self)@.execute_control(instruction),
    {
        match instruction {
            Instruction::JP1(op) => self.jump_to(&op),
            Instruction::JP(op1, op2) => {
                if self.condition_holds(&op1)? {
                    self.jump_to(&op2)
                } else {
                    Ok(())
                }
            },
            Instruction::JR1(op) => self.jump_by(&op),
            Instruction::JR(cc, nn) => {
                if self.condition_holds(&cc)? {
                    self.jump_by(&nn)
                } else {
                    Ok(())
                }
            },
            Instruction::CALL1(op) => self.call(&op),
            Instruction::CALL(op1, op2) => {
                if self.condition_holds(&op1)? {
                    self.call(&op2)
                } else {
                    Ok(())
                }
            },
            Instruction::RST(address) => self.restart(address),
            Instruction::RET_ => self.ret(),
            Instruction::RET(cc) => {
                if self.condition_holds(&cc)? {
                    self.ret()
                } else {
                    Ok(())
                }
            },
            Instruction::RETI => {
                self.ret()?;
                self.interrupts_enabled = true;
                Ok(())
            },
            Instruction::HALT => {
                self.halted = true;
                Ok(())
            },
            Instruction::STOP => {
                self.stopped = true;
                Ok(())
            },
            Instruction::DI => {
                self.interrupts_enabled = false;
                Ok(())
            },
            Instruction::EI => {
                self.interrupts_enabled = true;
                Ok(())
            },
            _ => Ok(()),
        }
    }

    /// Executes an instruction.
    pub fn execute(&mut self, instruction: Instruction) -> (result: Result<(), Error>)
        ensures
            (final(self)@, result) == old(self)@.execute(instruction),
    {
        match instruction {
            Instruction::LD8(_, _)
            | Instruction::LDH(_, _)
            | Instruction::LD16(_, _)
            | Instruction::LDD(_, _)
            | Instruction::LDI(_, _)
            | Instruction::LDHL(_, _)
            | Instruction::PUSH(_)
            | Instruction::POP(_) => self.execute_load(instruction),
            Instruction::ADD8(_, _)
            | Instruction::ADC(_, _)
            | Instruction::SUB(_)
            | Instruction::SBC(_, _)
            | Instruction::AND(_)
            | Instruction::OR(_)
            | Instruction::XOR(_)
            | Instruction::CP(_)
            | Instruction::ADD16(_, _)
            | Instruction::INC8(_)
            | Instruction::DEC8(_)
            | Instruction::INC16(_)
            | Instruction::DEC16(_)
            | Instruction::DAA
            | Instruction::CPL
            | Instruction::CCF
            | Instruction::SCF => self.execute_arithmetic(instruction),
            Instruction::SWAP(_)
            | Instruction::RLCA
            | Instruction::RLA
            | Instruction::RRCA
            | Instruction::RRA
            | Instruction::RLC(_)
            | Instruction::RL(_)
            | Instruction::RRC(_)
            | Instruction::RR(_)
            | Instruction::SLA(_)
            | Instruction::SRA(_)
            | Instruction::SRL(_)
            | Instruction::BIT(_, _)
            | Instruction::SET(_, _)
            | Instruction::RES(_, _) => self.execute_bits(instruction),
            _ => self.execute_control(instruction),
        }
    }

    /// Decodes an opcode that was fetched. The prefix 0xCB takes one more
    /// byte from the instruction stream.
    pub fn decode(&mut self, opcode: OpCode) -> (result: Result<Instruction, Error>)
        ensures
            (final(self)@, result) == old(self)@.decode(opcode),
    {
        match opcode {
            // Special instructions always start with 0XCB
            0xCB => {
                let next_byte: u8 = self.fetch()?;
                let opcode: u16 = as_u16(opcode, next_byte);
                Ok(Instruction::from(opcode))
            },
            // Basic instructions
            _ => Ok(Instruction::from(opcode)),
        }
    }

    /// Fetches, decodes and executes one instruction.
    pub fn exec_single_instruction(&mut self) -> (result: Result<(), Failure>)
        ensures
            (final(self)@, result) == old(self)@.step(),
    {
        let address: u16 = self.register.PC;
        let opcode: u8 = match self.fetch() {
            Ok(opcode) => opcode,
            Err(error) => {
                return Err(Failure { error, address, opcode: None });
            },
        };
        let instruction = match self.decode(opcode) {
            Ok(instruction) => instruction,
            Err(error) => {
                return Err(Failure { error, address, opcode: Some(opcode) });
            },
        };
        match self.execute(instruction) {
            Ok(_) => Ok(()),
            Err(error) => Err(Failure { error, address, opcode: Some(opcode) }),
        }
    }

    /// Runs until the processor is halted or an instruction fails. A run
    /// that has gone through `u64::MAX` instructions without either ends
    /// there, with the processor not halted.
    pub fn run(&mut self) -> (result: Result<(), Failure>)
        ensures
            (final(self)@, result) == old(self)@.run(u64::MAX as nat),
    {
        let mut remaining: u64 = u64::MAX;
        while remaining > 0
            invariant
                old(self)@.run(u64::MAX as nat) == self@.run(remaining as nat),
            decreases remaining,
        {
            self.exec_single_instruction()?;
            if self.halted {
                return Ok(());
            }
            remaining = remaining - 1;
        }
        Ok(())
    }
}

impl ReadWrite<u8> for CPU {
    open spec fn machine(&self) -> CpuModel {
        self@
    }

    open spec fn read_outcome(machine: CpuModel, operand: Operand) -> Outcome<u8> {
        machine.read8(operand)
    }

    open spec fn write_outcome(machine: CpuModel, operand: Operand, data: u8) -> Outcome<()> {
        machine.write8(operand, data)
    }

    fn read(&mut self, operand: Operand) -> (result: Result<u8, Error>) {
        self.read_word(&operand)
    }

    fn write(&mut self, operand: Operand, data: u8) -> (result: Result<(), Error>) {
        self.write_word(&operand, data)
    }
}

impl ReadWrite<u16> for CPU {
    open spec fn machine(&self) -> CpuModel {
        self@
    }

    open spec fn read_outcome(machine: CpuModel, operand: Operand) -> Outcome<u16> {
        machine.read16(operand)
    }

    open spec fn write_outcome(machine: CpuModel, operand: Operand, data: u16) -> Outcome<()> {
        machine.write16(operand, data)
    }

    fn read(&mut self, operand: Operand) -> (result: Result<u16, Error>) {
        self.read_dword(&operand)
    }

    fn write(&mut self, operand: Operand, data: u16) -> (result: Result<(), Error>) {
        self.write_dword(&operand, data)
    }
}

impl PushPop<u8> for CPU {
    open spec fn stack_machine(&self) -> CpuModel {
        self@
    }

    open spec fn push_outcome(machine: CpuModel, data: u8) -> Outcome<()> {
        machine.push8(data)
    }

    open spec fn pop_outcome(machine: CpuModel) -> Outcome<u8> {
        machine.pop8()
    }

    fn push(&mut self, data: u8) -> (result: Result<(), Error>) {
        self.register.SP = self.register.SP.wrapping_sub(1);
        self.store(self.register.SP, data)
    }

    fn pop(&mut self) -> (result: Result<u8, Error>) {
        let data: u8 = self.load(self.register.SP)?;
        self.register.SP = self.register.SP.wrapping_add(1);
        Ok(data)
    }
}

impl PushPop<u16> for CPU {
    open spec fn stack_machine(&self) -> CpuModel {
        self@
    }

    open spec fn push_outcome(machine: CpuModel, data: u16) -> Outcome<()> {
        machine.push16(data)
    }

    open spec fn pop_outcome(machine: CpuModel) -> Outcome<u16> {
        machine.pop16()
    }

    fn push(&mut self, data: u16) -> (result: Result<(), Error>) {
        let (hi, lo) = hilo(data);
        self.push(hi)?;
        self.push(lo)
    }

    fn pop(&mut self) -> (result: Result<u16, Error>) {
        let lo: u8 = self.pop()?;
        let hi: u8 = self.pop()?;
        Ok(as_u16(hi, lo))
    }
}

} // verus!
