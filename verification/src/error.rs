//! The failures of a run.

use vstd::prelude::*;
use crate::soc::instruction::Operand;

verus! {

/// Why an access, a load or an instruction failed. None of these is
/// transient: the run that met one does not go on.
#[derive(Debug, PartialEq, Eq)]
pub enum Error {
    /// The address lies in no window that the component serves.
    InvalidAddress(u16),
    /// A write into a read-only region.
    IllegalWrite(u16),
    /// The cartridge-type byte of the header names no supported controller.
    UnsupportedCartridgeType(u8),
    /// An instruction met an operand that it cannot work on.
    InvalidOperand(Operand),
    /// A banking-mode write with a selector other than 0 or 1.
    InvalidBankingMode(u8),
}

/// A failed instruction: the error, the address the instruction was fetched
/// from, and its first opcode byte where the fetch itself succeeded.
#[derive(Debug, PartialEq, Eq)]
pub struct Failure {
    pub error: Error,
    pub address: u16,
    pub opcode: Option<u8>,
}

} // verus!
