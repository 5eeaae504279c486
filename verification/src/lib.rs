//! Execution core of an 8-bit handheld console processor: register file,
//! opcode decoder, cartridge bank controllers, address space and CPU.

pub mod utils;
pub mod soc;
pub mod error;
pub mod cartridge;
pub mod memory;
