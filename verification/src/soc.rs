//! The processor: registers, instructions and the execution loop.

pub mod register;
pub mod instruction;
pub mod alu;
pub mod machine;
pub mod cpu;
