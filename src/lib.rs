//! An encoder for a small 8-bit CPU: one method per instruction, each
//! appending that instruction's machine code to a flat program image.

pub mod assembler;
pub mod isa;

pub use assembler::Assembler;
pub use isa::{EncodeError, Instruction, Register, RegisterOrImm};
