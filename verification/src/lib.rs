//! A verified emulator core for the CPU3v2 system: registers, instruction
//! encoding and decoding, the memory map and the execution of instructions.

pub mod register;
pub mod alu;
pub mod opcode;
pub mod system;
pub mod disassemble;
pub mod startup;
