//! A user-space virtual machine for a 64-bit RISC-style bytecode: an
//! assembler from textual mnemonics to instruction records, a binary
//! encoder/decoder for the packed 8-byte word form, a reference interpreter,
//! and an x86-64 code generator whose output is run by a host harness.
use vstd::prelude::*;

pub mod alu;
pub mod asm_parser;
pub mod assemble;
pub mod class;
pub mod disassemble;
pub mod elf;
pub mod error;
pub mod instruction;
pub mod jit;
pub mod op;
pub mod runtime;
pub mod utils;

verus! {

/// Size in bytes of the guest stack given to every program.
pub const DEFAULT_STACK_SIZE: usize = 4096;

} // verus!
