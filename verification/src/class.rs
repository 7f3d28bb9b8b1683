//! Instruction classes: the low three bits of every opcode byte.
use vstd::prelude::*;

verus! {

pub const EBPF_CLS_LD: u8 = 0;
pub const EBPF_CLS_LDX: u8 = 1;
pub const EBPF_CLS_ST: u8 = 2;
pub const EBPF_CLS_STX: u8 = 3;
pub const EBPF_CLS_ALU: u8 = 4;
pub const EBPF_CLS_JMP: u8 = 5;
pub const EBPF_CLS_RET: u8 = 6;
pub const EBPF_CLS_ALU64: u8 = 7;

} // verus!
