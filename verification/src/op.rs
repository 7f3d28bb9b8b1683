//! Opcode bytes. Every opcode is composed of orthogonal bit fields:
//! class = bits 0-2; for memory instructions size = bits 3-4 and
//! mode = bits 5-7; for ALU and jump instructions source = bit 3 and
//! operation = bits 4-7.
use vstd::prelude::*;

use crate::class::EBPF_CLS_ALU;
use crate::class::EBPF_CLS_ALU64;
use crate::class::EBPF_CLS_JMP;
use crate::class::EBPF_CLS_LD;
use crate::class::EBPF_CLS_LDX;
use crate::class::EBPF_CLS_ST;
use crate::class::EBPF_CLS_STX;

verus! {

// memory access modes (bits 5-7)
pub const EBPF_IMM: u8 = 0x00;
pub const EBPF_ABS: u8 = 0x20;
pub const EBPF_IND: u8 = 0x40;
pub const EBPF_MEM: u8 = 0x60;
pub const EBPF_XADD: u8 = 0xc0;

// ALU operation nibbles (bits 4-7)
pub const EBPF_ADD: u8 = 0x00;
pub const EBPF_SUB: u8 = 0x10;
pub const EBPF_MUL: u8 = 0x20;
pub const EBPF_DIV: u8 = 0x30;
pub const EBPF_OR: u8 = 0x40;
pub const EBPF_AND: u8 = 0x50;
pub const EBPF_LSH: u8 = 0x60;
pub const EBPF_RSH: u8 = 0x70;
pub const EBPF_NEG: u8 = 0x80;
pub const EBPF_MOD: u8 = 0x90;
pub const EBPF_XOR: u8 = 0xa0;
pub const EBPF_MOV: u8 = 0xb0;
pub const EBPF_ARSH: u8 = 0xc0;
pub const EBPF_END: u8 = 0xd0;

// jump condition nibbles (bits 4-7)
pub const EBPF_JA: u8 = 0x00;
pub const EBPF_JEQ: u8 = 0x10;
pub const EBPF_JGT: u8 = 0x20;
pub const EBPF_JGE: u8 = 0x30;
pub const EBPF_JSET: u8 = 0x40;
pub const EBPF_JNE: u8 = 0x50;
pub const EBPF_JSGT: u8 = 0x60;
pub const EBPF_JSGE: u8 = 0x70;
pub const EBPF_CALL: u8 = 0x80;
pub const EBPF_EXIT: u8 = 0x90;
pub const EBPF_JLT: u8 = 0xa0;
pub const EBPF_JLE: u8 = 0xb0;
pub const EBPF_JSLT: u8 = 0xc0;
pub const EBPF_JSLE: u8 = 0xd0;

/// Mask keeping the low 32 bits of a 64-bit value.
pub const U32_MASK: i64 = 0x00000000ffffffff;

pub const CLS_MASK: u8 = 0x07;
pub const ALU_OP_MASK: u8 = 0xf0;

// source bit (bit 3): second operand is an immediate or a register
pub const EBPF_SRC_IMM: u8 = 0x00;
pub const EBPF_SRC_REG: u8 = 0x08;

// memory access sizes (bits 3-4)
pub const EBPF_SIZE_W: u8 = 0x00;
pub const EBPF_SIZE_H: u8 = 0x08;
pub const EBPF_SIZE_B: u8 = 0x10;
pub const EBPF_SIZE_DW: u8 = 0x18;

pub const EBPF_MODE_IMM: u8 = 0x00;
pub const EBPF_MODE_MEM: u8 = 0x60;

// 32-bit ALU opcodes
pub const ADD_IMM: u8 = EBPF_CLS_ALU | EBPF_SRC_IMM | EBPF_ADD;
pub const ADD_REG: u8 = EBPF_CLS_ALU | EBPF_SRC_REG | EBPF_ADD;
pub const SUB_IMM: u8 = EBPF_CLS_ALU | EBPF_SRC_IMM | EBPF_SUB;
pub const SUB_REG: u8 = EBPF_CLS_ALU | EBPF_SRC_REG | EBPF_SUB;
pub const MUL_IMM: u8 = EBPF_CLS_ALU | EBPF_SRC_IMM | EBPF_MUL;
pub const MUL_REG: u8 = EBPF_CLS_ALU | EBPF_SRC_REG | EBPF_MUL;
pub const DIV_IMM: u8 = EBPF_CLS_ALU | EBPF_SRC_IMM | EBPF_DIV;
pub const DIV_REG: u8 = EBPF_CLS_ALU | EBPF_SRC_REG | EBPF_DIV;
pub const OR_IMM: u8 = EBPF_CLS_ALU | EBPF_SRC_IMM | EBPF_OR;
pub const OR_REG: u8 = EBPF_CLS_ALU | EBPF_SRC_REG | EBPF_OR;
pub const AND_IMM: u8 = EBPF_CLS_ALU | EBPF_SRC_IMM | EBPF_AND;
pub const AND_REG: u8 = EBPF_CLS_ALU | EBPF_SRC_REG | EBPF_AND;
pub const LSH_IMM: u8 = EBPF_CLS_ALU | EBPF_SRC_IMM | EBPF_LSH;
pub const LSH_REG: u8 = EBPF_CLS_ALU | EBPF_SRC_REG | EBPF_LSH;
pub const RSH_IMM: u8 = EBPF_CLS_ALU | EBPF_SRC_IMM | EBPF_RSH;
pub const RSH_REG: u8 = EBPF_CLS_ALU | EBPF_SRC_REG | EBPF_RSH;
pub const NEG32: u8 = EBPF_CLS_ALU | EBPF_NEG;
pub const MOD_IMM: u8 = EBPF_CLS_ALU | EBPF_SRC_IMM | EBPF_MOD;
pub const MOD_REG: u8 = EBPF_CLS_ALU | EBPF_SRC_REG | EBPF_MOD;
pub const XOR_IMM: u8 = EBPF_CLS_ALU | EBPF_SRC_IMM | EBPF_XOR;
pub const XOR_REG: u8 = EBPF_CLS_ALU | EBPF_SRC_REG | EBPF_XOR;
pub const MOV_IMM: u8 = EBPF_CLS_ALU | EBPF_SRC_IMM | EBPF_MOV;
pub const MOV_REG: u8 = EBPF_CLS_ALU | EBPF_SRC_REG | EBPF_MOV;
pub const ARSH_IMM: u8 = EBPF_CLS_ALU | EBPF_SRC_IMM | EBPF_ARSH;
pub const ARSH_REG: u8 = EBPF_CLS_ALU | EBPF_SRC_REG | EBPF_ARSH;

// byte-order conversions (recognized, not executed)
pub const LE: u8 = EBPF_CLS_ALU | EBPF_SRC_IMM | EBPF_END;
pub const BE: u8 = EBPF_CLS_ALU | EBPF_SRC_REG | EBPF_END;

// 64-bit ALU opcodes
pub const ADD64_IMM: u8 = EBPF_CLS_ALU64 | EBPF_SRC_IMM | EBPF_ADD;
pub const ADD64_REG: u8 = EBPF_CLS_ALU64 | EBPF_SRC_REG | EBPF_ADD;
pub const SUB64_IMM: u8 = EBPF_CLS_ALU64 | EBPF_SRC_IMM | EBPF_SUB;
pub const SUB64_REG: u8 = EBPF_CLS_ALU64 | EBPF_SRC_REG | EBPF_SUB;
pub const MUL64_IMM: u8 = EBPF_CLS_ALU64 | EBPF_SRC_IMM | EBPF_MUL;
pub const MUL64_REG: u8 = EBPF_CLS_ALU64 | EBPF_SRC_REG | EBPF_MUL;
pub const DIV64_IMM: u8 = EBPF_CLS_ALU64 | EBPF_SRC_IMM | EBPF_DIV;
pub const DIV64_REG: u8 = EBPF_CLS_ALU64 | EBPF_SRC_REG | EBPF_DIV;
pub const OR64_IMM: u8 = EBPF_CLS_ALU64 | EBPF_SRC_IMM | EBPF_OR;
pub const OR64_REG: u8 = EBPF_CLS_ALU64 | EBPF_SRC_REG | EBPF_OR;
pub const AND64_IMM: u8 = EBPF_CLS_ALU64 | EBPF_SRC_IMM | EBPF_AND;
pub const AND64_REG: u8 = EBPF_CLS_ALU64 | EBPF_SRC_REG | EBPF_AND;
pub const LSH64_IMM: u8 = EBPF_CLS_ALU64 | EBPF_SRC_IMM | EBPF_LSH;
pub const LSH64_REG: u8 = EBPF_CLS_ALU64 | EBPF_SRC_REG | EBPF_LSH;
pub const RSH64_IMM: u8 = EBPF_CLS_ALU64 | EBPF_SRC_IMM | EBPF_RSH;
pub const RSH64_REG: u8 = EBPF_CLS_ALU64 | EBPF_SRC_REG | EBPF_RSH;
pub const NEG64: u8 = EBPF_CLS_ALU64 | EBPF_NEG;
pub const MOD64_IMM: u8 = EBPF_CLS_ALU64 | EBPF_SRC_IMM | EBPF_MOD;
pub const MOD64_REG: u8 = EBPF_CLS_ALU64 | EBPF_SRC_REG | EBPF_MOD;
pub const XOR64_IMM: u8 = EBPF_CLS_ALU64 | EBPF_SRC_IMM | EBPF_XOR;
pub const XOR64_REG: u8 = EBPF_CLS_ALU64 | EBPF_SRC_REG | EBPF_XOR;
pub const MOV64_IMM: u8 = EBPF_CLS_ALU64 | EBPF_SRC_IMM | EBPF_MOV;
pub const MOV64_REG: u8 = EBPF_CLS_ALU64 | EBPF_SRC_REG | EBPF_MOV;
pub const ARSH64_IMM: u8 = EBPF_CLS_ALU64 | EBPF_SRC_IMM | EBPF_ARSH;
pub const ARSH64_REG: u8 = EBPF_CLS_ALU64 | EBPF_SRC_REG | EBPF_ARSH;

// memory opcodes
pub const LDXW: u8 = EBPF_CLS_LDX | EBPF_MODE_MEM | EBPF_SIZE_W;
pub const LDXH: u8 = EBPF_CLS_LDX | EBPF_MODE_MEM | EBPF_SIZE_H;
pub const LDXB: u8 = EBPF_CLS_LDX | EBPF_MODE_MEM | EBPF_SIZE_B;
pub const LDXDW: u8 = EBPF_CLS_LDX | EBPF_MODE_MEM | EBPF_SIZE_DW;
pub const STW: u8 = EBPF_CLS_ST | EBPF_MODE_MEM | EBPF_SIZE_W;
pub const STH: u8 = EBPF_CLS_ST | EBPF_MODE_MEM | EBPF_SIZE_H;
pub const STB: u8 = EBPF_CLS_ST | EBPF_MODE_MEM | EBPF_SIZE_B;
pub const STDW: u8 = EBPF_CLS_ST | EBPF_MODE_MEM | EBPF_SIZE_DW;
pub const STXW: u8 = EBPF_CLS_STX | EBPF_MODE_MEM | EBPF_SIZE_W;
pub const STXH: u8 = EBPF_CLS_STX | EBPF_MODE_MEM | EBPF_SIZE_H;
pub const STXB: u8 = EBPF_CLS_STX | EBPF_MODE_MEM | EBPF_SIZE_B;
pub const STXDW: u8 = EBPF_CLS_STX | EBPF_MODE_MEM | EBPF_SIZE_DW;

/// Load of a 64-bit immediate: the only instruction packed into two slots.
pub const LDDW: u8 = EBPF_CLS_LD | EBPF_MODE_IMM | EBPF_SIZE_DW;

// jump opcodes
pub const JA: u8 = EBPF_CLS_JMP | EBPF_JA;
pub const JEQ_IMM: u8 = EBPF_CLS_JMP | EBPF_SRC_IMM | EBPF_JEQ;
pub const JEQ_REG: u8 = EBPF_CLS_JMP | EBPF_SRC_REG | EBPF_JEQ;
pub const JGT_IMM: u8 = EBPF_CLS_JMP | EBPF_SRC_IMM | EBPF_JGT;
pub const JGT_REG: u8 = EBPF_CLS_JMP | EBPF_SRC_REG | EBPF_JGT;
pub const JGE_IMM: u8 = EBPF_CLS_JMP | EBPF_SRC_IMM | EBPF_JGE;
pub const JGE_REG: u8 = EBPF_CLS_JMP | EBPF_SRC_REG | EBPF_JGE;
pub const JSET_REG: u8 = EBPF_CLS_JMP | EBPF_SRC_REG | EBPF_JSET;
pub const JSET_IMM: u8 = EBPF_CLS_JMP | EBPF_SRC_IMM | EBPF_JSET;
pub const JNE_IMM: u8 = EBPF_CLS_JMP | EBPF_SRC_IMM | EBPF_JNE;
pub const JNE_REG: u8 = EBPF_CLS_JMP | EBPF_SRC_REG | EBPF_JNE;
pub const JSGT_IMM: u8 = EBPF_CLS_JMP | EBPF_SRC_IMM | EBPF_JSGT;
pub const JSGT_REG: u8 = EBPF_CLS_JMP | EBPF_SRC_REG | EBPF_JSGT;
pub const JSGE_IMM: u8 = EBPF_CLS_JMP | EBPF_SRC_IMM | EBPF_JSGE;
pub const JSGE_REG: u8 = EBPF_CLS_JMP | EBPF_SRC_REG | EBPF_JSGE;

pub const CALL: u8 = EBPF_CLS_JMP | EBPF_CALL;
pub const EXIT: u8 = EBPF_CLS_JMP | EBPF_EXIT;

pub const JLT_IMM: u8 = EBPF_CLS_JMP | EBPF_SRC_IMM | EBPF_JLT;
pub const JLT_REG: u8 = EBPF_CLS_JMP | EBPF_SRC_REG | EBPF_JLT;
pub const JLE_IMM: u8 = EBPF_CLS_JMP | EBPF_SRC_IMM | EBPF_JLE;
pub const JLE_REG: u8 = EBPF_CLS_JMP | EBPF_SRC_REG | EBPF_JLE;
pub const JSLT_IMM: u8 = EBPF_CLS_JMP | EBPF_SRC_IMM | EBPF_JSLT;
pub const JSLT_REG: u8 = EBPF_CLS_JMP | EBPF_SRC_REG | EBPF_JSLT;
pub const JSLE_IMM: u8 = EBPF_CLS_JMP | EBPF_SRC_IMM | EBPF_JSLE;
pub const JSLE_REG: u8 = EBPF_CLS_JMP | EBPF_SRC_REG | EBPF_JSLE;

/// Literal value of every opcode byte, so that the composed constant
/// definitions can be compared and decomposed in proofs.
pub proof fn lemma_opcode_values()
    ensures
        crate::op::ADD_IMM == 0x04,
        crate::op::ADD_REG == 0x0c,
        crate::op::ADD64_IMM == 0x07,
        crate::op::ADD64_REG == 0x0f,
        crate::op::SUB_IMM == 0x14,
        crate::op::SUB_REG == 0x1c,
        crate::op::SUB64_IMM == 0x17,
        crate::op::SUB64_REG == 0x1f,
        crate::op::MUL_IMM == 0x24,
        crate::op::MUL_REG == 0x2c,
        crate::op::MUL64_IMM == 0x27,
        crate::op::MUL64_REG == 0x2f,
        crate::op::DIV_IMM == 0x34,
        crate::op::DIV_REG == 0x3c,
        crate::op::DIV64_IMM == 0x37,
        crate::op::DIV64_REG == 0x3f,
        crate::op::OR_IMM == 0x44,
        crate::op::OR_REG == 0x4c,
        crate::op::OR64_IMM == 0x47,
        crate::op::OR64_REG == 0x4f,
        crate::op::AND_IMM == 0x54,
        crate::op::AND_REG == 0x5c,
        crate::op::AND64_IMM == 0x57,
        crate::op::AND64_REG == 0x5f,
        crate::op::LSH_IMM == 0x64,
        crate::op::LSH_REG == 0x6c,
        crate::op::LSH64_IMM == 0x67,
        crate::op::LSH64_REG == 0x6f,
        crate::op::RSH_IMM == 0x74,
        crate::op::RSH_REG == 0x7c,
        crate::op::RSH64_IMM == 0x77,
        crate::op::RSH64_REG == 0x7f,
        crate::op::MOD_IMM == 0x94,
        crate::op::MOD_REG == 0x9c,
        crate::op::MOD64_IMM == 0x97,
        crate::op::MOD64_REG == 0x9f,
        crate::op::XOR_IMM == 0xa4,
        crate::op::XOR_REG == 0xac,
        crate::op::XOR64_IMM == 0xa7,
        crate::op::XOR64_REG == 0xaf,
        crate::op::MOV_IMM == 0xb4,
        crate::op::MOV_REG == 0xbc,
        crate::op::MOV64_IMM == 0xb7,
        crate::op::MOV64_REG == 0xbf,
        crate::op::ARSH_IMM == 0xc4,
        crate::op::ARSH_REG == 0xcc,
        crate::op::ARSH64_IMM == 0xc7,
        crate::op::ARSH64_REG == 0xcf,
        crate::op::NEG32 == 0x84,
        crate::op::NEG64 == 0x87,
        crate::op::LE == 0xd4,
        crate::op::BE == 0xdc,
        crate::op::LDXW == 0x61,
        crate::op::STW == 0x62,
        crate::op::STXW == 0x63,
        crate::op::LDXH == 0x69,
        crate::op::STH == 0x6a,
        crate::op::STXH == 0x6b,
        crate::op::LDXB == 0x71,
        crate::op::STB == 0x72,
        crate::op::STXB == 0x73,
        crate::op::LDXDW == 0x79,
        crate::op::STDW == 0x7a,
        crate::op::STXDW == 0x7b,
        crate::op::LDDW == 0x18,
        crate::op::JA == 0x05,
        crate::op::JEQ_IMM == 0x15,
        crate::op::JEQ_REG == 0x1d,
        crate::op::JGT_IMM == 0x25,
        crate::op::JGT_REG == 0x2d,
        crate::op::JGE_IMM == 0x35,
        crate::op::JGE_REG == 0x3d,
        crate::op::JSET_IMM == 0x45,
        crate::op::JSET_REG == 0x4d,
        crate::op::JNE_IMM == 0x55,
        crate::op::JNE_REG == 0x5d,
        crate::op::JSGT_IMM == 0x65,
        crate::op::JSGT_REG == 0x6d,
        crate::op::JSGE_IMM == 0x75,
        crate::op::JSGE_REG == 0x7d,
        crate::op::JLT_IMM == 0xa5,
        crate::op::JLT_REG == 0xad,
        crate::op::JLE_IMM == 0xb5,
        crate::op::JLE_REG == 0xbd,
        crate::op::JSLT_IMM == 0xc5,
        crate::op::JSLT_REG == 0xcd,
        crate::op::JSLE_IMM == 0xd5,
        crate::op::JSLE_REG == 0xdd,
        crate::op::CALL == 0x85,
        crate::op::EXIT == 0x95,
{
    assert({
        &&& crate::op::ADD_IMM == 0x04
        &&& crate::op::ADD_REG == 0x0c
        &&& crate::op::ADD64_IMM == 0x07
        &&& crate::op::ADD64_REG == 0x0f
        &&& crate::op::SUB_IMM == 0x14
        &&& crate::op::SUB_REG == 0x1c
        &&& crate::op::SUB64_IMM == 0x17
        &&& crate::op::SUB64_REG == 0x1f
        &&& crate::op::MUL_IMM == 0x24
        &&& crate::op::MUL_REG == 0x2c
        &&& crate::op::MUL64_IMM == 0x27
        &&& crate::op::MUL64_REG == 0x2f
        &&& crate::op::DIV_IMM == 0x34
        &&& crate::op::DIV_REG == 0x3c
        &&& crate::op::DIV64_IMM == 0x37
        &&& crate::op::DIV64_REG == 0x3f
        &&& crate::op::OR_IMM == 0x44
        &&& crate::op::OR_REG == 0x4c
        &&& crate::op::OR64_IMM == 0x47
        &&& crate::op::OR64_REG == 0x4f
        &&& crate::op::AND_IMM == 0x54
        &&& crate::op::AND_REG == 0x5c
        &&& crate::op::AND64_IMM == 0x57
        &&& crate::op::AND64_REG == 0x5f
        &&& crate::op::LSH_IMM == 0x64
        &&& crate::op::LSH_REG == 0x6c
        &&& crate::op::LSH64_IMM == 0x67
        &&& crate::op::LSH64_REG == 0x6f
        &&& crate::op::RSH_IMM == 0x74
        &&& crate::op::RSH_REG == 0x7c
        &&& crate::op::RSH64_IMM == 0x77
        &&& crate::op::RSH64_REG == 0x7f
        &&& crate::op::MOD_IMM == 0x94
        &&& crate::op::MOD_REG == 0x9c
        &&& crate::op::MOD64_IMM == 0x97
        &&& crate::op::MOD64_REG == 0x9f
        &&& crate::op::XOR_IMM == 0xa4
        &&& crate::op::XOR_REG == 0xac
        &&& crate::op::XOR64_IMM == 0xa7
        &&& crate::op::XOR64_REG == 0xaf
        &&& crate::op::MOV_IMM == 0xb4
        &&& crate::op::MOV_REG == 0xbc
        &&& crate::op::MOV64_IMM == 0xb7
        &&& crate::op::MOV64_REG == 0xbf
        &&& crate::op::ARSH_IMM == 0xc4
        &&& crate::op::ARSH_REG == 0xcc
        &&& crate::op::ARSH64_IMM == 0xc7
        &&& crate::op::ARSH64_REG == 0xcf
        &&& crate::op::NEG32 == 0x84
        &&& crate::op::NEG64 == 0x87
        &&& crate::op::LE == 0xd4
        &&& crate::op::BE == 0xdc
        &&& crate::op::LDXW == 0x61
        &&& crate::op::STW == 0x62
        &&& crate::op::STXW == 0x63
        &&& crate::op::LDXH == 0x69
        &&& crate::op::STH == 0x6a
        &&& crate::op::STXH == 0x6b
        &&& crate::op::LDXB == 0x71
        &&& crate::op::STB == 0x72
        &&& crate::op::STXB == 0x73
        &&& crate::op::LDXDW == 0x79
        &&& crate::op::STDW == 0x7a
        &&& crate::op::STXDW == 0x7b
        &&& crate::op::LDDW == 0x18
        &&& crate::op::JA == 0x05
        &&& crate::op::JEQ_IMM == 0x15
        &&& crate::op::JEQ_REG == 0x1d
        &&& crate::op::JGT_IMM == 0x25
        &&& crate::op::JGT_REG == 0x2d
        &&& crate::op::JGE_IMM == 0x35
        &&& crate::op::JGE_REG == 0x3d
        &&& crate::op::JSET_IMM == 0x45
        &&& crate::op::JSET_REG == 0x4d
        &&& crate::op::JNE_IMM == 0x55
        &&& crate::op::JNE_REG == 0x5d
        &&& crate::op::JSGT_IMM == 0x65
        &&& crate::op::JSGT_REG == 0x6d
        &&& crate::op::JSGE_IMM == 0x75
        &&& crate::op::JSGE_REG == 0x7d
        &&& crate::op::JLT_IMM == 0xa5
        &&& crate::op::JLT_REG == 0xad
        &&& crate::op::JLE_IMM == 0xb5
        &&& crate::op::JLE_REG == 0xbd
        &&& crate::op::JSLT_IMM == 0xc5
        &&& crate::op::JSLT_REG == 0xcd
        &&& crate::op::JSLE_IMM == 0xd5
        &&& crate::op::JSLE_REG == 0xdd
        &&& crate::op::CALL == 0x85
        &&& crate::op::EXIT == 0x95
    }) by (bit_vector);
}

} // verus!
