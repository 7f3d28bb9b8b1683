//! The assembler: classifies each parsed mnemonic into an instruction
//! category, checks the operand shape the category expects, and composes
//! the opcode byte and packed fields into instruction records. A `lddw`
//! yields its record with the full 64-bit immediate followed by the
//! canonical continuation record.
use vstd::prelude::*;

use vstd::string::StrSliceExecFns;

use crate::asm_parser::instructions;
use crate::asm_parser::spec_instructions;
use crate::asm_parser::spec_operands_view;
use crate::asm_parser::Operand;
use crate::error::ParseError;
use crate::instruction::spec_encode_check;
use crate::instruction::spec_encodable;
use crate::instruction::spec_lddw_cont;
use crate::instruction::wf_imm;
use crate::instruction::Instruction;

verus! {

/// The instruction categories: each determines an operand shape and how
/// the opcode byte is composed.
#[derive(Clone, Copy, Debug, PartialEq, Eq, Structural)]
pub enum InstructionType {
    AluBinary,
    AluUnary,
    LoadImm,
    LoadAbs,
    LoadInd,
    LoadReg,
    StoreImm,
    StoreReg,
    JumpUnconditional,
    JumpConditional,
    Call,
    Endian(i64),
    NoOperand,
}

/// Category and opcode byte of a mnemonic, or `None` for an unknown name.
pub open spec fn spec_instruction_kind(name: Seq<char>) -> Option<(InstructionType, u8)> {
    if name == "exit"@ {
        Some((InstructionType::NoOperand, crate::op::EXIT))
    } else if name == "ja"@ {
        Some((InstructionType::JumpUnconditional, crate::op::JA))
    } else if name == "call"@ {
        Some((InstructionType::Call, crate::op::CALL))
    } else if name == "lddw"@ {
        Some((InstructionType::LoadImm, crate::op::LDDW))
    } else if name == "neg"@ {
        Some((InstructionType::AluUnary, crate::op::NEG64))
    } else if name == "neg32"@ {
        Some((InstructionType::AluUnary, crate::op::NEG32))
    } else if name == "neg64"@ {
        Some((InstructionType::AluUnary, crate::op::NEG64))
    } else if name == "add"@ {
        Some((InstructionType::AluBinary, crate::class::EBPF_CLS_ALU64 | crate::op::EBPF_ADD))
    } else if name == "add32"@ {
        Some((InstructionType::AluBinary, crate::class::EBPF_CLS_ALU | crate::op::EBPF_ADD))
    } else if name == "add64"@ {
        Some((InstructionType::AluBinary, crate::class::EBPF_CLS_ALU64 | crate::op::EBPF_ADD))
    } else if name == "sub"@ {
        Some((InstructionType::AluBinary, crate::class::EBPF_CLS_ALU64 | crate::op::EBPF_SUB))
    } else if name == "sub32"@ {
        Some((InstructionType::AluBinary, crate::class::EBPF_CLS_ALU | crate::op::EBPF_SUB))
    } else if name == "sub64"@ {
        Some((InstructionType::AluBinary, crate::class::EBPF_CLS_ALU64 | crate::op::EBPF_SUB))
    } else if name == "mul"@ {
        Some((InstructionType::AluBinary, crate::class::EBPF_CLS_ALU64 | crate::op::EBPF_MUL))
    } else if name == "mul32"@ {
        Some((InstructionType::AluBinary, crate::class::EBPF_CLS_ALU | crate::op::EBPF_MUL))
    } else if name == "mul64"@ {
        Some((InstructionType::AluBinary, crate::class::EBPF_CLS_ALU64 | crate::op::EBPF_MUL))
    } else if name == "div"@ {
        Some((InstructionType::AluBinary, crate::class::EBPF_CLS_ALU64 | crate::op::EBPF_DIV))
    } else if name == "div32"@ {
        Some((InstructionType::AluBinary, crate::class::EBPF_CLS_ALU | crate::op::EBPF_DIV))
    } else if name == "div64"@ {
        Some((InstructionType::AluBinary, crate::class::EBPF_CLS_ALU64 | crate::op::EBPF_DIV))
    } else if name == "or"@ {
        Some((InstructionType::AluBinary, crate::class::EBPF_CLS_ALU64 | crate::op::EBPF_OR))
    } else if name == "or32"@ {
        Some((InstructionType::AluBinary, crate::class::EBPF_CLS_ALU | crate::op::EBPF_OR))
    } else if name == "or64"@ {
        Some((InstructionType::AluBinary, crate::class::EBPF_CLS_ALU64 | crate::op::EBPF_OR))
    } else if name == "and"@ {
        Some((InstructionType::AluBinary, crate::class::EBPF_CLS_ALU64 | crate::op::EBPF_AND))
    } else if name == "and32"@ {
        Some((InstructionType::AluBinary, crate::class::EBPF_CLS_ALU | crate::op::EBPF_AND))
    } else if name == "and64"@ {
        Some((InstructionType::AluBinary, crate::class::EBPF_CLS_ALU64 | crate::op::EBPF_AND))
    } else if name == "lsh"@ {
        Some((InstructionType::AluBinary, crate::class::EBPF_CLS_ALU64 | crate::op::EBPF_LSH))
    } else if name == "lsh32"@ {
        Some((InstructionType::AluBinary, crate::class::EBPF_CLS_ALU | crate::op::EBPF_LSH))
    } else if name == "lsh64"@ {
        Some((InstructionType::AluBinary, crate::class::EBPF_CLS_ALU64 | crate::op::EBPF_LSH))
    } else if name == "rsh"@ {
        Some((InstructionType::AluBinary, crate::class::EBPF_CLS_ALU64 | crate::op::EBPF_RSH))
    } else if name == "rsh32"@ {
        Some((InstructionType::AluBinary, crate::class::EBPF_CLS_ALU | crate::op::EBPF_RSH))
    } else if name == "rsh64"@ {
        Some((InstructionType::AluBinary, crate::class::EBPF_CLS_ALU64 | crate::op::EBPF_RSH))
    } else if name == "mod"@ {
        Some((InstructionType::AluBinary, crate::class::EBPF_CLS_ALU64 | crate::op::EBPF_MOD))
    } else if name == "mod32"@ {
        Some((InstructionType::AluBinary, crate::class::EBPF_CLS_ALU | crate::op::EBPF_MOD))
    } else if name == "mod64"@ {
        Some((InstructionType::AluBinary, crate::class::EBPF_CLS_ALU64 | crate::op::EBPF_MOD))
    } else if name == "xor"@ {
        Some((InstructionType::AluBinary, crate::class::EBPF_CLS_ALU64 | crate::op::EBPF_XOR))
    } else if name == "xor32"@ {
        Some((InstructionType::AluBinary, crate::class::EBPF_CLS_ALU | crate::op::EBPF_XOR))
    } else if name == "xor64"@ {
        Some((InstructionType::AluBinary, crate::class::EBPF_CLS_ALU64 | crate::op::EBPF_XOR))
    } else if name == "mov"@ {
        Some((InstructionType::AluBinary, crate::class::EBPF_CLS_ALU64 | crate::op::EBPF_MOV))
    } else if name == "mov32"@ {
        Some((InstructionType::AluBinary, crate::class::EBPF_CLS_ALU | crate::op::EBPF_MOV))
    } else if name == "mov64"@ {
        Some((InstructionType::AluBinary, crate::class::EBPF_CLS_ALU64 | crate::op::EBPF_MOV))
    } else if name == "arsh"@ {
        Some((InstructionType::AluBinary, crate::class::EBPF_CLS_ALU64 | crate::op::EBPF_ARSH))
    } else if name == "arsh32"@ {
        Some((InstructionType::AluBinary, crate::class::EBPF_CLS_ALU | crate::op::EBPF_ARSH))
    } else if name == "arsh64"@ {
        Some((InstructionType::AluBinary, crate::class::EBPF_CLS_ALU64 | crate::op::EBPF_ARSH))
    } else if name == "ldabsw"@ {
        Some((InstructionType::LoadAbs, crate::op::EBPF_ABS | crate::class::EBPF_CLS_LD | crate::op::EBPF_SIZE_W))
    } else if name == "ldindw"@ {
        Some((InstructionType::LoadInd, crate::op::EBPF_IND | crate::class::EBPF_CLS_LD | crate::op::EBPF_SIZE_W))
    } else if name == "ldxw"@ {
        Some((InstructionType::LoadReg, crate::op::EBPF_MEM | crate::class::EBPF_CLS_LDX | crate::op::EBPF_SIZE_W))
    } else if name == "stw"@ {
        Some((InstructionType::StoreImm, crate::op::EBPF_MEM | crate::class::EBPF_CLS_ST | crate::op::EBPF_SIZE_W))
    } else if name == "stxw"@ {
        Some((InstructionType::StoreReg, crate::op::EBPF_MEM | crate::class::EBPF_CLS_STX | crate::op::EBPF_SIZE_W))
    } else if name == "ldabsh"@ {
        Some((InstructionType::LoadAbs, crate::op::EBPF_ABS | crate::class::EBPF_CLS_LD | crate::op::EBPF_SIZE_H))
    } else if name == "ldindh"@ {
        Some((InstructionType::LoadInd, crate::op::EBPF_IND | crate::class::EBPF_CLS_LD | crate::op::EBPF_SIZE_H))
    } else if name == "ldxh"@ {
        Some((InstructionType::LoadReg, crate::op::EBPF_MEM | crate::class::EBPF_CLS_LDX | crate::op::EBPF_SIZE_H))
    } else if name == "sth"@ {
        Some((InstructionType::StoreImm, crate::op::EBPF_MEM | crate::class::EBPF_CLS_ST | crate::op::EBPF_SIZE_H))
    } else if name == "stxh"@ {
        Some((InstructionType::StoreReg, crate::op::EBPF_MEM | crate::class::EBPF_CLS_STX | crate::op::EBPF_SIZE_H))
    } else if name == "ldabsb"@ {
        Some((InstructionType::LoadAbs, crate::op::EBPF_ABS | crate::class::EBPF_CLS_LD | crate::op::EBPF_SIZE_B))
    } else if name == "ldindb"@ {
        Some((InstructionType::LoadInd, crate::op::EBPF_IND | crate::class::EBPF_CLS_LD | crate::op::EBPF_SIZE_B))
    } else if name == "ldxb"@ {
        Some((InstructionType::LoadReg, crate::op::EBPF_MEM | crate::class::EBPF_CLS_LDX | crate::op::EBPF_SIZE_B))
    } else if name == "stb"@ {
        Some((InstructionType::StoreImm, crate::op::EBPF_MEM | crate::class::EBPF_CLS_ST | crate::op::EBPF_SIZE_B))
    } else if name == "stxb"@ {
        Some((InstructionType::StoreReg, crate::op::EBPF_MEM | crate::class::EBPF_CLS_STX | crate::op::EBPF_SIZE_B))
    } else if name == "ldabsdw"@ {
        Some((InstructionType::LoadAbs, crate::op::EBPF_ABS | crate::class::EBPF_CLS_LD | crate::op::EBPF_SIZE_DW))
    } else if name == "ldinddw"@ {
        Some((InstructionType::LoadInd, crate::op::EBPF_IND | crate::class::EBPF_CLS_LD | crate::op::EBPF_SIZE_DW))
    } else if name == "ldxdw"@ {
        Some((InstructionType::LoadReg, crate::op::EBPF_MEM | crate::class::EBPF_CLS_LDX | crate::op::EBPF_SIZE_DW))
    } else if name == "stdw"@ {
        Some((InstructionType::StoreImm, crate::op::EBPF_MEM | crate::class::EBPF_CLS_ST | crate::op::EBPF_SIZE_DW))
    } else if name == "stxdw"@ {
        Some((InstructionType::StoreReg, crate::op::EBPF_MEM | crate::class::EBPF_CLS_STX | crate::op::EBPF_SIZE_DW))
    } else if name == "jeq"@ {
        Some((InstructionType::JumpConditional, crate::class::EBPF_CLS_JMP | crate::op::EBPF_JEQ))
    } else if name == "jgt"@ {
        Some((InstructionType::JumpConditional, crate::class::EBPF_CLS_JMP | crate::op::EBPF_JGT))
    } else if name == "jge"@ {
        Some((InstructionType::JumpConditional, crate::class::EBPF_CLS_JMP | crate::op::EBPF_JGE))
    } else if name == "jset"@ {
        Some((InstructionType::JumpConditional, crate::class::EBPF_CLS_JMP | crate::op::EBPF_JSET))
    } else if name == "jne"@ {
        Some((InstructionType::JumpConditional, crate::class::EBPF_CLS_JMP | crate::op::EBPF_JNE))
    } else if name == "jsgt"@ {
        Some((InstructionType::JumpConditional, crate::class::EBPF_CLS_JMP | crate::op::EBPF_JSGT))
    } else if name == "jsge"@ {
        Some((InstructionType::JumpConditional, crate::class::EBPF_CLS_JMP | crate::op::EBPF_JSGE))
    } else if name == "jlt"@ {
        Some((InstructionType::JumpConditional, crate::class::EBPF_CLS_JMP | crate::op::EBPF_JLT))
    } else if name == "jle"@ {
        Some((InstructionType::JumpConditional, crate::class::EBPF_CLS_JMP | crate::op::EBPF_JLE))
    } else if name == "jslt"@ {
        Some((InstructionType::JumpConditional, crate::class::EBPF_CLS_JMP | crate::op::EBPF_JSLT))
    } else if name == "jsle"@ {
        Some((InstructionType::JumpConditional, crate::class::EBPF_CLS_JMP | crate::op::EBPF_JSLE))
    } else if name == "be16"@ {
        Some((InstructionType::Endian(16), crate::op::BE))
    } else if name == "le16"@ {
        Some((InstructionType::Endian(16), crate::op::LE))
    } else if name == "be32"@ {
        Some((InstructionType::Endian(32), crate::op::BE))
    } else if name == "le32"@ {
        Some((InstructionType::Endian(32), crate::op::LE))
    } else if name == "be64"@ {
        Some((InstructionType::Endian(64), crate::op::BE))
    } else if name == "le64"@ {
        Some((InstructionType::Endian(64), crate::op::LE))
    } else {
        None
    }
}

/// Whether two string slices hold the same characters.
fn str_eq(a: &str, b: &str) -> (r: bool)
    ensures
        r == (a@ == b@),
{
    let na = a.unicode_len();
    let nb = b.unicode_len();
    if na != nb {
        proof {
            assert(a@ != b@);
        }
        return false;
    }
    let mut i: usize = 0;
    while i < na
        invariant
            i <= na,
            na == a@.len() == b@.len(),
            forall|k: int| 0 <= k < i ==> a@[k] == b@[k],
        decreases na - i,
    {
        if a.get_char(i) != b.get_char(i) {
            return false;
        }
        i = i + 1;
    }
    proof {
        assert(a@ =~= b@);
    }
    true
}

/// Category and opcode byte of a mnemonic; see `spec_instruction_kind`.
/// This is the two-way opcode table of the assembler.
#[verifier::rlimit(100)]
pub fn instruction_kind(name: &str) -> (r: Option<(InstructionType, u8)>)
    ensures
        r == spec_instruction_kind(name@),
{
    if str_eq(name, "exit") {
        Some((InstructionType::NoOperand, crate::op::EXIT))
    } else if str_eq(name, "ja") {
        Some((InstructionType::JumpUnconditional, crate::op::JA))
    } else if str_eq(name, "call") {
        Some((InstructionType::Call, crate::op::CALL))
    } else if str_eq(name, "lddw") {
        Some((InstructionType::LoadImm, crate::op::LDDW))
    } else if str_eq(name, "neg") {
        Some((InstructionType::AluUnary, crate::op::NEG64))
    } else if str_eq(name, "neg32") {
        Some((InstructionType::AluUnary, crate::op::NEG32))
    } else if str_eq(name, "neg64") {
        Some((InstructionType::AluUnary, crate::op::NEG64))
    } else if str_eq(name, "add") {
        Some((InstructionType::AluBinary, crate::class::EBPF_CLS_ALU64 | crate::op::EBPF_ADD))
    } else if str_eq(name, "add32") {
        Some((InstructionType::AluBinary, crate::class::EBPF_CLS_ALU | crate::op::EBPF_ADD))
    } else if str_eq(name, "add64") {
        Some((InstructionType::AluBinary, crate::class::EBPF_CLS_ALU64 | crate::op::EBPF_ADD))
    } else if str_eq(name, "sub") {
        Some((InstructionType::AluBinary, crate::class::EBPF_CLS_ALU64 | crate::op::EBPF_SUB))
    } else if str_eq(name, "sub32") {
        Some((InstructionType::AluBinary, crate::class::EBPF_CLS_ALU | crate::op::EBPF_SUB))
    } else if str_eq(name, "sub64") {
        Some((InstructionType::AluBinary, crate::class::EBPF_CLS_ALU64 | crate::op::EBPF_SUB))
    } else if str_eq(name, "mul") {
        Some((InstructionType::AluBinary, crate::class::EBPF_CLS_ALU64 | crate::op::EBPF_MUL))
    } else if str_eq(name, "mul32") {
        Some((InstructionType::AluBinary, crate::class::EBPF_CLS_ALU | crate::op::EBPF_MUL))
    } else if str_eq(name, "mul64") {
        Some((InstructionType::AluBinary, crate::class::EBPF_CLS_ALU64 | crate::op::EBPF_MUL))
    } else if str_eq(name, "div") {
        Some((InstructionType::AluBinary, crate::class::EBPF_CLS_ALU64 | crate::op::EBPF_DIV))
    } else if str_eq(name, "div32") {
        Some((InstructionType::AluBinary, crate::class::EBPF_CLS_ALU | crate::op::EBPF_DIV))
    } else if str_eq(name, "div64") {
        Some((InstructionType::AluBinary, crate::class::EBPF_CLS_ALU64 | crate::op::EBPF_DIV))
    } else if str_eq(name, "or") {
        Some((InstructionType::AluBinary, crate::class::EBPF_CLS_ALU64 | crate::op::EBPF_OR))
    } else if str_eq(name, "or32") {
        Some((InstructionType::AluBinary, crate::class::EBPF_CLS_ALU | crate::op::EBPF_OR))
    } else if str_eq(name, "or64") {
        Some((InstructionType::AluBinary, crate::class::EBPF_CLS_ALU64 | crate::op::EBPF_OR))
    } else if str_eq(name, "and") {
        Some((InstructionType::AluBinary, crate::class::EBPF_CLS_ALU64 | crate::op::EBPF_AND))
    } else if str_eq(name, "and32") {
        Some((InstructionType::AluBinary, crate::class::EBPF_CLS_ALU | crate::op::EBPF_AND))
    } else if str_eq(name, "and64") {
        Some((InstructionType::AluBinary, crate::class::EBPF_CLS_ALU64 | crate::op::EBPF_AND))
    } else if str_eq(name, "lsh") {
        Some((InstructionType::AluBinary, crate::class::EBPF_CLS_ALU64 | crate::op::EBPF_LSH))
    } else if str_eq(name, "lsh32") {
        Some((InstructionType::AluBinary, crate::class::EBPF_CLS_ALU | crate::op::EBPF_LSH))
    } else if str_eq(name, "lsh64") {
        Some((InstructionType::AluBinary, crate::class::EBPF_CLS_ALU64 | crate::op::EBPF_LSH))
    } else if str_eq(name, "rsh") {
        Some((InstructionType::AluBinary, crate::class::EBPF_CLS_ALU64 | crate::op::EBPF_RSH))
    } else if str_eq(name, "rsh32") {
        Some((InstructionType::AluBinary, crate::class::EBPF_CLS_ALU | crate::op::EBPF_RSH))
    } else if str_eq(name, "rsh64") {
        Some((InstructionType::AluBinary, crate::class::EBPF_CLS_ALU64 | crate::op::EBPF_RSH))
    } else if str_eq(name, "mod") {
        Some((InstructionType::AluBinary, crate::class::EBPF_CLS_ALU64 | crate::op::EBPF_MOD))
    } else if str_eq(name, "mod32") {
        Some((InstructionType::AluBinary, crate::class::EBPF_CLS_ALU | crate::op::EBPF_MOD))
    } else if str_eq(name, "mod64") {
        Some((InstructionType::AluBinary, crate::class::EBPF_CLS_ALU64 | crate::op::EBPF_MOD))
    } else if str_eq(name, "xor") {
        Some((InstructionType::AluBinary, crate::class::EBPF_CLS_ALU64 | crate::op::EBPF_XOR))
    } else if str_eq(name, "xor32") {
        Some((InstructionType::AluBinary, crate::class::EBPF_CLS_ALU | crate::op::EBPF_XOR))
    } else if str_eq(name, "xor64") {
        Some((InstructionType::AluBinary, crate::class::EBPF_CLS_ALU64 | crate::op::EBPF_XOR))
    } else if str_eq(name, "mov") {
        Some((InstructionType::AluBinary, crate::class::EBPF_CLS_ALU64 | crate::op::EBPF_MOV))
    } else if str_eq(name, "mov32") {
        Some((InstructionType::AluBinary, crate::class::EBPF_CLS_ALU | crate::op::EBPF_MOV))
    } else if str_eq(name, "mov64") {
        Some((InstructionType::AluBinary, crate::class::EBPF_CLS_ALU64 | crate::op::EBPF_MOV))
    } else if str_eq(name, "arsh") {
        Some((InstructionType::AluBinary, crate::class::EBPF_CLS_ALU64 | crate::op::EBPF_ARSH))
    } else if str_eq(name, "arsh32") {
        Some((InstructionType::AluBinary, crate::class::EBPF_CLS_ALU | crate::op::EBPF_ARSH))
    } else if str_eq(name, "arsh64") {
        Some((InstructionType::AluBinary, crate::class::EBPF_CLS_ALU64 | crate::op::EBPF_ARSH))
    } else if str_eq(name, "ldabsw") {
        Some((InstructionType::LoadAbs, crate::op::EBPF_ABS | crate::class::EBPF_CLS_LD | crate::op::EBPF_SIZE_W))
    } else if str_eq(name, "ldindw") {
        Some((InstructionType::LoadInd, crate::op::EBPF_IND | crate::class::EBPF_CLS_LD | crate::op::EBPF_SIZE_W))
    } else if str_eq(name, "ldxw") {
        Some((InstructionType::LoadReg, crate::op::EBPF_MEM | crate::class::EBPF_CLS_LDX | crate::op::EBPF_SIZE_W))
    } else if str_eq(name, "stw") {
        Some((InstructionType::StoreImm, crate::op::EBPF_MEM | crate::class::EBPF_CLS_ST | crate::op::EBPF_SIZE_W))
    } else if str_eq(name, "stxw") {
        Some((InstructionType::StoreReg, crate::op::EBPF_MEM | crate::class::EBPF_CLS_STX | crate::op::EBPF_SIZE_W))
    } else if str_eq(name, "ldabsh") {
        Some((InstructionType::LoadAbs, crate::op::EBPF_ABS | crate::class::EBPF_CLS_LD | crate::op::EBPF_SIZE_H))
    } else if str_eq(name, "ldindh") {
        Some((InstructionType::LoadInd, crate::op::EBPF_IND | crate::class::EBPF_CLS_LD | crate::op::EBPF_SIZE_H))
    } else if str_eq(name, "ldxh") {
        Some((InstructionType::LoadReg, crate::op::EBPF_MEM | crate::class::EBPF_CLS_LDX | crate::op::EBPF_SIZE_H))
    } else if str_eq(name, "sth") {
        Some((InstructionType::StoreImm, crate::op::EBPF_MEM | crate::class::EBPF_CLS_ST | crate::op::EBPF_SIZE_H))
    } else if str_eq(name, "stxh") {
        Some((InstructionType::StoreReg, crate::op::EBPF_MEM | crate::class::EBPF_CLS_STX | crate::op::EBPF_SIZE_H))
    } else if str_eq(name, "ldabsb") {
        Some((InstructionType::LoadAbs, crate::op::EBPF_ABS | crate::class::EBPF_CLS_LD | crate::op::EBPF_SIZE_B))
    } else if str_eq(name, "ldindb") {
        Some((InstructionType::LoadInd, crate::op::EBPF_IND | crate::class::EBPF_CLS_LD | crate::op::EBPF_SIZE_B))
    } else if str_eq(name, "ldxb") {
        Some((InstructionType::LoadReg, crate::op::EBPF_MEM | crate::class::EBPF_CLS_LDX | crate::op::EBPF_SIZE_B))
    } else if str_eq(name, "stb") {
        Some((InstructionType::StoreImm, crate::op::EBPF_MEM | crate::class::EBPF_CLS_ST | crate::op::EBPF_SIZE_B))
    } else if str_eq(name, "stxb") {
        Some((InstructionType::StoreReg, crate::op::EBPF_MEM | crate::class::EBPF_CLS_STX | crate::op::EBPF_SIZE_B))
    } else if str_eq(name, "ldabsdw") {
        Some((InstructionType::LoadAbs, crate::op::EBPF_ABS | crate::class::EBPF_CLS_LD | crate::op::EBPF_SIZE_DW))
    } else if str_eq(name, "ldinddw") {
        Some((InstructionType::LoadInd, crate::op::EBPF_IND | crate::class::EBPF_CLS_LD | crate::op::EBPF_SIZE_DW))
    } else if str_eq(name, "ldxdw") {
        Some((InstructionType::LoadReg, crate::op::EBPF_MEM | crate::class::EBPF_CLS_LDX | crate::op::EBPF_SIZE_DW))
    } else if str_eq(name, "stdw") {
        Some((InstructionType::StoreImm, crate::op::EBPF_MEM | crate::class::EBPF_CLS_ST | crate::op::EBPF_SIZE_DW))
    } else if str_eq(name, "stxdw") {
        Some((InstructionType::StoreReg, crate::op::EBPF_MEM | crate::class::EBPF_CLS_STX | crate::op::EBPF_SIZE_DW))
    } else if str_eq(name, "jeq") {
        Some((InstructionType::JumpConditional, crate::class::EBPF_CLS_JMP | crate::op::EBPF_JEQ))
    } else if str_eq(name, "jgt") {
        Some((InstructionType::JumpConditional, crate::class::EBPF_CLS_JMP | crate::op::EBPF_JGT))
    } else if str_eq(name, "jge") {
        Some((InstructionType::JumpConditional, crate::class::EBPF_CLS_JMP | crate::op::EBPF_JGE))
    } else if str_eq(name, "jset") {
        Some((InstructionType::JumpConditional, crate::class::EBPF_CLS_JMP | crate::op::EBPF_JSET))
    } else if str_eq(name, "jne") {
        Some((InstructionType::JumpConditional, crate::class::EBPF_CLS_JMP | crate::op::EBPF_JNE))
    } else if str_eq(name, "jsgt") {
        Some((InstructionType::JumpConditional, crate::class::EBPF_CLS_JMP | crate::op::EBPF_JSGT))
    } else if str_eq(name, "jsge") {
        Some((InstructionType::JumpConditional, crate::class::EBPF_CLS_JMP | crate::op::EBPF_JSGE))
    } else if str_eq(name, "jlt") {
        Some((InstructionType::JumpConditional, crate::class::EBPF_CLS_JMP | crate::op::EBPF_JLT))
    } else if str_eq(name, "jle") {
        Some((InstructionType::JumpConditional, crate::class::EBPF_CLS_JMP | crate::op::EBPF_JLE))
    } else if str_eq(name, "jslt") {
        Some((InstructionType::JumpConditional, crate::class::EBPF_CLS_JMP | crate::op::EBPF_JSLT))
    } else if str_eq(name, "jsle") {
        Some((InstructionType::JumpConditional, crate::class::EBPF_CLS_JMP | crate::op::EBPF_JSLE))
    } else if str_eq(name, "be16") {
        Some((InstructionType::Endian(16), crate::op::BE))
    } else if str_eq(name, "le16") {
        Some((InstructionType::Endian(16), crate::op::LE))
    } else if str_eq(name, "be32") {
        Some((InstructionType::Endian(32), crate::op::BE))
    } else if str_eq(name, "le32") {
        Some((InstructionType::Endian(32), crate::op::LE))
    } else if str_eq(name, "be64") {
        Some((InstructionType::Endian(64), crate::op::BE))
    } else if str_eq(name, "le64") {
        Some((InstructionType::Endian(64), crate::op::LE))
    } else {
        None
    }
}

/// The three operand slots of an instruction, absent slots filled with
/// `Nil`; more than three operands are refused.
pub open spec fn spec_operands_tuple(operands: Option<Seq<Operand>>) -> Result<
    (Operand, Operand, Operand),
    ParseError,
> {
    match operands {
        None => Ok((Operand::Nil, Operand::Nil, Operand::Nil)),
        Some(v) => {
            if v.len() == 0 {
                Ok((Operand::Nil, Operand::Nil, Operand::Nil))
            } else if v.len() == 1 {
                Ok((v[0], Operand::Nil, Operand::Nil))
            } else if v.len() == 2 {
                Ok((v[0], v[1], Operand::Nil))
            } else if v.len() == 3 {
                Ok((v[0], v[1], v[2]))
            } else {
                Err(ParseError::ParseFailed)
            }
        },
    }
}

/// The three operand slots; see `spec_operands_tuple`.
pub fn operands_tuple(operands: &Option<Vec<Operand>>) -> (r: Result<
    (Operand, Operand, Operand),
    ParseError,
>)
    ensures
        r == spec_operands_tuple(spec_operands_view(*operands)),
{
    match operands {
        None => Ok((Operand::Nil, Operand::Nil, Operand::Nil)),
        Some(v) => {
            if v.len() == 0 {
                Ok((Operand::Nil, Operand::Nil, Operand::Nil))
            } else if v.len() == 1 {
                Ok((v[0], Operand::Nil, Operand::Nil))
            } else if v.len() == 2 {
                Ok((v[0], v[1], Operand::Nil))
            } else if v.len() == 3 {
                Ok((v[0], v[1], v[2]))
            } else {
                Err(ParseError::ParseFailed)
            }
        },
    }
}

/// A record from checked fields: registers in [0, 16), offset a signed
/// 16-bit value, immediate a signed 32-bit value; each failing bound is
/// reported, in this order, as exactly that error.
pub open spec fn spec_insn(op: u8, dst: i64, src: i64, off: i64, imm: i64) -> Result<
    Instruction,
    ParseError,
> {
    if !(0 <= dst < 16) {
        Err(ParseError::InvalidDst(dst))
    } else if !(0 <= src < 16) {
        Err(ParseError::InvalidSrc(src))
    } else if !(-32768 <= off < 32768) {
        Err(ParseError::InvalidOffset(off))
    } else if !(-0x8000_0000 <= imm < 0x8000_0000) {
        Err(ParseError::InvalidImmediate(imm))
    } else {
        Ok(
            Instruction {
                op,
                regs: (dst as u8 | ((src as u8) << 4)) as u8,
                offset: off as i16,
                imm,
            },
        )
    }
}

/// Builds a record from checked fields; see `spec_insn`. Encoding rejects
/// any instruction whose fields fall outside these bounds.
pub fn insn(op: u8, dst: i64, src: i64, off: i64, imm: i64) -> (r: Result<
    Instruction,
    ParseError,
>)
    ensures
        r == spec_insn(op, dst, src, off, imm),
{
    if !(0 <= dst && dst < 16) {
        return Err(ParseError::InvalidDst(dst));
    }
    if !(0 <= src && src < 16) {
        return Err(ParseError::InvalidSrc(src));
    }
    if !(-32768 <= off && off < 32768) {
        return Err(ParseError::InvalidOffset(off));
    }
    if !(-0x8000_0000 <= imm && imm < 0x8000_0000) {
        return Err(ParseError::InvalidImmediate(imm));
    }
    Ok(
        Instruction::new(
            op,
            #[verifier::truncate] (dst as u8) | (#[verifier::truncate] (src as u8) << 4u8),
            #[verifier::truncate] (off as i16),
            imm,
        ),
    )
}

/// A `lddw` record: the full 64-bit immediate, destination checked.
pub open spec fn spec_insn_lddw(dst: i64, imm: i64) -> Result<Instruction, ParseError> {
    if !(0 <= dst < 16) {
        Err(ParseError::InvalidDst(dst))
    } else {
        Ok(Instruction { op: crate::op::LDDW, regs: dst as u8, offset: 0, imm })
    }
}

/// The record of one classified instruction, from the category, the opcode
/// byte and the operand slots. A category given operands of the wrong
/// shape is refused.
pub open spec fn spec_encode_parsed(
    t: InstructionType,
    opc: u8,
    ops: (Operand, Operand, Operand),
) -> Result<Instruction, ParseError> {
    match (t, ops.0, ops.1, ops.2) {
        (
            InstructionType::AluBinary,
            Operand::Register(dst),
            Operand::Register(src),
            Operand::Nil,
        ) => spec_insn(opc | crate::op::EBPF_SRC_REG, dst, src, 0, 0),
        (
            InstructionType::AluBinary,
            Operand::Register(dst),
            Operand::Integer(imm),
            Operand::Nil,
        ) => spec_insn(opc | crate::op::EBPF_SRC_IMM, dst, 0, 0, imm),
        (InstructionType::AluUnary, Operand::Register(dst), Operand::Nil, Operand::Nil) => spec_insn(
            opc,
            dst,
            0,
            0,
            0,
        ),
        (InstructionType::LoadAbs, Operand::Integer(imm), Operand::Nil, Operand::Nil) => spec_insn(
            opc,
            0,
            0,
            0,
            imm,
        ),
        (
            InstructionType::LoadInd,
            Operand::Register(src),
            Operand::Integer(imm),
            Operand::Nil,
        ) => spec_insn(opc, 0, src, 0, imm),
        (
            InstructionType::LoadReg,
            Operand::Register(dst),
            Operand::Memory(src, off),
            Operand::Nil,
        ) => spec_insn(opc, dst, src, off, 0),
        (
            InstructionType::StoreReg,
            Operand::Memory(dst, off),
            Operand::Register(src),
            Operand::Nil,
        ) => spec_insn(opc, dst, src, off, 0),
        (
            InstructionType::StoreImm,
            Operand::Memory(dst, off),
            Operand::Integer(imm),
            Operand::Nil,
        ) => spec_insn(opc, dst, 0, off, imm),
        (InstructionType::NoOperand, Operand::Nil, Operand::Nil, Operand::Nil) => spec_insn(
            opc,
            0,
            0,
            0,
            0,
        ),
        (
            InstructionType::JumpUnconditional,
            Operand::Integer(off),
            Operand::Nil,
            Operand::Nil,
        ) => spec_insn(opc, 0, 0, off, 0),
        (
            InstructionType::JumpConditional,
            Operand::Register(dst),
            Operand::Register(src),
            Operand::Integer(off),
        ) => spec_insn(opc | crate::op::EBPF_SRC_REG, dst, src, off, 0),
        (
            InstructionType::JumpConditional,
            Operand::Register(dst),
            Operand::Integer(imm),
            Operand::Integer(off),
        ) => spec_insn(opc | crate::op::EBPF_SRC_IMM, dst, 0, off, imm),
        (InstructionType::Call, Operand::Integer(imm), Operand::Nil, Operand::Nil) => spec_insn(
            opc,
            0,
            0,
            0,
            imm,
        ),
        (InstructionType::Endian(size), Operand::Register(dst), Operand::Nil, Operand::Nil) => spec_insn(
            opc,
            dst,
            0,
            0,
            size,
        ),
        (
            InstructionType::LoadImm,
            Operand::Register(dst),
            Operand::Integer(imm),
            Operand::Nil,
        ) => spec_insn_lddw(dst, imm),
        _ => Err(ParseError::ParseFailed),
    }
}

/// Builds the record of one classified instruction; see
/// `spec_encode_parsed`.
pub fn encode(t: InstructionType, opc: u8, operands: &Option<Vec<Operand>>) -> (r: Result<
    Instruction,
    ParseError,
>)
    ensures
        ({
            let tuple = spec_operands_tuple(spec_operands_view(*operands));
            match tuple {
                Err(e) => r == Err::<Instruction, ParseError>(e),
                Ok(ops) => r == spec_encode_parsed(t, opc, ops),
            }
        }),
{
    let ops = match operands_tuple(operands) {
        Ok(x) => x,
        Err(e) => {
            return Err(e);
        },
    };
    match (t, ops.0, ops.1, ops.2) {
        (
            InstructionType::AluBinary,
            Operand::Register(dst),
            Operand::Register(src),
            Operand::Nil,
        ) => insn(opc | crate::op::EBPF_SRC_REG, dst, src, 0, 0),
        (
            InstructionType::AluBinary,
            Operand::Register(dst),
            Operand::Integer(imm),
            Operand::Nil,
        ) => insn(opc | crate::op::EBPF_SRC_IMM, dst, 0, 0, imm),
        (InstructionType::AluUnary, Operand::Register(dst), Operand::Nil, Operand::Nil) => insn(
            opc,
            dst,
            0,
            0,
            0,
        ),
        (InstructionType::LoadAbs, Operand::Integer(imm), Operand::Nil, Operand::Nil) => insn(
            opc,
            0,
            0,
            0,
            imm,
        ),
        (
            InstructionType::LoadInd,
            Operand::Register(src),
            Operand::Integer(imm),
            Operand::Nil,
        ) => insn(opc, 0, src, 0, imm),
        (
            InstructionType::LoadReg,
            Operand::Register(dst),
            Operand::Memory(src, off),
            Operand::Nil,
        ) => insn(opc, dst, src, off, 0),
        (
            InstructionType::StoreReg,
            Operand::Memory(dst, off),
            Operand::Register(src),
            Operand::Nil,
        ) => insn(opc, dst, src, off, 0),
        (
            InstructionType::StoreImm,
            Operand::Memory(dst, off),
            Operand::Integer(imm),
            Operand::Nil,
        ) => insn(opc, dst, 0, off, imm),
        (InstructionType::NoOperand, Operand::Nil, Operand::Nil, Operand::Nil) => insn(
            opc,
            0,
            0,
            0,
            0,
        ),
        (
            InstructionType::JumpUnconditional,
            Operand::Integer(off),
            Operand::Nil,
            Operand::Nil,
        ) => insn(opc, 0, 0, off, 0),
        (
            InstructionType::JumpConditional,
            Operand::Register(dst),
            Operand::Register(src),
            Operand::Integer(off),
        ) => insn(opc | crate::op::EBPF_SRC_REG, dst, src, off, 0),
        (
            InstructionType::JumpConditional,
            Operand::Register(dst),
            Operand::Integer(imm),
            Operand::Integer(off),
        ) => insn(opc | crate::op::EBPF_SRC_IMM, dst, 0, off, imm),
        (InstructionType::Call, Operand::Integer(imm), Operand::Nil, Operand::Nil) => insn(
            opc,
            0,
            0,
            0,
            imm,
        ),
        (InstructionType::Endian(size), Operand::Register(dst), Operand::Nil, Operand::Nil) => insn(
            opc,
            dst,
            0,
            0,
            size,
        ),
        (
            InstructionType::LoadImm,
            Operand::Register(dst),
            Operand::Integer(imm),
            Operand::Nil,
        ) => {
            if 0 <= dst && dst < 16 {
                Ok(Instruction::new(crate::op::LDDW, #[verifier::truncate] (dst as u8), 0, imm))
            } else {
                Err(ParseError::InvalidDst(dst))
            }
        },
        _ => Err(ParseError::ParseFailed),
    }
}

/// The records of one parsed instruction: its record, and for `lddw` also
/// the continuation record.
pub open spec fn spec_asm_item(item: (Seq<char>, Option<Seq<Operand>>)) -> Result<
    Seq<Instruction>,
    ParseError,
> {
    match spec_instruction_kind(item.0) {
        None => Err(ParseError::ParseFailed),
        Some((t, opc)) => match spec_operands_tuple(item.1) {
            Err(e) => Err(e),
            Ok(ops) => match spec_encode_parsed(t, opc, ops) {
                Err(e) => Err(e),
                Ok(ins) => {
                    if t is LoadImm {
                        Ok(seq![ins, spec_lddw_cont(ins)])
                    } else {
                        Ok(seq![ins])
                    }
                },
            },
        },
    }
}

/// The records of a parsed program, in order; the first refusal wins.
pub open spec fn spec_asm_items(
    items: Seq<(Seq<char>, Option<Seq<Operand>>)>,
    i: int,
) -> Result<Seq<Instruction>, ParseError>
    decreases items.len() - i,
{
    if !(0 <= i < items.len()) {
        Ok(Seq::empty())
    } else {
        match spec_asm_item(items[i]) {
            Err(e) => Err(e),
            Ok(recs) => match spec_asm_items(items, i + 1) {
                Err(e) => Err(e),
                Ok(rest) => Ok(recs + rest),
            },
        }
    }
}

/// The records of a source text: the whole text must parse, and every
/// instruction must classify and encode.
pub open spec fn spec_assemble(s: Seq<char>) -> Result<Seq<Instruction>, ParseError> {
    let (pos, items) = spec_instructions(s);
    if pos != s.len() {
        Err(ParseError::ParseFailed)
    } else {
        spec_asm_items(items, 0)
    }
}

/// Assembles source text into instruction records; see `spec_assemble`.
/// Fails with `ParseFailed` on any grammar violation or unknown mnemonic,
/// and with the field's own error on an out-of-bounds operand.
pub fn assemble(src: &str) -> (r: Result<Vec<Instruction>, ParseError>)
    requires
        src@.len() <= usize::MAX,
    ensures
        match r {
            Ok(v) => spec_assemble(src@) == Ok::<Seq<Instruction>, ParseError>(v@),
            Err(e) => spec_assemble(src@) == Err::<Seq<Instruction>, ParseError>(e),
        },
{
    let n = src.unicode_len();
    let (pos, parsed) = instructions(src);
    if pos != n {
        return Err(ParseError::ParseFailed);
    }
    let ghost items = crate::asm_parser::spec_parsed_view(parsed@);
    let m = parsed.len();
    let mut out: Vec<Instruction> = Vec::new();
    let mut i: usize = 0;
    while i < m
        invariant
            i <= m,
            m == parsed@.len(),
            items == crate::asm_parser::spec_parsed_view(parsed@),
            items.len() == m,
            n == src@.len(),
            spec_instructions(src@) == (n as int, items),
            match spec_asm_items(items, i as int) {
                Ok(rest) => spec_asm_items(items, 0) == Ok::<Seq<Instruction>, ParseError>(
                    out@ + rest,
                ),
                Err(e) => spec_asm_items(items, 0) == Err::<Seq<Instruction>, ParseError>(e),
            },
        decreases m - i,
    {
        let item = &parsed[i];
        proof {
            assert(items[i as int] == (item.name@, spec_operands_view(item.operands)));
        }
        let kind = instruction_kind(item.name.as_str());
        match kind {
            None => {
                proof {
                    assert(spec_asm_items(items, i as int) == Err::<
                        Seq<Instruction>,
                        ParseError,
                    >(ParseError::ParseFailed));
                }
                return Err(ParseError::ParseFailed);
            },
            Some((t, opc)) => {
                let ghost out0 = out@;
                match encode(t, opc, &item.operands) {
                    Err(e) => {
                        proof {
                            assert(spec_asm_item(items[i as int]) == Err::<
                                Seq<Instruction>,
                                ParseError,
                            >(e));
                            assert(spec_asm_items(items, i as int) == Err::<
                                Seq<Instruction>,
                                ParseError,
                            >(e));
                        }
                        return Err(e);
                    },
                    Ok(ins) => {
                        out.push(ins);
                        let is_lddw = match t {
                            InstructionType::LoadImm => true,
                            _ => false,
                        };
                        if is_lddw {
                            let cont = Instruction::new(
                                0,
                                0,
                                0,
                                (ins.imm as u64 >> 32) as u32 as i32 as i64,
                            );
                            out.push(cont);
                            proof {
                                assert(cont == spec_lddw_cont(ins));
                                assert(out@ =~= out0 + seq![ins, spec_lddw_cont(ins)]);
                            }
                        } else {
                            proof {
                                assert(out@ =~= out0 + seq![ins]);
                            }
                        }
                        proof {
                            let recs = spec_asm_item(items[i as int])->Ok_0;
                            if let Ok(rest1) = spec_asm_items(items, i + 1) {
                                assert(out@ + rest1 =~= out0 + (recs + rest1));
                            }
                        }
                    },
                }
            },
        }
        i = i + 1;
    }
    proof {
        assert(out@ + spec_asm_items(items, m as int)->Ok_0 =~= out@);
    }
    Ok(out)
}


/// No opcode byte of the table but the `lddw` one is the `lddw` opcode,
/// with either source bit.
#[verifier::spinoff_prover]
proof fn lemma_table_ops_not_lddw()
    ensures
        crate::op::EXIT != 0x18,
        (crate::op::EXIT | 0x08) != 0x18,
        (crate::op::EXIT | 0x00) != 0x18,
        crate::op::JA != 0x18,
        (crate::op::JA | 0x08) != 0x18,
        (crate::op::JA | 0x00) != 0x18,
        crate::op::CALL != 0x18,
        (crate::op::CALL | 0x08) != 0x18,
        (crate::op::CALL | 0x00) != 0x18,
        crate::op::NEG64 != 0x18,
        (crate::op::NEG64 | 0x08) != 0x18,
        (crate::op::NEG64 | 0x00) != 0x18,
        crate::op::NEG32 != 0x18,
        (crate::op::NEG32 | 0x08) != 0x18,
        (crate::op::NEG32 | 0x00) != 0x18,
        crate::op::BE != 0x18,
        (crate::op::BE | 0x08) != 0x18,
        (crate::op::BE | 0x00) != 0x18,
        crate::op::LE != 0x18,
        (crate::op::LE | 0x08) != 0x18,
        (crate::op::LE | 0x00) != 0x18,
        (crate::class::EBPF_CLS_ALU64 | crate::op::EBPF_ADD) != 0x18,
        ((crate::class::EBPF_CLS_ALU64 | crate::op::EBPF_ADD) | 0x08) != 0x18,
        ((crate::class::EBPF_CLS_ALU64 | crate::op::EBPF_ADD) | 0x00) != 0x18,
        (crate::class::EBPF_CLS_ALU | crate::op::EBPF_ADD) != 0x18,
        ((crate::class::EBPF_CLS_ALU | crate::op::EBPF_ADD) | 0x08) != 0x18,
        ((crate::class::EBPF_CLS_ALU | crate::op::EBPF_ADD) | 0x00) != 0x18,
        (crate::class::EBPF_CLS_ALU64 | crate::op::EBPF_SUB) != 0x18,
        ((crate::class::EBPF_CLS_ALU64 | crate::op::EBPF_SUB) | 0x08) != 0x18,
        ((crate::class::EBPF_CLS_ALU64 | crate::op::EBPF_SUB) | 0x00) != 0x18,
        (crate::class::EBPF_CLS_ALU | crate::op::EBPF_SUB) != 0x18,
        ((crate::class::EBPF_CLS_ALU | crate::op::EBPF_SUB) | 0x08) != 0x18,
        ((crate::class::EBPF_CLS_ALU | crate::op::EBPF_SUB) | 0x00) != 0x18,
        (crate::class::EBPF_CLS_ALU64 | crate::op::EBPF_MUL) != 0x18,
        ((crate::class::EBPF_CLS_ALU64 | crate::op::EBPF_MUL) | 0x08) != 0x18,
        ((crate::class::EBPF_CLS_ALU64 | crate::op::EBPF_MUL) | 0x00) != 0x18,
        (crate::class::EBPF_CLS_ALU | crate::op::EBPF_MUL) != 0x18,
        ((crate::class::EBPF_CLS_ALU | crate::op::EBPF_MUL) | 0x08) != 0x18,
        ((crate::class::EBPF_CLS_ALU | crate::op::EBPF_MUL) | 0x00) != 0x18,
        (crate::class::EBPF_CLS_ALU64 | crate::op::EBPF_DIV) != 0x18,
        ((crate::class::EBPF_CLS_ALU64 | crate::op::EBPF_DIV) | 0x08) != 0x18,
        ((crate::class::EBPF_CLS_ALU64 | crate::op::EBPF_DIV) | 0x00) != 0x18,
        (crate::class::EBPF_CLS_ALU | crate::op::EBPF_DIV) != 0x18,
        ((crate::class::EBPF_CLS_ALU | crate::op::EBPF_DIV) | 0x08) != 0x18,
        ((crate::class::EBPF_CLS_ALU | crate::op::EBPF_DIV) | 0x00) != 0x18,
        (crate::class::EBPF_CLS_ALU64 | crate::op::EBPF_OR) != 0x18,
        ((crate::class::EBPF_CLS_ALU64 | crate::op::EBPF_OR) | 0x08) != 0x18,
        ((crate::class::EBPF_CLS_ALU64 | crate::op::EBPF_OR) | 0x00) != 0x18,
        (crate::class::EBPF_CLS_ALU | crate::op::EBPF_OR) != 0x18,
        ((crate::class::EBPF_CLS_ALU | crate::op::EBPF_OR) | 0x08) != 0x18,
        ((crate::class::EBPF_CLS_ALU | crate::op::EBPF_OR) | 0x00) != 0x18,
        (crate::class::EBPF_CLS_ALU64 | crate::op::EBPF_AND) != 0x18,
        ((crate::class::EBPF_CLS_ALU64 | crate::op::EBPF_AND) | 0x08) != 0x18,
        ((crate::class::EBPF_CLS_ALU64 | crate::op::EBPF_AND) | 0x00) != 0x18,
        (crate::class::EBPF_CLS_ALU | crate::op::EBPF_AND) != 0x18,
        ((crate::class::EBPF_CLS_ALU | crate::op::EBPF_AND) | 0x08) != 0x18,
        ((crate::class::EBPF_CLS_ALU | crate::op::EBPF_AND) | 0x00) != 0x18,
        (crate::class::EBPF_CLS_ALU64 | crate::op::EBPF_LSH) != 0x18,
        ((crate::class::EBPF_CLS_ALU64 | crate::op::EBPF_LSH) | 0x08) != 0x18,
        ((crate::class::EBPF_CLS_ALU64 | crate::op::EBPF_LSH) | 0x00) != 0x18,
        (crate::class::EBPF_CLS_ALU | crate::op::EBPF_LSH) != 0x18,
        ((crate::class::EBPF_CLS_ALU | crate::op::EBPF_LSH) | 0x08) != 0x18,
        ((crate::class::EBPF_CLS_ALU | crate::op::EBPF_LSH) | 0x00) != 0x18,
        (crate::class::EBPF_CLS_ALU64 | crate::op::EBPF_RSH) != 0x18,
        ((crate::class::EBPF_CLS_ALU64 | crate::op::EBPF_RSH) | 0x08) != 0x18,
        ((crate::class::EBPF_CLS_ALU64 | crate::op::EBPF_RSH) | 0x00) != 0x18,
        (crate::class::EBPF_CLS_ALU | crate::op::EBPF_RSH) != 0x18,
        ((crate::class::EBPF_CLS_ALU | crate::op::EBPF_RSH) | 0x08) != 0x18,
        ((crate::class::EBPF_CLS_ALU | crate::op::EBPF_RSH) | 0x00) != 0x18,
        (crate::class::EBPF_CLS_ALU64 | crate::op::EBPF_MOD) != 0x18,
        ((crate::class::EBPF_CLS_ALU64 | crate::op::EBPF_MOD) | 0x08) != 0x18,
        ((crate::class::EBPF_CLS_ALU64 | crate::op::EBPF_MOD) | 0x00) != 0x18,
        (crate::class::EBPF_CLS_ALU | crate::op::EBPF_MOD) != 0x18,
        ((crate::class::EBPF_CLS_ALU | crate::op::EBPF_MOD) | 0x08) != 0x18,
        ((crate::class::EBPF_CLS_ALU | crate::op::EBPF_MOD) | 0x00) != 0x18,
        (crate::class::EBPF_CLS_ALU64 | crate::op::EBPF_XOR) != 0x18,
        ((crate::class::EBPF_CLS_ALU64 | crate::op::EBPF_XOR) | 0x08) != 0x18,
        ((crate::class::EBPF_CLS_ALU64 | crate::op::EBPF_XOR) | 0x00) != 0x18,
        (crate::class::EBPF_CLS_ALU | crate::op::EBPF_XOR) != 0x18,
        ((crate::class::EBPF_CLS_ALU | crate::op::EBPF_XOR) | 0x08) != 0x18,
        ((crate::class::EBPF_CLS_ALU | crate::op::EBPF_XOR) | 0x00) != 0x18,
        (crate::class::EBPF_CLS_ALU64 | crate::op::EBPF_MOV) != 0x18,
        ((crate::class::EBPF_CLS_ALU64 | crate::op::EBPF_MOV) | 0x08) != 0x18,
        ((crate::class::EBPF_CLS_ALU64 | crate::op::EBPF_MOV) | 0x00) != 0x18,
        (crate::class::EBPF_CLS_ALU | crate::op::EBPF_MOV) != 0x18,
        ((crate::class::EBPF_CLS_ALU | crate::op::EBPF_MOV) | 0x08) != 0x18,
        ((crate::class::EBPF_CLS_ALU | crate::op::EBPF_MOV) | 0x00) != 0x18,
        (crate::class::EBPF_CLS_ALU64 | crate::op::EBPF_ARSH) != 0x18,
        ((crate::class::EBPF_CLS_ALU64 | crate::op::EBPF_ARSH) | 0x08) != 0x18,
        ((crate::class::EBPF_CLS_ALU64 | crate::op::EBPF_ARSH) | 0x00) != 0x18,
        (crate::class::EBPF_CLS_ALU | crate::op::EBPF_ARSH) != 0x18,
        ((crate::class::EBPF_CLS_ALU | crate::op::EBPF_ARSH) | 0x08) != 0x18,
        ((crate::class::EBPF_CLS_ALU | crate::op::EBPF_ARSH) | 0x00) != 0x18,
        (crate::op::EBPF_ABS | crate::class::EBPF_CLS_LD | crate::op::EBPF_SIZE_W) != 0x18,
        ((crate::op::EBPF_ABS | crate::class::EBPF_CLS_LD | crate::op::EBPF_SIZE_W) | 0x08) != 0x18,
        ((crate::op::EBPF_ABS | crate::class::EBPF_CLS_LD | crate::op::EBPF_SIZE_W) | 0x00) != 0x18,
        (crate::op::EBPF_IND | crate::class::EBPF_CLS_LD | crate::op::EBPF_SIZE_W) != 0x18,
        ((crate::op::EBPF_IND | crate::class::EBPF_CLS_LD | crate::op::EBPF_SIZE_W) | 0x08) != 0x18,
        ((crate::op::EBPF_IND | crate::class::EBPF_CLS_LD | crate::op::EBPF_SIZE_W) | 0x00) != 0x18,
        (crate::op::EBPF_MEM | crate::class::EBPF_CLS_LDX | crate::op::EBPF_SIZE_W) != 0x18,
        ((crate::op::EBPF_MEM | crate::class::EBPF_CLS_LDX | crate::op::EBPF_SIZE_W) | 0x08) != 0x18,
        ((crate::op::EBPF_MEM | crate::class::EBPF_CLS_LDX | crate::op::EBPF_SIZE_W) | 0x00) != 0x18,
        (crate::op::EBPF_MEM | crate::class::EBPF_CLS_ST | crate::op::EBPF_SIZE_W) != 0x18,
        ((crate::op::EBPF_MEM | crate::class::EBPF_CLS_ST | crate::op::EBPF_SIZE_W) | 0x08) != 0x18,
        ((crate::op::EBPF_MEM | crate::class::EBPF_CLS_ST | crate::op::EBPF_SIZE_W) | 0x00) != 0x18,
        (crate::op::EBPF_MEM | crate::class::EBPF_CLS_STX | crate::op::EBPF_SIZE_W) != 0x18,
        ((crate::op::EBPF_MEM | crate::class::EBPF_CLS_STX | crate::op::EBPF_SIZE_W) | 0x08) != 0x18,
        ((crate::op::EBPF_MEM | crate::class::EBPF_CLS_STX | crate::op::EBPF_SIZE_W) | 0x00) != 0x18,
        (crate::op::EBPF_ABS | crate::class::EBPF_CLS_LD | crate::op::EBPF_SIZE_H) != 0x18,
        ((crate::op::EBPF_ABS | crate::class::EBPF_CLS_LD | crate::op::EBPF_SIZE_H) | 0x08) != 0x18,
        ((crate::op::EBPF_ABS | crate::class::EBPF_CLS_LD | crate::op::EBPF_SIZE_H) | 0x00) != 0x18,
        (crate::op::EBPF_IND | crate::class::EBPF_CLS_LD | crate::op::EBPF_SIZE_H) != 0x18,
        ((crate::op::EBPF_IND | crate::class::EBPF_CLS_LD | crate::op::EBPF_SIZE_H) | 0x08) != 0x18,
        ((crate::op::EBPF_IND | crate::class::EBPF_CLS_LD | crate::op::EBPF_SIZE_H) | 0x00) != 0x18,
        (crate::op::EBPF_MEM | crate::class::EBPF_CLS_LDX | crate::op::EBPF_SIZE_H) != 0x18,
        ((crate::op::EBPF_MEM | crate::class::EBPF_CLS_LDX | crate::op::EBPF_SIZE_H) | 0x08) != 0x18,
        ((crate::op::EBPF_MEM | crate::class::EBPF_CLS_LDX | crate::op::EBPF_SIZE_H) | 0x00) != 0x18,
        (crate::op::EBPF_MEM | crate::class::EBPF_CLS_ST | crate::op::EBPF_SIZE_H) != 0x18,
        ((crate::op::EBPF_MEM | crate::class::EBPF_CLS_ST | crate::op::EBPF_SIZE_H) | 0x08) != 0x18,
        ((crate::op::EBPF_MEM | crate::class::EBPF_CLS_ST | crate::op::EBPF_SIZE_H) | 0x00) != 0x18,
        (crate::op::EBPF_MEM | crate::class::EBPF_CLS_STX | crate::op::EBPF_SIZE_H) != 0x18,
        ((crate::op::EBPF_MEM | crate::class::EBPF_CLS_STX | crate::op::EBPF_SIZE_H) | 0x08) != 0x18,
        ((crate::op::EBPF_MEM | crate::class::EBPF_CLS_STX | crate::op::EBPF_SIZE_H) | 0x00) != 0x18,
        (crate::op::EBPF_ABS | crate::class::EBPF_CLS_LD | crate::op::EBPF_SIZE_B) != 0x18,
        ((crate::op::EBPF_ABS | crate::class::EBPF_CLS_LD | crate::op::EBPF_SIZE_B) | 0x08) != 0x18,
        ((crate::op::EBPF_ABS | crate::class::EBPF_CLS_LD | crate::op::EBPF_SIZE_B) | 0x00) != 0x18,
        (crate::op::EBPF_IND | crate::class::EBPF_CLS_LD | crate::op::EBPF_SIZE_B) != 0x18,
        ((crate::op::EBPF_IND | crate::class::EBPF_CLS_LD | crate::op::EBPF_SIZE_B) | 0x08) != 0x18,
        ((crate::op::EBPF_IND | crate::class::EBPF_CLS_LD | crate::op::EBPF_SIZE_B) | 0x00) != 0x18,
        (crate::op::EBPF_MEM | crate::class::EBPF_CLS_LDX | crate::op::EBPF_SIZE_B) != 0x18,
        ((crate::op::EBPF_MEM | crate::class::EBPF_CLS_LDX | crate::op::EBPF_SIZE_B) | 0x08) != 0x18,
        ((crate::op::EBPF_MEM | crate::class::EBPF_CLS_LDX | crate::op::EBPF_SIZE_B) | 0x00) != 0x18,
        (crate::op::EBPF_MEM | crate::class::EBPF_CLS_ST | crate::op::EBPF_SIZE_B) != 0x18,
        ((crate::op::EBPF_MEM | crate::class::EBPF_CLS_ST | crate::op::EBPF_SIZE_B) | 0x08) != 0x18,
        ((crate::op::EBPF_MEM | crate::class::EBPF_CLS_ST | crate::op::EBPF_SIZE_B) | 0x00) != 0x18,
        (crate::op::EBPF_MEM | crate::class::EBPF_CLS_STX | crate::op::EBPF_SIZE_B) != 0x18,
        ((crate::op::EBPF_MEM | crate::class::EBPF_CLS_STX | crate::op::EBPF_SIZE_B) | 0x08) != 0x18,
        ((crate::op::EBPF_MEM | crate::class::EBPF_CLS_STX | crate::op::EBPF_SIZE_B) | 0x00) != 0x18,
        (crate::op::EBPF_ABS | crate::class::EBPF_CLS_LD | crate::op::EBPF_SIZE_DW) != 0x18,
        ((crate::op::EBPF_ABS | crate::class::EBPF_CLS_LD | crate::op::EBPF_SIZE_DW) | 0x08) != 0x18,
        ((crate::op::EBPF_ABS | crate::class::EBPF_CLS_LD | crate::op::EBPF_SIZE_DW) | 0x00) != 0x18,
        (crate::op::EBPF_IND | crate::class::EBPF_CLS_LD | crate::op::EBPF_SIZE_DW) != 0x18,
        ((crate::op::EBPF_IND | crate::class::EBPF_CLS_LD | crate::op::EBPF_SIZE_DW) | 0x08) != 0x18,
        ((crate::op::EBPF_IND | crate::class::EBPF_CLS_LD | crate::op::EBPF_SIZE_DW) | 0x00) != 0x18,
        (crate::op::EBPF_MEM | crate::class::EBPF_CLS_LDX | crate::op::EBPF_SIZE_DW) != 0x18,
        ((crate::op::EBPF_MEM | crate::class::EBPF_CLS_LDX | crate::op::EBPF_SIZE_DW) | 0x08) != 0x18,
        ((crate::op::EBPF_MEM | crate::class::EBPF_CLS_LDX | crate::op::EBPF_SIZE_DW) | 0x00) != 0x18,
        (crate::op::EBPF_MEM | crate::class::EBPF_CLS_ST | crate::op::EBPF_SIZE_DW) != 0x18,
        ((crate::op::EBPF_MEM | crate::class::EBPF_CLS_ST | crate::op::EBPF_SIZE_DW) | 0x08) != 0x18,
        ((crate::op::EBPF_MEM | crate::class::EBPF_CLS_ST | crate::op::EBPF_SIZE_DW) | 0x00) != 0x18,
        (crate::op::EBPF_MEM | crate::class::EBPF_CLS_STX | crate::op::EBPF_SIZE_DW) != 0x18,
        ((crate::op::EBPF_MEM | crate::class::EBPF_CLS_STX | crate::op::EBPF_SIZE_DW) | 0x08) != 0x18,
        ((crate::op::EBPF_MEM | crate::class::EBPF_CLS_STX | crate::op::EBPF_SIZE_DW) | 0x00) != 0x18,
        (crate::class::EBPF_CLS_JMP | crate::op::EBPF_JEQ) != 0x18,
        ((crate::class::EBPF_CLS_JMP | crate::op::EBPF_JEQ) | 0x08) != 0x18,
        ((crate::class::EBPF_CLS_JMP | crate::op::EBPF_JEQ) | 0x00) != 0x18,
        (crate::class::EBPF_CLS_JMP | crate::op::EBPF_JGT) != 0x18,
        ((crate::class::EBPF_CLS_JMP | crate::op::EBPF_JGT) | 0x08) != 0x18,
        ((crate::class::EBPF_CLS_JMP | crate::op::EBPF_JGT) | 0x00) != 0x18,
        (crate::class::EBPF_CLS_JMP | crate::op::EBPF_JGE) != 0x18,
        ((crate::class::EBPF_CLS_JMP | crate::op::EBPF_JGE) | 0x08) != 0x18,
        ((crate::class::EBPF_CLS_JMP | crate::op::EBPF_JGE) | 0x00) != 0x18,
        (crate::class::EBPF_CLS_JMP | crate::op::EBPF_JSET) != 0x18,
        ((crate::class::EBPF_CLS_JMP | crate::op::EBPF_JSET) | 0x08) != 0x18,
        ((crate::class::EBPF_CLS_JMP | crate::op::EBPF_JSET) | 0x00) != 0x18,
        (crate::class::EBPF_CLS_JMP | crate::op::EBPF_JNE) != 0x18,
        ((crate::class::EBPF_CLS_JMP | crate::op::EBPF_JNE) | 0x08) != 0x18,
        ((crate::class::EBPF_CLS_JMP | crate::op::EBPF_JNE) | 0x00) != 0x18,
        (crate::class::EBPF_CLS_JMP | crate::op::EBPF_JSGT) != 0x18,
        ((crate::class::EBPF_CLS_JMP | crate::op::EBPF_JSGT) | 0x08) != 0x18,
        ((crate::class::EBPF_CLS_JMP | crate::op::EBPF_JSGT) | 0x00) != 0x18,
        (crate::class::EBPF_CLS_JMP | crate::op::EBPF_JSGE) != 0x18,
        ((crate::class::EBPF_CLS_JMP | crate::op::EBPF_JSGE) | 0x08) != 0x18,
        ((crate::class::EBPF_CLS_JMP | crate::op::EBPF_JSGE) | 0x00) != 0x18,
        (crate::class::EBPF_CLS_JMP | crate::op::EBPF_JLT) != 0x18,
        ((crate::class::EBPF_CLS_JMP | crate::op::EBPF_JLT) | 0x08) != 0x18,
        ((crate::class::EBPF_CLS_JMP | crate::op::EBPF_JLT) | 0x00) != 0x18,
        (crate::class::EBPF_CLS_JMP | crate::op::EBPF_JLE) != 0x18,
        ((crate::class::EBPF_CLS_JMP | crate::op::EBPF_JLE) | 0x08) != 0x18,
        ((crate::class::EBPF_CLS_JMP | crate::op::EBPF_JLE) | 0x00) != 0x18,
        (crate::class::EBPF_CLS_JMP | crate::op::EBPF_JSLT) != 0x18,
        ((crate::class::EBPF_CLS_JMP | crate::op::EBPF_JSLT) | 0x08) != 0x18,
        ((crate::class::EBPF_CLS_JMP | crate::op::EBPF_JSLT) | 0x00) != 0x18,
        (crate::class::EBPF_CLS_JMP | crate::op::EBPF_JSLE) != 0x18,
        ((crate::class::EBPF_CLS_JMP | crate::op::EBPF_JSLE) | 0x08) != 0x18,
        ((crate::class::EBPF_CLS_JMP | crate::op::EBPF_JSLE) | 0x00) != 0x18,
{
    assert({
        &&& crate::op::EXIT != 0x18u8
        &&& (crate::op::EXIT | 0x08u8) != 0x18u8
        &&& (crate::op::EXIT | 0x00u8) != 0x18u8
        &&& crate::op::JA != 0x18u8
        &&& (crate::op::JA | 0x08u8) != 0x18u8
        &&& (crate::op::JA | 0x00u8) != 0x18u8
        &&& crate::op::CALL != 0x18u8
        &&& (crate::op::CALL | 0x08u8) != 0x18u8
        &&& (crate::op::CALL | 0x00u8) != 0x18u8
        &&& crate::op::NEG64 != 0x18u8
        &&& (crate::op::NEG64 | 0x08u8) != 0x18u8
        &&& (crate::op::NEG64 | 0x00u8) != 0x18u8
        &&& crate::op::NEG32 != 0x18u8
        &&& (crate::op::NEG32 | 0x08u8) != 0x18u8
        &&& (crate::op::NEG32 | 0x00u8) != 0x18u8
        &&& crate::op::BE != 0x18u8
        &&& (crate::op::BE | 0x08u8) != 0x18u8
        &&& (crate::op::BE | 0x00u8) != 0x18u8
        &&& crate::op::LE != 0x18u8
        &&& (crate::op::LE | 0x08u8) != 0x18u8
        &&& (crate::op::LE | 0x00u8) != 0x18u8
        &&& (crate::class::EBPF_CLS_ALU64 | crate::op::EBPF_ADD) != 0x18u8
        &&& ((crate::class::EBPF_CLS_ALU64 | crate::op::EBPF_ADD) | 0x08u8) != 0x18u8
        &&& ((crate::class::EBPF_CLS_ALU64 | crate::op::EBPF_ADD) | 0x00u8) != 0x18u8
        &&& (crate::class::EBPF_CLS_ALU | crate::op::EBPF_ADD) != 0x18u8
        &&& ((crate::class::EBPF_CLS_ALU | crate::op::EBPF_ADD) | 0x08u8) != 0x18u8
        &&& ((crate::class::EBPF_CLS_ALU | crate::op::EBPF_ADD) | 0x00u8) != 0x18u8
        &&& (crate::class::EBPF_CLS_ALU64 | crate::op::EBPF_SUB) != 0x18u8
        &&& ((crate::class::EBPF_CLS_ALU64 | crate::op::EBPF_SUB) | 0x08u8) != 0x18u8
        &&& ((crate::class::EBPF_CLS_ALU64 | crate::op::EBPF_SUB) | 0x00u8) != 0x18u8
        &&& (crate::class::EBPF_CLS_ALU | crate::op::EBPF_SUB) != 0x18u8
        &&& ((crate::class::EBPF_CLS_ALU | crate::op::EBPF_SUB) | 0x08u8) != 0x18u8
        &&& ((crate::class::EBPF_CLS_ALU | crate::op::EBPF_SUB) | 0x00u8) != 0x18u8
        &&& (crate::class::EBPF_CLS_ALU64 | crate::op::EBPF_MUL) != 0x18u8
        &&& ((crate::class::EBPF_CLS_ALU64 | crate::op::EBPF_MUL) | 0x08u8) != 0x18u8
        &&& ((crate::class::EBPF_CLS_ALU64 | crate::op::EBPF_MUL) | 0x00u8) != 0x18u8
        &&& (crate::class::EBPF_CLS_ALU | crate::op::EBPF_MUL) != 0x18u8
        &&& ((crate::class::EBPF_CLS_ALU | crate::op::EBPF_MUL) | 0x08u8) != 0x18u8
        &&& ((crate::class::EBPF_CLS_ALU | crate::op::EBPF_MUL) | 0x00u8) != 0x18u8
        &&& (crate::class::EBPF_CLS_ALU64 | crate::op::EBPF_DIV) != 0x18u8
        &&& ((crate::class::EBPF_CLS_ALU64 | crate::op::EBPF_DIV) | 0x08u8) != 0x18u8
        &&& ((crate::class::EBPF_CLS_ALU64 | crate::op::EBPF_DIV) | 0x00u8) != 0x18u8
        &&& (crate::class::EBPF_CLS_ALU | crate::op::EBPF_DIV) != 0x18u8
        &&& ((crate::class::EBPF_CLS_ALU | crate::op::EBPF_DIV) | 0x08u8) != 0x18u8
        &&& ((crate::class::EBPF_CLS_ALU | crate::op::EBPF_DIV) | 0x00u8) != 0x18u8
        &&& (crate::class::EBPF_CLS_ALU64 | crate::op::EBPF_OR) != 0x18u8
        &&& ((crate::class::EBPF_CLS_ALU64 | crate::op::EBPF_OR) | 0x08u8) != 0x18u8
        &&& ((crate::class::EBPF_CLS_ALU64 | crate::op::EBPF_OR) | 0x00u8) != 0x18u8
        &&& (crate::class::EBPF_CLS_ALU | crate::op::EBPF_OR) != 0x18u8
        &&& ((crate::class::EBPF_CLS_ALU | crate::op::EBPF_OR) | 0x08u8) != 0x18u8
        &&& ((crate::class::EBPF_CLS_ALU | crate::op::EBPF_OR) | 0x00u8) != 0x18u8
        &&& (crate::class::EBPF_CLS_ALU64 | crate::op::EBPF_AND) != 0x18u8
        &&& ((crate::class::EBPF_CLS_ALU64 | crate::op::EBPF_AND) | 0x08u8) != 0x18u8
        &&& ((crate::class::EBPF_CLS_ALU64 | crate::op::EBPF_AND) | 0x00u8) != 0x18u8
        &&& (crate::class::EBPF_CLS_ALU | crate::op::EBPF_AND) != 0x18u8
        &&& ((crate::class::EBPF_CLS_ALU | crate::op::EBPF_AND) | 0x08u8) != 0x18u8
        &&& ((crate::class::EBPF_CLS_ALU | crate::op::EBPF_AND) | 0x00u8) != 0x18u8
        &&& (crate::class::EBPF_CLS_ALU64 | crate::op::EBPF_LSH) != 0x18u8
        &&& ((crate::class::EBPF_CLS_ALU64 | crate::op::EBPF_LSH) | 0x08u8) != 0x18u8
        &&& ((crate::class::EBPF_CLS_ALU64 | crate::op::EBPF_LSH) | 0x00u8) != 0x18u8
        &&& (crate::class::EBPF_CLS_ALU | crate::op::EBPF_LSH) != 0x18u8
        &&& ((crate::class::EBPF_CLS_ALU | crate::op::EBPF_LSH) | 0x08u8) != 0x18u8
        &&& ((crate::class::EBPF_CLS_ALU | crate::op::EBPF_LSH) | 0x00u8) != 0x18u8
        &&& (crate::class::EBPF_CLS_ALU64 | crate::op::EBPF_RSH) != 0x18u8
        &&& ((crate::class::EBPF_CLS_ALU64 | crate::op::EBPF_RSH) | 0x08u8) != 0x18u8
        &&& ((crate::class::EBPF_CLS_ALU64 | crate::op::EBPF_RSH) | 0x00u8) != 0x18u8
        &&& (crate::class::EBPF_CLS_ALU | crate::op::EBPF_RSH) != 0x18u8
        &&& ((crate::class::EBPF_CLS_ALU | crate::op::EBPF_RSH) | 0x08u8) != 0x18u8
        &&& ((crate::class::EBPF_CLS_ALU | crate::op::EBPF_RSH) | 0x00u8) != 0x18u8
        &&& (crate::class::EBPF_CLS_ALU64 | crate::op::EBPF_MOD) != 0x18u8
        &&& ((crate::class::EBPF_CLS_ALU64 | crate::op::EBPF_MOD) | 0x08u8) != 0x18u8
        &&& ((crate::class::EBPF_CLS_ALU64 | crate::op::EBPF_MOD) | 0x00u8) != 0x18u8
        &&& (crate::class::EBPF_CLS_ALU | crate::op::EBPF_MOD) != 0x18u8
        &&& ((crate::class::EBPF_CLS_ALU | crate::op::EBPF_MOD) | 0x08u8) != 0x18u8
        &&& ((crate::class::EBPF_CLS_ALU | crate::op::EBPF_MOD) | 0x00u8) != 0x18u8
        &&& (crate::class::EBPF_CLS_ALU64 | crate::op::EBPF_XOR) != 0x18u8
        &&& ((crate::class::EBPF_CLS_ALU64 | crate::op::EBPF_XOR) | 0x08u8) != 0x18u8
        &&& ((crate::class::EBPF_CLS_ALU64 | crate::op::EBPF_XOR) | 0x00u8) != 0x18u8
        &&& (crate::class::EBPF_CLS_ALU | crate::op::EBPF_XOR) != 0x18u8
        &&& ((crate::class::EBPF_CLS_ALU | crate::op::EBPF_XOR) | 0x08u8) != 0x18u8
        &&& ((crate::class::EBPF_CLS_ALU | crate::op::EBPF_XOR) | 0x00u8) != 0x18u8
        &&& (crate::class::EBPF_CLS_ALU64 | crate::op::EBPF_MOV) != 0x18u8
        &&& ((crate::class::EBPF_CLS_ALU64 | crate::op::EBPF_MOV) | 0x08u8) != 0x18u8
        &&& ((crate::class::EBPF_CLS_ALU64 | crate::op::EBPF_MOV) | 0x00u8) != 0x18u8
        &&& (crate::class::EBPF_CLS_ALU | crate::op::EBPF_MOV) != 0x18u8
        &&& ((crate::class::EBPF_CLS_ALU | crate::op::EBPF_MOV) | 0x08u8) != 0x18u8
        &&& ((crate::class::EBPF_CLS_ALU | crate::op::EBPF_MOV) | 0x00u8) != 0x18u8
        &&& (crate::class::EBPF_CLS_ALU64 | crate::op::EBPF_ARSH) != 0x18u8
        &&& ((crate::class::EBPF_CLS_ALU64 | crate::op::EBPF_ARSH) | 0x08u8) != 0x18u8
        &&& ((crate::class::EBPF_CLS_ALU64 | crate::op::EBPF_ARSH) | 0x00u8) != 0x18u8
        &&& (crate::class::EBPF_CLS_ALU | crate::op::EBPF_ARSH) != 0x18u8
        &&& ((crate::class::EBPF_CLS_ALU | crate::op::EBPF_ARSH) | 0x08u8) != 0x18u8
        &&& ((crate::class::EBPF_CLS_ALU | crate::op::EBPF_ARSH) | 0x00u8) != 0x18u8
        &&& (crate::op::EBPF_ABS | crate::class::EBPF_CLS_LD | crate::op::EBPF_SIZE_W) != 0x18u8
        &&& ((crate::op::EBPF_ABS | crate::class::EBPF_CLS_LD | crate::op::EBPF_SIZE_W) | 0x08u8) != 0x18u8
        &&& ((crate::op::EBPF_ABS | crate::class::EBPF_CLS_LD | crate::op::EBPF_SIZE_W) | 0x00u8) != 0x18u8
        &&& (crate::op::EBPF_IND | crate::class::EBPF_CLS_LD | crate::op::EBPF_SIZE_W) != 0x18u8
        &&& ((crate::op::EBPF_IND | crate::class::EBPF_CLS_LD | crate::op::EBPF_SIZE_W) | 0x08u8) != 0x18u8
        &&& ((crate::op::EBPF_IND | crate::class::EBPF_CLS_LD | crate::op::EBPF_SIZE_W) | 0x00u8) != 0x18u8
        &&& (crate::op::EBPF_MEM | crate::class::EBPF_CLS_LDX | crate::op::EBPF_SIZE_W) != 0x18u8
        &&& ((crate::op::EBPF_MEM | crate::class::EBPF_CLS_LDX | crate::op::EBPF_SIZE_W) | 0x08u8) != 0x18u8
        &&& ((crate::op::EBPF_MEM | crate::class::EBPF_CLS_LDX | crate::op::EBPF_SIZE_W) | 0x00u8) != 0x18u8
        &&& (crate::op::EBPF_MEM | crate::class::EBPF_CLS_ST | crate::op::EBPF_SIZE_W) != 0x18u8
        &&& ((crate::op::EBPF_MEM | crate::class::EBPF_CLS_ST | crate::op::EBPF_SIZE_W) | 0x08u8) != 0x18u8
        &&& ((crate::op::EBPF_MEM | crate::class::EBPF_CLS_ST | crate::op::EBPF_SIZE_W) | 0x00u8) != 0x18u8
        &&& (crate::op::EBPF_MEM | crate::class::EBPF_CLS_STX | crate::op::EBPF_SIZE_W) != 0x18u8
        &&& ((crate::op::EBPF_MEM | crate::class::EBPF_CLS_STX | crate::op::EBPF_SIZE_W) | 0x08u8) != 0x18u8
        &&& ((crate::op::EBPF_MEM | crate::class::EBPF_CLS_STX | crate::op::EBPF_SIZE_W) | 0x00u8) != 0x18u8
        &&& (crate::op::EBPF_ABS | crate::class::EBPF_CLS_LD | crate::op::EBPF_SIZE_H) != 0x18u8
        &&& ((crate::op::EBPF_ABS | crate::class::EBPF_CLS_LD | crate::op::EBPF_SIZE_H) | 0x08u8) != 0x18u8
        &&& ((crate::op::EBPF_ABS | crate::class::EBPF_CLS_LD | crate::op::EBPF_SIZE_H) | 0x00u8) != 0x18u8
        &&& (crate::op::EBPF_IND | crate::class::EBPF_CLS_LD | crate::op::EBPF_SIZE_H) != 0x18u8
        &&& ((crate::op::EBPF_IND | crate::class::EBPF_CLS_LD | crate::op::EBPF_SIZE_H) | 0x08u8) != 0x18u8
        &&& ((crate::op::EBPF_IND | crate::class::EBPF_CLS_LD | crate::op::EBPF_SIZE_H) | 0x00u8) != 0x18u8
        &&& (crate::op::EBPF_MEM | crate::class::EBPF_CLS_LDX | crate::op::EBPF_SIZE_H) != 0x18u8
        &&& ((crate::op::EBPF_MEM | crate::class::EBPF_CLS_LDX | crate::op::EBPF_SIZE_H) | 0x08u8) != 0x18u8
        &&& ((crate::op::EBPF_MEM | crate::class::EBPF_CLS_LDX | crate::op::EBPF_SIZE_H) | 0x00u8) != 0x18u8
        &&& (crate::op::EBPF_MEM | crate::class::EBPF_CLS_ST | crate::op::EBPF_SIZE_H) != 0x18u8
        &&& ((crate::op::EBPF_MEM | crate::class::EBPF_CLS_ST | crate::op::EBPF_SIZE_H) | 0x08u8) != 0x18u8
        &&& ((crate::op::EBPF_MEM | crate::class::EBPF_CLS_ST | crate::op::EBPF_SIZE_H) | 0x00u8) != 0x18u8
        &&& (crate::op::EBPF_MEM | crate::class::EBPF_CLS_STX | crate::op::EBPF_SIZE_H) != 0x18u8
        &&& ((crate::op::EBPF_MEM | crate::class::EBPF_CLS_STX | crate::op::EBPF_SIZE_H) | 0x08u8) != 0x18u8
        &&& ((crate::op::EBPF_MEM | crate::class::EBPF_CLS_STX | crate::op::EBPF_SIZE_H) | 0x00u8) != 0x18u8
        &&& (crate::op::EBPF_ABS | crate::class::EBPF_CLS_LD | crate::op::EBPF_SIZE_B) != 0x18u8
        &&& ((crate::op::EBPF_ABS | crate::class::EBPF_CLS_LD | crate::op::EBPF_SIZE_B) | 0x08u8) != 0x18u8
        &&& ((crate::op::EBPF_ABS | crate::class::EBPF_CLS_LD | crate::op::EBPF_SIZE_B) | 0x00u8) != 0x18u8
        &&& (crate::op::EBPF_IND | crate::class::EBPF_CLS_LD | crate::op::EBPF_SIZE_B) != 0x18u8
        &&& ((crate::op::EBPF_IND | crate::class::EBPF_CLS_LD | crate::op::EBPF_SIZE_B) | 0x08u8) != 0x18u8
        &&& ((crate::op::EBPF_IND | crate::class::EBPF_CLS_LD | crate::op::EBPF_SIZE_B) | 0x00u8) != 0x18u8
        &&& (crate::op::EBPF_MEM | crate::class::EBPF_CLS_LDX | crate::op::EBPF_SIZE_B) != 0x18u8
        &&& ((crate::op::EBPF_MEM | crate::class::EBPF_CLS_LDX | crate::op::EBPF_SIZE_B) | 0x08u8) != 0x18u8
        &&& ((crate::op::EBPF_MEM | crate::class::EBPF_CLS_LDX | crate::op::EBPF_SIZE_B) | 0x00u8) != 0x18u8
        &&& (crate::op::EBPF_MEM | crate::class::EBPF_CLS_ST | crate::op::EBPF_SIZE_B) != 0x18u8
        &&& ((crate::op::EBPF_MEM | crate::class::EBPF_CLS_ST | crate::op::EBPF_SIZE_B) | 0x08u8) != 0x18u8
        &&& ((crate::op::EBPF_MEM | crate::class::EBPF_CLS_ST | crate::op::EBPF_SIZE_B) | 0x00u8) != 0x18u8
        &&& (crate::op::EBPF_MEM | crate::class::EBPF_CLS_STX | crate::op::EBPF_SIZE_B) != 0x18u8
        &&& ((crate::op::EBPF_MEM | crate::class::EBPF_CLS_STX | crate::op::EBPF_SIZE_B) | 0x08u8) != 0x18u8
        &&& ((crate::op::EBPF_MEM | crate::class::EBPF_CLS_STX | crate::op::EBPF_SIZE_B) | 0x00u8) != 0x18u8
        &&& (crate::op::EBPF_ABS | crate::class::EBPF_CLS_LD | crate::op::EBPF_SIZE_DW) != 0x18u8
        &&& ((crate::op::EBPF_ABS | crate::class::EBPF_CLS_LD | crate::op::EBPF_SIZE_DW) | 0x08u8) != 0x18u8
        &&& ((crate::op::EBPF_ABS | crate::class::EBPF_CLS_LD | crate::op::EBPF_SIZE_DW) | 0x00u8) != 0x18u8
        &&& (crate::op::EBPF_IND | crate::class::EBPF_CLS_LD | crate::op::EBPF_SIZE_DW) != 0x18u8
        &&& ((crate::op::EBPF_IND | crate::class::EBPF_CLS_LD | crate::op::EBPF_SIZE_DW) | 0x08u8) != 0x18u8
        &&& ((crate::op::EBPF_IND | crate::class::EBPF_CLS_LD | crate::op::EBPF_SIZE_DW) | 0x00u8) != 0x18u8
        &&& (crate::op::EBPF_MEM | crate::class::EBPF_CLS_LDX | crate::op::EBPF_SIZE_DW) != 0x18u8
        &&& ((crate::op::EBPF_MEM | crate::class::EBPF_CLS_LDX | crate::op::EBPF_SIZE_DW) | 0x08u8) != 0x18u8
        &&& ((crate::op::EBPF_MEM | crate::class::EBPF_CLS_LDX | crate::op::EBPF_SIZE_DW) | 0x00u8) != 0x18u8
        &&& (crate::op::EBPF_MEM | crate::class::EBPF_CLS_ST | crate::op::EBPF_SIZE_DW) != 0x18u8
        &&& ((crate::op::EBPF_MEM | crate::class::EBPF_CLS_ST | crate::op::EBPF_SIZE_DW) | 0x08u8) != 0x18u8
        &&& ((crate::op::EBPF_MEM | crate::class::EBPF_CLS_ST | crate::op::EBPF_SIZE_DW) | 0x00u8) != 0x18u8
        &&& (crate::op::EBPF_MEM | crate::class::EBPF_CLS_STX | crate::op::EBPF_SIZE_DW) != 0x18u8
        &&& ((crate::op::EBPF_MEM | crate::class::EBPF_CLS_STX | crate::op::EBPF_SIZE_DW) | 0x08u8) != 0x18u8
        &&& ((crate::op::EBPF_MEM | crate::class::EBPF_CLS_STX | crate::op::EBPF_SIZE_DW) | 0x00u8) != 0x18u8
        &&& (crate::class::EBPF_CLS_JMP | crate::op::EBPF_JEQ) != 0x18u8
        &&& ((crate::class::EBPF_CLS_JMP | crate::op::EBPF_JEQ) | 0x08u8) != 0x18u8
        &&& ((crate::class::EBPF_CLS_JMP | crate::op::EBPF_JEQ) | 0x00u8) != 0x18u8
        &&& (crate::class::EBPF_CLS_JMP | crate::op::EBPF_JGT) != 0x18u8
        &&& ((crate::class::EBPF_CLS_JMP | crate::op::EBPF_JGT) | 0x08u8) != 0x18u8
        &&& ((crate::class::EBPF_CLS_JMP | crate::op::EBPF_JGT) | 0x00u8) != 0x18u8
        &&& (crate::class::EBPF_CLS_JMP | crate::op::EBPF_JGE) != 0x18u8
        &&& ((crate::class::EBPF_CLS_JMP | crate::op::EBPF_JGE) | 0x08u8) != 0x18u8
        &&& ((crate::class::EBPF_CLS_JMP | crate::op::EBPF_JGE) | 0x00u8) != 0x18u8
        &&& (crate::class::EBPF_CLS_JMP | crate::op::EBPF_JSET) != 0x18u8
        &&& ((crate::class::EBPF_CLS_JMP | crate::op::EBPF_JSET) | 0x08u8) != 0x18u8
        &&& ((crate::class::EBPF_CLS_JMP | crate::op::EBPF_JSET) | 0x00u8) != 0x18u8
        &&& (crate::class::EBPF_CLS_JMP | crate::op::EBPF_JNE) != 0x18u8
        &&& ((crate::class::EBPF_CLS_JMP | crate::op::EBPF_JNE) | 0x08u8) != 0x18u8
        &&& ((crate::class::EBPF_CLS_JMP | crate::op::EBPF_JNE) | 0x00u8) != 0x18u8
        &&& (crate::class::EBPF_CLS_JMP | crate::op::EBPF_JSGT) != 0x18u8
        &&& ((crate::class::EBPF_CLS_JMP | crate::op::EBPF_JSGT) | 0x08u8) != 0x18u8
        &&& ((crate::class::EBPF_CLS_JMP | crate::op::EBPF_JSGT) | 0x00u8) != 0x18u8
        &&& (crate::class::EBPF_CLS_JMP | crate::op::EBPF_JSGE) != 0x18u8
        &&& ((crate::class::EBPF_CLS_JMP | crate::op::EBPF_JSGE) | 0x08u8) != 0x18u8
        &&& ((crate::class::EBPF_CLS_JMP | crate::op::EBPF_JSGE) | 0x00u8) != 0x18u8
        &&& (crate::class::EBPF_CLS_JMP | crate::op::EBPF_JLT) != 0x18u8
        &&& ((crate::class::EBPF_CLS_JMP | crate::op::EBPF_JLT) | 0x08u8) != 0x18u8
        &&& ((crate::class::EBPF_CLS_JMP | crate::op::EBPF_JLT) | 0x00u8) != 0x18u8
        &&& (crate::class::EBPF_CLS_JMP | crate::op::EBPF_JLE) != 0x18u8
        &&& ((crate::class::EBPF_CLS_JMP | crate::op::EBPF_JLE) | 0x08u8) != 0x18u8
        &&& ((crate::class::EBPF_CLS_JMP | crate::op::EBPF_JLE) | 0x00u8) != 0x18u8
        &&& (crate::class::EBPF_CLS_JMP | crate::op::EBPF_JSLT) != 0x18u8
        &&& ((crate::class::EBPF_CLS_JMP | crate::op::EBPF_JSLT) | 0x08u8) != 0x18u8
        &&& ((crate::class::EBPF_CLS_JMP | crate::op::EBPF_JSLT) | 0x00u8) != 0x18u8
        &&& (crate::class::EBPF_CLS_JMP | crate::op::EBPF_JSLE) != 0x18u8
        &&& ((crate::class::EBPF_CLS_JMP | crate::op::EBPF_JSLE) | 0x08u8) != 0x18u8
        &&& ((crate::class::EBPF_CLS_JMP | crate::op::EBPF_JSLE) | 0x00u8) != 0x18u8
    }) by (bit_vector);
}

/// A scan that accepts a suffix accepts it after any well-formed prefix
/// block.
proof fn lemma_check_shift(pre: Seq<Instruction>, rest: Seq<Instruction>, j: int)
    requires
        j >= 0,
    ensures
        spec_encode_check(pre + rest, pre.len() + j) == spec_encode_check(rest, j),
    decreases rest.len() - j,
{
    let s = pre + rest;
    let n = pre.len() as int;
    if j >= rest.len() {
    } else if rest[j].op == crate::op::LDDW {
        if j + 1 < rest.len() && rest[j + 1] == spec_lddw_cont(rest[j]) {
            lemma_check_shift(pre, rest, j + 2);
        }
    } else if wf_imm(rest[j]) {
        lemma_check_shift(pre, rest, j + 1);
    }
}

/// The records of one assembled instruction pack: a single record with an
/// in-range immediate and an opcode of its own, or the `lddw` pair.
#[verifier::spinoff_prover]
#[verifier::rlimit(100)]
proof fn lemma_item_packs(item: (Seq<char>, Option<Seq<Operand>>), rest: Seq<Instruction>)
    requires
        spec_asm_item(item) is Ok,
        spec_encode_check(rest, 0) is None,
    ensures
        spec_encode_check(spec_asm_item(item)->Ok_0 + rest, 0) is None,
{
    lemma_table_ops_not_lddw();
    crate::op::lemma_opcode_values();
    let recs = spec_asm_item(item)->Ok_0;
    let (t, opc) = spec_instruction_kind(item.0)->0;
    let ops = spec_operands_tuple(item.1)->Ok_0;
    let ins = spec_encode_parsed(t, opc, ops)->Ok_0;
    if t is LoadImm {
        assert(recs == seq![ins, spec_lddw_cont(ins)]);
        let s = recs + rest;
        assert(s[0] == ins && s[1] == spec_lddw_cont(ins));
        assert(ins.op == crate::op::LDDW);
        lemma_check_shift(recs, rest, 0);
        assert(spec_encode_check(s, 2) is None);
    } else {
        assert(recs == seq![ins]);
        let s = recs + rest;
        assert(s[0] == ins);
        assert(ins.op != crate::op::LDDW && wf_imm(ins));
        lemma_check_shift(recs, rest, 0);
        assert(spec_encode_check(s, 1) is None);
    }
}

/// Every assembled program packs, and the packed form decodes back to the
/// same records: the textual, record and packed forms of an assembled
/// program agree.
pub proof fn lemma_assemble_packs(s: Seq<char>)
    requires
        spec_assemble(s) is Ok,
    ensures
        spec_encodable(spec_assemble(s)->Ok_0),
        crate::instruction::spec_decode(
            crate::instruction::spec_encode(spec_assemble(s)->Ok_0, 0),
            0,
        ) == Some(spec_assemble(s)->Ok_0),
{
    let (pos, items) = spec_instructions(s);
    lemma_items_pack(items, 0);
    crate::instruction::lemma_decode_encode(spec_assemble(s)->Ok_0);
}

/// The records of assembled instructions `i..` pack.
proof fn lemma_items_pack(items: Seq<(Seq<char>, Option<Seq<Operand>>)>, i: int)
    requires
        spec_asm_items(items, i) is Ok,
    ensures
        spec_encode_check(spec_asm_items(items, i)->Ok_0, 0) is None,
    decreases items.len() - i,
{
    if !(0 <= i < items.len()) {
    } else {
        lemma_items_pack(items, i + 1);
        lemma_item_packs(items[i], spec_asm_items(items, i + 1)->Ok_0);
    }
}


/// The textual round trip on one record: the canonical text of the `exit`
/// record assembles back to exactly that record.
pub proof fn lemma_exit_text_round_trip()
    ensures
        spec_assemble(crate::disassemble::spec_format_from(
            seq![Instruction { op: crate::op::EXIT, regs: 0, offset: 0, imm: 0 }],
            0,
        )->0) == Ok::<Seq<Instruction>, ParseError>(
            seq![Instruction { op: crate::op::EXIT, regs: 0, offset: 0, imm: 0 }],
        ),
{
    crate::op::lemma_opcode_values();
    reveal_strlit("exit");
    let ins = Instruction { op: crate::op::EXIT, regs: 0, offset: 0, imm: 0 };
    let recs = seq![ins];
    assert(ins.spec_class() == 5 && ins.spec_dst_reg() == 0 && ins.spec_src_reg() == 0) by {
        assert(0x95u8 & 0x7 == 5 && 0u8 & 0xf == 0 && (0u8 >> 4) & 0xf == 0) by (bit_vector);
    };
    let text = crate::disassemble::spec_format_from(recs, 0)->0;
    assert(crate::disassemble::spec_format_from(recs, 1) == Some(Seq::<char>::empty()));
    assert(text == "exit"@);
    assert(text.len() == 4);
    // the word scans as one identifier
    assert(crate::asm_parser::spec_is_alnum(text[0]));
    assert(crate::asm_parser::spec_is_alnum(text[1]));
    assert(crate::asm_parser::spec_is_alnum(text[2]));
    assert(crate::asm_parser::spec_is_alnum(text[3]));
    assert(crate::asm_parser::spec_scan_alnum(text, 4) == 4);
    assert(crate::asm_parser::spec_scan_alnum(text, 3) == 4);
    assert(crate::asm_parser::spec_scan_alnum(text, 2) == 4);
    assert(crate::asm_parser::spec_scan_alnum(text, 1) == 4);
    assert(crate::asm_parser::spec_scan_alnum(text, 0) == 4);
    assert(!crate::asm_parser::spec_is_space(text[0]));
    assert(crate::asm_parser::spec_scan_space(text, 0) == 0);
    assert(crate::asm_parser::spec_scan_space(text, 4) == 4);
    assert(crate::asm_parser::spec_ident(text, 0) == Some((4int, text.subrange(0, 4))));
    assert(text.subrange(0, 4) =~= "exit"@);
    // no operands follow
    assert(crate::asm_parser::spec_register(text, 4) is None);
    assert(crate::asm_parser::spec_integer(text, 4) is None);
    assert(crate::asm_parser::spec_memory(text, 4) is None);
    assert(crate::asm_parser::spec_operand(text, 4) is None);
    assert(crate::asm_parser::spec_operands(text, 4) is None);
    assert(crate::asm_parser::spec_instruction(text, 0) == Some(
        (4int, ("exit"@, None::<Seq<Operand>>)),
    ));
    let items = crate::asm_parser::spec_instructions(text).1;
    assert(crate::asm_parser::spec_instructions_rest(text, 4, seq![("exit"@, None::<Seq<Operand>>)])
        == (4int, seq![("exit"@, None::<Seq<Operand>>)]));
    assert(crate::asm_parser::spec_instructions(text) == (
        4int,
        seq![("exit"@, None::<Seq<Operand>>)],
    ));
    // the mnemonic classifies and re-encodes to the record
    assert(spec_instruction_kind("exit"@) == Some((InstructionType::NoOperand, crate::op::EXIT)));
    assert(0u8 | (0u8 << 4) == 0) by (bit_vector);
    assert(spec_asm_item(("exit"@, None::<Seq<Operand>>)) == Ok::<Seq<Instruction>, ParseError>(
        seq![ins],
    ));
    assert(spec_asm_items(items, 1) == Ok::<Seq<Instruction>, ParseError>(Seq::empty()));
    assert(seq![ins] + Seq::<Instruction>::empty() =~= recs);
}

} // verus!
