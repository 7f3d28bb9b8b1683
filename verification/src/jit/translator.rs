//! The translator from bytecode to x86-64: a per-opcode code generator over
//! the emitter, with two-pass branch handling. Guest registers r0..r10 map
//! onto fixed host registers; every branch is emitted with a placeholder
//! displacement and patched once the position of every instruction is known.
//!
//! The output follows the interpreter's conventions: unsigned division with
//! a zero check that branches to a trampoline returning the all-ones
//! sentinel, sign-extending loads, hardware-masked shift counts. `call`,
//! the byte-order opcodes, and opcodes no table row defines are refused.
use vstd::prelude::*;

use crate::instruction::Instruction;
use crate::instruction::Instructions;
use crate::jit::buffer::buf_bytes;
use crate::jit::buffer::buf_len;
use crate::jit::buffer::buf_to_vec;
use crate::jit::spec_alu32_bytes;
use crate::jit::spec_alu32_imm8_bytes;
use crate::jit::spec_alu32_imm32_bytes;
use crate::jit::spec_alu64_bytes;
use crate::jit::spec_alu64_imm8_bytes;
use crate::jit::spec_alu64_imm32_bytes;
use crate::jit::spec_cmp_bytes;
use crate::jit::spec_cmp_imm32_bytes;
use crate::jit::spec_jmp_bytes;
use crate::jit::spec_load_imm_bytes;
use crate::jit::spec_load_reg_bytes;
use crate::jit::spec_mov_bytes;
use crate::jit::spec_pop_bytes;
use crate::jit::spec_push_bytes;
use crate::jit::spec_store_imm_bytes;
use crate::jit::spec_store_reg_bytes;
use crate::jit::Jmp;
use crate::jit::JitBuilder;
use crate::jit::OperandSize;
use crate::op;
use crate::runtime::spec_splice;
use crate::runtime::STACK_SIZE;
use vstd::bytes::spec_u32_to_le_bytes;

verus! {

pub const RAX: u8 = 0;
pub const RCX: u8 = 1;
pub const RDX: u8 = 2;
pub const RBX: u8 = 3;
pub const RSP: u8 = 4;
pub const RBP: u8 = 5;
pub const RSI: u8 = 6;
pub const RDI: u8 = 7;
pub const R8: u8 = 8;
pub const R9: u8 = 9;
pub const R10: u8 = 10;
pub const R11: u8 = 11;
pub const R12: u8 = 12;
pub const R13: u8 = 13;
pub const R14: u8 = 14;
pub const R15: u8 = 15;

/// Synthetic branch target: the shared epilogue.
pub const TARGET_PC_EXIT: i32 = -0x4000_0001;

/// Synthetic branch target: the division-by-zero trampoline, which returns
/// the all-ones sentinel.
pub const TARGET_PC_DIV_BY_ZERO: i32 = -0x4000_0002;

/// Why the translator refused a program.
#[derive(Debug, Clone, Copy, PartialEq, Eq, Structural)]
pub enum JitError {
    /// An opcode the translator does not emit: `call`, the byte-order
    /// conversions, an undefined opcode, or a register above r10.
    Unsupported,
    /// A jump offset leaving the program.
    BadJumpTarget,
    /// A program too large to address with 32-bit displacements.
    TooLarge,
}

/// The host register backing each guest register r0..r10.
pub open spec fn spec_map_register(r: int) -> u8 {
    if r == 0 {
        RAX
    } else if r == 1 {
        RDI
    } else if r == 2 {
        RSI
    } else if r == 3 {
        RDX
    } else if r == 4 {
        R9
    } else if r == 5 {
        R8
    } else if r == 6 {
        RBX
    } else if r == 7 {
        R13
    } else if r == 8 {
        R14
    } else if r == 9 {
        R15
    } else {
        RBP
    }
}

/// The host register backing a guest register; see `spec_map_register`.
pub fn map_register(r: u8) -> (h: u8)
    requires
        r <= 10,
    ensures
        h == spec_map_register(r as int),
{
    if r == 0 {
        RAX
    } else if r == 1 {
        RDI
    } else if r == 2 {
        RSI
    } else if r == 3 {
        RDX
    } else if r == 4 {
        R9
    } else if r == 5 {
        R8
    } else if r == 6 {
        RBX
    } else if r == 7 {
        R13
    } else if r == 8 {
        R14
    } else if r == 9 {
        R15
    } else {
        RBP
    }
}

/// The condition byte of the `jcc` instruction matching a condition nibble
/// (`jset` and `jne` both branch on "not zero" after their test).
pub open spec fn spec_jcc_code(nib: u8) -> u8 {
    if nib == op::EBPF_JEQ {
        0x84
    } else if nib == op::EBPF_JGT {
        0x87
    } else if nib == op::EBPF_JGE {
        0x83
    } else if nib == op::EBPF_JSET {
        0x85
    } else if nib == op::EBPF_JNE {
        0x85
    } else if nib == op::EBPF_JSGT {
        0x8f
    } else if nib == op::EBPF_JSGE {
        0x8d
    } else if nib == op::EBPF_JLT {
        0x82
    } else if nib == op::EBPF_JLE {
        0x86
    } else if nib == op::EBPF_JSLT {
        0x8c
    } else {
        0x8e
    }
}

/// The function prologue: save the frame, give r10 the incoming stack
/// pointer, reserve the guest stack, save the callee-saved registers that
/// back r6..r9. r1 is backed by RDI, where the first host argument already
/// sits.
pub open spec fn spec_prologue() -> Seq<u8> {
    spec_push_bytes(RBP) + spec_mov_bytes(RSP, RBP) + spec_alu64_imm32_bytes(
        0x81,
        5,
        RSP,
        STACK_SIZE as i32,
    ) + spec_push_bytes(RBX) + spec_push_bytes(R13) + spec_push_bytes(R14) + spec_push_bytes(R15)
}

/// The shared epilogue: restore the callee-saved registers and return.
pub open spec fn spec_epilogue() -> Seq<u8> {
    spec_pop_bytes(R15) + spec_pop_bytes(R14) + spec_pop_bytes(R13) + spec_pop_bytes(RBX) + seq![
        0xc9u8,
        0xc3u8,
    ]
}

/// The division-by-zero trampoline: load the all-ones sentinel into the
/// result register, then restore the callee-saved registers and return. It
/// stands after the shared epilogue, so a terminal `exit` can fall through
/// into that epilogue and the output still ends in a return.
pub open spec fn spec_div0_block() -> Seq<u8> {
    spec_load_imm_bytes(RAX, -1i64) + spec_epilogue()
}

/// The multiply/divide/modulo lowering: an optional zero check branching to
/// the trampoline, a save of RAX/RDX around the x86 one-operand multiply or
/// divide on RCX, and moves placing the dividend and the result.
pub open spec fn spec_muldivmod_chunk(
    is64: bool,
    nib: u8,
    imm_form: bool,
    imm: i32,
    src: u8,
    dst: u8,
) -> (Seq<u8>, Seq<(int, int)>) {
    let is_mul = nib == op::EBPF_MUL;
    let is_div = nib == op::EBPF_DIV;
    let is_mod = nib == op::EBPF_MOD;
    if (is_div || is_mod) && imm_form && imm == 0 {
        (spec_jmp_bytes(), seq![(1int, TARGET_PC_DIV_BY_ZERO as int)])
    } else {
        let check: Seq<u8> = if (is_div || is_mod) && !imm_form {
            if is64 {
                spec_alu64_bytes(0x85, src, src)
            } else {
                spec_alu32_bytes(0x85, src, src)
            }
        } else {
            Seq::empty()
        };
        let js: Seq<(int, int)> = if (is_div || is_mod) && !imm_form {
            seq![((check.len() + 2) as int, TARGET_PC_DIV_BY_ZERO as int)]
        } else {
            Seq::empty()
        };
        let check_all: Seq<u8> = if (is_div || is_mod) && !imm_form {
            check + seq![0x0fu8, 0x84u8, 0u8, 0u8, 0u8, 0u8]
        } else {
            Seq::empty()
        };
        let p1: Seq<u8> = if dst != RAX {
            spec_push_bytes(RAX)
        } else {
            Seq::empty()
        };
        let p2: Seq<u8> = if dst != RDX {
            spec_push_bytes(RDX)
        } else {
            Seq::empty()
        };
        let opnd: Seq<u8> = if imm_form {
            spec_load_imm_bytes(RCX, imm as i64)
        } else {
            spec_mov_bytes(src, RCX)
        };
        let movdst = spec_mov_bytes(dst, RAX);
        let zero: Seq<u8> = if is_div || is_mod {
            spec_alu32_bytes(0x31, RDX, RDX)
        } else {
            Seq::empty()
        };
        let rex: Seq<u8> = if is64 {
            seq![0x48u8]
        } else {
            Seq::empty()
        };
        let theop = spec_alu32_bytes(
            0xf7,
            if is_mul {
                4u8
            } else {
                6u8
            },
            RCX,
        );
        let tail1: Seq<u8> = if dst != RDX {
            (if is_mod {
                spec_mov_bytes(RDX, dst)
            } else {
                Seq::empty()
            }) + spec_pop_bytes(RDX)
        } else {
            Seq::empty()
        };
        let tail2: Seq<u8> = if dst != RAX {
            (if is_div || is_mul {
                spec_mov_bytes(RAX, dst)
            } else {
                Seq::empty()
            }) + spec_pop_bytes(RAX)
        } else {
            Seq::empty()
        };
        (check_all + p1 + p2 + opnd + movdst + zero + rex + theop + tail1 + tail2, js)
    }
}

/// The code of one ALU instruction (both widths), or `None` where the
/// translator refuses the opcode.
pub open spec fn spec_alu_chunk(ins: Instruction, is64: bool, src: u8, dst: u8) -> Option<
    (Seq<u8>, Seq<(int, int)>),
> {
    let nib = ins.op & 0xf0;
    let imm32 = ins.imm as i32;
    let imm_form = ins.spec_source() == 0;
    if ins.op == op::NEG32 || ins.op == op::NEG64 {
        if is64 {
            Some((spec_alu64_bytes(0xf7, 3, dst), Seq::empty()))
        } else {
            Some((spec_alu32_bytes(0xf7, 3, dst), Seq::empty()))
        }
    } else if nib == op::EBPF_NEG || nib == op::EBPF_END || nib == 0xe0 || nib == 0xf0 {
        None
    } else if nib == op::EBPF_MUL || nib == op::EBPF_DIV || nib == op::EBPF_MOD {
        Some(spec_muldivmod_chunk(is64, nib, imm_form, imm32, src, dst))
    } else if nib == op::EBPF_LSH || nib == op::EBPF_RSH || nib == op::EBPF_ARSH {
        let subop: u8 = if nib == op::EBPF_LSH {
            4
        } else if nib == op::EBPF_RSH {
            5
        } else {
            7
        };
        if imm_form {
            if is64 {
                Some((spec_alu64_imm8_bytes(0xc1, subop, dst, ins.imm as u8), Seq::empty()))
            } else {
                Some((spec_alu32_imm8_bytes(0xc1, subop, dst, ins.imm as u8), Seq::empty()))
            }
        } else {
            if is64 {
                Some((spec_mov_bytes(src, RCX) + spec_alu64_bytes(0xd3, subop, dst), Seq::empty()))
            } else {
                Some((spec_mov_bytes(src, RCX) + spec_alu32_bytes(0xd3, subop, dst), Seq::empty()))
            }
        }
    } else if nib == op::EBPF_MOV {
        if imm_form {
            if is64 {
                Some((spec_alu64_imm32_bytes(0xc7, 0, dst, imm32), Seq::empty()))
            } else {
                Some((spec_alu32_imm32_bytes(0xc7, 0, dst, imm32), Seq::empty()))
            }
        } else {
            if is64 {
                Some((spec_mov_bytes(src, dst), Seq::empty()))
            } else {
                Some((spec_alu32_bytes(0x89, src, dst), Seq::empty()))
            }
        }
    } else {
        // add, sub, or, and, xor
        let subop: u8 = if nib == op::EBPF_ADD {
            0
        } else if nib == op::EBPF_OR {
            1
        } else if nib == op::EBPF_AND {
            4
        } else if nib == op::EBPF_SUB {
            5
        } else {
            6
        };
        let regop: u8 = if nib == op::EBPF_ADD {
            0x01
        } else if nib == op::EBPF_OR {
            0x09
        } else if nib == op::EBPF_AND {
            0x21
        } else if nib == op::EBPF_SUB {
            0x29
        } else {
            0x31
        };
        if imm_form {
            if is64 {
                Some((spec_alu64_imm32_bytes(0x81, subop, dst, imm32), Seq::empty()))
            } else {
                Some((spec_alu32_imm32_bytes(0x81, subop, dst, imm32), Seq::empty()))
            }
        } else {
            if is64 {
                Some((spec_alu64_bytes(regop, src, dst), Seq::empty()))
            } else {
                Some((spec_alu32_bytes(regop, src, dst), Seq::empty()))
            }
        }
    }
}

/// Memory access width of a memory opcode, as an emitter operand size.
pub open spec fn spec_opsize_of(op_byte: u8) -> OperandSize {
    if op_byte & 0x18 == op::EBPF_SIZE_W {
        OperandSize::S32
    } else if op_byte & 0x18 == op::EBPF_SIZE_H {
        OperandSize::S16
    } else if op_byte & 0x18 == op::EBPF_SIZE_B {
        OperandSize::S8
    } else {
        OperandSize::S64
    }
}

/// The code and pending branches of the instruction at index `idx`:
/// placeholder bytes where a displacement will be patched, and the branch
/// positions relative to the chunk start with their targets (a slot index,
/// or a negative synthetic target). `None` where the translator refuses.
pub open spec fn spec_chunk(ins: Instruction, idx: int, last: bool) -> Option<(Seq<u8>, Seq<(int, int)>)> {
    let dst_g = ins.spec_dst_reg() as int;
    let src_g = ins.spec_src_reg() as int;
    if dst_g > 10 || src_g > 10 {
        None
    } else {
        let dst = spec_map_register(dst_g);
        let src = spec_map_register(src_g);
        let cls = ins.op & 0x7;
        let nib = ins.op & 0xf0;
        let imm32 = ins.imm as i32;
        let off32 = ins.offset as i32;
        let target = idx + 1 + ins.offset;
        if ins.op == 0 {
            // the continuation slot of a `lddw` pair: no code of its own
            Some((Seq::<u8>::empty(), Seq::empty()))
        } else if ins.op == op::LDDW {
            Some((spec_load_imm_bytes(dst, ins.imm), Seq::empty()))
        } else if cls == crate::class::EBPF_CLS_ALU {
            spec_alu_chunk(ins, false, src, dst)
        } else if cls == crate::class::EBPF_CLS_ALU64 {
            spec_alu_chunk(ins, true, src, dst)
        } else if cls == crate::class::EBPF_CLS_JMP {
            if ins.op == op::JA {
                Some((spec_jmp_bytes(), seq![(1int, target)]))
            } else if ins.op == op::EXIT {
                if last {
                    // the terminal exit falls through into the epilogue
                    Some((Seq::empty(), Seq::empty()))
                } else {
                    Some((spec_jmp_bytes(), seq![(1int, TARGET_PC_EXIT as int)]))
                }
            } else if ins.op == op::CALL {
                None
            } else if crate::runtime::spec_jump_taken(nib, 0, 0) is Some {
                let cmp: Seq<u8> = if nib == op::EBPF_JSET {
                    if ins.spec_source() == 1 {
                        spec_alu64_bytes(0x85, src, dst)
                    } else {
                        spec_alu64_imm32_bytes(0xf7, 0, dst, imm32)
                    }
                } else {
                    if ins.spec_source() == 1 {
                        spec_cmp_bytes(src, dst)
                    } else {
                        spec_cmp_imm32_bytes(dst, imm32)
                    }
                };
                Some(
                    (
                        cmp + seq![0x0fu8, spec_jcc_code(nib), 0u8, 0u8, 0u8, 0u8],
                        seq![((cmp.len() + 2) as int, target)],
                    ),
                )
            } else {
                None
            }
        } else if cls == crate::class::EBPF_CLS_LDX {
            if ins.op & 0xe0 != op::EBPF_MODE_MEM {
                None
            } else {
                Some((spec_load_reg_bytes(spec_opsize_of(ins.op), src, dst, off32), Seq::empty()))
            }
        } else if cls == crate::class::EBPF_CLS_ST {
            if ins.op & 0xe0 != op::EBPF_MODE_MEM {
                None
            } else {
                Some(
                    (spec_store_imm_bytes(spec_opsize_of(ins.op), dst, off32, imm32), Seq::empty()),
                )
            }
        } else if cls == crate::class::EBPF_CLS_STX {
            if ins.op & 0xe0 != op::EBPF_MODE_MEM {
                None
            } else {
                Some(
                    (spec_store_reg_bytes(spec_opsize_of(ins.op), src, dst, off32), Seq::empty()),
                )
            }
        } else {
            None
        }
    }
}

/// Whether a branch target is addressable: a synthetic target or a slot of
/// the program.
pub open spec fn spec_valid_target(t: int, n: int) -> bool {
    t == TARGET_PC_EXIT as int || t == TARGET_PC_DIV_BY_ZERO as int || (0 <= t < n)
}

/// Branch positions shifted from chunk-relative to absolute.
pub open spec fn spec_shift_jumps(js: Seq<(int, int)>, loc: int) -> Seq<(int, int)> {
    Seq::new(js.len(), |k: int| (js[k].0 + loc, js[k].1))
}

/// The code of instructions `i..`, emitted starting at offset `loc`: their
/// concatenated chunks, the start offset of each, and every pending branch
/// with its absolute placeholder position. The first refusal wins:
/// `Unsupported` for a refused opcode, `BadJumpTarget` for a branch leaving
/// the program.
pub open spec fn spec_body(prog: Seq<Instruction>, i: int, loc: int) -> Result<
    (Seq<u8>, Seq<int>, Seq<(int, int)>),
    JitError,
>
    decreases prog.len() - i,
{
    if !(0 <= i < prog.len()) {
        Ok((Seq::empty(), Seq::empty(), Seq::empty()))
    } else {
        match spec_chunk(prog[i], i, i == prog.len() - 1) {
            None => Err(JitError::Unsupported),
            Some((bytes, js)) => {
                if exists|k: int| 0 <= k < js.len() && !spec_valid_target(#[trigger] js[k].1, prog.len() as int) {
                    Err(JitError::BadJumpTarget)
                } else {
                    match spec_body(prog, i + 1, loc + bytes.len()) {
                        Err(e) => Err(e),
                        Ok((rb, rpl, rjs)) => Ok(
                            (bytes + rb, seq![loc] + rpl, spec_shift_jumps(js, loc) + rjs),
                        ),
                    }
                }
            },
        }
    }
}

/// The code after the patch pass: each pending branch's placeholder is
/// overwritten with the little-endian 32-bit displacement from the byte
/// after the placeholder to its target location.
pub open spec fn spec_patch(
    code: Seq<u8>,
    jumps: Seq<(int, int)>,
    pc_locs: Seq<int>,
    exit_loc: int,
    div0_loc: int,
) -> Seq<u8>
    decreases jumps.len(),
{
    if jumps.len() == 0 {
        code
    } else {
        let at = jumps[0].0;
        let t = jumps[0].1;
        let tloc = if t == TARGET_PC_EXIT as int {
            exit_loc
        } else if t == TARGET_PC_DIV_BY_ZERO as int {
            div0_loc
        } else {
            pc_locs[t]
        };
        let rel = tloc - at - 4;
        spec_patch(
            spec_splice(code, at, spec_u32_to_le_bytes(rel as i32 as u32)),
            jumps.drop_first(),
            pc_locs,
            exit_loc,
            div0_loc,
        )
    }
}

/// What the translator produces for a program: prologue, per-instruction
/// body, shared epilogue and division-by-zero trampoline, with every branch
/// patched; or the first reason for refusal.
pub open spec fn spec_translate(prog: Seq<Instruction>) -> Result<Seq<u8>, JitError> {
    if prog.len() > 0x100000 {
        Err(JitError::TooLarge)
    } else {
        match spec_body(prog, 0, spec_prologue().len() as int) {
            Err(e) => Err(e),
            Ok((body, pc_locs, jumps)) => {
                let exit_loc = spec_prologue().len() + body.len();
                let div0_loc = exit_loc + spec_epilogue().len();
                let code = spec_prologue() + body + spec_epilogue() + spec_div0_block();
                if code.len() > 0x7fff_0000 {
                    Err(JitError::TooLarge)
                } else {
                    Ok(spec_patch(code, jumps, pc_locs, exit_loc as int, div0_loc as int))
                }
            },
        }
    }
}


/// Absolute positions and targets of recorded relocations.
pub open spec fn jmps_view(s: Seq<Jmp>) -> Seq<(int, int)> {
    Seq::new(s.len(), |k: int| (s[k].offset_location as int, s[k].target_pc as int))
}

/// Start offsets of emitted instructions.
pub open spec fn locs_view(s: Seq<usize>) -> Seq<int> {
    Seq::new(s.len(), |k: int| s[k] as int)
}

/// The operation nibble of an opcode byte is one of sixteen values.
proof fn lemma_nib_enum(o: u8)
    ensures
        o & 0xf0 == 0x00 || o & 0xf0 == 0x10 || o & 0xf0 == 0x20 || o & 0xf0 == 0x30 || o & 0xf0
            == 0x40 || o & 0xf0 == 0x50 || o & 0xf0 == 0x60 || o & 0xf0 == 0x70 || o & 0xf0
            == 0x80 || o & 0xf0 == 0x90 || o & 0xf0 == 0xa0 || o & 0xf0 == 0xb0 || o & 0xf0
            == 0xc0 || o & 0xf0 == 0xd0 || o & 0xf0 == 0xe0 || o & 0xf0 == 0xf0,
        o & 0x7 != 0 ==> o != 0x18,
        o & 0x7 != 0 ==> o != 0,
{
    assert((o & 0xf0 == 0x00 || o & 0xf0 == 0x10 || o & 0xf0 == 0x20 || o & 0xf0 == 0x30 || o
        & 0xf0 == 0x40 || o & 0xf0 == 0x50 || o & 0xf0 == 0x60 || o & 0xf0 == 0x70 || o & 0xf0
        == 0x80 || o & 0xf0 == 0x90 || o & 0xf0 == 0xa0 || o & 0xf0 == 0xb0 || o & 0xf0 == 0xc0
        || o & 0xf0 == 0xd0 || o & 0xf0 == 0xe0 || o & 0xf0 == 0xf0) && (o & 0x7 != 0 ==> o
        != 0x18) && (o & 0x7 != 0 ==> o != 0)) by (bit_vector);
}

/// Bounds of the multiply/divide/modulo lowering.
#[verifier::spinoff_prover]
#[verifier::rlimit(100)]
proof fn lemma_muldivmod_len(is64: bool, nib: u8, imm_form: bool, imm: i32, src: u8, dst: u8)
    ensures
        ({
            let (b, js) = spec_muldivmod_chunk(is64, nib, imm_form, imm, src, dst);
            0 < b.len() <= 64 && js.len() <= 1 && (forall|k: int|
                0 <= k < js.len() ==> 0 <= #[trigger] js[k].0 && js[k].0 + 4 <= b.len())
        }),
{
    crate::jit::lemma_emitter_lens();
    vstd::bytes::lemma_auto_spec_u32_to_from_le_bytes();
}

/// Every chunk is short: at most 64 bytes, with at most one relocation,
/// whose placeholder lies inside the chunk.
#[verifier::spinoff_prover]
#[verifier::rlimit(100)]
proof fn lemma_chunk_len(ins: Instruction, idx: int, last: bool)
    ensures
        match spec_chunk(ins, idx, last) {
            Some((b, js)) => b.len() <= 64 && js.len() <= 1 && (forall|k: int|
                0 <= k < js.len() ==> 0 <= #[trigger] js[k].0 && js[k].0 + 4 <= b.len()),
            None => true,
        },
{
    crate::jit::lemma_emitter_lens();
    let nib = ins.op & 0xf0;
    let imm32 = ins.imm as i32;
    let imm_form = ins.spec_source() == 0;
    if nib == op::EBPF_MUL || nib == op::EBPF_DIV || nib == op::EBPF_MOD {
        let dst_g = ins.spec_dst_reg() as int;
        let src_g = ins.spec_src_reg() as int;
        lemma_muldivmod_len(false, nib, imm_form, imm32, spec_map_register(src_g), spec_map_register(dst_g));
        lemma_muldivmod_len(true, nib, imm_form, imm32, spec_map_register(src_g), spec_map_register(dst_g));
    }
}

/// The prologue and epilogue are short.
proof fn lemma_frame_len()
    ensures
        0 < spec_prologue().len() <= 32,
        0 < spec_epilogue().len() <= 16,
        7 <= spec_div0_block().len() <= 32,
{
    vstd::bytes::lemma_auto_spec_u32_to_from_le_bytes();
    vstd::bytes::lemma_auto_spec_u64_to_from_le_bytes();
}

/// Two appends reassociate.
proof fn lemma_app_assoc(a: Seq<u8>, b: Seq<u8>, c: Seq<u8>)
    ensures
        (a + b) + c == a + (b + c),
{
    assert((a + b) + c =~= a + (b + c));
}

/// Emits the multiply/divide/modulo lowering; see `spec_muldivmod_chunk`.
#[verifier::rlimit(100)]
#[verifier::spinoff_prover]
fn muldivmod(b: &mut JitBuilder, is64: bool, nib: u8, imm_form: bool, imm: i32, src: u8, dst: u8)
    requires
        nib == op::EBPF_MUL || nib == op::EBPF_DIV || nib == op::EBPF_MOD,
        buf_bytes(old(b).buffer).len() + 64 <= usize::MAX,
    ensures
        ({
            let (bytes, js) = spec_muldivmod_chunk(is64, nib, imm_form, imm, src, dst);
            &&& buf_bytes(final(b).buffer) == buf_bytes(old(b).buffer) + bytes
            &&& jmps_view(final(b).jumps@) == jmps_view(old(b).jumps@) + spec_shift_jumps(
                js,
                buf_bytes(old(b).buffer).len() as int,
            )
            &&& final(b).pc_locations@ == old(b).pc_locations@
            &&& final(b).exit_location == old(b).exit_location
        }),
{
    proof {
        crate::jit::lemma_emitter_lens();
    }
    let is_mul = nib == op::EBPF_MUL;
    let is_div = nib == op::EBPF_DIV;
    let is_mod = nib == op::EBPF_MOD;
    let ghost pre = buf_bytes(b.buffer);
    let ghost base = buf_bytes(b.buffer).len() as int;
    if (is_div || is_mod) && imm_form && imm == 0 {
        b.emit_jmp(TARGET_PC_DIV_BY_ZERO);
        proof {
            let (bytes, js) = spec_muldivmod_chunk(is64, nib, imm_form, imm, src, dst);
            assert(buf_bytes(b.buffer) =~= pre + bytes);
            assert(jmps_view(b.jumps@) =~= jmps_view(old(b).jumps@) + spec_shift_jumps(js, base));
        }
        return ;
    }
    let ghost mut acc: Seq<u8> = Seq::empty();
    proof {
        assert(pre + acc =~= pre);
    }
    if (is_div || is_mod) && !imm_form {
        if is64 {
            b.emit_alu64(0x85, src, src);
        } else {
            b.emit_alu32(0x85, src, src);
        }
        proof {
            lemma_app_assoc(
                pre,
                acc,
                if is64 {
                    spec_alu64_bytes(0x85, src, src)
                } else {
                    spec_alu32_bytes(0x85, src, src)
                },
            );
            acc = acc + if is64 {
                spec_alu64_bytes(0x85, src, src)
            } else {
                spec_alu32_bytes(0x85, src, src)
            };
        }
        b.emit_jcc(0x84, TARGET_PC_DIV_BY_ZERO);
        proof {
            lemma_app_assoc(pre, acc + seq![0x0fu8, 0x84u8], seq![0u8, 0u8, 0u8, 0u8]);
            lemma_app_assoc(pre, acc, seq![0x0fu8, 0x84u8]);
            acc = acc + seq![0x0fu8, 0x84u8, 0u8, 0u8, 0u8, 0u8];
            assert(buf_bytes(b.buffer) =~= pre + acc);
        }
    }
    if dst != RAX {
        b.emit_push(RAX);
        proof {
            lemma_app_assoc(pre, acc, spec_push_bytes(RAX));
            acc = acc + spec_push_bytes(RAX);
        }
    }
    if dst != RDX {
        b.emit_push(RDX);
        proof {
            lemma_app_assoc(pre, acc, spec_push_bytes(RDX));
            acc = acc + spec_push_bytes(RDX);
        }
    }
    if imm_form {
        b.emit_load_imm(RCX, imm as i64);
        proof {
            lemma_app_assoc(pre, acc, spec_load_imm_bytes(RCX, imm as i64));
            acc = acc + spec_load_imm_bytes(RCX, imm as i64);
        }
    } else {
        b.emit_mov(src, RCX);
        proof {
            lemma_app_assoc(pre, acc, spec_mov_bytes(src, RCX));
            acc = acc + spec_mov_bytes(src, RCX);
        }
    }
    b.emit_mov(dst, RAX);
    proof {
        lemma_app_assoc(pre, acc, spec_mov_bytes(dst, RAX));
        acc = acc + spec_mov_bytes(dst, RAX);
    }
    if is_div || is_mod {
        b.emit_alu32(0x31, RDX, RDX);
        proof {
            lemma_app_assoc(pre, acc, spec_alu32_bytes(0x31, RDX, RDX));
            acc = acc + spec_alu32_bytes(0x31, RDX, RDX);
        }
    }
    if is64 {
        b.emit1(0x48);
        proof {
            lemma_app_assoc(pre, acc, seq![0x48u8]);
            acc = acc + seq![0x48u8];
        }
    }
    if is_mul {
        b.emit_alu32(0xf7, 4, RCX);
        proof {
            lemma_app_assoc(pre, acc, spec_alu32_bytes(0xf7, 4, RCX));
            acc = acc + spec_alu32_bytes(0xf7, 4, RCX);
        }
    } else {
        b.emit_alu32(0xf7, 6, RCX);
        proof {
            lemma_app_assoc(pre, acc, spec_alu32_bytes(0xf7, 6, RCX));
            acc = acc + spec_alu32_bytes(0xf7, 6, RCX);
        }
    }
    if dst != RDX {
        if is_mod {
            b.emit_mov(RDX, dst);
            proof {
                lemma_app_assoc(pre, acc, spec_mov_bytes(RDX, dst));
                acc = acc + spec_mov_bytes(RDX, dst);
            }
        }
        b.emit_pop(RDX);
        proof {
            lemma_app_assoc(pre, acc, spec_pop_bytes(RDX));
            acc = acc + spec_pop_bytes(RDX);
        }
    }
    if dst != RAX {
        if is_div || is_mul {
            b.emit_mov(RAX, dst);
            proof {
                lemma_app_assoc(pre, acc, spec_mov_bytes(RAX, dst));
                acc = acc + spec_mov_bytes(RAX, dst);
            }
        }
        b.emit_pop(RAX);
        proof {
            lemma_app_assoc(pre, acc, spec_pop_bytes(RAX));
            acc = acc + spec_pop_bytes(RAX);
        }
    }
    proof {
        let (bytes, js) = spec_muldivmod_chunk(is64, nib, imm_form, imm, src, dst);
        assert(acc =~= bytes);
        assert(jmps_view(b.jumps@) =~= jmps_view(old(b).jumps@) + spec_shift_jumps(js, base));
    }
}

/// The condition byte of the `jcc` matching a condition nibble; see
/// `spec_jcc_code`.
fn jcc_code(nib: u8) -> (r: u8)
    ensures
        r == spec_jcc_code(nib),
{
    if nib == op::EBPF_JEQ {
        0x84
    } else if nib == op::EBPF_JGT {
        0x87
    } else if nib == op::EBPF_JGE {
        0x83
    } else if nib == op::EBPF_JSET {
        0x85
    } else if nib == op::EBPF_JNE {
        0x85
    } else if nib == op::EBPF_JSGT {
        0x8f
    } else if nib == op::EBPF_JSGE {
        0x8d
    } else if nib == op::EBPF_JLT {
        0x82
    } else if nib == op::EBPF_JLE {
        0x86
    } else if nib == op::EBPF_JSLT {
        0x8c
    } else {
        0x8e
    }
}

/// Memory access width as an emitter operand size; see `spec_opsize_of`.
fn opsize_of(op_byte: u8) -> (r: OperandSize)
    ensures
        r == spec_opsize_of(op_byte),
{
    if op_byte & 0x18 == op::EBPF_SIZE_W {
        OperandSize::S32
    } else if op_byte & 0x18 == op::EBPF_SIZE_H {
        OperandSize::S16
    } else if op_byte & 0x18 == op::EBPF_SIZE_B {
        OperandSize::S8
    } else {
        OperandSize::S64
    }
}

/// Overwrites the 4 bytes at `at` with the little-endian value.
fn patch4(code: &mut Vec<u8>, at: usize, val: u32)
    requires
        at + 4 <= old(code)@.len(),
    ensures
        final(code)@ == spec_splice(old(code)@, at as int, spec_u32_to_le_bytes(val)),
        final(code)@.len() == old(code)@.len(),
{
    let bs = vstd::bytes::u32_to_le_bytes(val);
    let n = code.len();
    code.set(at, bs[0]);
    code.set(at + 1, bs[1]);
    code.set(at + 2, bs[2]);
    code.set(at + 3, bs[3]);
    proof {
        assert(code@ =~= spec_splice(old(code)@, at as int, spec_u32_to_le_bytes(val)));
    }
}


/// Emits one ALU instruction (both widths); the chunk of `spec_chunk` for
/// it. Leaves everything untouched when it refuses.
#[verifier::rlimit(100)]
#[verifier::spinoff_prover]
fn emit_alu_one(b: &mut JitBuilder, ins: Instruction, idx: usize, last: bool, src: u8, dst: u8) -> (r:
    Result<(), JitError>)
    requires
        ins.spec_class() == crate::class::EBPF_CLS_ALU || ins.spec_class()
            == crate::class::EBPF_CLS_ALU64,
        ins.spec_dst_reg() <= 10,
        ins.spec_src_reg() <= 10,
        dst == spec_map_register(ins.spec_dst_reg() as int),
        src == spec_map_register(ins.spec_src_reg() as int),
        buf_bytes(old(b).buffer).len() + 64 <= usize::MAX,
    ensures
        match r {
            Ok(()) => ({
                let c = spec_chunk(ins, idx as int, last);
                &&& c is Some
                &&& buf_bytes(final(b).buffer) == buf_bytes(old(b).buffer) + c->Some_0.0
                &&& jmps_view(final(b).jumps@) == jmps_view(old(b).jumps@) + spec_shift_jumps(
                    c->Some_0.1,
                    buf_bytes(old(b).buffer).len() as int,
                )
                &&& (forall|k: int|
                    0 <= k < c->Some_0.1.len() ==> (#[trigger] c->Some_0.1[k]).1
                        == TARGET_PC_DIV_BY_ZERO as int)
                &&& final(b).pc_locations@ == old(b).pc_locations@
                &&& final(b).exit_location == old(b).exit_location
            }),
            Err(e) => e == JitError::Unsupported && spec_chunk(ins, idx as int, last) is None
                && *final(b) == *old(b),
        },
{
    proof {
        lemma_nib_enum(ins.op);
        crate::op::lemma_opcode_values();
    }
    let is64 = ins.class() == crate::class::EBPF_CLS_ALU64;
    let nib = ins.op & 0xf0;
    let imm_form = ins.source() == 0;
    let imm32 = #[verifier::truncate] (ins.imm as i32);
    let ghost code0 = buf_bytes(b.buffer);
    if ins.op == op::NEG32 || ins.op == op::NEG64 {
        if is64 {
            b.emit_alu64(0xf7, 3, dst);
        } else {
            b.emit_alu32(0xf7, 3, dst);
        }
    } else if nib == op::EBPF_NEG || nib == op::EBPF_END || nib == 0xe0 || nib == 0xf0 {
        proof {
            assert(spec_chunk(ins, idx as int, last) is None);
        }
        return Err(JitError::Unsupported);
    } else if nib == op::EBPF_MUL || nib == op::EBPF_DIV || nib == op::EBPF_MOD {
        muldivmod(b, is64, nib, imm_form, imm32, src, dst);
        proof {
            let c = spec_chunk(ins, idx as int, last);
            assert(c == Some(spec_muldivmod_chunk(is64, nib, imm_form, imm32, src, dst)));
            lemma_muldivmod_len(is64, nib, imm_form, imm32, src, dst);
        }
        return Ok(());
    } else if nib == op::EBPF_LSH || nib == op::EBPF_RSH || nib == op::EBPF_ARSH {
        let subop: u8 = if nib == op::EBPF_LSH {
            4
        } else if nib == op::EBPF_RSH {
            5
        } else {
            7
        };
        if imm_form {
            if is64 {
                b.emit_alu64_imm8(0xc1, subop, dst, #[verifier::truncate] (ins.imm as u8));
            } else {
                b.emit_alu32_imm8(0xc1, subop, dst, #[verifier::truncate] (ins.imm as u8));
            }
        } else {
            b.emit_mov(src, RCX);
            if is64 {
                b.emit_alu64(0xd3, subop, dst);
            } else {
                b.emit_alu32(0xd3, subop, dst);
            }
            proof {
                assert(buf_bytes(b.buffer) =~= code0 + (spec_mov_bytes(src, RCX) + (if is64 {
                    spec_alu64_bytes(0xd3, subop, dst)
                } else {
                    spec_alu32_bytes(0xd3, subop, dst)
                })));
            }
        }
    } else if nib == op::EBPF_MOV {
        if imm_form {
            if is64 {
                b.emit_alu64_imm32(0xc7, 0, dst, imm32);
            } else {
                b.emit_alu32_imm32(0xc7, 0, dst, imm32);
            }
        } else {
            if is64 {
                b.emit_mov(src, dst);
            } else {
                b.emit_alu32(0x89, src, dst);
            }
        }
    } else {
        let subop: u8 = if nib == op::EBPF_ADD {
            0
        } else if nib == op::EBPF_OR {
            1
        } else if nib == op::EBPF_AND {
            4
        } else if nib == op::EBPF_SUB {
            5
        } else {
            6
        };
        let regop: u8 = if nib == op::EBPF_ADD {
            0x01
        } else if nib == op::EBPF_OR {
            0x09
        } else if nib == op::EBPF_AND {
            0x21
        } else if nib == op::EBPF_SUB {
            0x29
        } else {
            0x31
        };
        if imm_form {
            if is64 {
                b.emit_alu64_imm32(0x81, subop, dst, imm32);
            } else {
                b.emit_alu32_imm32(0x81, subop, dst, imm32);
            }
        } else {
            if is64 {
                b.emit_alu64(regop, src, dst);
            } else {
                b.emit_alu32(regop, src, dst);
            }
        }
    }
    proof {
        assert(jmps_view(b.jumps@) =~= jmps_view(old(b).jumps@) + spec_shift_jumps(
            spec_chunk(ins, idx as int, last)->Some_0.1,
            code0.len() as int,
        ));
    }
    Ok(())
}

/// Emits one jump-class instruction; the chunk of `spec_chunk` for it.
/// Leaves everything untouched when it refuses.
#[verifier::rlimit(100)]
#[verifier::spinoff_prover]
fn emit_jmp_one(b: &mut JitBuilder, ins: Instruction, idx: usize, n: usize, last: bool, src: u8, dst: u8) -> (r:
    Result<(), JitError>)
    requires
        ins.spec_class() == crate::class::EBPF_CLS_JMP,
        ins.spec_dst_reg() <= 10,
        ins.spec_src_reg() <= 10,
        dst == spec_map_register(ins.spec_dst_reg() as int),
        src == spec_map_register(ins.spec_src_reg() as int),
        idx < n <= 0x100000,
        last == (idx + 1 == n),
        buf_bytes(old(b).buffer).len() + 64 <= usize::MAX,
    ensures
        match r {
            Ok(()) => ({
                let c = spec_chunk(ins, idx as int, last);
                &&& c is Some
                &&& buf_bytes(final(b).buffer) == buf_bytes(old(b).buffer) + c->Some_0.0
                &&& jmps_view(final(b).jumps@) == jmps_view(old(b).jumps@) + spec_shift_jumps(
                    c->Some_0.1,
                    buf_bytes(old(b).buffer).len() as int,
                )
                &&& (forall|k: int|
                    0 <= k < c->Some_0.1.len() ==> spec_valid_target(
                        (#[trigger] c->Some_0.1[k]).1,
                        n as int,
                    ))
                &&& final(b).pc_locations@ == old(b).pc_locations@
                &&& final(b).exit_location == old(b).exit_location
            }),
            Err(e) => ({
                &&& *final(b) == *old(b)
                &&& ((e == JitError::Unsupported && spec_chunk(ins, idx as int, last) is None) || (e
                    == JitError::BadJumpTarget && spec_chunk(ins, idx as int, last) is Some && exists|
                    k: int,
                |
                    0 <= k < spec_chunk(ins, idx as int, last)->Some_0.1.len() && !spec_valid_target(
                        (#[trigger] spec_chunk(ins, idx as int, last)->Some_0.1[k]).1,
                        n as int,
                    )))
            }),
        },
{
    proof {
        lemma_nib_enum(ins.op);
        crate::op::lemma_opcode_values();
        crate::jit::lemma_emitter_lens();
    }
    let nib = ins.op & 0xf0;
    let imm32 = #[verifier::truncate] (ins.imm as i32);
    let ghost code0 = buf_bytes(b.buffer);
    if ins.op == op::EXIT && last {
        proof {
            assert(buf_bytes(b.buffer) =~= code0 + Seq::<u8>::empty());
            assert(jmps_view(b.jumps@) =~= jmps_view(old(b).jumps@) + spec_shift_jumps(
                Seq::empty(),
                code0.len() as int,
            ));
        }
        return Ok(());
    }
    if ins.op == op::JA || ins.op == op::EXIT || (ins.op != op::CALL && !(nib == 0x00 || nib
        == 0x80 || nib == 0x90 || nib == 0xe0 || nib == 0xf0)) {
        let target: i32 = if ins.op == op::EXIT {
            TARGET_PC_EXIT
        } else {
            let t64: i64 = idx as i64 + 1 + ins.offset as i64;
            if t64 < 0 || t64 >= n as i64 {
                proof {
                    let c = spec_chunk(ins, idx as int, last);
                    assert(c is Some);
                    assert(!spec_valid_target(c->Some_0.1[0].1, n as int));
                }
                return Err(JitError::BadJumpTarget);
            }
            #[verifier::truncate] (t64 as i32)
        };
        if ins.op == op::JA || ins.op == op::EXIT {
            b.emit_jmp(target);
            proof {
                assert(buf_bytes(b.buffer) =~= code0 + spec_chunk(ins, idx as int, last)->Some_0.0);
                assert(jmps_view(b.jumps@) =~= jmps_view(old(b).jumps@) + spec_shift_jumps(
                    spec_chunk(ins, idx as int, last)->Some_0.1,
                    code0.len() as int,
                ));
            }
        } else {
            if nib == op::EBPF_JSET {
                if ins.source() == 1 {
                    b.emit_alu64(0x85, src, dst);
                } else {
                    b.emit_alu64_imm32(0xf7, 0, dst, imm32);
                }
            } else {
                if ins.source() == 1 {
                    b.emit_cmp(src, dst);
                } else {
                    b.emit_cmp_imm32(dst, imm32);
                }
            }
            let code = jcc_code(nib);
            b.emit_jcc(code, target);
            proof {
                assert(buf_bytes(b.buffer) =~= code0 + spec_chunk(ins, idx as int, last)->Some_0.0);
                assert(jmps_view(b.jumps@) =~= jmps_view(old(b).jumps@) + spec_shift_jumps(
                    spec_chunk(ins, idx as int, last)->Some_0.1,
                    code0.len() as int,
                ));
            }
        }
        Ok(())
    } else {
        proof {
            assert(spec_chunk(ins, idx as int, last) is None);
        }
        Err(JitError::Unsupported)
    }
}

/// One step of the body fold: emitting the chunk of instruction `i` at the
/// end of the code carries the fold relation one instruction further.
#[verifier::rlimit(100)]
#[verifier::spinoff_prover]
proof fn lemma_fold_step(
    prog: Seq<Instruction>,
    plen: int,
    i: int,
    last: bool,
    code0: Seq<u8>,
    locs0: Seq<usize>,
    jumps0: Seq<Jmp>,
    code1: Seq<u8>,
    locs1: Seq<usize>,
    jumps1: Seq<Jmp>,
)
    requires
        0 <= i < prog.len(),
        last == (i == prog.len() - 1),
        spec_chunk(prog[i], i, last) is Some,
        code1 == code0 + spec_chunk(prog[i], i, last)->Some_0.0,
        locs_view(locs1) == locs_view(locs0) + seq![code0.len() as int],
        jmps_view(jumps1) == jmps_view(jumps0) + spec_shift_jumps(
            spec_chunk(prog[i], i, last)->Some_0.1,
            code0.len() as int,
        ),
        forall|k: int|
            0 <= k < spec_chunk(prog[i], i, last)->Some_0.1.len() ==> spec_valid_target(
                (#[trigger] spec_chunk(prog[i], i, last)->Some_0.1[k]).1,
                prog.len() as int,
            ),
        0 <= plen <= code0.len(),
        match spec_body(prog, i, code0.len() as int) {
            Ok(rest) => spec_body(prog, 0, plen) == Ok::<
                (Seq<u8>, Seq<int>, Seq<(int, int)>),
                JitError,
            >(
                (
                    code0.subrange(plen, code0.len() as int) + rest.0,
                    locs_view(locs0) + rest.1,
                    jmps_view(jumps0) + rest.2,
                ),
            ),
            Err(e) => spec_body(prog, 0, plen) == Err::<
                (Seq<u8>, Seq<int>, Seq<(int, int)>),
                JitError,
            >(e),
        },
    ensures
        match spec_body(prog, i + 1, code1.len() as int) {
            Ok(rest) => spec_body(prog, 0, plen) == Ok::<
                (Seq<u8>, Seq<int>, Seq<(int, int)>),
                JitError,
            >(
                (
                    code1.subrange(plen, code1.len() as int) + rest.0,
                    locs_view(locs1) + rest.1,
                    jmps_view(jumps1) + rest.2,
                ),
            ),
            Err(e) => spec_body(prog, 0, plen) == Err::<
                (Seq<u8>, Seq<int>, Seq<(int, int)>),
                JitError,
            >(e),
        },
        code1.subrange(0, plen) == code0.subrange(0, plen),
{
    let (cb, cjs) = spec_chunk(prog[i], i, last)->Some_0;
    let loc = code0.len() as int;
    let rest1 = spec_body(prog, i + 1, code1.len() as int);
    assert(code1.subrange(0, plen) =~= code0.subrange(0, plen));
    if let Ok(r1) = rest1 {
        assert(spec_body(prog, i, loc) == Ok::<(Seq<u8>, Seq<int>, Seq<(int, int)>), JitError>(
            (cb + r1.0, seq![loc] + r1.1, spec_shift_jumps(cjs, loc) + r1.2),
        ));
        assert(code1.subrange(plen, code1.len() as int) + r1.0 =~= code0.subrange(
            plen,
            code0.len() as int,
        ) + (cb + r1.0));
        assert(locs_view(locs1) + r1.1 =~= locs_view(locs0) + (seq![loc] + r1.1));
        assert(jmps_view(jumps1) + r1.2 =~= jmps_view(jumps0) + (spec_shift_jumps(cjs, loc)
            + r1.2));
    } else {
        assert(spec_body(prog, i, loc) == rest1);
    }
}


/// Emits a `lddw`, a load or a store; the chunk of `spec_chunk` for it.
/// Refuses every other class, leaving everything untouched.
#[verifier::rlimit(100)]
#[verifier::spinoff_prover]
fn emit_misc_one(b: &mut JitBuilder, ins: Instruction, idx: usize, last: bool, src: u8, dst: u8) -> (r:
    Result<(), JitError>)
    requires
        ins.spec_class() != crate::class::EBPF_CLS_ALU,
        ins.spec_class() != crate::class::EBPF_CLS_ALU64,
        ins.spec_class() != crate::class::EBPF_CLS_JMP,
        ins.spec_dst_reg() <= 10,
        ins.spec_src_reg() <= 10,
        dst == spec_map_register(ins.spec_dst_reg() as int),
        src == spec_map_register(ins.spec_src_reg() as int),
        buf_bytes(old(b).buffer).len() + 64 <= usize::MAX,
    ensures
        match r {
            Ok(()) => ({
                let c = spec_chunk(ins, idx as int, last);
                &&& c is Some
                &&& c->Some_0.1 == Seq::<(int, int)>::empty()
                &&& buf_bytes(final(b).buffer) == buf_bytes(old(b).buffer) + c->Some_0.0
                &&& final(b).jumps@ == old(b).jumps@
                &&& final(b).pc_locations@ == old(b).pc_locations@
                &&& final(b).exit_location == old(b).exit_location
            }),
            Err(e) => e == JitError::Unsupported && spec_chunk(ins, idx as int, last) is None
                && *final(b) == *old(b),
        },
{
    proof {
        lemma_nib_enum(ins.op);
        crate::op::lemma_opcode_values();
    }
    let cls = ins.op & 0x7;
    if ins.op == 0 {
        proof {
            assert(buf_bytes(b.buffer) =~= buf_bytes(old(b).buffer) + Seq::<u8>::empty());
        }
        Ok(())
    } else if ins.op == op::LDDW {
        b.emit_load_imm(dst, ins.imm);
        Ok(())
    } else if cls == crate::class::EBPF_CLS_LDX {
        if ins.op & 0xe0 != op::EBPF_MODE_MEM {
            return Err(JitError::Unsupported);
        }
        b.emit_load(opsize_of(ins.op), src, dst, ins.offset as i32);
        Ok(())
    } else if cls == crate::class::EBPF_CLS_ST {
        if ins.op & 0xe0 != op::EBPF_MODE_MEM {
            return Err(JitError::Unsupported);
        }
        b.emit_store_imm32(
            opsize_of(ins.op),
            dst,
            ins.offset as i32,
            #[verifier::truncate] (ins.imm as i32),
        );
        Ok(())
    } else if cls == crate::class::EBPF_CLS_STX {
        if ins.op & 0xe0 != op::EBPF_MODE_MEM {
            return Err(JitError::Unsupported);
        }
        b.emit_store(opsize_of(ins.op), src, dst, ins.offset as i32);
        Ok(())
    } else {
        Err(JitError::Unsupported)
    }
}

/// Appending one chunk's relocations keeps every relocation inside the code
/// and aimed at an addressable target.
proof fn lemma_jumps_wf_step(
    jumps0: Seq<Jmp>,
    jumps1: Seq<Jmp>,
    cjs: Seq<(int, int)>,
    loc: int,
    clen0: int,
    clen1: int,
    n: int,
)
    requires
        jmps_view(jumps1) == jmps_view(jumps0) + spec_shift_jumps(cjs, loc),
        forall|k: int|
            0 <= k < jumps0.len() ==> (#[trigger] jumps0[k]).offset_location + 4 <= clen0
                && spec_valid_target(jumps0[k].target_pc as int, n),
        forall|k: int|
            0 <= k < cjs.len() ==> 0 <= (#[trigger] cjs[k]).0 && cjs[k].0 + 4 <= clen1 - loc,
        forall|k: int| 0 <= k < cjs.len() ==> spec_valid_target((#[trigger] cjs[k]).1, n),
        clen0 <= clen1,
    ensures
        forall|k: int|
            0 <= k < jumps1.len() ==> (#[trigger] jumps1[k]).offset_location + 4 <= clen1
                && spec_valid_target(jumps1[k].target_pc as int, n),
{
    assert(jmps_view(jumps1).len() == jumps1.len());
    assert forall|k: int| 0 <= k < jumps1.len() implies (#[trigger] jumps1[k]).offset_location + 4
        <= clen1 && spec_valid_target(jumps1[k].target_pc as int, n) by {
        if k < jumps0.len() {
            assert(jmps_view(jumps1)[k] == jmps_view(jumps0)[k]);
        } else {
            assert(jmps_view(jumps1)[k] == spec_shift_jumps(cjs, loc)[k - jumps0.len()]);
            assert(spec_shift_jumps(cjs, loc)[k - jumps0.len()].0 == cjs[k - jumps0.len()].0
                + loc);
        }
    };
}

/// Translates a program to x86-64 code with every branch patched; see
/// `spec_translate` for the exact output. The layout is prologue, one
/// chunk per instruction slot, the shared epilogue (which a terminal
/// `exit` falls through into; every other `exit` jumps there), and the
/// division-by-zero trampoline. Fails, emitting nothing, on `call`, the
/// byte-order opcodes, any opcode no table row defines, a register above
/// r10, a jump leaving the program, or a program too large for 32-bit
/// displacements.
#[verifier::rlimit(100)]
#[verifier::spinoff_prover]
pub fn translate(instructions: &Instructions) -> (r: Result<Vec<u8>, JitError>)
    ensures
        match r {
            Ok(code) => spec_translate(instructions@) == Ok::<Seq<u8>, JitError>(code@),
            Err(e) => spec_translate(instructions@) == Err::<Seq<u8>, JitError>(e),
        },
{
    let ghost prog = instructions@;
    let n = instructions.len();
    if n > 0x100000 {
        return Err(JitError::TooLarge);
    }
    proof {
        lemma_frame_len();
        crate::jit::lemma_emitter_lens();
        vstd::bytes::lemma_auto_spec_u32_to_from_le_bytes();
        vstd::bytes::lemma_auto_spec_u64_to_from_le_bytes();
    }
    let mut b = JitBuilder::new();
    b.emit_push(RBP);
    b.emit_mov(RSP, map_register(10));
    b.emit_alu64_imm32(0x81, 5, RSP, 4096);
    b.emit_push(RBX);
    b.emit_push(R13);
    b.emit_push(R14);
    b.emit_push(R15);
    proof {
        assert(b.code() =~= spec_prologue());
    }
    let plen = b.offset();
    let mut i: usize = 0;
    while i < n
        invariant
            i <= n,
            prog == instructions@,
            n == prog.len(),
            n <= 0x100000,
            plen == spec_prologue().len(),
            plen <= 32,
            b.pc_locations@.len() == i,
            b.code().len() <= plen + 64 * i,
            b.code().len() >= plen,
            b.code().subrange(0, plen as int) =~= spec_prologue(),
            forall|k: int|
                0 <= k < i ==> plen <= #[trigger] b.pc_locations@[k] && b.pc_locations@[k]
                    <= b.code().len(),
            forall|k: int|
                0 <= k < b.jumps@.len() ==> (#[trigger] b.jumps@[k]).offset_location + 4
                    <= b.code().len() && spec_valid_target(b.jumps@[k].target_pc as int, n as int),
            match spec_body(prog, i as int, b.code().len() as int) {
                Ok(rest) => spec_body(prog, 0, plen as int) == Ok::<
                    (Seq<u8>, Seq<int>, Seq<(int, int)>),
                    JitError,
                >(
                    (
                        b.code().subrange(plen as int, b.code().len() as int) + rest.0,
                        locs_view(b.pc_locations@) + rest.1,
                        jmps_view(b.jumps@) + rest.2,
                    ),
                ),
                Err(e) => spec_body(prog, 0, plen as int) == Err::<
                    (Seq<u8>, Seq<int>, Seq<(int, int)>),
                    JitError,
                >(e),
            },
        decreases n - i,
    {
        let ins = instructions.get(i);
        let ghost code0 = b.code();
        let ghost jumps0 = b.jumps@;
        let ghost locs0 = b.pc_locations@;
        let last = i + 1 == n;
        proof {
            lemma_chunk_len(ins, i as int, last);
            lemma_nib_enum(ins.op);
            crate::op::lemma_opcode_values();
            crate::instruction::lemma_reg_nibble_bounds(ins);
        }
        let dst_g = ins.dst_reg();
        let src_g = ins.src_reg();
        if dst_g > 10 || src_g > 10 {
            proof {
                assert(spec_chunk(prog[i as int], i as int, last) is None);
            }
            return Err(JitError::Unsupported);
        }
        let dst = map_register(dst_g);
        let src = map_register(src_g);
        let loc = b.offset();
        b.pc_locations.push(loc);
        let cls = ins.op & 0x7;
        let step: Result<(), JitError> = if cls == crate::class::EBPF_CLS_ALU || cls
            == crate::class::EBPF_CLS_ALU64 {
            emit_alu_one(&mut b, ins, i, last, src, dst)
        } else if cls == crate::class::EBPF_CLS_JMP {
            emit_jmp_one(&mut b, ins, i, n, last, src, dst)
        } else {
            emit_misc_one(&mut b, ins, i, last, src, dst)
        };
        match step {
            Err(e) => {
                proof {
                    assert(spec_body(prog, i as int, b.code().len() as int) == Err::<
                        (Seq<u8>, Seq<int>, Seq<(int, int)>),
                        JitError,
                    >(e));
                }
                return Err(e);
            },
            Ok(()) => {},
        }
        proof {
            let (cb, cjs) = spec_chunk(prog[i as int], i as int, last)->Some_0;
            assert(b.code() == code0 + cb);
            assert(locs_view(b.pc_locations@) =~= locs_view(locs0) + seq![loc as int]);
            assert(jmps_view(b.jumps@) =~= jmps_view(jumps0) + spec_shift_jumps(
                cjs,
                loc as int,
            ));
            assert(forall|k: int|
                0 <= k < cjs.len() ==> spec_valid_target(#[trigger] cjs[k].1, n as int));
            lemma_jumps_wf_step(
                jumps0,
                b.jumps@,
                cjs,
                loc as int,
                code0.len() as int,
                b.code().len() as int,
                n as int,
            );
            lemma_fold_step(
                prog,
                plen as int,
                i as int,
                last,
                code0,
                locs0,
                jumps0,
                b.code(),
                b.pc_locations@,
                b.jumps@,
            );
        }
        i = i + 1;
    }
    // the program body is complete; the epilogue and the trampoline follow
    let exit_loc = b.offset();
    b.exit_location = exit_loc;
    let ghost code_b = b.code();
    b.emit_pop(R15);
    b.emit_pop(R14);
    b.emit_pop(R13);
    b.emit_pop(RBX);
    b.emit1(0xc9);
    b.emit1(0xc3);
    proof {
        assert(b.code() =~= code_b + spec_epilogue());
    }
    let div0_loc = b.offset();
    b.emit_load_imm(RAX, -1i64);
    b.emit_pop(R15);
    b.emit_pop(R14);
    b.emit_pop(R13);
    b.emit_pop(RBX);
    b.emit1(0xc9);
    b.emit1(0xc3);
    proof {
        assert(b.code() =~= code_b + spec_epilogue() + spec_div0_block());
    }
    let ghost full0 = b.code();
    proof {
        let body = spec_body(prog, 0, plen as int)->Ok_0;
        assert(spec_body(prog, n as int, exit_loc as int) == Ok::<
            (Seq<u8>, Seq<int>, Seq<(int, int)>),
            JitError,
        >((Seq::empty(), Seq::empty(), Seq::empty())));
        assert(code_b.subrange(plen as int, code_b.len() as int) + Seq::<u8>::empty()
            =~= code_b.subrange(plen as int, code_b.len() as int));
        assert(locs_view(b.pc_locations@) + Seq::<int>::empty() =~= locs_view(b.pc_locations@));
        assert(jmps_view(b.jumps@) + Seq::<(int, int)>::empty() =~= jmps_view(b.jumps@));
        assert(body.0 == code_b.subrange(plen as int, code_b.len() as int));
        assert(full0 =~= spec_prologue() + body.0 + spec_epilogue() + spec_div0_block());
        assert(full0.len() <= 0x7fff_0000);
    }
    let JitBuilder { buffer, pc_locations, exit_location, jumps } = b;
    let mut code = buf_to_vec(buffer);
    proof {
        assert(jmps_view(jumps@).skip(0) =~= jmps_view(jumps@));
    }
    let m = jumps.len();
    let mut j: usize = 0;
    while j < m
        invariant
            j <= m,
            m == jumps@.len(),
            n == pc_locations@.len(),
            code@.len() == full0.len(),
            full0.len() <= 0x7fff_0000,
            exit_loc < div0_loc,
            div0_loc + 7 <= code@.len(),
            forall|k: int|
                0 <= k < n ==> 0 <= #[trigger] pc_locations@[k] && pc_locations@[k]
                    <= code@.len(),
            forall|k: int|
                0 <= k < m ==> (#[trigger] jumps@[k]).offset_location + 4 <= code@.len()
                    && spec_valid_target(jumps@[k].target_pc as int, n as int),
            spec_patch(
                code@,
                jmps_view(jumps@).skip(j as int),
                locs_view(pc_locations@),
                exit_loc as int,
                div0_loc as int,
            ) == spec_patch(
                full0,
                jmps_view(jumps@),
                locs_view(pc_locations@),
                exit_loc as int,
                div0_loc as int,
            ),
        decreases m - j,
    {
        let jmp = jumps[j];
        let at = jmp.offset_location;
        let t = jmp.target_pc;
        let tloc: usize = if t == TARGET_PC_EXIT {
            exit_loc
        } else if t == TARGET_PC_DIV_BY_ZERO {
            div0_loc
        } else {
            pc_locations[t as usize]
        };
        let rel64: i64 = tloc as i64 - at as i64 - 4;
        let relv: u32 = #[verifier::truncate] ((#[verifier::truncate] (rel64 as i32)) as u32);
        let ghost codej = code@;
        patch4(&mut code, at, relv);
        proof {
            let js = jmps_view(jumps@);
            assert(js.skip(j as int)[0] == js[j as int]);
            assert(js.skip(j as int).drop_first() =~= js.skip(j + 1));
            assert(spec_patch(
                codej,
                js.skip(j as int),
                locs_view(pc_locations@),
                exit_loc as int,
                div0_loc as int,
            ) == spec_patch(
                spec_splice(codej, at as int, spec_u32_to_le_bytes(relv)),
                js.skip(j + 1),
                locs_view(pc_locations@),
                exit_loc as int,
                div0_loc as int,
            ));
        }
        j = j + 1;
    }
    proof {
        assert(jmps_view(jumps@).skip(m as int) =~= Seq::<(int, int)>::empty());
        assert(spec_patch(
            code@,
            Seq::<(int, int)>::empty(),
            locs_view(pc_locations@),
            exit_loc as int,
            div0_loc as int,
        ) == code@);
    }
    Ok(code)
}


} // verus!
