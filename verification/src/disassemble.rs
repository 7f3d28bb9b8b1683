//! The disassembler: the canonical textual form of instruction records,
//! the inverse of the assembler's tables. A `lddw` pair prints as a single
//! line; opcodes no table row defines have no text.
use vstd::prelude::*;

use vstd::string::StringExecFns;
use vstd::string::StrSliceExecFns;

use crate::instruction::spec_lddw_cont;
use crate::instruction::Instruction;
use crate::instruction::Instructions;
use crate::utils::i64_dec;
use crate::utils::memory;
use crate::utils::reg;
use crate::utils::spec_idec;
use crate::utils::spec_memory_text;
use crate::utils::spec_reg_text;

verus! {

/// Mnemonic of a binary ALU operation nibble, with the `32` suffix for the
/// 32-bit class.
pub open spec fn spec_alu_mn(nib: u8, is64: bool) -> Seq<char> {
    if nib == 0x00 {
        if is64 {
            "add"@
        } else {
            "add32"@
        }
    } else if nib == 0x10 {
        if is64 {
            "sub"@
        } else {
            "sub32"@
        }
    } else if nib == 0x20 {
        if is64 {
            "mul"@
        } else {
            "mul32"@
        }
    } else if nib == 0x30 {
        if is64 {
            "div"@
        } else {
            "div32"@
        }
    } else if nib == 0x40 {
        if is64 {
            "or"@
        } else {
            "or32"@
        }
    } else if nib == 0x50 {
        if is64 {
            "and"@
        } else {
            "and32"@
        }
    } else if nib == 0x60 {
        if is64 {
            "lsh"@
        } else {
            "lsh32"@
        }
    } else if nib == 0x70 {
        if is64 {
            "rsh"@
        } else {
            "rsh32"@
        }
    } else if nib == 0x90 {
        if is64 {
            "mod"@
        } else {
            "mod32"@
        }
    } else if nib == 0xa0 {
        if is64 {
            "xor"@
        } else {
            "xor32"@
        }
    } else if nib == 0xb0 {
        if is64 {
            "mov"@
        } else {
            "mov32"@
        }
    } else if nib == 0xc0 {
        if is64 {
            "arsh"@
        } else {
            "arsh32"@
        }
    } else {
        Seq::empty()
    }
}

fn alu_mn(nib: u8, is64: bool) -> (r: &'static str)
    ensures
        r@ == spec_alu_mn(nib, is64),
{
    proof {
        reveal_strlit("add");
        reveal_strlit("add32");
        reveal_strlit("sub");
        reveal_strlit("sub32");
        reveal_strlit("mul");
        reveal_strlit("mul32");
        reveal_strlit("div");
        reveal_strlit("div32");
        reveal_strlit("or");
        reveal_strlit("or32");
        reveal_strlit("and");
        reveal_strlit("and32");
        reveal_strlit("lsh");
        reveal_strlit("lsh32");
        reveal_strlit("rsh");
        reveal_strlit("rsh32");
        reveal_strlit("mod");
        reveal_strlit("mod32");
        reveal_strlit("xor");
        reveal_strlit("xor32");
        reveal_strlit("mov");
        reveal_strlit("mov32");
        reveal_strlit("arsh");
        reveal_strlit("arsh32");
        reveal_strlit("");
    }
    if nib == 0x00 {
        if is64 {
            "add"
        } else {
            "add32"
        }
    } else if nib == 0x10 {
        if is64 {
            "sub"
        } else {
            "sub32"
        }
    } else if nib == 0x20 {
        if is64 {
            "mul"
        } else {
            "mul32"
        }
    } else if nib == 0x30 {
        if is64 {
            "div"
        } else {
            "div32"
        }
    } else if nib == 0x40 {
        if is64 {
            "or"
        } else {
            "or32"
        }
    } else if nib == 0x50 {
        if is64 {
            "and"
        } else {
            "and32"
        }
    } else if nib == 0x60 {
        if is64 {
            "lsh"
        } else {
            "lsh32"
        }
    } else if nib == 0x70 {
        if is64 {
            "rsh"
        } else {
            "rsh32"
        }
    } else if nib == 0x90 {
        if is64 {
            "mod"
        } else {
            "mod32"
        }
    } else if nib == 0xa0 {
        if is64 {
            "xor"
        } else {
            "xor32"
        }
    } else if nib == 0xb0 {
        if is64 {
            "mov"
        } else {
            "mov32"
        }
    } else if nib == 0xc0 {
        if is64 {
            "arsh"
        } else {
            "arsh32"
        }
    } else {
        ""
    }
}

/// Mnemonic of a conditional jump nibble.
pub open spec fn spec_jmp_mn(nib: u8) -> Seq<char> {
    if nib == 0x10 {
        "jeq"@
    } else if nib == 0x20 {
        "jgt"@
    } else if nib == 0x30 {
        "jge"@
    } else if nib == 0x40 {
        "jset"@
    } else if nib == 0x50 {
        "jne"@
    } else if nib == 0x60 {
        "jsgt"@
    } else if nib == 0x70 {
        "jsge"@
    } else if nib == 0xa0 {
        "jlt"@
    } else if nib == 0xb0 {
        "jle"@
    } else if nib == 0xc0 {
        "jslt"@
    } else if nib == 0xd0 {
        "jsle"@
    } else {
        Seq::empty()
    }
}

fn jmp_mn(nib: u8) -> (r: &'static str)
    ensures
        r@ == spec_jmp_mn(nib),
{
    proof {
        reveal_strlit("jeq");
        reveal_strlit("jgt");
        reveal_strlit("jge");
        reveal_strlit("jset");
        reveal_strlit("jne");
        reveal_strlit("jsgt");
        reveal_strlit("jsge");
        reveal_strlit("jlt");
        reveal_strlit("jle");
        reveal_strlit("jslt");
        reveal_strlit("jsle");
        reveal_strlit("");
    }
    if nib == 0x10 {
        "jeq"
    } else if nib == 0x20 {
        "jgt"
    } else if nib == 0x30 {
        "jge"
    } else if nib == 0x40 {
        "jset"
    } else if nib == 0x50 {
        "jne"
    } else if nib == 0x60 {
        "jsgt"
    } else if nib == 0x70 {
        "jsge"
    } else if nib == 0xa0 {
        "jlt"
    } else if nib == 0xb0 {
        "jle"
    } else if nib == 0xc0 {
        "jslt"
    } else if nib == 0xd0 {
        "jsle"
    } else {
        ""
    }
}

/// Size suffix of a memory opcode.
pub open spec fn spec_size_sfx(op_byte: u8) -> Seq<char> {
    if op_byte & 0x18 == 0x00 {
        "w"@
    } else if op_byte & 0x18 == 0x08 {
        "h"@
    } else if op_byte & 0x18 == 0x10 {
        "b"@
    } else {
        "dw"@
    }
}

fn size_sfx(op_byte: u8) -> (r: &'static str)
    ensures
        r@ == spec_size_sfx(op_byte),
{
    proof {
        reveal_strlit("w");
        reveal_strlit("h");
        reveal_strlit("b");
        reveal_strlit("dw");
    }
    if op_byte & 0x18 == 0x00 {
        "w"
    } else if op_byte & 0x18 == 0x08 {
        "h"
    } else if op_byte & 0x18 == 0x10 {
        "b"
    } else {
        "dw"
    }
}

/// A bracketed memory operand: `[` base `+`/`-` displacement `]`.
pub open spec fn spec_mem_operand_text(base: u8, off: i16) -> Seq<char> {
    "["@ + spec_memory_text(spec_reg_text(base), off) + "]"@
}

fn mem_operand_text(base: u8, off: i16) -> (r: String)
    ensures
        r@ == spec_mem_operand_text(base, off),
{
    proof {
        reveal_strlit("[");
        reveal_strlit("]");
    }
    let b = reg(base);
    let m = memory(b.as_str(), off);
    String::from_str("[").concat(m.as_str()).concat("]")
}

/// The canonical text of one record, or `None` for an opcode no table row
/// defines and for a `lddw` continuation record.
pub open spec fn spec_format_ins(ins: Instruction) -> Option<Seq<char>> {
    let cls = ins.op & 0x7;
    let nib = ins.op & 0xf0;
    let dst = ins.spec_dst_reg();
    let src = ins.spec_src_reg();
    if ins.op == crate::op::LDDW {
        Some("lddw "@ + spec_reg_text(dst) + ", "@ + spec_idec(ins.imm as int))
    } else if cls == crate::class::EBPF_CLS_ALU || cls == crate::class::EBPF_CLS_ALU64 {
        let is64 = cls == crate::class::EBPF_CLS_ALU64;
        if ins.op == crate::op::NEG32 {
            Some("neg32 "@ + spec_reg_text(dst))
        } else if ins.op == crate::op::NEG64 {
            Some("neg "@ + spec_reg_text(dst))
        } else if nib == crate::op::EBPF_NEG || nib == 0xe0 || nib == 0xf0 {
            None
        } else if nib == crate::op::EBPF_END {
            if (ins.op == crate::op::BE || ins.op == crate::op::LE) && (ins.imm == 16 || ins.imm
                == 32 || ins.imm == 64) {
                let base = if ins.op == crate::op::BE {
                    "be"@
                } else {
                    "le"@
                };
                Some(base + spec_idec(ins.imm as int) + " "@ + spec_reg_text(dst))
            } else {
                None
            }
        } else {
            let name = spec_alu_mn(nib, is64);
            if ins.spec_source() == 1 {
                Some(name + " "@ + spec_reg_text(dst) + ", "@ + spec_reg_text(src))
            } else {
                Some(name + " "@ + spec_reg_text(dst) + ", "@ + spec_idec(ins.imm as int))
            }
        }
    } else if cls == crate::class::EBPF_CLS_JMP {
        if ins.op == crate::op::EXIT {
            Some("exit"@)
        } else if ins.op == crate::op::CALL {
            Some("call "@ + spec_idec(ins.imm as int))
        } else if ins.op == crate::op::JA {
            Some("ja "@ + spec_idec(ins.offset as int))
        } else if crate::runtime::spec_jump_taken(nib, 0, 0) is Some {
            let name = spec_jmp_mn(nib);
            if ins.spec_source() == 1 {
                Some(
                    name + " "@ + spec_reg_text(dst) + ", "@ + spec_reg_text(src) + ", "@
                        + spec_idec(ins.offset as int),
                )
            } else {
                Some(
                    name + " "@ + spec_reg_text(dst) + ", "@ + spec_idec(ins.imm as int) + ", "@
                        + spec_idec(ins.offset as int),
                )
            }
        } else {
            None
        }
    } else if cls == crate::class::EBPF_CLS_LDX && ins.op & 0xe0 == 0x60 {
        Some(
            "ldx"@ + spec_size_sfx(ins.op) + " "@ + spec_reg_text(dst) + ", "@
                + spec_mem_operand_text(src, ins.offset),
        )
    } else if cls == crate::class::EBPF_CLS_ST && ins.op & 0xe0 == 0x60 {
        Some(
            "st"@ + spec_size_sfx(ins.op) + " "@ + spec_mem_operand_text(dst, ins.offset) + ", "@
                + spec_idec(ins.imm as int),
        )
    } else if cls == crate::class::EBPF_CLS_STX && ins.op & 0xe0 == 0x60 {
        Some(
            "stx"@ + spec_size_sfx(ins.op) + " "@ + spec_mem_operand_text(dst, ins.offset) + ", "@
                + spec_reg_text(src),
        )
    } else {
        None
    }
}

/// The canonical text of one record; see `spec_format_ins`.
pub fn format_instruction(ins: &Instruction) -> (r: Option<String>)
    ensures
        match r {
            Some(s) => spec_format_ins(*ins) == Some(s@),
            None => spec_format_ins(*ins) is None,
        },
{
    proof {
        reveal_strlit("lddw ");
        reveal_strlit(", ");
        reveal_strlit(" ");
        reveal_strlit("neg32 ");
        reveal_strlit("neg ");
        reveal_strlit("be");
        reveal_strlit("le");
        reveal_strlit("exit");
        reveal_strlit("call ");
        reveal_strlit("ja ");
        reveal_strlit("ldx");
        reveal_strlit("st");
        reveal_strlit("stx");
        crate::op::lemma_opcode_values();
    }
    let cls = ins.op & 0x7;
    let nib = ins.op & 0xf0;
    let dst = ins.dst_reg();
    let src = ins.src_reg();
    if ins.op == crate::op::LDDW {
        let s = String::from_str("lddw ").concat(reg(dst).as_str()).concat(", ").concat(
            i64_dec(ins.imm).as_str(),
        );
        Some(s)
    } else if cls == crate::class::EBPF_CLS_ALU || cls == crate::class::EBPF_CLS_ALU64 {
        let is64 = cls == crate::class::EBPF_CLS_ALU64;
        if ins.op == crate::op::NEG32 {
            Some(String::from_str("neg32 ").concat(reg(dst).as_str()))
        } else if ins.op == crate::op::NEG64 {
            Some(String::from_str("neg ").concat(reg(dst).as_str()))
        } else if nib == crate::op::EBPF_NEG || nib == 0xe0 || nib == 0xf0 {
            None
        } else if nib == crate::op::EBPF_END {
            if (ins.op == crate::op::BE || ins.op == crate::op::LE) && (ins.imm == 16 || ins.imm
                == 32 || ins.imm == 64) {
                let base = if ins.op == crate::op::BE {
                    String::from_str("be")
                } else {
                    String::from_str("le")
                };
                Some(base.concat(i64_dec(ins.imm).as_str()).concat(" ").concat(reg(dst).as_str()))
            } else {
                None
            }
        } else {
            let name = alu_mn(nib, is64);
            if ins.source() == 1 {
                Some(
                    String::from_str(name).concat(" ").concat(reg(dst).as_str()).concat(
                        ", ",
                    ).concat(reg(src).as_str()),
                )
            } else {
                Some(
                    String::from_str(name).concat(" ").concat(reg(dst).as_str()).concat(
                        ", ",
                    ).concat(i64_dec(ins.imm).as_str()),
                )
            }
        }
    } else if cls == crate::class::EBPF_CLS_JMP {
        if ins.op == crate::op::EXIT {
            Some(String::from_str("exit"))
        } else if ins.op == crate::op::CALL {
            Some(String::from_str("call ").concat(i64_dec(ins.imm).as_str()))
        } else if ins.op == crate::op::JA {
            Some(String::from_str("ja ").concat(i64_dec(ins.offset as i64).as_str()))
        } else if nib == 0x00 || nib == 0x80 || nib == 0x90 || nib == 0xe0 || nib == 0xf0 {
            proof {
                lemma_nib_sixteen(ins.op);
            }
            None
        } else {
            proof {
                lemma_nib_sixteen(ins.op);
            }
            let name = jmp_mn(nib);
            if ins.source() == 1 {
                Some(
                    String::from_str(name).concat(" ").concat(reg(dst).as_str()).concat(
                        ", ",
                    ).concat(reg(src).as_str()).concat(", ").concat(
                        i64_dec(ins.offset as i64).as_str(),
                    ),
                )
            } else {
                Some(
                    String::from_str(name).concat(" ").concat(reg(dst).as_str()).concat(
                        ", ",
                    ).concat(i64_dec(ins.imm).as_str()).concat(", ").concat(
                        i64_dec(ins.offset as i64).as_str(),
                    ),
                )
            }
        }
    } else if cls == crate::class::EBPF_CLS_LDX && ins.op & 0xe0 == 0x60 {
        Some(
            String::from_str("ldx").concat(size_sfx(ins.op)).concat(" ").concat(
                reg(dst).as_str(),
            ).concat(", ").concat(mem_operand_text(src, ins.offset).as_str()),
        )
    } else if cls == crate::class::EBPF_CLS_ST && ins.op & 0xe0 == 0x60 {
        Some(
            String::from_str("st").concat(size_sfx(ins.op)).concat(" ").concat(
                mem_operand_text(dst, ins.offset).as_str(),
            ).concat(", ").concat(i64_dec(ins.imm).as_str()),
        )
    } else if cls == crate::class::EBPF_CLS_STX && ins.op & 0xe0 == 0x60 {
        Some(
            String::from_str("stx").concat(size_sfx(ins.op)).concat(" ").concat(
                mem_operand_text(dst, ins.offset).as_str(),
            ).concat(", ").concat(reg(src).as_str()),
        )
    } else {
        None
    }
}

/// The operation nibble is one of sixteen values.
proof fn lemma_nib_sixteen(o: u8)
    ensures
        o & 0xf0 == 0x00 || o & 0xf0 == 0x10 || o & 0xf0 == 0x20 || o & 0xf0 == 0x30 || o & 0xf0
            == 0x40 || o & 0xf0 == 0x50 || o & 0xf0 == 0x60 || o & 0xf0 == 0x70 || o & 0xf0
            == 0x80 || o & 0xf0 == 0x90 || o & 0xf0 == 0xa0 || o & 0xf0 == 0xb0 || o & 0xf0
            == 0xc0 || o & 0xf0 == 0xd0 || o & 0xf0 == 0xe0 || o & 0xf0 == 0xf0,
{
    assert(o & 0xf0 == 0x00 || o & 0xf0 == 0x10 || o & 0xf0 == 0x20 || o & 0xf0 == 0x30 || o
        & 0xf0 == 0x40 || o & 0xf0 == 0x50 || o & 0xf0 == 0x60 || o & 0xf0 == 0x70 || o & 0xf0
        == 0x80 || o & 0xf0 == 0x90 || o & 0xf0 == 0xa0 || o & 0xf0 == 0xb0 || o & 0xf0 == 0xc0
        || o & 0xf0 == 0xd0 || o & 0xf0 == 0xe0 || o & 0xf0 == 0xf0) by (bit_vector);
}

/// The canonical text of records `i..`: one line per instruction, newline
/// separated, a `lddw` pair as one line. `None` where a record has no text
/// or a `lddw` record lacks its continuation record.
pub open spec fn spec_format_from(s: Seq<Instruction>, i: int) -> Option<Seq<char>>
    decreases s.len() - i,
{
    if !(0 <= i < s.len()) {
        Some(Seq::empty())
    } else {
        let next = if s[i].op == crate::op::LDDW {
            i + 2
        } else {
            i + 1
        };
        if s[i].op == crate::op::LDDW && !(i + 1 < s.len() && s[i + 1] == spec_lddw_cont(s[i])) {
            None
        } else {
            match spec_format_ins(s[i]) {
                None => None,
                Some(line) => match spec_format_from(s, next) {
                    None => None,
                    Some(rest) => Some(
                        if next < s.len() {
                            line + seq!['\n'] + rest
                        } else {
                            line
                        },
                    ),
                },
            }
        }
    }
}

/// Renders a record sequence as canonical assembly text; see
/// `spec_format_from`.
pub fn format(instructions: &Instructions) -> (r: Option<String>)
    ensures
        match r {
            Some(s) => spec_format_from(instructions@, 0) == Some(s@),
            None => spec_format_from(instructions@, 0) is None,
        },
{
    proof {
        reveal_strlit("\n");
        crate::op::lemma_opcode_values();
    }
    let ghost sq = instructions@;
    let n = instructions.len();
    let mut out = String::new();
    let mut i: usize = 0;
    proof {
        if let Some(t) = spec_format_from(sq, 0) {
            assert(out@ + t =~= t);
        }
    }
    while i < n
        invariant
            0 <= i <= n,
            n == sq.len(),
            instructions@ == sq,
            match spec_format_from(sq, i as int) {
                Some(rest) => spec_format_from(sq, 0) == Some(out@ + rest),
                None => spec_format_from(sq, 0) is None,
            },
        decreases n - i,
    {
        let ins = instructions.get(i);
        let line = match format_instruction(&ins) {
            None => {
                return None;
            },
            Some(l) => l,
        };
        let next: usize;
        if ins.op == crate::op::LDDW {
            let expect = Instruction::new(0, 0, 0, (ins.imm as u64 >> 32) as u32 as i32 as i64);
            if !(i + 1 < n && instructions.get(i + 1) == expect) {
                proof {
                    assert(expect == spec_lddw_cont(sq[i as int]));
                }
                return None;
            }
            next = i + 2;
        } else {
            next = i + 1;
        }
        let ghost out0 = out@;
        out = out.concat(line.as_str());
        if next < n {
            out = out.concat("\n");
            proof {
                reveal_strlit("\n");
                assert("\n"@ =~= seq!['\n']);
                if let Some(restn) = spec_format_from(sq, next as int) {
                    assert(out@ + restn =~= out0 + (line@ + seq!['\n'] + restn));
                }
            }
        } else {
            proof {
                if let Some(restn) = spec_format_from(sq, next as int) {
                    assert(out@ + restn =~= out0 + line@);
                }
            }
        }
        i = next;
    }
    proof {
        assert(out@ + spec_format_from(sq, n as int).unwrap() =~= out@);
    }
    Some(out)
}


/// The canonical text of one packed instruction at the head of `raw`: its
/// first 8 bytes, or 16 for a `lddw` pair.
pub open spec fn spec_disassemble_one(raw: Seq<u8>) -> Option<Seq<char>> {
    if raw.len() < 8 {
        None
    } else {
        let w = crate::instruction::spec_read_word(raw, 0);
        if w.op == crate::op::LDDW {
            if raw.len() < 16 {
                None
            } else {
                match crate::instruction::spec_decode(raw.subrange(0, 16), 0) {
                    Some(recs) => spec_format_ins(recs[0]),
                    None => None,
                }
            }
        } else {
            spec_format_ins(w)
        }
    }
}

/// Renders the packed instruction at the head of `raw`; see
/// `spec_disassemble_one`.
pub fn disassemble_one(raw: &[u8]) -> (r: Option<String>)
    ensures
        match r {
            Some(s) => spec_disassemble_one(raw@) == Some(s@),
            None => spec_disassemble_one(raw@) is None,
        },
{
    let n = raw.len();
    if n < 8 {
        return None;
    }
    let head = vstd::slice::slice_subrange(raw, 0, 8);
    let short = match crate::instruction::decode(head) {
        Ok(one) => one,
        Err(_) => {
            // exactly 8 bytes decode unless they hold a `lddw` word
            if n < 16 {
                proof {
                    lemma_head_word(raw@);
                }
                return None;
            }
            let pair = vstd::slice::slice_subrange(raw, 0, 16);
            proof {
                lemma_head_word(raw@);
            }
            match crate::instruction::decode(pair) {
                Ok(two) => {
                    let rec = two.get(0);
                    return format_instruction(&rec);
                },
                Err(_) => {
                    return None;
                },
            }
        },
    };
    proof {
        lemma_head_word(raw@);
    }
    let rec = short.get(0);
    format_instruction(&rec)
}

/// Decoding the first 8 bytes alone succeeds with the word they hold,
/// unless that word is a `lddw` word; 16 bytes decode to a sequence whose
/// head is the merged record.
proof fn lemma_head_word(raw: Seq<u8>)
    requires
        raw.len() >= 8,
    ensures
        ({
            let head = raw.subrange(0, 8);
            let w = crate::instruction::spec_read_word(raw, 0);
            &&& crate::instruction::spec_read_word(head, 0) == w
            &&& (w.op != crate::op::LDDW ==> crate::instruction::spec_decode(head, 0) == Some(
                seq![w],
            ))
            &&& (w.op == crate::op::LDDW ==> crate::instruction::spec_decode(head, 0) is None)
        }),
{
    let head = raw.subrange(0, 8);
    assert(head.subrange(2, 4) =~= raw.subrange(2, 4));
    assert(head.subrange(4, 8) =~= raw.subrange(4, 8));
    let w = crate::instruction::spec_read_word(head, 0);
    if w.op != crate::op::LDDW {
        assert(crate::instruction::spec_decode(head, 8) == Some(Seq::<
            crate::instruction::Instruction,
        >::empty()));
        assert(seq![w] + Seq::<crate::instruction::Instruction>::empty() =~= seq![w]);
    }
}

/// Renders a whole packed program; the composition of `decode` and
/// `format`.
pub fn disassemble(data: &[u8]) -> (r: Option<String>)
    ensures
        match r {
            Some(s) => ({
                &&& crate::instruction::spec_decode(data@, 0) is Some
                &&& spec_format_from(crate::instruction::spec_decode(data@, 0)->0, 0) == Some(
                    s@,
                )
            }),
            None => crate::instruction::spec_decode(data@, 0) is None || spec_format_from(
                crate::instruction::spec_decode(data@, 0)->0,
                0,
            ) is None,
        },
{
    match crate::instruction::decode(data) {
        Ok(ins) => format(&ins),
        Err(_) => None,
    }
}

} // verus!
