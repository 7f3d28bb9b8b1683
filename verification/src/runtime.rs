//! The reference interpreter: the semantic ground truth for every opcode.
//!
//! A program runs over a 16-slot register file of 64-bit values, a fixed
//! 4 KiB stack and a 4 KiB guest-memory buffer. Addresses are virtual: the
//! guest-memory buffer occupies `GUEST_MEM_BASE ..` and the stack ends just
//! below `STACK_TOP`; register 1 starts at the base of guest memory and
//! register 10 just past the last stack byte. Every load and store is
//! checked against the two regions and fails with `MemOutOfBound` outside
//! them.
//!
//! Conventions this interpreter fixes (and the code generator follows):
//! division and modulo are unsigned at both widths, a division or modulo by
//! zero fails with `DivZero`, shift counts use only their low bits as the
//! hardware does, loads narrower than 64 bits sign-extend, and the byte-order
//! opcodes and `call` are recognized but refused.
use vstd::prelude::*;

use vstd::bytes::spec_u16_from_le_bytes;
use vstd::bytes::spec_u16_to_le_bytes;
use vstd::bytes::spec_u32_from_le_bytes;
use vstd::bytes::spec_u32_to_le_bytes;
use vstd::bytes::spec_u64_from_le_bytes;
use vstd::bytes::spec_u64_to_le_bytes;

use crate::error::VmError;
use crate::instruction::Instruction;
use crate::op;

verus! {

pub const STACK_SIZE: usize = 4096;
pub const MEM_SIZE: usize = 4096;
pub const NUM_REGS: usize = 16;

/// Virtual address of the first guest-memory byte; register 1 starts here.
pub const GUEST_MEM_BASE: u64 = 0x10000;

/// Virtual address just past the last stack byte; register 10 starts here.
pub const STACK_TOP: u64 = 0x30000;

/// Virtual address of the first stack byte.
pub const STACK_BASE: u64 = 0x30000 - 4096;

/// The whole machine state between two instructions.
pub struct VmSnap {
    /// Index of the next instruction slot to execute.
    pub pc: int,
    /// The 16 registers.
    pub regs: Seq<u64>,
    /// The stack bytes, lowest address first.
    pub stack: Seq<u8>,
    /// The guest-memory bytes, lowest address first.
    pub mem: Seq<u8>,
}

/// What one step does: continue in a new state, or halt in a final state
/// with the program's result. `Err(VmError::Unknown)` is the fatal abort on
/// a malformed or unsupported instruction.
pub enum StepRes {
    Next(VmSnap),
    Halt(VmSnap, Result<i64, VmError>),
}

/// The register file at the start of a run: zero everywhere, the guest
/// memory base in register 1 and the stack top in register 10.
pub open spec fn spec_regs_init() -> Seq<u64> {
    Seq::new(NUM_REGS as nat, |i: int| if i == 1 { GUEST_MEM_BASE } else if i == 10 { STACK_TOP } else { 0u64 })
}

/// The machine state at the start of a run over guest memory `mem`.
pub open spec fn spec_init(mem: Seq<u8>) -> VmSnap {
    VmSnap {
        pc: 0,
        regs: spec_regs_init(),
        stack: Seq::new(STACK_SIZE as nat, |i: int| 0u8),
        mem: mem,
    }
}

/// Value of a 32-bit binary ALU operation, selected by the operation nibble,
/// or `None` for a division or modulo by zero. Operands and result live in
/// the low 32 bits; shifts use the low five bits of the count; division and
/// modulo are unsigned; `arsh` shifts arithmetically.
pub open spec fn spec_alu32_val(nib: u8, x: u32, y: u32) -> Option<u32> {
    if nib == op::EBPF_ADD {
        Some(vstd::wrapping::u32_specs::wrapping_add(x, y))
    } else if nib == op::EBPF_SUB {
        Some(vstd::wrapping::u32_specs::wrapping_sub(x, y))
    } else if nib == op::EBPF_MUL {
        Some(vstd::wrapping::u32_specs::wrapping_mul(x, y))
    } else if nib == op::EBPF_DIV {
        if y == 0 {
            None
        } else {
            Some((x / y) as u32)
        }
    } else if nib == op::EBPF_OR {
        Some(x | y)
    } else if nib == op::EBPF_AND {
        Some(x & y)
    } else if nib == op::EBPF_LSH {
        Some(vstd::wrapping::u32_specs::wrapping_shl(x, y))
    } else if nib == op::EBPF_RSH {
        Some(vstd::wrapping::u32_specs::wrapping_shr(x, y))
    } else if nib == op::EBPF_MOD {
        if y == 0 {
            None
        } else {
            Some((x % y) as u32)
        }
    } else if nib == op::EBPF_XOR {
        Some(x ^ y)
    } else if nib == op::EBPF_MOV {
        Some(y)
    } else if nib == op::EBPF_ARSH {
        Some(vstd::wrapping::i32_specs::wrapping_shr(x as i32, y) as u32)
    } else {
        None
    }
}

/// Value of a 64-bit binary ALU operation; as the 32-bit form, on the full
/// register, with the low six bits of the shift count.
pub open spec fn spec_alu64_val(nib: u8, x: u64, y: u64) -> Option<u64> {
    if nib == op::EBPF_ADD {
        Some(vstd::wrapping::u64_specs::wrapping_add(x, y))
    } else if nib == op::EBPF_SUB {
        Some(vstd::wrapping::u64_specs::wrapping_sub(x, y))
    } else if nib == op::EBPF_MUL {
        Some(vstd::wrapping::u64_specs::wrapping_mul(x, y))
    } else if nib == op::EBPF_DIV {
        if y == 0 {
            None
        } else {
            Some((x / y) as u64)
        }
    } else if nib == op::EBPF_OR {
        Some(x | y)
    } else if nib == op::EBPF_AND {
        Some(x & y)
    } else if nib == op::EBPF_LSH {
        Some(vstd::wrapping::u64_specs::wrapping_shl(x, y as u32))
    } else if nib == op::EBPF_RSH {
        Some(vstd::wrapping::u64_specs::wrapping_shr(x, y as u32))
    } else if nib == op::EBPF_MOD {
        if y == 0 {
            None
        } else {
            Some((x % y) as u64)
        }
    } else if nib == op::EBPF_XOR {
        Some(x ^ y)
    } else if nib == op::EBPF_MOV {
        Some(y)
    } else if nib == op::EBPF_ARSH {
        Some(vstd::wrapping::i64_specs::wrapping_shr(x as i64, y as u32) as u64)
    } else {
        None
    }
}

/// Whether the conditional jump selected by the condition nibble branches on
/// operands `a` (destination register) and `b` (source register or
/// sign-extended immediate). `jgt`/`jge`/`jlt`/`jle` compare as unsigned
/// 64-bit values, `jsgt`/`jsge`/`jslt`/`jsle` as signed 64-bit values,
/// `jset` tests a bitwise intersection. `None` is no conditional jump.
pub open spec fn spec_jump_taken(nib: u8, a: u64, b: u64) -> Option<bool> {
    if nib == op::EBPF_JEQ {
        Some(a == b)
    } else if nib == op::EBPF_JGT {
        Some(a > b)
    } else if nib == op::EBPF_JGE {
        Some(a >= b)
    } else if nib == op::EBPF_JSET {
        Some(a & b != 0)
    } else if nib == op::EBPF_JNE {
        Some(a != b)
    } else if nib == op::EBPF_JSGT {
        Some((a as i64) > (b as i64))
    } else if nib == op::EBPF_JSGE {
        Some((a as i64) >= (b as i64))
    } else if nib == op::EBPF_JLT {
        Some(a < b)
    } else if nib == op::EBPF_JLE {
        Some(a <= b)
    } else if nib == op::EBPF_JSLT {
        Some((a as i64) < (b as i64))
    } else if nib == op::EBPF_JSLE {
        Some((a as i64) <= (b as i64))
    } else {
        None
    }
}

/// The bytes at virtual addresses `addr .. addr + size`, where the range
/// lies wholly inside the guest-memory region or wholly inside the stack
/// region; `None` outside both.
pub open spec fn spec_load_bytes(s: VmSnap, addr: u64, size: int) -> Option<Seq<u8>> {
    if GUEST_MEM_BASE <= addr && addr + size <= GUEST_MEM_BASE + MEM_SIZE {
        Some(s.mem.subrange(addr - GUEST_MEM_BASE, addr - GUEST_MEM_BASE + size))
    } else if STACK_BASE <= addr && addr + size <= STACK_BASE + STACK_SIZE {
        Some(s.stack.subrange(addr - STACK_BASE, addr - STACK_BASE + size))
    } else {
        None
    }
}

/// The sequence `s` with `b` written at offset `o`.
pub open spec fn spec_splice(s: Seq<u8>, o: int, b: Seq<u8>) -> Seq<u8> {
    s.subrange(0, o) + b + s.subrange(o + b.len(), s.len() as int)
}

/// The state after storing bytes `b` at virtual address `addr`, or `None`
/// where the range lies outside both regions.
pub open spec fn spec_store_bytes(s: VmSnap, addr: u64, b: Seq<u8>) -> Option<VmSnap> {
    if GUEST_MEM_BASE <= addr && addr + b.len() <= GUEST_MEM_BASE + MEM_SIZE {
        Some(VmSnap { mem: spec_splice(s.mem, addr - GUEST_MEM_BASE, b), ..s })
    } else if STACK_BASE <= addr && addr + b.len() <= STACK_BASE + STACK_SIZE {
        Some(VmSnap { stack: spec_splice(s.stack, addr - STACK_BASE, b), ..s })
    } else {
        None
    }
}

/// A loaded value: little-endian, sign-extended to 64 bits below the full
/// width.
pub open spec fn spec_sext_load(b: Seq<u8>, size: int) -> u64 {
    if size == 1 {
        b[0] as i8 as i64 as u64
    } else if size == 2 {
        spec_u16_from_le_bytes(b) as i16 as i64 as u64
    } else if size == 4 {
        spec_u32_from_le_bytes(b) as i32 as i64 as u64
    } else {
        spec_u64_from_le_bytes(b)
    }
}

/// The little-endian bytes of the low `size` bytes of `v`.
pub open spec fn spec_narrow_bytes(v: u64, size: int) -> Seq<u8> {
    if size == 1 {
        seq![v as u8]
    } else if size == 2 {
        spec_u16_to_le_bytes(v as u16)
    } else if size == 4 {
        spec_u32_to_le_bytes(v as u32)
    } else {
        spec_u64_to_le_bytes(v)
    }
}

/// Memory access width selected by the size bits of the opcode.
pub open spec fn spec_size_of(op_byte: u8) -> int {
    if op_byte & 0x18 == op::EBPF_SIZE_W {
        4
    } else if op_byte & 0x18 == op::EBPF_SIZE_H {
        2
    } else if op_byte & 0x18 == op::EBPF_SIZE_B {
        1
    } else {
        8
    }
}

/// The virtual address of a memory operand: base register plus sign-extended
/// 16-bit displacement, wrapping as 64-bit addition does.
pub open spec fn spec_mem_addr(base: u64, offset: i16) -> u64 {
    vstd::wrapping::u64_specs::wrapping_add(base, offset as i64 as u64)
}

/// One step of an ALU instruction (class 4 or 7).
pub open spec fn spec_step_alu(s: VmSnap, ins: Instruction, is64: bool) -> StepRes {
    let dst = ins.spec_dst_reg() as int;
    let a = s.regs[dst];
    let nib = ins.op & 0xf0;
    if ins.op == op::NEG32 || ins.op == op::NEG64 {
        let v = if is64 {
            vstd::wrapping::u64_specs::wrapping_sub(0u64, a)
        } else {
            vstd::wrapping::u32_specs::wrapping_sub(0u32, a as u32) as u64
        };
        StepRes::Next(VmSnap { pc: s.pc + 1, regs: s.regs.update(dst, v), ..s })
    } else if nib == op::EBPF_NEG || nib == op::EBPF_END || nib == 0xe0 || nib == 0xf0 {
        StepRes::Halt(s, Err(VmError::Unknown))
    } else {
        let b = if ins.spec_source() == 1 {
            s.regs[ins.spec_src_reg() as int]
        } else {
            ins.imm as u64
        };
        let v = if is64 {
            spec_alu64_val(nib, a, b)
        } else {
            match spec_alu32_val(nib, a as u32, b as u32) {
                Some(x) => Some(x as u64),
                None => None,
            }
        };
        match v {
            Some(x) => StepRes::Next(VmSnap { pc: s.pc + 1, regs: s.regs.update(dst, x), ..s }),
            None => StepRes::Halt(s, Err(VmError::DivZero)),
        }
    }
}

/// One step of a jump instruction (class 5).
pub open spec fn spec_step_jmp(s: VmSnap, ins: Instruction) -> StepRes {
    if ins.op == op::JA {
        StepRes::Next(VmSnap { pc: s.pc + 1 + ins.offset, ..s })
    } else if ins.op == op::EXIT {
        StepRes::Halt(s, Ok(s.regs[0] as i64))
    } else if ins.op == op::CALL {
        // helper-function dispatch is deferred: the interpreter refuses
        StepRes::Halt(s, Err(VmError::Unknown))
    } else {
        let a = s.regs[ins.spec_dst_reg() as int];
        let b = if ins.spec_source() == 1 {
            s.regs[ins.spec_src_reg() as int]
        } else {
            ins.imm as u64
        };
        match spec_jump_taken(ins.op & 0xf0, a, b) {
            Some(taken) => StepRes::Next(
                VmSnap { pc: if taken { s.pc + 1 + ins.offset } else { s.pc + 1 }, ..s },
            ),
            None => StepRes::Halt(s, Err(VmError::Unknown)),
        }
    }
}

/// One step of a register load (class 1, `ldx`).
pub open spec fn spec_step_ldx(s: VmSnap, ins: Instruction) -> StepRes {
    if ins.op & 0xe0 != op::EBPF_MODE_MEM {
        StepRes::Halt(s, Err(VmError::Unknown))
    } else {
        let size = spec_size_of(ins.op);
        let addr = spec_mem_addr(s.regs[ins.spec_src_reg() as int], ins.offset);
        match spec_load_bytes(s, addr, size) {
            Some(b) => StepRes::Next(
                VmSnap {
                    pc: s.pc + 1,
                    regs: s.regs.update(ins.spec_dst_reg() as int, spec_sext_load(b, size)),
                    ..s
                },
            ),
            None => StepRes::Halt(s, Err(VmError::MemOutOfBound)),
        }
    }
}

/// One step of a store (class 2 stores the immediate, class 3 stores the
/// source register).
pub open spec fn spec_step_st(s: VmSnap, ins: Instruction, from_reg: bool) -> StepRes {
    if ins.op & 0xe0 != op::EBPF_MODE_MEM {
        StepRes::Halt(s, Err(VmError::Unknown))
    } else {
        let size = spec_size_of(ins.op);
        let addr = spec_mem_addr(s.regs[ins.spec_dst_reg() as int], ins.offset);
        let v = if from_reg {
            s.regs[ins.spec_src_reg() as int]
        } else {
            ins.imm as u64
        };
        match spec_store_bytes(s, addr, spec_narrow_bytes(v, size)) {
            Some(s2) => StepRes::Next(VmSnap { pc: s.pc + 1, ..s2 }),
            None => StepRes::Halt(s, Err(VmError::MemOutOfBound)),
        }
    }
}

/// One dispatch step of the interpreter: fetch at `s.pc`, execute, advance.
/// Fetching outside the program and every opcode no table row defines halt
/// the machine with `VmError::Unknown`.
pub open spec fn spec_step(prog: Seq<Instruction>, s: VmSnap) -> StepRes {
    if !(0 <= s.pc < prog.len()) {
        StepRes::Halt(s, Err(VmError::Unknown))
    } else {
        let ins = prog[s.pc];
        let cls = ins.op & 0x7;
        if ins.op == op::LDDW {
            StepRes::Next(
                VmSnap {
                    pc: s.pc + 2,
                    regs: s.regs.update(ins.spec_dst_reg() as int, ins.imm as u64),
                    ..s
                },
            )
        } else if cls == crate::class::EBPF_CLS_ALU {
            spec_step_alu(s, ins, false)
        } else if cls == crate::class::EBPF_CLS_ALU64 {
            spec_step_alu(s, ins, true)
        } else if cls == crate::class::EBPF_CLS_JMP {
            spec_step_jmp(s, ins)
        } else if cls == crate::class::EBPF_CLS_LDX {
            spec_step_ldx(s, ins)
        } else if cls == crate::class::EBPF_CLS_ST {
            spec_step_st(s, ins, false)
        } else if cls == crate::class::EBPF_CLS_STX {
            spec_step_st(s, ins, true)
        } else {
            StepRes::Halt(s, Err(VmError::Unknown))
        }
    }
}

/// The machine after `n` dispatch steps from `s`: still running, or halted
/// earlier (a halt state absorbs every further step).
pub open spec fn spec_steps(prog: Seq<Instruction>, s: VmSnap, n: nat) -> StepRes
    decreases n,
{
    if n == 0 {
        StepRes::Next(s)
    } else {
        match spec_step(prog, s) {
            StepRes::Next(s2) => spec_steps(prog, s2, (n - 1) as nat),
            StepRes::Halt(sf, r) => StepRes::Halt(sf, r),
        }
    }
}

/// Appending one step: if the machine still runs after `n` steps, the state
/// after `n + 1` steps is one dispatch further.
pub proof fn lemma_steps_extend(prog: Seq<Instruction>, s: VmSnap, n: nat)
    requires
        spec_steps(prog, s, n) is Next,
    ensures
        spec_steps(prog, s, n + 1) == spec_step(prog, spec_steps(prog, s, n)->Next_0),
    decreases n,
{
    if n == 0 {
        assert(spec_steps(prog, s, 0) == StepRes::Next(s));
        match spec_step(prog, s) {
            StepRes::Next(s2) => {
                assert(spec_steps(prog, s2, 0) == StepRes::Next(s2));
                assert(spec_steps(prog, s, 1) == spec_step(prog, s));
            },
            StepRes::Halt(sf, r) => {
                assert(spec_steps(prog, s, 1) == spec_step(prog, s));
            },
        }
    } else {
        match spec_step(prog, s) {
            StepRes::Next(s2) => {
                lemma_steps_extend(prog, s2, (n - 1) as nat);
                assert(spec_steps(prog, s, n + 1) == spec_steps(prog, s2, n));
                assert(spec_steps(prog, s, n) == spec_steps(prog, s2, (n - 1) as nat));
            },
            StepRes::Halt(sf, r) => {},
        }
    }
}

/// A halt is final: after halting, every longer step count gives the same
/// halt.
pub proof fn lemma_halt_absorbs(prog: Seq<Instruction>, s: VmSnap, n: nat, m: nat)
    requires
        n <= m,
        spec_steps(prog, s, n) is Halt,
    ensures
        spec_steps(prog, s, m) == spec_steps(prog, s, n),
    decreases n,
{
    if n == 0 {
    } else {
        match spec_step(prog, s) {
            StepRes::Next(s2) => {
                lemma_halt_absorbs(prog, s2, (n - 1) as nat, (m - 1) as nat);
            },
            StepRes::Halt(sf, r) => {},
        }
    }
}

/// The interpreter is deterministic: a program that halts halts in exactly
/// one final state with exactly one result, whatever step counts witness it.
pub proof fn lemma_run_deterministic(
    prog: Seq<Instruction>,
    s: VmSnap,
    n1: nat,
    n2: nat,
)
    requires
        spec_steps(prog, s, n1) is Halt,
        spec_steps(prog, s, n2) is Halt,
    ensures
        spec_steps(prog, s, n1) == spec_steps(prog, s, n2),
{
    if n1 <= n2 {
        lemma_halt_absorbs(prog, s, n1, n2);
    } else {
        lemma_halt_absorbs(prog, s, n2, n1);
    }
}

/// Every conditional jump branches on the comparison its condition nibble
/// names: the unsigned nibbles compare the operands as unsigned 64-bit
/// values, the signed nibbles as signed 64-bit values, `jset` tests the
/// bitwise intersection, and within one step the immediate operand is the
/// sign-extended immediate of the instruction.
pub proof fn lemma_cond_jump_predicate(prog: Seq<Instruction>, s: VmSnap)
    requires
        0 <= s.pc < prog.len(),
        prog[s.pc].spec_class() == crate::class::EBPF_CLS_JMP,
        prog[s.pc].op != op::JA,
        prog[s.pc].op != op::EXIT,
        prog[s.pc].op != op::CALL,
        spec_jump_taken(prog[s.pc].op & 0xf0, 0, 0) is Some,
    ensures
        ({
            let ins = prog[s.pc];
            let a = s.regs[ins.spec_dst_reg() as int];
            let b = if ins.spec_source() == 1 {
                s.regs[ins.spec_src_reg() as int]
            } else {
                ins.imm as u64
            };
            let nib = ins.op & 0xf0;
            let taken = spec_jump_taken(nib, a, b)->0;
            &&& spec_step(prog, s) == StepRes::Next(
                VmSnap { pc: if taken { s.pc + 1 + ins.offset } else { s.pc + 1 }, ..s },
            )
            &&& (nib == op::EBPF_JGT ==> (taken <==> a > b))
            &&& (nib == op::EBPF_JGE ==> (taken <==> a >= b))
            &&& (nib == op::EBPF_JLT ==> (taken <==> a < b))
            &&& (nib == op::EBPF_JLE ==> (taken <==> a <= b))
            &&& (nib == op::EBPF_JSGT ==> (taken <==> (a as i64) > (b as i64)))
            &&& (nib == op::EBPF_JSGE ==> (taken <==> (a as i64) >= (b as i64)))
            &&& (nib == op::EBPF_JSLT ==> (taken <==> (a as i64) < (b as i64)))
            &&& (nib == op::EBPF_JSLE ==> (taken <==> (a as i64) <= (b as i64)))
            &&& (nib == op::EBPF_JEQ ==> (taken <==> a == b))
            &&& (nib == op::EBPF_JNE ==> (taken <==> a != b))
            &&& (nib == op::EBPF_JSET ==> (taken <==> a & b != 0))
        }),
{
    crate::op::lemma_opcode_values();
    let ins = prog[s.pc];
    let o = ins.op;
    assert(o & 0x7 == 5 ==> o != 0x18) by (bit_vector);
    assert(spec_step(prog, s) == spec_step_jmp(s, ins));
    let a = s.regs[ins.spec_dst_reg() as int];
    let b = if ins.spec_source() == 1 {
        s.regs[ins.spec_src_reg() as int]
    } else {
        ins.imm as u64
    };
    let nib = ins.op & 0xf0;
    assert(spec_jump_taken(nib, a, b) is Some);
    let taken = spec_jump_taken(nib, a, b)->0;
    assert(spec_step_jmp(s, ins) == StepRes::Next(
        VmSnap { pc: if taken { s.pc + 1 + ins.offset } else { s.pc + 1 }, ..s },
    ));
}

/// A run that halts halts in exactly one state with one result; this names
/// that outcome for a program started over guest memory `mem0`.
pub open spec fn spec_halts_with(
    prog: Seq<Instruction>,
    mem0: Seq<u8>,
    sf: VmSnap,
    r: Result<i64, VmError>,
) -> bool {
    exists|n: nat| #[trigger] spec_steps(prog, spec_init(mem0), n) == StepRes::Halt(sf, r)
}

/// Bit-level facts about one opcode byte used while relating the dispatch
/// chain to its class field.
proof fn lemma_op_facts(o: u8)
    ensures
        o & 0x7 != 0 ==> o != 0x18,
        ((o >> 3) & 0x1 == 1) <==> (o & 0x8 == 0x8),
        o & 0xf0 == 0x80 || o & 0xf0 == 0xd0 || o & 0xf0 == 0xe0 || o & 0xf0 == 0xf0
            || o & 0xf0 == 0x00 || o & 0xf0 == 0x10 || o & 0xf0 == 0x20 || o & 0xf0 == 0x30
            || o & 0xf0 == 0x40 || o & 0xf0 == 0x50 || o & 0xf0 == 0x60 || o & 0xf0 == 0x70
            || o & 0xf0 == 0x90 || o & 0xf0 == 0xa0 || o & 0xf0 == 0xb0 || o & 0xf0 == 0xc0,
        o & 0x18 == 0x00 || o & 0x18 == 0x08 || o & 0x18 == 0x10 || o & 0x18 == 0x18,
{
    assert((o & 0x7 != 0 ==> o != 0x18) && (((o >> 3) & 0x1 == 1) <==> (o & 0x8 == 0x8)) && (o
        & 0xf0 == 0x80 || o & 0xf0 == 0xd0 || o & 0xf0 == 0xe0 || o & 0xf0 == 0xf0 || o & 0xf0
        == 0x00 || o & 0xf0 == 0x10 || o & 0xf0 == 0x20 || o & 0xf0 == 0x30 || o & 0xf0 == 0x40
        || o & 0xf0 == 0x50 || o & 0xf0 == 0x60 || o & 0xf0 == 0x70 || o & 0xf0 == 0x90 || o
        & 0xf0 == 0xa0 || o & 0xf0 == 0xb0 || o & 0xf0 == 0xc0) && (o & 0x18 == 0x00 || o & 0x18
        == 0x08 || o & 0x18 == 0x10 || o & 0x18 == 0x18)) by (bit_vector);
}

/// Value of a 32-bit binary ALU operation; see `spec_alu32_val`.
fn alu32_val(nib: u8, x: u32, y: u32) -> (r: Option<u32>)
    ensures
        r == spec_alu32_val(nib, x, y),
{
    if nib == op::EBPF_ADD {
        Some(x.wrapping_add(y))
    } else if nib == op::EBPF_SUB {
        Some(x.wrapping_sub(y))
    } else if nib == op::EBPF_MUL {
        Some(x.wrapping_mul(y))
    } else if nib == op::EBPF_DIV {
        if y == 0 {
            None
        } else {
            Some(x / y)
        }
    } else if nib == op::EBPF_OR {
        Some(x | y)
    } else if nib == op::EBPF_AND {
        Some(x & y)
    } else if nib == op::EBPF_LSH {
        Some(x.wrapping_shl(y))
    } else if nib == op::EBPF_RSH {
        Some(x.wrapping_shr(y))
    } else if nib == op::EBPF_MOD {
        if y == 0 {
            None
        } else {
            Some(x % y)
        }
    } else if nib == op::EBPF_XOR {
        Some(x ^ y)
    } else if nib == op::EBPF_MOV {
        Some(y)
    } else if nib == op::EBPF_ARSH {
        Some(#[verifier::truncate] ((x as i32).wrapping_shr(y) as u32))
    } else {
        None
    }
}

/// Value of a 64-bit binary ALU operation; see `spec_alu64_val`.
fn alu64_val(nib: u8, x: u64, y: u64) -> (r: Option<u64>)
    ensures
        r == spec_alu64_val(nib, x, y),
{
    if nib == op::EBPF_ADD {
        Some(x.wrapping_add(y))
    } else if nib == op::EBPF_SUB {
        Some(x.wrapping_sub(y))
    } else if nib == op::EBPF_MUL {
        Some(x.wrapping_mul(y))
    } else if nib == op::EBPF_DIV {
        if y == 0 {
            None
        } else {
            Some(x / y)
        }
    } else if nib == op::EBPF_OR {
        Some(x | y)
    } else if nib == op::EBPF_AND {
        Some(x & y)
    } else if nib == op::EBPF_LSH {
        Some(x.wrapping_shl(#[verifier::truncate] (y as u32)))
    } else if nib == op::EBPF_RSH {
        Some(x.wrapping_shr(#[verifier::truncate] (y as u32)))
    } else if nib == op::EBPF_MOD {
        if y == 0 {
            None
        } else {
            Some(x % y)
        }
    } else if nib == op::EBPF_XOR {
        Some(x ^ y)
    } else if nib == op::EBPF_MOV {
        Some(y)
    } else if nib == op::EBPF_ARSH {
        Some(
            #[verifier::truncate] ((x as i64).wrapping_shr(#[verifier::truncate] (y as u32))
                as u64),
        )
    } else {
        None
    }
}

/// Whether a conditional jump branches; see `spec_jump_taken`.
fn jump_taken(nib: u8, a: u64, b: u64) -> (r: Option<bool>)
    ensures
        r == spec_jump_taken(nib, a, b),
{
    if nib == op::EBPF_JEQ {
        Some(a == b)
    } else if nib == op::EBPF_JGT {
        Some(a > b)
    } else if nib == op::EBPF_JGE {
        Some(a >= b)
    } else if nib == op::EBPF_JSET {
        Some(a & b != 0)
    } else if nib == op::EBPF_JNE {
        Some(a != b)
    } else if nib == op::EBPF_JSGT {
        Some((a as i64) > (b as i64))
    } else if nib == op::EBPF_JSGE {
        Some((a as i64) >= (b as i64))
    } else if nib == op::EBPF_JLT {
        Some(a < b)
    } else if nib == op::EBPF_JLE {
        Some(a <= b)
    } else if nib == op::EBPF_JSLT {
        Some((a as i64) < (b as i64))
    } else if nib == op::EBPF_JSLE {
        Some((a as i64) <= (b as i64))
    } else {
        None
    }
}

/// A vector of `n` zero bytes.
fn zero_bytes(n: usize) -> (r: Vec<u8>)
    ensures
        r@ == Seq::new(n as nat, |i: int| 0u8),
{
    let mut v: Vec<u8> = Vec::new();
    let mut i: usize = 0;
    while i < n
        invariant
            i <= n,
            v@ == Seq::new(i as nat, |j: int| 0u8),
        decreases n - i,
    {
        v.push(0);
        i = i + 1;
        proof {
            assert(v@ =~= Seq::new(i as nat, |j: int| 0u8));
        }
    }
    v
}

/// Which region a virtual address range falls in: `Some((false, o))` for
/// guest memory at offset `o`, `Some((true, o))` for the stack, `None`
/// wholly outside both.
fn region_lookup(addr: u64, size: usize) -> (r: Option<(bool, usize)>)
    requires
        1 <= size <= 8,
    ensures
        (GUEST_MEM_BASE <= addr && addr + size <= GUEST_MEM_BASE + MEM_SIZE) ==> r == Some(
            (false, (addr - GUEST_MEM_BASE) as usize),
        ),
        !(GUEST_MEM_BASE <= addr && addr + size <= GUEST_MEM_BASE + MEM_SIZE) && (STACK_BASE
            <= addr && addr + size <= STACK_BASE + STACK_SIZE) ==> r == Some(
            (true, (addr - STACK_BASE) as usize),
        ),
        !(GUEST_MEM_BASE <= addr && addr + size <= GUEST_MEM_BASE + MEM_SIZE) && !(STACK_BASE
            <= addr && addr + size <= STACK_BASE + STACK_SIZE) ==> r is None,
        r == Some((false, (addr - GUEST_MEM_BASE) as usize)) ==> addr - GUEST_MEM_BASE + size
            <= MEM_SIZE,
        r == Some((true, (addr - STACK_BASE) as usize)) ==> addr - STACK_BASE + size
            <= STACK_SIZE,
{
    if addr >= GUEST_MEM_BASE && addr - GUEST_MEM_BASE <= (MEM_SIZE - size) as u64 {
        Some((false, (addr - GUEST_MEM_BASE) as usize))
    } else if addr >= STACK_BASE && addr - STACK_BASE <= (STACK_SIZE - size) as u64 {
        Some((true, (addr - STACK_BASE) as usize))
    } else {
        None
    }
}

/// Loads `size` bytes at offset `o`, sign-extending below 64 bits.
fn load_sext(buf: &Vec<u8>, o: usize, size: usize) -> (r: u64)
    requires
        size == 1 || size == 2 || size == 4 || size == 8,
        o + size <= buf@.len(),
    ensures
        r == spec_sext_load(buf@.subrange(o as int, o + size), size as int),
{
    let n = buf.len();
    if size == 1 {
        let b = buf[o];
        proof {
            assert(buf@.subrange(o as int, o + 1)[0] == buf@[o as int]);
        }
        b as i8 as i64 as u64
    } else if size == 2 {
        let x = vstd::bytes::u16_from_le_bytes(
            vstd::slice::slice_subrange(buf.as_slice(), o, o + 2),
        );
        (#[verifier::truncate] (x as i16)) as i64 as u64
    } else if size == 4 {
        let x = vstd::bytes::u32_from_le_bytes(
            vstd::slice::slice_subrange(buf.as_slice(), o, o + 4),
        );
        (#[verifier::truncate] (x as i32)) as i64 as u64
    } else {
        vstd::bytes::u64_from_le_bytes(vstd::slice::slice_subrange(buf.as_slice(), o, o + 8))
    }
}

/// The little-endian bytes of the low `size` bytes of `v`.
fn narrow_bytes(v: u64, size: usize) -> (r: Vec<u8>)
    requires
        size == 1 || size == 2 || size == 4 || size == 8,
    ensures
        r@ == spec_narrow_bytes(v, size as int),
        r@.len() == size,
{
    proof {
        vstd::bytes::lemma_auto_spec_u16_to_from_le_bytes();
        vstd::bytes::lemma_auto_spec_u32_to_from_le_bytes();
        vstd::bytes::lemma_auto_spec_u64_to_from_le_bytes();
    }
    if size == 1 {
        let mut r: Vec<u8> = Vec::new();
        r.push(#[verifier::truncate] (v as u8));
        proof {
            assert(r@ =~= spec_narrow_bytes(v, 1));
        }
        r
    } else if size == 2 {
        vstd::bytes::u16_to_le_bytes(#[verifier::truncate] (v as u16))
    } else if size == 4 {
        vstd::bytes::u32_to_le_bytes(#[verifier::truncate] (v as u32))
    } else {
        vstd::bytes::u64_to_le_bytes(v)
    }
}

/// Writes `b` into `buf` at offset `o`.
fn write_at(buf: &mut Vec<u8>, o: usize, b: &[u8])
    requires
        o + b@.len() <= old(buf)@.len(),
    ensures
        final(buf)@ == spec_splice(old(buf)@, o as int, b@),
{
    let m = b.len();
    let n = buf.len();
    let mut j: usize = 0;
    while j < m
        invariant
            j <= m,
            m == b@.len(),
            n == buf@.len(),
            o + m <= buf@.len(),
            buf@.len() == old(buf)@.len(),
            forall|idx: int|
                0 <= idx < buf@.len() ==> #[trigger] buf@[idx] == if o <= idx < o + j {
                    b@[idx - o]
                } else {
                    old(buf)@[idx]
                },
        decreases m - j,
    {
        buf.set(o + j, *vstd::slice::slice_index_get(b, j));
        j = j + 1;
    }
    proof {
        assert(buf@ =~= spec_splice(old(buf)@, o as int, b@));
    }
}

/// A `lddw` record executes as one instruction: it loads its full 64-bit
/// immediate and advances the program counter by two slots, over its
/// continuation record.
pub proof fn lemma_lddw_step(prog: Seq<Instruction>, s: VmSnap)
    requires
        0 <= s.pc < prog.len(),
        prog[s.pc].op == op::LDDW,
    ensures
        spec_step(prog, s) == StepRes::Next(
            VmSnap {
                pc: s.pc + 2,
                regs: s.regs.update(
                    prog[s.pc].spec_dst_reg() as int,
                    prog[s.pc].imm as u64,
                ),
                ..s
            },
        ),
{
}


/// The virtual machine: a program, its register file, stack and guest
/// memory.
#[derive(Debug, Clone)]
pub struct VirtualMachine {
    instructions: Vec<Instruction>,
    pc: usize,
    memory_bound_check: bool,
    regs: Vec<u64>,
    stack: Vec<u8>,
    virtual_mem: Vec<u8>,
}

impl VirtualMachine {
    /// The sizes every method relies on: 16 registers, a full stack and a
    /// full guest-memory buffer.
    pub closed spec fn wf(self) -> bool {
        self.regs@.len() == NUM_REGS && self.stack@.len() == STACK_SIZE && self.virtual_mem@.len()
            == MEM_SIZE
    }

    /// The loaded program.
    pub closed spec fn spec_instructions(self) -> Seq<Instruction> {
        self.instructions@
    }

    /// The machine state this instance holds.
    pub closed spec fn snap(self) -> VmSnap {
        VmSnap { pc: self.pc as int, regs: self.regs@, stack: self.stack@, mem: self.virtual_mem@ }
    }

    /// Whether the structural bounds-check flag is set.
    pub closed spec fn spec_bound_check(self) -> bool {
        self.memory_bound_check
    }

    pub fn new(instructions: Vec<Instruction>) -> (r: Self)
        ensures
            r.wf(),
            r.spec_instructions() == instructions@,
            r.snap().pc == 0,
            r.snap().regs == Seq::new(NUM_REGS as nat, |i: int| 0u64),
            r.snap().stack == Seq::new(STACK_SIZE as nat, |i: int| 0u8),
            r.snap().mem == Seq::new(MEM_SIZE as nat, |i: int| 0u8),
            r.spec_bound_check(),
    {
        Self {
            instructions,
            pc: 0,
            memory_bound_check: true,
            regs: zero_regs(),
            stack: zero_bytes(STACK_SIZE),
            virtual_mem: zero_bytes(MEM_SIZE),
        }
    }

    /// Structural bounds checking is always on in this interpreter: every
    /// load and store is held to the two memory regions. The flag is kept
    /// for the host interface and reads as a no-op.
    pub fn bound_check(&self) {
        if !self.memory_bound_check {
            return;
        }
    }

    /// Writes `size` bytes of `content` into guest memory at `start`.
    /// Fails with `MemOutOfBound`, changing nothing, exactly when `start`
    /// lies past the buffer (an empty write there is refused too), the
    /// range leaves the buffer, or `content` is shorter than `size` (the
    /// short `content` is refused rather than read past its end).
    pub fn set_mem(&mut self, start: usize, size: usize, content: &[u8]) -> (r: Result<
        (),
        VmError,
    >)
        requires
            old(self).wf(),
        ensures
            final(self).wf(),
            final(self).spec_instructions() == old(self).spec_instructions(),
            final(self).snap().regs == old(self).snap().regs,
            final(self).snap().stack == old(self).snap().stack,
            match r {
                Ok(()) => start < MEM_SIZE && start + size <= MEM_SIZE && size <= content@.len()
                    && final(self).snap().mem == spec_splice(
                    old(self).snap().mem,
                    start as int,
                    content@.subrange(0, size as int),
                ),
                Err(e) => e == VmError::MemOutOfBound && (start >= MEM_SIZE || start + size
                    > MEM_SIZE || size > content@.len()) && final(self).snap().mem == old(
                    self,
                ).snap().mem,
            },
    {
        let clen = content.len();
        if start >= MEM_SIZE || size > MEM_SIZE - start || size > clen {
            return Err(VmError::MemOutOfBound);
        }
        let part = vstd::slice::slice_subrange(content, 0, size);
        write_at(&mut self.virtual_mem, start, part);
        Ok(())
    }

    /// Runs the loaded program from a fresh machine state: the registers
    /// and the stack are cleared, register 1 points at guest memory and
    /// register 10 at the stack top, and dispatch proceeds until the
    /// program exits with a value, fails, or executes something malformed.
    /// The result and the machine state left behind are the ones the step
    /// relation reaches: some number of steps from the initial state ends
    /// in exactly this halt. A program that is still running after 2^64
    /// steps is given up on with `VmError::Unknown`.
    pub fn exec(&mut self) -> (r: Result<i64, VmError>)
        requires
            old(self).wf(),
        ensures
            final(self).wf(),
            final(self).spec_instructions() == old(self).spec_instructions(),
            (exists|sf: VmSnap|
                {
                    &&& #[trigger] spec_halts_with(
                        old(self).spec_instructions(),
                        old(self).snap().mem,
                        sf,
                        r,
                    )
                    &&& final(self).snap().regs == sf.regs
                    &&& final(self).snap().stack == sf.stack
                    &&& final(self).snap().mem == sf.mem
                }) || (r == Err::<i64, VmError>(VmError::Unknown) && spec_steps(
                old(self).spec_instructions(),
                spec_init(old(self).snap().mem),
                u64::MAX as nat,
            ) is Next),
    {
        let ghost prog = self.instructions@;
        let ghost mem0 = self.virtual_mem@;
        self.reset();
        let ghost init = spec_init(mem0);
        proof {
            assert(self.snap() =~= init);
            assert(self.snap().regs =~= init.regs);
            assert(self.snap().stack =~= init.stack);
        }
        let ghost mut k: nat = 0;
        let mut fuel: u64 = 0;
        let n = self.instructions.len();
        loop
            invariant
                self.wf(),
                self.instructions@ == prog,
                prog == old(self).spec_instructions(),
                mem0 == old(self).snap().mem,
                init == spec_init(mem0),
                n == prog.len(),
                self.virtual_mem@.len() == MEM_SIZE,
                k == fuel as nat,
                spec_steps(prog, init, k) == StepRes::Next(self.snap()),
            decreases u64::MAX - fuel,
        {
            let ghost snap0 = self.snap();
            proof {
                lemma_steps_extend(prog, init, k);
            }
            if fuel == u64::MAX {
                return Err(VmError::Unknown);
            }
            fuel = fuel + 1;
            if self.pc >= n {
                proof {
                    assert(spec_step(prog, snap0) == StepRes::Halt(snap0, Err::<i64, VmError>(VmError::Unknown)));
                    assert(spec_steps(prog, init, (k + 1) as nat) == StepRes::Halt(snap0, Err::<i64, VmError>(VmError::Unknown)));
                    assert(spec_halts_with(prog, mem0, snap0, Err::<i64, VmError>(VmError::Unknown)));
                }
                return Err(VmError::Unknown);
            }
            let ins = self.instructions[self.pc];
            let dst = ins.dst_reg() as usize;
            let src = ins.src_reg() as usize;
            proof {
                crate::instruction::lemma_reg_nibble_bounds(ins);
                lemma_op_facts(ins.op);
                crate::op::lemma_opcode_values();
            }
            let cls = ins.op & 0x7;
            if ins.op == op::LDDW {
                self.regs.set(dst, ins.imm as u64);
                let ghost snap1 = VmSnap {
                    pc: snap0.pc + 2,
                    regs: snap0.regs.update(dst as int, ins.imm as u64),
                    ..snap0
                };
                proof {
                    assert(spec_step(prog, snap0) == StepRes::Next(snap1));
                    assert(spec_steps(prog, init, (k + 1) as nat) == StepRes::Next(snap1));
                }
                if n - self.pc <= 2 {
                    proof {
                        lemma_steps_extend(prog, init, (k + 1) as nat);
                        assert(spec_step(prog, snap1) == StepRes::Halt(snap1, Err::<i64, VmError>(VmError::Unknown)));
                        assert(spec_steps(prog, init, (k + 2) as nat) == StepRes::Halt(snap1, Err::<i64, VmError>(VmError::Unknown)));
                        assert(spec_halts_with(prog, mem0, snap1, Err::<i64, VmError>(VmError::Unknown)));
                        assert(self.snap().regs == snap1.regs);
                    }
                    return Err(VmError::Unknown);
                }
                self.pc = self.pc + 2;
                proof {
                    assert(self.snap() == snap1);
                    k = k + 1;
                }
            } else if cls == crate::class::EBPF_CLS_ALU || cls == crate::class::EBPF_CLS_ALU64 {
                let is64 = cls == crate::class::EBPF_CLS_ALU64;
                let a = self.regs[dst];
                if ins.op == op::NEG32 || ins.op == op::NEG64 {
                    let v: u64 = if is64 {
                        0u64.wrapping_sub(a)
                    } else {
                        0u32.wrapping_sub(#[verifier::truncate] (a as u32)) as u64
                    };
                    self.regs.set(dst, v);
                    self.pc = self.pc + 1;
                    proof {
                        assert(spec_step(prog, snap0) == StepRes::Next(self.snap()));
                        k = k + 1;
                    }
                } else {
                    let nib = ins.op & 0xf0;
                    if nib == op::EBPF_NEG || nib == op::EBPF_END || nib == 0xe0 || nib == 0xf0 {
                        proof {
                            assert(spec_step(prog, snap0) == StepRes::Halt(snap0, Err::<i64, VmError>(VmError::Unknown)));
                            assert(spec_steps(prog, init, (k + 1) as nat) == StepRes::Halt(snap0, Err::<i64, VmError>(VmError::Unknown)));
                            assert(spec_halts_with(prog, mem0, snap0, Err::<i64, VmError>(VmError::Unknown)));
                        }
                        return Err(VmError::Unknown);
                    }
                    let b: u64 = if ins.source() == 1 {
                        self.regs[src]
                    } else {
                        ins.imm as u64
                    };
                    let v: Option<u64> = if is64 {
                        alu64_val(nib, a, b)
                    } else {
                        match alu32_val(nib, #[verifier::truncate] (a as u32), #[verifier::truncate] (b as u32)) {
                            Some(x) => Some(x as u64),
                            None => None,
                        }
                    };
                    match v {
                        Some(x) => {
                            self.regs.set(dst, x);
                            self.pc = self.pc + 1;
                            proof {
                                assert(spec_step(prog, snap0) == StepRes::Next(self.snap()));
                                k = k + 1;
                            }
                        },
                        None => {
                            proof {
                                assert(spec_step(prog, snap0) == StepRes::Halt(snap0, Err::<i64, VmError>(VmError::DivZero)));
                                assert(spec_steps(prog, init, (k + 1) as nat) == StepRes::Halt(snap0, Err::<i64, VmError>(VmError::DivZero)));
                                assert(spec_halts_with(prog, mem0, snap0, Err::<i64, VmError>(VmError::DivZero)));
                            }
                            return Err(VmError::DivZero);
                        },
                    }
                }
            } else if cls == crate::class::EBPF_CLS_JMP {
                if ins.op == op::EXIT {
                    let r0 = #[verifier::truncate] (self.regs[0] as i64);
                    proof {
                        assert(spec_step(prog, snap0) == StepRes::Halt(snap0, Ok::<i64, VmError>(snap0.regs[0] as i64)));
                        assert(spec_steps(prog, init, (k + 1) as nat) == StepRes::Halt(snap0, Ok::<i64, VmError>(r0)));
                        assert(spec_halts_with(prog, mem0, snap0, Ok::<i64, VmError>(r0)));
                    }
                    return Ok(r0);
                } else if ins.op == op::CALL {
                    proof {
                        assert(spec_step(prog, snap0) == StepRes::Halt(snap0, Err::<i64, VmError>(VmError::Unknown)));
                        assert(spec_steps(prog, init, (k + 1) as nat) == StepRes::Halt(snap0, Err::<i64, VmError>(VmError::Unknown)));
                        assert(spec_halts_with(prog, mem0, snap0, Err::<i64, VmError>(VmError::Unknown)));
                    }
                    return Err(VmError::Unknown);
                } else {
                    let taken: Option<bool> = if ins.op == op::JA {
                        Some(true)
                    } else {
                        let a = self.regs[dst];
                        let b: u64 = if ins.source() == 1 {
                            self.regs[src]
                        } else {
                            ins.imm as u64
                        };
                        jump_taken(ins.op & 0xf0, a, b)
                    };
                    match taken {
                        None => {
                            proof {
                                assert(spec_step(prog, snap0) == StepRes::Halt(snap0, Err::<i64, VmError>(VmError::Unknown)));
                                assert(spec_steps(prog, init, (k + 1) as nat) == StepRes::Halt(snap0, Err::<i64, VmError>(VmError::Unknown)));
                                assert(spec_halts_with(prog, mem0, snap0, Err::<i64, VmError>(VmError::Unknown)));
                            }
                            return Err(VmError::Unknown);
                        },
                        Some(t) => {
                            let target: i128 = if t {
                                self.pc as i128 + 1 + ins.offset as i128
                            } else {
                                self.pc as i128 + 1
                            };
                            let ghost snap1 = VmSnap { pc: target as int, ..snap0 };
                            proof {
                                assert(spec_step(prog, snap0) == StepRes::Next(snap1));
                                assert(spec_steps(prog, init, (k + 1) as nat) == StepRes::Next(snap1));
                            }
                            if target < 0 || target >= n as i128 {
                                proof {
                                    lemma_steps_extend(prog, init, (k + 1) as nat);
                                    assert(spec_step(prog, snap1) == StepRes::Halt(snap1, Err::<i64, VmError>(VmError::Unknown)));
                                    assert(spec_steps(prog, init, (k + 2) as nat) == StepRes::Halt(snap1, Err::<i64, VmError>(VmError::Unknown)));
                                    assert(spec_halts_with(prog, mem0, snap1, Err::<i64, VmError>(VmError::Unknown)));
                                }
                                return Err(VmError::Unknown);
                            }
                            self.pc = target as usize;
                            proof {
                                assert(self.snap() == snap1);
                                k = k + 1;
                            }
                        },
                    }
                }
            } else if cls == crate::class::EBPF_CLS_LDX {
                if ins.op & 0xe0 != op::EBPF_MODE_MEM {
                    proof {
                        assert(spec_step(prog, snap0) == StepRes::Halt(snap0, Err::<i64, VmError>(VmError::Unknown)));
                        assert(spec_steps(prog, init, (k + 1) as nat) == StepRes::Halt(snap0, Err::<i64, VmError>(VmError::Unknown)));
                        assert(spec_halts_with(prog, mem0, snap0, Err::<i64, VmError>(VmError::Unknown)));
                    }
                    return Err(VmError::Unknown);
                }
                let size = mem_size(ins.op);
                let addr = self.regs[src].wrapping_add(ins.offset as i64 as u64);
                match region_lookup(addr, size) {
                    Some((is_stack, o)) => {
                        let v = if is_stack {
                            load_sext(&self.stack, o, size)
                        } else {
                            load_sext(&self.virtual_mem, o, size)
                        };
                        self.regs.set(dst, v);
                        self.pc = self.pc + 1;
                        proof {
                            assert(spec_step(prog, snap0) == StepRes::Next(self.snap()));
                            k = k + 1;
                        }
                    },
                    None => {
                        proof {
                            assert(spec_load_bytes(snap0, addr, size as int) is None);
                            assert(spec_step(prog, snap0) == StepRes::Halt(snap0, Err::<i64, VmError>(VmError::MemOutOfBound)));
                            assert(spec_steps(prog, init, (k + 1) as nat) == StepRes::Halt(snap0, Err::<i64, VmError>(VmError::MemOutOfBound)));
                            assert(spec_halts_with(prog, mem0, snap0, Err::<i64, VmError>(VmError::MemOutOfBound)));
                        }
                        return Err(VmError::MemOutOfBound);
                    },
                }
            } else if cls == crate::class::EBPF_CLS_ST || cls == crate::class::EBPF_CLS_STX {
                let from_reg = cls == crate::class::EBPF_CLS_STX;
                if ins.op & 0xe0 != op::EBPF_MODE_MEM {
                    proof {
                        assert(spec_step(prog, snap0) == StepRes::Halt(snap0, Err::<i64, VmError>(VmError::Unknown)));
                        assert(spec_steps(prog, init, (k + 1) as nat) == StepRes::Halt(snap0, Err::<i64, VmError>(VmError::Unknown)));
                        assert(spec_halts_with(prog, mem0, snap0, Err::<i64, VmError>(VmError::Unknown)));
                    }
                    return Err(VmError::Unknown);
                }
                let size = mem_size(ins.op);
                let addr = self.regs[dst].wrapping_add(ins.offset as i64 as u64);
                let v: u64 = if from_reg {
                    self.regs[src]
                } else {
                    ins.imm as u64
                };
                let bytes = narrow_bytes(v, size);
                match region_lookup(addr, size) {
                    Some((is_stack, o)) => {
                        if is_stack {
                            write_at(&mut self.stack, o, bytes.as_slice());
                        } else {
                            write_at(&mut self.virtual_mem, o, bytes.as_slice());
                        }
                        self.pc = self.pc + 1;
                        proof {
                            assert(spec_step(prog, snap0) == StepRes::Next(self.snap()));
                            k = k + 1;
                        }
                    },
                    None => {
                        proof {
                            assert(spec_store_bytes(snap0, addr, spec_narrow_bytes(v, size as int)) is None);
                            assert(spec_step(prog, snap0) == StepRes::Halt(snap0, Err::<i64, VmError>(VmError::MemOutOfBound)));
                            assert(spec_steps(prog, init, (k + 1) as nat) == StepRes::Halt(snap0, Err::<i64, VmError>(VmError::MemOutOfBound)));
                            assert(spec_halts_with(prog, mem0, snap0, Err::<i64, VmError>(VmError::MemOutOfBound)));
                        }
                        return Err(VmError::MemOutOfBound);
                    },
                }
            } else {
                proof {
                    assert(spec_step(prog, snap0) == StepRes::Halt(snap0, Err::<i64, VmError>(VmError::Unknown)));
                    assert(spec_steps(prog, init, (k + 1) as nat) == StepRes::Halt(snap0, Err::<i64, VmError>(VmError::Unknown)));
                    assert(spec_halts_with(prog, mem0, snap0, Err::<i64, VmError>(VmError::Unknown)));
                }
                return Err(VmError::Unknown);
            }
        }
    }

    /// Clears the registers and the stack, points register 1 at guest
    /// memory and register 10 at the stack top, and rewinds the program
    /// counter; guest memory keeps its contents.
    fn reset(&mut self)
        requires
            old(self).wf(),
        ensures
            final(self).wf(),
            final(self).spec_instructions() == old(self).spec_instructions(),
            final(self).snap() == spec_init(old(self).snap().mem),
    {
        self.pc = 0;
        let mut regs = zero_regs();
        regs.set(1, GUEST_MEM_BASE);
        regs.set(10, STACK_TOP);
        self.regs = regs;
        self.stack = zero_bytes(STACK_SIZE);
        proof {
            assert(self.regs@ =~= spec_regs_init());
            assert(self.snap() =~= spec_init(old(self).snap().mem));
        }
    }
}

/// A register file of 16 zeroed slots.
fn zero_regs() -> (r: Vec<u64>)
    ensures
        r@ == Seq::new(NUM_REGS as nat, |i: int| 0u64),
{
    let mut v: Vec<u64> = Vec::new();
    let mut i: usize = 0;
    while i < NUM_REGS
        invariant
            i <= NUM_REGS,
            v@ == Seq::new(i as nat, |j: int| 0u64),
        decreases NUM_REGS - i,
    {
        v.push(0);
        i = i + 1;
        proof {
            assert(v@ =~= Seq::new(i as nat, |j: int| 0u64));
        }
    }
    v
}

/// Memory access width selected by the size bits; see `spec_size_of`.
fn mem_size(op_byte: u8) -> (r: usize)
    ensures
        r == spec_size_of(op_byte),
        r == 1 || r == 2 || r == 4 || r == 8,
{
    if op_byte & 0x18 == op::EBPF_SIZE_W {
        4
    } else if op_byte & 0x18 == op::EBPF_SIZE_H {
        2
    } else if op_byte & 0x18 == op::EBPF_SIZE_B {
        1
    } else {
        8
    }
}

} // verus!
