//! The machine-code emitter: a byte buffer with primitives for x86-64
//! instruction encoding (REX prefixes, ModR/M bytes, displacements,
//! immediates) and pc-relative branches. Branches are emitted as 4-byte
//! placeholders and recorded as pending relocations; a later patch pass
//! writes the real displacements.
use vstd::prelude::*;

pub mod buffer;
pub mod translator;

use vstd::bytes::spec_u16_to_le_bytes;
use vstd::bytes::spec_u32_to_le_bytes;
use vstd::bytes::spec_u64_to_le_bytes;
use vstd::bytes::u16_to_le_bytes;
use vstd::bytes::u32_to_le_bytes;
use vstd::bytes::u64_to_le_bytes;

use crate::jit::buffer::buf_bytes;
use crate::jit::buffer::buf_len;
use crate::jit::buffer::buf_new;
use crate::jit::buffer::buf_put;
use crate::jit::buffer::buf_to_vec;

verus! {

/// Width of a memory access or an immediate in the emitted code.
#[derive(Debug, Clone, Copy, PartialEq, Eq, Structural)]
pub enum OperandSize {
    S8,
    S16,
    S32,
    S64,
}

/// A pending relocation: the buffer position of a 4-byte branch placeholder
/// and the program counter it must reach (or a negative synthetic target).
#[derive(Debug, Clone, Copy, PartialEq, Eq, Structural)]
pub struct Jmp {
    pub offset_location: usize,
    pub target_pc: i32,
}

/// 1 where the register number needs a REX extension bit, else 0.
pub open spec fn spec_bit8(v: u8) -> u8 {
    if v & 8 != 0 {
        1u8
    } else {
        0u8
    }
}

/// The REX prefix byte from its four fields (each 0 or 1).
pub open spec fn spec_rex(w: u8, r: u8, x: u8, b: u8) -> u8 {
    (0x40 | (w << 3) | (r << 2) | (x << 1) | b) as u8
}

/// The REX prefix emitted before a two-register operation: present when the
/// operation is 64-bit wide or either register needs an extension bit.
pub open spec fn spec_basic_rex(w: u8, src: u8, dst: u8) -> Seq<u8> {
    if w == 1 || src & 8 != 0 || dst & 8 != 0 {
        seq![spec_rex(w, spec_bit8(src), 0, spec_bit8(dst))]
    } else {
        Seq::empty()
    }
}

/// The ModR/M byte from mode, register and register/memory fields.
pub open spec fn spec_modrm(mode: u8, r: u8, m: u8) -> u8 {
    ((mode & 0xc0) | ((r & 7) << 3) | (m & 7)) as u8
}

pub open spec fn spec_modrm_reg2reg(r: u8, m: u8) -> u8 {
    spec_modrm(0xc0, r, m)
}

pub open spec fn spec_push_bytes(r: u8) -> Seq<u8> {
    spec_basic_rex(0, 0, r) + seq![(0x50 | (r & 7)) as u8]
}

pub open spec fn spec_pop_bytes(r: u8) -> Seq<u8> {
    spec_basic_rex(0, 0, r) + seq![(0x58 | (r & 7)) as u8]
}

pub open spec fn spec_alu32_bytes(opc: u8, src: u8, dst: u8) -> Seq<u8> {
    spec_basic_rex(0, src, dst) + seq![opc, spec_modrm_reg2reg(src, dst)]
}

pub open spec fn spec_alu64_bytes(opc: u8, src: u8, dst: u8) -> Seq<u8> {
    spec_basic_rex(1, src, dst) + seq![opc, spec_modrm_reg2reg(src, dst)]
}

pub open spec fn spec_alu32_imm32_bytes(opc: u8, src: u8, dst: u8, imm: i32) -> Seq<u8> {
    spec_alu32_bytes(opc, src, dst) + spec_u32_to_le_bytes(imm as u32)
}

pub open spec fn spec_alu32_imm8_bytes(opc: u8, src: u8, dst: u8, imm: u8) -> Seq<u8> {
    spec_alu32_bytes(opc, src, dst) + seq![imm]
}

pub open spec fn spec_alu64_imm32_bytes(opc: u8, src: u8, dst: u8, imm: i32) -> Seq<u8> {
    spec_alu64_bytes(opc, src, dst) + spec_u32_to_le_bytes(imm as u32)
}

pub open spec fn spec_alu64_imm8_bytes(opc: u8, src: u8, dst: u8, imm: u8) -> Seq<u8> {
    spec_alu64_bytes(opc, src, dst) + seq![imm]
}

/// 64-bit register-to-register move.
pub open spec fn spec_mov_bytes(src: u8, dst: u8) -> Seq<u8> {
    spec_alu64_bytes(0x89, src, dst)
}

pub open spec fn spec_cmp_bytes(src: u8, dst: u8) -> Seq<u8> {
    spec_alu64_bytes(0x39, src, dst)
}

pub open spec fn spec_cmp_imm32_bytes(dst: u8, imm: i32) -> Seq<u8> {
    spec_alu64_imm32_bytes(0x81, 7, dst, imm)
}

/// The ModR/M byte and displacement of a memory operand `[m + d]`,
/// choosing the shortest displacement form; the RBP row cannot use the
/// no-displacement form.
pub open spec fn spec_modrm_disp_bytes(r: u8, m: u8, d: i32) -> Seq<u8> {
    if d == 0 && (m & 7) != 5 {
        seq![spec_modrm(0x00, r, m)]
    } else if -128 <= d <= 127 {
        seq![spec_modrm(0x40, r, m), d as u8]
    } else {
        seq![spec_modrm(0x80, r, m)] + spec_u32_to_le_bytes(d as u32)
    }
}

/// A sign-extending load of `size` bytes from `[src + offset]` into `dst`.
pub open spec fn spec_load_reg_bytes(size: OperandSize, src: u8, dst: u8, offset: i32) -> Seq<
    u8,
> {
    seq![spec_rex(1, spec_bit8(dst), 0, spec_bit8(src))] + (match size {
        OperandSize::S8 => seq![0x0fu8, 0xbeu8],
        OperandSize::S16 => seq![0x0fu8, 0xbfu8],
        OperandSize::S32 => seq![0x63u8],
        OperandSize::S64 => seq![0x8bu8],
    }) + spec_modrm_disp_bytes(dst, src, offset)
}

/// A store of the low `size` bytes of `src` to `[dst + offset]`.
pub open spec fn spec_store_reg_bytes(size: OperandSize, src: u8, dst: u8, offset: i32) -> Seq<
    u8,
> {
    (if size == OperandSize::S16 {
        seq![0x66u8]
    } else {
        Seq::empty()
    }) + (if size == OperandSize::S64 || size == OperandSize::S8 || src & 8 != 0 || dst & 8
        != 0 {
        seq![
            spec_rex(
                if size == OperandSize::S64 {
                    1u8
                } else {
                    0u8
                },
                spec_bit8(src),
                0,
                spec_bit8(dst),
            ),
        ]
    } else {
        Seq::empty()
    }) + seq![
        if size == OperandSize::S8 {
            0x88u8
        } else {
            0x89u8
        },
    ] + spec_modrm_disp_bytes(src, dst, offset)
}

/// A store of an immediate of `size` bytes to `[dst + offset]`.
pub open spec fn spec_store_imm_bytes(size: OperandSize, dst: u8, offset: i32, imm: i32) -> Seq<
    u8,
> {
    (if size == OperandSize::S16 {
        seq![0x66u8]
    } else {
        Seq::empty()
    }) + spec_basic_rex(
        if size == OperandSize::S64 {
            1u8
        } else {
            0u8
        },
        0,
        dst,
    ) + seq![
        if size == OperandSize::S8 {
            0xc6u8
        } else {
            0xc7u8
        },
    ] + spec_modrm_disp_bytes(0, dst, offset) + (match size {
        OperandSize::S8 => seq![imm as u8],
        OperandSize::S16 => spec_u16_to_le_bytes(imm as u16),
        OperandSize::S32 => spec_u32_to_le_bytes(imm as u32),
        OperandSize::S64 => spec_u32_to_le_bytes(imm as u32),
    })
}

/// A load of a 64-bit immediate: the short sign-extended `mov r/m64, imm32`
/// where the value fits, the 10-byte `mov r64, imm64` otherwise.
pub open spec fn spec_load_imm_bytes(dst: u8, imm: i64) -> Seq<u8> {
    if -0x8000_0000 <= imm < 0x8000_0000 {
        spec_alu64_imm32_bytes(0xc7, 0, dst, imm as i32)
    } else {
        spec_basic_rex(1, 0, dst) + seq![(0xb8 | (dst & 7)) as u8] + spec_u64_to_le_bytes(
            imm as u64,
        )
    }
}

/// An unconditional branch with a 4-byte placeholder displacement.
pub open spec fn spec_jmp_bytes() -> Seq<u8> {
    seq![0xe9u8, 0u8, 0u8, 0u8, 0u8]
}

/// The growing code buffer, the start offset of each emitted guest
/// instruction, the offset of the shared epilogue, and the pending
/// relocations.
pub struct JitBuilder {
    pub buffer: bytes::BytesMut,
    pub pc_locations: Vec<usize>,
    pub exit_location: usize,
    pub jumps: Vec<Jmp>,
}

/// `post` is `pre` with `bytes` appended to the code buffer and everything
/// else unchanged.
pub open spec fn spec_appended(pre: JitBuilder, post: JitBuilder, bytes: Seq<u8>) -> bool {
    &&& buf_bytes(post.buffer) == buf_bytes(pre.buffer) + bytes
    &&& post.pc_locations@ == pre.pc_locations@
    &&& post.exit_location == pre.exit_location
    &&& post.jumps@ == pre.jumps@
}

/// `post` is `pre` with `bytes` then a 4-byte placeholder appended, and a
/// relocation recorded for the placeholder towards `target_pc`.
pub open spec fn spec_appended_jump(
    pre: JitBuilder,
    post: JitBuilder,
    bytes: Seq<u8>,
    target_pc: i32,
) -> bool {
    &&& buf_bytes(post.buffer) == buf_bytes(pre.buffer) + bytes + seq![0u8, 0u8, 0u8, 0u8]
    &&& post.pc_locations@ == pre.pc_locations@
    &&& post.exit_location == pre.exit_location
    &&& post.jumps@ == pre.jumps@.push(
        Jmp {
            offset_location: (buf_bytes(pre.buffer).len() + bytes.len()) as usize,
            target_pc,
        },
    )
}

impl JitBuilder {
    /// The code emitted so far.
    pub open spec fn code(self) -> Seq<u8> {
        buf_bytes(self.buffer)
    }

    pub fn new() -> (r: JitBuilder)
        ensures
            r.code() == Seq::<u8>::empty(),
            r.pc_locations@ == Seq::<usize>::empty(),
            r.jumps@ == Seq::<Jmp>::empty(),
            r.exit_location == 0,
    {
        JitBuilder {
            buffer: buf_new(),
            pc_locations: Vec::new(),
            exit_location: 0,
            jumps: Vec::new(),
        }
    }

    pub fn offset(&self) -> (r: usize)
        ensures
            r == self.code().len(),
    {
        buf_len(&self.buffer)
    }

    pub fn emit1(&mut self, val: u8)
        ensures
            spec_appended(*old(self), *final(self), seq![val]),
    {
        buf_put(&mut self.buffer, val);
        proof {
            assert(buf_bytes(self.buffer) =~= buf_bytes(old(self).buffer) + seq![val]);
        }
    }

    pub fn emit2(&mut self, val: u16)
        ensures
            spec_appended(*old(self), *final(self), spec_u16_to_le_bytes(val)),
    {
        let bs = u16_to_le_bytes(val);
        buf_put(&mut self.buffer, bs[0]);
        buf_put(&mut self.buffer, bs[1]);
        proof {
            assert(buf_bytes(self.buffer) =~= buf_bytes(old(self).buffer) + spec_u16_to_le_bytes(
                val,
            ));
        }
    }

    pub fn emit4(&mut self, val: u32)
        ensures
            spec_appended(*old(self), *final(self), spec_u32_to_le_bytes(val)),
    {
        let bs = u32_to_le_bytes(val);
        buf_put(&mut self.buffer, bs[0]);
        buf_put(&mut self.buffer, bs[1]);
        buf_put(&mut self.buffer, bs[2]);
        buf_put(&mut self.buffer, bs[3]);
        proof {
            assert(buf_bytes(self.buffer) =~= buf_bytes(old(self).buffer) + spec_u32_to_le_bytes(
                val,
            ));
        }
    }

    pub fn emit8(&mut self, val: u64)
        ensures
            spec_appended(*old(self), *final(self), spec_u64_to_le_bytes(val)),
    {
        let bs = u64_to_le_bytes(val);
        let mut i: usize = 0;
        while i < 8
            invariant
                i <= 8,
                bs@ == spec_u64_to_le_bytes(val),
                bs@.len() == 8,
                self.pc_locations@ == old(self).pc_locations@,
                self.exit_location == old(self).exit_location,
                self.jumps@ == old(self).jumps@,
                buf_bytes(self.buffer) == buf_bytes(old(self).buffer) + bs@.subrange(
                    0,
                    i as int,
                ),
            decreases 8 - i,
        {
            buf_put(&mut self.buffer, bs[i]);
            i = i + 1;
            proof {
                assert(buf_bytes(self.buffer) =~= buf_bytes(old(self).buffer) + bs@.subrange(
                    0,
                    i as int,
                ));
            }
        }
        proof {
            assert(bs@.subrange(0, 8) =~= bs@);
        }
    }

    /// Emits the 4-byte placeholder of a branch towards `target_pc` and
    /// records the relocation.
    pub fn emit_jump_offset(&mut self, target_pc: i32)
        ensures
            spec_appended_jump(*old(self), *final(self), Seq::empty(), target_pc),
    {
        let at = buf_len(&self.buffer);
        self.jumps.push(Jmp { offset_location: at, target_pc });
        buf_put(&mut self.buffer, 0);
        buf_put(&mut self.buffer, 0);
        buf_put(&mut self.buffer, 0);
        buf_put(&mut self.buffer, 0);
        proof {
            assert(buf_bytes(self.buffer) =~= buf_bytes(old(self).buffer) + Seq::<u8>::empty()
                + seq![0u8, 0u8, 0u8, 0u8]);
        }
    }

    pub fn emit_rex(&mut self, w: u8, r: u8, x: u8, b: u8)
        requires
            w <= 1,
            r <= 1,
            x <= 1,
            b <= 1,
        ensures
            spec_appended(*old(self), *final(self), seq![spec_rex(w, r, x, b)]),
    {
        self.emit1(0x40 | (w << 3u8) | (r << 2u8) | (x << 1u8) | b);
    }

    pub fn emit_basic_rex(&mut self, w: u8, src: u8, dst: u8)
        requires
            w <= 1,
        ensures
            spec_appended(*old(self), *final(self), spec_basic_rex(w, src, dst)),
    {
        if w != 0 || (src & 8) != 0 || (dst & 8) != 0 {
            let r: u8 = if src & 8 != 0 {
                1
            } else {
                0
            };
            let b: u8 = if dst & 8 != 0 {
                1
            } else {
                0
            };
            self.emit_rex(w, r, 0, b);
            proof {
                assert(seq![spec_rex(w, r, 0, b)] =~= spec_basic_rex(w, src, dst));
            }
        }
    }

    pub fn emit_push(&mut self, r: u8)
        ensures
            spec_appended(*old(self), *final(self), spec_push_bytes(r)),
    {
        self.emit_basic_rex(0, 0, r);
        self.emit1(0x50 | (r & 7));
        proof {
            assert(buf_bytes(self.buffer) =~= buf_bytes(old(self).buffer) + spec_push_bytes(r));
        }
    }

    pub fn emit_pop(&mut self, r: u8)
        ensures
            spec_appended(*old(self), *final(self), spec_pop_bytes(r)),
    {
        self.emit_basic_rex(0, 0, r);
        self.emit1(0x58 | (r & 7));
        proof {
            assert(buf_bytes(self.buffer) =~= buf_bytes(old(self).buffer) + spec_pop_bytes(r));
        }
    }

    pub fn emit_modrm(&mut self, mode: u8, r: u8, m: u8)
        ensures
            spec_appended(*old(self), *final(self), seq![spec_modrm(mode, r, m)]),
    {
        self.emit1((mode & 0xc0) | ((r & 7) << 3u8) | (m & 7));
    }

    pub fn emit_modrm_reg2reg(&mut self, r: u8, m: u8)
        ensures
            spec_appended(*old(self), *final(self), seq![spec_modrm_reg2reg(r, m)]),
    {
        self.emit_modrm(0xc0, r, m);
    }

    pub fn emit_alu32(&mut self, opc: u8, src: u8, dst: u8)
        ensures
            spec_appended(*old(self), *final(self), spec_alu32_bytes(opc, src, dst)),
    {
        self.emit_basic_rex(0, src, dst);
        self.emit1(opc);
        self.emit_modrm_reg2reg(src, dst);
        proof {
            assert(buf_bytes(self.buffer) =~= buf_bytes(old(self).buffer) + spec_alu32_bytes(
                opc,
                src,
                dst,
            ));
        }
    }

    pub fn emit_alu32_imm32(&mut self, opc: u8, src: u8, dst: u8, imm: i32)
        ensures
            spec_appended(*old(self), *final(self), spec_alu32_imm32_bytes(opc, src, dst, imm)),
    {
        self.emit_alu32(opc, src, dst);
        self.emit4(#[verifier::truncate] (imm as u32));
        proof {
            assert(buf_bytes(self.buffer) =~= buf_bytes(old(self).buffer)
                + spec_alu32_imm32_bytes(opc, src, dst, imm));
        }
    }

    pub fn emit_alu32_imm8(&mut self, opc: u8, src: u8, dst: u8, imm: u8)
        ensures
            spec_appended(*old(self), *final(self), spec_alu32_imm8_bytes(opc, src, dst, imm)),
    {
        self.emit_alu32(opc, src, dst);
        self.emit1(imm);
        proof {
            assert(buf_bytes(self.buffer) =~= buf_bytes(old(self).buffer) + spec_alu32_imm8_bytes(
                opc,
                src,
                dst,
                imm,
            ));
        }
    }

    pub fn emit_alu64(&mut self, opc: u8, src: u8, dst: u8)
        ensures
            spec_appended(*old(self), *final(self), spec_alu64_bytes(opc, src, dst)),
    {
        self.emit_basic_rex(1, src, dst);
        self.emit1(opc);
        self.emit_modrm_reg2reg(src, dst);
        proof {
            assert(buf_bytes(self.buffer) =~= buf_bytes(old(self).buffer) + spec_alu64_bytes(
                opc,
                src,
                dst,
            ));
        }
    }

    pub fn emit_alu64_imm32(&mut self, opc: u8, src: u8, dst: u8, imm: i32)
        ensures
            spec_appended(*old(self), *final(self), spec_alu64_imm32_bytes(opc, src, dst, imm)),
    {
        self.emit_alu64(opc, src, dst);
        self.emit4(#[verifier::truncate] (imm as u32));
        proof {
            assert(buf_bytes(self.buffer) =~= buf_bytes(old(self).buffer)
                + spec_alu64_imm32_bytes(opc, src, dst, imm));
        }
    }

    pub fn emit_alu64_imm8(&mut self, opc: u8, src: u8, dst: u8, imm: u8)
        ensures
            spec_appended(*old(self), *final(self), spec_alu64_imm8_bytes(opc, src, dst, imm)),
    {
        self.emit_alu64(opc, src, dst);
        self.emit1(imm);
        proof {
            assert(buf_bytes(self.buffer) =~= buf_bytes(old(self).buffer) + spec_alu64_imm8_bytes(
                opc,
                src,
                dst,
                imm,
            ));
        }
    }

    pub fn emit_mov(&mut self, src: u8, dst: u8)
        ensures
            spec_appended(*old(self), *final(self), spec_mov_bytes(src, dst)),
    {
        self.emit_alu64(0x89, src, dst);
    }

    pub fn emit_cmp_imm32(&mut self, dst: u8, imm: i32)
        ensures
            spec_appended(*old(self), *final(self), spec_cmp_imm32_bytes(dst, imm)),
    {
        self.emit_alu64_imm32(0x81, 7, dst, imm);
    }

    pub fn emit_cmp(&mut self, src: u8, dst: u8)
        ensures
            spec_appended(*old(self), *final(self), spec_cmp_bytes(src, dst)),
    {
        self.emit_alu64(0x39, src, dst);
    }

    pub fn emit_jcc(&mut self, code: u8, target_pc: i32)
        ensures
            spec_appended_jump(*old(self), *final(self), seq![0x0fu8, code], target_pc),
    {
        self.emit1(0x0f);
        self.emit1(code);
        self.emit_jump_offset(target_pc);
        proof {
            assert(buf_bytes(self.buffer) =~= buf_bytes(old(self).buffer) + seq![0x0fu8, code]
                + seq![0u8, 0u8, 0u8, 0u8]);
        }
    }

    pub fn emit_jmp(&mut self, target_pc: i32)
        ensures
            spec_appended_jump(*old(self), *final(self), seq![0xe9u8], target_pc),
    {
        self.emit1(0xe9);
        self.emit_jump_offset(target_pc);
        proof {
            assert(buf_bytes(self.buffer) =~= buf_bytes(old(self).buffer) + seq![0xe9u8]
                + seq![0u8, 0u8, 0u8, 0u8]);
        }
    }

    pub fn emit_modrm_and_displacement(&mut self, r: u8, m: u8, d: i32)
        ensures
            spec_appended(*old(self), *final(self), spec_modrm_disp_bytes(r, m, d)),
    {
        if d == 0 && (m & 7) != 5 {
            self.emit_modrm(0x00, r, m);
        } else if d >= -128 && d <= 127 {
            self.emit_modrm(0x40, r, m);
            self.emit1(#[verifier::truncate] (d as u8));
            proof {
                assert(buf_bytes(self.buffer) =~= buf_bytes(old(self).buffer)
                    + spec_modrm_disp_bytes(r, m, d));
            }
        } else {
            self.emit_modrm(0x80, r, m);
            self.emit4(#[verifier::truncate] (d as u32));
            proof {
                assert(buf_bytes(self.buffer) =~= buf_bytes(old(self).buffer)
                    + spec_modrm_disp_bytes(r, m, d));
            }
        }
    }

    /// Emits a sign-extending load; see `spec_load_reg_bytes`.
    pub fn emit_load(&mut self, size: OperandSize, src: u8, dst: u8, offset: i32)
        ensures
            spec_appended(*old(self), *final(self), spec_load_reg_bytes(size, src, dst, offset)),
    {
        let r: u8 = if dst & 8 != 0 {
            1
        } else {
            0
        };
        let b: u8 = if src & 8 != 0 {
            1
        } else {
            0
        };
        self.emit_rex(1, r, 0, b);
        match size {
            OperandSize::S8 => {
                self.emit1(0x0f);
                self.emit1(0xbe);
            },
            OperandSize::S16 => {
                self.emit1(0x0f);
                self.emit1(0xbf);
            },
            OperandSize::S32 => {
                self.emit1(0x63);
            },
            OperandSize::S64 => {
                self.emit1(0x8b);
            },
        }
        self.emit_modrm_and_displacement(dst, src, offset);
        proof {
            assert(buf_bytes(self.buffer) =~= buf_bytes(old(self).buffer) + spec_load_reg_bytes(
                size,
                src,
                dst,
                offset,
            ));
        }
    }

    /// Emits a load of a 64-bit immediate; see `spec_load_imm_bytes`.
    pub fn emit_load_imm(&mut self, dst: u8, imm: i64)
        ensures
            spec_appended(*old(self), *final(self), spec_load_imm_bytes(dst, imm)),
    {
        if imm >= -0x8000_0000i64 && imm < 0x8000_0000i64 {
            self.emit_alu64_imm32(0xc7, 0, dst, #[verifier::truncate] (imm as i32));
        } else {
            self.emit_basic_rex(1, 0, dst);
            self.emit1(0xb8 | (dst & 7));
            self.emit8(#[verifier::truncate] (imm as u64));
            proof {
                assert(buf_bytes(self.buffer) =~= buf_bytes(old(self).buffer)
                    + spec_load_imm_bytes(dst, imm));
            }
        }
    }

    /// Emits a register store; see `spec_store_reg_bytes`.
    pub fn emit_store(&mut self, size: OperandSize, src: u8, dst: u8, offset: i32)
        ensures
            spec_appended(*old(self), *final(self), spec_store_reg_bytes(size, src, dst, offset)),
    {
        if size == OperandSize::S16 {
            self.emit1(0x66);
        }
        let rexw: u8 = if size == OperandSize::S64 {
            1
        } else {
            0
        };
        if size == OperandSize::S64 || size == OperandSize::S8 || src & 8 != 0 || dst & 8 != 0 {
            let r: u8 = if src & 8 != 0 {
                1
            } else {
                0
            };
            let b: u8 = if dst & 8 != 0 {
                1
            } else {
                0
            };
            self.emit_rex(rexw, r, 0, b);
        }
        if size == OperandSize::S8 {
            self.emit1(0x88);
        } else {
            self.emit1(0x89);
        }
        self.emit_modrm_and_displacement(src, dst, offset);
        proof {
            assert(buf_bytes(self.buffer) =~= buf_bytes(old(self).buffer) + spec_store_reg_bytes(
                size,
                src,
                dst,
                offset,
            ));
        }
    }

    /// Emits an immediate store; see `spec_store_imm_bytes`.
    pub fn emit_store_imm32(&mut self, size: OperandSize, dst: u8, offset: i32, imm: i32)
        ensures
            spec_appended(*old(self), *final(self), spec_store_imm_bytes(size, dst, offset, imm)),
    {
        if size == OperandSize::S16 {
            self.emit1(0x66);
        }
        let rexw: u8 = if size == OperandSize::S64 {
            1
        } else {
            0
        };
        self.emit_basic_rex(rexw, 0, dst);
        if size == OperandSize::S8 {
            self.emit1(0xc6);
        } else {
            self.emit1(0xc7);
        }
        self.emit_modrm_and_displacement(0, dst, offset);
        match size {
            OperandSize::S8 => {
                self.emit1(#[verifier::truncate] (imm as u8));
            },
            OperandSize::S16 => {
                self.emit2(#[verifier::truncate] (imm as u16));
            },
            OperandSize::S32 => {
                self.emit4(#[verifier::truncate] (imm as u32));
            },
            OperandSize::S64 => {
                self.emit4(#[verifier::truncate] (imm as u32));
            },
        }
        proof {
            assert(buf_bytes(self.buffer) =~= buf_bytes(old(self).buffer) + spec_store_imm_bytes(
                size,
                dst,
                offset,
                imm,
            ));
        }
    }
}


/// Length bounds of every emitted byte sequence, for sizing the code.
pub proof fn lemma_emitter_lens()
    ensures
        forall|w: u8, s: u8, d: u8| #[trigger] spec_basic_rex(w, s, d).len() <= 1,
        forall|r: u8| 1 <= #[trigger] spec_push_bytes(r).len() <= 2,
        forall|r: u8| 1 <= #[trigger] spec_pop_bytes(r).len() <= 2,
        forall|o: u8, s: u8, d: u8| 2 <= #[trigger] spec_alu32_bytes(o, s, d).len() <= 3,
        forall|o: u8, s: u8, d: u8| #[trigger] spec_alu64_bytes(o, s, d).len() == 3,
        forall|o: u8, s: u8, d: u8, i: i32|
            6 <= #[trigger] spec_alu32_imm32_bytes(o, s, d, i).len() <= 7,
        forall|o: u8, s: u8, d: u8, i: u8|
            3 <= #[trigger] spec_alu32_imm8_bytes(o, s, d, i).len() <= 4,
        forall|o: u8, s: u8, d: u8, i: i32|
            #[trigger] spec_alu64_imm32_bytes(o, s, d, i).len() == 7,
        forall|o: u8, s: u8, d: u8, i: u8| #[trigger] spec_alu64_imm8_bytes(o, s, d, i).len() == 4,
        forall|s: u8, d: u8| #[trigger] spec_mov_bytes(s, d).len() == 3,
        forall|s: u8, d: u8| #[trigger] spec_cmp_bytes(s, d).len() == 3,
        forall|d: u8, i: i32| #[trigger] spec_cmp_imm32_bytes(d, i).len() == 7,
        forall|r: u8, m: u8, d: i32| 1 <= #[trigger] spec_modrm_disp_bytes(r, m, d).len() <= 5,
        forall|z: OperandSize, s: u8, d: u8, o: i32|
            3 <= #[trigger] spec_load_reg_bytes(z, s, d, o).len() <= 8,
        forall|z: OperandSize, s: u8, d: u8, o: i32|
            2 <= #[trigger] spec_store_reg_bytes(z, s, d, o).len() <= 12,
        forall|z: OperandSize, d: u8, o: i32, i: i32|
            3 <= #[trigger] spec_store_imm_bytes(z, d, o, i).len() <= 13,
        forall|d: u8, i: i64| 7 <= #[trigger] spec_load_imm_bytes(d, i).len() <= 10,
{
    vstd::bytes::lemma_auto_spec_u16_to_from_le_bytes();
    vstd::bytes::lemma_auto_spec_u32_to_from_le_bytes();
    vstd::bytes::lemma_auto_spec_u64_to_from_le_bytes();
}

/// Consumes the builder and hands out the emitted code.
pub fn builder_into_code(b: JitBuilder) -> (r: Vec<u8>)
    ensures
        r@ == b.code(),
{
    buf_to_vec(b.buffer)
}

} // verus!
