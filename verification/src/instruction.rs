//! The canonical in-memory instruction record and the binary codec between
//! records and the packed little-endian 8-byte word form.
//!
//! Each instruction occupies one 8-byte word: `op:u8 | regs:u8 | offset:i16 |
//! imm:i32`, where `regs` packs the destination register in the low nibble
//! and the source register in the high nibble. A `lddw` instruction is one
//! logical load of a 64-bit immediate but occupies two consecutive words: the
//! first carries op/regs/offset and the low 32 bits of the immediate, the
//! second is all zero except the high 32 bits in its imm position. In a
//! record sequence the pair appears as the `lddw` record, carrying the full
//! 64-bit immediate, followed by its continuation record.
use vstd::prelude::*;

use vstd::bytes::lemma_auto_spec_u16_to_from_le_bytes;
use vstd::bytes::lemma_auto_spec_u32_to_from_le_bytes;
use vstd::bytes::spec_u16_to_le_bytes;
use vstd::bytes::spec_u32_from_le_bytes;
use vstd::bytes::spec_u32_to_le_bytes;
use vstd::bytes::u16_to_le_bytes;
use vstd::bytes::u32_from_le_bytes;
use vstd::bytes::u32_to_le_bytes;
use vstd::bytes::spec_u16_from_le_bytes;
use vstd::bytes::u16_from_le_bytes;
use vstd::slice::slice_subrange;

use crate::error::ParseError;
use crate::op::LDDW;

verus! {

/// The canonical instruction record.
#[derive(Clone, Copy, Debug, PartialEq, Eq, Structural)]
pub struct Instruction {
    /// Opcode byte.
    pub op: u8,
    /// Low nibble: destination register; high nibble: source register.
    pub regs: u8,
    /// Signed 16-bit offset (jump distance or memory displacement).
    pub offset: i16,
    /// Signed immediate. Only the low 32 bits are meaningful except for
    /// `lddw`, whose record carries the full 64 bits.
    pub imm: i64,
}

impl Instruction {
    /// Destination register: the low nibble of `regs`.
    pub open spec fn spec_dst_reg(self) -> u8 {
        self.regs & 0xf
    }

    /// Source register: the high nibble of `regs`.
    pub open spec fn spec_src_reg(self) -> u8 {
        (self.regs >> 4) & 0xf
    }

    /// Instruction class: the low three bits of the opcode.
    pub open spec fn spec_class(self) -> u8 {
        self.op & 0x7
    }

    /// Operation nibble of an ALU or jump opcode: bits 4-7.
    pub open spec fn spec_opcode(self) -> u8 {
        (self.op >> 4) & 0xf
    }

    /// Source bit of an ALU or jump opcode: bit 3.
    pub open spec fn spec_source(self) -> u8 {
        (self.op >> 3) & 0x1
    }

    pub fn new(op: u8, regs: u8, offset: i16, imm: i64) -> (r: Instruction)
        ensures
            r == (Instruction { op, regs, offset, imm }),
    {
        Self { op, regs, offset, imm }
    }

    pub fn src_reg(&self) -> (r: u8)
        ensures
            r == self.spec_src_reg(),
    {
        (self.regs >> 4) & 0xf
    }

    pub fn dst_reg(&self) -> (r: u8)
        ensures
            r == self.spec_dst_reg(),
    {
        self.regs & 0xf
    }

    pub fn class(&self) -> (r: u8)
        ensures
            r == self.spec_class(),
    {
        self.op & 0x7
    }

    pub fn opcode(&self) -> (r: u8)
        ensures
            r == self.spec_opcode(),
    {
        (self.op >> 4) & 0xf
    }

    pub fn source(&self) -> (r: u8)
        ensures
            r == self.spec_source(),
    {
        (self.op >> 3) & 0x1
    }
}

/// Both register nibbles of a record are below 16, whatever the byte holds.
pub broadcast proof fn lemma_reg_nibble_bounds(i: Instruction)
    ensures
        #[trigger] i.spec_dst_reg() < 16,
        #[trigger] i.spec_src_reg() < 16,
{
    let r = i.regs;
    assert(r & 0xf < 16 && (r >> 4) & 0xf < 16) by (bit_vector);
}

/// Immediate bound of every record but `lddw`: a signed 32-bit value.
pub open spec fn wf_imm(i: Instruction) -> bool {
    i.op == LDDW || (-0x8000_0000 <= i.imm < 0x8000_0000)
}

/// The continuation record that must follow a `lddw` record: all fields zero
/// except the high 32 bits of the immediate, sign-extended, in imm position.
pub open spec fn spec_lddw_cont(i: Instruction) -> Instruction {
    Instruction { op: 0, regs: 0, offset: 0, imm: (i.imm as u64 >> 32) as u32 as i32 as i64 }
}

/// The 64-bit immediate carried by a `lddw` pair, from the sign-extended
/// 32-bit immediates of its two packed words.
pub open spec fn spec_merge_imm(low: i64, high: i64) -> i64 {
    (((high as u64) << 32) | (low as u32 as u64)) as i64
}

/// The packed 8-byte word of one record: op, regs, little-endian offset,
/// little-endian low 32 bits of the immediate.
pub open spec fn spec_word_bytes(i: Instruction) -> Seq<u8> {
    seq![i.op, i.regs] + spec_u16_to_le_bytes(i.offset as u16) + spec_u32_to_le_bytes(
        i.imm as u32,
    )
}

/// First violation, if any, that makes a record sequence unencodable when
/// scanned from position `i`: a `lddw` record not followed by its
/// continuation record, or an out-of-range immediate.
pub open spec fn spec_encode_check(s: Seq<Instruction>, i: int) -> Option<ParseError>
    decreases s.len() - i,
{
    if !(0 <= i < s.len()) {
        None
    } else if s[i].op == LDDW {
        if i + 1 < s.len() && s[i + 1] == spec_lddw_cont(s[i]) {
            spec_encode_check(s, i + 2)
        } else {
            Some(ParseError::ParseFailed)
        }
    } else if !wf_imm(s[i]) {
        Some(ParseError::InvalidImmediate(s[i].imm))
    } else {
        spec_encode_check(s, i + 1)
    }
}

/// A record sequence that the encoder accepts.
pub open spec fn spec_encodable(s: Seq<Instruction>) -> bool {
    spec_encode_check(s, 0) is None
}

/// The packed form of a record sequence: the words of its records, in order.
pub open spec fn spec_encode(s: Seq<Instruction>, i: int) -> Seq<u8>
    decreases s.len() - i,
{
    if !(0 <= i < s.len()) {
        Seq::empty()
    } else {
        spec_word_bytes(s[i]) + spec_encode(s, i + 1)
    }
}

/// The record held by the 8-byte word at position `i`, with the immediate
/// sign-extended from 32 bits.
pub open spec fn spec_read_word(b: Seq<u8>, i: int) -> Instruction {
    Instruction {
        op: b[i],
        regs: b[i + 1],
        offset: spec_u16_from_le_bytes(b.subrange(i + 2, i + 4)) as i16,
        imm: (spec_u32_from_le_bytes(b.subrange(i + 4, i + 8)) as i32) as i64,
    }
}

/// The record sequence packed at positions `i..` of `b`, or `None` where the
/// bytes end inside a word or inside a `lddw` pair. A `lddw` word is merged
/// with the imm field of the following word into one record with a 64-bit
/// immediate, followed by the canonical continuation record.
pub open spec fn spec_decode(b: Seq<u8>, i: int) -> Option<Seq<Instruction>>
    decreases b.len() - i,
{
    if i < 0 {
        None
    } else if i == b.len() {
        Some(Seq::empty())
    } else if i + 8 > b.len() {
        None
    } else {
        let w = spec_read_word(b, i);
        if w.op == LDDW {
            if i + 16 > b.len() {
                None
            } else {
                let high = spec_read_word(b, i + 8).imm;
                let merged = Instruction {
                    op: w.op,
                    regs: w.regs,
                    offset: w.offset,
                    imm: spec_merge_imm(w.imm, high),
                };
                match spec_decode(b, i + 16) {
                    Some(rest) => Some(seq![merged, spec_lddw_cont(merged)] + rest),
                    None => None,
                }
            }
        } else {
            match spec_decode(b, i + 8) {
                Some(rest) => Some(seq![w] + rest),
                None => None,
            }
        }
    }
}

/// An ordered, 0-indexed sequence of instruction records.
#[derive(Debug, Clone)]
pub struct Instructions {
    inner: Vec<Instruction>,
}

impl View for Instructions {
    type V = Seq<Instruction>;

    closed spec fn view(&self) -> Seq<Instruction> {
        self.inner@
    }
}

impl Instructions {
    pub fn new(inner: Vec<Instruction>) -> (r: Self)
        ensures
            r@ == inner@,
    {
        Self { inner }
    }

    /// Assembles source text into an instruction sequence; see
    /// `crate::assemble::spec_assemble`.
    pub fn from_asm(text: &str) -> (r: Result<Self, ParseError>)
        requires
            text@.len() <= usize::MAX,
        ensures
            match r {
                Ok(ins) => crate::assemble::spec_assemble(text@) == Ok::<
                    Seq<Instruction>,
                    ParseError,
                >(ins@),
                Err(e) => crate::assemble::spec_assemble(text@) == Err::<
                    Seq<Instruction>,
                    ParseError,
                >(e),
            },
    {
        match crate::assemble::assemble(text) {
            Ok(v) => Ok(Instructions::new(v)),
            Err(e) => Err(e),
        }
    }

    pub fn into_vec(self) -> (r: Vec<Instruction>)
        ensures
            r@ == self@,
    {
        self.inner
    }

    pub fn as_slice(&self) -> (r: &[Instruction])
        ensures
            r@ == self@,
    {
        self.inner.as_slice()
    }

    pub fn len(&self) -> (r: usize)
        ensures
            r == self@.len(),
    {
        self.inner.len()
    }

    pub fn get(&self, i: usize) -> (r: Instruction)
        requires
            i < self@.len(),
        ensures
            r == self@[i as int],
    {
        self.inner[i]
    }
}

/// Appends the packed 8-byte word of one record.
fn push_word(out: &mut Vec<u8>, ins: Instruction)
    ensures
        final(out)@ == old(out)@ + spec_word_bytes(ins),
{
    out.push(ins.op);
    out.push(ins.regs);
    let off = u16_to_le_bytes(ins.offset as u16);
    out.push(off[0]);
    out.push(off[1]);
    let im = u32_to_le_bytes(ins.imm as u32);
    out.push(im[0]);
    out.push(im[1]);
    out.push(im[2]);
    out.push(im[3]);
    proof {
        assert(out@ =~= old(out)@ + spec_word_bytes(ins));
    }
}

/// Packs a record sequence into bytes: 8 bytes per record, 16 for a `lddw`
/// pair. Rejects a `lddw` record that is not followed by its continuation
/// record, and any other record whose immediate does not fit in 32 signed
/// bits.
pub fn encode(instructions: &Instructions) -> (r: Result<Vec<u8>, ParseError>)
    ensures
        match r {
            Ok(bytes) => spec_encode_check(instructions@, 0) is None && bytes@ == spec_encode(
                instructions@,
                0,
            ),
            Err(e) => spec_encode_check(instructions@, 0) == Some(e),
        },
{
    let ghost s = instructions@;
    let n = instructions.len();
    let mut out: Vec<u8> = Vec::new();
    let mut i: usize = 0;
    while i < n
        invariant
            0 <= i <= n,
            n == s.len(),
            instructions@ == s,
            spec_encode_check(s, 0) is None <==> spec_encode_check(s, i as int) is None,
            spec_encode_check(s, 0) is Some ==> spec_encode_check(s, 0) == spec_encode_check(
                s,
                i as int,
            ),
            out@ + spec_encode(s, i as int) == spec_encode(s, 0),
        decreases n - i,
    {
        let ins = instructions.get(i);
        if ins.op == LDDW {
            let expect_cont = Instruction::new(
                0,
                0,
                0,
                (ins.imm as u64 >> 32) as u32 as i32 as i64,
            );
            if i + 1 < n && instructions.get(i + 1) == expect_cont {
                push_word(&mut out, ins);
                push_word(&mut out, expect_cont);
                proof {
                    assert(out@ + spec_encode(s, i + 2) =~= spec_encode(s, 0)) by {
                        assert(spec_encode(s, i as int) == spec_word_bytes(s[i as int])
                            + spec_encode(s, i + 1));
                        assert(spec_encode(s, i + 1) == spec_word_bytes(s[i + 1]) + spec_encode(
                            s,
                            i + 2,
                        ));
                    }
                }
                i = i + 2;
            } else {
                return Err(ParseError::ParseFailed);
            }
        } else {
            if !(-0x8000_0000i64 <= ins.imm && ins.imm < 0x8000_0000i64) {
                return Err(ParseError::InvalidImmediate(ins.imm));
            }
            push_word(&mut out, ins);
            proof {
                assert(out@ + spec_encode(s, i + 1) =~= spec_encode(s, 0));
            }
            i = i + 1;
        }
    }
    Ok(out)
}

/// Unpacks bytes into a record sequence. Fails when the length is not a
/// multiple of 8 or a `lddw` word stands in the last 8 bytes.
pub fn decode(bytes: &[u8]) -> (r: Result<Instructions, ParseError>)
    ensures
        match r {
            Ok(ins) => spec_decode(bytes@, 0) == Some(ins@),
            Err(e) => spec_decode(bytes@, 0) is None && e == ParseError::ParseFailed,
        },
{
    let ghost b = bytes@;
    let n = bytes.len();
    let mut out: Vec<Instruction> = Vec::new();
    let mut i: usize = 0;
    while i < n
        invariant
            0 <= i <= n,
            n == b.len(),
            bytes@ == b,
            match spec_decode(b, i as int) {
                Some(rest) => spec_decode(b, 0) == Some(out@ + rest),
                None => spec_decode(b, 0) is None,
            },
        decreases n - i,
    {
        if n - i < 8 {
            return Err(ParseError::ParseFailed);
        }
        let w = read_word(bytes, i);
        if w.op == LDDW {
            if n - i < 16 {
                return Err(ParseError::ParseFailed);
            }
            let w2 = read_word(bytes, i + 8);
            let merged = Instruction::new(
                w.op,
                w.regs,
                w.offset,
                (((w2.imm as u64) << 32) | (w.imm as u32 as u64)) as i64,
            );
            let cont = Instruction::new(
                0,
                0,
                0,
                (merged.imm as u64 >> 32) as u32 as i32 as i64,
            );
            let ghost prefix = out@;
            proof {
                assert(merged.imm == spec_merge_imm(
                    spec_read_word(b, i as int).imm,
                    spec_read_word(b, i + 8).imm,
                ));
                assert(cont == spec_lddw_cont(merged));
            }
            out.push(merged);
            out.push(cont);
            proof {
                if let Some(rest2) = spec_decode(b, i + 16) {
                    assert(spec_decode(b, i as int) == Some(
                        seq![merged, spec_lddw_cont(merged)] + rest2,
                    ));
                    assert(out@ + rest2 =~= prefix + (seq![merged, spec_lddw_cont(merged)]
                        + rest2));
                }
            }
            i = i + 16;
        } else {
            let ghost prefix = out@;
            out.push(w);
            proof {
                if let Some(rest1) = spec_decode(b, i + 8) {
                    assert(spec_decode(b, i as int) == Some(seq![w] + rest1));
                    assert(out@ + rest1 =~= prefix + (seq![w] + rest1));
                }
            }
            i = i + 8;
        }
    }
    proof {
        assert(out@ + spec_decode(b, n as int).unwrap() =~= out@);
    }
    Ok(Instructions::new(out))
}

/// Every packed word is 8 bytes long.
pub proof fn lemma_word_len(i: Instruction)
    ensures
        spec_word_bytes(i).len() == 8,
{
    lemma_auto_spec_u16_to_from_le_bytes();
    lemma_auto_spec_u32_to_from_le_bytes();
}

/// Splitting a 64-bit immediate into sign-extended halves and merging them
/// gives the immediate back.
proof fn lemma_merge_split(v: i64)
    ensures
        spec_merge_imm(v as u32 as i32 as i64, (v as u64 >> 32) as u32 as i32 as i64) == v,
{
    assert(((((v as u64 >> 32) as u32 as i32 as i64 as u64) << 32) | (v as u32 as i32 as i64
        as u32 as u64)) as i64 == v) by (bit_vector);
}

/// Sign extension from 32 bits is the identity on values already in range.
proof fn lemma_sext32_id(v: i64)
    requires
        -0x8000_0000 <= v < 0x8000_0000,
    ensures
        v as u32 as i32 as i64 == v,
{
    assert((-0x8000_0000 <= v < 0x8000_0000) ==> (v as u32 as i32 as i64 == v))
        by (bit_vector);
}

/// A 16-bit offset survives the trip through its unsigned packed form.
proof fn lemma_sext16_id(v: i16)
    ensures
        ((v as u16) as i16) == v,
{
    assert(((v as u16) as i16) == v) by (bit_vector);
}

/// Reading the word at the head of `w + rest` recovers the packed fields of
/// the record `i` that produced `w`, with the immediate sign-extended.
proof fn lemma_read_word_of(i: Instruction, rest: Seq<u8>)
    ensures
        spec_read_word(spec_word_bytes(i) + rest, 0) == (Instruction {
            op: i.op,
            regs: i.regs,
            offset: i.offset,
            imm: i.imm as u32 as i32 as i64,
        }),
{
    lemma_auto_spec_u16_to_from_le_bytes();
    lemma_auto_spec_u32_to_from_le_bytes();
    let b = spec_word_bytes(i) + rest;
    assert(b.subrange(2, 4) =~= spec_u16_to_le_bytes(i.offset as u16));
    assert(b.subrange(4, 8) =~= spec_u32_to_le_bytes(i.imm as u32));
    lemma_sext16_id(i.offset);
}

/// Decoding is insensitive to a fully decoded prefix: reading at position
/// `b1.len() + j` of `b1 + b2` reads at position `j` of `b2`.
proof fn lemma_decode_shift(b1: Seq<u8>, b2: Seq<u8>, j: int)
    requires
        j >= 0,
    ensures
        spec_decode(b1 + b2, b1.len() + j) == spec_decode(b2, j),
    decreases b2.len() - j,
{
    let b = b1 + b2;
    let n1 = b1.len() as int;
    if j > b2.len() {
    } else if j == b2.len() {
    } else if j + 8 > b2.len() {
    } else {
        lemma_read_word_shift(b1, b2, j);
        let w = spec_read_word(b2, j);
        if w.op == LDDW {
            if j + 16 <= b2.len() {
                lemma_read_word_shift(b1, b2, j + 8);
                lemma_decode_shift(b1, b2, j + 16);
            }
        } else {
            lemma_decode_shift(b1, b2, j + 8);
        }
    }
}

/// The word at position `b1.len() + j` of `b1 + b2` is the word at `j` of
/// `b2`.
proof fn lemma_read_word_shift(b1: Seq<u8>, b2: Seq<u8>, j: int)
    requires
        0 <= j,
        j + 8 <= b2.len(),
    ensures
        spec_read_word(b1 + b2, b1.len() + j) == spec_read_word(b2, j),
{
    let b = b1 + b2;
    let n1 = b1.len() as int;
    assert(b.subrange(n1 + j + 2, n1 + j + 4) =~= b2.subrange(j + 2, j + 4));
    assert(b.subrange(n1 + j + 4, n1 + j + 8) =~= b2.subrange(j + 4, j + 8));
    assert(b[n1 + j] == b2[j]);
    assert(b[n1 + j + 1] == b2[j + 1]);
}

/// Round trip of the binary codec: decoding the packed form of an encodable
/// record sequence gives the records back, from any scan position.
pub proof fn lemma_decode_encode_from(s: Seq<Instruction>, i: int)
    requires
        0 <= i <= s.len(),
        spec_encode_check(s, i) is None,
    ensures
        spec_decode(spec_encode(s, i), 0) == Some(s.subrange(i, s.len() as int)),
    decreases s.len() - i,
{
    lemma_auto_spec_u16_to_from_le_bytes();
    lemma_auto_spec_u32_to_from_le_bytes();
    if i == s.len() {
        assert(s.subrange(i, s.len() as int) =~= Seq::<Instruction>::empty());
    } else if s[i].op == LDDW {
        let v = s[i].imm;
        let cont = spec_lddw_cont(s[i]);
        let w1 = spec_word_bytes(s[i]);
        let w2 = spec_word_bytes(cont);
        let rest = spec_encode(s, i + 2);
        let b = spec_encode(s, i);
        lemma_word_len(s[i]);
        lemma_word_len(cont);
        assert(i + 1 < s.len() && s[i + 1] == cont && spec_encode_check(s, i + 2) is None);
        assert(spec_encode(s, i) == spec_word_bytes(s[i]) + spec_encode(s, i + 1));
        assert(spec_encode(s, i + 1) == spec_word_bytes(s[i + 1]) + spec_encode(s, i + 2));
        assert(b =~= (w1 + w2) + rest);
        assert(b =~= w1 + (w2 + rest));
        lemma_read_word_of(s[i], w2 + rest);
        let w = spec_read_word(b, 0);
        assert(w.op == LDDW);
        // the second word of the pair
        lemma_read_word_shift(w1, w2 + rest, 0);
        lemma_read_word_of(cont, rest);
        let high = spec_read_word(b, 8).imm;
        lemma_sext32_id(cont.imm);
        assert(high == cont.imm);
        // merging the halves gives the full immediate back
        lemma_merge_split(v);
        let merged = Instruction { op: w.op, regs: w.regs, offset: w.offset, imm: spec_merge_imm(w.imm, high) };
        assert(merged == s[i]);
        lemma_decode_shift(w1 + w2, rest, 0);
        lemma_decode_encode_from(s, i + 2);
        assert(spec_decode(b, 16) == Some(s.subrange(i + 2, s.len() as int)));
        assert(seq![merged, spec_lddw_cont(merged)] + s.subrange(i + 2, s.len() as int)
            =~= s.subrange(i, s.len() as int));
    } else {
        let w1 = spec_word_bytes(s[i]);
        let rest = spec_encode(s, i + 1);
        let b = spec_encode(s, i);
        lemma_word_len(s[i]);
        lemma_read_word_of(s[i], rest);
        lemma_sext32_id(s[i].imm);
        let w = spec_read_word(b, 0);
        assert(w == s[i]);
        lemma_decode_shift(w1, rest, 0);
        lemma_decode_encode_from(s, i + 1);
        assert(seq![w] + s.subrange(i + 1, s.len() as int) =~= s.subrange(i, s.len() as int));
    }
}

/// Round trip of the binary codec: `decode` recovers every encodable record
/// sequence from its `encode` image.
pub proof fn lemma_decode_encode(s: Seq<Instruction>)
    requires
        spec_encodable(s),
    ensures
        spec_decode(spec_encode(s, 0), 0) == Some(s),
{
    lemma_decode_encode_from(s, 0);
    assert(s.subrange(0, s.len() as int) =~= s);
}

/// A `lddw` record and its continuation record pack into exactly 16 bytes,
/// and those 16 bytes decode back to the pair.
pub proof fn lemma_lddw_pair_packs_sixteen(l: Instruction)
    requires
        l.op == LDDW,
    ensures
        spec_encode(seq![l, spec_lddw_cont(l)], 0).len() == 16,
        spec_decode(spec_encode(seq![l, spec_lddw_cont(l)], 0), 0) == Some(
            seq![l, spec_lddw_cont(l)],
        ),
{
    let s = seq![l, spec_lddw_cont(l)];
    lemma_word_len(l);
    lemma_word_len(spec_lddw_cont(l));
    assert(spec_encode(s, 2) =~= Seq::<u8>::empty());
    assert(spec_encode(s, 1) == spec_word_bytes(s[1]) + spec_encode(s, 2));
    assert(spec_encode(s, 0) == spec_word_bytes(s[0]) + spec_encode(s, 1));
    assert(spec_encode_check(s, 2) is None);
    assert(spec_encode_check(s, 0) is None);
    lemma_decode_encode(s);
    assert(spec_decode(spec_encode(s, 0), 0) == Some(s));
}

/// Reads the 8-byte word at `i`, sign-extending the 32-bit immediate.
fn read_word(bytes: &[u8], i: usize) -> (r: Instruction)
    requires
        i + 8 <= bytes@.len(),
        bytes@.len() <= usize::MAX,
    ensures
        r == spec_read_word(bytes@, i as int),
{
    let op = *vstd::slice::slice_index_get(bytes, i);
    let regs = *vstd::slice::slice_index_get(bytes, i + 1);
    let off = #[verifier::truncate] (u16_from_le_bytes(slice_subrange(bytes, i + 2, i + 4))
        as i16);
    let imm = (#[verifier::truncate] (u32_from_le_bytes(slice_subrange(bytes, i + 4, i + 8))
        as i32)) as i64;
    Instruction::new(op, regs, off, imm)
}

} // verus!
