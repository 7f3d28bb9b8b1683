//! The assembly lexer/parser: mnemonics and operands in textual form,
//! parsed into named instructions with operand lists.
//!
//! The grammar, over characters: a program is instructions separated by
//! newlines; an instruction is an identifier with optional comma-separated
//! operands, spaces allowed around every token; an operand is a register
//! `r<digits>`, a signed decimal or `0x` hexadecimal integer, or a memory
//! reference `[r<digits>(+|-)<digits>]`. Parsing is greedy and total: every
//! parser either consumes what its rule describes and says where it
//! stopped, or says it does not apply.
use vstd::prelude::*;

use vstd::string::StrSliceExecFns;

verus! {

/// Operand of an instruction.
#[derive(Clone, Copy, Debug, PartialEq, Eq, Structural)]
pub enum Operand {
    /// Register number.
    Register(i64),
    /// Jump offset or immediate.
    Integer(i64),
    /// Register number and displacement.
    Memory(i64, i64),
    /// Placeholder for pattern matching.
    Nil,
}

/// Parsed instruction: a mnemonic and its operands.
#[derive(Debug, Clone)]
pub struct Instruction {
    /// Instruction name.
    pub name: String,
    /// Operands, where the instruction has any.
    pub operands: Option<Vec<Operand>>,
}

/// The operand lists of two parsed instructions, as sequences.
pub open spec fn spec_operands_view(o: Option<Vec<Operand>>) -> Option<Seq<Operand>> {
    match o {
        Some(v) => Some(v@),
        None => None,
    }
}

impl Instruction {
    pub fn new(name: String, operands: Option<Vec<Operand>>) -> (r: Instruction)
        ensures
            r.name == name,
            r.operands == operands,
    {
        Self { name, operands }
    }
}

/// Whether two operand vectors hold the same operands.
fn operands_eq(a: &Vec<Operand>, b: &Vec<Operand>) -> (r: bool)
    ensures
        r == (a@ =~= b@),
{
    if a.len() != b.len() {
        return false;
    }
    let n = a.len();
    let mut i: usize = 0;
    while i < n
        invariant
            i <= n,
            n == a@.len() == b@.len(),
            forall|k: int| 0 <= k < i ==> a@[k] == b@[k],
        decreases n - i,
    {
        if a[i] != b[i] {
            return false;
        }
        i = i + 1;
    }
    true
}

impl PartialEq for Instruction {
    fn eq(&self, other: &Instruction) -> (r: bool) {
        let names = self.name == other.name;
        let ops = match (&self.operands, &other.operands) {
            (None, None) => true,
            (Some(a), Some(b)) => operands_eq(a, b),
            _ => false,
        };
        names && ops
    }
}

impl vstd::std_specs::cmp::PartialEqSpecImpl for Instruction {
    open spec fn obeys_eq_spec() -> bool {
        true
    }

    open spec fn eq_spec(&self, other: &Instruction) -> bool {
        self.name@ == other.name@ && spec_operands_view(self.operands) == spec_operands_view(
            other.operands,
        )
    }
}

/// A decimal digit.
pub open spec fn spec_is_digit(c: char) -> bool {
    48 <= c as u32 <= 57
}

/// A hexadecimal digit.
pub open spec fn spec_is_hex_digit(c: char) -> bool {
    spec_is_digit(c) || (97 <= c as u32 <= 102) || (65 <= c as u32 <= 70)
}

/// A letter or a digit.
pub open spec fn spec_is_alnum(c: char) -> bool {
    spec_is_digit(c) || (97 <= c as u32 <= 122) || (65 <= c as u32 <= 90)
}

/// A space or a tab.
pub open spec fn spec_is_space(c: char) -> bool {
    c as u32 == 32 || c as u32 == 9
}

/// Value of one digit, decimal or hexadecimal.
pub open spec fn spec_digit_val(c: char) -> u64 {
    if spec_is_digit(c) {
        (c as u32 - 48) as u64
    } else if 97 <= c as u32 <= 102 {
        (c as u32 - 87) as u64
    } else {
        (c as u32 - 55) as u64
    }
}

/// First position at or after `i` whose character fails `digits`-or-`hex`
/// or alphanumeric classes; the scanners below share this shape.
pub open spec fn spec_scan_digits(s: Seq<char>, i: int) -> int
    decreases s.len() - i,
{
    if 0 <= i < s.len() && spec_is_digit(s[i]) {
        spec_scan_digits(s, i + 1)
    } else {
        i
    }
}

pub open spec fn spec_scan_hex(s: Seq<char>, i: int) -> int
    decreases s.len() - i,
{
    if 0 <= i < s.len() && spec_is_hex_digit(s[i]) {
        spec_scan_hex(s, i + 1)
    } else {
        i
    }
}

pub open spec fn spec_scan_alnum(s: Seq<char>, i: int) -> int
    decreases s.len() - i,
{
    if 0 <= i < s.len() && spec_is_alnum(s[i]) {
        spec_scan_alnum(s, i + 1)
    } else {
        i
    }
}

pub open spec fn spec_scan_space(s: Seq<char>, i: int) -> int
    decreases s.len() - i,
{
    if 0 <= i < s.len() && spec_is_space(s[i]) {
        spec_scan_space(s, i + 1)
    } else {
        i
    }
}

/// Value of the digits at `i..j` in base `base` (10 or 16), or `None` where
/// the value leaves 64 bits.
pub open spec fn spec_digits_val(s: Seq<char>, i: int, j: int, base: u64, acc: u64) -> Option<
    u64,
>
    decreases j - i,
{
    if i >= j {
        Some(acc)
    } else {
        let d = spec_digit_val(s[i]);
        if acc > ((u64::MAX - d) as u64) / base {
            None
        } else {
            spec_digits_val(s, i + 1, j, base, (acc * base + d) as u64)
        }
    }
}

/// An identifier: one or more letters or digits.
pub open spec fn spec_ident(s: Seq<char>, i: int) -> Option<(int, Seq<char>)> {
    let j = spec_scan_alnum(s, i);
    if j == i {
        None
    } else {
        Some((j, s.subrange(i, j)))
    }
}

/// An integer: an optional sign, then `0x` and hexadecimal digits or plain
/// decimal digits. A value that leaves 64 bits does not parse; a negative
/// value is the two's-complement negation of its digits.
pub open spec fn spec_integer(s: Seq<char>, i: int) -> Option<(int, i64)> {
    let (neg, k) = if i < s.len() && s[i] == '-' {
        (true, i + 1)
    } else if i < s.len() && s[i] == '+' {
        (false, i + 1)
    } else {
        (false, i)
    };
    let hex = k + 2 < s.len() && s[k] == '0' && s[k + 1] == 'x' && spec_is_hex_digit(s[k + 2]);
    if hex {
        let j = spec_scan_hex(s, k + 2);
        match spec_digits_val(s, k + 2, j, 16, 0) {
            Some(v) => Some(
                (
                    j,
                    if neg {
                        vstd::wrapping::i64_specs::wrapping_sub(0i64, v as i64)
                    } else {
                        v as i64
                    },
                ),
            ),
            None => None,
        }
    } else {
        let j = spec_scan_digits(s, k);
        if j == k {
            None
        } else {
            match spec_digits_val(s, k, j, 10, 0) {
                Some(v) => Some(
                    (
                        j,
                        if neg {
                            vstd::wrapping::i64_specs::wrapping_sub(0i64, v as i64)
                        } else {
                            v as i64
                        },
                    ),
                ),
                None => None,
            }
        }
    }
}

/// A register: `r` followed by decimal digits.
pub open spec fn spec_register(s: Seq<char>, i: int) -> Option<(int, i64)> {
    if i < s.len() && s[i] == 'r' {
        let j = spec_scan_digits(s, i + 1);
        if j == i + 1 {
            None
        } else {
            match spec_digits_val(s, i + 1, j, 10, 0) {
                Some(v) => {
                    if v <= i64::MAX as u64 {
                        Some((j, v as i64))
                    } else {
                        None
                    }
                },
                None => None,
            }
        }
    } else {
        None
    }
}

/// A memory reference: `[`, a register, an optional signed displacement,
/// `]`.
pub open spec fn spec_memory(s: Seq<char>, i: int) -> Option<(int, Operand)> {
    if i < s.len() && s[i] == '[' {
        match spec_register(s, i + 1) {
            Some((p, r)) => {
                let (q, off) = match spec_integer(s, p) {
                    Some((q, v)) => (q, v),
                    None => (p, 0i64),
                };
                if q < s.len() && s[q] == ']' {
                    Some((q + 1, Operand::Memory(r, off)))
                } else {
                    None
                }
            },
            None => None,
        }
    } else {
        None
    }
}

/// An operand: a register, an integer, or a memory reference, tried in that
/// order.
pub open spec fn spec_operand(s: Seq<char>, i: int) -> Option<(int, Operand)> {
    match spec_register(s, i) {
        Some((j, r)) => Some((j, Operand::Register(r))),
        None => match spec_integer(s, i) {
            Some((j, v)) => Some((j, Operand::Integer(v))),
            None => spec_memory(s, i),
        },
    }
}

/// Further `, operand` elements after a first one ending at `i`.
pub open spec fn spec_operands_rest(s: Seq<char>, i: int, acc: Seq<Operand>) -> (int, Seq<
    Operand,
>)
    decreases s.len() - i,
{
    if 0 <= i && i < s.len() && s[i] == ',' {
        let k = spec_scan_space(s, i + 1);
        match spec_operand(s, k) {
            Some((j, o)) => {
                if i < j <= s.len() {
                    spec_operands_rest(s, j, acc.push(o))
                } else {
                    (i, acc)
                }
            },
            None => (i, acc),
        }
    } else {
        (i, acc)
    }
}

/// One or more comma-separated operands, spaces allowed before each.
pub open spec fn spec_operands(s: Seq<char>, i: int) -> Option<(int, Seq<Operand>)> {
    let k = spec_scan_space(s, i);
    match spec_operand(s, k) {
        Some((j, o)) => Some(spec_operands_rest(s, j, seq![o])),
        None => None,
    }
}

/// One instruction: spaces, an identifier, spaces, optional operands,
/// spaces.
pub open spec fn spec_instruction(s: Seq<char>, i: int) -> Option<
    (int, (Seq<char>, Option<Seq<Operand>>)),
> {
    let a = spec_scan_space(s, i);
    match spec_ident(s, a) {
        None => None,
        Some((b, name)) => {
            let c = spec_scan_space(s, b);
            match spec_operands(s, c) {
                Some((d, ops)) => Some((spec_scan_space(s, d), (name, Some(ops)))),
                None => Some((spec_scan_space(s, c), (name, None))),
            }
        },
    }
}

/// Further newline-separated instructions after one ending at `i`.
pub open spec fn spec_instructions_rest(
    s: Seq<char>,
    i: int,
    acc: Seq<(Seq<char>, Option<Seq<Operand>>)>,
) -> (int, Seq<(Seq<char>, Option<Seq<Operand>>)>)
    decreases s.len() - i,
{
    if 0 <= i && i < s.len() && s[i] == '\n' {
        match spec_instruction(s, i + 1) {
            Some((j, ins)) => {
                if i < j <= s.len() {
                    spec_instructions_rest(s, j, acc.push(ins))
                } else {
                    (i, acc)
                }
            },
            None => (i, acc),
        }
    } else {
        (i, acc)
    }
}

/// A program: newline-separated instructions, possibly none.
pub open spec fn spec_instructions(s: Seq<char>) -> (int, Seq<
    (Seq<char>, Option<Seq<Operand>>),
>) {
    match spec_instruction(s, 0) {
        None => (0, Seq::empty()),
        Some((j, ins)) => spec_instructions_rest(s, j, seq![ins]),
    }
}


/// Every scanner stays between its start and the end of the input.
pub proof fn lemma_scan_bounds(s: Seq<char>, i: int)
    requires
        0 <= i <= s.len(),
    ensures
        i <= spec_scan_digits(s, i) <= s.len(),
        i <= spec_scan_hex(s, i) <= s.len(),
        i <= spec_scan_alnum(s, i) <= s.len(),
        i <= spec_scan_space(s, i) <= s.len(),
    decreases s.len() - i,
{
    if i < s.len() {
        lemma_scan_bounds(s, i + 1);
    }
}

/// Every token parser that applies consumes at least one character and
/// stops inside the input.
pub proof fn lemma_parser_pos(s: Seq<char>, i: int)
    requires
        0 <= i <= s.len(),
    ensures
        spec_ident(s, i) is Some ==> i < (spec_ident(s, i)->0).0 <= s.len(),
        spec_integer(s, i) is Some ==> i < (spec_integer(s, i)->0).0 <= s.len(),
        spec_register(s, i) is Some ==> i < (spec_register(s, i)->0).0 <= s.len(),
        spec_memory(s, i) is Some ==> i < (spec_memory(s, i)->0).0 <= s.len(),
        spec_operand(s, i) is Some ==> i < (spec_operand(s, i)->0).0 <= s.len(),
    decreases s.len() - i,
{
    lemma_scan_bounds(s, i);
    if i < s.len() {
        lemma_scan_bounds(s, i + 1);
        if i + 2 <= s.len() {
            lemma_scan_bounds(s, i + 2);
        }
        if i + 3 <= s.len() {
            lemma_scan_bounds(s, i + 3);
        }
        if spec_register(s, i + 1) is Some {
            lemma_parser_pos(s, i + 1);
            let p = (spec_register(s, i + 1)->0).0;
            lemma_parser_pos_integer(s, p);
        }
    }
}

/// The integer parser alone, for positions reached inside a memory operand.
proof fn lemma_parser_pos_integer(s: Seq<char>, i: int)
    requires
        0 <= i <= s.len(),
    ensures
        spec_integer(s, i) is Some ==> i < (spec_integer(s, i)->0).0 <= s.len(),
{
    lemma_scan_bounds(s, i);
    if i < s.len() {
        lemma_scan_bounds(s, i + 1);
        if i + 2 <= s.len() {
            lemma_scan_bounds(s, i + 2);
        }
        if i + 3 <= s.len() {
            lemma_scan_bounds(s, i + 3);
        }
    }
}

/// An instruction parser that applies stops inside the input.
pub proof fn lemma_instruction_pos(s: Seq<char>, i: int)
    requires
        0 <= i <= s.len(),
    ensures
        spec_instruction(s, i) is Some ==> i <= (spec_instruction(s, i)->0).0 <= s.len(),
{
    lemma_scan_bounds(s, i);
    let a = spec_scan_space(s, i);
    lemma_parser_pos(s, a);
    if spec_ident(s, a) is Some {
        let b = (spec_ident(s, a)->0).0;
        lemma_scan_bounds(s, b);
        let c = spec_scan_space(s, b);
        lemma_operands_pos(s, c);
        match spec_operands(s, c) {
            Some((d, ops)) => {
                lemma_scan_bounds(s, d);
            },
            None => {
                lemma_scan_bounds(s, c);
            },
        }
    }
}

/// An operand list that applies stops inside the input.
pub proof fn lemma_operands_pos(s: Seq<char>, i: int)
    requires
        0 <= i <= s.len(),
    ensures
        spec_operands(s, i) is Some ==> i <= (spec_operands(s, i)->0).0 <= s.len(),
{
    lemma_scan_bounds(s, i);
    let k = spec_scan_space(s, i);
    lemma_parser_pos(s, k);
    if spec_operand(s, k) is Some {
        let j = (spec_operand(s, k)->0).0;
        lemma_operands_rest_pos(s, j, seq![(spec_operand(s, k)->0).1]);
    }
}

/// The trailing-operand fold never backs up and stops inside the input.
proof fn lemma_operands_rest_pos(s: Seq<char>, i: int, acc: Seq<Operand>)
    requires
        0 <= i <= s.len(),
    ensures
        i <= spec_operands_rest(s, i, acc).0 <= s.len(),
    decreases s.len() - i,
{
    if i < s.len() && s[i] == ',' {
        let k = spec_scan_space(s, i + 1);
        lemma_scan_bounds(s, i + 1);
        lemma_parser_pos(s, k);
        match spec_operand(s, k) {
            Some((j, o)) => {
                if i < j <= s.len() {
                    lemma_operands_rest_pos(s, j, acc.push(o));
                }
            },
            None => {},
        }
    }
}

/// First position at or after `i` of a character outside the class picked
/// by `kind` (0 digits, 1 hexadecimal digits, 2 alphanumerics, 3 spaces).
fn scan_class(s: &str, n: usize, i: usize, kind: u8) -> (r: usize)
    requires
        n == s@.len(),
        i <= n,
        kind <= 3,
    ensures
        i <= r <= n,
        kind == 0 ==> r == spec_scan_digits(s@, i as int),
        kind == 1 ==> r == spec_scan_hex(s@, i as int),
        kind == 2 ==> r == spec_scan_alnum(s@, i as int),
        kind == 3 ==> r == spec_scan_space(s@, i as int),
    decreases n - i,
{
    if i < n {
        let c = s.get_char(i);
        let u = c as u32;
        let hit = if kind == 0 {
            48 <= u && u <= 57
        } else if kind == 1 {
            (48 <= u && u <= 57) || (97 <= u && u <= 102) || (65 <= u && u <= 70)
        } else if kind == 2 {
            (48 <= u && u <= 57) || (97 <= u && u <= 122) || (65 <= u && u <= 90)
        } else {
            u == 32 || u == 9
        };
        if hit {
            return scan_class(s, n, i + 1, kind);
        }
    }
    i
}

/// Value of the digits at `i..j`; see `spec_digits_val`.
fn digits_val(s: &str, i: usize, j: usize, base: u64, acc: u64) -> (r: Option<u64>)
    requires
        i <= j <= s@.len(),
        base == 10 || base == 16,
        forall|k: int| i <= k < j ==> spec_is_hex_digit(#[trigger] s@[k]),
    ensures
        r == spec_digits_val(s@, i as int, j as int, base, acc),
    decreases j - i,
{
    if i >= j {
        Some(acc)
    } else {
        let c = s.get_char(i);
        let u = c as u32;
        let d: u64 = if 48 <= u && u <= 57 {
            (u - 48) as u64
        } else if 97 <= u && u <= 102 {
            (u - 87) as u64
        } else {
            (u - 55) as u64
        };
        if acc > (u64::MAX - d) / base {
            None
        } else {
            digits_val(s, i + 1, j, base, acc * base + d)
        }
    }
}

/// Parses an identifier; see `spec_ident`. The result is the identifier's
/// text and the position after it.
pub fn ident(s: &str, i: usize) -> (r: Option<(usize, String)>)
    requires
        i <= s@.len(),
        s@.len() <= usize::MAX,
    ensures
        match r {
            Some((j, name)) => spec_ident(s@, i as int) == Some((j as int, name@)),
            None => spec_ident(s@, i as int) is None,
        },
{
    let n = s.unicode_len();
    let j = scan_class(s, n, i, 2);
    if j == i {
        None
    } else {
        let sub = s.substring_char(i, j);
        Some((j, String::from_str(sub)))
    }
}

/// Parses an integer; see `spec_integer`.
pub fn integer(s: &str, i: usize) -> (r: Option<(usize, i64)>)
    requires
        i <= s@.len(),
        s@.len() <= usize::MAX,
    ensures
        match r {
            Some((j, v)) => spec_integer(s@, i as int) == Some((j as int, v)),
            None => spec_integer(s@, i as int) is None,
        },
{
    let n = s.unicode_len();
    let (neg, k): (bool, usize) = if i < n && s.get_char(i) == '-' {
        (true, i + 1)
    } else if i < n && s.get_char(i) == '+' {
        (false, i + 1)
    } else {
        (false, i)
    };
    let hex = n - k > 2 && s.get_char(k) == '0' && s.get_char(k + 1) == 'x' && is_hex_digit(
        s.get_char(k + 2),
    );
    if hex {
        let j = scan_class(s, n, k + 2, 1);
        proof {
            lemma_scan_hex_chars(s@, k + 2, j as int);
        }
        match digits_val(s, k + 2, j, 16, 0) {
            Some(v) => Some(
                (
                    j,
                    if neg {
                        (0i64).wrapping_sub(#[verifier::truncate] (v as i64))
                    } else {
                        #[verifier::truncate] (v as i64)
                    },
                ),
            ),
            None => None,
        }
    } else {
        let j = scan_class(s, n, k, 0);
        if j == k {
            None
        } else {
            proof {
                lemma_scan_digit_chars(s@, k as int, j as int);
            }
            match digits_val(s, k, j, 10, 0) {
                Some(v) => Some(
                    (
                        j,
                        if neg {
                            (0i64).wrapping_sub(#[verifier::truncate] (v as i64))
                        } else {
                            #[verifier::truncate] (v as i64)
                        },
                    ),
                ),
                None => None,
            }
        }
    }
}

/// Every character a digit scan passed over is a digit (so also a
/// hexadecimal digit).
proof fn lemma_scan_digit_chars(s: Seq<char>, i: int, j: int)
    requires
        j == spec_scan_digits(s, i),
        0 <= i,
    ensures
        forall|k: int| i <= k < j ==> spec_is_hex_digit(#[trigger] s[k]),
    decreases j - i,
{
    if i < s.len() && spec_is_digit(s[i]) && i < j {
        lemma_scan_digit_chars(s, i + 1, j);
    }
}

/// Every character a hexadecimal scan passed over is a hexadecimal digit.
proof fn lemma_scan_hex_chars(s: Seq<char>, i: int, j: int)
    requires
        j == spec_scan_hex(s, i),
        0 <= i,
    ensures
        forall|k: int| i <= k < j ==> spec_is_hex_digit(#[trigger] s[k]),
    decreases j - i,
{
    if i < s.len() && spec_is_hex_digit(s[i]) && i < j {
        lemma_scan_hex_chars(s, i + 1, j);
    }
}

/// A hexadecimal digit.
fn is_hex_digit(c: char) -> (r: bool)
    ensures
        r == spec_is_hex_digit(c),
{
    let u = c as u32;
    (48 <= u && u <= 57) || (97 <= u && u <= 102) || (65 <= u && u <= 70)
}

/// Parses a register; see `spec_register`.
pub fn register(s: &str, i: usize) -> (r: Option<(usize, i64)>)
    requires
        i <= s@.len(),
        s@.len() <= usize::MAX,
    ensures
        match r {
            Some((j, v)) => spec_register(s@, i as int) == Some((j as int, v)),
            None => spec_register(s@, i as int) is None,
        },
{
    let n = s.unicode_len();
    if i < n && s.get_char(i) == 'r' {
        let j = scan_class(s, n, i + 1, 0);
        if j == i + 1 {
            None
        } else {
            proof {
                lemma_scan_digit_chars(s@, i + 1, j as int);
            }
            match digits_val(s, i + 1, j, 10, 0) {
                Some(v) => {
                    if v <= 0x7fff_ffff_ffff_ffff {
                        Some((j, #[verifier::truncate] (v as i64)))
                    } else {
                        None
                    }
                },
                None => None,
            }
        }
    } else {
        None
    }
}

/// Parses a memory reference; see `spec_memory`.
pub fn memory_operand(s: &str, i: usize) -> (r: Option<(usize, Operand)>)
    requires
        i <= s@.len(),
        s@.len() <= usize::MAX,
    ensures
        match r {
            Some((j, v)) => spec_memory(s@, i as int) == Some((j as int, v)),
            None => spec_memory(s@, i as int) is None,
        },
{
    let n = s.unicode_len();
    if i < n && s.get_char(i) == '[' {
        proof {
            lemma_parser_pos(s@, i + 1);
        }
        match register(s, i + 1) {
            Some((p, rg)) => {
                let (q, off): (usize, i64) = match integer(s, p) {
                    Some((q, v)) => (q, v),
                    None => (p, 0i64),
                };
                if q < n && s.get_char(q) == ']' {
                    Some((q + 1, Operand::Memory(rg, off)))
                } else {
                    None
                }
            },
            None => None,
        }
    } else {
        None
    }
}

/// Parses one operand; see `spec_operand`.
pub fn operand(s: &str, i: usize) -> (r: Option<(usize, Operand)>)
    requires
        i <= s@.len(),
        s@.len() <= usize::MAX,
    ensures
        match r {
            Some((j, v)) => spec_operand(s@, i as int) == Some((j as int, v)),
            None => spec_operand(s@, i as int) is None,
        },
{
    match register(s, i) {
        Some((j, rg)) => Some((j, Operand::Register(rg))),
        None => match integer(s, i) {
            Some((j, v)) => Some((j, Operand::Integer(v))),
            None => memory_operand(s, i),
        },
    }
}

/// Parses a comma-separated operand list; see `spec_operands`.
pub fn operands(s: &str, i: usize) -> (r: Option<(usize, Vec<Operand>)>)
    requires
        i <= s@.len(),
        s@.len() <= usize::MAX,
    ensures
        match r {
            Some((j, v)) => spec_operands(s@, i as int) == Some((j as int, v@)),
            None => spec_operands(s@, i as int) is None,
        },
{
    let n = s.unicode_len();
    let k = scan_class(s, n, i, 3);
    proof {
        lemma_parser_pos(s@, k as int);
    }
    match operand(s, k) {
        None => None,
        Some((j0, o)) => {
            let mut acc: Vec<Operand> = Vec::new();
            acc.push(o);
            let mut j = j0;
            proof {
                assert(acc@ =~= seq![o]);
            }
            loop
                invariant
                    j <= n,
                    n == s@.len(),
                    s@.len() <= usize::MAX,
                    spec_operands_rest(s@, j as int, acc@) == spec_operands_rest(
                        s@,
                        j0 as int,
                        seq![o],
                    ),
                ensures
                    spec_operands_rest(s@, j0 as int, seq![o]) == (j as int, acc@),
                decreases n - j,
            {
                let mut advanced = false;
                if j < n && s.get_char(j) == ',' {
                    let k2 = scan_class(s, n, j + 1, 3);
                    proof {
                        lemma_scan_bounds(s@, j + 1);
                        lemma_parser_pos(s@, k2 as int);
                    }
                    match operand(s, k2) {
                        Some((j2, o2)) => {
                            if j2 > j {
                                acc.push(o2);
                                j = j2;
                                advanced = true;
                            }
                        },
                        None => {},
                    }
                }
                if !advanced {
                    break ;
                }
            }
            Some((j, acc))
        },
    }
}

/// Parses one instruction; see `spec_instruction`.
pub fn instruction(s: &str, i: usize) -> (r: Option<(usize, Instruction)>)
    requires
        i <= s@.len(),
        s@.len() <= usize::MAX,
    ensures
        match r {
            Some((j, ins)) => spec_instruction(s@, i as int) == Some(
                (j as int, (ins.name@, spec_operands_view(ins.operands))),
            ),
            None => spec_instruction(s@, i as int) is None,
        },
{
    let n = s.unicode_len();
    let a = scan_class(s, n, i, 3);
    proof {
        lemma_parser_pos(s@, a as int);
    }
    match ident(s, a) {
        None => None,
        Some((b, name)) => {
            let c = scan_class(s, n, b, 3);
            proof {
                lemma_operands_pos(s@, c as int);
            }
            match operands(s, c) {
                Some((d, ops)) => Some(
                    (scan_class(s, n, d, 3), Instruction::new(name, Some(ops))),
                ),
                None => Some((scan_class(s, n, c, 3), Instruction::new(name, None))),
            }
        },
    }
}

/// The parsed form of a vector of instructions.
pub open spec fn spec_parsed_view(v: Seq<Instruction>) -> Seq<
    (Seq<char>, Option<Seq<Operand>>),
> {
    Seq::new(v.len(), |k: int| (v[k].name@, spec_operands_view(v[k].operands)))
}

/// Parses a newline-separated program; see `spec_instructions`. The result
/// is the position the parse stopped at and the instructions before it.
pub fn instructions(s: &str) -> (r: (usize, Vec<Instruction>))
    requires
        s@.len() <= usize::MAX,
    ensures
        spec_instructions(s@) == (r.0 as int, spec_parsed_view(r.1@)),
{
    let n = s.unicode_len();
    proof {
        lemma_instruction_pos(s@, 0);
    }
    match instruction(s, 0) {
        None => {
            let v: Vec<Instruction> = Vec::new();
            proof {
                assert(spec_parsed_view(v@) =~= Seq::<
                    (Seq<char>, Option<Seq<Operand>>),
                >::empty());
            }
            (0, v)
        },
        Some((j0, ins0)) => {
            let mut acc: Vec<Instruction> = Vec::new();
            let ghost first = (ins0.name@, spec_operands_view(ins0.operands));
            acc.push(ins0);
            let mut j = j0;
            proof {
                assert(spec_parsed_view(acc@) =~= seq![first]);
            }
            loop
                invariant
                    j <= n,
                    n == s@.len(),
                    s@.len() <= usize::MAX,
                    spec_instructions_rest(s@, j as int, spec_parsed_view(acc@))
                        == spec_instructions_rest(s@, j0 as int, seq![first]),
                ensures
                    spec_instructions_rest(s@, j0 as int, seq![first]) == (
                        j as int,
                        spec_parsed_view(acc@),
                    ),
                decreases n - j,
            {
                let mut advanced = false;
                if j < n && s.get_char(j) == '\n' {
                    proof {
                        lemma_instruction_pos(s@, j + 1);
                    }
                    match instruction(s, j + 1) {
                        Some((j2, ins2)) => {
                            if j2 > j {
                                let ghost prev = spec_parsed_view(acc@);
                                let ghost item = (ins2.name@, spec_operands_view(ins2.operands));
                                acc.push(ins2);
                                proof {
                                    assert(spec_parsed_view(acc@) =~= prev.push(item));
                                }
                                j = j2;
                                advanced = true;
                            }
                        },
                        None => {},
                    }
                }
                if !advanced {
                    break ;
                }
            }
            (j, acc)
        },
    }
}

} // verus!
