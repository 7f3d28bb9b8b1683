//! Text helpers of the disassembler: decimal rendering of numbers,
//! register names, and memory operands.
use vstd::prelude::*;

use vstd::string::StringExecFns;

verus! {

/// The character of one decimal digit.
pub open spec fn spec_digit_char(d: int) -> char {
    if d == 0 {
        '0'
    } else if d == 1 {
        '1'
    } else if d == 2 {
        '2'
    } else if d == 3 {
        '3'
    } else if d == 4 {
        '4'
    } else if d == 5 {
        '5'
    } else if d == 6 {
        '6'
    } else if d == 7 {
        '7'
    } else if d == 8 {
        '8'
    } else {
        '9'
    }
}

/// Decimal rendering of an unsigned number, most significant digit first.
pub open spec fn spec_udec(n: nat) -> Seq<char>
    decreases n,
{
    if n < 10 {
        seq![spec_digit_char(n as int)]
    } else {
        spec_udec(n / 10) + seq![spec_digit_char((n % 10) as int)]
    }
}

/// Decimal rendering of a signed number: a minus sign before the rendering
/// of the magnitude.
pub open spec fn spec_idec(v: int) -> Seq<char> {
    if v >= 0 {
        spec_udec(v as nat)
    } else {
        seq!['-'] + spec_udec((-v) as nat)
    }
}

/// One decimal digit as text.
fn digit_str(d: u64) -> (r: &'static str)
    requires
        d < 10,
    ensures
        r@ == seq![spec_digit_char(d as int)],
{
    proof {
        reveal_strlit("0");
        reveal_strlit("1");
        reveal_strlit("2");
        reveal_strlit("3");
        reveal_strlit("4");
        reveal_strlit("5");
        reveal_strlit("6");
        reveal_strlit("7");
        reveal_strlit("8");
        reveal_strlit("9");
    }
    if d == 0 {
        "0"
    } else if d == 1 {
        "1"
    } else if d == 2 {
        "2"
    } else if d == 3 {
        "3"
    } else if d == 4 {
        "4"
    } else if d == 5 {
        "5"
    } else if d == 6 {
        "6"
    } else if d == 7 {
        "7"
    } else if d == 8 {
        "8"
    } else {
        "9"
    }
}

/// Renders an unsigned number in decimal; see `spec_udec`.
pub fn u64_dec(n: u64) -> (r: String)
    ensures
        r@ == spec_udec(n as nat),
    decreases n,
{
    if n < 10 {
        String::from_str(digit_str(n))
    } else {
        let s = u64_dec(n / 10);
        s.concat(digit_str(n % 10))
    }
}

/// Renders a signed number in decimal; see `spec_idec`.
pub fn i64_dec(v: i64) -> (r: String)
    ensures
        r@ == spec_idec(v as int),
{
    if v >= 0 {
        u64_dec(v as u64)
    } else {
        let mag = (-(v as i128)) as u64;
        let s = String::from_str("-");
        proof {
            reveal_strlit("-");
        }
        s.concat(u64_dec(mag).as_str())
    }
}

/// A register name: `r` and the register number.
pub open spec fn spec_reg_text(r: u8) -> Seq<char> {
    seq!['r'] + spec_udec(r as nat)
}

/// Renders a register name; see `spec_reg_text`.
pub fn reg(r: u8) -> (s: String)
    ensures
        s@ == spec_reg_text(r),
{
    proof {
        reveal_strlit("r");
    }
    let head = String::from_str("r");
    head.concat(u64_dec(r as u64).as_str())
}

/// A memory operand's body: the base register, then the displacement with
/// its sign where it is not zero.
pub open spec fn spec_memory_text(base: Seq<char>, off: i16) -> Seq<char> {
    if off == 0 {
        base
    } else if off > 0 {
        base + seq!['+'] + spec_udec(off as nat)
    } else {
        base + seq!['-'] + spec_udec((-(off as int)) as nat)
    }
}

/// Renders a memory operand's body; see `spec_memory_text`.
pub fn memory(base: &str, off: i16) -> (s: String)
    ensures
        s@ == spec_memory_text(base@, off),
{
    if off == 0 {
        String::from_str(base)
    } else if off > 0 {
        proof {
            reveal_strlit("+");
        }
        let s = String::from_str(base).concat("+");
        s.concat(u64_dec(off as u64).as_str())
    } else {
        proof {
            reveal_strlit("-");
        }
        let mag = (-(off as i32)) as u64;
        let s = String::from_str(base).concat("-");
        s.concat(u64_dec(mag).as_str())
    }
}

} // verus!
