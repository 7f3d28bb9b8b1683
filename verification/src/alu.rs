//! Operation nibbles (bits 4-7 of the opcode byte) that need a name of
//! their own when formatting ALU instructions.
use vstd::prelude::*;

verus! {

pub const NEG: u8 = 8;
pub const END: u8 = 13;

} // verus!
