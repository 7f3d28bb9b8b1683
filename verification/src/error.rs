//! Error taxonomy of the library: assembling/encoding errors, errors of the
//! object-file lookups, and run-time errors of the virtual machine.
use vstd::prelude::*;

verus! {

/// Error of the object-file lookups: a named section or function that the
/// tables do not hold.
#[derive(Debug, Clone)]
pub enum ElfError {
    PlatFormNotSupport,
    MakeExec,
    NoTextSection,
    SectionNotFound(String),
    FunctionNotFound(String),
    Unknown,
}

/// Error of assembling or encoding: a grammar violation, or an instruction
/// field outside its bounds.
#[derive(Debug, Clone, Copy, PartialEq, Eq, Structural)]
pub enum ParseError {
    ParseFailed,
    InvalidDst(i64),
    InvalidSrc(i64),
    InvalidOffset(i64),
    InvalidImmediate(i64),
}

/// Run-time error of the virtual machine.
#[derive(Debug, Clone, Copy, PartialEq, Eq, Structural)]
pub enum VmError {
    DivZero,
    MemOutOfBound,
    Unknown,
}

} // verus!
