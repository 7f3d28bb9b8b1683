//! Locating a named function in an object file: a walk over the symbol
//! table for function symbols, a section lookup by name, and the byte
//! range `[section_offset + symbol_value, + symbol_size)`. The caller
//! parses the object file and hands these tables over as plain values.
use vstd::prelude::*;

use crate::error::ElfError;

verus! {

/// Symbol type tag of a function symbol.
pub const STT_FUNC: u8 = 2;

/// What the lookups read of one symbol-table entry.
#[derive(Debug, Clone)]
pub struct ElfSymbol {
    /// Symbol type tag.
    pub st_type: u8,
    /// Symbol name, where the string table has one.
    pub name: Option<String>,
    /// Index of the symbol's section.
    pub st_shndx: usize,
    /// Offset of the symbol inside its section.
    pub st_value: u64,
    /// Size of the symbol in bytes.
    pub st_size: u64,
}

/// What the lookups read of one section header.
#[derive(Debug, Clone)]
pub struct ElfSection {
    /// Section name, where the string table has one.
    pub name: Option<String>,
    /// File offset of the section's bytes.
    pub sh_offset: u64,
}

/// Whether a symbol is the function named `target`.
pub open spec fn spec_sym_is(sym: ElfSymbol, target: Seq<char>) -> bool {
    sym.st_type == STT_FUNC && match sym.name {
        Some(nm) => nm@ == target,
        None => false,
    }
}

/// Index of the first function symbol named `target` at or after `i`.
pub open spec fn spec_find_func(syms: Seq<ElfSymbol>, target: Seq<char>, i: int) -> Option<int>
    decreases syms.len() - i,
{
    if !(0 <= i < syms.len()) {
        None
    } else if spec_sym_is(syms[i], target) {
        Some(i)
    } else {
        spec_find_func(syms, target, i + 1)
    }
}

/// Whether a section is named `target`.
pub open spec fn spec_sec_is(sec: ElfSection, target: Seq<char>) -> bool {
    match sec.name {
        Some(nm) => nm@ == target,
        None => false,
    }
}

/// Index of the first section named `target` at or after `i`.
pub open spec fn spec_find_sec(secs: Seq<ElfSection>, target: Seq<char>, i: int) -> Option<int>
    decreases secs.len() - i,
{
    if !(0 <= i < secs.len()) {
        None
    } else if spec_sec_is(secs[i], target) {
        Some(i)
    } else {
        spec_find_sec(secs, target, i + 1)
    }
}

/// Whether two strings hold the same characters.
fn name_eq(a: &str, b: &str) -> (r: bool)
    ensures
        r == (a@ == b@),
{
    let na = a.unicode_len();
    let nb = b.unicode_len();
    if na != nb {
        proof {
            assert(a@ != b@);
        }
        return false;
    }
    let mut i: usize = 0;
    while i < na
        invariant
            i <= na,
            na == a@.len() == b@.len(),
            forall|k: int| 0 <= k < i ==> a@[k] == b@[k],
        decreases na - i,
    {
        if a.get_char(i) != b.get_char(i) {
            return false;
        }
        i = i + 1;
    }
    proof {
        assert(a@ =~= b@);
    }
    true
}

/// Finds the first function symbol with the given name, walking the symbol
/// table in order; fails with `FunctionNotFound` carrying the name.
pub fn lookup_function(syms: &Vec<ElfSymbol>, target_name: &str) -> (r: Result<usize, ElfError>)
    ensures
        match r {
            Ok(i) => i < syms@.len() && spec_find_func(syms@, target_name@, 0) == Some(
                i as int,
            ) && spec_sym_is(syms@[i as int], target_name@),
            Err(e) => spec_find_func(syms@, target_name@, 0) is None && (e matches
                ElfError::FunctionNotFound(nm) && nm@ == target_name@),
        },
{
    let n = syms.len();
    let mut i: usize = 0;
    while i < n
        invariant
            i <= n,
            n == syms@.len(),
            spec_find_func(syms@, target_name@, 0) == spec_find_func(syms@, target_name@, i as int),
        decreases n - i,
    {
        let sym = &syms[i];
        if sym.st_type == STT_FUNC {
            let hit = match &sym.name {
                Some(nm) => name_eq(nm.as_str(), target_name),
                None => false,
            };
            if hit {
                return Ok(i);
            }
        }
        i = i + 1;
    }
    Err(ElfError::FunctionNotFound(String::from_str(target_name)))
}

/// Finds the first section with the given name, walking the section
/// headers in order; fails with `SectionNotFound` carrying the name.
pub fn lookup_section(secs: &Vec<ElfSection>, target_name: &str) -> (r: Result<usize, ElfError>)
    ensures
        match r {
            Ok(i) => spec_find_sec(secs@, target_name@, 0) == Some(i as int),
            Err(e) => spec_find_sec(secs@, target_name@, 0) is None && (e matches
                ElfError::SectionNotFound(nm) && nm@ == target_name@),
        },
{
    let n = secs.len();
    let mut i: usize = 0;
    while i < n
        invariant
            i <= n,
            n == secs@.len(),
            spec_find_sec(secs@, target_name@, 0) == spec_find_sec(secs@, target_name@, i as int),
        decreases n - i,
    {
        let sec = &secs[i];
        let hit = match &sec.name {
            Some(nm) => name_eq(nm.as_str(), target_name),
            None => false,
        };
        if hit {
            return Ok(i);
        }
        i = i + 1;
    }
    Err(ElfError::SectionNotFound(String::from_str(target_name)))
}

/// The byte range of the named function: its section's file offset plus
/// the symbol's value, for the symbol's size. Succeeds exactly when a
/// function symbol matches, its section index is within the section table
/// and the offset arithmetic stays within 64 bits; fails with
/// `FunctionNotFound` carrying the name where no function symbol matches,
/// and with `Unknown` where the matching symbol's section index or
/// arithmetic is out of range.
pub fn locate_function(syms: &Vec<ElfSymbol>, secs: &Vec<ElfSection>, target_name: &str) -> (r:
    Result<(u64, u64), ElfError>)
    ensures
        match r {
            Ok((start, end)) => ({
                let f = spec_find_func(syms@, target_name@, 0);
                &&& f is Some
                &&& ({
                    let sym = syms@[f->0];
                    &&& sym.st_shndx < secs@.len()
                    &&& start == secs@[sym.st_shndx as int].sh_offset + sym.st_value
                    &&& end == start + sym.st_size
                })
            }),
            Err(e) => match e {
                ElfError::FunctionNotFound(nm) => spec_find_func(syms@, target_name@, 0) is None
                    && nm@ == target_name@,
                ElfError::Unknown => ({
                    let f = spec_find_func(syms@, target_name@, 0);
                    &&& f is Some
                    &&& ({
                        let sym = syms@[f->0];
                        ||| sym.st_shndx >= secs@.len()
                        ||| secs@[sym.st_shndx as int].sh_offset + sym.st_value > u64::MAX
                        ||| secs@[sym.st_shndx as int].sh_offset + sym.st_value + sym.st_size
                            > u64::MAX
                    })
                }),
                _ => false,
            },
        },
{
    let idx = match lookup_function(syms, target_name) {
        Ok(i) => i,
        Err(e) => {
            return Err(e);
        },
    };
    let sym = &syms[idx];
    if sym.st_shndx >= secs.len() {
        return Err(ElfError::Unknown);
    }
    let hdr = &secs[sym.st_shndx];
    let start = match hdr.sh_offset.checked_add(sym.st_value) {
        Some(v) => v,
        None => {
            return Err(ElfError::Unknown);
        },
    };
    let end = match start.checked_add(sym.st_size) {
        Some(v) => v,
        None => {
            return Err(ElfError::Unknown);
        },
    };
    Ok((start, end))
}

} // verus!
