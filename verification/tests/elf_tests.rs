use ubpf::elf::{locate_function, lookup_function, lookup_section, ElfSection, ElfSymbol, STT_FUNC};
use ubpf::error::ElfError;

fn sample_tables() -> (Vec<ElfSymbol>, Vec<ElfSection>) {
    let syms = vec![
        ElfSymbol { st_type: 0, name: None, st_shndx: 0, st_value: 0, st_size: 0 },
        ElfSymbol {
            st_type: STT_FUNC,
            name: Some("other".to_string()),
            st_shndx: 1,
            st_value: 0,
            st_size: 24,
        },
        ElfSymbol {
            st_type: STT_FUNC,
            name: Some("bpf_prog".to_string()),
            st_shndx: 1,
            st_value: 64,
            st_size: 104,
        },
    ];
    let secs = vec![
        ElfSection { name: Some("".to_string()), sh_offset: 0 },
        ElfSection { name: Some("classifier".to_string()), sh_offset: 4096 },
    ];
    (syms, secs)
}

#[test]
fn finds_the_named_function() {
    let (syms, _) = sample_tables();
    assert_eq!(lookup_function(&syms, "bpf_prog").unwrap(), 2);
    match lookup_function(&syms, "nothing") {
        Err(ElfError::FunctionNotFound(nm)) => assert_eq!(nm, "nothing".to_string()),
        _ => panic!("expected FunctionNotFound"),
    }
}

#[test]
fn finds_the_named_section() {
    let (_, secs) = sample_tables();
    assert_eq!(lookup_section(&secs, "classifier").unwrap(), 1);
    match lookup_section(&secs, ".text") {
        Err(ElfError::SectionNotFound(nm)) => assert_eq!(nm, ".text".to_string()),
        _ => panic!("expected SectionNotFound"),
    }
}

#[test]
fn bad_section_index_is_unknown() {
    let (syms, _) = sample_tables();
    // hand over an empty section table: the found symbol's index is out of range
    match locate_function(&syms, &vec![], "bpf_prog") {
        Err(ElfError::Unknown) => {}
        _ => panic!("expected Unknown"),
    }
}

#[test]
fn locates_the_byte_range() {
    let (syms, secs) = sample_tables();
    let (start, end) = locate_function(&syms, &secs, "bpf_prog").unwrap();
    assert_eq!(start, 4096 + 64);
    assert_eq!(end, start + 104);
}
