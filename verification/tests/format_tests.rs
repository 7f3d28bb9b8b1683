use ubpf::disassemble::format_instruction;
use ubpf::instruction::{decode, Instruction, Instructions};
use ubpf::utils::{memory, reg};

#[test]
fn register_and_memory_helpers() {
    assert_eq!(reg(10), "r10".to_string());
    assert_eq!(reg(0), "r0".to_string());
    assert_eq!(memory("r1", 12), "r1+12".to_string());
    assert_eq!(memory("r1", -5), "r1-5".to_string());
    assert_eq!(memory("r1", 0), "r1".to_string());
}

#[test]
fn format_single_instructions() {
    // mov r0, 2 (64-bit class)
    let i = Instruction::new(0xb7, 0, 0, 2);
    assert_eq!(format_instruction(&i).unwrap(), "mov r0, 2".to_string());
    // add32 r1, -1
    let i = Instruction::new(0x04, 1, 0, -1);
    assert_eq!(format_instruction(&i).unwrap(), "add32 r1, -1".to_string());
    // jne r3, 8, 37
    let i = Instruction::new(0x55, 3, 37, 8);
    assert_eq!(format_instruction(&i).unwrap(), "jne r3, 8, 37".to_string());
    // ldxw r2, [r1+12]
    let i = Instruction::new(0x61, 0x12, 12, 0);
    assert_eq!(format_instruction(&i).unwrap(), "ldxw r2, [r1+12]".to_string());
    // stxdw [r10-8], r1
    let i = Instruction::new(0x7b, 0x1a, -8, 0);
    assert_eq!(format_instruction(&i).unwrap(), "stxdw [r10-8], r1".to_string());
    // exit
    let i = Instruction::new(0x95, 0, 0, 0);
    assert_eq!(format_instruction(&i).unwrap(), "exit".to_string());
    // be16 r0
    let i = Instruction::new(0xdc, 0, 0, 16);
    assert_eq!(format_instruction(&i).unwrap(), "be16 r0".to_string());
    // an undefined opcode has no text
    let i = Instruction::new(0x8c, 0, 0, 0);
    assert!(format_instruction(&i).is_none());
}

#[test]
fn format_joins_lines_and_merges_lddw() {
    let src = "mov r0, 2\nlddw r1, 0x10000000c\nexit";
    let ins = Instructions::from_asm(src).unwrap();
    let text = ubpf::disassemble::format(&ins).unwrap();
    assert_eq!(text, "mov r0, 2\nlddw r1, 4294967308\nexit".to_string());
}

#[test]
fn parse_of_format_gives_the_records_back() {
    // textual and packed forms round-trip through the formatter
    let bytes = [
        0xb7, 0x01, 0x00, 0x00, 0x72, 0x6c, 0x64, 0x0a, //
        0x63, 0x1a, 0xf8, 0xff, 0x00, 0x00, 0x00, 0x00, //
        0x18, 0x01, 0x00, 0x00, 0x48, 0x65, 0x6c, 0x6c, //
        0x00, 0x00, 0x00, 0x00, 0x6f, 0x20, 0x57, 0x6f, //
        0x7b, 0x1a, 0xf0, 0xff, 0x00, 0x00, 0x00, 0x00, //
        0xbf, 0xa1, 0x00, 0x00, 0x00, 0x00, 0x00, 0x00, //
        0x07, 0x01, 0x00, 0x00, 0xf0, 0xff, 0xff, 0xff, //
        0x15, 0x00, 0x03, 0x00, 0x00, 0x00, 0x00, 0x00, //
        0x95, 0x00, 0x00, 0x00, 0x00, 0x00, 0x00, 0x00, //
    ];
    let ins = decode(bytes.as_slice()).unwrap();
    let expect = ins.as_slice().to_vec();
    let text = ubpf::disassemble::format(&ins).unwrap();
    let back = Instructions::from_asm(text.as_str()).unwrap();
    assert_eq!(back.into_vec(), expect);
}
