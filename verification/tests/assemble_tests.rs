use ubpf::error::ParseError;
use ubpf::instruction::{decode, encode, Instructions};
use ubpf::op;

#[test]
fn asm_t1() {
    let prog = "add64 r1, 0x605
                 mov64 r2, 0x32
                 mov64 r1, r0
                 be16 r0
                 neg64 r2
                 exit";

    println!("{:?}", Instructions::from_asm(prog).unwrap());

    println!("---------------------------");

    let buffer = [
        0x07, 0x01, 0x00, 0x00, 0x05, 0x06, 0x00, 0x00, 0xb7, 0x02, 0x00, 0x00, 0x32, 0x00,
        0x00, 0x00, 0xbf, 0x01, 0x00, 0x00, 0x00, 0x00, 0x00, 0x00, 0xdc, 0x00, 0x00, 0x00,
        0x10, 0x00, 0x00, 0x00, 0x87, 0x02, 0x00, 0x00, 0x00, 0x00, 0x00, 0x00, 0x95, 0x00,
        0x00, 0x00, 0x00, 0x00, 0x00, 0x00,
    ];
    let disassemble_prog = decode(buffer.as_slice()).unwrap();
    println!("{:?}", disassemble_prog);
}

#[test]
fn asm_t2() {
    let prog = "lddw r0, 0x10000000c";
    println!("{:?}", Instructions::from_asm(prog).unwrap());
}

#[test]
fn assemble_matches_packed_form() {
    // the program of asm_t1, assembled, packs to the same bytes
    let prog = "add64 r1, 0x605\nmov64 r2, 0x32\nmov64 r1, r0\nbe16 r0\nneg64 r2\nexit";
    let ins = Instructions::from_asm(prog).unwrap();
    let bytes = encode(&ins).unwrap();
    let expect = [
        0x07, 0x01, 0x00, 0x00, 0x05, 0x06, 0x00, 0x00, 0xb7, 0x02, 0x00, 0x00, 0x32, 0x00,
        0x00, 0x00, 0xbf, 0x01, 0x00, 0x00, 0x00, 0x00, 0x00, 0x00, 0xdc, 0x00, 0x00, 0x00,
        0x10, 0x00, 0x00, 0x00, 0x87, 0x02, 0x00, 0x00, 0x00, 0x00, 0x00, 0x00, 0x95, 0x00,
        0x00, 0x00, 0x00, 0x00, 0x00, 0x00,
    ];
    assert_eq!(bytes, expect.to_vec());
}

#[test]
fn lddw_assembles_to_pair() {
    let ins = Instructions::from_asm("lddw r0, 0x10000000c").unwrap();
    let v = ins.into_vec();
    assert_eq!(v.len(), 2);
    assert_eq!(v[0].op, op::LDDW);
    assert_eq!(v[0].imm, 0x10000000c);
    assert_eq!(v[1].op, 0);
    assert_eq!(v[1].imm, 1);
    // the pair packs into exactly 16 bytes and decodes back
    let seq = Instructions::new(v.clone());
    let bytes = encode(&seq).unwrap();
    assert_eq!(bytes.len(), 16);
    let back = decode(bytes.as_slice()).unwrap().into_vec();
    assert_eq!(back, v);
}

#[test]
fn unknown_mnemonic_is_rejected() {
    match Instructions::from_asm("bogus r0, 1") {
        Err(ParseError::ParseFailed) => {}
        other => panic!("{:?}", other.is_ok()),
    }
}

#[test]
fn out_of_bounds_fields_are_rejected() {
    // register above 15
    match Instructions::from_asm("mov r16, 1") {
        Err(ParseError::InvalidDst(16)) => {}
        _ => panic!("expected InvalidDst"),
    }
    // offset outside 16 bits
    match Instructions::from_asm("jeq r1, 0, 40000") {
        Err(ParseError::InvalidOffset(40000)) => {}
        _ => panic!("expected InvalidOffset"),
    }
    // immediate outside 32 bits
    match Instructions::from_asm("mov r1, 0x100000000") {
        Err(ParseError::InvalidImmediate(0x100000000)) => {}
        _ => panic!("expected InvalidImmediate"),
    }
}

#[test]
fn consts_t1() {
    let a = op::SUB_REG;
    let b = op::LDDW;
    println!("{},{}", a, b);
}

#[test]
fn ebpf_t1() {
    let a = op::SUB_REG;
    let b = op::LDDW;
    println!("{},{}", a, b);
    assert_eq!(a, 0x1c);
    assert_eq!(b, 0x18);
}
