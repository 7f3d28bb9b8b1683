use ubpf::error::ParseError;
use ubpf::instruction::{decode, encode, Instruction, Instructions};

#[test]
fn instruction_t1() {
    let ins = [
        0xb7, 0x01, 0x00, 0x00, 0x72, 0x6c, 0x64, 0x0a, // r1 = 174353522
        0x63, 0x1a, 0xf8, 0xff, 0x00, 0x00, 0x00, 0x00, // *(u32 *)(r10 - 8) = r1
        0x18, 0x01, 0x00, 0x00, 0x48, 0x65, 0x6c, 0x6c, //
        0x00, 0x00, 0x00, 0x00, 0x6f, 0x20, 0x57, 0x6f, // r1 = 8022916924116329800 ll
        0x7b, 0x1a, 0xf0, 0xff, 0x00, 0x00, 0x00, 0x00, // *(u64 *)(r10 - 16) = r1
        0xb7, 0x01, 0x00, 0x00, 0x00, 0x00, 0x00, 0x00, // r1 = 0
        0x73, 0x1a, 0xfc, 0xff, 0x00, 0x00, 0x00, 0x00, // *(u8 *)(r10 - 4) = r1
        0xbf, 0xa1, 0x00, 0x00, 0x00, 0x00, 0x00, 0x00, // r1 = r10
        0x07, 0x01, 0x00, 0x00, 0xf0, 0xff, 0xff, 0xff, // r1 += -16
        0xb7, 0x02, 0x00, 0x00, 0x0d, 0x00, 0x00, 0x00, // r2 = 13
        0x85, 0x00, 0x00, 0x00, 0x06, 0x00, 0x00, 0x00, // call 6
        0xb7, 0x00, 0x00, 0x00, 0x00, 0x00, 0x00, 0x00, // r0 = 0
        0x95, 0x00, 0x00, 0x00, 0x00, 0x00, 0x00, 0x00, // exit
    ];
    let instructions = decode(ins.as_slice()).unwrap();
    println!("{:?}", instructions);
    let v = instructions.into_vec();
    // the lddw pair is merged into one record with the full immediate
    assert_eq!(v[2].imm, 8022916924116329800);
}

#[test]
fn instruction_t2() {
    let ins = [
        0xbf, 0xa2, 0x00, 0x00, 0x00, 0x00, 0x00, 0x00, // r2 = r10
        0x07, 0x02, 0x00, 0x00, 0xfc, 0xff, 0xff, 0xff, // r2 += -4
        0x18, 0x01, 0x00, 0x00, 0x00, 0x00, 0x00, 0x00, //
        0x85, 0x00, 0x00, 0x00, 0x01, 0x00, 0x00, 0x00, // lddw r1, #4294967296
        0x15, 0x00, 0x03, 0x00, 0x00, 0x00, 0x00, 0x00, // if r0 == 0 goto +3
        0x79, 0x01, 0x00, 0x00, 0x00, 0x00, 0x00, 0x00, // r1 = *(u64 *)(r0 + 0)
        0x07, 0x01, 0x00, 0x00, 0x01, 0x00, 0x00, 0x00, // r1 += 1
        0x7b, 0x10, 0x00, 0x00, 0x00, 0x00, 0x00, 0x00, // *(u64 *)(r0 + 0) = r1
    ];
    let instructions = decode(ins.as_slice()).unwrap();
    println!("{:?}", instructions);
    let v = instructions.into_vec();
    assert_eq!(v[2].imm, 4294967296);
}

#[test]
fn decode_then_encode_round_trips() {
    let src = "mov r0, 2\nadd r0, 3\nlddw r5, 0x123456789ab\njeq r0, 5, +1\nexit\nexit";
    let ins = Instructions::from_asm(src).unwrap();
    let v0 = ins.as_slice().to_vec();
    let bytes = encode(&ins).unwrap();
    let back = decode(bytes.as_slice()).unwrap();
    assert_eq!(back.into_vec(), v0);
}

#[test]
fn decode_rejects_ragged_input() {
    match decode(&[0xb7, 0x00, 0x00]) {
        Err(ParseError::ParseFailed) => {}
        _ => panic!("expected ParseFailed"),
    }
    // a lddw word in the last slot has no second word to merge
    match decode(&[0x18, 0x00, 0x00, 0x00, 0x01, 0x00, 0x00, 0x00]) {
        Err(ParseError::ParseFailed) => {}
        _ => panic!("expected ParseFailed"),
    }
}

#[test]
fn encode_rejects_wide_immediate() {
    let seq = Instructions::new(vec![Instruction::new(0xb7, 0, 0, 0x1_0000_0000)]);
    match encode(&seq) {
        Err(ParseError::InvalidImmediate(0x1_0000_0000)) => {}
        _ => panic!("expected InvalidImmediate"),
    }
}

#[test]
fn field_accessors_unpack_the_nibbles() {
    let i = Instruction::new(0x6d, 0x53, -2, 7);
    assert_eq!(i.dst_reg(), 3);
    assert_eq!(i.src_reg(), 5);
    assert_eq!(i.class(), 5);
    assert_eq!(i.opcode(), 6);
    assert_eq!(i.source(), 1);
}
