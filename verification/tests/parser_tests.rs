use ubpf::asm_parser::{instruction, instructions, integer, operand, register, Instruction, Operand};

#[test]
fn test_instructions() {
    let s = "exit";
    let (j, ins) = instruction(s, 0).unwrap();
    assert_eq!(j, s.len());
    assert_eq!(ins, Instruction::new("exit".to_string(), None));

    let s = "call 2";
    let (j, ins) = instruction(s, 0).unwrap();
    assert_eq!(j, s.len());
    assert_eq!(
        ins,
        Instruction::new("call".to_string(), Some(vec![Operand::Integer(2)]))
    );

    let s = "addi r1, 2";
    let (j, ins) = instruction(s, 0).unwrap();
    assert_eq!(j, s.len());
    assert_eq!(
        ins,
        Instruction::new(
            "addi".to_string(),
            Some(vec![Operand::Register(1), Operand::Integer(2)])
        )
    );

    let s = "ldxb r2, [r1+2]";
    let (j, ins) = instruction(s, 0).unwrap();
    assert_eq!(j, s.len());
    assert_eq!(
        ins,
        Instruction::new(
            "ldxb".to_string(),
            Some(vec![Operand::Register(2), Operand::Memory(1, 2)])
        )
    );

    let s = "lsh r3, 0x8";
    let (j, ins) = instruction(s, 0).unwrap();
    assert_eq!(j, s.len());
    assert_eq!(
        ins,
        Instruction::new(
            "lsh".to_string(),
            Some(vec![Operand::Register(3), Operand::Integer(8)])
        )
    );

    let s = "jne r3, 0x8, +37";
    let (j, ins) = instruction(s, 0).unwrap();
    assert_eq!(j, s.len());
    assert_eq!(
        ins,
        Instruction::new(
            "jne".to_string(),
            Some(vec![
                Operand::Register(3),
                Operand::Integer(8),
                Operand::Integer(37)
            ])
        )
    );

    // Whitespace between operands is optional.
    let s = "jne r3,0x8,+37";
    let (j, ins) = instruction(s, 0).unwrap();
    assert_eq!(j, s.len());
    assert_eq!(
        ins,
        Instruction::new(
            "jne".to_string(),
            Some(vec![
                Operand::Register(3),
                Operand::Integer(8),
                Operand::Integer(37)
            ])
        )
    );
}

#[test]
fn test_ident_stops_at_space() {
    let s = "mov a,1";
    let (j, name) = ubpf::asm_parser::ident(s, 0).unwrap();
    assert_eq!(j, 3);
    assert_eq!(name, "mov".to_string());
}

#[test]
fn test_digit() {
    let (j, v) = integer("0x1abcLLL", 0).unwrap();
    assert_eq!(v, 0x1abc);
    assert_eq!(j, 6);
    let (j, v) = integer("123", 0).unwrap();
    assert_eq!(v, 123);
    assert_eq!(j, 3);
}

#[test]
fn test_register() {
    let (j, v) = register("r10", 0).unwrap();
    assert_eq!(v, 10);
    assert_eq!(j, 3);
}

#[test]
fn test_operand() {
    let (_, v) = operand("r10", 0).unwrap();
    assert_eq!(v, Operand::Register(10));
    let (_, v) = operand("123", 0).unwrap();
    assert_eq!(v, Operand::Integer(123));
    let (_, v) = operand("[r10]", 0).unwrap();
    assert_eq!(v, Operand::Memory(10, 0));
    let (_, v) = operand("[r10+5]", 0).unwrap();
    assert_eq!(v, Operand::Memory(10, 5));
    let (_, v) = operand("[r10-5]", 0).unwrap();
    assert_eq!(v, Operand::Memory(10, -5));
}

#[test]
fn test_empty_program() {
    let (j, v) = instructions("");
    assert_eq!(j, 0);
    assert!(v.is_empty());
}

#[test]
fn test_negative_integer() {
    let (j, v) = integer("-18", 0).unwrap();
    assert_eq!(j, 3);
    assert_eq!(v, -18);
}

#[test]
fn test_two_lines() {
    let (j, v) = instructions("mov r0, 2\nexit");
    assert_eq!(j, 14);
    assert_eq!(v.len(), 2);
    assert_eq!(
        v[0],
        Instruction::new(
            "mov".to_string(),
            Some(vec![Operand::Register(0), Operand::Integer(2)])
        )
    );
    assert_eq!(v[1], Instruction::new("exit".to_string(), None));
}
