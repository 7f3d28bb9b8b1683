use ubpf::instruction::{Instruction, Instructions};
use ubpf::jit::translator::{translate, JitError};

fn translate_src(src: &str) -> Vec<u8> {
    translate(&Instructions::from_asm(src).unwrap()).unwrap()
}

#[test]
fn prologue_saves_the_frame() {
    let code = translate_src("exit");
    // push rbp; mov rbp <- rsp; sub rsp, 4096; push rbx/r13/r14/r15
    let prologue = [
        0x55, 0x48, 0x89, 0xe5, 0x48, 0x81, 0xec, 0x00, 0x10, 0x00, 0x00, 0x53, 0x41, 0x55,
        0x41, 0x56, 0x41, 0x57,
    ];
    assert_eq!(&code[..prologue.len()], prologue.as_slice());
    // the terminal exit emits nothing: it falls through into the epilogue
    // (pop r15/r14/r13/rbx; leave; ret)
    let epilogue = [0x41, 0x5f, 0x41, 0x5e, 0x41, 0x5d, 0x5b, 0xc9, 0xc3];
    assert_eq!(&code[prologue.len()..prologue.len() + epilogue.len()], epilogue.as_slice());
    // after it, the division-by-zero trampoline; the output ends in a return
    assert_eq!(*code.last().unwrap(), 0xc3);
}

#[test]
fn branch_displacements_are_patched() {
    let code = translate_src("jeq r0, 0, +1\nexit\nexit");
    // body starts after the 18-byte prologue:
    // 18..25  cmp rax, 0
    // 25..31  jz rel32 over the first exit (5 bytes): displacement 5
    assert_eq!(&code[18..25], &[0x48, 0x81, 0xf8, 0x00, 0x00, 0x00, 0x00]);
    assert_eq!(&code[25..27], &[0x0f, 0x84]);
    assert_eq!(&code[27..31], &[5, 0, 0, 0]);
    // 31..36  first exit: jmp to the epilogue at 36: displacement 0
    assert_eq!(code[31], 0xe9);
    assert_eq!(&code[32..36], &[0, 0, 0, 0]);
    // 36..45  the terminal exit emitted nothing: the epilogue follows
    assert_eq!(&code[36..45], &[0x41, 0x5f, 0x41, 0x5e, 0x41, 0x5d, 0x5b, 0xc9, 0xc3]);
}

#[test]
fn division_emits_a_zero_check() {
    let code = translate_src("div r0, r1\nexit");
    // test rdi, rdi then jz to the trampoline
    let mut found = false;
    for w in code.windows(4) {
        if w[0] == 0x48 && w[1] == 0x85 && w[2] == 0xff && w[3] == 0x0f {
            found = true;
        }
    }
    assert!(found);
    // the trampoline loads the all-ones sentinel into rax
    let mut sentinel = false;
    for w in code.windows(7) {
        if w == [0x48, 0xc7, 0xc0, 0xff, 0xff, 0xff, 0xff] {
            sentinel = true;
        }
    }
    assert!(sentinel);
}

#[test]
fn lddw_emits_the_wide_move() {
    let code = translate_src("lddw r0, 0x10000000c\nexit");
    // movabs rax, 0x10000000c
    let expect = [0x48, 0xb8, 0x0c, 0x00, 0x00, 0x00, 0x01, 0x00, 0x00, 0x00];
    assert_eq!(&code[18..28], expect.as_slice());
}

#[test]
fn unsupported_opcodes_are_refused() {
    assert_eq!(
        translate(&Instructions::from_asm("call 6\nexit").unwrap()),
        Err(JitError::Unsupported)
    );
    assert_eq!(
        translate(&Instructions::from_asm("be16 r0\nexit").unwrap()),
        Err(JitError::Unsupported)
    );
    let bad = Instructions::new(vec![Instruction::new(0xb7, 11, 0, 0)]);
    assert_eq!(translate(&bad), Err(JitError::Unsupported));
}

#[test]
fn escaped_jump_is_refused() {
    assert_eq!(
        translate(&Instructions::from_asm("ja +9\nexit").unwrap()),
        Err(JitError::BadJumpTarget)
    );
}
