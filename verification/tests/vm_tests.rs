use ubpf::error::VmError;
use ubpf::instruction::Instructions;
use ubpf::runtime::VirtualMachine;

fn run(src: &str) -> Result<i64, VmError> {
    let ins = Instructions::from_asm(src).unwrap();
    let mut vm = VirtualMachine::new(ins.into_vec());
    vm.exec()
}

#[test]
fn add_immediate() {
    assert_eq!(run("mov r0, 2\nadd r0, 3\nexit"), Ok(5));
}

#[test]
fn cond_jump_taken_on_equal() {
    assert_eq!(run("mov r0, 0\nmov r1, 10\njeq r1, 10, +1\nmov r0, 99\nexit"), Ok(0));
}

#[test]
fn signed_compare_not_taken_on_negative() {
    assert_eq!(run("mov r0, 0\nmov r1, -1\njsgt r1, 0, +1\nmov r0, 7\nexit"), Ok(7));
}

#[test]
fn unsigned_compare_sees_negative_as_large() {
    // the same operands, compared unsigned, do branch
    assert_eq!(run("mov r0, 0\nmov r1, -1\njgt r1, 0, +1\nmov r0, 7\nexit"), Ok(0));
}

#[test]
fn lddw_loads_full_width() {
    assert_eq!(run("lddw r0, 0x10000000c\nexit"), Ok(0x10000000c));
}

#[test]
fn division_by_zero_register_fails() {
    assert_eq!(run("mov r0, 10\nmov r1, 0\ndiv r0, r1\nexit"), Err(VmError::DivZero));
}

#[test]
fn division_by_zero_immediate_fails() {
    assert_eq!(run("mov r0, 10\ndiv r0, 0\nexit"), Err(VmError::DivZero));
}

#[test]
fn modulo_by_zero_fails() {
    assert_eq!(run("mov r0, 10\nmod32 r0, 0\nexit"), Err(VmError::DivZero));
}

#[test]
fn division_is_unsigned() {
    // -4 as an unsigned 64-bit value divided by 2
    assert_eq!(run("mov r0, -4\ndiv r0, 2\nexit"), Ok(0x7ffffffffffffffeu64 as i64));
    // 32-bit division masks both operands first
    assert_eq!(run("mov32 r0, -4\ndiv32 r0, 2\nexit"), Ok(0x7ffffffe));
}

#[test]
fn memory_load_reads_guest_buffer() {
    let ins = Instructions::from_asm("ldxw r0, [r1+2]\nexit").unwrap();
    let mut vm = VirtualMachine::new(ins.into_vec());
    let mem: [u8; 8] = [0xaa, 0xbb, 0x11, 0x22, 0x33, 0x44, 0xcc, 0xdd];
    vm.set_mem(0, mem.len(), mem.as_slice()).unwrap();
    assert_eq!(vm.exec(), Ok(0x44332211));
}

#[test]
fn narrow_loads_sign_extend() {
    let ins = Instructions::from_asm("ldxb r0, [r1]\nexit").unwrap();
    let mut vm = VirtualMachine::new(ins.into_vec());
    vm.set_mem(0, 1, &[0xff]).unwrap();
    assert_eq!(vm.exec(), Ok(-1));
}

#[test]
fn store_then_load_through_stack() {
    // write through the frame pointer, read it back
    assert_eq!(run("mov r1, 77\nstxdw [r10-8], r1\nldxdw r0, [r10-8]\nexit"), Ok(77));
}

#[test]
fn store_immediate_to_memory() {
    assert_eq!(run("stw [r1], 1234\nldxw r0, [r1]\nexit"), Ok(1234));
}

#[test]
fn out_of_bounds_access_fails() {
    assert_eq!(run("mov r1, 0\nldxw r0, [r1]\nexit"), Err(VmError::MemOutOfBound));
}

#[test]
fn pc_escape_aborts() {
    assert_eq!(run("ja +9"), Err(VmError::Unknown));
}

#[test]
fn alu32_masks_to_low_bits() {
    assert_eq!(run("mov32 r0, -1\nadd32 r0, 1\nexit"), Ok(0));
    assert_eq!(run("mov32 r0, -1\nexit"), Ok(0xffffffff));
}

#[test]
fn mul32_wraps() {
    assert_eq!(run("mov32 r0, 0x10000\nmul32 r0, 0x10000\nexit"), Ok(0));
}

#[test]
fn shifts_mask_their_count() {
    assert_eq!(run("mov r0, 1\nmov r1, 65\nlsh r0, r1\nexit"), Ok(2));
    assert_eq!(run("mov32 r0, 1\nmov32 r1, 33\nlsh32 r0, r1\nexit"), Ok(2));
}

#[test]
fn arsh_is_arithmetic() {
    assert_eq!(run("mov r0, -8\narsh r0, 1\nexit"), Ok(-4));
    assert_eq!(run("mov32 r0, -8\narsh32 r0, 1\nexit"), Ok(0xfffffffc));
}

#[test]
fn set_mem_rejects_bad_ranges() {
    let ins = Instructions::from_asm("exit").unwrap();
    let mut vm = VirtualMachine::new(ins.into_vec());
    assert_eq!(vm.set_mem(4090, 16, &[0u8; 16]), Err(VmError::MemOutOfBound));
    assert_eq!(vm.set_mem(0, 8, &[0u8; 4]), Err(VmError::MemOutOfBound));
    // even an empty write past the buffer is refused
    assert_eq!(vm.set_mem(4096, 0, &[]), Err(VmError::MemOutOfBound));
    // the last bytes of the buffer are still writable
    assert_eq!(vm.set_mem(4088, 8, &[1u8; 8]), Ok(()));
    vm.bound_check();
}

#[test]
fn exec_reruns_deterministically() {
    // each run starts from a fresh machine state
    let ins = Instructions::from_asm("mov r1, 77\nstxdw [r10-8], r1\nldxdw r0, [r10-8]\nexit").unwrap();
    let mut vm = VirtualMachine::new(ins.into_vec());
    assert_eq!(vm.exec(), Ok(77));
    assert_eq!(vm.exec(), Ok(77));
}

#[test]
fn call_is_refused() {
    assert_eq!(run("call 6\nexit"), Err(VmError::Unknown));
}

#[test]
fn jset_tests_intersection() {
    assert_eq!(run("mov r0, 0\nmov r1, 6\njset r1, 2, +1\nmov r0, 9\nexit"), Ok(0));
    assert_eq!(run("mov r0, 0\nmov r1, 4\njset r1, 2, +1\nmov r0, 9\nexit"), Ok(9));
}
