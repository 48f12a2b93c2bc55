use smol::ast::parse_source;
use smol::compiler::compile_ast;
use smol::object_file::SmolFile;
use smol::vm::{RunExit, Vm};

// Add immediate: `ADDI r7, 11` with the destination byte holding only the
// low nibble.
#[test]
fn add_immediate_canonical_bytes() {
    let mut vm = Vm::default();
    vm.registers.r7 = 100;
    vm.instructions.instructions = vec![0x04, 0x07, 0x0B];
    let r = vm.run();

    assert!(matches!(r, RunExit::Halted));
    assert_eq!(vm.registers.r7, 111);
}

// Bitwise NOT of r2 = 123 gives 132.
#[test]
fn bitwise_not_canonical_bytes() {
    let mut vm = Vm::default();
    vm.registers.r2 = 123;
    vm.instructions.instructions = vec![0x28, 0x02];
    let r = vm.run();

    assert!(matches!(r, RunExit::Halted));
    assert_eq!(vm.registers.r2, 132);
}

// Decrement wraps: `DEC r0` with r0 = 0 leaves 255.
#[test]
fn decrement_wraps() {
    let mut vm = Vm::default();
    vm.registers.r0 = 0;
    vm.instructions.instructions = vec![0x3C, 0x00];
    let r = vm.run();

    assert!(matches!(r, RunExit::Halted));
    assert_eq!(vm.registers.r0, 255);
}

// SV then UV restores the stack pointer, and the save slot in the last
// two bytes of memory holds the saved (zero) stack pointer.
#[test]
fn sv_uv_round_trip() {
    let mut vm = Vm::default();
    vm.instructions.instructions = vec![0xAC, 0x00, 0x00, 0xB0];
    let r = vm.run();

    assert!(matches!(r, RunExit::Halted));
    assert_eq!(vm.registers.sp, 0);
    let mem = vm.stack.memory();
    assert_eq!(mem[65534], 0);
    assert_eq!(mem[65533], 0);
}

// SV parks the old stack pointer in the save slot while it is in effect.
#[test]
fn sv_saves_old_sp_in_slot() {
    let mut vm = Vm::default();
    vm.registers.sp = 0x1234;
    vm.instructions.instructions = vec![0xAC, 0x05, 0x00];
    let r = vm.run();

    assert!(matches!(r, RunExit::Halted));
    assert_eq!(vm.registers.sp, 0x8005);
    let mem = vm.stack.memory();
    assert_eq!(mem[65534], 0x34);
    assert_eq!(mem[65533], 0x12);
}

// Hello world, through the whole toolchain: parse, compile, encode,
// decode, load, run. The program writes its variable to fd 1 and exits 0.
#[test]
fn hello_world_pipeline() {
    let source = "---\nhi 6 \"hello\\n\"\n---\naddi r0 1\naddi r1 1\naddi r3 6\nsv hi\nsyscall\nuv\naddi r0 54\naddi r1 255\nsyscall\n";
    let tree = parse_source(source).unwrap();
    let file = compile_ast(tree).unwrap();
    let bytes = file.encode();
    let file = SmolFile::decode(&bytes).unwrap();

    let mut vm = Vm::default();
    vm.load_file(&file).unwrap();
    match vm.run() {
        RunExit::Write { fd, data } => {
            assert_eq!(fd, 1);
            assert_eq!(data, b"hello\n".to_vec());
            vm.registers.r0 = data.len() as u8;
        },
        other => panic!("expected a write, got {:?}", other),
    }
    match vm.run() {
        RunExit::Exit { status } => assert_eq!(status, 0),
        other => panic!("expected an exit, got {:?}", other),
    }
}

// A 16-bit add between the wide registers.
#[test]
fn wide_add_registers() {
    let mut vm = Vm::default();
    vm.registers.l0 = 300;
    vm.registers.l1 = 500;
    // ALU add, register source, 16-bit: l0 += l1.
    vm.instructions.instructions = vec![0x02, 0xA9];
    let r = vm.run();

    assert!(matches!(r, RunExit::Halted));
    assert_eq!(vm.registers.l0, 800);
}

// A 16-bit immediate add consumes four bytes: opcode, register byte and a
// little-endian immediate.
#[test]
fn wide_add_immediate() {
    let mut vm = Vm::default();
    // ALU add, immediate source, 16-bit: l0 += 300.
    vm.instructions.instructions = vec![0x06, 0x09, 0x2C, 0x01];
    let r = vm.run();

    assert!(matches!(r, RunExit::Halted));
    assert_eq!(vm.registers.l0, 300);
}

// Width truncation: a 16-bit add whose destination is an 8-bit register
// keeps only the low byte of the result.
#[test]
fn wide_result_truncates_into_narrow_register() {
    let mut vm = Vm::default();
    vm.registers.r0 = 1;
    vm.registers.l0 = 0x0123;
    // ALU add, register source, 16-bit: r0 = low byte of (r0 + l0).
    vm.instructions.instructions = vec![0x02, 0x90];
    let r = vm.run();

    assert!(matches!(r, RunExit::Halted));
    assert_eq!(vm.registers.r0, 0x24);
}

// The no-op bit retires the instruction without effect.
#[test]
fn nop_bit_retires_without_effect() {
    let mut vm = Vm::default();
    vm.registers.r0 = 7;
    vm.registers.r1 = 9;
    // ALU add, register source, with the reserved/no-op bit set.
    vm.instructions.instructions = vec![0x01, 0x10];
    let r = vm.run();

    assert!(matches!(r, RunExit::Halted));
    assert_eq!(vm.registers.r0, 7);
    assert_eq!(vm.registers.r1, 9);
}

// A write near the end of memory is clamped to the bytes that exist.
#[test]
fn write_clamped_at_end_of_memory() {
    let mut vm = Vm::default();
    vm.registers.r0 = 1;
    vm.registers.r1 = 1;
    vm.registers.r3 = 5;
    // SV with a 16-bit immediate of 0x7FFE points SP at 0xFFFE, one byte
    // short of the end; the write can hand out only that byte.
    vm.instructions.instructions = vec![0xAC, 0xFE, 0x7F, 0xEF];
    match vm.run() {
        RunExit::Write { fd, data } => {
            assert_eq!(fd, 1);
            assert_eq!(data.len(), 1);
        },
        other => panic!("expected a write, got {:?}", other),
    }
}

// Arithmetic wraps modulo the width.
#[test]
fn add_wraps_modulo_256() {
    let mut vm = Vm::default();
    vm.registers.r0 = 200;
    vm.registers.r1 = 100;
    vm.instructions.instructions = vec![0x00, 0x10];
    let r = vm.run();

    assert!(matches!(r, RunExit::Halted));
    assert_eq!(vm.registers.r0, 44);
}

// SV in its register form followed by UV also restores the stack pointer.
#[test]
fn sv_register_form_uv_round_trip() {
    let mut vm = Vm::default();
    vm.registers.sp = 0x0042;
    vm.registers.r6 = 5;
    vm.instructions.instructions = vec![0b10_10_0_0_00, 0x06, 0xB0];
    let r = vm.run();

    assert!(matches!(r, RunExit::Halted));
    assert_eq!(vm.registers.sp, 0x0042);
}
