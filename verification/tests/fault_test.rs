use smol::object_file::{SmolFile, Storage, StorageItem};
use smol::vm::{LoadError, RunExit, Vm, VmFault};

#[test]
fn empty_program_halts() {
    let mut vm = Vm::default();
    let r = vm.run();
    assert!(matches!(r, RunExit::Halted));
}

#[test]
fn exit_syscall_reports_status() {
    let mut vm = Vm::default();
    vm.registers.r0 = 60;
    vm.registers.r1 = 42;
    vm.instructions.instructions = vec![0xEF];
    match vm.run() {
        RunExit::Exit { status } => assert_eq!(status, 42),
        other => panic!("expected an exit, got {:?}", other),
    }
}

#[test]
fn load_store_family_faults() {
    let mut vm = Vm::default();
    vm.instructions.instructions = vec![0b01_000_000];
    match vm.run() {
        RunExit::Fault { fault } => assert_eq!(fault, VmFault::ReservedInstruction),
        other => panic!("expected a fault, got {:?}", other),
    }
}

#[test]
fn eq_operation_faults() {
    let mut vm = Vm::default();
    vm.instructions.instructions = vec![0b00_110_0_0_0, 0x10];
    match vm.run() {
        RunExit::Fault { fault } => assert_eq!(fault, VmFault::ReservedInstruction),
        other => panic!("expected a fault, got {:?}", other),
    }
}

#[test]
fn reserved_register_encoding_faults() {
    let mut vm = Vm::default();
    // add with destination nibble 8, the reserved slot.
    vm.instructions.instructions = vec![0x00, 0x08];
    match vm.run() {
        RunExit::Fault { fault } => assert_eq!(fault, VmFault::ReservedRegister),
        other => panic!("expected a fault, got {:?}", other),
    }
}

#[test]
fn read_only_destination_faults() {
    let mut vm = Vm::default();
    // add whose destination is IC (encoding 11).
    vm.instructions.instructions = vec![0x00, 0x0B];
    match vm.run() {
        RunExit::Fault { fault } => assert_eq!(fault, VmFault::ReadOnlyRegister),
        other => panic!("expected a fault, got {:?}", other),
    }
}

#[test]
fn truncated_operands_fault() {
    let mut vm = Vm::default();
    // add with no register byte after the opcode.
    vm.instructions.instructions = vec![0x00];
    match vm.run() {
        RunExit::Fault { fault } => assert_eq!(fault, VmFault::IcOutOfBounds),
        other => panic!("expected a fault, got {:?}", other),
    }
}

#[test]
fn unknown_syscall_number_faults() {
    let mut vm = Vm::default();
    vm.registers.r0 = 7;
    vm.instructions.instructions = vec![0xEF];
    match vm.run() {
        RunExit::Fault { fault } => assert_eq!(fault, VmFault::UnknownSyscall),
        other => panic!("expected a fault, got {:?}", other),
    }
}

#[test]
fn branch_variants_other_than_syscall_fault() {
    let mut vm = Vm::default();
    // relative jump, variant 0 of the branch family.
    vm.instructions.instructions = vec![0b11_000_000];
    match vm.run() {
        RunExit::Fault { fault } => assert_eq!(fault, VmFault::ReservedInstruction),
        other => panic!("expected a fault, got {:?}", other),
    }
}

#[test]
fn push_and_pop_fault() {
    let mut vm = Vm::default();
    vm.instructions.instructions = vec![0b10_00_0000];
    match vm.run() {
        RunExit::Fault { fault } => assert_eq!(fault, VmFault::ReservedInstruction),
        other => panic!("expected a fault, got {:?}", other),
    }
}

#[test]
fn load_copies_init_data_into_variable_space() {
    let file = SmolFile {
        storage: Storage {
            total_size: 7,
            items: vec![StorageItem { size: 3, offset: 2, init_data: Some(vec![7, 8, 9]) }],
        },
        instructions: vec![0xB0],
    };
    let mut vm = Vm::default();
    vm.load_file(&file).unwrap();
    assert_eq!(vm.instructions.instructions, vec![0xB0]);
    let mem = vm.stack.memory();
    assert_eq!(mem[0x8000 + 2], 7);
    assert_eq!(mem[0x8000 + 3], 8);
    assert_eq!(mem[0x8000 + 4], 9);
    assert_eq!(mem[0x8000 + 5], 0);
}

#[test]
fn load_rejects_wrong_init_length() {
    let file = SmolFile {
        storage: Storage {
            total_size: 5,
            items: vec![StorageItem { size: 3, offset: 0, init_data: Some(vec![1]) }],
        },
        instructions: vec![0xB0],
    };
    let mut vm = Vm::default();
    let e = vm.load_file(&file).unwrap_err();
    assert_eq!(e, LoadError::SizeMismatch);
}

#[test]
fn load_rejects_item_past_memory() {
    let file = SmolFile {
        storage: Storage {
            total_size: 7,
            items: vec![StorageItem { size: 3, offset: 0x7FFE, init_data: Some(vec![1, 2, 3]) }],
        },
        instructions: vec![0xB0],
    };
    let mut vm = Vm::default();
    let e = vm.load_file(&file).unwrap_err();
    assert_eq!(e, LoadError::ItemOutOfRange);
}

#[test]
fn mut_views_write_through() {
    let mut vm = Vm::default();
    vm.stack.variable_mut()[0] = 0xAA;
    vm.stack.from_sp_mut(0x8001)[0] = 0xBB;
    vm.stack.stack_mut()[5] = 0xCC;
    vm.stack.memory_mut()[6] = 0xDD;
    let mem = vm.stack.memory();
    assert_eq!(mem[0x8000], 0xAA);
    assert_eq!(mem[0x8001], 0xBB);
    assert_eq!(mem[5], 0xCC);
    assert_eq!(mem[6], 0xDD);
}
