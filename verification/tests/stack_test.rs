use smol::vm::Vm;

// `SV` points the stack pointer at the variable space: 0x8000 plus its
// operand.

#[test]
pub fn it_loads_immediate_variable_address() {
    let mut vm = Vm::default();
    vm.instructions.instructions = vec![
        // Stack load variable immediate 8bit
        0b10_10_1_0_00,
        // Value of 10
        10,
    ];
    let _ = vm.run();

    assert_eq!(vm.registers.sp, 0x8000 + 10);
}

#[test]
pub fn it_loads_immediate_variable_address_16bit() {
    let mut vm = Vm::default();
    vm.instructions.instructions = vec![
        // Stack load variable immediate 16 bit
        0b10_10_1_1_00,
        // Value of 256 in 16 bit little endian
        0b00000000,
        0b00000001,
    ];
    let _ = vm.run();

    assert_eq!(vm.registers.sp, 0x8000 + 256);
}

#[test]
pub fn it_loads_register_variable_address() {
    let mut vm = Vm::default();
    vm.registers.r6 = 5;
    vm.instructions.instructions = vec![
        // Stack load variable regsiter
        0b10_10_0_0_00,
        // Register r6
        0b0000_0110,
    ];
    let _ = vm.run();

    assert_eq!(vm.registers.sp, 0x8000 + 5);
}

#[test]
pub fn it_loads_16b_register_variable_address() {
    let mut vm = Vm::default();
    vm.registers.l1 = 700;
    vm.instructions.instructions = vec![
        // Stack load variable register 16 bit
        0b10_10_0_1_00,
        // Register l1
        0b0000_1010,
    ];
    let _ = vm.run();
    assert_eq!(vm.registers.sp, 0x8000 + 700);
}
