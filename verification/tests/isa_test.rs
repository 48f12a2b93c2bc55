use smol::isa::{
    ArithmeticFamily, ArithmeticOperationSourceType, InstructionFamily, ParsingError, Register16,
    Register8,
};
use smol::registers::{Registers, Value};

#[test]
fn register8_round_trip() {
    let regs = [
        Register8::R0,
        Register8::R1,
        Register8::R2,
        Register8::R3,
        Register8::R4,
        Register8::R5,
        Register8::R6,
        Register8::R7,
    ];
    for r in regs {
        assert_eq!(Register8::try_from(r.encode()), Ok(r));
    }
}

#[test]
fn register8_rejects_reserved_slot() {
    assert_eq!(Register8::try_from(8), Err(ParsingError::InvalidEncoding(8)));
}

#[test]
fn register16_round_trip() {
    let regs = [
        Register16::L0,
        Register16::L1,
        Register16::IC,
        Register16::FG,
        Register16::CR,
        Register16::SP,
        Register16::ZR,
    ];
    for r in regs {
        assert_eq!(Register16::try_from(r.encode()), Ok(r));
    }
    assert_eq!(Register16::try_from(8), Err(ParsingError::InvalidEncoding(8)));
    assert_eq!(Register16::try_from(16), Err(ParsingError::InvalidEncoding(16)));
}

#[test]
fn instruction_family_encodings() {
    assert_eq!(InstructionFamily::try_from(0), Ok(InstructionFamily::Arithmetic));
    assert_eq!(InstructionFamily::try_from(1), Ok(InstructionFamily::LoadStore));
    assert_eq!(InstructionFamily::try_from(2), Ok(InstructionFamily::StackInterrupt));
    assert_eq!(InstructionFamily::try_from(3), Ok(InstructionFamily::Branch));
    assert_eq!(InstructionFamily::try_from(4), Err(ParsingError::InvalidEncoding(4)));
}

#[test]
fn arithmetic_family_encodings() {
    assert_eq!(ArithmeticFamily::try_from(0), Ok(ArithmeticFamily::Add));
    assert_eq!(ArithmeticFamily::try_from(1), Ok(ArithmeticFamily::Sub));
    assert_eq!(ArithmeticFamily::try_from(2), Ok(ArithmeticFamily::And));
    assert_eq!(ArithmeticFamily::try_from(3), Ok(ArithmeticFamily::Or));
    assert_eq!(ArithmeticFamily::try_from(4), Ok(ArithmeticFamily::Xor));
    assert_eq!(ArithmeticFamily::try_from(5), Ok(ArithmeticFamily::Not));
    assert_eq!(ArithmeticFamily::try_from(6), Ok(ArithmeticFamily::Eq));
    assert_eq!(ArithmeticFamily::try_from(7), Ok(ArithmeticFamily::Increment));
    assert_eq!(ArithmeticFamily::try_from(8), Err(ParsingError::InvalidEncoding(8)));
}

#[test]
fn source_type_encodings() {
    assert_eq!(
        ArithmeticOperationSourceType::try_from(0),
        Ok(ArithmeticOperationSourceType::Register)
    );
    assert_eq!(
        ArithmeticOperationSourceType::try_from(1),
        Ok(ArithmeticOperationSourceType::Immediate)
    );
    assert_eq!(
        ArithmeticOperationSourceType::try_from(2),
        Err(ParsingError::InvalidEncoding(2))
    );
}

#[test]
fn value_widths() {
    assert_eq!(Value::U8(0xAB).as_u16(), 0x00AB);
    assert_eq!(Value::U16(0x1234).as_u8(), 0x34);
    assert_eq!(Value::U8(7).as_u8(), 7);
    assert_eq!(Value::U16(0x1234).as_u16(), 0x1234);
}

#[test]
fn registers_start_zeroed() {
    let regs = Registers::default();
    assert_eq!(regs.ic, 0);
    assert_eq!(regs.sp, 0);
    assert_eq!(regs.r0, 0);
    assert_eq!(regs.l0, 0);
    assert_eq!(regs.zr, 0);
}
