//! Low-level encoding and decoding of the "smol" instruction set.
//!
//! An opcode byte selects an instruction family in its two high bits; the
//! remaining bits vary per family. This module gives names to the fields of
//! that encoding; the decoders of the virtual machine and the emitters of
//! the assembler both agree with these tables.

use vstd::prelude::*;

verus! {

/// An error used when an encoded part is considered invalid.
#[derive(Clone, Copy, Debug, PartialEq, Eq)]
pub enum ParsingError<T> {
    /// The carried encoding does not name any defined entity.
    InvalidEncoding(T),
}

/// An 8-bit register of smol, encodings 0..7.
#[derive(Clone, Copy, Debug, PartialEq, Eq, PartialOrd, Ord)]
pub enum Register8 {
    /// R0 register (8-bit).
    R0,
    /// R1 register (8-bit).
    R1,
    /// R2 register (8-bit).
    R2,
    /// R3 register (8-bit).
    R3,
    /// R4 register (8-bit).
    R4,
    /// R5 register (8-bit).
    R5,
    /// R6 register (8-bit).
    R6,
    /// R7 register (8-bit).
    R7,
}

impl Register8 {
    /// The 4-bit encoding of this register.
    pub open spec fn spec_encode(self) -> u8 {
        match self {
            Register8::R0 => 0,
            Register8::R1 => 1,
            Register8::R2 => 2,
            Register8::R3 => 3,
            Register8::R4 => 4,
            Register8::R5 => 5,
            Register8::R6 => 6,
            Register8::R7 => 7,
        }
    }

    /// The register named by `value`, if `value` is one of the encodings
    /// 0..7; every other byte is an invalid encoding.
    pub open spec fn spec_try_from(value: u8) -> Result<Register8, ParsingError<u8>> {
        match value {
            0 => Ok(Register8::R0),
            1 => Ok(Register8::R1),
            2 => Ok(Register8::R2),
            3 => Ok(Register8::R3),
            4 => Ok(Register8::R4),
            5 => Ok(Register8::R5),
            6 => Ok(Register8::R6),
            7 => Ok(Register8::R7),
            _ => Err(ParsingError::InvalidEncoding(value)),
        }
    }

    /// Encode this register as its 4-bit selector.
    pub fn encode(self) -> (r: u8)
        ensures
            r == self.spec_encode(),
    {
        match self {
            Register8::R0 => 0,
            Register8::R1 => 1,
            Register8::R2 => 2,
            Register8::R3 => 3,
            Register8::R4 => 4,
            Register8::R5 => 5,
            Register8::R6 => 6,
            Register8::R7 => 7,
        }
    }

    /// Decode a 4-bit selector; encoding 8 is the reserved slot and, like
    /// every value above 7, is rejected.
    pub fn try_from(value: u8) -> (r: Result<Register8, ParsingError<u8>>)
        ensures
            r == Register8::spec_try_from(value),
    {
        match value {
            0 => Ok(Register8::R0),
            1 => Ok(Register8::R1),
            2 => Ok(Register8::R2),
            3 => Ok(Register8::R3),
            4 => Ok(Register8::R4),
            5 => Ok(Register8::R5),
            6 => Ok(Register8::R6),
            7 => Ok(Register8::R7),
            _ => Err(ParsingError::InvalidEncoding(value)),
        }
    }
}

/// A 16-bit register of smol, encodings 9..15.
#[derive(Clone, Copy, Debug, PartialEq, Eq, PartialOrd, Ord)]
pub enum Register16 {
    /// L0 register (16-bit).
    L0,
    /// L1 register (16-bit).
    L1,
    /// IC (instruction counter) register (16-bit).
    IC,
    /// FG (flags) register (16-bit).
    FG,
    /// CR (call return) register (16-bit).
    CR,
    /// SP (stack pointer) register (16-bit).
    SP,
    /// ZR (zero) register (16-bit).
    ZR,
}

impl Register16 {
    /// The 4-bit encoding of this register.
    pub open spec fn spec_encode(self) -> u8 {
        match self {
            Register16::L0 => 9,
            Register16::L1 => 10,
            Register16::IC => 11,
            Register16::FG => 12,
            Register16::CR => 13,
            Register16::SP => 14,
            Register16::ZR => 15,
        }
    }

    /// The register named by `value`, if `value` is one of the encodings
    /// 9..15; every other byte is an invalid encoding.
    pub open spec fn spec_try_from(value: u8) -> Result<Register16, ParsingError<u8>> {
        match value {
            9 => Ok(Register16::L0),
            10 => Ok(Register16::L1),
            11 => Ok(Register16::IC),
            12 => Ok(Register16::FG),
            13 => Ok(Register16::CR),
            14 => Ok(Register16::SP),
            15 => Ok(Register16::ZR),
            _ => Err(ParsingError::InvalidEncoding(value)),
        }
    }

    /// Encode this register as its 4-bit selector.
    pub fn encode(self) -> (r: u8)
        ensures
            r == self.spec_encode(),
    {
        match self {
            Register16::L0 => 9,
            Register16::L1 => 10,
            Register16::IC => 11,
            Register16::FG => 12,
            Register16::CR => 13,
            Register16::SP => 14,
            Register16::ZR => 15,
        }
    }

    /// Decode a 4-bit selector into a 16-bit register.
    pub fn try_from(value: u8) -> (r: Result<Register16, ParsingError<u8>>)
        ensures
            r == Register16::spec_try_from(value),
    {
        match value {
            9 => Ok(Register16::L0),
            10 => Ok(Register16::L1),
            11 => Ok(Register16::IC),
            12 => Ok(Register16::FG),
            13 => Ok(Register16::CR),
            14 => Ok(Register16::SP),
            15 => Ok(Register16::ZR),
            _ => Err(ParsingError::InvalidEncoding(value)),
        }
    }
}

/// An instruction, classified by family.
#[derive(Clone, Copy, Debug, PartialEq, Eq)]
pub enum Instruction {
    /// ALU / equality.
    Arithmetic,
    /// Load / store.
    LoadStore,
    /// Stack / interrupt.
    StackInterrupt,
    /// Branch.
    Branch,
}

/// The family of an [`Instruction`], selected by the two high bits of the
/// opcode byte.
#[derive(Clone, Copy, Debug, PartialEq, Eq, PartialOrd, Ord)]
pub enum InstructionFamily {
    /// ALU / equality.
    Arithmetic,
    /// Load / store.
    LoadStore,
    /// Stack / interrupt.
    StackInterrupt,
    /// Branch.
    Branch,
}

impl InstructionFamily {
    /// The 2-bit encoding of this family.
    pub open spec fn spec_encode(self) -> u8 {
        match self {
            InstructionFamily::Arithmetic => 0,
            InstructionFamily::LoadStore => 1,
            InstructionFamily::StackInterrupt => 2,
            InstructionFamily::Branch => 3,
        }
    }

    /// The family named by `value`, if `value` is below 4.
    pub open spec fn spec_try_from(value: u8) -> Result<InstructionFamily, ParsingError<u8>> {
        match value {
            0 => Ok(InstructionFamily::Arithmetic),
            1 => Ok(InstructionFamily::LoadStore),
            2 => Ok(InstructionFamily::StackInterrupt),
            3 => Ok(InstructionFamily::Branch),
            _ => Err(ParsingError::InvalidEncoding(value)),
        }
    }

    /// Encode this family as its 2-bit selector.
    pub fn encode(self) -> (r: u8)
        ensures
            r == self.spec_encode(),
    {
        match self {
            InstructionFamily::Arithmetic => 0,
            InstructionFamily::LoadStore => 1,
            InstructionFamily::StackInterrupt => 2,
            InstructionFamily::Branch => 3,
        }
    }

    /// Decode a 2-bit selector into a family.
    pub fn try_from(value: u8) -> (r: Result<InstructionFamily, ParsingError<u8>>)
        ensures
            r == InstructionFamily::spec_try_from(value),
    {
        match value {
            0 => Ok(InstructionFamily::Arithmetic),
            1 => Ok(InstructionFamily::LoadStore),
            2 => Ok(InstructionFamily::StackInterrupt),
            3 => Ok(InstructionFamily::Branch),
            _ => Err(ParsingError::InvalidEncoding(value)),
        }
    }
}

/// The operation selector of the ALU family, bits 5..3 of the opcode.
#[derive(Clone, Copy, Debug, PartialEq, Eq, PartialOrd, Ord)]
pub enum ArithmeticFamily {
    /// Addition.
    Add,
    /// Subtraction.
    Sub,
    /// Binary AND.
    And,
    /// Binary OR.
    Or,
    /// Binary XOR.
    Xor,
    /// Binary NOT.
    Not,
    /// Equal.
    Eq,
    /// Increment / decrement.
    Increment,
}

impl ArithmeticFamily {
    /// The 3-bit encoding of this operation.
    pub open spec fn spec_encode(self) -> u8 {
        match self {
            ArithmeticFamily::Add => 0,
            ArithmeticFamily::Sub => 1,
            ArithmeticFamily::And => 2,
            ArithmeticFamily::Or => 3,
            ArithmeticFamily::Xor => 4,
            ArithmeticFamily::Not => 5,
            ArithmeticFamily::Eq => 6,
            ArithmeticFamily::Increment => 7,
        }
    }

    /// The operation named by `value`, if `value` is below 8.
    pub open spec fn spec_try_from(value: u8) -> Result<ArithmeticFamily, ParsingError<u8>> {
        match value {
            0 => Ok(ArithmeticFamily::Add),
            1 => Ok(ArithmeticFamily::Sub),
            2 => Ok(ArithmeticFamily::And),
            3 => Ok(ArithmeticFamily::Or),
            4 => Ok(ArithmeticFamily::Xor),
            5 => Ok(ArithmeticFamily::Not),
            6 => Ok(ArithmeticFamily::Eq),
            7 => Ok(ArithmeticFamily::Increment),
            _ => Err(ParsingError::InvalidEncoding(value)),
        }
    }

    /// Encode this operation as its 3-bit selector.
    pub fn encode(self) -> (r: u8)
        ensures
            r == self.spec_encode(),
    {
        match self {
            ArithmeticFamily::Add => 0,
            ArithmeticFamily::Sub => 1,
            ArithmeticFamily::And => 2,
            ArithmeticFamily::Or => 3,
            ArithmeticFamily::Xor => 4,
            ArithmeticFamily::Not => 5,
            ArithmeticFamily::Eq => 6,
            ArithmeticFamily::Increment => 7,
        }
    }

    /// Decode a 3-bit selector into an ALU operation.
    pub fn try_from(value: u8) -> (r: Result<ArithmeticFamily, ParsingError<u8>>)
        ensures
            r == ArithmeticFamily::spec_try_from(value),
    {
        match value {
            0 => Ok(ArithmeticFamily::Add),
            1 => Ok(ArithmeticFamily::Sub),
            2 => Ok(ArithmeticFamily::And),
            3 => Ok(ArithmeticFamily::Or),
            4 => Ok(ArithmeticFamily::Xor),
            5 => Ok(ArithmeticFamily::Not),
            6 => Ok(ArithmeticFamily::Eq),
            7 => Ok(ArithmeticFamily::Increment),
            _ => Err(ParsingError::InvalidEncoding(value)),
        }
    }
}

/// Whether the second operand of an ALU instruction is a register or an
/// immediate, bit 2 of the opcode.
#[derive(Clone, Copy, Debug, PartialEq, Eq, PartialOrd, Ord)]
pub enum ArithmeticOperationSourceType {
    /// The second operand is a register.
    Register,
    /// The second operand is an immediate.
    Immediate,
}

impl ArithmeticOperationSourceType {
    /// The 1-bit encoding of this source type.
    pub open spec fn spec_encode(self) -> u8 {
        match self {
            ArithmeticOperationSourceType::Register => 0,
            ArithmeticOperationSourceType::Immediate => 1,
        }
    }

    /// The source type named by `value`, if `value` is below 2.
    pub open spec fn spec_try_from(value: u8) -> Result<
        ArithmeticOperationSourceType,
        ParsingError<u8>,
    > {
        match value {
            0 => Ok(ArithmeticOperationSourceType::Register),
            1 => Ok(ArithmeticOperationSourceType::Immediate),
            _ => Err(ParsingError::InvalidEncoding(value)),
        }
    }

    /// Encode this source type as its 1-bit selector.
    pub fn encode(self) -> (r: u8)
        ensures
            r == self.spec_encode(),
    {
        match self {
            ArithmeticOperationSourceType::Register => 0,
            ArithmeticOperationSourceType::Immediate => 1,
        }
    }

    /// Decode a 1-bit selector into a source type.
    pub fn try_from(value: u8) -> (r: Result<ArithmeticOperationSourceType, ParsingError<u8>>)
        ensures
            r == ArithmeticOperationSourceType::spec_try_from(value),
    {
        match value {
            0 => Ok(ArithmeticOperationSourceType::Register),
            1 => Ok(ArithmeticOperationSourceType::Immediate),
            _ => Err(ParsingError::InvalidEncoding(value)),
        }
    }
}

/// Two register operands of the 8-bit kind.
pub type ArgumentRegisterEncoding8 = (Register8, Register8);

/// A register operand and an 8-bit immediate.
pub type ArgumentImmediateEncoding8 = (Register8, u8);

/// Two register operands of the 16-bit kind.
pub type ArgumentRegisterEncoding16 = (Register16, Register16);

/// A register operand and a 16-bit immediate.
pub type ArgumentImmediateEncoding16 = (Register16, u16);

/// The full instruction vocabulary of the ISA, with operands.
pub enum InstructionTest {
    /// 8-bit add, register source.
    Add(ArgumentRegisterEncoding8),
    /// 8-bit add, immediate source.
    AddI(ArgumentImmediateEncoding8),
    /// 8-bit subtract, register source.
    Sub(ArgumentRegisterEncoding8),
    /// 8-bit subtract, immediate source.
    SubI(ArgumentImmediateEncoding8),
    /// 8-bit increment.
    Inc(Register8),
    /// 8-bit decrement.
    Dec(Register8),
    /// 8-bit AND, register source.
    And(ArgumentRegisterEncoding8),
    /// 8-bit AND, immediate source.
    AndI(ArgumentImmediateEncoding8),
    /// 8-bit OR, register source.
    Or(ArgumentRegisterEncoding8),
    /// 8-bit OR, immediate source.
    OrI(ArgumentImmediateEncoding8),
    /// 8-bit XOR, register source.
    Xor(ArgumentRegisterEncoding8),
    /// 8-bit XOR, immediate source.
    XorI(ArgumentImmediateEncoding8),
    /// 8-bit NOT.
    Not(Register8),
    /// 8-bit equality, register source.
    EqR(ArgumentRegisterEncoding8),
    /// 8-bit equality, immediate source.
    EqI(ArgumentImmediateEncoding8),
    /// 16-bit add, register source.
    AddL(ArgumentRegisterEncoding16),
    /// 16-bit add, immediate source.
    AddIL(ArgumentImmediateEncoding16),
    /// 16-bit subtract, register source.
    SubL(ArgumentRegisterEncoding16),
    /// 16-bit subtract, immediate source.
    SubIL(ArgumentImmediateEncoding16),
    /// 16-bit increment.
    IncL(Register16),
    /// 16-bit decrement.
    DecL(Register16),
    /// 16-bit AND, register source.
    AndL(ArgumentRegisterEncoding16),
    /// 16-bit AND, immediate source.
    AndIL(ArgumentImmediateEncoding16),
    /// 16-bit OR, register source.
    OrL(ArgumentRegisterEncoding16),
    /// 16-bit OR, immediate source.
    OrIL(ArgumentImmediateEncoding16),
    /// 16-bit XOR, register source.
    XorL(ArgumentRegisterEncoding16),
    /// 16-bit XOR, immediate source.
    XorIL(ArgumentImmediateEncoding16),
    /// 16-bit NOT.
    NotL(Register16),
    /// 16-bit equality, register source.
    EqRL(ArgumentRegisterEncoding16),
    /// 16-bit equality, immediate source.
    EqIL(ArgumentImmediateEncoding16),
    /// No operation.
    Nop,
}

} // verus!
