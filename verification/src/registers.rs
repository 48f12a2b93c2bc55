//! The register file of the virtual machine.
//!
//! Fifteen registers are addressable through a 4-bit encoding: eight 8-bit
//! general-purpose registers `R0`..`R7` (encodings 0..7), and seven 16-bit
//! registers `L0`, `L1`, `IC`, `FG`, `CR`, `SP`, `ZR` (encodings 9..15).
//! Encoding 8 is reserved; accessing it is a fault.

use vstd::prelude::*;

verus! {

/// The virtual machine's register file.
///
/// Every register is a plain integer field; the 4-bit encoding of each
/// register is fixed by [`spec_reg_read`] and [`spec_reg_write`].
#[derive(Clone, Copy, Debug, PartialEq, Eq, Structural)]
pub struct Registers {
    /// (16, read-only) instruction counter: byte offset of the next opcode.
    pub ic: u16,
    /// (16, read-only) flags; all flag bits are reserved and stay zero.
    pub fg: u16,
    /// (16) call return register.
    pub cr: u16,
    /// (16) stack pointer.
    pub sp: u16,
    /// (16) zero register.
    pub zr: u16,
    /// 0th 8-bit general-purpose register.
    pub r0: u8,
    /// 1st 8-bit general-purpose register.
    pub r1: u8,
    /// 2nd 8-bit general-purpose register.
    pub r2: u8,
    /// 3rd 8-bit general-purpose register.
    pub r3: u8,
    /// 4th 8-bit general-purpose register.
    pub r4: u8,
    /// 5th 8-bit general-purpose register.
    pub r5: u8,
    /// 6th 8-bit general-purpose register.
    pub r6: u8,
    /// 7th 8-bit general-purpose register.
    pub r7: u8,
    /// 0th 16-bit general-purpose register.
    pub l0: u16,
    /// 1st 16-bit general-purpose register.
    pub l1: u16,
}

impl Default for Registers {
    /// A freshly powered-on register file: every register holds zero.
    fn default() -> (r: Registers)
        ensures
            r == Registers::zeroed(),
    {
        Registers {
            ic: 0,
            fg: 0,
            cr: 0,
            sp: 0,
            zr: 0,
            r0: 0,
            r1: 0,
            r2: 0,
            r3: 0,
            r4: 0,
            r5: 0,
            r6: 0,
            r7: 0,
            l0: 0,
            l1: 0,
        }
    }
}

impl Registers {
    /// The register file with every register equal to zero.
    pub open spec fn zeroed() -> Registers {
        Registers {
            ic: 0,
            fg: 0,
            cr: 0,
            sp: 0,
            zr: 0,
            r0: 0,
            r1: 0,
            r2: 0,
            r3: 0,
            r4: 0,
            r5: 0,
            r6: 0,
            r7: 0,
            l0: 0,
            l1: 0,
        }
    }
}

/// A value travelling between a register and the ALU: either the content of
/// an 8-bit register or the content of a 16-bit register.
#[derive(Clone, Copy, Debug, PartialEq, Eq, Structural)]
pub enum Value {
    /// An 8-bit quantity.
    U8(u8),
    /// A 16-bit quantity.
    U16(u16),
}

impl Value {
    /// The value narrowed to 8 bits: a 16-bit quantity keeps its low byte.
    pub open spec fn spec_as_u8(self) -> u8 {
        match self {
            Value::U8(v) => v,
            Value::U16(v) => v as u8,
        }
    }

    /// The value widened to 16 bits: an 8-bit quantity zero-extends.
    pub open spec fn spec_as_u16(self) -> u16 {
        match self {
            Value::U8(v) => v as u16,
            Value::U16(v) => v,
        }
    }

    /// Narrow to 8 bits, keeping the low byte of a 16-bit quantity.
    pub fn as_u8(self) -> (r: u8)
        ensures
            r == self.spec_as_u8(),
    {
        match self {
            Value::U8(v) => v,
            Value::U16(v) => v as u8,
        }
    }

    /// Widen to 16 bits, zero-extending an 8-bit quantity.
    pub fn as_u16(self) -> (r: u16)
        ensures
            r == self.spec_as_u16(),
    {
        match self {
            Value::U8(v) => v as u16,
            Value::U16(v) => v,
        }
    }
}

/// Whether a 4-bit register encoding names an existing register.
/// Encoding 8 is the reserved slot; anything above 15 never reaches the
/// register file because decoders mask operands to 4 bits.
pub open spec fn spec_reg_valid(code: u8) -> bool {
    code < 16 && code != 8
}

/// The content of the register named by `code`, at its natural width.
pub open spec fn spec_reg_read(regs: Registers, code: u8) -> Value
    recommends
        spec_reg_valid(code),
{
    match code {
        0 => Value::U8(regs.r0),
        1 => Value::U8(regs.r1),
        2 => Value::U8(regs.r2),
        3 => Value::U8(regs.r3),
        4 => Value::U8(regs.r4),
        5 => Value::U8(regs.r5),
        6 => Value::U8(regs.r6),
        7 => Value::U8(regs.r7),
        9 => Value::U16(regs.l0),
        10 => Value::U16(regs.l1),
        11 => Value::U16(regs.ic),
        12 => Value::U16(regs.fg),
        13 => Value::U16(regs.cr),
        14 => Value::U16(regs.sp),
        15 => Value::U16(regs.zr),
        _ => Value::U8(0),
    }
}

/// The register file after storing `v` into the register named by `code`.
/// An 8-bit register keeps the low byte of a wide value; a 16-bit register
/// zero-extends a narrow one.
pub open spec fn spec_reg_write(regs: Registers, code: u8, v: Value) -> Registers
    recommends
        spec_reg_valid(code),
{
    match code {
        0 => Registers { r0: v.spec_as_u8(), ..regs },
        1 => Registers { r1: v.spec_as_u8(), ..regs },
        2 => Registers { r2: v.spec_as_u8(), ..regs },
        3 => Registers { r3: v.spec_as_u8(), ..regs },
        4 => Registers { r4: v.spec_as_u8(), ..regs },
        5 => Registers { r5: v.spec_as_u8(), ..regs },
        6 => Registers { r6: v.spec_as_u8(), ..regs },
        7 => Registers { r7: v.spec_as_u8(), ..regs },
        9 => Registers { l0: v.spec_as_u16(), ..regs },
        10 => Registers { l1: v.spec_as_u16(), ..regs },
        11 => Registers { ic: v.spec_as_u16(), ..regs },
        12 => Registers { fg: v.spec_as_u16(), ..regs },
        13 => Registers { cr: v.spec_as_u16(), ..regs },
        14 => Registers { sp: v.spec_as_u16(), ..regs },
        15 => Registers { zr: v.spec_as_u16(), ..regs },
        _ => regs,
    }
}

/// Width-truncation law: storing a 16-bit value into any of the 8-bit
/// registers `R0`..`R7` leaves the register holding exactly the low byte
/// of that value.
pub proof fn lemma_write_truncates(regs: Registers, code: u8, v: u16)
    requires
        code < 8,
    ensures
        spec_reg_read(spec_reg_write(regs, code, Value::U16(v)), code) == Value::U8(
            (v & 0xFF) as u8,
        ),
{
    assert(v as u8 == (v & 0xFF) as u8) by (bit_vector);
}

} // verus!
