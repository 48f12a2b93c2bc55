//! The virtual machine: fetch, decode and execute of the bit-packed
//! instruction stream.
//!
//! The meaning of every instruction is given by the specification functions
//! in this module, culminating in [`spec_step`] (one instruction) and
//! [`spec_run`] (a whole execution). The executable decoder is verified to
//! agree with them exactly.
//!
//! An opcode byte selects a family in its two high bits: 0 is ALU, 1 is
//! load/store (reserved), 2 is stack/interrupt, 3 is branch. Of the branch
//! family only the syscall entry is implemented; every other variant, and
//! every reserved encoding, is a fault. The instruction counter `IC` and the
//! flags register `FG` are read-only to programs: an ALU instruction whose
//! destination names them faults, so execution only ever moves forward
//! through the instruction stream.

use crate::object_file::{spec_le16, ItemModel, SmolFile};
use crate::registers::{
    spec_reg_read, spec_reg_valid, spec_reg_write, Registers, Value,
};
use crate::stack::{spec_save_sp, spec_saved_sp, Stack, MEM_SIZE, VAR_BASE};
use crate::syscall::{spec_vm_syscall, vm_syscall, SyscallAction, SyscallActionModel};
use vstd::prelude::*;
use vstd::slice::slice_to_vec;

verus! {

/// Why an object file cannot be loaded into the machine.
#[derive(Clone, Copy, Debug, PartialEq, Eq, Structural)]
pub enum LoadError {
    /// An item's init data is not exactly its declared size.
    SizeMismatch,
    /// An item's reserved space, placed at `0x8000` plus its offset, does
    /// not fit inside memory.
    ItemOutOfRange,
}

/// A condition that aborts execution.
#[derive(Clone, Copy, Debug, PartialEq, Eq, Structural)]
pub enum VmFault {
    /// The instruction counter points past the end of the instruction
    /// stream, an instruction's operand bytes extend past it, or advancing
    /// the counter would not fit its 16 bits.
    IcOutOfBounds,
    /// A register operand uses the reserved encoding 8.
    ReservedRegister,
    /// The opcode names a family, operation or variant that this machine
    /// does not implement.
    ReservedInstruction,
    /// An instruction names the read-only register `IC` or `FG` as its
    /// destination.
    ReadOnlyRegister,
    /// A syscall with an unknown call number.
    UnknownSyscall,
}

/// The abstract state of the machine: the register file, all memory bytes,
/// and the instruction stream.
pub struct VmModel {
    /// The register file.
    pub regs: Registers,
    /// All [`MEM_SIZE`] memory bytes.
    pub mem: Seq<u8>,
    /// The instruction stream.
    pub instrs: Seq<u8>,
}

/// The outcome of executing one instruction, at the model level.
pub enum StepModel {
    /// The instruction retired; execution continues in the new state.
    Next(VmModel),
    /// A `write` syscall trapped: the host must write `data` to `fd`. The
    /// carried state has the instruction counter already advanced past the
    /// syscall; `R0` still awaits the host's answer.
    Write { s: VmModel, fd: u8, data: Seq<u8> },
    /// An `exit` syscall trapped: the program ends with `status`.
    Exit { status: u8 },
    /// Execution aborts.
    Fault { fault: VmFault },
}

/// How a whole execution ends, at the model level.
pub enum RunEndModel {
    /// The instruction counter reached the exact end of the stream.
    Halted,
    /// Execution paused for the host to write `data` to `fd`.
    Write { fd: u8, data: Seq<u8> },
    /// The program asked to end with `status`.
    Exit { status: u8 },
    /// Execution aborted.
    Fault { fault: VmFault },
}

// ---------------------------------------------------------------------------
// Opcode fields
// ---------------------------------------------------------------------------
/// The family selector, bits 7..6 of an opcode byte.
pub open spec fn spec_family(op: u8) -> u8 {
    (op >> 6) & 3
}

/// The ALU operation selector, bits 5..3 of an ALU opcode.
pub open spec fn spec_alu_op(op: u8) -> u8 {
    (op >> 3) & 7
}

/// Bit 2 of an ALU opcode: immediate source, or for operation 7 the
/// decrement sub-function.
pub open spec fn spec_alu_bit2(op: u8) -> bool {
    op & 4 == 4
}

/// Bit 1 of an ALU opcode: the instruction operates on 16-bit quantities.
pub open spec fn spec_alu_wide(op: u8) -> bool {
    op & 2 == 2
}

/// Bit 0 of an ALU opcode: reserved/no-op; the instruction retires without
/// effect.
pub open spec fn spec_alu_nop(op: u8) -> bool {
    op & 1 == 1
}

/// Whether an ALU opcode takes an immediate operand: bit 2 set, except for
/// operation 7, where bit 2 selects decrement instead.
pub open spec fn spec_alu_imm(op: u8) -> bool {
    spec_alu_bit2(op) && spec_alu_op(op) != 7
}

/// The byte length of an ALU instruction: opcode and register byte, plus
/// one immediate byte, or two for the 16-bit immediate form.
pub open spec fn spec_alu_len(op: u8) -> u16 {
    if !spec_alu_imm(op) {
        2
    } else if spec_alu_wide(op) {
        4
    } else {
        3
    }
}

// ---------------------------------------------------------------------------
// The ALU
// ---------------------------------------------------------------------------
/// The result of an ALU operation. The width of the computation comes from
/// bit 1 of the opcode: both operands are brought to that width (narrow
/// values zero-extend, wide values keep their low byte) and arithmetic
/// wraps modulo the width. Operation 7 adds or subtracts one, selected by
/// bit 2.
pub open spec fn spec_alu_compute(op: u8, a: Value, b: Value) -> Value
    recommends
        spec_alu_op(op) != 6,
{
    let o = spec_alu_op(op);
    if spec_alu_wide(op) {
        let x = a.spec_as_u16();
        let y = b.spec_as_u16();
        Value::U16(
            if o == 0 {
                x.wrapping_add(y)
            } else if o == 1 {
                x.wrapping_sub(y)
            } else if o == 2 {
                x & y
            } else if o == 3 {
                x | y
            } else if o == 4 {
                x ^ y
            } else if o == 5 {
                !x
            } else if spec_alu_bit2(op) {
                x.wrapping_sub(1)
            } else {
                x.wrapping_add(1)
            },
        )
    } else {
        let x = a.spec_as_u8();
        let y = b.spec_as_u8();
        Value::U8(
            if o == 0 {
                x.wrapping_add(y)
            } else if o == 1 {
                x.wrapping_sub(y)
            } else if o == 2 {
                x & y
            } else if o == 3 {
                x | y
            } else if o == 4 {
                x ^ y
            } else if o == 5 {
                !x
            } else if spec_alu_bit2(op) {
                x.wrapping_sub(1)
            } else {
                x.wrapping_add(1)
            },
        )
    }
}

/// Decoding and effect of one ALU instruction: the register file after the
/// write-back, and the number of bytes consumed. The instruction counter is
/// not yet advanced. Faults, in the order they are discovered: operand bytes
/// past the end of the stream or a consumed length that would overflow the
/// counter; a reserved register operand; the unimplemented `Eq` operation;
/// a read-only destination.
pub open spec fn spec_alu_result(s: VmModel) -> Result<(Registers, u16), VmFault>
    recommends
        s.regs.ic < s.instrs.len(),
{
    let ic = s.regs.ic as int;
    let op = s.instrs[ic];
    let len = spec_alu_len(op);
    if ic + len > s.instrs.len() {
        Err(VmFault::IcOutOfBounds)
    } else if ic + len > 0xFFFF {
        Err(VmFault::IcOutOfBounds)
    } else if spec_alu_nop(op) {
        Ok((s.regs, len))
    } else {
        let regbyte = s.instrs[ic + 1];
        let dst = regbyte & 0xF;
        let src = (regbyte >> 4) & 0xF;
        let o = spec_alu_op(op);
        let unary = o == 5 || o == 7;
        if !spec_reg_valid(dst) {
            Err(VmFault::ReservedRegister)
        } else if !spec_alu_imm(op) && !unary && !spec_reg_valid(src) {
            Err(VmFault::ReservedRegister)
        } else if o == 6 {
            Err(VmFault::ReservedInstruction)
        } else if dst == 11 || dst == 12 {
            Err(VmFault::ReadOnlyRegister)
        } else {
            let a = spec_reg_read(s.regs, dst);
            let b = if spec_alu_imm(op) {
                if spec_alu_wide(op) {
                    Value::U16(spec_le16(s.instrs[ic + 2], s.instrs[ic + 3]))
                } else {
                    Value::U8(s.instrs[ic + 2])
                }
            } else if unary {
                Value::U8(1)
            } else {
                spec_reg_read(s.regs, src)
            };
            Ok((spec_reg_write(s.regs, dst, spec_alu_compute(op, a, b)), len))
        }
    }
}

// ---------------------------------------------------------------------------
// The stack/interrupt family
// ---------------------------------------------------------------------------
/// Decoding and effect of one stack-family instruction: the register file,
/// the memory, and the number of bytes consumed. Sub-family (bits 5..4):
/// 0 push and 1 pop are reserved; 2 is `SV`, 3 is `UV`.
///
/// `SV` saves the current stack pointer into the slot in the last two bytes
/// of memory, then points `SP` at `0x8000` plus its operand: a register
/// value (forms 0 and 1), an 8-bit immediate (form 2) or a 16-bit immediate
/// (form 3), selected by bits 3..2. `UV` restores `SP` from the slot. The
/// slot is one deep: a second `SV` before a `UV` overwrites the saved value.
pub open spec fn spec_stack_result(s: VmModel) -> Result<(Registers, Seq<u8>, u16), VmFault>
    recommends
        s.regs.ic < s.instrs.len(),
        s.mem.len() == MEM_SIZE,
{
    let ic = s.regs.ic as int;
    let op = s.instrs[ic];
    let sub = (op >> 4) & 3;
    if sub == 0 || sub == 1 {
        Err(VmFault::ReservedInstruction)
    } else if sub == 2 {
        let form = (op >> 2) & 3;
        let len: u16 = if form == 3 {
            3
        } else {
            2
        };
        if ic + len > s.instrs.len() {
            Err(VmFault::IcOutOfBounds)
        } else if ic + len > 0xFFFF {
            Err(VmFault::IcOutOfBounds)
        } else if form == 2 {
            Ok(spec_sv_effect(s, s.instrs[ic + 1] as u16, len))
        } else if form == 3 {
            Ok(spec_sv_effect(s, spec_le16(s.instrs[ic + 1], s.instrs[ic + 2]), len))
        } else {
            let code = s.instrs[ic + 1] & 0xF;
            if !spec_reg_valid(code) {
                Err(VmFault::ReservedRegister)
            } else {
                Ok(spec_sv_effect(s, spec_reg_read(s.regs, code).spec_as_u16(), len))
            }
        }
    } else {
        if ic + 1 > 0xFFFF {
            Err(VmFault::IcOutOfBounds)
        } else {
            Ok((Registers { sp: spec_saved_sp(s.mem), ..s.regs }, s.mem, 1))
        }
    }
}

/// The effect of `SV` once its operand is known: the old stack pointer goes
/// into the save slot, and `SP` becomes `0x8000 + operand`, wrapped to 16
/// bits.
pub open spec fn spec_sv_effect(s: VmModel, operand: u16, len: u16) -> (Registers, Seq<u8>, u16) {
    (
        Registers { sp: (VAR_BASE as u16).wrapping_add(operand), ..s.regs },
        spec_save_sp(s.mem, s.regs.sp),
        len,
    )
}

// ---------------------------------------------------------------------------
// The branch family
// ---------------------------------------------------------------------------
/// Decoding of one branch-family instruction. Only variant 5 (call) with
/// bits 2..0 all set — the syscall entry, opcode `0b11101111` — is
/// implemented; it consumes one byte and asks [`spec_vm_syscall`] what the
/// host must do. Every other variant is a fault.
pub open spec fn spec_branch_result(s: VmModel) -> Result<SyscallActionModel, VmFault>
    recommends
        s.regs.ic < s.instrs.len(),
        s.mem.len() == MEM_SIZE,
{
    let op = s.instrs[s.regs.ic as int];
    let variant = (op >> 3) & 7;
    if variant == 5 && op & 7 == 7 {
        spec_vm_syscall(s.regs, s.mem)
    } else {
        Err(VmFault::ReservedInstruction)
    }
}

// ---------------------------------------------------------------------------
// One step, and a whole run
// ---------------------------------------------------------------------------
/// The outcome of the single instruction at the current instruction
/// counter, which must lie inside the stream.
pub open spec fn spec_step(s: VmModel) -> StepModel
    recommends
        s.regs.ic < s.instrs.len(),
        s.mem.len() == MEM_SIZE,
{
    let op = s.instrs[s.regs.ic as int];
    let fam = spec_family(op);
    if fam == 0 {
        match spec_alu_result(s) {
            Ok((regs, used)) => StepModel::Next(
                VmModel { regs: Registers { ic: (regs.ic + used) as u16, ..regs }, ..s },
            ),
            Err(fault) => StepModel::Fault { fault },
        }
    } else if fam == 1 {
        StepModel::Fault { fault: VmFault::ReservedInstruction }
    } else if fam == 2 {
        match spec_stack_result(s) {
            Ok((regs, mem, used)) => StepModel::Next(
                VmModel { regs: Registers { ic: (regs.ic + used) as u16, ..regs }, mem, ..s },
            ),
            Err(fault) => StepModel::Fault { fault },
        }
    } else {
        match spec_branch_result(s) {
            Ok(SyscallActionModel::Write { fd, data }) => {
                if s.regs.ic + 1 > 0xFFFF {
                    StepModel::Fault { fault: VmFault::IcOutOfBounds }
                } else {
                    StepModel::Write {
                        s: VmModel {
                            regs: Registers { ic: (s.regs.ic + 1) as u16, ..s.regs },
                            ..s
                        },
                        fd,
                        data,
                    }
                }
            },
            Ok(SyscallActionModel::Exit { status }) => StepModel::Exit { status },
            Err(fault) => StepModel::Fault { fault },
        }
    }
}

/// Bytes of instruction stream still ahead of the counter; the measure that
/// shrinks at every retired instruction.
pub open spec fn spec_remaining(s: VmModel) -> int {
    if s.regs.ic <= s.instrs.len() {
        s.instrs.len() - s.regs.ic
    } else {
        0
    }
}

/// A retired instruction moves the counter strictly forward and leaves the
/// stream itself unchanged. This holds because `IC` is read-only to
/// programs; it is what makes every run finite.
pub proof fn lemma_step_next_advances(s: VmModel)
    requires
        s.regs.ic < s.instrs.len(),
    ensures
        match spec_step(s) {
            StepModel::Next(s2) => {
                &&& s2.instrs == s.instrs
                &&& s.regs.ic < s2.regs.ic <= 0x10000
            },
            StepModel::Write { s: s2, fd, data } => {
                &&& s2.instrs == s.instrs
                &&& s.regs.ic < s2.regs.ic <= 0x10000
            },
            _ => true,
        },
{
    let op = s.instrs[s.regs.ic as int];
    let fam = spec_family(op);
    if fam == 0 {
        if let Ok((regs, used)) = spec_alu_result(s) {
            assert(regs.ic == s.regs.ic);
            assert(1 <= used <= 4);
        }
    } else if fam == 2 {
        if let Ok((regs, mem, used)) = spec_stack_result(s) {
            assert(regs.ic == s.regs.ic);
            assert(1 <= used <= 3);
        }
    }
}

/// A whole execution from state `s`: the state in which it comes to rest,
/// and how it ended. Execution halts cleanly when the counter lands exactly
/// on the end of the stream, pauses at a `write` syscall, ends at an `exit`
/// syscall, and aborts at a fault.
pub open spec fn spec_run(s: VmModel) -> (VmModel, RunEndModel)
    decreases spec_remaining(s),
        via spec_run_decreases
{
    if s.regs.ic == s.instrs.len() {
        (s, RunEndModel::Halted)
    } else if s.regs.ic > s.instrs.len() {
        (s, RunEndModel::Fault { fault: VmFault::IcOutOfBounds })
    } else {
        match spec_step(s) {
            StepModel::Next(s2) => spec_run(s2),
            StepModel::Write { s: s2, fd, data } => (s2, RunEndModel::Write { fd, data }),
            StepModel::Exit { status } => (s, RunEndModel::Exit { status }),
            StepModel::Fault { fault } => (s, RunEndModel::Fault { fault }),
        }
    }
}

#[via_fn]
proof fn spec_run_decreases(s: VmModel) {
    if s.regs.ic < s.instrs.len() {
        lemma_step_next_advances(s);
    }
}

// ---------------------------------------------------------------------------
// Loading an object file
// ---------------------------------------------------------------------------
/// Whether the items from index `i` on can be loaded: init data of exactly
/// the declared size, placed inside memory at `0x8000` plus the offset.
/// The first offending item decides the error.
pub open spec fn spec_load_check(items: Seq<ItemModel>, i: int) -> Result<(), LoadError>
    decreases items.len() - i,
{
    if i < 0 || i >= items.len() {
        Ok(())
    } else {
        match items[i].init {
            Some(d) => {
                if d.len() != items[i].size {
                    Err(LoadError::SizeMismatch)
                } else if VAR_BASE + items[i].offset + items[i].size > MEM_SIZE {
                    Err(LoadError::ItemOutOfRange)
                } else {
                    spec_load_check(items, i + 1)
                }
            },
            None => spec_load_check(items, i + 1),
        }
    }
}

/// Memory with `data` written at `addr`, all other bytes kept.
pub open spec fn spec_splice(mem: Seq<u8>, addr: int, data: Seq<u8>) -> Seq<u8> {
    Seq::new(
        mem.len(),
        |i: int|
            if addr <= i < addr + data.len() {
                data[i - addr]
            } else {
                mem[i]
            },
    )
}

/// Memory after one item is loaded: its init data, if any, goes to
/// `0x8000` plus its offset.
pub open spec fn spec_write_item(mem: Seq<u8>, it: ItemModel) -> Seq<u8> {
    match it.init {
        Some(d) => spec_splice(mem, VAR_BASE + it.offset, d),
        None => mem,
    }
}

/// Memory after the items from index `i` on are loaded, in order; a later
/// item overwrites an earlier one where they overlap.
pub open spec fn spec_load_items(mem: Seq<u8>, items: Seq<ItemModel>, i: int) -> Seq<u8>
    decreases items.len() - i,
{
    if i < 0 || i >= items.len() {
        mem
    } else {
        spec_load_items(spec_write_item(mem, items[i]), items, i + 1)
    }
}

// ---------------------------------------------------------------------------
// Executable machine
// ---------------------------------------------------------------------------
/// The register named by a 4-bit operand, as a plain name rather than an
/// encoding.
#[derive(Clone, Copy, Debug, PartialEq, Eq, Structural)]
pub enum Register {
    /// Instruction counter.
    Ic,
    /// Flags.
    Fg,
    /// Call return register.
    Cr,
    /// Stack pointer.
    Sp,
    /// Zero register.
    Zr,
    /// R0 register.
    R0,
    /// R1 register.
    R1,
    /// R2 register.
    R2,
    /// R3 register.
    R3,
    /// R4 register.
    R4,
    /// R5 register.
    R5,
    /// R6 register.
    R6,
    /// R7 register.
    R7,
    /// L0 register.
    L0,
    /// L1 register.
    L1,
}

impl Register {
    /// The 4-bit encoding of this register.
    pub open spec fn spec_code(self) -> u8 {
        match self {
            Register::R0 => 0,
            Register::R1 => 1,
            Register::R2 => 2,
            Register::R3 => 3,
            Register::R4 => 4,
            Register::R5 => 5,
            Register::R6 => 6,
            Register::R7 => 7,
            Register::L0 => 9,
            Register::L1 => 10,
            Register::Ic => 11,
            Register::Fg => 12,
            Register::Cr => 13,
            Register::Sp => 14,
            Register::Zr => 15,
        }
    }
}

/// A register operand together with the value read from it.
#[derive(Clone, Copy, Debug)]
pub struct RegisterValue {
    /// The value read from, or to be written to, the register.
    pub value: Value,
    /// Which register it is.
    pub register: Register,
}

impl RegisterValue {
    /// Pair a value with the register it belongs to.
    pub fn new(value: Value, register: Register) -> (r: RegisterValue)
        ensures
            r.value == value,
            r.register == register,
    {
        RegisterValue { value, register }
    }
}

/// The instruction stream of a loaded program.
#[derive(Debug)]
pub struct Instructions {
    /// Linear instruction bytes; the `ic` register indexes into them.
    pub instructions: Vec<u8>,
}

impl View for Instructions {
    type V = Seq<u8>;

    open spec fn view(&self) -> Seq<u8> {
        self.instructions@
    }
}

impl Default for Instructions {
    /// An empty instruction stream.
    fn default() -> (r: Instructions)
        ensures
            r@ == Seq::<u8>::empty(),
    {
        Instructions { instructions: Vec::new() }
    }
}

impl Instructions {
    /// The number of instruction bytes.
    pub fn size(&self) -> (r: usize)
        ensures
            r == self@.len(),
    {
        self.instructions.len()
    }

    /// The instruction byte at `idx`, which must lie inside the stream.
    pub fn get(&self, idx: u16) -> (r: u8)
        requires
            idx < self@.len(),
        ensures
            r == self@[idx as int],
    {
        self.instructions[idx as usize]
    }
}

/// The outcome of executing one instruction.
#[derive(Debug)]
pub enum StepExit {
    /// The instruction retired; execution can continue.
    Next,
    /// A `write` syscall trapped: the host must write `data` to `fd`.
    Write { fd: u8, data: Vec<u8> },
    /// An `exit` syscall trapped.
    Exit { status: u8 },
    /// Execution aborted.
    Fault { fault: VmFault },
}

/// How a call to [`Vm::run`] ended.
#[derive(Debug)]
pub enum RunExit {
    /// The instruction counter reached the exact end of the stream.
    Halted,
    /// Execution paused: the host must write `data` to `fd`, store the low
    /// byte of the result into `R0`, and call [`Vm::run`] again.
    Write { fd: u8, data: Vec<u8> },
    /// The program asked to end with `status`.
    Exit { status: u8 },
    /// Execution aborted.
    Fault { fault: VmFault },
}

impl View for RunExit {
    type V = RunEndModel;

    open spec fn view(&self) -> RunEndModel {
        match self {
            RunExit::Halted => RunEndModel::Halted,
            RunExit::Write { fd, data } => RunEndModel::Write { fd: *fd, data: data@ },
            RunExit::Exit { status } => RunEndModel::Exit { status: *status },
            RunExit::Fault { fault } => RunEndModel::Fault { fault: *fault },
        }
    }
}

/// The whole machine: registers, memory and program.
#[derive(Debug)]
pub struct Vm {
    /// The register file.
    pub registers: Registers,
    /// The memory.
    pub stack: Stack,
    /// The program.
    pub instructions: Instructions,
}

impl View for Vm {
    type V = VmModel;

    open spec fn view(&self) -> VmModel {
        VmModel { regs: self.registers, mem: self.stack@, instrs: self.instructions@ }
    }
}

impl Default for Vm {
    /// A machine at power-on: zeroed registers, zeroed memory, no program.
    fn default() -> (r: Vm)
        ensures
            r.wf(),
            r@.regs == Registers::zeroed(),
            r@.instrs == Seq::<u8>::empty(),
            forall|i: int| 0 <= i < MEM_SIZE ==> r@.mem[i] == 0u8,
    {
        Vm {
            registers: Default::default(),
            stack: Default::default(),
            instructions: Default::default(),
        }
    }
}

impl Vm {
    /// The memory holds exactly one byte per 16-bit address.
    pub open spec fn wf(&self) -> bool {
        self.stack.wf()
    }

    /// Load an object file: adopt its instruction bytes as the program and
    /// copy each item's init data into the variable space, at `0x8000`
    /// plus the item's offset. Registers are untouched; nothing is changed
    /// unless every item fits.
    #[verifier::loop_isolation(false)]
    pub fn load_file(&mut self, file: &SmolFile) -> (r: Result<(), LoadError>)
        requires
            old(self).wf(),
        ensures
            final(self).wf(),
            match r {
                Ok(u) => {
                    &&& spec_load_check(file@.storage.items, 0) == Ok::<(), LoadError>(())
                    &&& final(self)@.regs == old(self)@.regs
                    &&& final(self)@.instrs == file@.instructions
                    &&& final(self)@.mem == spec_load_items(old(self)@.mem, file@.storage.items, 0)
                },
                Err(e) => {
                    &&& spec_load_check(file@.storage.items, 0) == Err::<(), LoadError>(e)
                    &&& final(self)@ == old(self)@
                },
            },
    {
        let ghost items = file@.storage.items;
        let n = file.storage.items.len();
        let mut i: usize = 0;
        while i < n
            invariant
                i <= n,
                n == items.len(),
                items == file@.storage.items,
                spec_load_check(items, 0) == spec_load_check(items, i as int),
            decreases n - i,
        {
            let item = &file.storage.items[i];
            match item.init_data {
                Some(ref d) => {
                    if d.len() != item.size as usize {
                        return Err(LoadError::SizeMismatch);
                    }
                    if VAR_BASE + item.offset as usize + item.size as usize > MEM_SIZE {
                        return Err(LoadError::ItemOutOfRange);
                    }
                },
                None => {},
            }
            i = i + 1;
        }
        self.instructions.instructions = slice_to_vec(file.instructions.as_slice());
        let ghost mem0 = self@.mem;
        let mut j: usize = 0;
        while j < n
            invariant
                j <= n,
                n == items.len(),
                items == file@.storage.items,
                self.wf(),
                spec_load_check(items, 0) == Ok::<(), LoadError>(()),
                spec_load_check(items, j as int) == Ok::<(), LoadError>(()),
                self@.regs == old(self)@.regs,
                self@.instrs == file@.instructions,
                spec_load_items(mem0, items, 0) == spec_load_items(self@.mem, items, j as int),
            decreases n - j,
        {
            let ghost mem_before = self@.mem;
            let item = &file.storage.items[j];
            match item.init_data {
                Some(ref d) => {
                    let addr = VAR_BASE + item.offset as usize;
                    self.stack.write_bytes(addr, d.as_slice());
                    proof {
                        assert(self@.mem =~= spec_splice(mem_before, addr as int, d@));
                    }
                },
                None => {},
            }
            proof {
                assert(spec_write_item(mem_before, items[j as int]) =~= self@.mem);
            }
            j = j + 1;
        }
        Ok(())
    }

    /// Read the register encoded by `reg`, pairing its value with its name.
    /// Encoding 8, the reserved slot, faults.
    pub fn register_val(&self, reg: u8) -> (r: Result<RegisterValue, VmFault>)
        requires
            reg < 16,
        ensures
            match r {
                Ok(rv) => {
                    &&& spec_reg_valid(reg)
                    &&& rv.register.spec_code() == reg
                    &&& rv.value == spec_reg_read(self@.regs, reg)
                },
                Err(fault) => reg == 8 && fault == VmFault::ReservedRegister,
            },
    {
        match reg {
            0 => Ok(RegisterValue::new(Value::U8(self.registers.r0), Register::R0)),
            1 => Ok(RegisterValue::new(Value::U8(self.registers.r1), Register::R1)),
            2 => Ok(RegisterValue::new(Value::U8(self.registers.r2), Register::R2)),
            3 => Ok(RegisterValue::new(Value::U8(self.registers.r3), Register::R3)),
            4 => Ok(RegisterValue::new(Value::U8(self.registers.r4), Register::R4)),
            5 => Ok(RegisterValue::new(Value::U8(self.registers.r5), Register::R5)),
            6 => Ok(RegisterValue::new(Value::U8(self.registers.r6), Register::R6)),
            7 => Ok(RegisterValue::new(Value::U8(self.registers.r7), Register::R7)),
            9 => Ok(RegisterValue::new(Value::U16(self.registers.l0), Register::L0)),
            10 => Ok(RegisterValue::new(Value::U16(self.registers.l1), Register::L1)),
            11 => Ok(RegisterValue::new(Value::U16(self.registers.ic), Register::Ic)),
            12 => Ok(RegisterValue::new(Value::U16(self.registers.fg), Register::Fg)),
            13 => Ok(RegisterValue::new(Value::U16(self.registers.cr), Register::Cr)),
            14 => Ok(RegisterValue::new(Value::U16(self.registers.sp), Register::Sp)),
            15 => Ok(RegisterValue::new(Value::U16(self.registers.zr), Register::Zr)),
            _ => Err(VmFault::ReservedRegister),
        }
    }

    /// Store `reg.value` into the register `reg.register`, at that
    /// register's natural width: 8-bit registers keep the low byte of a
    /// wide value, 16-bit registers zero-extend a narrow one.
    pub fn register_save(&mut self, reg: RegisterValue)
        ensures
            final(self).wf() == old(self).wf(),
            final(self)@.regs == spec_reg_write(old(self)@.regs, reg.register.spec_code(), reg.value),
            final(self)@.mem == old(self)@.mem,
            final(self)@.instrs == old(self)@.instrs,
    {
        match reg.register {
            Register::R0 => self.registers.r0 = reg.value.as_u8(),
            Register::R1 => self.registers.r1 = reg.value.as_u8(),
            Register::R2 => self.registers.r2 = reg.value.as_u8(),
            Register::R3 => self.registers.r3 = reg.value.as_u8(),
            Register::R4 => self.registers.r4 = reg.value.as_u8(),
            Register::R5 => self.registers.r5 = reg.value.as_u8(),
            Register::R6 => self.registers.r6 = reg.value.as_u8(),
            Register::R7 => self.registers.r7 = reg.value.as_u8(),
            Register::L0 => self.registers.l0 = reg.value.as_u16(),
            Register::L1 => self.registers.l1 = reg.value.as_u16(),
            Register::Ic => self.registers.ic = reg.value.as_u16(),
            Register::Fg => self.registers.fg = reg.value.as_u16(),
            Register::Cr => self.registers.cr = reg.value.as_u16(),
            Register::Sp => self.registers.sp = reg.value.as_u16(),
            Register::Zr => self.registers.zr = reg.value.as_u16(),
        }
    }

    /// The instruction byte at `ic`.
    pub fn immediate_instr(&self, ic: u16) -> (r: u8)
        requires
            ic < self@.instrs.len(),
        ensures
            r == self@.instrs[ic as int],
    {
        self.instructions.get(ic)
    }

    /// The 16-bit little-endian immediate held in the instruction bytes at
    /// `ic` and `ic + 1`.
    pub fn immediate_instr_16b(&self, ic: u16) -> (r: u16)
        requires
            ic + 1 < self@.instrs.len(),
            ic + 1 <= 0xFFFF,
        ensures
            r == spec_le16(self@.instrs[ic as int], self@.instrs[ic + 1]),
    {
        let lo = self.instructions.get(ic);
        let hi = self.instructions.get(ic + 1);
        (lo as u16) | ((hi as u16) << 8)
    }

    /// Read the register selected by the low nibble of an operand byte.
    pub fn decode_register(&self, regs: u8) -> (r: Result<RegisterValue, VmFault>)
        ensures
            match r {
                Ok(rv) => {
                    &&& spec_reg_valid(regs & 0xF)
                    &&& rv.register.spec_code() == regs & 0xF
                    &&& rv.value == spec_reg_read(self@.regs, regs & 0xF)
                },
                Err(fault) => regs & 0xF == 8 && fault == VmFault::ReservedRegister,
            },
    {
        let r0 = regs & 0xF;
        proof {
            assert(regs & 0xF < 16) by (bit_vector);
        }
        self.register_val(r0)
    }

    /// Read the two registers selected by an operand byte: the low nibble
    /// first, then the high nibble.
    pub fn decode_registers(&self, regs: u8) -> (r: Result<(RegisterValue, RegisterValue), VmFault>)
        ensures
            match r {
                Ok(pair) => {
                    &&& spec_reg_valid(regs & 0xF)
                    &&& spec_reg_valid((regs >> 4) & 0xF)
                    &&& pair.0.register.spec_code() == regs & 0xF
                    &&& pair.0.value == spec_reg_read(self@.regs, regs & 0xF)
                    &&& pair.1.register.spec_code() == (regs >> 4) & 0xF
                    &&& pair.1.value == spec_reg_read(self@.regs, (regs >> 4) & 0xF)
                },
                Err(fault) => {
                    &&& (regs & 0xF == 8 || (regs >> 4) & 0xF == 8)
                    &&& fault == VmFault::ReservedRegister
                },
            },
    {
        let r0 = regs & 0xF;
        let r1 = (regs >> 4) & 0xF;
        proof {
            assert(regs & 0xF < 16) by (bit_vector);
            assert((regs >> 4) & 0xF < 16) by (bit_vector);
        }
        let v0 = match self.register_val(r0) {
            Ok(rv) => rv,
            Err(fault) => {
                return Err(fault);
            },
        };
        let v1 = match self.register_val(r1) {
            Ok(rv) => rv,
            Err(fault) => {
                return Err(fault);
            },
        };
        Ok((v0, v1))
    }

    /// Execute one ALU instruction: write the result back to the
    /// destination register and report how many bytes were consumed. The
    /// instruction counter is advanced by the caller. On a fault nothing is
    /// changed.
    pub fn decode_alu_instr(&mut self, instr: u8) -> (r: Result<u16, VmFault>)
        requires
            old(self).wf(),
            old(self)@.regs.ic < old(self)@.instrs.len(),
            old(self)@.instrs[old(self)@.regs.ic as int] == instr,
        ensures
            final(self).wf(),
            final(self)@.mem == old(self)@.mem,
            final(self)@.instrs == old(self)@.instrs,
            match r {
                Ok(used) => {
                    &&& spec_alu_result(old(self)@) == Ok::<(Registers, u16), VmFault>(
                        (final(self)@.regs, used),
                    )
                    &&& final(self)@.regs.ic == old(self)@.regs.ic
                    &&& old(self)@.regs.ic + used <= 0xFFFF
                    &&& 1 <= used <= 4
                },
                Err(fault) => {
                    &&& spec_alu_result(old(self)@) == Err::<(Registers, u16), VmFault>(fault)
                    &&& final(self)@ == old(self)@
                },
            },
    {
        let ic = self.registers.ic;
        let o = (instr >> 3) & 7;
        let uses_imm = instr & 4 == 4 && o != 7;
        let len: u16 = if !uses_imm {
            2
        } else if instr & 2 == 2 {
            4
        } else {
            3
        };
        if ic as usize + len as usize > self.instructions.size() {
            return Err(VmFault::IcOutOfBounds);
        }
        if ic as usize + len as usize > 0xFFFF {
            return Err(VmFault::IcOutOfBounds);
        }
        if instr & 1 == 1 {
            // Reserved/no-op bit: retire without effect.
            return Ok(len);
        }
        let regbyte = self.instructions.get(ic + 1);
        let dst_code = regbyte & 0xF;
        let src_code = (regbyte >> 4) & 0xF;
        proof {
            assert(regbyte & 0xF < 16) by (bit_vector);
            assert((regbyte >> 4) & 0xF < 16) by (bit_vector);
        }
        let dst = match self.register_val(dst_code) {
            Ok(rv) => rv,
            Err(fault) => {
                return Err(fault);
            },
        };
        let unary = o == 5 || o == 7;
        let b: Value;
        if uses_imm {
            if instr & 2 == 2 {
                b = Value::U16(self.immediate_instr_16b(ic + 2));
            } else {
                b = Value::U8(self.immediate_instr(ic + 2));
            }
        } else if unary {
            b = Value::U8(1);
        } else {
            let src = match self.register_val(src_code) {
                Ok(rv) => rv,
                Err(fault) => {
                    return Err(fault);
                },
            };
            b = src.value;
        }
        if o == 6 {
            return Err(VmFault::ReservedInstruction);
        }
        if dst_code == 11 || dst_code == 12 {
            return Err(VmFault::ReadOnlyRegister);
        }
        let res = alu_compute(instr, dst.value, b);
        self.register_save(RegisterValue::new(res, dst.register));
        Ok(len)
    }

    /// Execute one stack-family instruction (`SV` or `UV`): update the
    /// stack pointer and, for `SV`, the save slot, and report how many
    /// bytes were consumed. On a fault nothing is changed.
    pub fn decode_stack_instr(&mut self, instr: u8) -> (r: Result<u16, VmFault>)
        requires
            old(self).wf(),
            old(self)@.regs.ic < old(self)@.instrs.len(),
            old(self)@.instrs[old(self)@.regs.ic as int] == instr,
        ensures
            final(self).wf(),
            final(self)@.instrs == old(self)@.instrs,
            match r {
                Ok(used) => {
                    &&& spec_stack_result(old(self)@) == Ok::<(Registers, Seq<u8>, u16), VmFault>(
                        (final(self)@.regs, final(self)@.mem, used),
                    )
                    &&& final(self)@.regs.ic == old(self)@.regs.ic
                    &&& old(self)@.regs.ic + used <= 0xFFFF
                    &&& 1 <= used <= 3
                },
                Err(fault) => {
                    &&& spec_stack_result(old(self)@) == Err::<(Registers, Seq<u8>, u16), VmFault>(
                        fault,
                    )
                    &&& final(self)@ == old(self)@
                },
            },
    {
        let ic = self.registers.ic;
        let sub = (instr >> 4) & 3;
        if sub == 0 || sub == 1 {
            return Err(VmFault::ReservedInstruction);
        }
        if sub == 2 {
            let form = (instr >> 2) & 3;
            let len: u16 = if form == 3 {
                3
            } else {
                2
            };
            if ic as usize + len as usize > self.instructions.size() {
                return Err(VmFault::IcOutOfBounds);
            }
            if ic as usize + len as usize > 0xFFFF {
                return Err(VmFault::IcOutOfBounds);
            }
            let operand: u16;
            if form == 2 {
                operand = self.immediate_instr(ic + 1) as u16;
            } else if form == 3 {
                operand = self.immediate_instr_16b(ic + 1);
            } else {
                let regbyte = self.instructions.get(ic + 1);
                let rv = match self.decode_register(regbyte) {
                    Ok(rv) => rv,
                    Err(fault) => {
                        return Err(fault);
                    },
                };
                operand = rv.value.as_u16();
            }
            self.stack.save_stack_pointer(self.registers.sp);
            self.registers.sp = (VAR_BASE as u16).wrapping_add(operand);
            Ok(len)
        } else {
            if ic as usize + 1 > 0xFFFF {
                return Err(VmFault::IcOutOfBounds);
            }
            self.registers.sp = self.stack.load_stack_pointer();
            Ok(1)
        }
    }

    /// Decode one branch-family instruction. The only implemented variant
    /// is the syscall entry; the decision of what the host must do comes
    /// back as a value and nothing is mutated here.
    pub fn decode_branch_instr(&self, instr: u8) -> (r: Result<SyscallAction, VmFault>)
        requires
            self.wf(),
            self@.regs.ic < self@.instrs.len(),
            self@.instrs[self@.regs.ic as int] == instr,
        ensures
            match r {
                Ok(action) => spec_branch_result(self@) == Ok::<SyscallActionModel, VmFault>(
                    action@,
                ),
                Err(fault) => spec_branch_result(self@) == Err::<SyscallActionModel, VmFault>(
                    fault,
                ),
            },
    {
        let variant = (instr >> 3) & 7;
        if variant == 5 && instr & 7 == 7 {
            vm_syscall(&self.registers, &self.stack)
        } else {
            Err(VmFault::ReservedInstruction)
        }
    }

    /// Fetch, decode and execute the instruction at the current counter,
    /// advancing the counter past it; exactly one step of [`spec_step`].
    pub fn decode_next_instr(&mut self) -> (r: StepExit)
        requires
            old(self).wf(),
            old(self)@.regs.ic < old(self)@.instrs.len(),
        ensures
            final(self).wf(),
            final(self)@.instrs == old(self)@.instrs,
            match r {
                StepExit::Next => spec_step(old(self)@) == StepModel::Next(final(self)@),
                StepExit::Write { fd, data } => spec_step(old(self)@) == (StepModel::Write {
                    s: final(self)@,
                    fd,
                    data: data@,
                }),
                StepExit::Exit { status } => {
                    &&& spec_step(old(self)@) == (StepModel::Exit { status })
                    &&& final(self)@ == old(self)@
                },
                StepExit::Fault { fault } => {
                    &&& spec_step(old(self)@) == (StepModel::Fault { fault })
                    &&& final(self)@ == old(self)@
                },
            },
    {
        let ic = self.registers.ic;
        let instr = self.instructions.get(ic);
        let fam = (instr >> 6) & 3;
        proof {
            assert((instr >> 6) & 3 < 4) by (bit_vector);
        }
        if fam == 0 {
            match self.decode_alu_instr(instr) {
                Ok(used) => {
                    self.registers.ic = ic + used;
                    StepExit::Next
                },
                Err(fault) => StepExit::Fault { fault },
            }
        } else if fam == 1 {
            StepExit::Fault { fault: VmFault::ReservedInstruction }
        } else if fam == 2 {
            match self.decode_stack_instr(instr) {
                Ok(used) => {
                    self.registers.ic = ic + used;
                    StepExit::Next
                },
                Err(fault) => StepExit::Fault { fault },
            }
        } else {
            match self.decode_branch_instr(instr) {
                Ok(SyscallAction::Write { fd, data }) => {
                    if ic as usize + 1 > 0xFFFF {
                        StepExit::Fault { fault: VmFault::IcOutOfBounds }
                    } else {
                        self.registers.ic = ic + 1;
                        StepExit::Write { fd, data }
                    }
                },
                Ok(SyscallAction::Exit { status }) => StepExit::Exit { status },
                Err(fault) => StepExit::Fault { fault },
            }
        }
    }

    /// Run until the machine halts, pauses for the host, exits or faults:
    /// exactly [`spec_run`] applied to the starting state.
    ///
    /// After a [`RunExit::Write`], the host performs the write, stores the
    /// low byte of its result into `R0`, and calls `run` again to resume.
    #[verifier::loop_isolation(false)]
    pub fn run(&mut self) -> (r: RunExit)
        requires
            old(self).wf(),
        ensures
            final(self).wf(),
            (final(self)@, r@) == spec_run(old(self)@),
    {
        loop
            invariant
                self.wf(),
                spec_run(self@) == spec_run(old(self)@),
            decreases spec_remaining(self@),
        {
            let ghost prev = self@;
            let ic = self.registers.ic;
            let size = self.instructions.size();
            if ic as usize == size {
                return RunExit::Halted;
            }
            if ic as usize > size {
                return RunExit::Fault { fault: VmFault::IcOutOfBounds };
            }
            proof {
                lemma_step_next_advances(prev);
            }
            match self.decode_next_instr() {
                StepExit::Next => {
                },
                StepExit::Write { fd, data } => {
                    return RunExit::Write { fd, data };
                },
                StepExit::Exit { status } => {
                    return RunExit::Exit { status };
                },
                StepExit::Fault { fault } => {
                    return RunExit::Fault { fault };
                },
            }
        }
    }
}

/// The state in which execution continues after one step, for steps that
/// do continue; for an exit or a fault the state stays put.
pub open spec fn spec_step_state(s: VmModel) -> VmModel {
    match spec_step(s) {
        StepModel::Next(s2) => s2,
        StepModel::Write { s: s2, fd, data } => s2,
        StepModel::Exit { status } => s,
        StepModel::Fault { fault } => s,
    }
}

/// Halt law, first half: a machine whose instruction counter sits exactly
/// at the end of the stream halts cleanly, with nothing changed.
pub proof fn lemma_run_halts_at_end(s: VmModel)
    requires
        s.regs.ic == s.instrs.len(),
    ensures
        spec_run(s) == (s, RunEndModel::Halted),
{
}

/// Halt law, second half: a machine about to execute the syscall opcode
/// `0b11101111` with `R0 = 60` ends the program at once, reporting the
/// status held in `R1`.
pub proof fn lemma_run_exits_on_exit_syscall(s: VmModel)
    requires
        s.regs.ic < s.instrs.len(),
        s.instrs[s.regs.ic as int] == 0xEF,
        s.regs.r0 == 60,
    ensures
        spec_run(s) == (s, (RunEndModel::Exit { status: s.regs.r1 })),
{
    let op = s.instrs[s.regs.ic as int];
    assert((0xEFu8 >> 6) & 3 == 3) by (bit_vector);
    assert((0xEFu8 >> 3) & 7 == 5) by (bit_vector);
    assert(0xEFu8 & 7 == 7) by (bit_vector);
}

/// `SV`/`UV` symmetry, for every operand form: whenever an instruction of
/// the `SV` sub-family retires and the instruction it lands on is any
/// `UV`, executing that `UV` brings the stack pointer back to its value
/// before the `SV`, whatever it was pointing at in between.
pub proof fn lemma_sv_uv_symmetry(s: VmModel)
    requires
        s.mem.len() == MEM_SIZE,
        s.regs.ic < s.instrs.len(),
        (s.instrs[s.regs.ic as int] >> 6) & 3 == 2,
        (s.instrs[s.regs.ic as int] >> 4) & 3 == 2,
        spec_step(s) is Next,
        spec_step_state(s).regs.ic < s.instrs.len(),
        spec_step_state(s).regs.ic + 1 <= 0xFFFF,
        (s.instrs[spec_step_state(s).regs.ic as int] >> 6) & 3 == 2,
        (s.instrs[spec_step_state(s).regs.ic as int] >> 4) & 3 == 3,
    ensures
        spec_step_state(s).mem == spec_save_sp(s.mem, s.regs.sp),
        spec_step(spec_step_state(s)) is Next,
        spec_step_state(spec_step_state(s)).regs.sp == s.regs.sp,
{
    let s1 = spec_step_state(s);
    assert(s1.mem.len() == MEM_SIZE);
    crate::stack::lemma_save_slot_roundtrip(s.mem, s.regs.sp);
}

/// `SV`/`UV` symmetry: from any state, executing the assembled pair
/// `SV` (16-bit immediate form, opcode `0b10101100`) and then `UV`
/// (opcode `0b10110000`) brings the stack pointer back to its starting
/// value, while the counter moves past both instructions. In between,
/// `SV` has parked the old stack pointer in the save slot and pointed
/// `SP` into the variable space.
pub proof fn lemma_sv_uv_restores_sp(s: VmModel)
    requires
        s.mem.len() == MEM_SIZE,
        s.regs.ic + 4 <= s.instrs.len(),
        s.regs.ic + 4 <= 0xFFFF,
        s.instrs[s.regs.ic as int] == 0xAC,
        s.instrs[s.regs.ic + 3] == 0xB0,
    ensures
        spec_step(s) is Next,
        spec_step(spec_step_state(s)) is Next,
        spec_step_state(s).regs.sp == (VAR_BASE as u16).wrapping_add(
            spec_le16(s.instrs[s.regs.ic + 1], s.instrs[s.regs.ic + 2]),
        ),
        spec_step_state(s).mem == spec_save_sp(s.mem, s.regs.sp),
        spec_step_state(spec_step_state(s)).regs.sp == s.regs.sp,
        spec_step_state(spec_step_state(s)).regs.ic == s.regs.ic + 4,
{
    assert((0xACu8 >> 6) & 3 == 2) by (bit_vector);
    assert((0xACu8 >> 4) & 3 == 2) by (bit_vector);
    assert((0xACu8 >> 2) & 3 == 3) by (bit_vector);
    assert((0xB0u8 >> 6) & 3 == 2) by (bit_vector);
    assert((0xB0u8 >> 4) & 3 == 3) by (bit_vector);
    let s1 = spec_step_state(s);
    assert(s1.mem.len() == MEM_SIZE);
    crate::stack::lemma_save_slot_roundtrip(s.mem, s.regs.sp);
}

/// The ALU computation of one instruction, on the values already fetched.
fn alu_compute(instr: u8, a: Value, b: Value) -> (r: Value)
    requires
        spec_alu_op(instr) != 6,
    ensures
        r == spec_alu_compute(instr, a, b),
{
    let o = (instr >> 3) & 7;
    if instr & 2 == 2 {
        let x = a.as_u16();
        let y = b.as_u16();
        let v: u16 = if o == 0 {
            x.wrapping_add(y)
        } else if o == 1 {
            x.wrapping_sub(y)
        } else if o == 2 {
            x & y
        } else if o == 3 {
            x | y
        } else if o == 4 {
            x ^ y
        } else if o == 5 {
            !x
        } else if instr & 4 == 4 {
            x.wrapping_sub(1)
        } else {
            x.wrapping_add(1)
        };
        Value::U16(v)
    } else {
        let x = a.as_u8();
        let y = b.as_u8();
        let v: u8 = if o == 0 {
            x.wrapping_add(y)
        } else if o == 1 {
            x.wrapping_sub(y)
        } else if o == 2 {
            x & y
        } else if o == 3 {
            x | y
        } else if o == 4 {
            x ^ y
        } else if o == 5 {
            !x
        } else if instr & 4 == 4 {
            x.wrapping_sub(1)
        } else {
            x.wrapping_add(1)
        };
        Value::U8(v)
    }
}

} // verus!
