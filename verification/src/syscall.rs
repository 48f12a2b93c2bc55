//! The syscall interface between a running program and the host.
//!
//! On a syscall trap the machine reads `R0` as the call number and `R1`..`R3`
//! as arguments. The decision of what the host must do is computed here as a
//! plain value, a [`SyscallAction`]; performing the action (writing to a file
//! descriptor, ending the process) is the host's business, outside the
//! machine. The host reports the result of a write back by storing its low
//! byte into `R0` before resuming execution.
//!
//! Call numbers: 1 is `write` (`R1` = file descriptor, `R2` = byte offset
//! from the current stack pointer, `R3` = length); 60 is `exit` (`R1` =
//! status). Any other call number is a fault.

use crate::registers::Registers;
use crate::stack::{Stack, MEM_SIZE};
use crate::vm::VmFault;
use vstd::prelude::*;

verus! {

/// What the host is asked to perform for a syscall.
#[derive(Debug)]
pub enum SyscallAction {
    /// Write `data` to file descriptor `fd`; the host answers with the
    /// number of bytes written (or an error code), whose low byte the VM
    /// stores into `R0`.
    Write { fd: u8, data: Vec<u8> },
    /// Terminate the program with `status`.
    Exit { status: u8 },
}

/// The abstract value of a [`SyscallAction`].
pub enum SyscallActionModel {
    /// Write `data` to file descriptor `fd`.
    Write { fd: u8, data: Seq<u8> },
    /// Terminate the program with `status`.
    Exit { status: u8 },
}

impl View for SyscallAction {
    type V = SyscallActionModel;

    open spec fn view(&self) -> SyscallActionModel {
        match self {
            SyscallAction::Write { fd, data } => SyscallActionModel::Write { fd: *fd, data: data@ },
            SyscallAction::Exit { status } => SyscallActionModel::Exit { status: *status },
        }
    }
}

/// The syscall decision as a function of the register file and memory.
///
/// A `write` hands out the bytes at `[SP + R2, SP + R2 + R3)`; the address
/// wraps to 16 bits and the count is clamped to the end of memory, so that
/// every request is answerable. An `exit` carries the status from `R1`.
/// Every other call number faults.
pub open spec fn spec_vm_syscall(regs: Registers, mem: Seq<u8>) -> Result<
    SyscallActionModel,
    VmFault,
> {
    if regs.r0 == 1 {
        let addr = regs.sp.wrapping_add(regs.r2 as u16) as int;
        let count = if addr + regs.r3 <= MEM_SIZE {
            regs.r3 as int
        } else {
            MEM_SIZE - addr
        };
        Ok(
            SyscallActionModel::Write {
                fd: regs.r1,
                data: mem.subrange(addr, addr + count),
            },
        )
    } else if regs.r0 == 60 {
        Ok(SyscallActionModel::Exit { status: regs.r1 })
    } else {
        Err(VmFault::UnknownSyscall)
    }
}

/// Decide what a syscall trap asks of the host, from the current registers
/// and memory. The "return" value of a `write` goes to `R0` once the host
/// answers; `vm_syscall` itself mutates nothing.
pub fn vm_syscall(registers: &Registers, stack: &Stack) -> (r: Result<SyscallAction, VmFault>)
    requires
        stack.wf(),
    ensures
        match r {
            Ok(action) => spec_vm_syscall(*registers, stack@) == Ok::<SyscallActionModel, VmFault>(
                action@,
            ),
            Err(fault) => spec_vm_syscall(*registers, stack@) == Err::<SyscallActionModel, VmFault>(
                fault,
            ),
        },
{
    if registers.r0 == 1 {
        let addr = registers.sp.wrapping_add(registers.r2 as u16) as usize;
        let want = registers.r3 as usize;
        let count = if addr + want <= MEM_SIZE {
            want
        } else {
            MEM_SIZE - addr
        };
        let data = stack.read_bytes(addr, count);
        Ok(SyscallAction::Write { fd: registers.r1, data })
    } else if registers.r0 == 60 {
        Ok(SyscallAction::Exit { status: registers.r1 })
    } else {
        Err(VmFault::UnknownSyscall)
    }
}

} // verus!
