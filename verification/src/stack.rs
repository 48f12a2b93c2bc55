//! The linear memory of the virtual machine.
//!
//! Memory is a flat array of [`MEM_SIZE`] bytes addressed by a 16-bit
//! pointer. It is partitioned into the stack space `[0, 0x8000)`, where the
//! stack pointer starts, and the variable space `[0x8000, MEM_SIZE)`, where
//! the assembler's named data is laid out. The last two bytes of memory are
//! reserved as a one-deep save slot for the stack pointer, used by the
//! `SV`/`UV` instruction pair.

use vstd::prelude::*;
use vstd::pervasive::VecAdditionalExecFns;
use vstd::slice::slice_subrange;

verus! {

/// Number of bytes of memory: every index a 16-bit stack pointer can form.
pub const MEM_SIZE: usize = 65535;

/// First byte of the variable space; also the bias added to raw variable
/// offsets when the `SV` instruction computes a stack-pointer value.
pub const VAR_BASE: usize = 32768;

/// The byte array backing stack space and variable space.
///
/// The abstract value of a `Stack` (its view) is the sequence of all
/// [`MEM_SIZE`] memory bytes; [`Stack::wf`] says the backing store has
/// exactly that length.
#[derive(Debug)]
pub struct Stack {
    memory: Vec<u8>,
}

impl View for Stack {
    type V = Seq<u8>;

    closed spec fn view(&self) -> Seq<u8> {
        self.memory@
    }
}

/// Memory after `sp` is written into the save slot in the last two bytes:
/// the low byte of `sp` goes last, the high byte just before it.
pub open spec fn spec_save_sp(mem: Seq<u8>, sp: u16) -> Seq<u8>
    recommends
        mem.len() == MEM_SIZE,
{
    mem.update(MEM_SIZE - 1, sp as u8).update(MEM_SIZE - 2, (sp >> 8) as u8)
}

/// The stack-pointer value held in the save slot in the last two bytes.
pub open spec fn spec_saved_sp(mem: Seq<u8>) -> u16
    recommends
        mem.len() == MEM_SIZE,
{
    (mem[MEM_SIZE - 1] as u16) | ((mem[MEM_SIZE - 2] as u16) << 8)
}

/// Reading the save slot after writing `sp` into it yields `sp` again,
/// whatever the rest of memory holds.
pub proof fn lemma_save_slot_roundtrip(mem: Seq<u8>, sp: u16)
    requires
        mem.len() == MEM_SIZE,
    ensures
        spec_saved_sp(spec_save_sp(mem, sp)) == sp,
{
    assert(((sp as u8) as u16) | ((((sp >> 8) as u8) as u16) << 8) == sp) by (bit_vector);
}

impl Stack {
    /// The backing store holds exactly one byte per 16-bit address.
    pub open spec fn wf(&self) -> bool {
        self@.len() == MEM_SIZE
    }

    /// Get the memory space from the stack pointer to the end of memory.
    pub fn from_sp(&self, sp: u16) -> (r: &[u8])
        requires
            self.wf(),
        ensures
            r@ == self@.subrange(sp as int, MEM_SIZE as int),
    {
        slice_subrange(self.memory.as_slice(), sp as usize, MEM_SIZE)
    }

    /// Get the memory space from the stack pointer to the end of memory,
    /// for writing.
    pub fn from_sp_mut(&mut self, sp: u16) -> (r: &mut [u8])
        requires
            old(self).wf(),
        ensures
            r@ == old(self)@.subrange(sp as int, MEM_SIZE as int),
            final(r)@.len() == MEM_SIZE - sp,
            final(self)@ == old(self)@.subrange(0, sp as int) + final(r)@,
            final(self).wf(),
    {
        let r = slice_range_mut(self.memory.as_mut_slice(), sp as usize, MEM_SIZE);
        proof {
            assert(old(self)@.subrange(0, sp as int) + final(r)@ + old(self)@.subrange(
                MEM_SIZE as int,
                MEM_SIZE as int,
            ) =~= old(self)@.subrange(0, sp as int) + final(r)@);
        }
        r
    }

    /// The whole memory, for writing.
    pub fn memory_mut(&mut self) -> (r: &mut [u8])
        requires
            old(self).wf(),
        ensures
            r@ == old(self)@,
            final(r)@.len() == MEM_SIZE,
            final(self)@ == final(r)@,
            final(self).wf(),
    {
        let r = slice_range_mut(self.memory.as_mut_slice(), 0, MEM_SIZE);
        proof {
            assert(old(self)@.subrange(0, 0) + final(r)@ + old(self)@.subrange(
                MEM_SIZE as int,
                MEM_SIZE as int,
            ) =~= final(r)@);
            assert(r@ =~= old(self)@);
        }
        r
    }

    /// The stack space, for writing.
    pub fn stack_mut(&mut self) -> (r: &mut [u8])
        requires
            old(self).wf(),
        ensures
            r@ == old(self)@.subrange(0, VAR_BASE as int),
            final(r)@.len() == VAR_BASE,
            final(self)@ == final(r)@ + old(self)@.subrange(VAR_BASE as int, MEM_SIZE as int),
            final(self).wf(),
    {
        let r = slice_range_mut(self.memory.as_mut_slice(), 0, VAR_BASE);
        proof {
            assert(old(self)@.subrange(0, 0) + final(r)@ + old(self)@.subrange(
                VAR_BASE as int,
                MEM_SIZE as int,
            ) =~= final(r)@ + old(self)@.subrange(VAR_BASE as int, MEM_SIZE as int));
        }
        r
    }

    /// The variable space, for writing.
    pub fn variable_mut(&mut self) -> (r: &mut [u8])
        requires
            old(self).wf(),
        ensures
            r@ == old(self)@.subrange(VAR_BASE as int, MEM_SIZE as int),
            final(r)@.len() == MEM_SIZE - VAR_BASE,
            final(self)@ == old(self)@.subrange(0, VAR_BASE as int) + final(r)@,
            final(self).wf(),
    {
        let r = slice_range_mut(self.memory.as_mut_slice(), VAR_BASE, MEM_SIZE);
        proof {
            assert(old(self)@.subrange(0, VAR_BASE as int) + final(r)@ + old(self)@.subrange(
                MEM_SIZE as int,
                MEM_SIZE as int,
            ) =~= old(self)@.subrange(0, VAR_BASE as int) + final(r)@);
        }
        r
    }

    /// The whole memory.
    pub fn memory(&self) -> (r: &[u8])
        requires
            self.wf(),
        ensures
            r@ == self@,
    {
        let r = self.memory.as_slice();
        proof {
            assert(r@ =~= self@);
        }
        r
    }

    /// The stack space: the lower half of memory, `[0, 0x8000)`.
    pub fn stack(&self) -> (r: &[u8])
        requires
            self.wf(),
        ensures
            r@ == self@.subrange(0, VAR_BASE as int),
    {
        slice_subrange(self.memory.as_slice(), 0, VAR_BASE)
    }

    /// The variable space: the upper half of memory, `[0x8000, MEM_SIZE)`.
    pub fn variable(&self) -> (r: &[u8])
        requires
            self.wf(),
        ensures
            r@ == self@.subrange(VAR_BASE as int, MEM_SIZE as int),
    {
        slice_subrange(self.memory.as_slice(), VAR_BASE, MEM_SIZE)
    }

    /// Copy `data` into memory starting at `addr`.
    pub fn write_bytes(&mut self, addr: usize, data: &[u8])
        requires
            old(self).wf(),
            addr + data@.len() <= MEM_SIZE,
        ensures
            final(self).wf(),
            final(self)@.len() == MEM_SIZE,
            forall|i: int|
                0 <= i < MEM_SIZE ==> final(self)@[i] == (if addr <= i < addr + data@.len() {
                    data@[i - addr]
                } else {
                    old(self)@[i]
                }),
    {
        let n = data.len();
        let mut i: usize = 0;
        while i < n
            invariant
                self.wf(),
                n == data@.len(),
                addr + n <= MEM_SIZE,
                i <= n,
                forall|j: int|
                    0 <= j < MEM_SIZE ==> self@[j] == (if addr <= j < addr + i {
                        data@[j - addr]
                    } else {
                        old(self)@[j]
                    }),
            decreases n - i,
        {
            self.memory.set(addr + i, data[i]);
            i = i + 1;
        }
    }

    /// Copy `len` bytes of memory starting at `addr` out into a fresh vector.
    pub fn read_bytes(&self, addr: usize, len: usize) -> (r: Vec<u8>)
        requires
            self.wf(),
            addr + len <= MEM_SIZE,
        ensures
            r@ == self@.subrange(addr as int, addr + len),
    {
        let mut out: Vec<u8> = Vec::new();
        let mut i: usize = 0;
        while i < len
            invariant
                self.wf(),
                addr + len <= MEM_SIZE,
                i <= len,
                out@ == self@.subrange(addr as int, addr + i),
            decreases len - i,
        {
            out.push(self.memory[addr + i]);
            proof {
                assert(out@ =~= self@.subrange(addr as int, addr + i + 1));
            }
            i = i + 1;
        }
        out
    }

    /// Save `sp` into the slot in the last two bytes of memory; a later
    /// [`Stack::load_stack_pointer`] reads it back. The slot is one deep:
    /// a second save overwrites the first.
    pub fn save_stack_pointer(&mut self, sp: u16)
        requires
            old(self).wf(),
        ensures
            final(self).wf(),
            final(self)@ == spec_save_sp(old(self)@, sp),
    {
        let lo = sp as u8;
        let hi = (sp >> 8) as u8;
        self.memory.set(MEM_SIZE - 1, lo);
        self.memory.set(MEM_SIZE - 2, hi);
    }

    /// Read back the stack pointer last written by
    /// [`Stack::save_stack_pointer`].
    pub fn load_stack_pointer(&self) -> (r: u16)
        requires
            self.wf(),
        ensures
            r == spec_saved_sp(self@),
    {
        let lo = self.memory[MEM_SIZE - 1];
        let hi = self.memory[MEM_SIZE - 2];
        (lo as u16) | ((hi as u16) << 8)
    }
}

/// Take a mutable view of the elements `i..j` of a byte slice.
///
/// Relies on the mutable range indexing of std slices: the returned slice
/// is exactly the elements `i..j`, writes through it land at those
/// positions and nowhere else, and a slice's length never changes while
/// it is borrowed.
#[verifier::external_body]
fn slice_range_mut(s: &mut [u8], i: usize, j: usize) -> (r: &mut [u8])
    requires
        i <= j <= old(s)@.len(),
    ensures
        r@ == old(s)@.subrange(i as int, j as int),
        final(r)@.len() == j - i,
        final(s)@ == old(s)@.subrange(0, i as int) + final(r)@ + old(s)@.subrange(
            j as int,
            old(s)@.len() as int,
        ),
{
    &mut s[i..j]
}

impl Default for Stack {
    /// Memory at power-on: every byte zero.
    fn default() -> (r: Stack)
        ensures
            r.wf(),
            forall|i: int| 0 <= i < MEM_SIZE ==> r@[i] == 0u8,
    {
        let mut memory: Vec<u8> = Vec::new();
        while memory.len() < MEM_SIZE
            invariant
                memory@.len() <= MEM_SIZE,
                forall|i: int| 0 <= i < memory@.len() ==> memory@[i] == 0u8,
            decreases MEM_SIZE - memory@.len(),
        {
            memory.push(0u8);
        }
        Stack { memory }
    }
}

} // verus!
