//! Linear memory: a readable view and its writable extension.
use vstd::prelude::*;

use crate::reg::Reg32;

verus! {

/// The bytes of `m` with `data` written from offset `pos` on.
pub open spec fn spliced(m: Seq<u8>, pos: int, data: Seq<u8>) -> Seq<u8> {
    m.subrange(0, pos) + data + m.subrange(pos + data.len(), m.len() as int)
}

/// Readable linear memory.
pub trait Memory {
    type Register: Reg32;

    /// The bytes of the memory, offset 0 first.
    spec fn contents(&self) -> Seq<u8>;

    /// Memory length, saturated at `u32::MAX`.
    fn length(&self) -> (r: Self::Register)
        ensures
            r.view32() == if self.contents().len() <= u32::MAX {
                self.contents().len() as u32
            } else {
                u32::MAX
            },
    ;

    /// The `length` bytes from offset `pos` on.
    fn load(&self, pos: Self::Register, length: u8) -> (r: &[u8])
        requires
            pos.view32() + length <= self.contents().len(),
        ensures
            r@ == self.contents().subrange(pos.view32() as int, pos.view32() + length),
    ;
}

/// Writable linear memory.
pub trait MemoryMut: Memory {
    /// Copies `data` into memory from offset `pos` on.
    fn store(&mut self, pos: Self::Register, data: &[u8])
        requires
            pos.view32() + data@.len() <= old(self).contents().len(),
        ensures
            final(self).contents() == spliced(old(self).contents(), pos.view32() as int, data@),
    ;
}

impl<const N: usize> Memory for [u8; N] {
    type Register = u32;

    open spec fn contents(&self) -> Seq<u8> {
        self@
    }

    fn length(&self) -> (r: u32) {
        if N > u32::MAX as usize {
            u32::MAX
        } else {
            N as u32
        }
    }

    fn load(&self, pos: u32, length: u8) -> (r: &[u8]) {
        let pos = pos as usize;
        let end = pos + length as usize;
        &self[pos..end]
    }
}

impl<const N: usize> MemoryMut for [u8; N] {
    fn store(&mut self, pos: u32, data: &[u8]) {
        let start = pos as usize;
        let ghost before = self@;
        let mut i: usize = 0;
        while i < data.len()
            invariant
                start + data@.len() <= before.len(),
                self@.len() == before.len(),
                i <= data@.len(),
                forall|k: int| 0 <= k < start ==> self@[k] == before[k],
                forall|k: int| 0 <= k < i ==> self@[start + k] == data@[k],
                forall|k: int| start + i <= k < before.len() ==> self@[k] == before[k],
            decreases data@.len() - i,
        {
            self[start + i] = data[i];
            i = i + 1;
        }
        assert(self@ =~= spliced(before, start as int, data@));
    }
}

} // verus!
