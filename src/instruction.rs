//! The interpreter capability: decode a word, execute it against machine state.
use vstd::prelude::*;

use crate::error::Error;
use crate::memory::{Memory, MemoryMut};
use crate::reg::Reg32;

verus! {

/// Number of general-purpose registers.
pub const REGISTER_NUMBER: usize = 32;

/// Architectural state as the RV32 semantics sees it.
pub struct MachineState {
    pub pc: u32,
    pub regs: Seq<u32>,
    pub mem: Seq<u8>,
}

/// The 32-bit values that a register file reads as.
pub open spec fn regs_view<R: Reg32>(regs: Seq<R>) -> Seq<u32> {
    regs.map_values(|r: R| r.view32())
}

/// The state held by a program counter, a register file and a memory.
pub open spec fn state_of<R: Reg32, M: Memory>(pc: R, regs: Seq<R>, memory: M) -> MachineState {
    MachineState { pc: pc.view32(), regs: regs_view(regs), mem: memory.contents() }
}

/// An instruction interpreter: decodes bytes into an instruction and executes it.
pub trait Instruction: Sized {
    /// Register type, usually u32 or u64.
    type Register: Reg32 + Copy;

    /// What decoding `bytes` yields.
    spec fn decoded(bytes: Seq<u8>) -> Result<Self, Error>;

    /// Whether every memory access of this instruction from state `s` lies inside memory.
    spec fn fits(&self, s: MachineState) -> bool;

    /// The state after this instruction retires from `s`, or the error that stops it.
    spec fn step(&self, s: MachineState) -> Result<MachineState, Error>;

    fn new(bytes: &[u8]) -> (r: Result<Self, Error>)
        ensures
            r == Self::decoded(bytes@),
    ;

    /// Tells whether `fits` holds for the given registers and memory.
    fn in_bounds<M>(&self, pc: &Self::Register, regs: &[Self::Register], memory: &M) -> (r: bool) where
        M: Memory<Register = Self::Register>,

        requires
            regs@.len() == REGISTER_NUMBER,
        ensures
            r == self.fits(state_of(*pc, regs@, *memory)),
    ;

    /// Execute an instruction. On an error nothing is changed.
    fn execute<M>(
        &mut self,
        pc: &mut Self::Register,
        regs: &mut [Self::Register],
        memory: &mut M,
    ) -> (r: Result<(), Error>) where M: Memory<Register = Self::Register> + MemoryMut,

        requires
            old(regs)@.len() == REGISTER_NUMBER,
            old(self).fits(state_of(*old(pc), old(regs)@, *old(memory))),
        ensures
            final(regs)@.len() == REGISTER_NUMBER,
            r is Ok ==> regs_view(final(regs)@)[0] == 0,
            match old(self).step(state_of(*old(pc), old(regs)@, *old(memory))) {
                Ok(s) => r is Ok && state_of(*final(pc), final(regs)@, *final(memory)) == s,
                Err(e) => r == Err::<(), Error>(e) && state_of(*final(pc), final(regs)@, *final(memory))
                    == state_of(*old(pc), old(regs)@, *old(memory)),
            },
    ;
}

/// The terminal interpreter of an extension chain: it decodes every word and
/// executes none.
impl Instruction for () {
    type Register = u32;

    open spec fn decoded(bytes: Seq<u8>) -> Result<Self, Error> {
        Ok(())
    }

    open spec fn fits(&self, s: MachineState) -> bool {
        true
    }

    open spec fn step(&self, s: MachineState) -> Result<MachineState, Error> {
        Err(Error::ErrFailedDeocdeInstructon)
    }

    fn new(_bytes: &[u8]) -> (r: Result<Self, Error>) {
        Ok(())
    }

    fn in_bounds<M>(&self, _pc: &u32, _regs: &[u32], _memory: &M) -> (r: bool) where
        M: Memory<Register = u32>,
     {
        true
    }

    fn execute<M>(&mut self, _pc: &mut u32, _regs: &mut [u32], _memory: &mut M) -> (r: Result<(), Error>) where
        M: Memory<Register = u32> + MemoryMut,
     {
        Err(Error::ErrFailedDeocdeInstructon)
    }
}

} // verus!
