//! One tick of the driver loop: decode the fetched bytes, execute the instruction,
//! and say what the loop does next.
use vstd::prelude::*;

use crate::error::Error;
use crate::instruction::{state_of, Instruction, REGISTER_NUMBER};
use crate::memory::{Memory, MemoryMut};

verus! {

/// What the driver does after a tick.
pub enum Tick<I> {
    /// The instruction retired; the monitor observes it and the loop fetches again.
    Retired(I),
    /// Decoding or execution stopped with this error; the loop returns it.
    Stopped(Error),
    /// The instruction would access memory outside its range; nothing was executed.
    OutOfRange(I),
}

/// Decodes `bytes` and executes the instruction against the machine state.
pub fn tick<I, M>(bytes: &[u8], pc: &mut I::Register, regs: &mut [I::Register], memory: &mut M) -> (r:
    Tick<I>) where I: Instruction, M: Memory<Register = I::Register> + MemoryMut,

    requires
        old(regs)@.len() == REGISTER_NUMBER,
    ensures
        final(regs)@.len() == REGISTER_NUMBER,
        match I::decoded(bytes@) {
            Err(e) => r == Tick::<I>::Stopped(e),
            Ok(i) => if !i.fits(state_of(*old(pc), old(regs)@, *old(memory))) {
                r == Tick::<I>::OutOfRange(i)
            } else {
                match i.step(state_of(*old(pc), old(regs)@, *old(memory))) {
                    Ok(s) => r is Retired && state_of(*final(pc), final(regs)@, *final(memory))
                        == s,
                    Err(e) => r == Tick::<I>::Stopped(e),
                }
            },
        },
        !(r is Retired) ==> state_of(*final(pc), final(regs)@, *final(memory)) == state_of(
            *old(pc),
            old(regs)@,
            *old(memory),
        ),
{
    let mut inst = match I::new(bytes) {
        Ok(inst) => inst,
        Err(e) => {
            return Tick::Stopped(e);
        },
    };
    if !inst.in_bounds(pc, regs, memory) {
        return Tick::OutOfRange(inst);
    }
    match inst.execute(pc, regs, memory) {
        Ok(()) => Tick::Retired(inst),
        Err(e) => Tick::Stopped(e),
    }
}

} // verus!
