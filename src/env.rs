//! Environment-call layer: ECALL and EBREAK on top of a sub-interpreter.
use vstd::prelude::*;

use crate::error::Error;
use crate::inst::{funct3_of, imm_i_of, le_word, opcode_of, rd_of, rs1_of, Inst};
use crate::instruction::{Instruction, MachineState};
use crate::memory::{Memory, MemoryMut};

verus! {

/// The environment error that a word raises: `EnvironmentCall` for ECALL,
/// `Breakpoint` for EBREAK, none for any other word.
pub open spec fn env_error(w: u32) -> Option<Error> {
    if opcode_of(w) == 0x73 && funct3_of(w) == 0 && rd_of(w) == 0 && rs1_of(w) == 0 {
        if imm_i_of(w) == 0 {
            Some(Error::EnvironmentCall)
        } else if imm_i_of(w) == 1 {
            Some(Error::Breakpoint)
        } else {
            None
        }
    } else {
        None
    }
}

/// Instruction of the environment-call layer: it reports ECALL and EBREAK and
/// hands every other word to the sub-interpreter `I`.
pub struct RV32iEnvInst<I> {
    pub inst: Inst,
    pub sub: I,
}

impl<I: Instruction> RV32iEnvInst<I> {
    fn env(&self) -> (r: Option<Error>)
        ensures
            r == env_error(self.inst.word()),
    {
        if self.inst.opcode() == 0b1110011 {
            let rd = self.inst.rd();
            let funct3 = self.inst.funct3();
            let rs1 = self.inst.rs1();
            let imm = self.inst.imm_i();
            if rd == 0 && funct3 == 0 && rs1 == 0 && imm == 0 {
                Some(Error::EnvironmentCall)
            } else if rd == 0 && funct3 == 0 && rs1 == 0 && imm == 1 {
                Some(Error::Breakpoint)
            } else {
                None
            }
        } else {
            None
        }
    }
}

impl<I: Instruction> Instruction for RV32iEnvInst<I> {
    type Register = I::Register;

    open spec fn decoded(bytes: Seq<u8>) -> Result<Self, Error> {
        if bytes.len() < 4 {
            Err(Error::ErrBytecodeLengthNotEnough)
        } else {
            match I::decoded(bytes) {
                Ok(sub) => Ok(
                    RV32iEnvInst {
                        inst: Inst { inst: le_word(bytes[0], bytes[1], bytes[2], bytes[3]) },
                        sub,
                    },
                ),
                Err(e) => Err(e),
            }
        }
    }

    open spec fn fits(&self, s: MachineState) -> bool {
        env_error(self.inst.word()) is Some || self.sub.fits(s)
    }

    open spec fn step(&self, s: MachineState) -> Result<MachineState, Error> {
        match env_error(self.inst.word()) {
            Some(e) => Err(e),
            None => self.sub.step(s),
        }
    }

    fn new(bytes: &[u8]) -> (r: Result<Self, Error>) {
        if bytes.len() < 4 {
            return Err(Error::ErrBytecodeLengthNotEnough);
        }
        let inst = Inst::new([bytes[0], bytes[1], bytes[2], bytes[3]]);
        let sub = I::new(bytes)?;
        Ok(Self { inst, sub })
    }

    fn in_bounds<M>(&self, pc: &I::Register, regs: &[I::Register], memory: &M) -> (r: bool) where
        M: Memory<Register = I::Register>,
     {
        match self.env() {
            Some(_) => true,
            None => self.sub.in_bounds(pc, regs, memory),
        }
    }

    fn execute<M>(&mut self, pc: &mut I::Register, regs: &mut [I::Register], memory: &mut M) -> (r:
        Result<(), Error>) where M: Memory<Register = I::Register> + MemoryMut,
     {
        match self.env() {
            Some(e) => Err(e),
            None => self.sub.execute(pc, regs, memory),
        }
    }
}

} // verus!
