//! A single-layer RV32I interpreter over `u32` registers, without an extension
//! chain: words outside its table are reported as unsupported.
use vstd::prelude::*;

use crate::base::{
    decode_branch, decode_load, decode_op, decode_op_imm, decode_store, RV32iBaseInst,
};
use crate::error::Error;
use crate::execute::{self, AluOp};
use crate::format::{InstB, InstI, InstJ, InstR, InstS, InstU};
use crate::inst::{le_word, opcode_of, Inst};
use crate::instruction::{regs_view, state_of, Instruction, MachineState, REGISTER_NUMBER};
use crate::memory::{Memory, MemoryMut};

verus! {

/// A `u32` register file reads as itself.
pub proof fn lemma_regs_view_u32(regs: Seq<u32>)
    ensures
        regs_view(regs) == regs,
{
    assert(regs_view(regs) =~= regs);
}

/// The state of a program counter and register file, with no memory.
pub open spec fn core_state(pc: u32, regs: Seq<u32>) -> MachineState {
    MachineState { pc, regs, mem: Seq::empty() }
}

/// `Ok` of the instruction, or `UnsupportFunct3` when funct3 selects none.
pub open spec fn or_unsupported_funct3(k: Option<RV32iBaseInst<()>>) -> Result<
    RV32iBaseInst<()>,
    Error,
> {
    match k {
        Some(k) => Ok(k),
        None => Err(Error::UnsupportFunct3),
    }
}

/// What a single-layer interpreter runs for a word: the base-set instruction, or the
/// error that it reports. JALR is taken whatever its funct3; SYSTEM is not supported.
pub open spec fn lite_decode(w: u32) -> Result<RV32iBaseInst<()>, Error> {
    let i = Inst { inst: w };
    let op = opcode_of(w);
    if op == 0x37 {
        Ok(RV32iBaseInst::Lui(InstU(i)))
    } else if op == 0x17 {
        Ok(RV32iBaseInst::Auipc(InstU(i)))
    } else if op == 0x6f {
        Ok(RV32iBaseInst::Jal(InstJ(i)))
    } else if op == 0x67 {
        Ok(RV32iBaseInst::Jalr(InstI(i)))
    } else if op == 0x63 {
        or_unsupported_funct3(decode_branch(i))
    } else if op == 0x03 {
        or_unsupported_funct3(decode_load(i))
    } else if op == 0x23 {
        or_unsupported_funct3(decode_store(i))
    } else if op == 0x13 {
        or_unsupported_funct3(decode_op_imm(i))
    } else if op == 0x33 {
        or_unsupported_funct3(decode_op(i))
    } else {
        Err(Error::UnsupportOpcode)
    }
}

/// Instruction for lite of RISC-V 32i: one word and the memory it runs against.
///
/// These instructions include no CSR and FENCE.
pub struct RiscV32iLiteInstruction<'a, M> {
    pub inst: [u8; 4],
    pub memory: &'a mut M,
}

impl<'a, M> RiscV32iLiteInstruction<'a, M> {
    /// The instruction word.
    pub open spec fn word(&self) -> u32 {
        le_word(self.inst[0], self.inst[1], self.inst[2], self.inst[3])
    }

    /// The instruction word as a bit-field view.
    pub open spec fn view_inst(&self) -> Inst {
        Inst { inst: self.word() }
    }

    pub fn new(inst: [u8; 4], memory: &'a mut M) -> (r: Self)
        ensures
            r.inst == inst,
            *r.memory == *old(memory),
            *final(r.memory) == *final(memory),
    {
        Self { inst, memory }
    }

    fn clear_x0(&self, regs: &mut [u32])
        requires
            old(regs)@.len() == REGISTER_NUMBER,
        ensures
            final(regs)@ == old(regs)@.update(0, 0),
    {
        regs[0] = 0;
    }

    fn next_inst(&self, pc: &mut u32)
        ensures
            *final(pc) == old(pc).wrapping_add(4),
    {
        *pc = pc.wrapping_add(4);
    }

    pub fn lui(self, pc: &mut u32, regs: &mut [u32])
        requires
            old(regs)@.len() == REGISTER_NUMBER,
        ensures
            final(regs)@.len() == REGISTER_NUMBER,
            core_state(*final(pc), final(regs)@) == RV32iBaseInst::<()>::Lui(
                InstU(self.view_inst()),
            ).step(core_state(*old(pc), old(regs)@))->Ok_0,
            *final(self.memory) == *old(self.memory),
    {
        let inst = InstU(Inst::new(self.inst));
        execute::lui(&inst, pc, regs);
        proof {
            lemma_regs_view_u32(regs@);
        }
        self.clear_x0(regs);
        proof {
            lemma_regs_view_u32(old(regs)@);
            lemma_regs_view_u32(regs@);
        }
    }

    pub fn auipc(self, pc: &mut u32, regs: &mut [u32])
        requires
            old(regs)@.len() == REGISTER_NUMBER,
        ensures
            final(regs)@.len() == REGISTER_NUMBER,
            core_state(*final(pc), final(regs)@) == RV32iBaseInst::<()>::Auipc(
                InstU(self.view_inst()),
            ).step(core_state(*old(pc), old(regs)@))->Ok_0,
            *final(self.memory) == *old(self.memory),
    {
        let inst = InstU(Inst::new(self.inst));
        execute::auipc(&inst, pc, regs);
        proof {
            lemma_regs_view_u32(regs@);
        }
        self.clear_x0(regs);
        proof {
            lemma_regs_view_u32(old(regs)@);
            lemma_regs_view_u32(regs@);
        }
    }

    pub fn jal(self, pc: &mut u32, regs: &mut [u32])
        requires
            old(regs)@.len() == REGISTER_NUMBER,
        ensures
            final(regs)@.len() == REGISTER_NUMBER,
            core_state(*final(pc), final(regs)@) == RV32iBaseInst::<()>::Jal(
                InstJ(self.view_inst()),
            ).step(core_state(*old(pc), old(regs)@))->Ok_0,
            *final(self.memory) == *old(self.memory),
    {
        let inst = InstJ(Inst::new(self.inst));
        execute::jal(&inst, pc, regs);
        proof {
            lemma_regs_view_u32(regs@);
        }
        self.clear_x0(regs);
        proof {
            lemma_regs_view_u32(old(regs)@);
            lemma_regs_view_u32(regs@);
        }
    }

    pub fn jalr(self, pc: &mut u32, regs: &mut [u32])
        requires
            old(regs)@.len() == REGISTER_NUMBER,
        ensures
            final(regs)@.len() == REGISTER_NUMBER,
            core_state(*final(pc), final(regs)@) == RV32iBaseInst::<()>::Jalr(
                InstI(self.view_inst()),
            ).step(core_state(*old(pc), old(regs)@))->Ok_0,
            *final(self.memory) == *old(self.memory),
    {
        let inst = InstI(Inst::new(self.inst));
        execute::jalr(&inst, pc, regs);
        proof {
            lemma_regs_view_u32(regs@);
        }
        self.clear_x0(regs);
        proof {
            lemma_regs_view_u32(old(regs)@);
            lemma_regs_view_u32(regs@);
        }
    }

    /// Branches; funct3 selects the comparison.
    pub fn bset(self, pc: &mut u32, regs: &[u32]) -> (r: Result<(), Error>)
        requires
            regs@.len() == REGISTER_NUMBER,
        ensures
            match decode_branch::<()>(self.view_inst()) {
                Some(k) => r is Ok && *final(pc) == k.step(core_state(*old(pc), regs@))->Ok_0.pc,
                None => r == Err::<(), Error>(Error::UnsupportFunct3) && *final(pc) == *old(pc),
            },
            *final(self.memory) == *old(self.memory),
    {
        let inst = Inst::new(self.inst);
        let b = InstB(inst);
        proof {
            lemma_regs_view_u32(regs@);
        }
        match inst.funct3() {
            0b000 => execute::beq(&b, pc, regs),
            0b001 => execute::bne(&b, pc, regs),
            0b100 => execute::blt(&b, pc, regs),
            0b101 => execute::bge(&b, pc, regs),
            0b110 => execute::bltu(&b, pc, regs),
            0b111 => execute::bgeu(&b, pc, regs),
            _ => {
                return Err(Error::UnsupportFunct3);
            },
        }
        Ok(())
    }

    /// Loads; funct3 selects width and extension.
    pub fn lset(self, pc: &mut u32, regs: &mut [u32]) -> (r: Result<(), Error>) where
        M: Memory<Register = u32>,

        requires
            old(regs)@.len() == REGISTER_NUMBER,
            decode_load::<()>(self.view_inst()) matches Some(k) ==> k.fits(
                state_of(*old(pc), old(regs)@, *old(self.memory)),
            ),
        ensures
            final(regs)@.len() == REGISTER_NUMBER,
            match decode_load::<()>(self.view_inst()) {
                Some(k) => r is Ok && state_of(*final(pc), final(regs)@, *old(self.memory)) == k.step(
                    state_of(*old(pc), old(regs)@, *old(self.memory)),
                )->Ok_0,
                None => r == Err::<(), Error>(Error::UnsupportFunct3) && *final(pc) == *old(pc)
                    && final(regs)@ == old(regs)@,
            },
            *final(self.memory) == *old(self.memory),
    {
        let inst = Inst::new(self.inst);
        let i = InstI(inst);
        let memory: &M = self.memory;
        match inst.funct3() {
            0b000 => execute::lb(&i, pc, regs, memory),
            0b001 => execute::lh(&i, pc, regs, memory),
            0b010 => execute::lw(&i, pc, regs, memory),
            0b100 => execute::lbu(&i, pc, regs, memory),
            0b101 => execute::lhu(&i, pc, regs, memory),
            _ => {
                return Err(Error::UnsupportFunct3);
            },
        }
        execute::clear_x0(regs);
        Ok(())
    }

    /// Stores; funct3 selects the width.
    pub fn sset(self, pc: &mut u32, regs: &mut [u32]) -> (r: Result<(), Error>) where
        M: Memory<Register = u32> + MemoryMut,

        requires
            old(regs)@.len() == REGISTER_NUMBER,
            decode_store::<()>(self.view_inst()) matches Some(k) ==> k.fits(
                state_of(*old(pc), old(regs)@, *old(self.memory)),
            ),
        ensures
            final(regs)@.len() == REGISTER_NUMBER,
            match decode_store::<()>(self.view_inst()) {
                Some(k) => r is Ok && state_of(*final(pc), final(regs)@, *final(self.memory))
                    == k.step(state_of(*old(pc), old(regs)@, *old(self.memory)))->Ok_0,
                None => r == Err::<(), Error>(Error::UnsupportFunct3) && *final(pc) == *old(pc)
                    && final(regs)@ == old(regs)@ && *final(self.memory) == *old(self.memory),
            },
    {
        let inst = Inst::new(self.inst);
        let s = InstS(inst);
        match inst.funct3() {
            0b000 => execute::sb(&s, pc, regs, self.memory),
            0b001 => execute::sh(&s, pc, regs, self.memory),
            0b010 => execute::sw(&s, pc, regs, self.memory),
            _ => {
                return Err(Error::UnsupportFunct3);
            },
        }
        execute::clear_x0(regs);
        Ok(())
    }

    /// OP-IMM; funct3 (and for shifts funct7 and immediate bit 10) selects the operation.
    pub fn iset(self, pc: &mut u32, regs: &mut [u32]) -> (r: Result<(), Error>)
        requires
            old(regs)@.len() == REGISTER_NUMBER,
        ensures
            final(regs)@.len() == REGISTER_NUMBER,
            match decode_op_imm::<()>(self.view_inst()) {
                Some(k) => r is Ok && core_state(*final(pc), final(regs)@) == k.step(
                    core_state(*old(pc), old(regs)@),
                )->Ok_0,
                None => r == Err::<(), Error>(Error::UnsupportFunct3) && *final(pc) == *old(pc)
                    && final(regs)@ == old(regs)@,
            },
            *final(self.memory) == *old(self.memory),
    {
        let inst = Inst::new(self.inst);
        let i = InstI(inst);
        let op = match inst.funct3() {
            0b000 => AluOp::Add,
            0b010 => AluOp::Slt,
            0b011 => AluOp::Sltu,
            0b100 => AluOp::Xor,
            0b110 => AluOp::Or,
            0b111 => AluOp::And,
            0b001 => {
                if inst.funct7() != 0 {
                    return Err(Error::UnsupportFunct3);
                }
                AluOp::Sll
            },
            _ => if inst.imm_i() & 0x400 == 0 {
                AluOp::Srl
            } else {
                AluOp::Sra
            },
        };
        execute::op_imm(&i, op, pc, regs);
        proof {
            lemma_regs_view_u32(regs@);
        }
        execute::clear_x0(regs);
        proof {
            lemma_regs_view_u32(old(regs)@);
            lemma_regs_view_u32(regs@);
        }
        Ok(())
    }

    /// OP; funct3 and funct7 select the operation.
    pub fn opset(self, pc: &mut u32, regs: &mut [u32]) -> (r: Result<(), Error>)
        requires
            old(regs)@.len() == REGISTER_NUMBER,
        ensures
            final(regs)@.len() == REGISTER_NUMBER,
            match decode_op::<()>(self.view_inst()) {
                Some(k) => r is Ok && core_state(*final(pc), final(regs)@) == k.step(
                    core_state(*old(pc), old(regs)@),
                )->Ok_0,
                None => r == Err::<(), Error>(Error::UnsupportFunct3) && *final(pc) == *old(pc)
                    && final(regs)@ == old(regs)@,
            },
            *final(self.memory) == *old(self.memory),
    {
        let inst = Inst::new(self.inst);
        let i = InstR(inst);
        let alt = inst.funct7() != 0;
        let op = match inst.funct3() {
            0b000 => if alt {
                AluOp::Sub
            } else {
                AluOp::Add
            },
            0b101 => if alt {
                AluOp::Sra
            } else {
                AluOp::Srl
            },
            f3 => {
                if alt {
                    return Err(Error::UnsupportFunct3);
                }
                match f3 {
                    0b001 => AluOp::Sll,
                    0b010 => AluOp::Slt,
                    0b011 => AluOp::Sltu,
                    0b100 => AluOp::Xor,
                    0b110 => AluOp::Or,
                    _ => AluOp::And,
                }
            },
        };
        execute::op(&i, op, pc, regs);
        proof {
            lemma_regs_view_u32(regs@);
        }
        execute::clear_x0(regs);
        proof {
            lemma_regs_view_u32(old(regs)@);
            lemma_regs_view_u32(regs@);
        }
        Ok(())
    }

    /// Executes the word: the opcode selects the instruction class.
    pub fn execute(self, pc: &mut u32, regs: &mut [u32]) -> (r: Result<(), Error>) where
        M: Memory<Register = u32> + MemoryMut,

        requires
            old(regs)@.len() == REGISTER_NUMBER,
            lite_decode(self.word()) matches Ok(k) ==> k.fits(
                state_of(*old(pc), old(regs)@, *old(self.memory)),
            ),
        ensures
            final(regs)@.len() == REGISTER_NUMBER,
            match lite_decode(self.word()) {
                Ok(k) => r is Ok && state_of(*final(pc), final(regs)@, *final(self.memory))
                    == k.step(state_of(*old(pc), old(regs)@, *old(self.memory)))->Ok_0,
                Err(e) => r == Err::<(), Error>(e) && *final(pc) == *old(pc) && final(regs)@
                    == old(regs)@ && *final(self.memory) == *old(self.memory),
            },
    {
        let b0 = self.inst[0];
        let opcode = b0 & 0x7f;
        proof {
            let (b1, b2, b3) = (self.inst[1], self.inst[2], self.inst[3]);
            assert(opcode_of(le_word(b0, b1, b2, b3)) == (b0 & 0x7f) as u32) by (bit_vector);
            lemma_regs_view_u32(old(regs)@);
        }
        match opcode {
            0b0110111 => self.lui(pc, regs),
            0b0010111 => self.auipc(pc, regs),
            0b1101111 => self.jal(pc, regs),
            0b1100111 => self.jalr(pc, regs),
            0b1100011 => {
                let r = self.bset(pc, regs);
                if r.is_err() {
                    return r;
                }
                execute::clear_x0(regs);
            },
            0b0000011 => self.lset(pc, regs)?,
            0b0100011 => self.sset(pc, regs)?,
            0b0010011 => self.iset(pc, regs)?,
            0b0110011 => self.opset(pc, regs)?,
            _ => {
                return Err(Error::UnsupportOpcode);
            },
        }
        proof {
            lemma_regs_view_u32(regs@);
        }
        Ok(())
    }
}

} // verus!
