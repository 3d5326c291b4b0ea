//! A single-layer RV32I interpreter over `RiscVRegister` cells and a
//! read-only memory: words outside its table are reported as unsupported.
use vstd::prelude::*;

use crate::base::{decode_branch, decode_load, decode_op, decode_op_imm, RV32iBaseInst};
use crate::error::Error;
use crate::execute::{self, AluOp};
use crate::format::{InstB, InstI, InstJ, InstR, InstU};
use crate::inst::{le_word, opcode_of, Inst};
use crate::instruction::{regs_view, state_of, Instruction, MachineState, REGISTER_NUMBER};
use crate::lite::{core_state, or_unsupported_funct3};
use crate::memory::Memory;
use crate::reg::Reg32;

verus! {

/// A 32-bit register cell.
#[derive(Debug, Default, Clone, Copy, PartialEq, Eq, PartialOrd, Ord, Hash)]
pub struct RiscVRegister(pub u32);

impl core::ops::Deref for RiscVRegister {
    type Target = u32;

    fn deref(&self) -> (r: &u32)
        ensures
            *r == self.0,
    {
        &self.0
    }
}

impl RiscVRegister {
    /// The value read as a signed 32-bit integer.
    pub fn symbol(&self) -> (r: i32)
        ensures
            r == self.0 as i32,
    {
        self.0 as i32
    }
}

impl Reg32 for RiscVRegister {
    open spec fn view32(&self) -> u32 {
        self.0
    }

    fn reg32(&self) -> (r: u32) {
        self.0
    }

    fn set_reg32(&mut self, v: u32) {
        self.0 = v;
    }
}

/// A three-bit unsigned value.
#[derive(Debug, Clone, Copy, PartialEq, Eq, Structural)]
pub enum U3 {
    N0,
    N1,
    N2,
    N3,
    N4,
    N5,
    N6,
    N7,
}

impl U3 {
    /// The value as an integer.
    pub open spec fn value(self) -> u8 {
        match self {
            U3::N0 => 0,
            U3::N1 => 1,
            U3::N2 => 2,
            U3::N3 => 3,
            U3::N4 => 4,
            U3::N5 => 5,
            U3::N6 => 6,
            U3::N7 => 7,
        }
    }

    /// The variant of a value below 8.
    pub fn from_u8(value: u8) -> (r: Self)
        requires
            value < 8,
        ensures
            r.value() == value,
    {
        match value {
            0 => Self::N0,
            1 => Self::N1,
            2 => Self::N2,
            3 => Self::N3,
            4 => Self::N4,
            5 => Self::N5,
            6 => Self::N6,
            _ => Self::N7,
        }
    }
}

/// The state of a program counter and register file of `RiscVRegister` cells, with no memory.
pub open spec fn reg_state(pc: RiscVRegister, regs: Seq<RiscVRegister>) -> MachineState {
    core_state(pc.0, regs_view(regs))
}

/// What this interpreter runs for a word: the base-set instruction, or the error that
/// it reports. JALR is taken whatever its funct3; STORE and SYSTEM are not supported.
pub open spec fn core_decode(w: u32) -> Result<RV32iBaseInst<()>, Error> {
    let i = Inst { inst: w };
    let op = opcode_of(w);
    if op == 0x37 {
        Ok(RV32iBaseInst::Lui(InstU(i)))
    } else if op == 0x17 {
        Ok(RV32iBaseInst::Auipc(InstU(i)))
    } else if op == 0x6f {
        Ok(RV32iBaseInst::Jal(InstJ(i)))
    } else if op == 0x67 {
        Ok(RV32iBaseInst::Jalr(InstI(i)))
    } else if op == 0x63 {
        or_unsupported_funct3(decode_branch(i))
    } else if op == 0x03 {
        or_unsupported_funct3(decode_load(i))
    } else if op == 0x13 {
        or_unsupported_funct3(decode_op_imm(i))
    } else if op == 0x33 {
        or_unsupported_funct3(decode_op(i))
    } else {
        Err(Error::UnsupportOpcode)
    }
}

/// RISC-V 32i instruction over `RiscVRegister` cells: one word and the memory it
/// reads. It has no store path, as its memory is read-only.
pub struct RiscV32iInstruction<'a, M> {
    pub inst: [u8; 4],
    pub memory: &'a mut M,
}

impl<'a, M> RiscV32iInstruction<'a, M> {
    /// The instruction word.
    pub open spec fn word(&self) -> u32 {
        le_word(self.inst[0], self.inst[1], self.inst[2], self.inst[3])
    }

    /// The instruction word as a bit-field view.
    pub open spec fn view_inst(&self) -> Inst {
        Inst { inst: self.word() }
    }

    pub fn new(inst: [u8; 4], memory: &'a mut M) -> (r: Self)
        ensures
            r.inst == inst,
            *r.memory == *old(memory),
            *final(r.memory) == *final(memory),
    {
        Self { inst, memory }
    }

    fn clear_x0(&self, regs: &mut [RiscVRegister])
        requires
            old(regs)@.len() == REGISTER_NUMBER,
        ensures
            final(regs)@.len() == REGISTER_NUMBER,
            regs_view(final(regs)@) == regs_view(old(regs)@).update(0, 0),
    {
        execute::clear_x0(regs)
    }

    pub fn lui(self, pc: &mut RiscVRegister, regs: &mut [RiscVRegister])
        requires
            old(regs)@.len() == REGISTER_NUMBER,
        ensures
            final(regs)@.len() == REGISTER_NUMBER,
            reg_state(*final(pc), final(regs)@) == RV32iBaseInst::<()>::Lui(
                InstU(self.view_inst()),
            ).step(reg_state(*old(pc), old(regs)@))->Ok_0,
            *final(self.memory) == *old(self.memory),
    {
        let inst = InstU(Inst::new(self.inst));
        execute::lui(&inst, pc, regs);
        self.clear_x0(regs);
    }

    pub fn auipc(self, pc: &mut RiscVRegister, regs: &mut [RiscVRegister])
        requires
            old(regs)@.len() == REGISTER_NUMBER,
        ensures
            final(regs)@.len() == REGISTER_NUMBER,
            reg_state(*final(pc), final(regs)@) == RV32iBaseInst::<()>::Auipc(
                InstU(self.view_inst()),
            ).step(reg_state(*old(pc), old(regs)@))->Ok_0,
            *final(self.memory) == *old(self.memory),
    {
        let inst = InstU(Inst::new(self.inst));
        execute::auipc(&inst, pc, regs);
        self.clear_x0(regs);
    }

    pub fn jal(self, pc: &mut RiscVRegister, regs: &mut [RiscVRegister])
        requires
            old(regs)@.len() == REGISTER_NUMBER,
        ensures
            final(regs)@.len() == REGISTER_NUMBER,
            reg_state(*final(pc), final(regs)@) == RV32iBaseInst::<()>::Jal(
                InstJ(self.view_inst()),
            ).step(reg_state(*old(pc), old(regs)@))->Ok_0,
            *final(self.memory) == *old(self.memory),
    {
        let inst = InstJ(Inst::new(self.inst));
        execute::jal(&inst, pc, regs);
        self.clear_x0(regs);
    }

    pub fn jalr(self, pc: &mut RiscVRegister, regs: &mut [RiscVRegister])
        requires
            old(regs)@.len() == REGISTER_NUMBER,
        ensures
            final(regs)@.len() == REGISTER_NUMBER,
            reg_state(*final(pc), final(regs)@) == RV32iBaseInst::<()>::Jalr(
                InstI(self.view_inst()),
            ).step(reg_state(*old(pc), old(regs)@))->Ok_0,
            *final(self.memory) == *old(self.memory),
    {
        let inst = InstI(Inst::new(self.inst));
        execute::jalr(&inst, pc, regs);
        self.clear_x0(regs);
    }

    /// Branches; funct3 selects the comparison.
    pub fn bset(self, pc: &mut RiscVRegister, regs: &[RiscVRegister]) -> (r: Result<(), Error>)
        requires
            regs@.len() == REGISTER_NUMBER,
        ensures
            match decode_branch::<()>(self.view_inst()) {
                Some(k) => r is Ok && final(pc).0 == k.step(reg_state(*old(pc), regs@))->Ok_0.pc,
                None => r == Err::<(), Error>(Error::UnsupportFunct3) && *final(pc) == *old(pc),
            },
            *final(self.memory) == *old(self.memory),
    {
        let inst = Inst::new(self.inst);
        let b = InstB(inst);
        match inst.funct3() {
            0b000 => execute::beq(&b, pc, regs),
            0b001 => execute::bne(&b, pc, regs),
            0b100 => execute::blt(&b, pc, regs),
            0b101 => execute::bge(&b, pc, regs),
            0b110 => execute::bltu(&b, pc, regs),
            0b111 => execute::bgeu(&b, pc, regs),
            _ => {
                return Err(Error::UnsupportFunct3);
            },
        }
        Ok(())
    }

    /// Loads; funct3 selects width and extension.
    pub fn lset(self, pc: &mut RiscVRegister, regs: &mut [RiscVRegister]) -> (r: Result<(), Error>) where
        M: Memory<Register = RiscVRegister>,

        requires
            old(regs)@.len() == REGISTER_NUMBER,
            decode_load::<()>(self.view_inst()) matches Some(k) ==> k.fits(
                state_of(*old(pc), old(regs)@, *old(self.memory)),
            ),
        ensures
            final(regs)@.len() == REGISTER_NUMBER,
            match decode_load::<()>(self.view_inst()) {
                Some(k) => r is Ok && state_of(*final(pc), final(regs)@, *old(self.memory)) == k.step(
                    state_of(*old(pc), old(regs)@, *old(self.memory)),
                )->Ok_0,
                None => r == Err::<(), Error>(Error::UnsupportFunct3) && *final(pc) == *old(pc)
                    && final(regs)@ == old(regs)@,
            },
            *final(self.memory) == *old(self.memory),
    {
        let inst = Inst::new(self.inst);
        let i = InstI(inst);
        let memory: &M = self.memory;
        match inst.funct3() {
            0b000 => execute::lb(&i, pc, regs, memory),
            0b001 => execute::lh(&i, pc, regs, memory),
            0b010 => execute::lw(&i, pc, regs, memory),
            0b100 => execute::lbu(&i, pc, regs, memory),
            0b101 => execute::lhu(&i, pc, regs, memory),
            _ => {
                return Err(Error::UnsupportFunct3);
            },
        }
        execute::clear_x0(regs);
        Ok(())
    }

    /// OP-IMM; funct3 (and for shifts funct7 and immediate bit 10) selects the operation.
    pub fn iset(self, pc: &mut RiscVRegister, regs: &mut [RiscVRegister]) -> (r: Result<(), Error>)
        requires
            old(regs)@.len() == REGISTER_NUMBER,
        ensures
            final(regs)@.len() == REGISTER_NUMBER,
            match decode_op_imm::<()>(self.view_inst()) {
                Some(k) => r is Ok && reg_state(*final(pc), final(regs)@) == k.step(
                    reg_state(*old(pc), old(regs)@),
                )->Ok_0,
                None => r == Err::<(), Error>(Error::UnsupportFunct3) && *final(pc) == *old(pc)
                    && final(regs)@ == old(regs)@,
            },
            *final(self.memory) == *old(self.memory),
    {
        let inst = Inst::new(self.inst);
        let i = InstI(inst);
        let op = match inst.funct3() {
            0b000 => AluOp::Add,
            0b010 => AluOp::Slt,
            0b011 => AluOp::Sltu,
            0b100 => AluOp::Xor,
            0b110 => AluOp::Or,
            0b111 => AluOp::And,
            0b001 => {
                if inst.funct7() != 0 {
                    return Err(Error::UnsupportFunct3);
                }
                AluOp::Sll
            },
            _ => if inst.imm_i() & 0x400 == 0 {
                AluOp::Srl
            } else {
                AluOp::Sra
            },
        };
        execute::op_imm(&i, op, pc, regs);
        execute::clear_x0(regs);
        Ok(())
    }

    /// OP; funct3 and funct7 select the operation.
    pub fn opset(self, pc: &mut RiscVRegister, regs: &mut [RiscVRegister]) -> (r: Result<(), Error>)
        requires
            old(regs)@.len() == REGISTER_NUMBER,
        ensures
            final(regs)@.len() == REGISTER_NUMBER,
            match decode_op::<()>(self.view_inst()) {
                Some(k) => r is Ok && reg_state(*final(pc), final(regs)@) == k.step(
                    reg_state(*old(pc), old(regs)@),
                )->Ok_0,
                None => r == Err::<(), Error>(Error::UnsupportFunct3) && *final(pc) == *old(pc)
                    && final(regs)@ == old(regs)@,
            },
            *final(self.memory) == *old(self.memory),
    {
        let inst = Inst::new(self.inst);
        let i = InstR(inst);
        let alt = inst.funct7() != 0;
        let op = match inst.funct3() {
            0b000 => if alt {
                AluOp::Sub
            } else {
                AluOp::Add
            },
            0b101 => if alt {
                AluOp::Sra
            } else {
                AluOp::Srl
            },
            f3 => {
                if alt {
                    return Err(Error::UnsupportFunct3);
                }
                match f3 {
                    0b001 => AluOp::Sll,
                    0b010 => AluOp::Slt,
                    0b011 => AluOp::Sltu,
                    0b100 => AluOp::Xor,
                    0b110 => AluOp::Or,
                    _ => AluOp::And,
                }
            },
        };
        execute::op(&i, op, pc, regs);
        execute::clear_x0(regs);
        Ok(())
    }

    /// Executes the word: the opcode selects the instruction class.
    pub fn execute(self, pc: &mut RiscVRegister, regs: &mut [RiscVRegister]) -> (r: Result<(), Error>) where
        M: Memory<Register = RiscVRegister>,

        requires
            old(regs)@.len() == REGISTER_NUMBER,
            core_decode(self.word()) matches Ok(k) ==> k.fits(
                state_of(*old(pc), old(regs)@, *old(self.memory)),
            ),
        ensures
            final(regs)@.len() == REGISTER_NUMBER,
            match core_decode(self.word()) {
                Ok(k) => r is Ok && state_of(*final(pc), final(regs)@, *final(self.memory))
                    == k.step(state_of(*old(pc), old(regs)@, *old(self.memory)))->Ok_0,
                Err(e) => r == Err::<(), Error>(e) && *final(pc) == *old(pc) && final(regs)@
                    == old(regs)@ && *final(self.memory) == *old(self.memory),
            },
    {
        let b0 = self.inst[0];
        let opcode = b0 & 0x7f;
        proof {
            let (b1, b2, b3) = (self.inst[1], self.inst[2], self.inst[3]);
            assert(opcode_of(le_word(b0, b1, b2, b3)) == (b0 & 0x7f) as u32) by (bit_vector);
        }
        match opcode {
            0b0110111 => self.lui(pc, regs),
            0b0010111 => self.auipc(pc, regs),
            0b1101111 => self.jal(pc, regs),
            0b1100111 => self.jalr(pc, regs),
            0b1100011 => {
                let r = self.bset(pc, regs);
                if r.is_err() {
                    return r;
                }
                execute::clear_x0(regs);
            },
            0b0000011 => self.lset(pc, regs)?,
            0b0010011 => self.iset(pc, regs)?,
            0b0110011 => self.opset(pc, regs)?,
            _ => {
                return Err(Error::UnsupportOpcode);
            },
        }
        Ok(())
    }
}

} // verus!
