//! Format wrappers: each exposes only the fields that its instruction format defines.
use vstd::prelude::*;

use crate::inst::{
    encode_b, encode_i, encode_j, encode_r, encode_s, encode_u, funct3_of, funct7_of, imm_b_of,
    imm_i_of, imm_j_of, imm_s_of, imm_u_of, le_word, opcode_of, rd_of, rs1_of, rs2_of, sext12,
    sext13, sext21, Inst,
};

verus! {

/// `U` format: rd and a 20-bit upper immediate (LUI, AUIPC).
#[derive(Clone, Copy, Debug, PartialEq, Eq, Structural)]
pub struct InstU(pub Inst);

impl From<Inst> for InstU {
    fn from(value: Inst) -> (r: Self)
        ensures
            r.word() == value.word(),
    {
        Self(value)
    }
}

impl vstd::std_specs::convert::FromSpecImpl<Inst> for InstU {
    open spec fn obeys_from_spec() -> bool {
        true
    }

    open spec fn from_spec(v: Inst) -> Self {
        InstU(v)
    }
}

impl InstU {
    /// The instruction word.
    pub open spec fn word(&self) -> u32 {
        self.0.word()
    }

    pub fn new(inst: [u8; 4]) -> (r: Self)
        ensures
            r.word() == le_word(inst[0], inst[1], inst[2], inst[3]),
    {
        Self(Inst::new(inst))
    }

    pub fn inst(&self) -> (r: &Inst)
        ensures
            r.word() == self.word(),
    {
        &self.0
    }

    pub fn opcode(&self) -> (r: u8)
        ensures
            r == opcode_of(self.word()),
    {
        self.0.opcode()
    }

    pub fn rd(&self) -> (r: usize)
        ensures
            r == rd_of(self.word()),
            r < 32,
    {
        self.0.rd()
    }

    pub fn imm(&self) -> (r: u32)
        ensures
            r == imm_u_of(self.word()),
    {
        self.0.imm_u()
    }

    /// The U-immediate read as a signed value.
    pub fn imm_symbol(&self) -> (r: i32)
        ensures
            r == imm_u_of(self.word()) as i32,
    {
        self.0.imm_u() as i32
    }

    /// The word assembled back from the fields of this format.
    pub fn encode(&self) -> (r: u32)
        ensures
            r == encode_u(opcode_of(self.word()), rd_of(self.word()), imm_u_of(self.word())),
    {
        (self.opcode() as u32) | ((self.rd() as u32) << 7u32) | (self.imm() & 0xFFFF_F000)
    }
}

/// `J` format: rd and a 21-bit jump offset (JAL).
#[derive(Clone, Copy, Debug, PartialEq, Eq, Structural)]
pub struct InstJ(pub Inst);

impl From<Inst> for InstJ {
    fn from(value: Inst) -> (r: Self)
        ensures
            r.word() == value.word(),
    {
        Self(value)
    }
}

impl vstd::std_specs::convert::FromSpecImpl<Inst> for InstJ {
    open spec fn obeys_from_spec() -> bool {
        true
    }

    open spec fn from_spec(v: Inst) -> Self {
        InstJ(v)
    }
}

impl InstJ {
    /// The instruction word.
    pub open spec fn word(&self) -> u32 {
        self.0.word()
    }

    pub fn new(inst: [u8; 4]) -> (r: Self)
        ensures
            r.word() == le_word(inst[0], inst[1], inst[2], inst[3]),
    {
        Self(Inst::new(inst))
    }

    pub fn inst(&self) -> (r: &Inst)
        ensures
            r.word() == self.word(),
    {
        &self.0
    }

    pub fn opcode(&self) -> (r: u8)
        ensures
            r == opcode_of(self.word()),
    {
        self.0.opcode()
    }

    pub fn rd(&self) -> (r: usize)
        ensures
            r == rd_of(self.word()),
            r < 32,
    {
        self.0.rd()
    }

    pub fn imm(&self) -> (r: u32)
        ensures
            r == imm_j_of(self.word()),
    {
        self.0.imm_uj()
    }

    pub fn imm_symbol(&self) -> (r: i32)
        ensures
            r == sext21(imm_j_of(self.word())) as i32,
    {
        self.0.imm_uj_symbol()
    }

    /// The word assembled back from the fields of this format.
    pub fn encode(&self) -> (r: u32)
        ensures
            r == encode_j(opcode_of(self.word()), rd_of(self.word()), imm_j_of(self.word())),
    {
        let imm = self.imm();
        (self.opcode() as u32) | ((self.rd() as u32) << 7u32) | (imm & 0xF_F000)
            | (((imm >> 11u32) & 1) << 20u32) | (((imm >> 1u32) & 0x3ff) << 21u32)
            | (((imm >> 20u32) & 1) << 31u32)
    }
}

/// `I` format: rd, rs1, funct3 and a 12-bit immediate (loads, OP-IMM, JALR, SYSTEM).
#[derive(Clone, Copy, Debug, PartialEq, Eq, Structural)]
pub struct InstI(pub Inst);

impl From<Inst> for InstI {
    fn from(value: Inst) -> (r: Self)
        ensures
            r.word() == value.word(),
    {
        Self(value)
    }
}

impl vstd::std_specs::convert::FromSpecImpl<Inst> for InstI {
    open spec fn obeys_from_spec() -> bool {
        true
    }

    open spec fn from_spec(v: Inst) -> Self {
        InstI(v)
    }
}

impl InstI {
    /// The instruction word.
    pub open spec fn word(&self) -> u32 {
        self.0.word()
    }

    pub fn new(inst: [u8; 4]) -> (r: Self)
        ensures
            r.word() == le_word(inst[0], inst[1], inst[2], inst[3]),
    {
        Self(Inst::new(inst))
    }

    pub fn inst(&self) -> (r: &Inst)
        ensures
            r.word() == self.word(),
    {
        &self.0
    }

    pub fn opcode(&self) -> (r: u8)
        ensures
            r == opcode_of(self.word()),
    {
        self.0.opcode()
    }

    pub fn rd(&self) -> (r: usize)
        ensures
            r == rd_of(self.word()),
            r < 32,
    {
        self.0.rd()
    }

    pub fn funct3(&self) -> (r: u8)
        ensures
            r == funct3_of(self.word()),
            r < 8,
    {
        self.0.funct3()
    }

    pub fn rs1(&self) -> (r: usize)
        ensures
            r == rs1_of(self.word()),
            r < 32,
    {
        self.0.rs1()
    }

    pub fn imm(&self) -> (r: u32)
        ensures
            r == imm_i_of(self.word()),
    {
        self.0.imm_i()
    }

    pub fn imm_symbol(&self) -> (r: i32)
        ensures
            r == sext12(imm_i_of(self.word())) as i32,
    {
        self.0.imm_i_symbol()
    }

    /// The word assembled back from the fields of this format.
    pub fn encode(&self) -> (r: u32)
        ensures
            r == encode_i(
                opcode_of(self.word()),
                rd_of(self.word()),
                funct3_of(self.word()),
                rs1_of(self.word()),
                imm_i_of(self.word()),
            ),
    {
        (self.opcode() as u32) | ((self.rd() as u32) << 7u32) | ((self.funct3() as u32) << 12u32)
            | ((self.rs1() as u32) << 15u32) | (self.imm() << 20u32)
    }
}

/// `S` format: rs1, rs2, funct3 and a 12-bit immediate (stores).
#[derive(Clone, Copy, Debug, PartialEq, Eq, Structural)]
pub struct InstS(pub Inst);

impl From<Inst> for InstS {
    fn from(value: Inst) -> (r: Self)
        ensures
            r.word() == value.word(),
    {
        Self(value)
    }
}

impl vstd::std_specs::convert::FromSpecImpl<Inst> for InstS {
    open spec fn obeys_from_spec() -> bool {
        true
    }

    open spec fn from_spec(v: Inst) -> Self {
        InstS(v)
    }
}

impl InstS {
    /// The instruction word.
    pub open spec fn word(&self) -> u32 {
        self.0.word()
    }

    pub fn new(inst: [u8; 4]) -> (r: Self)
        ensures
            r.word() == le_word(inst[0], inst[1], inst[2], inst[3]),
    {
        Self(Inst::new(inst))
    }

    pub fn inst(&self) -> (r: &Inst)
        ensures
            r.word() == self.word(),
    {
        &self.0
    }

    pub fn opcode(&self) -> (r: u8)
        ensures
            r == opcode_of(self.word()),
    {
        self.0.opcode()
    }

    pub fn funct3(&self) -> (r: u8)
        ensures
            r == funct3_of(self.word()),
            r < 8,
    {
        self.0.funct3()
    }

    pub fn rs1(&self) -> (r: usize)
        ensures
            r == rs1_of(self.word()),
            r < 32,
    {
        self.0.rs1()
    }

    pub fn rs2(&self) -> (r: usize)
        ensures
            r == rs2_of(self.word()),
            r < 32,
    {
        self.0.rs2()
    }

    pub fn imm(&self) -> (r: u32)
        ensures
            r == imm_s_of(self.word()),
    {
        self.0.imm_s()
    }

    pub fn imm_symbol(&self) -> (r: i32)
        ensures
            r == sext12(imm_s_of(self.word())) as i32,
    {
        self.0.imm_s_symbol()
    }

    /// The word assembled back from the fields of this format.
    pub fn encode(&self) -> (r: u32)
        ensures
            r == encode_s(
                opcode_of(self.word()),
                funct3_of(self.word()),
                rs1_of(self.word()),
                rs2_of(self.word()),
                imm_s_of(self.word()),
            ),
    {
        let imm = self.imm();
        (self.opcode() as u32) | ((imm & 0x1f) << 7u32) | ((self.funct3() as u32) << 12u32)
            | ((self.rs1() as u32) << 15u32) | ((self.rs2() as u32) << 20u32)
            | ((imm >> 5u32) << 25u32)
    }
}

/// `B` format: rs1, rs2, funct3 and a 13-bit branch offset (branches).
#[derive(Clone, Copy, Debug, PartialEq, Eq, Structural)]
pub struct InstB(pub Inst);

impl From<Inst> for InstB {
    fn from(value: Inst) -> (r: Self)
        ensures
            r.word() == value.word(),
    {
        Self(value)
    }
}

impl vstd::std_specs::convert::FromSpecImpl<Inst> for InstB {
    open spec fn obeys_from_spec() -> bool {
        true
    }

    open spec fn from_spec(v: Inst) -> Self {
        InstB(v)
    }
}

impl InstB {
    /// The instruction word.
    pub open spec fn word(&self) -> u32 {
        self.0.word()
    }

    pub fn new(inst: [u8; 4]) -> (r: Self)
        ensures
            r.word() == le_word(inst[0], inst[1], inst[2], inst[3]),
    {
        Self(Inst::new(inst))
    }

    pub fn inst(&self) -> (r: &Inst)
        ensures
            r.word() == self.word(),
    {
        &self.0
    }

    pub fn opcode(&self) -> (r: u8)
        ensures
            r == opcode_of(self.word()),
    {
        self.0.opcode()
    }

    pub fn funct3(&self) -> (r: u8)
        ensures
            r == funct3_of(self.word()),
            r < 8,
    {
        self.0.funct3()
    }

    pub fn rs1(&self) -> (r: usize)
        ensures
            r == rs1_of(self.word()),
            r < 32,
    {
        self.0.rs1()
    }

    pub fn rs2(&self) -> (r: usize)
        ensures
            r == rs2_of(self.word()),
            r < 32,
    {
        self.0.rs2()
    }

    pub fn imm(&self) -> (r: u32)
        ensures
            r == imm_b_of(self.word()),
    {
        self.0.imm_sb()
    }

    pub fn imm_symbol(&self) -> (r: i32)
        ensures
            r == sext13(imm_b_of(self.word())) as i32,
    {
        self.0.imm_sb_symbol()
    }

    /// The word assembled back from the fields of this format.
    pub fn encode(&self) -> (r: u32)
        ensures
            r == encode_b(
                opcode_of(self.word()),
                funct3_of(self.word()),
                rs1_of(self.word()),
                rs2_of(self.word()),
                imm_b_of(self.word()),
            ),
    {
        let imm = self.imm();
        (self.opcode() as u32) | (((imm >> 11u32) & 1) << 7u32) | (((imm >> 1u32) & 0xf) << 8u32)
            | ((self.funct3() as u32) << 12u32) | ((self.rs1() as u32) << 15u32)
            | ((self.rs2() as u32) << 20u32) | (((imm >> 5u32) & 0x3f) << 25u32)
            | (((imm >> 12u32) & 1) << 31u32)
    }
}

/// `R` format: rd, rs1, rs2, funct3 and funct7 (OP).
#[derive(Clone, Copy, Debug, PartialEq, Eq, Structural)]
pub struct InstR(pub Inst);

impl From<Inst> for InstR {
    fn from(value: Inst) -> (r: Self)
        ensures
            r.word() == value.word(),
    {
        Self(value)
    }
}

impl vstd::std_specs::convert::FromSpecImpl<Inst> for InstR {
    open spec fn obeys_from_spec() -> bool {
        true
    }

    open spec fn from_spec(v: Inst) -> Self {
        InstR(v)
    }
}

impl InstR {
    /// The instruction word.
    pub open spec fn word(&self) -> u32 {
        self.0.word()
    }

    pub fn new(inst: [u8; 4]) -> (r: Self)
        ensures
            r.word() == le_word(inst[0], inst[1], inst[2], inst[3]),
    {
        Self(Inst::new(inst))
    }

    pub fn inst(&self) -> (r: &Inst)
        ensures
            r.word() == self.word(),
    {
        &self.0
    }

    pub fn opcode(&self) -> (r: u8)
        ensures
            r == opcode_of(self.word()),
    {
        self.0.opcode()
    }

    pub fn rd(&self) -> (r: usize)
        ensures
            r == rd_of(self.word()),
            r < 32,
    {
        self.0.rd()
    }

    pub fn funct3(&self) -> (r: u8)
        ensures
            r == funct3_of(self.word()),
            r < 8,
    {
        self.0.funct3()
    }

    pub fn rs1(&self) -> (r: usize)
        ensures
            r == rs1_of(self.word()),
            r < 32,
    {
        self.0.rs1()
    }

    pub fn rs2(&self) -> (r: usize)
        ensures
            r == rs2_of(self.word()),
            r < 32,
    {
        self.0.rs2()
    }

    pub fn funct7(&self) -> (r: u8)
        ensures
            r == funct7_of(self.word()),
            r < 128,
    {
        self.0.funct7()
    }

    /// The word assembled back from the fields of this format.
    pub fn encode(&self) -> (r: u32)
        ensures
            r == encode_r(
                opcode_of(self.word()),
                rd_of(self.word()),
                funct3_of(self.word()),
                rs1_of(self.word()),
                rs2_of(self.word()),
                funct7_of(self.word()),
            ),
    {
        (self.opcode() as u32) | ((self.rd() as u32) << 7u32) | ((self.funct3() as u32) << 12u32)
            | ((self.rs1() as u32) << 15u32) | ((self.rs2() as u32) << 20u32)
            | ((self.funct7() as u32) << 25u32)
    }
}

} // verus!
