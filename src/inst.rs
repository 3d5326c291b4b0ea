//! Bit-field view over a 32-bit RISC-V instruction word.
use vstd::prelude::*;

verus! {

/// The word held by four little-endian bytes.
pub open spec fn le_word(b0: u8, b1: u8, b2: u8, b3: u8) -> u32 {
    (b0 as u32) | ((b1 as u32) << 8u32) | ((b2 as u32) << 16u32) | ((b3 as u32) << 24u32)
}

pub open spec fn opcode_of(w: u32) -> u32 {
    w & 0x7f
}

pub open spec fn rd_of(w: u32) -> u32 {
    (w >> 7u32) & 0x1f
}

pub open spec fn funct3_of(w: u32) -> u32 {
    (w >> 12u32) & 0x7
}

pub open spec fn rs1_of(w: u32) -> u32 {
    (w >> 15u32) & 0x1f
}

pub open spec fn rs2_of(w: u32) -> u32 {
    (w >> 20u32) & 0x1f
}

pub open spec fn funct7_of(w: u32) -> u32 {
    w >> 25u32
}

/// U-immediate: bits 31:12 in place, bits 11:0 zero.
pub open spec fn imm_u_of(w: u32) -> u32 {
    w & 0xFFFF_F000
}

/// I-immediate: bits 31:20, zero-extended.
pub open spec fn imm_i_of(w: u32) -> u32 {
    w >> 20u32
}

/// S-immediate: bits 31:25 above bits 11:7, zero-extended.
pub open spec fn imm_s_of(w: u32) -> u32 {
    ((w >> 25u32) << 5u32) | ((w >> 7u32) & 0x1f)
}

/// B-immediate: bit 31 to 12, bit 7 to 11, bits 30:25 to 10:5, bits 11:8 to 4:1, bit 0 zero.
pub open spec fn imm_b_of(w: u32) -> u32 {
    (((w >> 31u32) & 1) << 12u32) | (((w >> 7u32) & 1) << 11u32) | (((w >> 25u32) & 0x3f)
        << 5u32) | (((w >> 8u32) & 0xf) << 1u32)
}

/// J-immediate: bit 31 to 20, bits 19:12 in place, bit 20 to 11, bits 30:21 to 10:1, bit 0 zero.
pub open spec fn imm_j_of(w: u32) -> u32 {
    (((w >> 31u32) & 1) << 20u32) | (w & 0xF_F000) | (((w >> 20u32) & 1) << 11u32) | (((w
        >> 21u32) & 0x3ff) << 1u32)
}

/// Two's-complement sign extension of an 8-bit value to 32 bits.
pub open spec fn sext8(x: u32) -> u32 {
    if x & 0x80 == 0 {
        x
    } else {
        x | 0xFFFF_FF00
    }
}

/// Two's-complement sign extension of a 12-bit value to 32 bits.
pub open spec fn sext12(x: u32) -> u32 {
    if x & 0x800 == 0 {
        x
    } else {
        x | 0xFFFF_F000
    }
}

/// Two's-complement sign extension of a 13-bit value to 32 bits.
pub open spec fn sext13(x: u32) -> u32 {
    if x & 0x1000 == 0 {
        x
    } else {
        x | 0xFFFF_E000
    }
}

/// Two's-complement sign extension of a 16-bit value to 32 bits.
pub open spec fn sext16(x: u32) -> u32 {
    if x & 0x8000 == 0 {
        x
    } else {
        x | 0xFFFF_0000
    }
}

/// Two's-complement sign extension of a 21-bit value to 32 bits.
pub open spec fn sext21(x: u32) -> u32 {
    if x & 0x10_0000 == 0 {
        x
    } else {
        x | 0xFFE0_0000
    }
}

/// R-format word assembled from its fields.
pub open spec fn encode_r(
    opcode: u32,
    rd: u32,
    funct3: u32,
    rs1: u32,
    rs2: u32,
    funct7: u32,
) -> u32 {
    opcode | (rd << 7u32) | (funct3 << 12u32) | (rs1 << 15u32) | (rs2 << 20u32) | (funct7 << 25u32)
}

/// I-format word assembled from its fields.
pub open spec fn encode_i(opcode: u32, rd: u32, funct3: u32, rs1: u32, imm: u32) -> u32 {
    opcode | (rd << 7u32) | (funct3 << 12u32) | (rs1 << 15u32) | (imm << 20u32)
}

/// S-format word assembled from its fields.
pub open spec fn encode_s(opcode: u32, funct3: u32, rs1: u32, rs2: u32, imm: u32) -> u32 {
    opcode | ((imm & 0x1f) << 7u32) | (funct3 << 12u32) | (rs1 << 15u32) | (rs2 << 20u32) | ((imm
        >> 5u32) << 25u32)
}

/// B-format word assembled from its fields.
pub open spec fn encode_b(opcode: u32, funct3: u32, rs1: u32, rs2: u32, imm: u32) -> u32 {
    opcode | (((imm >> 11u32) & 1) << 7u32) | (((imm >> 1u32) & 0xf) << 8u32) | (funct3 << 12u32)
        | (rs1 << 15u32) | (rs2 << 20u32) | (((imm >> 5u32) & 0x3f) << 25u32) | (((imm >> 12u32)
        & 1) << 31u32)
}

/// U-format word assembled from its fields.
pub open spec fn encode_u(opcode: u32, rd: u32, imm: u32) -> u32 {
    opcode | (rd << 7u32) | (imm & 0xFFFF_F000)
}

/// J-format word assembled from its fields.
pub open spec fn encode_j(opcode: u32, rd: u32, imm: u32) -> u32 {
    opcode | (rd << 7u32) | (imm & 0xF_F000) | (((imm >> 11u32) & 1) << 20u32) | (((imm >> 1u32)
        & 0x3ff) << 21u32) | (((imm >> 20u32) & 1) << 31u32)
}

/// Reads four bytes as a little-endian word.
pub fn build_u32(bs: [u8; 4]) -> (r: u32)
    ensures
        r == le_word(bs[0], bs[1], bs[2], bs[3]),
{
    (bs[0] as u32) | ((bs[1] as u32) << 8u32) | ((bs[2] as u32) << 16u32) | ((bs[3] as u32)
        << 24u32)
}

/// A RISC-V instruction word; every field is computed from the word on demand.
#[derive(Clone, Copy, Debug, PartialEq, Eq, Structural)]
pub struct Inst {
    pub inst: u32,
}

impl Inst {
    /// The raw 32-bit word.
    pub open spec fn word(&self) -> u32 {
        self.inst
    }

    /// Builds the view over four little-endian bytes.
    pub fn new(inst: [u8; 4]) -> (r: Self)
        ensures
            r.word() == le_word(inst[0], inst[1], inst[2], inst[3]),
    {
        Self { inst: build_u32(inst) }
    }

    /// Builds the view over a word.
    pub fn from_word(inst: u32) -> (r: Self)
        ensures
            r.word() == inst,
    {
        Self { inst }
    }

    /// The raw 32-bit word.
    pub fn bits(&self) -> (r: u32)
        ensures
            r == self.word(),
    {
        self.inst
    }

    pub fn opcode(&self) -> (r: u8)
        ensures
            r == opcode_of(self.word()),
    {
        proof {
            let w = self.inst;
            assert(w & 0x7f < 0x80) by (bit_vector);
        }
        (self.inst & 0x7F) as u8
    }

    /// Read rd.
    pub fn rd(&self) -> (r: usize)
        ensures
            r == rd_of(self.word()),
            r < 32,
    {
        proof {
            let w = self.inst;
            assert((w & 0xF80) >> 7u32 == (w >> 7u32) & 0x1f && (w >> 7u32) & 0x1f < 32)
                by (bit_vector);
        }
        ((self.inst & 0xF80) >> 7) as usize
    }

    /// Read funct3.
    pub fn funct3(&self) -> (r: u8)
        ensures
            r == funct3_of(self.word()),
            r < 8,
    {
        proof {
            let w = self.inst;
            assert((w & 0x7000) >> 12u32 == (w >> 12u32) & 0x7 && (w >> 12u32) & 0x7 < 8)
                by (bit_vector);
        }
        ((self.inst & 0x7000) >> 12) as u8
    }

    /// Read funct7.
    pub fn funct7(&self) -> (r: u8)
        ensures
            r == funct7_of(self.word()),
            r < 128,
    {
        proof {
            let w = self.inst;
            assert((w & 0xFE00_0000) >> 25u32 == w >> 25u32 && w >> 25u32 < 128) by (bit_vector);
        }
        ((self.inst & 0xFE00_0000) >> 25) as u8
    }

    /// Read rs1.
    pub fn rs1(&self) -> (r: usize)
        ensures
            r == rs1_of(self.word()),
            r < 32,
    {
        proof {
            let w = self.inst;
            assert((w & 0xF_8000) >> 15u32 == (w >> 15u32) & 0x1f && (w >> 15u32) & 0x1f < 32)
                by (bit_vector);
        }
        ((self.inst & 0xF_8000) >> 15) as usize
    }

    /// Read rs2.
    pub fn rs2(&self) -> (r: usize)
        ensures
            r == rs2_of(self.word()),
            r < 32,
    {
        proof {
            let w = self.inst;
            assert((w & 0x1F0_0000) >> 20u32 == (w >> 20u32) & 0x1f && (w >> 20u32) & 0x1f < 32)
                by (bit_vector);
        }
        ((self.inst & 0x1F0_0000) >> 20) as usize
    }

    /// Read `U` type immediate value.
    pub fn imm_u(&self) -> (r: u32)
        ensures
            r == imm_u_of(self.word()),
    {
        self.inst & 0xFFFF_F000
    }

    /// Read `S` type immediate value.
    pub fn imm_s(&self) -> (r: u32)
        ensures
            r == imm_s_of(self.word()),
            r < 0x1000,
    {
        let w = self.inst;
        proof {
            assert(((w & 0xFE00_0000) >> 20u32) | ((w & 0xF80) >> 7u32) == imm_s_of(w)
                && imm_s_of(w) < 0x1000) by (bit_vector);
        }
        ((w & 0xFE00_0000) >> 20) | ((w & 0xF80) >> 7)
    }

    /// Read `S` type sign-extended immediate value.
    pub fn imm_s_symbol(&self) -> (r: i32)
        ensures
            r == sext12(imm_s_of(self.word())) as i32,
    {
        let w = self.inst;
        proof {
            assert((((w & 0xFE00_0000) as i32) >> 20u32) | (((w & 0xF80) >> 7u32) as i32)
                == sext12(imm_s_of(w)) as i32) by (bit_vector);
        }
        (((w & 0xFE00_0000) as i32) >> 20) | (((w & 0xF80) >> 7) as i32)
    }

    /// Read `B` type immediate value.
    pub fn imm_sb(&self) -> (r: u32)
        ensures
            r == imm_b_of(self.word()),
            r < 0x2000,
    {
        let w = self.inst;
        proof {
            assert(((w & 0x8000_0000) >> 19u32) | ((w & 0x7E00_0000) >> 20u32) | ((w & 0xF00)
                >> 7u32) | ((w & 0x80) << 4u32) == imm_b_of(w) && imm_b_of(w) < 0x2000)
                by (bit_vector);
        }
        ((w & 0x8000_0000) >> 19) | ((w & 0x7E00_0000) >> 20) | ((w & 0xF00) >> 7) | ((w & 0x80)
            << 4)
    }

    /// Read `B` type sign-extended immediate value.
    pub fn imm_sb_symbol(&self) -> (r: i32)
        ensures
            r == sext13(imm_b_of(self.word())) as i32,
    {
        let w = self.inst;
        proof {
            assert((((w & 0x8000_0000) as i32) >> 19u32) | (((w & 0x7E00_0000) >> 20u32) as i32)
                | (((w & 0xF00) >> 7u32) as i32) | (((w & 0x80) << 4u32) as i32) == sext13(
                imm_b_of(w),
            ) as i32) by (bit_vector);
        }
        (((w & 0x8000_0000) as i32) >> 19) | (((w & 0x7E00_0000) >> 20) as i32) | (((w & 0xF00)
            >> 7) as i32) | (((w & 0x80) << 4) as i32)
    }

    /// Read `I` type immediate value.
    pub fn imm_i(&self) -> (r: u32)
        ensures
            r == imm_i_of(self.word()),
            r < 0x1000,
    {
        let w = self.inst;
        proof {
            assert(w >> 20u32 < 0x1000) by (bit_vector);
        }
        w >> 20
    }

    /// Read `I` type sign-extended immediate value.
    pub fn imm_i_symbol(&self) -> (r: i32)
        ensures
            r == sext12(imm_i_of(self.word())) as i32,
    {
        let w = self.inst;
        proof {
            assert((w as i32) >> 20u32 == sext12(imm_i_of(w)) as i32) by (bit_vector);
        }
        (w as i32) >> 20
    }

    /// Read `J` type immediate value.
    pub fn imm_uj(&self) -> (r: u32)
        ensures
            r == imm_j_of(self.word()),
            r < 0x20_0000,
    {
        let w = self.inst;
        proof {
            assert(((w & 0x8000_0000) >> 11u32) | ((w & 0x10_0000) >> 9u32) | ((w & 0x7FE0_0000)
                >> 20u32) | (w & 0xF_F000) == imm_j_of(w) && imm_j_of(w) < 0x20_0000)
                by (bit_vector);
        }
        ((w & 0x8000_0000) >> 11) | ((w & 0x10_0000) >> 9) | ((w & 0x7FE0_0000) >> 20) | (w
            & 0xF_F000)
    }

    /// Read `J` type sign-extended immediate value.
    pub fn imm_uj_symbol(&self) -> (r: i32)
        ensures
            r == sext21(imm_j_of(self.word())) as i32,
    {
        let w = self.inst;
        proof {
            assert((((w & 0x8000_0000) as i32) >> 11u32) | (((w & 0x10_0000) >> 9u32) as i32) | (((w
                & 0x7FE0_0000) >> 20u32) as i32) | ((w & 0xF_F000) as i32) == sext21(imm_j_of(w))
                as i32) by (bit_vector);
        }
        (((w & 0x8000_0000) as i32) >> 11) | (((w & 0x10_0000) >> 9) as i32) | (((w & 0x7FE0_0000)
            >> 20) as i32) | ((w & 0xF_F000) as i32)
    }
}

} // verus!
