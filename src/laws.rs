//! Laws of the RV32I decoder and executor.
use vstd::prelude::*;

use crate::base::{byte_at, load_word, RV32iBaseInst};
use crate::execute::{access_fits, ea_i, ea_s, le_bytes, le_half};
use crate::format::{InstI, InstR, InstS};
use crate::inst::{
    encode_b, encode_i, encode_j, encode_r, encode_s, encode_u, funct3_of, funct7_of, imm_b_of,
    imm_i_of, imm_j_of, imm_s_of, imm_u_of, le_word, opcode_of, rd_of, rs1_of, rs2_of, sext12,
    sext16, sext8,
};
use crate::instruction::{Instruction, MachineState, REGISTER_NUMBER};
use crate::memory::spliced;

verus! {

/// Every word is reassembled bit for bit from the fields of each format, so each
/// immediate (U, I, S, B, J) is reconstructed exactly from its bits in the word.
pub proof fn lemma_fields_reassemble(w: u32)
    ensures
        encode_u(opcode_of(w), rd_of(w), imm_u_of(w)) == w,
        encode_j(opcode_of(w), rd_of(w), imm_j_of(w)) == w,
        encode_i(opcode_of(w), rd_of(w), funct3_of(w), rs1_of(w), imm_i_of(w)) == w,
        encode_s(opcode_of(w), funct3_of(w), rs1_of(w), rs2_of(w), imm_s_of(w)) == w,
        encode_b(opcode_of(w), funct3_of(w), rs1_of(w), rs2_of(w), imm_b_of(w)) == w,
        encode_r(opcode_of(w), rd_of(w), funct3_of(w), rs1_of(w), rs2_of(w), funct7_of(w)) == w,
{
    assert(encode_u(opcode_of(w), rd_of(w), imm_u_of(w)) == w) by (bit_vector);
    assert(encode_j(opcode_of(w), rd_of(w), imm_j_of(w)) == w) by (bit_vector);
    assert(encode_i(opcode_of(w), rd_of(w), funct3_of(w), rs1_of(w), imm_i_of(w)) == w)
        by (bit_vector);
    assert(encode_s(opcode_of(w), funct3_of(w), rs1_of(w), rs2_of(w), imm_s_of(w)) == w)
        by (bit_vector);
    assert(encode_b(opcode_of(w), funct3_of(w), rs1_of(w), rs2_of(w), imm_b_of(w)) == w)
        by (bit_vector);
    assert(encode_r(opcode_of(w), rd_of(w), funct3_of(w), rs1_of(w), rs2_of(w), funct7_of(w)) == w)
        by (bit_vector);
}

proof fn lemma_register_fields(w: u32)
    ensures
        rd_of(w) < 32,
        rs1_of(w) < 32,
        rs2_of(w) < 32,
{
    assert(rd_of(w) < 32 && rs1_of(w) < 32 && rs2_of(w) < 32) by (bit_vector);
}

proof fn lemma_le_bytes_of_word(b0: u8, b1: u8, b2: u8, b3: u8)
    ensures
        le_bytes(le_word(b0, b1, b2, b3)) == seq![b0, b1, b2, b3],
{
    let w = le_word(b0, b1, b2, b3);
    assert(w as u8 == b0 && (w >> 8u32) as u8 == b1 && (w >> 16u32) as u8 == b2 && (w >> 24u32)
        as u8 == b3) by (bit_vector)
        requires
            w == le_word(b0, b1, b2, b3),
    ;
    assert(le_bytes(w) =~= seq![b0, b1, b2, b3]);
}

proof fn lemma_word_of_le_bytes(v: u32)
    ensures
        le_word(le_bytes(v)[0], le_bytes(v)[1], le_bytes(v)[2], le_bytes(v)[3]) == v,
{
    assert(le_word(v as u8, (v >> 8u32) as u8, (v >> 16u32) as u8, (v >> 24u32) as u8) == v)
        by (bit_vector);
}

/// Decoding four bytes into a base-set instruction and encoding it again gives back
/// the same four bytes.
pub proof fn lemma_decode_encode<I: Instruction>(bytes: Seq<u8>)
    requires
        bytes.len() == 4,
        RV32iBaseInst::<I>::decoded(bytes) is Ok,
        !(RV32iBaseInst::<I>::decoded(bytes)->Ok_0 is Other),
    ensures
        RV32iBaseInst::<I>::decoded(bytes)->Ok_0.encoded() == Some(bytes),
{
    let w = le_word(bytes[0], bytes[1], bytes[2], bytes[3]);
    lemma_fields_reassemble(w);
    lemma_le_bytes_of_word(bytes[0], bytes[1], bytes[2], bytes[3]);
    assert(seq![bytes[0], bytes[1], bytes[2], bytes[3]] =~= bytes);
}

/// An instruction that is no branch, jump, ECALL or EBREAK, and belongs to the base
/// set, moves the program counter to the next word.
pub proof fn lemma_sequential_pc<I: Instruction>(inst: RV32iBaseInst<I>, s: MachineState)
    requires
        !(inst is Jal || inst is Jalr || inst is Beq || inst is Bne || inst is Blt || inst is Bge
            || inst is Bltu || inst is Bgeu || inst is ECall || inst is EBreak || inst is Other),
    ensures
        inst.step(s) is Ok,
        inst.step(s)->Ok_0.pc == s.pc.wrapping_add(4),
{
}

proof fn lemma_sext8(b: u8)
    ensures
        sext8(b as u32) & 0xff == b,
        sext8(b as u32) >> 8u32 == if b >= 0x80 {
            0xFF_FFFFu32
        } else {
            0u32
        },
{
    assert(sext8(b as u32) & 0xff == b) by (bit_vector);
    assert(sext8(b as u32) >> 8u32 == if b >= 0x80 {
        0xFF_FFFFu32
    } else {
        0u32
    }) by (bit_vector);
}

proof fn lemma_sext16(b0: u8, b1: u8)
    ensures
        sext16(le_half(b0, b1)) & 0xffff == le_half(b0, b1),
        sext16(le_half(b0, b1)) >> 16u32 == if le_half(b0, b1) >= 0x8000 {
            0xFFFFu32
        } else {
            0u32
        },
        le_half(b0, b1) >> 16u32 == 0,
{
    assert(sext16(le_half(b0, b1)) & 0xffff == le_half(b0, b1)) by (bit_vector);
    assert(sext16(le_half(b0, b1)) >> 16u32 == if le_half(b0, b1) >= 0x8000 {
        0xFFFFu32
    } else {
        0u32
    }) by (bit_vector);
    assert(le_half(b0, b1) >> 16u32 == 0) by (bit_vector);
}

/// LB and LH fill the upper bits of rd with the sign bit of the loaded value; LBU and
/// LHU fill them with zeros.
pub proof fn lemma_load_extension<I: Instruction>(inst: RV32iBaseInst<I>, s: MachineState)
    requires
        s.regs.len() == REGISTER_NUMBER,
    ensures
        match inst {
            RV32iBaseInst::Lb(i) => rd_of(i.word()) != 0 ==> {
                let v = inst.step(s)->Ok_0.regs[rd_of(i.word()) as int];
                let b = byte_at(s, ea_i(i.word(), s.regs) as int);
                &&& v & 0xff == b
                &&& v >> 8u32 == if b >= 0x80 {
                    0xFF_FFFFu32
                } else {
                    0u32
                }
            },
            RV32iBaseInst::Lbu(i) => rd_of(i.word()) != 0 ==> {
                let v = inst.step(s)->Ok_0.regs[rd_of(i.word()) as int];
                &&& v & 0xff == byte_at(s, ea_i(i.word(), s.regs) as int)
                &&& v >> 8u32 == 0
            },
            RV32iBaseInst::Lh(i) => rd_of(i.word()) != 0 ==> {
                let v = inst.step(s)->Ok_0.regs[rd_of(i.word()) as int];
                let ea = ea_i(i.word(), s.regs);
                let h = le_half(byte_at(s, ea as int), byte_at(s, ea + 1));
                &&& v & 0xffff == h
                &&& v >> 16u32 == if h >= 0x8000 {
                    0xFFFFu32
                } else {
                    0u32
                }
            },
            RV32iBaseInst::Lhu(i) => rd_of(i.word()) != 0 ==> {
                let v = inst.step(s)->Ok_0.regs[rd_of(i.word()) as int];
                let ea = ea_i(i.word(), s.regs);
                &&& v == le_half(byte_at(s, ea as int), byte_at(s, ea + 1))
                &&& v >> 16u32 == 0
            },
            _ => true,
        },
{
    match inst {
        RV32iBaseInst::Lb(i)
        | RV32iBaseInst::Lbu(i)
        | RV32iBaseInst::Lh(i)
        | RV32iBaseInst::Lhu(i) => {
            lemma_register_fields(i.word());
        },
        _ => {},
    }
    match inst {
        RV32iBaseInst::Lb(i) => {
            lemma_sext8(byte_at(s, ea_i(i.word(), s.regs) as int));
        },
        RV32iBaseInst::Lbu(i) => {
            let b = byte_at(s, ea_i(i.word(), s.regs) as int);
            assert((b as u32) & 0xff == b && (b as u32) >> 8u32 == 0) by (bit_vector);
        },
        RV32iBaseInst::Lh(i) => {
            let ea = ea_i(i.word(), s.regs);
            lemma_sext16(byte_at(s, ea as int), byte_at(s, ea + 1));
        },
        RV32iBaseInst::Lhu(i) => {
            let ea = ea_i(i.word(), s.regs);
            lemma_sext16(byte_at(s, ea as int), byte_at(s, ea + 1));
        },
        _ => {},
    }
}

/// SLLI, SRLI and SRAI with shift amount `k` act as SLL, SRL and SRA with the same rd
/// and rs1 and an rs2 that holds `k`.
pub proof fn lemma_shift_imm_as_reg<I: Instruction>(imm: InstI, reg: InstR, s: MachineState)
    requires
        s.regs.len() == REGISTER_NUMBER,
        rd_of(imm.word()) == rd_of(reg.word()),
        rs1_of(imm.word()) == rs1_of(reg.word()),
        s.regs[rs2_of(reg.word()) as int] == imm_i_of(imm.word()) & 0x1f,
    ensures
        RV32iBaseInst::<I>::Slli(imm).step(s) == RV32iBaseInst::<I>::Sll(reg).step(s),
        RV32iBaseInst::<I>::Srli(imm).step(s) == RV32iBaseInst::<I>::Srl(reg).step(s),
        RV32iBaseInst::<I>::Srai(imm).step(s) == RV32iBaseInst::<I>::Sra(reg).step(s),
{
    let i = imm_i_of(imm.word());
    assert(sext12(i) & 0x1f == (i & 0x1f) & 0x1f) by (bit_vector);
}

/// A word stored by SW and read back by LW from the same address, into a register
/// other than x0, is the value stored.
pub proof fn lemma_store_load_word<I: Instruction>(sw: InstS, lw: InstI, s: MachineState)
    requires
        s.regs.len() == REGISTER_NUMBER,
        s.regs[0] == 0,
        access_fits(ea_s(sw.word(), s.regs), 4, s.mem),
        ea_i(lw.word(), s.regs) == ea_s(sw.word(), s.regs),
        rd_of(lw.word()) != 0,
    ensures
        ({
            let t = RV32iBaseInst::<I>::Sw(sw).step(s)->Ok_0;
            let u = RV32iBaseInst::<I>::Lw(lw).step(t)->Ok_0;
            &&& u.regs[rd_of(lw.word()) as int] == s.regs[rs2_of(sw.word()) as int]
            &&& t.mem.subrange(ea_s(sw.word(), s.regs) as int, ea_s(sw.word(), s.regs) + 4)
                == le_bytes(s.regs[rs2_of(sw.word()) as int])
        }),
{
    lemma_register_fields(sw.word());
    lemma_register_fields(lw.word());
    let t = RV32iBaseInst::<I>::Sw(sw).step(s)->Ok_0;
    let ea = ea_s(sw.word(), s.regs);
    let v = s.regs[rs2_of(sw.word()) as int];
    assert(t.regs =~= s.regs);
    let m = spliced(s.mem, ea as int, le_bytes(v));
    assert(t.mem == m);
    assert(m.subrange(ea as int, ea + 4) =~= le_bytes(v));
    assert(byte_at(t, ea as int) == le_bytes(v)[0]);
    assert(byte_at(t, ea + 1) == le_bytes(v)[1]);
    assert(byte_at(t, ea + 2) == le_bytes(v)[2]);
    assert(byte_at(t, ea + 3) == le_bytes(v)[3]);
    assert(load_word(t, ea) == le_word(
        le_bytes(v)[0],
        le_bytes(v)[1],
        le_bytes(v)[2],
        le_bytes(v)[3],
    ));
    lemma_word_of_le_bytes(v);
}

} // verus!
