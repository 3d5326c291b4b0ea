//! RV32I execution semantics, one function per instruction class.
//!
//! Each function updates the program counter and register file (and memory, for
//! stores); the caller forces x0 back to zero afterwards.
use vstd::prelude::*;

use crate::format::{InstB, InstI, InstJ, InstR, InstS, InstU};
use crate::inst::{
    imm_b_of, imm_i_of, imm_j_of, imm_s_of, imm_u_of, rd_of, rs1_of, rs2_of, sext12, sext13,
    sext16, sext21, sext8,
};
use crate::instruction::{regs_view, REGISTER_NUMBER};
use crate::memory::{spliced, Memory, MemoryMut};
use crate::reg::Reg32;

verus! {

/// The half-word held by two little-endian bytes.
pub open spec fn le_half(b0: u8, b1: u8) -> u32 {
    (b0 as u32) | ((b1 as u32) << 8u32)
}

/// The four little-endian bytes of a word.
pub open spec fn le_bytes(v: u32) -> Seq<u8> {
    seq![v as u8, (v >> 8u32) as u8, (v >> 16u32) as u8, (v >> 24u32) as u8]
}

/// Effective address of an I-type access: rs1 plus the sign-extended immediate, modulo 2^32.
pub open spec fn ea_i(w: u32, x: Seq<u32>) -> u32 {
    x[rs1_of(w) as int].wrapping_add_signed(sext12(imm_i_of(w)) as i32)
}

/// Effective address of an S-type access.
pub open spec fn ea_s(w: u32, x: Seq<u32>) -> u32 {
    x[rs1_of(w) as int].wrapping_add_signed(sext12(imm_s_of(w)) as i32)
}

/// Whether `n` bytes from `ea` on lie inside a memory of these contents (counted up to 2^32 - 1).
pub open spec fn access_fits(ea: u32, n: int, mem: Seq<u8>) -> bool {
    ea + n <= mem.len() && ea + n <= u32::MAX
}

/// Tells whether `n` bytes from `ea` on lie inside `memory`.
pub fn access_in_bounds<M: Memory>(ea: u32, n: u32, memory: &M) -> (r: bool)
    ensures
        r == access_fits(ea, n as int, memory.contents()),
{
    let len = memory.length().reg32();
    (ea as u64) + (n as u64) <= (len as u64)
}

/// Tells whether an I-type access of `n` bytes lies inside `memory`.
pub fn load_in_bounds<R: Reg32, M: Memory>(inst: &InstI, regs: &[R], memory: &M, n: u32) -> (r: bool)
    requires
        regs@.len() == REGISTER_NUMBER,
    ensures
        r == access_fits(ea_i(inst.word(), regs_view(regs@)), n as int, memory.contents()),
{
    let ea = read_reg(regs, inst.rs1()).wrapping_add_signed(inst.imm_symbol());
    access_in_bounds(ea, n, memory)
}

/// Tells whether an S-type access of `n` bytes lies inside `memory`.
pub fn store_in_bounds<R: Reg32, M: Memory>(inst: &InstS, regs: &[R], memory: &M, n: u32) -> (r: bool)
    requires
        regs@.len() == REGISTER_NUMBER,
    ensures
        r == access_fits(ea_s(inst.word(), regs_view(regs@)), n as int, memory.contents()),
{
    let ea = read_reg(regs, inst.rs1()).wrapping_add_signed(inst.imm_symbol());
    access_in_bounds(ea, n, memory)
}

/// Program counter after a branch whose condition is `taken`.
pub open spec fn branch_pc(taken: bool, w: u32, pc: u32) -> u32 {
    if taken {
        pc.wrapping_add_signed(sext13(imm_b_of(w)) as i32)
    } else {
        pc.wrapping_add(4)
    }
}

/// Target of JALR: rs1 plus the sign-extended immediate, bit 0 cleared.
pub open spec fn jalr_target(w: u32, x: Seq<u32>) -> u32 {
    ea_i(w, x) & 0xFFFF_FFFE
}

/// Operations of the integer ALU shared by OP and OP-IMM.
#[derive(Clone, Copy, Debug, PartialEq, Eq, Structural)]
pub enum AluOp {
    Add,
    Sub,
    Sll,
    Slt,
    Sltu,
    Xor,
    Srl,
    Sra,
    Or,
    And,
}

/// The result of an ALU operation; shifts use the low five bits of `b`.
pub open spec fn alu_spec(op: AluOp, a: u32, b: u32) -> u32 {
    match op {
        AluOp::Add => a.wrapping_add(b),
        AluOp::Sub => a.wrapping_sub(b),
        AluOp::Sll => a << (b & 0x1f),
        AluOp::Slt => if (a as i32) < (b as i32) {
            1
        } else {
            0
        },
        AluOp::Sltu => if a < b {
            1
        } else {
            0
        },
        AluOp::Xor => a ^ b,
        AluOp::Srl => a >> (b & 0x1f),
        AluOp::Sra => ((a as i32) >> (b & 0x1f)) as u32,
        AluOp::Or => a | b,
        AluOp::And => a & b,
    }
}

/// Computes an ALU operation.
pub fn alu(op: AluOp, a: u32, b: u32) -> (r: u32)
    ensures
        r == alu_spec(op, a, b),
{
    let sh = b & 0x1f;
    assert(sh < 32) by (bit_vector)
        requires
            sh == b & 0x1f,
    ;
    match op {
        AluOp::Add => a.wrapping_add(b),
        AluOp::Sub => a.wrapping_sub(b),
        AluOp::Sll => a << sh,
        AluOp::Slt => if (a as i32) < (b as i32) {
            1
        } else {
            0
        },
        AluOp::Sltu => if a < b {
            1
        } else {
            0
        },
        AluOp::Xor => a ^ b,
        AluOp::Srl => a >> sh,
        AluOp::Sra => ((a as i32) >> sh) as u32,
        AluOp::Or => a | b,
        AluOp::And => a & b,
    }
}

fn read_reg<R: Reg32>(regs: &[R], i: usize) -> (r: u32)
    requires
        i < regs@.len(),
    ensures
        r == regs_view(regs@)[i as int],
{
    regs[i].reg32()
}

fn write_reg<R: Reg32>(regs: &mut [R], i: usize, v: u32)
    requires
        i < old(regs)@.len(),
    ensures
        final(regs)@.len() == old(regs)@.len(),
        regs_view(final(regs)@) == regs_view(old(regs)@).update(i as int, v),
{
    regs[i].set_reg32(v);
    assert(regs_view(regs@) =~= regs_view(old(regs)@).update(i as int, v));
}

/// Forces x0 to zero.
pub fn clear_x0<R: Reg32>(regs: &mut [R])
    requires
        old(regs)@.len() == REGISTER_NUMBER,
    ensures
        final(regs)@.len() == REGISTER_NUMBER,
        regs_view(final(regs)@) == regs_view(old(regs)@).update(0, 0),
{
    write_reg(regs, 0, 0)
}

/// Advances the program counter to the next instruction.
pub fn next_inst<R: Reg32>(pc: &mut R)
    ensures
        final(pc).view32() == old(pc).view32().wrapping_add(4),
{
    pc.add_symbol32(4)
}

/// LUI: rd := imm_u.
pub fn lui<R: Reg32>(inst: &InstU, pc: &mut R, regs: &mut [R])
    requires
        old(regs)@.len() == REGISTER_NUMBER,
    ensures
        final(regs)@.len() == REGISTER_NUMBER,
        final(pc).view32() == old(pc).view32().wrapping_add(4),
        regs_view(final(regs)@) == regs_view(old(regs)@).update(
            rd_of(inst.word()) as int,
            imm_u_of(inst.word()),
        ),
{
    write_reg(regs, inst.rd(), inst.imm());
    next_inst(pc)
}

/// AUIPC: rd := pc + imm_u.
pub fn auipc<R: Reg32>(inst: &InstU, pc: &mut R, regs: &mut [R])
    requires
        old(regs)@.len() == REGISTER_NUMBER,
    ensures
        final(regs)@.len() == REGISTER_NUMBER,
        final(pc).view32() == old(pc).view32().wrapping_add(4),
        regs_view(final(regs)@) == regs_view(old(regs)@).update(
            rd_of(inst.word()) as int,
            old(pc).view32().wrapping_add(imm_u_of(inst.word())),
        ),
{
    write_reg(regs, inst.rd(), pc.reg32().wrapping_add(inst.imm()));
    next_inst(pc)
}

/// JAL: rd := pc + 4, then pc := pc + imm_j.
pub fn jal<R: Reg32>(inst: &InstJ, pc: &mut R, regs: &mut [R])
    requires
        old(regs)@.len() == REGISTER_NUMBER,
    ensures
        final(regs)@.len() == REGISTER_NUMBER,
        final(pc).view32() == old(pc).view32().wrapping_add_signed(
            sext21(imm_j_of(inst.word())) as i32,
        ),
        regs_view(final(regs)@) == regs_view(old(regs)@).update(
            rd_of(inst.word()) as int,
            old(pc).view32().wrapping_add(4),
        ),
{
    write_reg(regs, inst.rd(), pc.reg32().wrapping_add(4));
    pc.add_symbol32(inst.imm_symbol())
}

/// JALR: the target is computed from rs1 before rd := pc + 4 is written.
pub fn jalr<R: Reg32>(inst: &InstI, pc: &mut R, regs: &mut [R])
    requires
        old(regs)@.len() == REGISTER_NUMBER,
    ensures
        final(regs)@.len() == REGISTER_NUMBER,
        final(pc).view32() == jalr_target(inst.word(), regs_view(old(regs)@)),
        regs_view(final(regs)@) == regs_view(old(regs)@).update(
            rd_of(inst.word()) as int,
            old(pc).view32().wrapping_add(4),
        ),
{
    let target = read_reg(regs, inst.rs1()).wrapping_add_signed(inst.imm_symbol()) & !1u32;
    assert(!1u32 == 0xFFFF_FFFEu32) by (bit_vector);
    write_reg(regs, inst.rd(), pc.reg32().wrapping_add(4));
    pc.set_reg32(target);
}

/// Moves the program counter by the branch offset when `b` holds, else to the next instruction.
pub fn branch<R: Reg32>(b: bool, inst: &InstB, pc: &mut R)
    ensures
        final(pc).view32() == branch_pc(b, inst.word(), old(pc).view32()),
{
    if b {
        pc.add_symbol32(inst.imm_symbol());
    } else {
        next_inst(pc)
    }
}

/// BEQ: branch when rs1 == rs2.
pub fn beq<R: Reg32>(inst: &InstB, pc: &mut R, regs: &[R])
    requires
        regs@.len() == REGISTER_NUMBER,
    ensures
        final(pc).view32() == branch_pc(
            regs_view(regs@)[rs1_of(inst.word()) as int] == regs_view(regs@)[rs2_of(
                inst.word(),
            ) as int],
            inst.word(),
            old(pc).view32(),
        ),
{
    let b = read_reg(regs, inst.rs1()) == read_reg(regs, inst.rs2());
    branch(b, inst, pc)
}

/// BNE: branch when rs1 != rs2.
pub fn bne<R: Reg32>(inst: &InstB, pc: &mut R, regs: &[R])
    requires
        regs@.len() == REGISTER_NUMBER,
    ensures
        final(pc).view32() == branch_pc(
            regs_view(regs@)[rs1_of(inst.word()) as int] != regs_view(regs@)[rs2_of(
                inst.word(),
            ) as int],
            inst.word(),
            old(pc).view32(),
        ),
{
    let b = read_reg(regs, inst.rs1()) != read_reg(regs, inst.rs2());
    branch(b, inst, pc)
}

/// BLT: branch when rs1 < rs2 as signed values.
pub fn blt<R: Reg32>(inst: &InstB, pc: &mut R, regs: &[R])
    requires
        regs@.len() == REGISTER_NUMBER,
    ensures
        final(pc).view32() == branch_pc(
            (regs_view(regs@)[rs1_of(inst.word()) as int] as i32) < (regs_view(regs@)[rs2_of(
                inst.word(),
            ) as int] as i32),
            inst.word(),
            old(pc).view32(),
        ),
{
    let b = (read_reg(regs, inst.rs1()) as i32) < (read_reg(regs, inst.rs2()) as i32);
    branch(b, inst, pc)
}

/// BGE: branch when rs1 >= rs2 as signed values.
pub fn bge<R: Reg32>(inst: &InstB, pc: &mut R, regs: &[R])
    requires
        regs@.len() == REGISTER_NUMBER,
    ensures
        final(pc).view32() == branch_pc(
            (regs_view(regs@)[rs1_of(inst.word()) as int] as i32) >= (regs_view(regs@)[rs2_of(
                inst.word(),
            ) as int] as i32),
            inst.word(),
            old(pc).view32(),
        ),
{
    let b = (read_reg(regs, inst.rs1()) as i32) >= (read_reg(regs, inst.rs2()) as i32);
    branch(b, inst, pc)
}

/// BLTU: branch when rs1 < rs2 as unsigned values.
pub fn bltu<R: Reg32>(inst: &InstB, pc: &mut R, regs: &[R])
    requires
        regs@.len() == REGISTER_NUMBER,
    ensures
        final(pc).view32() == branch_pc(
            regs_view(regs@)[rs1_of(inst.word()) as int] < regs_view(regs@)[rs2_of(
                inst.word(),
            ) as int],
            inst.word(),
            old(pc).view32(),
        ),
{
    let b = read_reg(regs, inst.rs1()) < read_reg(regs, inst.rs2());
    branch(b, inst, pc)
}

/// BGEU: branch when rs1 >= rs2 as unsigned values.
pub fn bgeu<R: Reg32>(inst: &InstB, pc: &mut R, regs: &[R])
    requires
        regs@.len() == REGISTER_NUMBER,
    ensures
        final(pc).view32() == branch_pc(
            regs_view(regs@)[rs1_of(inst.word()) as int] >= regs_view(regs@)[rs2_of(
                inst.word(),
            ) as int],
            inst.word(),
            old(pc).view32(),
        ),
{
    let b = read_reg(regs, inst.rs1()) >= read_reg(regs, inst.rs2());
    branch(b, inst, pc)
}

/// The `n` bytes that an I-type load reads.
fn load_bytes<'a, R: Reg32 + Copy, M: Memory<Register = R>>(
    inst: &InstI,
    regs: &[R],
    memory: &'a M,
    n: u8,
) -> (r: &'a [u8])
    requires
        regs@.len() == REGISTER_NUMBER,
        access_fits(ea_i(inst.word(), regs_view(regs@)), n as int, memory.contents()),
    ensures
        r@ == memory.contents().subrange(
            ea_i(inst.word(), regs_view(regs@)) as int,
            ea_i(inst.word(), regs_view(regs@)) + n,
        ),
{
    let mut offset = regs[inst.rs1()];
    offset.add_symbol32(inst.imm_symbol());
    memory.load(offset, n)
}

/// LB: loads a byte and sign-extends it.
pub fn lb<R: Reg32 + Copy, M: Memory<Register = R>>(
    inst: &InstI,
    pc: &mut R,
    regs: &mut [R],
    memory: &M,
)
    requires
        old(regs)@.len() == REGISTER_NUMBER,
        access_fits(ea_i(inst.word(), regs_view(old(regs)@)), 1, memory.contents()),
    ensures
        final(regs)@.len() == REGISTER_NUMBER,
        final(pc).view32() == old(pc).view32().wrapping_add(4),
        regs_view(final(regs)@) == regs_view(old(regs)@).update(
            rd_of(inst.word()) as int,
            sext8(memory.contents()[ea_i(inst.word(), regs_view(old(regs)@)) as int] as u32),
        ),
{
    let m = load_bytes(inst, regs, memory, 1);
    let b = m[0];
    let v = ((b as i8) as i32) as u32;
    assert(v == sext8(b as u32)) by (bit_vector)
        requires
            v == ((b as i8) as i32) as u32,
    ;
    write_reg(regs, inst.rd(), v);
    next_inst(pc)
}

/// LH: loads a little-endian half-word and sign-extends it.
pub fn lh<R: Reg32 + Copy, M: Memory<Register = R>>(
    inst: &InstI,
    pc: &mut R,
    regs: &mut [R],
    memory: &M,
)
    requires
        old(regs)@.len() == REGISTER_NUMBER,
        access_fits(ea_i(inst.word(), regs_view(old(regs)@)), 2, memory.contents()),
    ensures
        final(regs)@.len() == REGISTER_NUMBER,
        final(pc).view32() == old(pc).view32().wrapping_add(4),
        regs_view(final(regs)@) == regs_view(old(regs)@).update(
            rd_of(inst.word()) as int,
            sext16(
                le_half(
                    memory.contents()[ea_i(inst.word(), regs_view(old(regs)@)) as int],
                    memory.contents()[ea_i(inst.word(), regs_view(old(regs)@)) + 1],
                ),
            ),
        ),
{
    let m = load_bytes(inst, regs, memory, 2);
    let (b0, b1) = (m[0], m[1]);
    let h = (b0 as u32) | ((b1 as u32) << 8u32);
    let v = (((h as u16) as i16) as i32) as u32;
    assert(v == sext16(le_half(b0, b1))) by (bit_vector)
        requires
            h == (b0 as u32) | ((b1 as u32) << 8u32),
            v == (((h as u16) as i16) as i32) as u32,
    ;
    write_reg(regs, inst.rd(), v);
    next_inst(pc)
}

/// Reads the little-endian word of four bytes.
fn word_of(m: &[u8]) -> (r: u32)
    requires
        m@.len() == 4,
    ensures
        r == crate::inst::le_word(m@[0], m@[1], m@[2], m@[3]),
{
    (m[0] as u32) | ((m[1] as u32) << 8u32) | ((m[2] as u32) << 16u32) | ((m[3] as u32) << 24u32)
}

/// LW: loads a little-endian word.
pub fn lw<R: Reg32 + Copy, M: Memory<Register = R>>(
    inst: &InstI,
    pc: &mut R,
    regs: &mut [R],
    memory: &M,
)
    requires
        old(regs)@.len() == REGISTER_NUMBER,
        access_fits(ea_i(inst.word(), regs_view(old(regs)@)), 4, memory.contents()),
    ensures
        final(regs)@.len() == REGISTER_NUMBER,
        final(pc).view32() == old(pc).view32().wrapping_add(4),
        regs_view(final(regs)@) == regs_view(old(regs)@).update(
            rd_of(inst.word()) as int,
            crate::inst::le_word(
                memory.contents()[ea_i(inst.word(), regs_view(old(regs)@)) as int],
                memory.contents()[ea_i(inst.word(), regs_view(old(regs)@)) + 1],
                memory.contents()[ea_i(inst.word(), regs_view(old(regs)@)) + 2],
                memory.contents()[ea_i(inst.word(), regs_view(old(regs)@)) + 3],
            ),
        ),
{
    let m = load_bytes(inst, regs, memory, 4);
    let v = word_of(m);
    write_reg(regs, inst.rd(), v);
    next_inst(pc)
}

/// LBU: loads a byte and zero-extends it.
pub fn lbu<R: Reg32 + Copy, M: Memory<Register = R>>(
    inst: &InstI,
    pc: &mut R,
    regs: &mut [R],
    memory: &M,
)
    requires
        old(regs)@.len() == REGISTER_NUMBER,
        access_fits(ea_i(inst.word(), regs_view(old(regs)@)), 1, memory.contents()),
    ensures
        final(regs)@.len() == REGISTER_NUMBER,
        final(pc).view32() == old(pc).view32().wrapping_add(4),
        regs_view(final(regs)@) == regs_view(old(regs)@).update(
            rd_of(inst.word()) as int,
            memory.contents()[ea_i(inst.word(), regs_view(old(regs)@)) as int] as u32,
        ),
{
    let m = load_bytes(inst, regs, memory, 1);
    write_reg(regs, inst.rd(), m[0] as u32);
    next_inst(pc)
}

/// LHU: loads a little-endian half-word and zero-extends it.
pub fn lhu<R: Reg32 + Copy, M: Memory<Register = R>>(
    inst: &InstI,
    pc: &mut R,
    regs: &mut [R],
    memory: &M,
)
    requires
        old(regs)@.len() == REGISTER_NUMBER,
        access_fits(ea_i(inst.word(), regs_view(old(regs)@)), 2, memory.contents()),
    ensures
        final(regs)@.len() == REGISTER_NUMBER,
        final(pc).view32() == old(pc).view32().wrapping_add(4),
        regs_view(final(regs)@) == regs_view(old(regs)@).update(
            rd_of(inst.word()) as int,
            le_half(
                memory.contents()[ea_i(inst.word(), regs_view(old(regs)@)) as int],
                memory.contents()[ea_i(inst.word(), regs_view(old(regs)@)) + 1],
            ),
        ),
{
    let m = load_bytes(inst, regs, memory, 2);
    write_reg(regs, inst.rd(), (m[0] as u32) | ((m[1] as u32) << 8u32));
    next_inst(pc)
}

/// LWU: loads a little-endian word unsigned; on a 32-bit register it reads as LW.
pub fn lwu<R: Reg32 + Copy, M: Memory<Register = R>>(
    inst: &InstI,
    pc: &mut R,
    regs: &mut [R],
    memory: &M,
)
    requires
        old(regs)@.len() == REGISTER_NUMBER,
        access_fits(ea_i(inst.word(), regs_view(old(regs)@)), 4, memory.contents()),
    ensures
        final(regs)@.len() == REGISTER_NUMBER,
        final(pc).view32() == old(pc).view32().wrapping_add(4),
        regs_view(final(regs)@) == regs_view(old(regs)@).update(
            rd_of(inst.word()) as int,
            crate::inst::le_word(
                memory.contents()[ea_i(inst.word(), regs_view(old(regs)@)) as int],
                memory.contents()[ea_i(inst.word(), regs_view(old(regs)@)) + 1],
                memory.contents()[ea_i(inst.word(), regs_view(old(regs)@)) + 2],
                memory.contents()[ea_i(inst.word(), regs_view(old(regs)@)) + 3],
            ),
        ),
{
    let m = load_bytes(inst, regs, memory, 4);
    let v = word_of(m);
    write_reg(regs, inst.rd(), v);
    next_inst(pc)
}

/// Stores the low `n` bytes of rs2, little-endian, at rs1 plus the S-immediate.
fn store<R: Reg32 + Copy, M: Memory<Register = R> + MemoryMut>(
    inst: &InstS,
    pc: &mut R,
    regs: &[R],
    memory: &mut M,
    n: usize,
)
    requires
        regs@.len() == REGISTER_NUMBER,
        1 <= n <= 4,
        access_fits(ea_s(inst.word(), regs_view(regs@)), n as int, old(memory).contents()),
    ensures
        final(pc).view32() == old(pc).view32().wrapping_add(4),
        final(memory).contents() == spliced(
            old(memory).contents(),
            ea_s(inst.word(), regs_view(regs@)) as int,
            le_bytes(regs_view(regs@)[rs2_of(inst.word()) as int]).subrange(0, n as int),
        ),
{
    let v = read_reg(regs, inst.rs2());
    let data: [u8; 4] = [v as u8, (v >> 8u32) as u8, (v >> 16u32) as u8, (v >> 24u32) as u8];
    assert(data@ =~= le_bytes(v));
    let mut offset = regs[inst.rs1()];
    offset.add_symbol32(inst.imm_symbol());
    memory.store(offset, &data[0..n]);
    next_inst(pc)
}

/// SB: stores the low byte of rs2.
pub fn sb<R: Reg32 + Copy, M: Memory<Register = R> + MemoryMut>(
    inst: &InstS,
    pc: &mut R,
    regs: &[R],
    memory: &mut M,
)
    requires
        regs@.len() == REGISTER_NUMBER,
        access_fits(ea_s(inst.word(), regs_view(regs@)), 1, old(memory).contents()),
    ensures
        final(pc).view32() == old(pc).view32().wrapping_add(4),
        final(memory).contents() == spliced(
            old(memory).contents(),
            ea_s(inst.word(), regs_view(regs@)) as int,
            le_bytes(regs_view(regs@)[rs2_of(inst.word()) as int]).subrange(0, 1),
        ),
{
    store(inst, pc, regs, memory, 1)
}

/// SH: stores the low half-word of rs2.
pub fn sh<R: Reg32 + Copy, M: Memory<Register = R> + MemoryMut>(
    inst: &InstS,
    pc: &mut R,
    regs: &[R],
    memory: &mut M,
)
    requires
        regs@.len() == REGISTER_NUMBER,
        access_fits(ea_s(inst.word(), regs_view(regs@)), 2, old(memory).contents()),
    ensures
        final(pc).view32() == old(pc).view32().wrapping_add(4),
        final(memory).contents() == spliced(
            old(memory).contents(),
            ea_s(inst.word(), regs_view(regs@)) as int,
            le_bytes(regs_view(regs@)[rs2_of(inst.word()) as int]).subrange(0, 2),
        ),
{
    store(inst, pc, regs, memory, 2)
}

/// SW: stores all four bytes of rs2.
pub fn sw<R: Reg32 + Copy, M: Memory<Register = R> + MemoryMut>(
    inst: &InstS,
    pc: &mut R,
    regs: &[R],
    memory: &mut M,
)
    requires
        regs@.len() == REGISTER_NUMBER,
        access_fits(ea_s(inst.word(), regs_view(regs@)), 4, old(memory).contents()),
    ensures
        final(pc).view32() == old(pc).view32().wrapping_add(4),
        final(memory).contents() == spliced(
            old(memory).contents(),
            ea_s(inst.word(), regs_view(regs@)) as int,
            le_bytes(regs_view(regs@)[rs2_of(inst.word()) as int]),
        ),
{
    store(inst, pc, regs, memory, 4);
    assert(le_bytes(regs_view(regs@)[rs2_of(inst.word()) as int]).subrange(0, 4)
        =~= le_bytes(regs_view(regs@)[rs2_of(inst.word()) as int]));
}

/// OP-IMM: rd := rs1 `op` the sign-extended I-immediate.
pub fn op_imm<R: Reg32>(inst: &InstI, op: AluOp, pc: &mut R, regs: &mut [R])
    requires
        old(regs)@.len() == REGISTER_NUMBER,
    ensures
        final(regs)@.len() == REGISTER_NUMBER,
        final(pc).view32() == old(pc).view32().wrapping_add(4),
        regs_view(final(regs)@) == regs_view(old(regs)@).update(
            rd_of(inst.word()) as int,
            alu_spec(
                op,
                regs_view(old(regs)@)[rs1_of(inst.word()) as int],
                sext12(imm_i_of(inst.word())),
            ),
        ),
{
    let imm = inst.imm_symbol();
    let b = imm as u32;
    let ghost w = inst.word();
    assert(b == sext12(imm_i_of(w))) by (bit_vector)
        requires
            imm == sext12(imm_i_of(w)) as i32,
            b == imm as u32,
    ;
    let v = alu(op, read_reg(regs, inst.rs1()), b);
    write_reg(regs, inst.rd(), v);
    next_inst(pc)
}

/// OP: rd := rs1 `op` rs2.
pub fn op<R: Reg32>(inst: &InstR, op: AluOp, pc: &mut R, regs: &mut [R])
    requires
        old(regs)@.len() == REGISTER_NUMBER,
    ensures
        final(regs)@.len() == REGISTER_NUMBER,
        final(pc).view32() == old(pc).view32().wrapping_add(4),
        regs_view(final(regs)@) == regs_view(old(regs)@).update(
            rd_of(inst.word()) as int,
            alu_spec(
                op,
                regs_view(old(regs)@)[rs1_of(inst.word()) as int],
                regs_view(old(regs)@)[rs2_of(inst.word()) as int],
            ),
        ),
{
    let v = alu(op, read_reg(regs, inst.rs1()), read_reg(regs, inst.rs2()));
    write_reg(regs, inst.rd(), v);
    next_inst(pc)
}

} // verus!
