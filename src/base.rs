//! The RV32I base instruction set: decoder, executor and encoder.
use vstd::prelude::*;

use crate::error::Error;
use crate::execute::{
    self, access_fits, alu_spec, branch_pc, ea_i, ea_s, jalr_target, le_bytes, le_half, AluOp,
};
use crate::format::{InstB, InstI, InstJ, InstR, InstS, InstU};
use crate::inst::{
    encode_b, encode_i, encode_j, encode_r, encode_s, encode_u, funct3_of, funct7_of, imm_b_of,
    imm_i_of, imm_j_of, imm_s_of, imm_u_of, le_word, opcode_of, rd_of, rs1_of, rs2_of, sext12,
    sext16, sext21, sext8, Inst,
};
use crate::instruction::{Instruction, MachineState};
use crate::memory::{spliced, Memory, MemoryMut};

verus! {

/// Instruction of the RISC-V 32-bit base integer set, without CSR and FENCE.
///
/// Words outside the base set are handed to the sub-interpreter `I`.
pub enum RV32iBaseInst<I> {
    /// Load Upper Immediate
    Lui(InstU),
    /// Add Upper Immediate to PC
    Auipc(InstU),
    /// Jump and Link
    Jal(InstJ),
    /// Jump and Link Register
    Jalr(InstI),
    /// Branch if Equal
    Beq(InstB),
    /// Branch if Not Equal
    Bne(InstB),
    /// Branch if Less Than
    Blt(InstB),
    /// Branch if Greater or Equal
    Bge(InstB),
    /// Branch if Less Than, Unsigned
    Bltu(InstB),
    /// Branch if Greater or Equal, Unsigned
    Bgeu(InstB),
    /// Load Byte
    Lb(InstI),
    /// Load Half Word
    Lh(InstI),
    /// Load Word
    Lw(InstI),
    /// Load Byte Unsigned
    Lbu(InstI),
    /// Load Half Word Unsigned
    Lhu(InstI),
    /// Load Word Unsigned (RV64; never decoded from an RV32I word)
    Lwu(InstI),
    /// Store Byte
    Sb(InstS),
    /// Store Half Word
    Sh(InstS),
    /// Store Word
    Sw(InstS),
    /// Add Immediate
    Addi(InstI),
    /// Set Less Than Immediate
    Slti(InstI),
    /// Set Less Than Immediate Unsigned
    Sltiu(InstI),
    /// Xor Immediate
    Xori(InstI),
    /// Or Immediate
    Ori(InstI),
    /// And Immediate
    Andi(InstI),
    /// Shift Left Logical Immediate
    Slli(InstI),
    /// Shift Right Logical Immediate
    Srli(InstI),
    /// Shift Right Arithmetic Immediate
    Srai(InstI),
    /// Add
    Add(InstR),
    /// Subtract
    Sub(InstR),
    /// Shift Left Logical
    Sll(InstR),
    /// Set Less Than
    Slt(InstR),
    /// Set Less Than Unsigned
    Sltu(InstR),
    /// Xor
    Xor(InstR),
    /// Shift Right Logical
    Srl(InstR),
    /// Shift Right Arithmetic
    Sra(InstR),
    /// Or
    Or(InstR),
    /// And
    And(InstR),
    /// Environment Call
    ECall(InstI),
    /// Environment Break
    EBreak(InstI),
    /// Instruction of the sub-interpreter
    Other(I),
}

/// State after an instruction that writes `v` to rd and falls through; x0 reads zero.
pub open spec fn retire(s: MachineState, rd: u32, v: u32) -> MachineState {
    MachineState {
        pc: s.pc.wrapping_add(4),
        regs: s.regs.update(rd as int, v).update(0, 0),
        mem: s.mem,
    }
}

/// State after a jump to `target` that links the return address into rd.
pub open spec fn link(s: MachineState, rd: u32, target: u32) -> MachineState {
    MachineState {
        pc: target,
        regs: s.regs.update(rd as int, s.pc.wrapping_add(4)).update(0, 0),
        mem: s.mem,
    }
}

/// State after a branch whose condition is `taken`.
pub open spec fn branch_to(s: MachineState, taken: bool, w: u32) -> MachineState {
    MachineState { pc: branch_pc(taken, w, s.pc), regs: s.regs.update(0, 0), mem: s.mem }
}

/// The four little-endian bytes of rs2.
pub open spec fn rs2_bytes(s: MachineState, w: u32) -> Seq<u8> {
    le_bytes(s.regs[rs2_of(w) as int])
}

/// State after a store of `data` at rs1 plus the S-immediate.
pub open spec fn store_to(s: MachineState, w: u32, data: Seq<u8>) -> MachineState {
    MachineState {
        pc: s.pc.wrapping_add(4),
        regs: s.regs.update(0, 0),
        mem: spliced(s.mem, ea_s(w, s.regs) as int, data),
    }
}

/// The byte at offset `k` of the memory of `s`.
pub open spec fn byte_at(s: MachineState, k: int) -> u8 {
    s.mem[k]
}

/// Value loaded by a word load at `ea`.
pub open spec fn load_word(s: MachineState, ea: u32) -> u32 {
    le_word(byte_at(s, ea as int), byte_at(s, ea + 1), byte_at(s, ea + 2), byte_at(s, ea + 3))
}

/// The branch that a word selects by its funct3.
pub open spec fn decode_branch<I>(i: Inst) -> Option<RV32iBaseInst<I>> {
    let f3 = funct3_of(i.word());
    if f3 == 0 {
        Some(RV32iBaseInst::Beq(InstB(i)))
    } else if f3 == 1 {
        Some(RV32iBaseInst::Bne(InstB(i)))
    } else if f3 == 4 {
        Some(RV32iBaseInst::Blt(InstB(i)))
    } else if f3 == 5 {
        Some(RV32iBaseInst::Bge(InstB(i)))
    } else if f3 == 6 {
        Some(RV32iBaseInst::Bltu(InstB(i)))
    } else if f3 == 7 {
        Some(RV32iBaseInst::Bgeu(InstB(i)))
    } else {
        None
    }
}

/// The load that a word selects by its funct3.
pub open spec fn decode_load<I>(i: Inst) -> Option<RV32iBaseInst<I>> {
    let f3 = funct3_of(i.word());
    if f3 == 0 {
        Some(RV32iBaseInst::Lb(InstI(i)))
    } else if f3 == 1 {
        Some(RV32iBaseInst::Lh(InstI(i)))
    } else if f3 == 2 {
        Some(RV32iBaseInst::Lw(InstI(i)))
    } else if f3 == 4 {
        Some(RV32iBaseInst::Lbu(InstI(i)))
    } else if f3 == 5 {
        Some(RV32iBaseInst::Lhu(InstI(i)))
    } else {
        None
    }
}

/// The store that a word selects by its funct3.
pub open spec fn decode_store<I>(i: Inst) -> Option<RV32iBaseInst<I>> {
    let f3 = funct3_of(i.word());
    if f3 == 0 {
        Some(RV32iBaseInst::Sb(InstS(i)))
    } else if f3 == 1 {
        Some(RV32iBaseInst::Sh(InstS(i)))
    } else if f3 == 2 {
        Some(RV32iBaseInst::Sw(InstS(i)))
    } else {
        None
    }
}

/// The OP-IMM instruction that a word selects by funct3, funct7 and immediate bit 10.
pub open spec fn decode_op_imm<I>(i: Inst) -> Option<RV32iBaseInst<I>> {
    let w = i.word();
    let f3 = funct3_of(w);
    if f3 == 0 {
        Some(RV32iBaseInst::Addi(InstI(i)))
    } else if f3 == 2 {
        Some(RV32iBaseInst::Slti(InstI(i)))
    } else if f3 == 3 {
        Some(RV32iBaseInst::Sltiu(InstI(i)))
    } else if f3 == 4 {
        Some(RV32iBaseInst::Xori(InstI(i)))
    } else if f3 == 6 {
        Some(RV32iBaseInst::Ori(InstI(i)))
    } else if f3 == 7 {
        Some(RV32iBaseInst::Andi(InstI(i)))
    } else if f3 == 1 {
        if funct7_of(w) == 0 {
            Some(RV32iBaseInst::Slli(InstI(i)))
        } else {
            None
        }
    } else if imm_i_of(w) & 0x400 == 0 {
        Some(RV32iBaseInst::Srli(InstI(i)))
    } else {
        Some(RV32iBaseInst::Srai(InstI(i)))
    }
}

/// The OP instruction that a word selects by funct3 and funct7.
pub open spec fn decode_op<I>(i: Inst) -> Option<RV32iBaseInst<I>> {
    let w = i.word();
    let f3 = funct3_of(w);
    let f7 = funct7_of(w);
    if f3 == 0 {
        if f7 == 0 {
            Some(RV32iBaseInst::Add(InstR(i)))
        } else {
            Some(RV32iBaseInst::Sub(InstR(i)))
        }
    } else if f3 == 5 {
        if f7 == 0 {
            Some(RV32iBaseInst::Srl(InstR(i)))
        } else {
            Some(RV32iBaseInst::Sra(InstR(i)))
        }
    } else if f7 != 0 {
        None
    } else if f3 == 1 {
        Some(RV32iBaseInst::Sll(InstR(i)))
    } else if f3 == 2 {
        Some(RV32iBaseInst::Slt(InstR(i)))
    } else if f3 == 3 {
        Some(RV32iBaseInst::Sltu(InstR(i)))
    } else if f3 == 4 {
        Some(RV32iBaseInst::Xor(InstR(i)))
    } else if f3 == 6 {
        Some(RV32iBaseInst::Or(InstR(i)))
    } else {
        Some(RV32iBaseInst::And(InstR(i)))
    }
}

/// The base-set instruction that a word encodes, if any.
pub open spec fn decode_word<I>(w: u32) -> Option<RV32iBaseInst<I>> {
    let i = Inst { inst: w };
    let op = opcode_of(w);
    if op == 0x37 {
        Some(RV32iBaseInst::Lui(InstU(i)))
    } else if op == 0x17 {
        Some(RV32iBaseInst::Auipc(InstU(i)))
    } else if op == 0x6f {
        Some(RV32iBaseInst::Jal(InstJ(i)))
    } else if op == 0x67 {
        if funct3_of(w) == 0 {
            Some(RV32iBaseInst::Jalr(InstI(i)))
        } else {
            None
        }
    } else if op == 0x63 {
        decode_branch(i)
    } else if op == 0x03 {
        decode_load(i)
    } else if op == 0x23 {
        decode_store(i)
    } else if op == 0x13 {
        decode_op_imm(i)
    } else if op == 0x33 {
        decode_op(i)
    } else if op == 0x73 && funct3_of(w) == 0 && rd_of(w) == 0 && rs1_of(w) == 0 {
        if imm_i_of(w) == 0 {
            Some(RV32iBaseInst::ECall(InstI(i)))
        } else if imm_i_of(w) == 1 {
            Some(RV32iBaseInst::EBreak(InstI(i)))
        } else {
            None
        }
    } else {
        None
    }
}

impl<I> RV32iBaseInst<I> {
    /// The word assembled back from the fields of the instruction, for base-set instructions.
    pub open spec fn fields_word(&self) -> Option<u32> {
        match self {
            RV32iBaseInst::Lui(i)
            | RV32iBaseInst::Auipc(i) => Some(
                encode_u(
                    opcode_of(i.word()),
                    rd_of(i.word()),
                    imm_u_of(i.word()),
                ),
            ),
            RV32iBaseInst::Jal(i) => Some(
                encode_j(opcode_of(i.word()), rd_of(i.word()), imm_j_of(i.word())),
            ),
            RV32iBaseInst::Jalr(i)
            | RV32iBaseInst::Lb(i)
            | RV32iBaseInst::Lh(i)
            | RV32iBaseInst::Lw(i)
            | RV32iBaseInst::Lbu(i)
            | RV32iBaseInst::Lhu(i)
            | RV32iBaseInst::Lwu(i)
            | RV32iBaseInst::Addi(i)
            | RV32iBaseInst::Slti(i)
            | RV32iBaseInst::Sltiu(i)
            | RV32iBaseInst::Xori(i)
            | RV32iBaseInst::Ori(i)
            | RV32iBaseInst::Andi(i)
            | RV32iBaseInst::Slli(i)
            | RV32iBaseInst::Srli(i)
            | RV32iBaseInst::Srai(i)
            | RV32iBaseInst::ECall(i)
            | RV32iBaseInst::EBreak(i) => Some(
                encode_i(
                    opcode_of(i.word()),
                    rd_of(i.word()),
                    funct3_of(i.word()),
                    rs1_of(i.word()),
                    imm_i_of(i.word()),
                ),
            ),
            RV32iBaseInst::Sb(i)
            | RV32iBaseInst::Sh(i)
            | RV32iBaseInst::Sw(i) => Some(
                encode_s(
                    opcode_of(i.word()),
                    funct3_of(i.word()),
                    rs1_of(i.word()),
                    rs2_of(i.word()),
                    imm_s_of(i.word()),
                ),
            ),
            RV32iBaseInst::Beq(i)
            | RV32iBaseInst::Bne(i)
            | RV32iBaseInst::Blt(i)
            | RV32iBaseInst::Bge(i)
            | RV32iBaseInst::Bltu(i)
            | RV32iBaseInst::Bgeu(i) => Some(
                encode_b(
                    opcode_of(i.word()),
                    funct3_of(i.word()),
                    rs1_of(i.word()),
                    rs2_of(i.word()),
                    imm_b_of(i.word()),
                ),
            ),
            RV32iBaseInst::Add(i)
            | RV32iBaseInst::Sub(i)
            | RV32iBaseInst::Sll(i)
            | RV32iBaseInst::Slt(i)
            | RV32iBaseInst::Sltu(i)
            | RV32iBaseInst::Xor(i)
            | RV32iBaseInst::Srl(i)
            | RV32iBaseInst::Sra(i)
            | RV32iBaseInst::Or(i)
            | RV32iBaseInst::And(i) => Some(
                encode_r(
                    opcode_of(i.word()),
                    rd_of(i.word()),
                    funct3_of(i.word()),
                    rs1_of(i.word()),
                    rs2_of(i.word()),
                    funct7_of(i.word()),
                ),
            ),
            RV32iBaseInst::Other(_) => None,
        }
    }

    /// The four bytes that `encode` yields.
    pub open spec fn encoded(&self) -> Option<Seq<u8>> {
        match self.fields_word() {
            Some(w) => Some(le_bytes(w)),
            None => None,
        }
    }

    /// Re-encodes a base-set instruction into its four little-endian bytes; `None` for
    /// an instruction of the sub-interpreter.
    pub fn encode(&self) -> (r: Option<[u8; 4]>)
        ensures
            match r {
                Some(b) => self.encoded() == Some(b@),
                None => self.encoded() is None,
            },
    {
        let w: u32 = match self {
            Self::Lui(i) | Self::Auipc(i) => i.encode(),
            Self::Jal(i) => i.encode(),
            Self::Jalr(i)
            | Self::Lb(i)
            | Self::Lh(i)
            | Self::Lw(i)
            | Self::Lbu(i)
            | Self::Lhu(i)
            | Self::Lwu(i)
            | Self::Addi(i)
            | Self::Slti(i)
            | Self::Sltiu(i)
            | Self::Xori(i)
            | Self::Ori(i)
            | Self::Andi(i)
            | Self::Slli(i)
            | Self::Srli(i)
            | Self::Srai(i)
            | Self::ECall(i)
            | Self::EBreak(i) => i.encode(),
            Self::Sb(i) | Self::Sh(i) | Self::Sw(i) => i.encode(),
            Self::Beq(i)
            | Self::Bne(i)
            | Self::Blt(i)
            | Self::Bge(i)
            | Self::Bltu(i)
            | Self::Bgeu(i) => i.encode(),
            Self::Add(i)
            | Self::Sub(i)
            | Self::Sll(i)
            | Self::Slt(i)
            | Self::Sltu(i)
            | Self::Xor(i)
            | Self::Srl(i)
            | Self::Sra(i)
            | Self::Or(i)
            | Self::And(i) => i.encode(),
            Self::Other(_) => {
                return None;
            },
        };
        let b: [u8; 4] = [w as u8, (w >> 8u32) as u8, (w >> 16u32) as u8, (w >> 24u32) as u8];
        assert(b@ =~= le_bytes(w));
        Some(b)
    }
}

impl<I: Instruction> RV32iBaseInst<I> {
    /// Decodes the base-set instruction that a word encodes, if any.
    fn decode_base(inst: Inst) -> (r: Option<Self>)
        ensures
            r == decode_word::<I>(inst.word()),
    {
        let funct3 = inst.funct3();
        let funct7 = inst.funct7();
        match inst.opcode() {
            0b0110111 => Some(Self::Lui(InstU(inst))),
            0b0010111 => Some(Self::Auipc(InstU(inst))),
            0b1101111 => Some(Self::Jal(InstJ(inst))),
            0b1100111 => if funct3 == 0 {
                Some(Self::Jalr(InstI(inst)))
            } else {
                None
            },
            0b1100011 => match funct3 {
                0b000 => Some(Self::Beq(InstB(inst))),
                0b001 => Some(Self::Bne(InstB(inst))),
                0b100 => Some(Self::Blt(InstB(inst))),
                0b101 => Some(Self::Bge(InstB(inst))),
                0b110 => Some(Self::Bltu(InstB(inst))),
                0b111 => Some(Self::Bgeu(InstB(inst))),
                _ => None,
            },
            0b0000011 => match funct3 {
                0b000 => Some(Self::Lb(InstI(inst))),
                0b001 => Some(Self::Lh(InstI(inst))),
                0b010 => Some(Self::Lw(InstI(inst))),
                0b100 => Some(Self::Lbu(InstI(inst))),
                0b101 => Some(Self::Lhu(InstI(inst))),
                _ => None,
            },
            0b0100011 => match funct3 {
                0b000 => Some(Self::Sb(InstS(inst))),
                0b001 => Some(Self::Sh(InstS(inst))),
                0b010 => Some(Self::Sw(InstS(inst))),
                _ => None,
            },
            0b0010011 => match funct3 {
                0b000 => Some(Self::Addi(InstI(inst))),
                0b010 => Some(Self::Slti(InstI(inst))),
                0b011 => Some(Self::Sltiu(InstI(inst))),
                0b100 => Some(Self::Xori(InstI(inst))),
                0b110 => Some(Self::Ori(InstI(inst))),
                0b111 => Some(Self::Andi(InstI(inst))),
                0b001 => if funct7 == 0 {
                    Some(Self::Slli(InstI(inst)))
                } else {
                    None
                },
                _ => if inst.imm_i() & 0x400 == 0 {
                    Some(Self::Srli(InstI(inst)))
                } else {
                    Some(Self::Srai(InstI(inst)))
                },
            },
            0b0110011 => match funct3 {
                0b000 => if funct7 == 0 {
                    Some(Self::Add(InstR(inst)))
                } else {
                    Some(Self::Sub(InstR(inst)))
                },
                0b101 => if funct7 == 0 {
                    Some(Self::Srl(InstR(inst)))
                } else {
                    Some(Self::Sra(InstR(inst)))
                },
                _ => if funct7 != 0 {
                    None
                } else {
                    match funct3 {
                        0b001 => Some(Self::Sll(InstR(inst))),
                        0b010 => Some(Self::Slt(InstR(inst))),
                        0b011 => Some(Self::Sltu(InstR(inst))),
                        0b100 => Some(Self::Xor(InstR(inst))),
                        0b110 => Some(Self::Or(InstR(inst))),
                        _ => Some(Self::And(InstR(inst))),
                    }
                },
            },
            0b1110011 => {
                let zero = funct3 == 0 && inst.rd() == 0 && inst.rs1() == 0;
                let imm = inst.imm_i();
                if zero && imm == 0 {
                    Some(Self::ECall(InstI(inst)))
                } else if zero && imm == 1 {
                    Some(Self::EBreak(InstI(inst)))
                } else {
                    None
                }
            },
            _ => None,
        }
    }

    fn _new(bytes: &[u8]) -> (r: Result<Self, Error>)
        ensures
            r == Self::decoded(bytes@),
    {
        if bytes.len() < 4 {
            return Err(Error::ErrBytecodeLengthNotEnough);
        }
        let inst = Inst::new([bytes[0], bytes[1], bytes[2], bytes[3]]);
        match Self::decode_base(inst) {
            Some(known) => Ok(known),
            None => match I::new(bytes) {
                Ok(sub) => Ok(Self::Other(sub)),
                Err(e) => Err(e),
            },
        }
    }
}

impl<I: Instruction> Instruction for RV32iBaseInst<I> {
    type Register = I::Register;

    open spec fn decoded(bytes: Seq<u8>) -> Result<Self, Error> {
        if bytes.len() < 4 {
            Err(Error::ErrBytecodeLengthNotEnough)
        } else {
            match decode_word::<I>(le_word(bytes[0], bytes[1], bytes[2], bytes[3])) {
                Some(known) => Ok(known),
                None => match I::decoded(bytes) {
                    Ok(sub) => Ok(RV32iBaseInst::Other(sub)),
                    Err(e) => Err(e),
                },
            }
        }
    }

    open spec fn fits(&self, s: MachineState) -> bool {
        match self {
            RV32iBaseInst::Lb(i)
            | RV32iBaseInst::Lbu(i) => access_fits(ea_i(i.word(), s.regs), 1, s.mem),
            RV32iBaseInst::Lh(i)
            | RV32iBaseInst::Lhu(i) => access_fits(ea_i(i.word(), s.regs), 2, s.mem),
            RV32iBaseInst::Lw(i)
            | RV32iBaseInst::Lwu(i) => access_fits(ea_i(i.word(), s.regs), 4, s.mem),
            RV32iBaseInst::Sb(i) => access_fits(ea_s(i.word(), s.regs), 1, s.mem),
            RV32iBaseInst::Sh(i) => access_fits(ea_s(i.word(), s.regs), 2, s.mem),
            RV32iBaseInst::Sw(i) => access_fits(ea_s(i.word(), s.regs), 4, s.mem),
            RV32iBaseInst::Other(sub) => sub.fits(s),
            _ => true,
        }
    }

    open spec fn step(&self, s: MachineState) -> Result<MachineState, Error> {
        let x = s.regs;
        match self {
            RV32iBaseInst::Lui(i) => Ok(retire(s, rd_of(i.word()), imm_u_of(i.word()))),
            RV32iBaseInst::Auipc(i) => Ok(
                retire(s, rd_of(i.word()), s.pc.wrapping_add(imm_u_of(i.word()))),
            ),
            RV32iBaseInst::Jal(i) => Ok(
                link(
                    s,
                    rd_of(i.word()),
                    s.pc.wrapping_add_signed(sext21(imm_j_of(i.word())) as i32),
                ),
            ),
            RV32iBaseInst::Jalr(i) => Ok(link(s, rd_of(i.word()), jalr_target(i.word(), x))),
            RV32iBaseInst::Beq(i) => Ok(
                branch_to(s, x[rs1_of(i.word()) as int] == x[rs2_of(i.word()) as int], i.word()),
            ),
            RV32iBaseInst::Bne(i) => Ok(
                branch_to(s, x[rs1_of(i.word()) as int] != x[rs2_of(i.word()) as int], i.word()),
            ),
            RV32iBaseInst::Blt(i) => Ok(
                branch_to(
                    s,
                    (x[rs1_of(i.word()) as int] as i32) < (x[rs2_of(i.word()) as int] as i32),
                    i.word(),
                ),
            ),
            RV32iBaseInst::Bge(i) => Ok(
                branch_to(
                    s,
                    (x[rs1_of(i.word()) as int] as i32) >= (x[rs2_of(i.word()) as int] as i32),
                    i.word(),
                ),
            ),
            RV32iBaseInst::Bltu(i) => Ok(
                branch_to(s, x[rs1_of(i.word()) as int] < x[rs2_of(i.word()) as int], i.word()),
            ),
            RV32iBaseInst::Bgeu(i) => Ok(
                branch_to(s, x[rs1_of(i.word()) as int] >= x[rs2_of(i.word()) as int], i.word()),
            ),
            RV32iBaseInst::Lb(i) => Ok(
                retire(s, rd_of(i.word()), sext8(byte_at(s, ea_i(i.word(), x) as int) as u32)),
            ),
            RV32iBaseInst::Lh(i) => Ok(
                retire(
                    s,
                    rd_of(i.word()),
                    sext16(
                        le_half(
                            byte_at(s, ea_i(i.word(), x) as int),
                            byte_at(s, ea_i(i.word(), x) + 1),
                        ),
                    ),
                ),
            ),
            RV32iBaseInst::Lw(i) | RV32iBaseInst::Lwu(i) => Ok(
                retire(s, rd_of(i.word()), load_word(s, ea_i(i.word(), x))),
            ),
            RV32iBaseInst::Lbu(i) => Ok(
                retire(s, rd_of(i.word()), byte_at(s, ea_i(i.word(), x) as int) as u32),
            ),
            RV32iBaseInst::Lhu(i) => Ok(
                retire(
                    s,
                    rd_of(i.word()),
                    le_half(
                        byte_at(s, ea_i(i.word(), x) as int),
                        byte_at(s, ea_i(i.word(), x) + 1),
                    ),
                ),
            ),
            RV32iBaseInst::Sb(i) => Ok(
                store_to(s, i.word(), rs2_bytes(s, i.word()).subrange(0, 1)),
            ),
            RV32iBaseInst::Sh(i) => Ok(
                store_to(s, i.word(), rs2_bytes(s, i.word()).subrange(0, 2)),
            ),
            RV32iBaseInst::Sw(i) => Ok(store_to(s, i.word(), rs2_bytes(s, i.word()))),
            RV32iBaseInst::Addi(i) => Ok(
                retire(
                    s,
                    rd_of(i.word()),
                    alu_spec(AluOp::Add, x[rs1_of(i.word()) as int], sext12(imm_i_of(i.word()))),
                ),
            ),
            RV32iBaseInst::Slti(i) => Ok(
                retire(
                    s,
                    rd_of(i.word()),
                    alu_spec(AluOp::Slt, x[rs1_of(i.word()) as int], sext12(imm_i_of(i.word()))),
                ),
            ),
            RV32iBaseInst::Sltiu(i) => Ok(
                retire(
                    s,
                    rd_of(i.word()),
                    alu_spec(AluOp::Sltu, x[rs1_of(i.word()) as int], sext12(imm_i_of(i.word()))),
                ),
            ),
            RV32iBaseInst::Xori(i) => Ok(
                retire(
                    s,
                    rd_of(i.word()),
                    alu_spec(AluOp::Xor, x[rs1_of(i.word()) as int], sext12(imm_i_of(i.word()))),
                ),
            ),
            RV32iBaseInst::Ori(i) => Ok(
                retire(
                    s,
                    rd_of(i.word()),
                    alu_spec(AluOp::Or, x[rs1_of(i.word()) as int], sext12(imm_i_of(i.word()))),
                ),
            ),
            RV32iBaseInst::Andi(i) => Ok(
                retire(
                    s,
                    rd_of(i.word()),
                    alu_spec(AluOp::And, x[rs1_of(i.word()) as int], sext12(imm_i_of(i.word()))),
                ),
            ),
            RV32iBaseInst::Slli(i) => Ok(
                retire(
                    s,
                    rd_of(i.word()),
                    alu_spec(AluOp::Sll, x[rs1_of(i.word()) as int], sext12(imm_i_of(i.word()))),
                ),
            ),
            RV32iBaseInst::Srli(i) => Ok(
                retire(
                    s,
                    rd_of(i.word()),
                    alu_spec(AluOp::Srl, x[rs1_of(i.word()) as int], sext12(imm_i_of(i.word()))),
                ),
            ),
            RV32iBaseInst::Srai(i) => Ok(
                retire(
                    s,
                    rd_of(i.word()),
                    alu_spec(AluOp::Sra, x[rs1_of(i.word()) as int], sext12(imm_i_of(i.word()))),
                ),
            ),
            RV32iBaseInst::Add(i) => Ok(
                retire(
                    s,
                    rd_of(i.word()),
                    alu_spec(AluOp::Add, x[rs1_of(i.word()) as int], x[rs2_of(i.word()) as int]),
                ),
            ),
            RV32iBaseInst::Sub(i) => Ok(
                retire(
                    s,
                    rd_of(i.word()),
                    alu_spec(AluOp::Sub, x[rs1_of(i.word()) as int], x[rs2_of(i.word()) as int]),
                ),
            ),
            RV32iBaseInst::Sll(i) => Ok(
                retire(
                    s,
                    rd_of(i.word()),
                    alu_spec(AluOp::Sll, x[rs1_of(i.word()) as int], x[rs2_of(i.word()) as int]),
                ),
            ),
            RV32iBaseInst::Slt(i) => Ok(
                retire(
                    s,
                    rd_of(i.word()),
                    alu_spec(AluOp::Slt, x[rs1_of(i.word()) as int], x[rs2_of(i.word()) as int]),
                ),
            ),
            RV32iBaseInst::Sltu(i) => Ok(
                retire(
                    s,
                    rd_of(i.word()),
                    alu_spec(AluOp::Sltu, x[rs1_of(i.word()) as int], x[rs2_of(i.word()) as int]),
                ),
            ),
            RV32iBaseInst::Xor(i) => Ok(
                retire(
                    s,
                    rd_of(i.word()),
                    alu_spec(AluOp::Xor, x[rs1_of(i.word()) as int], x[rs2_of(i.word()) as int]),
                ),
            ),
            RV32iBaseInst::Srl(i) => Ok(
                retire(
                    s,
                    rd_of(i.word()),
                    alu_spec(AluOp::Srl, x[rs1_of(i.word()) as int], x[rs2_of(i.word()) as int]),
                ),
            ),
            RV32iBaseInst::Sra(i) => Ok(
                retire(
                    s,
                    rd_of(i.word()),
                    alu_spec(AluOp::Sra, x[rs1_of(i.word()) as int], x[rs2_of(i.word()) as int]),
                ),
            ),
            RV32iBaseInst::Or(i) => Ok(
                retire(
                    s,
                    rd_of(i.word()),
                    alu_spec(AluOp::Or, x[rs1_of(i.word()) as int], x[rs2_of(i.word()) as int]),
                ),
            ),
            RV32iBaseInst::And(i) => Ok(
                retire(
                    s,
                    rd_of(i.word()),
                    alu_spec(AluOp::And, x[rs1_of(i.word()) as int], x[rs2_of(i.word()) as int]),
                ),
            ),
            RV32iBaseInst::ECall(_) => Err(Error::EnvironmentCall),
            RV32iBaseInst::EBreak(_) => Err(Error::Breakpoint),
            RV32iBaseInst::Other(sub) => match sub.step(s) {
                Ok(t) => Ok(MachineState { pc: t.pc, regs: t.regs.update(0, 0), mem: t.mem }),
                Err(e) => Err(e),
            },
        }
    }

    fn new(bytes: &[u8]) -> (r: Result<Self, Error>) {
        Self::_new(bytes)
    }

    fn in_bounds<M>(&self, pc: &I::Register, regs: &[I::Register], memory: &M) -> (r: bool) where
        M: Memory<Register = I::Register>,
     {
        match self {
            Self::Lb(i) | Self::Lbu(i) => execute::load_in_bounds(i, regs, memory, 1),
            Self::Lh(i) | Self::Lhu(i) => execute::load_in_bounds(i, regs, memory, 2),
            Self::Lw(i) | Self::Lwu(i) => execute::load_in_bounds(i, regs, memory, 4),
            Self::Sb(i) => execute::store_in_bounds(i, regs, memory, 1),
            Self::Sh(i) => execute::store_in_bounds(i, regs, memory, 2),
            Self::Sw(i) => execute::store_in_bounds(i, regs, memory, 4),
            Self::Other(sub) => sub.in_bounds(pc, regs, memory),
            _ => true,
        }
    }

    fn execute<M>(&mut self, pc: &mut I::Register, regs: &mut [I::Register], memory: &mut M) -> (r:
        Result<(), Error>) where M: Memory<Register = I::Register> + MemoryMut,
     {
        match self {
            Self::Lui(inst) => execute::lui(inst, pc, regs),
            Self::Auipc(inst) => execute::auipc(inst, pc, regs),
            Self::Jal(inst) => execute::jal(inst, pc, regs),
            Self::Jalr(inst) => execute::jalr(inst, pc, regs),
            Self::Beq(inst) => execute::beq(inst, pc, regs),
            Self::Bne(inst) => execute::bne(inst, pc, regs),
            Self::Blt(inst) => execute::blt(inst, pc, regs),
            Self::Bge(inst) => execute::bge(inst, pc, regs),
            Self::Bltu(inst) => execute::bltu(inst, pc, regs),
            Self::Bgeu(inst) => execute::bgeu(inst, pc, regs),
            Self::Lb(inst) => execute::lb(inst, pc, regs, memory),
            Self::Lh(inst) => execute::lh(inst, pc, regs, memory),
            Self::Lw(inst) => execute::lw(inst, pc, regs, memory),
            Self::Lbu(inst) => execute::lbu(inst, pc, regs, memory),
            Self::Lhu(inst) => execute::lhu(inst, pc, regs, memory),
            Self::Lwu(inst) => execute::lwu(inst, pc, regs, memory),
            Self::Sb(inst) => execute::sb(inst, pc, regs, memory),
            Self::Sh(inst) => execute::sh(inst, pc, regs, memory),
            Self::Sw(inst) => execute::sw(inst, pc, regs, memory),
            Self::Addi(inst) => execute::op_imm(inst, AluOp::Add, pc, regs),
            Self::Slti(inst) => execute::op_imm(inst, AluOp::Slt, pc, regs),
            Self::Sltiu(inst) => execute::op_imm(inst, AluOp::Sltu, pc, regs),
            Self::Xori(inst) => execute::op_imm(inst, AluOp::Xor, pc, regs),
            Self::Ori(inst) => execute::op_imm(inst, AluOp::Or, pc, regs),
            Self::Andi(inst) => execute::op_imm(inst, AluOp::And, pc, regs),
            Self::Slli(inst) => execute::op_imm(inst, AluOp::Sll, pc, regs),
            Self::Srli(inst) => execute::op_imm(inst, AluOp::Srl, pc, regs),
            Self::Srai(inst) => execute::op_imm(inst, AluOp::Sra, pc, regs),
            Self::Add(inst) => execute::op(inst, AluOp::Add, pc, regs),
            Self::Sub(inst) => execute::op(inst, AluOp::Sub, pc, regs),
            Self::Sll(inst) => execute::op(inst, AluOp::Sll, pc, regs),
            Self::Slt(inst) => execute::op(inst, AluOp::Slt, pc, regs),
            Self::Sltu(inst) => execute::op(inst, AluOp::Sltu, pc, regs),
            Self::Xor(inst) => execute::op(inst, AluOp::Xor, pc, regs),
            Self::Srl(inst) => execute::op(inst, AluOp::Srl, pc, regs),
            Self::Sra(inst) => execute::op(inst, AluOp::Sra, pc, regs),
            Self::Or(inst) => execute::op(inst, AluOp::Or, pc, regs),
            Self::And(inst) => execute::op(inst, AluOp::And, pc, regs),
            Self::ECall(_) => {
                return Err(Error::EnvironmentCall);
            },
            Self::EBreak(_) => {
                return Err(Error::Breakpoint);
            },
            Self::Other(sub) => {
                let r = sub.execute(pc, regs, memory);
                if r.is_err() {
                    return r;
                }
            },
        }
        execute::clear_x0(regs);
        Ok(())
    }
}

} // verus!
