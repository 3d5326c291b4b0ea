use tangram::format::{InstB, InstI, InstJ, InstR, InstS, InstU};
use tangram::Inst;

#[test]
fn test_inst_u() {
    let inst = [0x37, 0x85, 0x0b, 0x00];
    let i = Inst::new(inst);

    assert_eq!(i.rd(), 10);
    assert_eq!(i.imm_u(), 0xb8 << 12);
}

#[test]
fn test_inst_uj() {
    let inst = [0x6f, 0xf0, 0x1f, 0xfa];
    let i = Inst::new(inst);

    assert_eq!(i.rd(), 0);
    assert_eq!(i.imm_uj_symbol(), -96);
}

#[test]
fn test_inst_i() {
    let inst = [0x93, 0x05, 0x80, 0x04];
    let i = Inst::new(inst);

    assert_eq!(i.rd(), 11);
    assert_eq!(i.funct3(), 0);
    assert_eq!(i.rs1(), 0);
    assert_eq!(i.imm_i(), 72);
}

#[test]
fn build_u32_is_little_endian() {
    assert_eq!(tangram::inst::build_u32([0x78, 0x56, 0x34, 0x12]), 0x1234_5678);
    assert_eq!(Inst::new([0x78, 0x56, 0x34, 0x12]).bits(), 0x1234_5678);
}

#[test]
fn register_fields_of_an_r_word() {
    // sub x5, x6, x7
    let i = Inst::from_word(0x4073_02B3);
    assert_eq!(i.opcode(), 0x33);
    assert_eq!(i.rd(), 5);
    assert_eq!(i.funct3(), 0);
    assert_eq!(i.rs1(), 6);
    assert_eq!(i.rs2(), 7);
    assert_eq!(i.funct7(), 0x20);
}

#[test]
fn s_immediate_positive_and_negative() {
    // sw x2, 8(x1)
    let i = Inst::from_word(0x0020_A423);
    assert_eq!(i.imm_s(), 8);
    assert_eq!(i.imm_s_symbol(), 8);
    // sw x2, -4(x1)
    let i = Inst::from_word(0xFE20_AE23);
    assert_eq!(i.imm_s(), 0xFFC);
    assert_eq!(i.imm_s_symbol(), -4);
}

#[test]
fn b_immediate_positive_and_negative() {
    // beq x1, x2, +16
    let i = Inst::from_word(0x0020_8863);
    assert_eq!(i.imm_sb(), 16);
    assert_eq!(i.imm_sb_symbol(), 16);
    // bne x1, x2, -8
    let i = Inst::from_word(0xFE20_9CE3);
    assert_eq!(i.imm_sb(), 0x1FF8);
    assert_eq!(i.imm_sb_symbol(), -8);
    // beq x0, x0, +2048 uses bit 7 for imm[11]
    let i = Inst::from_word(0x0000_0063 | 0x80);
    assert_eq!(i.imm_sb(), 0x800);
    assert_eq!(i.imm_sb_symbol(), 2048);
}

#[test]
fn i_and_j_immediates() {
    // addi x1, x0, -1
    let i = Inst::from_word(0xFFF0_0093);
    assert_eq!(i.imm_i(), 0xFFF);
    assert_eq!(i.imm_i_symbol(), -1);
    // jal x1, +2048
    let j = Inst::from_word(0x0010_00EF);
    assert_eq!(j.imm_uj(), 0x800);
    assert_eq!(j.imm_uj_symbol(), 2048);
    assert_eq!(Inst::from_word(0x7FE0_00EF).imm_uj(), 0x7FE);
    assert_eq!(Inst::from_word(0x0000_10EF).imm_uj(), 0x1000);
}

#[test]
fn format_wrappers_expose_their_fields() {
    let bytes = [0x93, 0x05, 0x80, 0x04];
    let i = InstI::new(bytes);
    assert_eq!((i.opcode(), i.rd(), i.funct3(), i.rs1(), i.imm(), i.imm_symbol()), (0x13, 11, 0, 0, 72, 72));
    assert_eq!(i.inst().bits(), 0x0480_0593);
    assert_eq!(i.encode(), 0x0480_0593);

    let u = InstU::new([0x37, 0x85, 0x0b, 0x00]);
    assert_eq!((u.rd(), u.imm(), u.imm_symbol()), (10, 0xb8000, 0xb8000));
    assert_eq!(u.encode(), 0x000B_8537);

    let j = InstJ::new([0x6f, 0xf0, 0x1f, 0xfa]);
    assert_eq!((j.rd(), j.imm_symbol()), (0, -96));
    assert_eq!(j.encode(), 0xFA1F_F06F);

    let s = InstS::from(Inst::from_word(0xFE20_AE23));
    assert_eq!((s.rs1(), s.rs2(), s.funct3(), s.imm_symbol()), (1, 2, 2, -4));
    assert_eq!(s.encode(), 0xFE20_AE23);

    let b = InstB::from(Inst::from_word(0xFE20_9CE3));
    assert_eq!((b.rs1(), b.rs2(), b.funct3(), b.imm(), b.imm_symbol()), (1, 2, 1, 0x1FF8, -8));
    assert_eq!(b.encode(), 0xFE20_9CE3);

    let r = InstR::from(Inst::from_word(0x4073_02B3));
    assert_eq!((r.rd(), r.rs1(), r.rs2(), r.funct3(), r.opcode()), (5, 6, 7, 0, 0x33));
    assert_eq!(r.encode(), 0x4073_02B3);
}
