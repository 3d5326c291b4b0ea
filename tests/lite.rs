use tangram::core_set::{RiscV32iInstruction, RiscVRegister, U3};
use tangram::lite::RiscV32iLiteInstruction;
use tangram::Error;

fn le(w: u32) -> [u8; 4] {
    w.to_le_bytes()
}

fn i_type(imm: i32, rs1: u32, funct3: u32, rd: u32, opcode: u32) -> [u8; 4] {
    le((((imm as u32) & 0xFFF) << 20) | (rs1 << 15) | (funct3 << 12) | (rd << 7) | opcode)
}

fn r_type(funct7: u32, rs2: u32, rs1: u32, funct3: u32, rd: u32) -> [u8; 4] {
    le((funct7 << 25) | (rs2 << 20) | (rs1 << 15) | (funct3 << 12) | (rd << 7) | 0x33)
}

#[test]
fn lite_runs_lui_and_addi() {
    let mut mem = [0u8; 64];
    let mut pc = 0u32;
    let mut regs = [0u32; 32];
    RiscV32iLiteInstruction::new([0x37, 0x85, 0x0b, 0x00], &mut mem).execute(&mut pc, &mut regs).unwrap();
    RiscV32iLiteInstruction::new(i_type(0x48, 10, 0, 10, 0x13), &mut mem).execute(&mut pc, &mut regs).unwrap();
    assert_eq!(regs[10], 0xB8048);
    assert_eq!(pc, 8);
}

#[test]
fn lite_iset_reads_rs1() {
    let mut mem = [0u8; 4];
    let mut pc = 0u32;
    let mut regs = [0u32; 32];
    regs[1] = 10;
    RiscV32iLiteInstruction::new(i_type(5, 1, 0, 2, 0x13), &mut mem).iset(&mut pc, &mut regs).unwrap();
    assert_eq!(regs[2], 15);
}

#[test]
fn lite_opset_or_and_and() {
    let mut mem = [0u8; 4];
    let mut pc = 0u32;
    let mut regs = [0u32; 32];
    regs[1] = 0b1100;
    regs[2] = 0b1010;
    RiscV32iLiteInstruction::new(r_type(0, 2, 1, 0b110, 3), &mut mem).opset(&mut pc, &mut regs).unwrap();
    RiscV32iLiteInstruction::new(r_type(0, 2, 1, 0b111, 4), &mut mem).opset(&mut pc, &mut regs).unwrap();
    assert_eq!(regs[3], 0b1110);
    assert_eq!(regs[4], 0b1000);
    assert_eq!(
        RiscV32iLiteInstruction::new(r_type(1, 2, 1, 0b111, 4), &mut mem).opset(&mut pc, &mut regs),
        Err(Error::UnsupportFunct3)
    );
}

#[test]
fn lite_store_then_load() {
    let mut mem = [0u8; 64];
    let mut pc = 0u32;
    let mut regs = [0u32; 32];
    regs[1] = 0x10;
    regs[2] = 0x8000_00FF;
    // sw x2, 4(x1)
    let sw = le((2 << 20) | (1 << 15) | (2 << 12) | (4 << 7) | 0x23);
    RiscV32iLiteInstruction::new(sw, &mut mem).sset(&mut pc, &mut regs).unwrap();
    assert_eq!(&mem[0x14..0x18], &[0xFF, 0x00, 0x00, 0x80]);
    RiscV32iLiteInstruction::new(i_type(4, 1, 0b010, 3, 0x03), &mut mem).lset(&mut pc, &mut regs).unwrap();
    RiscV32iLiteInstruction::new(i_type(4, 1, 0b000, 4, 0x03), &mut mem).lset(&mut pc, &mut regs).unwrap();
    assert_eq!(regs[3], 0x8000_00FF);
    assert_eq!(regs[4], 0xFFFF_FFFF);
    assert_eq!(pc, 12);
}

#[test]
fn lite_reports_unsupported_words() {
    let mut mem = [0u8; 16];
    let mut pc = 0u32;
    let mut regs = [0u32; 32];
    assert_eq!(
        RiscV32iLiteInstruction::new([0x73, 0, 0, 0], &mut mem).execute(&mut pc, &mut regs),
        Err(Error::UnsupportOpcode)
    );
    assert_eq!(
        RiscV32iLiteInstruction::new(le(0x0000_2063), &mut mem).execute(&mut pc, &mut regs),
        Err(Error::UnsupportFunct3)
    );
    assert_eq!(
        RiscV32iLiteInstruction::new(i_type(0, 0, 0b110, 1, 0x03), &mut mem).execute(&mut pc, &mut regs),
        Err(Error::UnsupportFunct3)
    );
    assert_eq!(
        RiscV32iLiteInstruction::new(le((3 << 12) | 0x23), &mut mem).sset(&mut pc, &mut regs),
        Err(Error::UnsupportFunct3)
    );
    assert_eq!(pc, 0);
}

#[test]
fn lite_branch_and_jumps() {
    let mut mem = [0u8; 4];
    let mut pc = 0x100u32;
    let mut regs = [0u32; 32];
    // bne x1, x2, -8 with x1 != x2
    regs[1] = 1;
    RiscV32iLiteInstruction::new(le(0xFE20_9CE3), &mut mem).bset(&mut pc, &regs).unwrap();
    assert_eq!(pc, 0xF8);
    // jal x1, +2048
    RiscV32iLiteInstruction::new(le(0x0010_00EF), &mut mem).jal(&mut pc, &mut regs);
    assert_eq!((pc, regs[1]), (0x8F8, 0xFC));
    // jalr x0, 0(x1)
    RiscV32iLiteInstruction::new(i_type(0, 1, 0, 0, 0x67), &mut mem).jalr(&mut pc, &mut regs);
    assert_eq!((pc, regs[0]), (0xFC, 0));
    // auipc x5, 1
    RiscV32iLiteInstruction::new(le(0x0000_1000 | (5 << 7) | 0x17), &mut mem).auipc(&mut pc, &mut regs);
    assert_eq!((pc, regs[5]), (0x100, 0x10FC));
    RiscV32iLiteInstruction::new(le(0x0000_1000 | (6 << 7) | 0x37), &mut mem).lui(&mut pc, &mut regs);
    assert_eq!((pc, regs[6]), (0x104, 0x1000));
}

#[test]
fn register_cell_reads_signed() {
    assert_eq!(RiscVRegister(0xFFFF_FFFE).symbol(), -2);
    assert_eq!(RiscVRegister(7).symbol(), 7);
}

#[test]
fn legacy_interpreter_runs_on_register_cells() {
    let mut mem = [0u8; 4];
    let mut pc = RiscVRegister(0);
    let mut regs = [RiscVRegister(0); 32];
    regs[1] = RiscVRegister(0xFFFF_FFF0);
    RiscV32iInstruction::new(i_type(4, 1, 0b101, 2, 0x13), &mut mem).iset(&mut pc, &mut regs).unwrap();
    assert_eq!(regs[2], RiscVRegister(0x0FFF_FFFF));
    RiscV32iInstruction::new(r_type(0x20, 1, 1, 0, 3), &mut mem).opset(&mut pc, &mut regs).unwrap();
    assert_eq!(regs[3], RiscVRegister(0));
    RiscV32iInstruction::new(le(0x0000_4063), &mut mem).bset(&mut pc, &regs).unwrap();
    assert_eq!(pc, RiscVRegister(12));
    RiscV32iInstruction::new([0x37, 0x85, 0x0b, 0x00], &mut mem).lui(&mut pc, &mut regs);
    assert_eq!((pc, regs[10]), (RiscVRegister(16), RiscVRegister(0xB8000)));
    assert_eq!(
        RiscV32iInstruction::new(le(0x0000_2063), &mut mem).bset(&mut pc, &regs),
        Err(Error::UnsupportFunct3)
    );
}

#[test]
fn u3_from_small_values() {
    assert_eq!(U3::from_u8(0), U3::N0);
    assert_eq!(U3::from_u8(5), U3::N5);
    assert_eq!(U3::from_u8(7), U3::N7);
}

#[test]
fn register_cell_derefs_to_its_value() {
    let r = RiscVRegister(0x1234);
    assert_eq!(*r, 0x1234);
}
