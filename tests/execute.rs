use tangram::driver::{tick, Tick};
use tangram::{Error, Instruction, RV32iBaseInst, RV32iEnvInst};

type Base = RV32iBaseInst<()>;

fn le(w: u32) -> [u8; 4] {
    w.to_le_bytes()
}

fn i_type(imm: i32, rs1: u32, funct3: u32, rd: u32, opcode: u32) -> [u8; 4] {
    le((((imm as u32) & 0xFFF) << 20) | (rs1 << 15) | (funct3 << 12) | (rd << 7) | opcode)
}

fn r_type(funct7: u32, rs2: u32, rs1: u32, funct3: u32, rd: u32) -> [u8; 4] {
    le((funct7 << 25) | (rs2 << 20) | (rs1 << 15) | (funct3 << 12) | (rd << 7) | 0x33)
}

fn s_type(imm: i32, rs2: u32, rs1: u32, funct3: u32) -> [u8; 4] {
    let imm = (imm as u32) & 0xFFF;
    le(((imm >> 5) << 25) | (rs2 << 20) | (rs1 << 15) | (funct3 << 12) | ((imm & 0x1F) << 7) | 0x23)
}

fn b_type(imm: i32, rs2: u32, rs1: u32, funct3: u32) -> [u8; 4] {
    let imm = (imm as u32) & 0x1FFF;
    le((((imm >> 12) & 1) << 31)
        | (((imm >> 5) & 0x3F) << 25)
        | (rs2 << 20)
        | (rs1 << 15)
        | (funct3 << 12)
        | (((imm >> 1) & 0xF) << 8)
        | (((imm >> 11) & 1) << 7)
        | 0x63)
}

struct Machine {
    pc: u32,
    regs: [u32; 32],
    mem: [u8; 512],
}

impl Machine {
    fn new() -> Self {
        Machine { pc: 0, regs: [0; 32], mem: [0; 512] }
    }

    fn run(&mut self, bytes: &[u8]) -> Result<(), Error> {
        let mut inst = Base::new(bytes)?;
        assert!(inst.in_bounds(&self.pc, &self.regs, &self.mem));
        inst.execute(&mut self.pc, &mut self.regs, &mut self.mem)
    }
}

#[test]
fn test_a() {
    let mut memory = [0u8; 32];
    let mut pc = 0u32;
    let mut regs = [0u32; 32];

    let code = [0u8; 4];
    let mut base = RV32iEnvInst::<()>::new(&code).unwrap();
    let r = base.execute(&mut pc, &mut regs, &mut memory);

    assert_eq!(r, Err(Error::ErrFailedDeocdeInstructon))
}

#[test]
fn lui_then_addi_builds_a_constant() {
    let mut m = Machine::new();
    m.run(&[0x37, 0x85, 0x0b, 0x00]).unwrap();
    assert_eq!(m.regs[10], 0xB8 << 12);
    assert_eq!(m.pc, 4);
    m.run(&i_type(0x48, 10, 0, 10, 0x13)).unwrap();
    assert_eq!(m.regs[10], 0xB8048);
    assert_eq!(m.pc, 8);

    // 0x12345FFF: the upper part is rounded up because ADDI sign-extends -1.
    m.run(&le(0x1234_6000 | (11 << 7) | 0x37)).unwrap();
    m.run(&i_type(-1, 11, 0, 11, 0x13)).unwrap();
    assert_eq!(m.regs[11], 0x1234_5FFF);
}

#[test]
fn jal_negative_offset() {
    let mut m = Machine::new();
    m.pc = 0x1000;
    m.run(&[0x6F, 0xF0, 0x1F, 0xFA]).unwrap();
    assert_eq!(m.pc, 0x0FA0);
    assert_eq!(m.regs[0], 0);
}

#[test]
fn jal_links_return_address() {
    let mut m = Machine::new();
    m.pc = 0x100;
    // jal x1, +2048
    m.run(&le(0x0010_00EF)).unwrap();
    assert_eq!(m.pc, 0x900);
    assert_eq!(m.regs[1], 0x104);
}

#[test]
fn jalr_reads_rs1_before_linking() {
    let mut m = Machine::new();
    m.pc = 0x40;
    m.regs[5] = 0x203;
    // jalr x5, 4(x5)
    m.run(&i_type(4, 5, 0, 5, 0x67)).unwrap();
    assert_eq!(m.pc, 0x206);
    assert_eq!(m.regs[5], 0x44);
}

#[test]
fn beq_taken() {
    let mut m = Machine::new();
    m.regs[1] = 5;
    m.regs[2] = 5;
    m.run(&b_type(16, 2, 1, 0)).unwrap();
    assert_eq!(m.pc, 16);
}

#[test]
fn beq_not_taken() {
    let mut m = Machine::new();
    m.regs[1] = 5;
    m.regs[2] = 6;
    m.run(&b_type(16, 2, 1, 0)).unwrap();
    assert_eq!(m.pc, 4);
}

#[test]
fn branch_comparison_matrix() {
    // (funct3, taken with x1 = -1 and x2 = 1)
    let cases = [(0b000, false), (0b001, true), (0b100, true), (0b101, false), (0b110, false), (0b111, true)];
    for (funct3, taken) in cases {
        let mut m = Machine::new();
        m.pc = 0x100;
        m.regs[1] = 0xFFFF_FFFF;
        m.regs[2] = 1;
        m.run(&b_type(-8, 2, 1, funct3)).unwrap();
        assert_eq!(m.pc, if taken { 0xF8 } else { 0x104 }, "funct3 {funct3}");
    }
}

#[test]
fn sw_then_lw_round_trip() {
    let mut m = Machine::new();
    m.regs[1] = 0x100;
    m.regs[2] = 0xDEAD_BEEF;
    m.run(&s_type(0, 2, 1, 0b010)).unwrap();
    m.run(&i_type(0, 1, 0b010, 3, 0x03)).unwrap();
    assert_eq!(m.regs[3], 0xDEAD_BEEF);
    assert_eq!(&m.mem[0x100..0x104], &[0xEF, 0xBE, 0xAD, 0xDE]);
    assert_eq!(m.pc, 8);
}

#[test]
fn sw_then_lw_at_other_addresses() {
    for (base, off, value) in [(0x0u32, 0i32, 0x0123_4567u32), (0x1F0, 12, 0x8000_0001), (0x105, -5, 0xFFFF_FFFF)] {
        let mut m = Machine::new();
        m.regs[1] = base;
        m.regs[2] = value;
        m.run(&s_type(off, 2, 1, 0b010)).unwrap();
        m.run(&i_type(off, 1, 0b010, 7, 0x03)).unwrap();
        assert_eq!(m.regs[7], value);
    }
}

#[test]
fn sb_and_sh_write_low_bytes() {
    let mut m = Machine::new();
    m.regs[1] = 0x20;
    m.regs[2] = 0x1122_3344;
    m.run(&s_type(0, 2, 1, 0b000)).unwrap();
    m.run(&s_type(4, 2, 1, 0b001)).unwrap();
    assert_eq!(&m.mem[0x20..0x28], &[0x44, 0, 0, 0, 0x44, 0x33, 0, 0]);
}

#[test]
fn loads_extend_by_sign_or_zero() {
    let mut m = Machine::new();
    m.mem[0x10] = 0x80;
    m.mem[0x11] = 0x80;
    m.mem[0x20] = 0x7F;
    m.regs[1] = 0x10;
    m.run(&i_type(0, 1, 0b000, 2, 0x03)).unwrap(); // lb
    m.run(&i_type(0, 1, 0b001, 3, 0x03)).unwrap(); // lh
    m.run(&i_type(0, 1, 0b100, 4, 0x03)).unwrap(); // lbu
    m.run(&i_type(0, 1, 0b101, 5, 0x03)).unwrap(); // lhu
    m.run(&i_type(0x10, 1, 0b000, 6, 0x03)).unwrap(); // lb of 0x7F
    assert_eq!(m.regs[2], 0xFFFF_FF80);
    assert_eq!(m.regs[3], 0xFFFF_8080);
    assert_eq!(m.regs[4], 0x80);
    assert_eq!(m.regs[5], 0x8080);
    assert_eq!(m.regs[6], 0x7F);
}

#[test]
fn ecall_reports_and_changes_nothing() {
    let mut m = Machine::new();
    m.pc = 0x40;
    m.regs[3] = 9;
    assert_eq!(m.run(&[0x73, 0x00, 0x00, 0x00]), Err(Error::EnvironmentCall));
    assert_eq!(m.pc, 0x40);
    assert_eq!(m.regs[3], 9);
}

#[test]
fn ebreak_reports() {
    let mut m = Machine::new();
    assert_eq!(m.run(&[0x73, 0x00, 0x10, 0x00]), Err(Error::Breakpoint));
    assert_eq!(m.pc, 0);
}

#[test]
fn env_layer_reports_ecall_and_delegates() {
    let mut memory = [0u8; 32];
    let mut pc = 0u32;
    let mut regs = [0u32; 32];
    let mut ecall = RV32iEnvInst::<Base>::new(&[0x73, 0, 0, 0]).unwrap();
    assert_eq!(ecall.execute(&mut pc, &mut regs, &mut memory), Err(Error::EnvironmentCall));
    let mut ebreak = RV32iEnvInst::<Base>::new(&[0x73, 0, 0x10, 0]).unwrap();
    assert_eq!(ebreak.execute(&mut pc, &mut regs, &mut memory), Err(Error::Breakpoint));
    let mut addi = RV32iEnvInst::<Base>::new(&i_type(7, 0, 0, 1, 0x13)).unwrap();
    assert!(addi.in_bounds(&pc, &regs, &memory));
    assert_eq!(addi.execute(&mut pc, &mut regs, &mut memory), Ok(()));
    assert_eq!((pc, regs[1]), (4, 7));
}

#[test]
fn short_bytecode_is_rejected() {
    assert!(matches!(Base::new(&[0x13, 0x00, 0x00]), Err(Error::ErrBytecodeLengthNotEnough)));
    assert!(matches!(RV32iEnvInst::<Base>::new(&[]), Err(Error::ErrBytecodeLengthNotEnough)));
}

#[test]
fn unknown_words_go_to_the_sub_interpreter() {
    let mut m = Machine::new();
    for w in [0x0000_0000u32, 0x0000_600F, 0x0000_6003, 0x0000_3023, 0x0200_1013, 0x0200_1033, 0x0000_1067, 0x0020_0073] {
        let inst = Base::new(&le(w)).unwrap();
        assert!(matches!(inst, RV32iBaseInst::Other(())), "{w:#x}");
        assert_eq!(m.run(&le(w)), Err(Error::ErrFailedDeocdeInstructon));
    }
    assert_eq!(m.pc, 0);
}

#[test]
fn x0_stays_zero() {
    let mut m = Machine::new();
    m.run(&i_type(5, 0, 0, 0, 0x13)).unwrap(); // addi x0, x0, 5
    assert_eq!(m.regs[0], 0);
    m.run(&[0x37, 0x00, 0x0b, 0x00]).unwrap(); // lui x0, 0xb0
    assert_eq!(m.regs[0], 0);
    assert_eq!(m.pc, 8);
}

#[test]
fn alu_register_operations() {
    // (funct7, funct3, expected) for x1 = 0xFFFF_FFF0 (-16), x2 = 3
    let cases = [
        (0x00, 0b000, 0xFFFF_FFF3u32),
        (0x20, 0b000, 0xFFFF_FFED),
        (0x00, 0b001, 0xFFFF_FF80),
        (0x00, 0b010, 1),
        (0x00, 0b011, 0),
        (0x00, 0b100, 0xFFFF_FFF3),
        (0x00, 0b101, 0x1FFF_FFFE),
        (0x20, 0b101, 0xFFFF_FFFE),
        (0x00, 0b110, 0xFFFF_FFF3),
        (0x00, 0b111, 0),
    ];
    for (funct7, funct3, expected) in cases {
        let mut m = Machine::new();
        m.regs[1] = 0xFFFF_FFF0;
        m.regs[2] = 3;
        m.run(&r_type(funct7, 2, 1, funct3, 3)).unwrap();
        assert_eq!(m.regs[3], expected, "funct7 {funct7:#x} funct3 {funct3}");
        assert_eq!(m.pc, 4);
    }
}

#[test]
fn alu_immediate_operations() {
    // (imm, funct3, expected) for x1 = 0xFFFF_FFF0 (-16)
    let cases = [
        (-1, 0b000, 0xFFFF_FFEFu32),
        (-15, 0b010, 1),
        (-17, 0b010, 0),
        (-1, 0b011, 1),
        (1, 0b011, 0),
        (0x0F, 0b100, 0xFFFF_FFFF),
        (0x0F, 0b110, 0xFFFF_FFFF),
        (0x0F, 0b111, 0),
        (4, 0b001, 0xFFFF_FF00),
        (4, 0b101, 0x0FFF_FFFF),
        (0x400 | 4, 0b101, 0xFFFF_FFFF),
    ];
    for (imm, funct3, expected) in cases {
        let mut m = Machine::new();
        m.regs[1] = 0xFFFF_FFF0;
        m.run(&i_type(imm, 1, funct3, 2, 0x13)).unwrap();
        assert_eq!(m.regs[2], expected, "imm {imm} funct3 {funct3}");
    }
}

#[test]
fn shift_immediate_matches_shift_register() {
    for k in [0u32, 1, 7, 31] {
        for (funct3, funct7) in [(0b001, 0), (0b101, 0), (0b101, 0x20)] {
            let mut a = Machine::new();
            a.regs[1] = 0x8765_4321;
            a.run(&i_type(((funct7 << 5) | k) as i32, 1, funct3, 3, 0x13)).unwrap();
            let mut b = Machine::new();
            b.regs[1] = 0x8765_4321;
            b.regs[2] = k;
            b.run(&r_type(funct7, 2, 1, funct3, 3)).unwrap();
            assert_eq!(a.regs[3], b.regs[3]);
            assert_eq!(a.pc, b.pc);
        }
    }
}

#[test]
fn auipc_adds_pc() {
    let mut m = Machine::new();
    m.pc = 0x100;
    m.run(&le(0x0000_1000 | (4 << 7) | 0x17)).unwrap();
    assert_eq!(m.regs[4], 0x1100);
    assert_eq!(m.pc, 0x104);
}

#[test]
fn pc_wraps_modulo_2_32() {
    let mut m = Machine::new();
    m.pc = 0xFFFF_FFFC;
    m.run(&i_type(1, 0, 0, 1, 0x13)).unwrap();
    assert_eq!(m.pc, 0);
}

#[test]
fn out_of_bounds_access_is_detected() {
    let m = Machine::new();
    let lw = Base::new(&i_type(0x1FE, 0, 0b010, 1, 0x03)).unwrap();
    assert!(!lw.in_bounds(&m.pc, &m.regs, &m.mem));
    let lb = Base::new(&i_type(0x1FF, 0, 0b000, 1, 0x03)).unwrap();
    assert!(lb.in_bounds(&m.pc, &m.regs, &m.mem));
}

#[test]
fn decode_then_encode_gives_the_bytes_back() {
    let words = [
        0x000B_8537u32, 0xFA1F_F06F, 0x0480_0593, 0x0020_8863, 0xFE20_9CE3, 0x0020_A023, 0x0000_A183,
        0x4073_02B3, 0x4040_D093, 0x0000_0073, 0x0010_0073, 0x0041_0167, 0x0000_4503,
    ];
    for w in words {
        let inst = Base::new(&le(w)).unwrap();
        assert_eq!(inst.encode(), Some(le(w)), "{w:#x}");
    }
    assert_eq!(Base::new(&le(0)).unwrap().encode(), None);
}

#[test]
fn tick_reports_each_outcome() {
    let mut pc = 0u32;
    let mut regs = [0u32; 32];
    let mut mem = [0u8; 16];

    let r = tick::<Base, _>(&i_type(3, 0, 0, 1, 0x13), &mut pc, &mut regs, &mut mem);
    assert!(matches!(r, Tick::Retired(RV32iBaseInst::Addi(_))));
    assert_eq!((pc, regs[1]), (4, 3));

    let r = tick::<Base, _>(&[0x73, 0, 0, 0], &mut pc, &mut regs, &mut mem);
    assert!(matches!(r, Tick::Stopped(Error::EnvironmentCall)));
    let r = tick::<Base, _>(&[0x13, 0], &mut pc, &mut regs, &mut mem);
    assert!(matches!(r, Tick::Stopped(Error::ErrBytecodeLengthNotEnough)));
    let r = tick::<Base, _>(&i_type(16, 0, 0b000, 2, 0x03), &mut pc, &mut regs, &mut mem);
    assert!(matches!(r, Tick::OutOfRange(RV32iBaseInst::Lb(_))));
    let r = tick::<Base, _>(&le(0), &mut pc, &mut regs, &mut mem);
    assert!(matches!(r, Tick::Stopped(Error::ErrFailedDeocdeInstructon)));
    assert_eq!((pc, regs[2]), (4, 0));
}
