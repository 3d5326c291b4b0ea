use tangram::rv_register::{RV32Register, RV64Register};
use tangram::{Memory, MemoryMut, Reg32, Reg64};

#[test]
fn u32_cell_wraps_on_add() {
    let mut r: u32 = 0xFFFF_FFFF;
    Reg32::add_reg32(&mut r, 2);
    assert_eq!(r, 1);
    Reg32::add_symbol32(&mut r, -2);
    assert_eq!(r, 0xFFFF_FFFF);
    assert_eq!(Reg32::symbol32(&r), -1);
    Reg32::set_symbol32(&mut r, -5);
    assert_eq!(Reg32::reg32(&r), 0xFFFF_FFFB);
}

#[test]
fn u64_cell_extends_writes() {
    let mut r: u64 = 0;
    Reg32::set_symbol32(&mut r, -1);
    assert_eq!(r, 0xFFFF_FFFF_FFFF_FFFF);
    assert_eq!(Reg32::reg32(&r), 0xFFFF_FFFF);
    Reg32::set_reg32(&mut r, 0x8000_0000);
    assert_eq!(r, 0x8000_0000);
    Reg64::set_symbol64(&mut r, -2);
    assert_eq!(Reg64::reg64(&r), 0xFFFF_FFFF_FFFF_FFFE);
    assert_eq!(Reg64::symbol64(&r), -2);
    Reg32::add_reg32(&mut r, 3);
    assert_eq!(r, 1);
}

#[test]
fn riscv_layer_cells_match() {
    let mut r: u64 = 0;
    RV32Register::set_symbol32(&mut r, -1);
    assert_eq!(r, u64::MAX);
    RV32Register::add_symbol32(&mut r, 1);
    assert_eq!(RV32Register::reg32(&r), 0);
    RV64Register::set_reg64(&mut r, 0x1_0000_0002);
    assert_eq!(RV32Register::reg32(&r), 2);
    assert_eq!(RV64Register::symbol64(&r), 0x1_0000_0002);
    let mut s: u32 = 5;
    RV32Register::add_reg32(&mut s, u32::MAX);
    assert_eq!(RV32Register::symbol32(&s), 4);
}

#[test]
fn array_memory_loads_and_stores() {
    let mut mem = [0u8; 16];
    assert_eq!(mem.length(), 16);
    mem.store(3, &[1, 2, 3]);
    assert_eq!(mem.load(2, 5), &[0, 1, 2, 3, 0]);
    assert_eq!(mem.load(16, 0), &[] as &[u8]);
}
