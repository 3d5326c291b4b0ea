//! The register capabilities of the `riscv` layer, with the same contracts as
//! `Reg32` and `Reg64`.
use vstd::prelude::*;

verus! {

/// The register capability of the `riscv` layer: a cell that reads and writes as a
/// 32-bit register.
pub trait RV32Register: Sized {
    /// The 32-bit value that the cell reads as.
    spec fn view32(&self) -> u32;

    fn reg32(&self) -> (r: u32)
        ensures
            r == self.view32(),
    ;

    fn set_reg32(&mut self, v: u32)
        ensures
            final(self).view32() == v,
    ;

    /// The value read as a signed 32-bit integer.
    fn symbol32(&self) -> (r: i32)
        ensures
            r == self.view32() as i32,
    {
        self.reg32() as i32
    }

    /// Writes a signed 32-bit value.
    fn set_symbol32(&mut self, v: i32)
        ensures
            final(self).view32() == v as u32,
    {
        self.set_reg32(v as u32)
    }

    /// Adds a signed value, wrapping modulo 2^32.
    fn add_symbol32(&mut self, v: i32)
        ensures
            final(self).view32() == old(self).view32().wrapping_add_signed(v),
    {
        let r = self.reg32().wrapping_add_signed(v);
        self.set_reg32(r)
    }

    /// Adds an unsigned value, wrapping modulo 2^32.
    fn add_reg32(&mut self, v: u32)
        ensures
            final(self).view32() == old(self).view32().wrapping_add(v),
    {
        let r = self.reg32().wrapping_add(v);
        self.set_reg32(r)
    }
}

impl RV32Register for u32 {
    open spec fn view32(&self) -> u32 {
        *self
    }

    fn reg32(&self) -> (r: u32) {
        *self
    }

    fn set_reg32(&mut self, v: u32) {
        *self = v;
    }
}

/// A 64-bit cell reads its low 32 bits; a 32-bit write zero-extends, a signed
/// 32-bit write sign-extends.
impl RV32Register for u64 {
    open spec fn view32(&self) -> u32 {
        *self as u32
    }

    fn reg32(&self) -> (r: u32) {
        *self as u32
    }

    fn set_reg32(&mut self, v: u32)
        ensures
            *final(self) == v as u64,
    {
        *self = v as u64;
        proof {
            assert((v as u64) as u32 == v) by (bit_vector);
        }
    }

    fn set_symbol32(&mut self, v: i32)
        ensures
            *final(self) == (v as i64) as u64,
    {
        *self = (v as i64) as u64;
        proof {
            assert(((v as i64) as u64) as u32 == v as u32) by (bit_vector);
        }
    }
}

/// The 64-bit register capability of the `riscv` layer.
pub trait RV64Register: RV32Register {
    /// The 64-bit value that the cell reads as.
    spec fn view64(&self) -> u64;

    fn reg64(&self) -> (r: u64)
        ensures
            r == self.view64(),
    ;

    fn set_reg64(&mut self, v: u64)
        ensures
            final(self).view64() == v,
            final(self).view32() == v as u32,
    ;

    /// The value read as a signed 64-bit integer.
    fn symbol64(&self) -> (r: i64)
        ensures
            r == self.view64() as i64,
    {
        self.reg64() as i64
    }

    /// Writes a signed 64-bit value.
    fn set_symbol64(&mut self, v: i64)
        ensures
            final(self).view64() == v as u64,
            final(self).view32() == v as u32,
    {
        proof {
            assert((v as u64) as u32 == v as u32) by (bit_vector);
        }
        self.set_reg64(v as u64)
    }
}

impl RV64Register for u64 {
    open spec fn view64(&self) -> u64 {
        *self
    }

    fn reg64(&self) -> (r: u64) {
        *self
    }

    fn set_reg64(&mut self, v: u64) {
        *self = v
    }
}

} // verus!
