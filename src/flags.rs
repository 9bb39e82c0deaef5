use vstd::prelude::*;

verus! {

pub const CARRY: u8 = 0b0000_0001;

pub const ZERO: u8 = 0b0000_0010;

pub const INTERRUPT_DISABLE: u8 = 0b0000_0100;

/// Decimal mode; the NES variant of the chip has no decimal arithmetic.
pub const DECIMAL_MODE: u8 = 0b0000_1000;

pub const BREAK: u8 = 0b0001_0000;

/// Bit 5, which has no meaning but is set in every pushed copy of the status register.
pub const BREAK2: u8 = 0b0010_0000;

pub const OVERFLOW: u8 = 0b0100_0000;

pub const NEGATIVE: u8 = 0b1000_0000;

/// `p` with the bits of `mask` set when `on`, cleared otherwise.
pub open spec fn set_flag(p: u8, mask: u8, on: bool) -> u8 {
    if on {
        p | mask
    } else {
        p & !mask
    }
}

/// Whether every bit of `mask` is set in `p`.
pub open spec fn has_flag(p: u8, mask: u8) -> bool {
    p & mask == mask
}

/// The status register, bit 0 (carry) to bit 7 (negative).
#[derive(Clone, Copy, Debug, PartialEq, Eq, Structural)]
pub struct CpuFlags {
    pub bits: u8,
}

impl CpuFlags {
    /// Every bit has a name, so no bit is dropped.
    pub fn from_bits_truncate(bits: u8) -> (r: CpuFlags)
        ensures
            r.bits == bits,
    {
        CpuFlags { bits }
    }

    pub fn bits(&self) -> (r: u8)
        ensures
            r == self.bits,
    {
        self.bits
    }

    pub fn contains(&self, mask: u8) -> (r: bool)
        ensures
            r == has_flag(self.bits, mask),
    {
        self.bits & mask == mask
    }

    pub fn insert(&mut self, mask: u8)
        ensures
            final(self).bits == set_flag(old(self).bits, mask, true),
    {
        self.bits = self.bits | mask;
    }

    pub fn remove(&mut self, mask: u8)
        ensures
            final(self).bits == set_flag(old(self).bits, mask, false),
    {
        self.bits = self.bits & !mask;
    }

    pub fn set(&mut self, mask: u8, on: bool)
        ensures
            final(self).bits == set_flag(old(self).bits, mask, on),
    {
        if on {
            self.insert(mask);
        } else {
            self.remove(mask);
        }
    }
}

} // verus!
