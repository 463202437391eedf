//! The bits of the processor status byte.

use vstd::prelude::*;
use vstd::std_specs::ops::BitAndSpecImpl;

verus! {

/// A mask over the processor status byte, made from the constants below: `T(N)`.
#[derive(PartialEq, Eq, Structural, Debug, Clone, Copy)]
pub struct T(pub u8);

impl std::ops::BitAnd for T {
    type Output = Self;

    fn bitand(self, rhs: Self) -> (out: Self) {
        Self(self.0 & rhs.0)
    }
}

impl BitAndSpecImpl for T {
    open spec fn obeys_bitand_spec() -> bool {
        true
    }

    open spec fn bitand_req(self, rhs: Self) -> bool {
        true
    }

    open spec fn bitand_spec(self, rhs: Self) -> Self {
        T(self.0 & rhs.0)
    }
}

/// Negative.
pub const N: u8 = 0x80;

/// Overflow.
pub const V: u8 = 0x40;

/// Break. Not a real flag: it only appears when the status byte is saved in memory.
pub const B: u8 = 0x10;

/// Decimal.
pub const D: u8 = 0x08;

/// Interrupt disable.
pub const I: u8 = 0x04;

/// Zero.
pub const Z: u8 = 0x02;

/// Carry.
pub const C: u8 = 0x01;

} // verus!
