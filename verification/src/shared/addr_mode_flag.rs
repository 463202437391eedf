//! Properties of an addressing mode, as a set of bits.

use vstd::prelude::*;
use vstd::std_specs::ops::BitAndSpecImpl;

verus! {

/// A set of addressing-mode properties, made from the constants below: `T(Abs)`.
#[derive(PartialEq, Eq, Structural, Debug, Clone, Copy)]
pub struct T(pub u8);

impl std::ops::BitAnd for T {
    type Output = Self;

    fn bitand(self, rhs: Self) -> (out: Self) {
        Self(self.0 & rhs.0)
    }
}

impl BitAndSpecImpl for T {
    open spec fn obeys_bitand_spec() -> bool {
        true
    }

    open spec fn bitand_req(self, rhs: Self) -> bool {
        true
    }

    open spec fn bitand_spec(self, rhs: Self) -> Self {
        T(self.0 & rhs.0)
    }
}

/// The union of three sets of properties.
pub fn combine(f1: T, f2: T, f3: T) -> (all: T)
    ensures
        all.0 == f1.0 | f2.0 | f3.0,
{
    let T(v1) = f1;
    let T(v2) = f2;
    let T(v3) = f3;
    T(v1 | v2 | v3)
}

/// Whether two sets of properties have a member in common.
pub fn is_set(f1: T, f2: T) -> (common: bool)
    ensures
        common == (f1.0 & f2.0 != 0),
{
    let T(v1) = f1;
    let T(v2) = f2;
    (v1 & v2) != 0
}

/// No property at all.
pub const NoFlag: u8 = 0;

/// The operand bytes stand for an address that has to be resolved.
pub const Resolve: u8 = 0x01;

/// The operand is a pointer to the address.
pub const Ind: u8 = 0x04;

/// The operand is a full 16-bit address.
pub const Abs: u8 = 0x08;

/// The operand is an address in the zero page.
pub const Zpg: u8 = 0x10;

/// The address is indexed by register X.
pub const X: u8 = 0x20;

/// The address is indexed by register Y.
pub const Y: u8 = 0x40;

/// The address is not indexed.
pub const NoIndex: u8 = 0x80;

} // verus!
