//! The processor's view of memory: sixteen address lines and eight data lines.

use vstd::prelude::*;
use crate::shared::{word_of, offset, Mem};

verus! {

/// A memory bus. Its view is the state that decides what a read returns.
pub trait Bus: View {
    /// Whether `s` is a state in which every address can be read and written.
    spec fn valid(s: Self::V) -> bool;

    /// The byte that a read of `addr` returns in state `s`.
    spec fn peek(s: Self::V, addr: u16) -> u8;

    /// The state after a write of `val` to `addr` in state `s`.
    spec fn poke(s: Self::V, addr: u16, val: u8) -> Self::V;

    /// A write leads from a valid state to a valid state.
    proof fn poke_keeps_valid(s: Self::V, addr: u16, val: u8)
        requires
            Self::valid(s),
        ensures
            Self::valid(Self::poke(s, addr, val)),
    ;

    /// The stack page, `0x0100` to `0x01FF`, is plain storage: a cell of it
    /// holds the last value written to it, whatever was written elsewhere.
    proof fn stack_page_is_storage(s: Self::V, addr: u16, val: u8, cell: u16)
        requires
            Self::valid(s),
            0x0100 <= cell <= 0x01FF,
        ensures
            Self::peek(Self::poke(s, addr, val), cell) == (if addr == cell {
                val
            } else {
                Self::peek(s, cell)
            }),
    ;

    /// Reads the byte at `addr`.
    fn get(&self, addr: u16) -> (val: u8)
        requires
            Self::valid(self@),
        ensures
            val == Self::peek(self@, addr),
    ;

    /// Writes `val` to `addr`.
    fn set(&mut self, addr: u16, val: u8)
        requires
            Self::valid(old(self)@),
        ensures
            final(self)@ == Self::poke(old(self)@, addr, val),
            Self::valid(final(self)@),
    ;
}

/// The word that a read of `addr` and of the address after it returns, low
/// byte first. After `0xFFFF` comes `0x0000`.
pub open spec fn peek_word<B: Bus>(s: B::V, addr: u16) -> u16 {
    word_of(B::peek(s, addr), B::peek(s, offset(addr, 1)))
}

/// Flat memory is a bus when it spans the whole address space.
impl Bus for Mem {
    open spec fn valid(s: Seq<u8>) -> bool {
        s.len() == 0x10000
    }

    open spec fn peek(s: Seq<u8>, addr: u16) -> u8 {
        s[addr as int]
    }

    open spec fn poke(s: Seq<u8>, addr: u16, val: u8) -> Seq<u8> {
        s.update(addr as int, val)
    }

    proof fn poke_keeps_valid(s: Seq<u8>, addr: u16, val: u8) {
    }

    proof fn stack_page_is_storage(s: Seq<u8>, addr: u16, val: u8, cell: u16) {
    }

    fn get(&self, addr: u16) -> (val: u8) {
        self.read(addr)
    }

    fn set(&mut self, addr: u16, val: u8) {
        self.write(addr, val);
    }
}

/// In flat memory a cell holds the last value written to it: a write is read
/// back, and changes no other cell.
pub proof fn mem_write_then_read(s: Seq<u8>, addr: u16, val: u8, cell: u16)
    requires
        Mem::valid(s),
    ensures
        Mem::peek(Mem::poke(s, addr, val), cell) == (if addr == cell {
            val
        } else {
            Mem::peek(s, cell)
        }),
{
}

} // verus!
