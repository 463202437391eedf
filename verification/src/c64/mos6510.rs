//! The processor port of the 6510: two registers at addresses 0 and 1 that
//! switch the memory banks.

use vstd::prelude::*;

verus! {

/// The data direction register after a reset.
pub const REG_00_DEFAULT: u8 = 0x2F;

/// The port register after a reset.
pub const REG_01_DEFAULT: u8 = 0x37;

/// What answers in a window that holds RAM or ROM.
#[derive(Clone, Copy, PartialEq, Eq, Structural, Debug)]
pub enum RomRegion {
    Ram,
    Rom,
}

/// What answers in the window that holds RAM, the I/O registers or the
/// character ROM.
#[derive(Clone, Copy, PartialEq, Eq, Structural, Debug)]
pub enum IoRegion {
    Ram,
    Io,
    CharRom,
}

/// The two registers of the port.
pub struct PortState {
    /// The data direction register, at address 0.
    pub ddr: u8,
    /// The port register, at address 1.
    pub port: u8,
}

/// What the window at `0xA000` shows for a port value: the BASIC ROM where
/// both low bits are set.
pub open spec fn bank_a000_of(port: u8) -> RomRegion {
    if port % 4 == 3 {
        RomRegion::Rom
    } else {
        RomRegion::Ram
    }
}

/// What the window at `0xD000` shows for a port value: RAM where both low
/// bits are clear, and else the I/O registers or the character ROM, as bit 2
/// is set or not.
pub open spec fn bank_d000_of(port: u8) -> IoRegion {
    if port % 4 == 0 {
        IoRegion::Ram
    } else if port % 8 >= 4 {
        IoRegion::Io
    } else {
        IoRegion::CharRom
    }
}

/// What the window at `0xE000` shows for a port value: the KERNAL ROM where
/// bit 1 is set.
pub open spec fn bank_e000_of(port: u8) -> RomRegion {
    if port % 4 >= 2 {
        RomRegion::Rom
    } else {
        RomRegion::Ram
    }
}

/// The port after a write of `val` to address 0 or 1. A write to 0 sets the
/// data direction register. A write to 1 sets the port register to the
/// bits of `val` that the data direction register lets through.
pub open spec fn port_written(s: PortState, addr: u16, val: u8) -> PortState {
    if addr == 0 {
        PortState { ddr: val, ..s }
    } else {
        PortState { port: val & s.ddr, ..s }
    }
}

/// The processor port with the bank selection that follows from it.
pub struct Mos6510 {
    ddr: u8,
    port: u8,
    bank_a000: RomRegion,
    bank_d000: IoRegion,
    bank_e000: RomRegion,
}

impl View for Mos6510 {
    type V = PortState;

    closed spec fn view(&self) -> PortState {
        PortState { ddr: self.ddr, port: self.port }
    }
}

/// The port after a reset: the ROMs and the I/O registers are switched in.
pub fn new() -> (chip: Mos6510)
    ensures
        chip@ == (PortState { ddr: REG_00_DEFAULT, port: REG_01_DEFAULT }),
{
    Mos6510 {
        ddr: REG_00_DEFAULT,
        port: REG_01_DEFAULT,
        bank_a000: RomRegion::Rom,
        bank_d000: IoRegion::Io,
        bank_e000: RomRegion::Rom,
    }
}

impl Mos6510 {
    /// The bank selection is never stale: it is the one that the port
    /// register gives.
    #[verifier::type_invariant]
    spec fn banks_follow_port(self) -> bool {
        &&& self.bank_a000 == bank_a000_of(self.port)
        &&& self.bank_d000 == bank_d000_of(self.port)
        &&& self.bank_e000 == bank_e000_of(self.port)
    }

    /// The register at address 0 or 1.
    pub fn get(&self, addr: u16) -> (val: u8)
        requires
            addr <= 1,
        ensures
            val == (if addr == 0 { self@.ddr } else { self@.port }),
    {
        if addr == 0 {
            self.ddr
        } else {
            self.port
        }
    }

    /// Writes the register at address 0 or 1, and selects the banks anew
    /// after a write to the port register.
    pub fn set(&mut self, addr: u16, val: u8)
        requires
            addr <= 1,
        ensures
            final(self)@ == port_written(old(self)@, addr, val),
    {
        proof {
            use_type_invariant(&*self);
        }
        if addr == 0 {
            *self = Mos6510 {
                ddr: val,
                port: self.port,
                bank_a000: self.bank_a000,
                bank_d000: self.bank_d000,
                bank_e000: self.bank_e000,
            };
        } else {
            let masked_val = val & self.ddr;
            let bank_bits = masked_val & 0b111;
            assert(bank_bits == masked_val % 8 && bank_bits & 0b011 == masked_val % 4
                && (bank_bits & 0b100 == 0 || bank_bits & 0b100 == 4)
                && (bank_bits & 0b100 == 4) == (masked_val % 8 >= 4)) by (bit_vector)
                requires
                    bank_bits == masked_val & 0b111,
            ;
            let mut bank_a000 = RomRegion::Ram;
            let mut bank_d000 = IoRegion::Ram;
            let mut bank_e000 = RomRegion::Ram;
            if !(bank_bits == 0b000 || bank_bits == 0b100) {
                let rom_bits = bank_bits & 0b011;
                if rom_bits == 0b010 {
                    bank_e000 = RomRegion::Rom;
                } else if rom_bits == 0b011 {
                    bank_a000 = RomRegion::Rom;
                    bank_e000 = RomRegion::Rom;
                }
                if bank_bits & 0b100 == 0b100 {
                    bank_d000 = IoRegion::Io;
                } else {
                    bank_d000 = IoRegion::CharRom;
                }
            }
            *self = Mos6510 { ddr: self.ddr, port: masked_val, bank_a000, bank_d000, bank_e000 };
        }
    }

    /// What the window at `0xA000` shows.
    pub fn bank_a000(&self) -> (region: RomRegion)
        ensures
            region == bank_a000_of(self@.port),
    {
        proof {
            use_type_invariant(self);
        }
        self.bank_a000
    }

    /// What the window at `0xD000` shows.
    pub fn bank_d000(&self) -> (region: IoRegion)
        ensures
            region == bank_d000_of(self@.port),
    {
        proof {
            use_type_invariant(self);
        }
        self.bank_d000
    }

    /// What the window at `0xE000` shows.
    pub fn bank_e000(&self) -> (region: RomRegion)
        ensures
            region == bank_e000_of(self@.port),
    {
        proof {
            use_type_invariant(self);
        }
        self.bank_e000
    }
}

/// The bank selection by the low three bits of the port register, row by
/// row.
pub proof fn bank_table(port: u8)
    ensures
        (port % 8 == 0 || port % 8 == 4) ==> bank_a000_of(port) == RomRegion::Ram && bank_d000_of(port)
            == IoRegion::Ram && bank_e000_of(port) == RomRegion::Ram,
        port % 8 == 1 ==> bank_a000_of(port) == RomRegion::Ram && bank_d000_of(port)
            == IoRegion::CharRom && bank_e000_of(port) == RomRegion::Ram,
        port % 8 == 2 ==> bank_a000_of(port) == RomRegion::Ram && bank_d000_of(port)
            == IoRegion::CharRom && bank_e000_of(port) == RomRegion::Rom,
        port % 8 == 3 ==> bank_a000_of(port) == RomRegion::Rom && bank_d000_of(port)
            == IoRegion::CharRom && bank_e000_of(port) == RomRegion::Rom,
        port % 8 == 5 ==> bank_a000_of(port) == RomRegion::Ram && bank_d000_of(port) == IoRegion::Io
            && bank_e000_of(port) == RomRegion::Ram,
        port % 8 == 6 ==> bank_a000_of(port) == RomRegion::Ram && bank_d000_of(port) == IoRegion::Io
            && bank_e000_of(port) == RomRegion::Rom,
        port % 8 == 7 ==> bank_a000_of(port) == RomRegion::Rom && bank_d000_of(port) == IoRegion::Io
            && bank_e000_of(port) == RomRegion::Rom,
{
}

} // verus!
