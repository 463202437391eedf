//! The memory bus of the Commodore 64: RAM, three ROMs, and the registers
//! of the video, sound and interface chips, switched by the processor port.

use vstd::prelude::*;
use crate::bus::Bus;
use crate::shared::zeroed;
use mos6510::{bank_a000_of, bank_d000_of, bank_e000_of, port_written};
use mos6510::{IoRegion, Mos6510, PortState, RomRegion, REG_00_DEFAULT, REG_01_DEFAULT};

pub mod mos6510;

verus! {

pub const RAM_SIZE: usize = 0x10000;

pub const COLOR_RAM_SIZE: usize = 0x400;

/// The video chip's register space. Only the first `0x2F` bytes of it are
/// registers.
pub const VIC_REG_LENGTH: usize = 0x40;

/// The sixteen registers of an interface chip, and four bytes for the alarm
/// time, which is written through the time-of-day registers and cannot be
/// read.
pub const CIA_REG_LENGTH: usize = 0x14;

/// The sound chip's register space.
pub const SID_REG_LENGTH: usize = 0x20;

pub const CHARGEN_ROM_SIZE: usize = 0x1000;

pub const BASIC_ROM_SIZE: usize = 0x2000;

pub const KERNAL_ROM_SIZE: usize = 0x2000;

/// The first sound register that can be read. Those below it can only be
/// written.
pub const SID_FIRST_READABLE: u16 = 0x19;

/// The end of the thousand bytes of colour RAM that the screen uses.
pub const COLOR_RAM_END: u16 = 0xDBE8;

/// A ROM image that has not the size of the ROM.
#[derive(Clone, Copy, PartialEq, Eq, Structural, Debug)]
pub enum RomError {
    CharacterRomSize,
    BasicRomSize,
    KernalRomSize,
}

/// Everything that decides what the bus returns.
pub struct HardwareState {
    pub port: PortState,
    pub ram: Seq<u8>,
    pub color_ram: Seq<u8>,
    pub vic2_reg: Seq<u8>,
    /// The raster line at which the video chip raises an interrupt: nine
    /// bits.
    pub vic2_interrupt_line: u16,
    /// The registers of the two interface chips.
    pub cia_reg: Seq<Seq<u8>>,
    pub sid_reg: Seq<u8>,
    pub chargen_rom: Seq<u8>,
    pub basic_rom: Seq<u8>,
    pub kernal_rom: Seq<u8>,
}

/// Whether every store has its size.
pub open spec fn wf(s: HardwareState) -> bool {
    &&& s.ram.len() == RAM_SIZE
    &&& s.color_ram.len() == COLOR_RAM_SIZE
    &&& s.vic2_reg.len() == VIC_REG_LENGTH
    &&& s.vic2_interrupt_line < 0x200
    &&& s.cia_reg.len() == 2
    &&& s.cia_reg[0].len() == CIA_REG_LENGTH
    &&& s.cia_reg[1].len() == CIA_REG_LENGTH
    &&& s.sid_reg.len() == SID_REG_LENGTH
    &&& s.chargen_rom.len() == CHARGEN_ROM_SIZE
    &&& s.basic_rom.len() == BASIC_ROM_SIZE
    &&& s.kernal_rom.len() == KERNAL_ROM_SIZE
}

/// The video registers after a reset.
pub open spec fn video_reset() -> Seq<u8> {
    Seq::new(VIC_REG_LENGTH as nat, |i: int| 0u8).update(0x11, 0x1Bu8).update(0x16, 0xC8u8)
}

/// The state after power-on with the three ROM images.
pub open spec fn power_on(chargen_rom: Seq<u8>, basic_rom: Seq<u8>, kernal_rom: Seq<u8>) -> HardwareState {
    HardwareState {
        port: PortState { ddr: REG_00_DEFAULT, port: REG_01_DEFAULT },
        ram: Seq::new(RAM_SIZE as nat, |i: int| 0u8),
        color_ram: Seq::new(COLOR_RAM_SIZE as nat, |i: int| 0u8),
        vic2_reg: video_reset(),
        vic2_interrupt_line: 0,
        cia_reg: seq![
            Seq::new(CIA_REG_LENGTH as nat, |i: int| 0u8),
            Seq::new(CIA_REG_LENGTH as nat, |i: int| 0u8),
        ],
        sid_reg: Seq::new(SID_REG_LENGTH as nat, |i: int| 0u8),
        chargen_rom,
        basic_rom,
        kernal_rom,
    }
}

/// The state after a write to the video register `addr`. Control register
/// 1 keeps its low seven bits, and its bit 7 becomes bit 8 of the interrupt
/// line. The raster register sets the low eight bits of the interrupt line.
/// The interrupt and the two collision registers take no value.
pub open spec fn video_written(s: HardwareState, addr: u16, val: u8) -> HardwareState {
    if addr == 0x11 {
        HardwareState {
            vic2_reg: s.vic2_reg.update(0x11, (val % 128) as u8),
            vic2_interrupt_line: (s.vic2_interrupt_line % 256 + if val >= 128 { 256int } else { 0 }) as u16,
            ..s
        }
    } else if addr == 0x12 {
        HardwareState {
            vic2_interrupt_line: (s.vic2_interrupt_line / 256 * 256 + val) as u16,
            ..s
        }
    } else if addr == 0x19 || addr == 0x1E || addr == 0x1F {
        s
    } else {
        HardwareState { vic2_reg: s.vic2_reg.update(addr as int, val), ..s }
    }
}

/// The registers of an interface chip after a write to register `addr`. A
/// port register takes the bits that its data direction register, two
/// places on, lets through. A time-of-day register sets the alarm, eight
/// places on, where bit 7 of control register B is set.
pub open spec fn cia_written(reg: Seq<u8>, addr: u16, val: u8) -> Seq<u8> {
    if addr <= 1 {
        reg.update(addr as int, val & reg[addr + 2])
    } else if 0x08 <= addr <= 0x0B && reg[0x0F] >= 0x80 {
        reg.update(addr + 8, val)
    } else {
        reg.update(addr as int, val)
    }
}

/// What a read of the sound register `addr` returns.
pub open spec fn sid_reads(reg: Seq<u8>, addr: u16) -> u8 {
    if addr < SID_FIRST_READABLE {
        0
    } else {
        reg[addr as int]
    }
}

/// The sound registers after a write to register `addr`.
pub open spec fn sid_written(reg: Seq<u8>, addr: u16, val: u8) -> Seq<u8> {
    if addr < SID_FIRST_READABLE {
        reg.update(addr as int, val)
    } else {
        reg
    }
}

/// What a read of `addr` in the I/O window returns, where the window shows
/// the I/O registers.
pub open spec fn io_reads(s: HardwareState, addr: u16) -> u8 {
    if addr < 0xD400 {
        s.vic2_reg[addr as int % 64]
    } else if addr < 0xD800 {
        sid_reads(s.sid_reg, addr % 32)
    } else if addr < 0xDC00 {
        if addr < COLOR_RAM_END {
            s.color_ram[addr - 0xD800]
        } else {
            s.ram[addr as int]
        }
    } else if addr < 0xDD00 {
        s.cia_reg[0][addr as int % 16]
    } else if addr < 0xDE00 {
        s.cia_reg[1][addr as int % 16]
    } else {
        0
    }
}

/// The state after a write to `addr` in the I/O window, where the window
/// shows the I/O registers.
pub open spec fn io_written(s: HardwareState, addr: u16, val: u8) -> HardwareState {
    if addr < 0xD400 {
        video_written(s, addr % 64, val)
    } else if addr < 0xD800 {
        HardwareState { sid_reg: sid_written(s.sid_reg, addr % 32, val), ..s }
    } else if addr < 0xDC00 {
        if addr < COLOR_RAM_END {
            HardwareState { color_ram: s.color_ram.update(addr - 0xD800, val % 16), ..s }
        } else {
            HardwareState { ram: s.ram.update(addr as int, val % 16), ..s }
        }
    } else if addr < 0xDD00 {
        HardwareState { cia_reg: s.cia_reg.update(0, cia_written(s.cia_reg[0], addr % 16, val)), ..s }
    } else if addr < 0xDE00 {
        HardwareState { cia_reg: s.cia_reg.update(1, cia_written(s.cia_reg[1], addr % 16, val)), ..s }
    } else {
        s
    }
}

/// What a read of `addr` returns.
pub open spec fn reads(s: HardwareState, addr: u16) -> u8 {
    if addr == 0 {
        s.port.ddr
    } else if addr == 1 {
        s.port.port
    } else if 0xA000 <= addr < 0xC000 {
        match bank_a000_of(s.port.port) {
            RomRegion::Ram => s.ram[addr as int],
            RomRegion::Rom => s.basic_rom[addr - 0xA000],
        }
    } else if 0xD000 <= addr < 0xE000 {
        match bank_d000_of(s.port.port) {
            IoRegion::Ram => s.ram[addr as int],
            IoRegion::Io => io_reads(s, addr),
            IoRegion::CharRom => s.chargen_rom[addr - 0xD000],
        }
    } else if 0xE000 <= addr {
        match bank_e000_of(s.port.port) {
            RomRegion::Ram => s.ram[addr as int],
            RomRegion::Rom => s.kernal_rom[addr - 0xE000],
        }
    } else {
        s.ram[addr as int]
    }
}

/// The state after a write of `val` to `addr`. The port takes a write to
/// address 0 or 1, and the I/O registers one into their window while it
/// shows them. Every other write goes to RAM, whatever is read at `addr`.
pub open spec fn written(s: HardwareState, addr: u16, val: u8) -> HardwareState {
    if addr <= 1 {
        HardwareState { port: port_written(s.port, addr, val), ..s }
    } else if 0xD000 <= addr < 0xE000 && bank_d000_of(s.port.port) == IoRegion::Io {
        io_written(s, addr, val)
    } else {
        HardwareState { ram: s.ram.update(addr as int, val), ..s }
    }
}

/// The computer's memory and chips.
pub struct HardwareC64 {
    mos6510: Mos6510,
    ram: Vec<u8>,
    color_ram: Vec<u8>,
    vic2_reg: Vec<u8>,
    vic2_interrupt_line: u16,
    cia1_reg: Vec<u8>,
    cia2_reg: Vec<u8>,
    sid_reg: Vec<u8>,
    chargen_rom: Vec<u8>,
    basic_rom: Vec<u8>,
    kernal_rom: Vec<u8>,
}

impl View for HardwareC64 {
    type V = HardwareState;

    closed spec fn view(&self) -> HardwareState {
        HardwareState {
            port: self.mos6510@,
            ram: self.ram@,
            color_ram: self.color_ram@,
            vic2_reg: self.vic2_reg@,
            vic2_interrupt_line: self.vic2_interrupt_line,
            cia_reg: seq![self.cia1_reg@, self.cia2_reg@],
            sid_reg: self.sid_reg@,
            chargen_rom: self.chargen_rom@,
            basic_rom: self.basic_rom@,
            kernal_rom: self.kernal_rom@,
        }
    }
}

/// The computer at power-on, with the three ROM images. An image that has
/// not the size of its ROM is refused: the character ROM is looked at
/// first, then BASIC, then the KERNAL.
pub fn new(chargen_rom: Vec<u8>, basic_rom: Vec<u8>, kernal_rom: Vec<u8>) -> (r: Result<HardwareC64, RomError>)
    ensures
        chargen_rom@.len() != CHARGEN_ROM_SIZE ==> r is Err && r->Err_0 == RomError::CharacterRomSize,
        chargen_rom@.len() == CHARGEN_ROM_SIZE && basic_rom@.len() != BASIC_ROM_SIZE ==> r is Err && r->Err_0
            == RomError::BasicRomSize,
        chargen_rom@.len() == CHARGEN_ROM_SIZE && basic_rom@.len() == BASIC_ROM_SIZE && kernal_rom@.len()
            != KERNAL_ROM_SIZE ==> r is Err && r->Err_0 == RomError::KernalRomSize,
        chargen_rom@.len() == CHARGEN_ROM_SIZE && basic_rom@.len() == BASIC_ROM_SIZE && kernal_rom@.len()
            == KERNAL_ROM_SIZE ==> r is Ok && r->Ok_0@ == power_on(chargen_rom@, basic_rom@, kernal_rom@)
            && wf(r->Ok_0@),
{
    if chargen_rom.len() != CHARGEN_ROM_SIZE {
        return Err(RomError::CharacterRomSize);
    }
    if basic_rom.len() != BASIC_ROM_SIZE {
        return Err(RomError::BasicRomSize);
    }
    if kernal_rom.len() != KERNAL_ROM_SIZE {
        return Err(RomError::KernalRomSize);
    }
    let mut hw = HardwareC64 {
        mos6510: mos6510::new(),
        ram: zeroed(RAM_SIZE),
        color_ram: zeroed(COLOR_RAM_SIZE),
        vic2_reg: zeroed(VIC_REG_LENGTH),
        vic2_interrupt_line: 0,
        cia1_reg: zeroed(CIA_REG_LENGTH),
        cia2_reg: zeroed(CIA_REG_LENGTH),
        sid_reg: zeroed(SID_REG_LENGTH),
        chargen_rom,
        basic_rom,
        kernal_rom,
    };
    hw.video_init();
    assert(hw@.cia_reg =~= power_on(chargen_rom@, basic_rom@, kernal_rom@).cia_reg);
    Ok(hw)
}

impl HardwareC64 {
    /// Reads the byte at `addr`.
    pub fn mem_get(&self, addr: u16) -> (val: u8)
        requires
            wf(self@),
        ensures
            val == reads(self@, addr),
    {
        if addr <= 1 {
            self.mos6510.get(addr)
        } else if 0xA000 <= addr && addr < 0xC000 {
            match self.mos6510.bank_a000() {
                RomRegion::Ram => self.ram[addr as usize],
                RomRegion::Rom => self.basic_rom[(addr - 0xA000) as usize],
            }
        } else if 0xD000 <= addr && addr < 0xE000 {
            match self.mos6510.bank_d000() {
                IoRegion::Ram => self.ram[addr as usize],
                IoRegion::Io => self.io_read(addr),
                IoRegion::CharRom => self.chargen_rom[(addr - 0xD000) as usize],
            }
        } else if 0xE000 <= addr {
            match self.mos6510.bank_e000() {
                RomRegion::Ram => self.ram[addr as usize],
                RomRegion::Rom => self.kernal_rom[(addr - 0xE000) as usize],
            }
        } else {
            self.ram[addr as usize]
        }
    }

    /// Writes `val` to `addr`.
    pub fn mem_set(&mut self, addr: u16, val: u8)
        requires
            wf(old(self)@),
        ensures
            final(self)@ == written(old(self)@, addr, val),
            wf(final(self)@),
    {
        if addr <= 1 {
            self.mos6510.set(addr, val);
        } else if 0xD000 <= addr && addr < 0xE000 && self.mos6510.bank_d000() == IoRegion::Io {
            self.io_write(addr, val);
        } else {
            self.ram[addr as usize] = val;
        }
    }

    /// Reads the I/O register at `addr`.
    pub fn io_read(&self, addr: u16) -> (val: u8)
        requires
            wf(self@),
            0xD000 <= addr < 0xE000,
        ensures
            val == io_reads(self@, addr),
    {
        if addr < 0xD400 {
            self.video_read(addr % 64)
        } else if addr < 0xD800 {
            self.sid_read(addr % 32)
        } else if addr < 0xDC00 {
            if addr < COLOR_RAM_END {
                self.color_ram[(addr - 0xD800) as usize]
            } else {
                self.ram[addr as usize]
            }
        } else if addr < 0xDD00 {
            self.cia_read(0, addr % 16)
        } else if addr < 0xDE00 {
            self.cia_read(1, addr % 16)
        } else if addr < 0xDF00 {
            self.expansion_read(0, addr % 256)
        } else {
            self.expansion_read(1, addr % 256)
        }
    }

    /// Writes `val` to the I/O register at `addr`.
    pub fn io_write(&mut self, addr: u16, val: u8)
        requires
            wf(old(self)@),
            0xD000 <= addr < 0xE000,
        ensures
            final(self)@ == io_written(old(self)@, addr, val),
            wf(final(self)@),
    {
        if addr < 0xD400 {
            self.video_write(addr % 64, val);
        } else if addr < 0xD800 {
            self.sid_write(addr % 32, val);
        } else if addr < 0xDC00 {
            assert(val & 0x0F == val % 16) by (bit_vector);
            if addr < COLOR_RAM_END {
                self.color_ram[(addr - 0xD800) as usize] = val & 0x0F;
            } else {
                self.ram[addr as usize] = val & 0x0F;
            }
        } else if addr < 0xDD00 {
            self.cia_write(0, addr % 16, val);
        } else if addr < 0xDE00 {
            self.cia_write(1, addr % 16, val);
        } else if addr < 0xDF00 {
            self.expansion_write(0, addr % 256, val);
        } else {
            self.expansion_write(1, addr % 256, val);
        }
    }

    /// Resets the video registers.
    pub fn video_init(&mut self)
        ensures
            final(self)@ == (HardwareState { vic2_reg: video_reset(), ..old(self)@ }),
    {
        let mut reg = zeroed(VIC_REG_LENGTH);
        reg[0x11] = 0b00011011;
        reg[0x16] = 0b11001000;
        self.vic2_reg = reg;
    }

    /// The video register `addr`, as it is stored.
    pub fn video_read(&self, addr: u16) -> (val: u8)
        requires
            wf(self@),
            addr < VIC_REG_LENGTH,
        ensures
            val == self@.vic2_reg[addr as int],
    {
        self.vic2_reg[addr as usize]
    }

    /// Writes `val` to the video register `addr`.
    pub fn video_write(&mut self, addr: u16, val: u8)
        requires
            wf(old(self)@),
            addr < VIC_REG_LENGTH,
        ensures
            final(self)@ == video_written(old(self)@, addr, val),
            wf(final(self)@),
    {
        let line = self.vic2_interrupt_line;
        if addr == 0x11 {
            assert(val & 0x7F == val % 128 && (line & 0x00FF) | (((val & 0x80) as u16) << 1) == line % 256
                + if val >= 128 { 256int } else { 0 }) by (bit_vector);
            self.vic2_reg[0x11] = val & 0b01111111;
            self.vic2_interrupt_line = (line & 0x00FF) | (((val & 0x80) as u16) << 1);
        } else if addr == 0x12 {
            assert((line & 0x0100) | (val as u16) == line / 256 * 256 + val) by (bit_vector)
                requires
                    line < 0x200,
            ;
            self.vic2_interrupt_line = (line & 0x0100) | (val as u16);
        } else if addr == 0x19 || addr == 0x1E || addr == 0x1F {
        } else {
            self.vic2_reg[addr as usize] = val;
        }
    }

    /// Register `addr` of interface chip `cia_index`, as it is stored.
    pub fn cia_read(&self, cia_index: usize, addr: u16) -> (val: u8)
        requires
            wf(self@),
            cia_index < 2,
            addr < 0x10,
        ensures
            val == self@.cia_reg[cia_index as int][addr as int],
    {
        if cia_index == 0 {
            self.cia1_reg[addr as usize]
        } else {
            self.cia2_reg[addr as usize]
        }
    }

    /// Writes `val` to register `addr` of interface chip `cia_index`.
    pub fn cia_write(&mut self, cia_index: usize, addr: u16, val: u8)
        requires
            wf(old(self)@),
            cia_index < 2,
            addr < 0x10,
        ensures
            final(self)@ == (HardwareState {
                cia_reg: old(self)@.cia_reg.update(
                    cia_index as int,
                    cia_written(old(self)@.cia_reg[cia_index as int], addr, val),
                ),
                ..old(self)@
            }),
            wf(final(self)@),
    {
        if cia_index == 0 {
            cia_store(&mut self.cia1_reg, addr, val);
        } else {
            cia_store(&mut self.cia2_reg, addr, val);
        }
        assert(self@.cia_reg =~= old(self)@.cia_reg.update(
            cia_index as int,
            cia_written(old(self)@.cia_reg[cia_index as int], addr, val),
        ));
    }

    /// Reads the sound register `addr`.
    pub fn sid_read(&self, addr: u16) -> (val: u8)
        requires
            wf(self@),
            addr < SID_REG_LENGTH,
        ensures
            val == sid_reads(self@.sid_reg, addr),
    {
        if addr < SID_FIRST_READABLE {
            0
        } else {
            self.sid_reg[addr as usize]
        }
    }

    /// Writes `val` to the sound register `addr`.
    pub fn sid_write(&mut self, addr: u16, val: u8)
        requires
            wf(old(self)@),
            addr < SID_REG_LENGTH,
        ensures
            final(self)@ == (HardwareState { sid_reg: sid_written(old(self)@.sid_reg, addr, val), ..old(self)@ }),
            wf(final(self)@),
    {
        if addr < SID_FIRST_READABLE {
            self.sid_reg[addr as usize] = val;
        }
    }

    /// Reads from an expansion page. Nothing is plugged in: the value is
    /// zero.
    pub fn expansion_read(&self, io_area_index: usize, addr: u16) -> (val: u8)
        ensures
            val == 0,
    {
        0
    }

    /// Writes to an expansion page. Nothing is plugged in: the value is
    /// lost.
    pub fn expansion_write(&mut self, io_area_index: usize, addr: u16, val: u8)
        ensures
            final(self)@ == old(self)@,
    {
    }

    /// The video registers.
    pub fn video_registers(&self) -> (reg: &Vec<u8>)
        ensures
            reg@ == self@.vic2_reg,
    {
        &self.vic2_reg
    }

    /// The colour RAM.
    pub fn color_ram(&self) -> (ram: &Vec<u8>)
        ensures
            ram@ == self@.color_ram,
    {
        &self.color_ram
    }

    /// The RAM, whatever the banks show.
    pub fn ram(&self) -> (ram: &Vec<u8>)
        ensures
            ram@ == self@.ram,
    {
        &self.ram
    }

    /// The raster line at which the video chip raises an interrupt.
    pub fn interrupt_line(&self) -> (line: u16)
        ensures
            line == self@.vic2_interrupt_line,
    {
        self.vic2_interrupt_line
    }
}

/// The video register that the address `addr` of the I/O window names.
/// The address has to name one of the `0x2F` registers.
pub fn video_addr_conv(addr: u16) -> (reg: usize)
    requires
        0xD000 <= addr <= 0xDFFF,
        (addr - 0xD000) % 64 < 0x2F,
    ensures
        reg == (addr - 0xD000) % 64,
{
    ((addr - 0xD000) % 64) as usize
}

/// The first address of interface chip 1 or 2.
pub open spec fn cia_start(cia_number: usize) -> int {
    if cia_number == 1 {
        0xDC00
    } else {
        0xDD00
    }
}

/// The register of interface chip 1 or 2 that the address `addr` names.
/// The sixteen registers repeat from the first address of the chip on.
pub fn cia_addr_conv(cia_number: usize, addr: u16) -> (reg: usize)
    requires
        cia_number == 1 || cia_number == 2,
        cia_start(cia_number) <= addr < cia_start(cia_number) + 0x1000,
    ensures
        reg == (addr - cia_start(cia_number)) % 16,
{
    let range_start: u16 = if cia_number == 1 { 0xDC00 } else { 0xDD00 };
    ((addr - range_start) % 16) as usize
}

/// Writes `val` to register `addr` of an interface chip.
fn cia_store(reg: &mut Vec<u8>, addr: u16, val: u8)
    requires
        old(reg)@.len() == CIA_REG_LENGTH,
        addr < 0x10,
    ensures
        final(reg)@ == cia_written(old(reg)@, addr, val),
        final(reg)@.len() == CIA_REG_LENGTH,
{
    if addr <= 1 {
        let masked_val = val & reg[(addr + 2) as usize];
        reg[addr as usize] = masked_val;
    } else if 0x08 <= addr && addr <= 0x0B {
        let timer_b_ctrl_reg = reg[0x0F];
        assert((timer_b_ctrl_reg & 0x80 != 0) == (timer_b_ctrl_reg >= 0x80)) by (bit_vector);
        let set_alarm = 0 != (timer_b_ctrl_reg & 0x80);
        let set_addr = if set_alarm { addr + 0x08 } else { addr };
        reg[set_addr as usize] = val;
    } else {
        reg[addr as usize] = val;
    }
}

impl Bus for HardwareC64 {
    open spec fn valid(s: HardwareState) -> bool {
        wf(s)
    }

    open spec fn peek(s: HardwareState, addr: u16) -> u8 {
        reads(s, addr)
    }

    open spec fn poke(s: HardwareState, addr: u16, val: u8) -> HardwareState {
        written(s, addr, val)
    }

    proof fn poke_keeps_valid(s: HardwareState, addr: u16, val: u8) {
    }

    proof fn stack_page_is_storage(s: HardwareState, addr: u16, val: u8, cell: u16) {
    }

    fn get(&self, addr: u16) -> (val: u8) {
        self.mem_get(addr)
    }

    fn set(&mut self, addr: u16, val: u8) {
        self.mem_set(addr, val);
    }
}

/// Whether `addr` lies outside the port registers and the three switched
/// windows.
pub open spec fn is_plain(addr: u16) -> bool {
    2 <= addr < 0xA000 || 0xC000 <= addr < 0xD000
}

/// Outside the port registers and the three switched windows, a read
/// returns the last value written to the address: a write is read back, and
/// a write elsewhere changes nothing there.
pub proof fn plain_ram_holds_last_write(s: HardwareState, addr: u16, val: u8, cell: u16)
    requires
        wf(s),
        is_plain(cell),
    ensures
        reads(written(s, addr, val), cell) == (if addr == cell {
            val
        } else {
            reads(s, cell)
        }),
{
}

/// After a write to the port register, the window at `0xA000` shows the
/// BASIC ROM if both low bits of what the data direction register lets
/// through are set, and RAM if not.
pub proof fn basic_rom_follows_port(s: HardwareState, val: u8, addr: u16)
    requires
        wf(s),
        0xA000 <= addr < 0xC000,
    ensures
        reads(written(s, 1, val), addr) == (if (val & s.port.ddr) & 0b011 == 0b011 {
            s.basic_rom[addr - 0xA000]
        } else {
            s.ram[addr as int]
        }),
{
    let v = val & s.port.ddr;
    assert((v & 0b011 == 0b011) == (v % 4 == 3)) by (bit_vector);
}

/// A write into the window at `0xA000` reaches RAM whatever the window
/// shows: once the port switches all windows to RAM, the value is read
/// back.
pub proof fn write_goes_through_rom(s: HardwareState, addr: u16, x: u8, val: u8)
    requires
        wf(s),
        0xA000 <= addr < 0xC000,
        (val & s.port.ddr) & 0b011 == 0,
    ensures
        reads(written(written(s, addr, x), 1, val), addr) == x,
{
    let v = val & s.port.ddr;
    assert((v & 0b011 == 0) == (v % 4 == 0)) by (bit_vector);
}

/// No write changes a ROM.
pub proof fn roms_are_read_only(s: HardwareState, addr: u16, val: u8)
    ensures
        written(s, addr, val).chargen_rom == s.chargen_rom,
        written(s, addr, val).basic_rom == s.basic_rom,
        written(s, addr, val).kernal_rom == s.kernal_rom,
{
}

/// Whether every byte of the colour RAM fits in four bits.
pub open spec fn color_ram_is_nibbles(s: HardwareState) -> bool {
    forall|i: int| 0 <= i < s.color_ram.len() ==> #[trigger] s.color_ram[i] < 16
}

/// The colour RAM holds four bits a byte: at power-on, and after every
/// write.
pub proof fn color_ram_stays_nibbles(
    chargen_rom: Seq<u8>,
    basic_rom: Seq<u8>,
    kernal_rom: Seq<u8>,
    s: HardwareState,
    addr: u16,
    val: u8,
)
    requires
        wf(s),
        color_ram_is_nibbles(s),
    ensures
        color_ram_is_nibbles(power_on(chargen_rom, basic_rom, kernal_rom)),
        color_ram_is_nibbles(written(s, addr, val)),
{
}

} // verus!
