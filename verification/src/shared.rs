//! What the processor and the memory have in common: words, flat memory,
//! registers, mnemonics and addressing modes.

use vstd::prelude::*;

#[allow(non_upper_case_globals)]
pub mod addr_mode_flag;
pub mod flag;

verus! {

/// The size of the address space of the computer's processor.
pub const C64_RAM_SIZE: usize = 0x10000;

/// The size of the memory of the disk drive.
pub const C1541_RAM_SIZE: usize = 0x800;

/// The 16-bit value whose low byte is `lo` and whose high byte is `hi`.
pub open spec fn word_of(lo: u8, hi: u8) -> u16 {
    (lo + 256 * hi) as u16
}

/// The address `n` places after `addr`, wrapping round at the end of the
/// 16-bit address space.
pub open spec fn offset(addr: u16, n: int) -> u16 {
    ((addr + n) % 0x10000) as u16
}

/// Joins a low and a high byte into a 16-bit word.
pub fn word(lo: u8, hi: u8) -> (w: u16)
    ensures
        w == word_of(lo, hi),
        w == lo + 256 * hi,
{
    assert(((lo as u16) | ((hi as u16) << 8)) == (lo as u16) + 256 * (hi as u16)) by (bit_vector);
    (lo as u16) | ((hi as u16) << 8)
}

/// The high byte of a word.
pub fn word_hi(w: u16) -> (hi: u8)
    ensures
        hi == w / 256,
{
    assert(w >> 8 == w / 256) by (bit_vector);
    (w >> 8) as u8
}

/// The low byte of a word.
pub fn word_lo(w: u16) -> (lo: u8)
    ensures
        lo == w % 256,
{
    assert(w & 0x00FF == w % 256) by (bit_vector);
    (w & 0x00FF) as u8
}

/// A word is the join of its two bytes, and the bytes of a join are the
/// bytes that were joined.
pub proof fn word_round_trip(w: u16, lo: u8, hi: u8)
    ensures
        word_of((w % 256) as u8, (w / 256) as u8) == w,
        word_of(lo, hi) % 256 == lo,
        word_of(lo, hi) / 256 == hi,
{
}

/// `size` bytes, all zero.
pub fn zeroed(size: usize) -> (bytes: Vec<u8>)
    ensures
        bytes@ == Seq::new(size as nat, |i: int| 0u8),
{
    let mut bytes: Vec<u8> = Vec::with_capacity(size);
    let mut i: usize = 0;
    while i < size
        invariant
            i <= size,
            bytes@ == Seq::new(i as nat, |j: int| 0u8),
        decreases size - i,
    {
        bytes.push(0);
        i += 1;
        assert(bytes@ =~= Seq::new(i as nat, |j: int| 0u8));
    }
    bytes
}

/// Flat memory: every address below the size is a cell of its own.
pub struct Mem {
    ram: Vec<u8>,
}

impl View for Mem {
    type V = Seq<u8>;

    closed spec fn view(&self) -> Seq<u8> {
        self.ram@
    }
}

impl Mem {
    /// Memory of `size` cells, all zero.
    pub fn new(size: usize) -> (mem: Mem)
        ensures
            mem@ == Seq::new(size as nat, |i: int| 0u8),
    {
        Mem { ram: zeroed(size) }
    }

    /// The number of cells.
    pub fn size(&self) -> (n: usize)
        ensures
            n == self@.len(),
    {
        self.ram.len()
    }

    /// The byte at `addr`.
    pub fn read(&self, addr: u16) -> (val: u8)
        requires
            addr < self@.len(),
        ensures
            val == self@[addr as int],
    {
        self.ram[addr as usize]
    }

    /// Stores `val` at `addr` and leaves every other cell as it was.
    pub fn write(&mut self, addr: u16, val: u8)
        requires
            addr < old(self)@.len(),
        ensures
            final(self)@ == old(self)@.update(addr as int, val),
    {
        self.ram[addr as usize] = val;
    }

    /// The word whose low byte is at `addr` and whose high byte follows it.
    pub fn read_word(&self, addr: u16) -> (w: u16)
        requires
            addr < 0xFFFF,
            addr + 1 < self@.len(),
        ensures
            w == word_of(self@[addr as int], self@[addr + 1]),
    {
        word(self.read(addr), self.read(addr + 1))
    }
}

/// The registers of the processor.
#[derive(Clone, Copy, PartialEq, Eq, Debug)]
pub struct Registers {
    /// Accumulator.
    pub a: u8,
    /// Index register X.
    pub x: u8,
    /// Index register Y.
    pub y: u8,
    /// Status byte.
    pub p: u8,
    /// Stack pointer, an index into the page from `0x0100`.
    pub s: u8,
    /// Program counter.
    pub pc: u16,
    /// Number of instructions executed.
    pub ic: usize,
    /// Number of clock cycles spent.
    pub cc: usize,
}

/// The names of the instructions.
#[derive(Clone, Copy, PartialEq, Eq, Structural, Debug)]
pub enum Mnemonic {
    ILLEGAL,
    ADC, AND, ASL, BCC, BCS, BEQ, BIT, BMI, BNE, BPL, BRK,
    BVC, BVS, CLC, CLD, CLI, CLV, CMP, CPX, CPY, DEC, DEX,
    DEY, EOR, INC, INX, INY, JMP, JSR, LDA, LDX, LDY, LSR,
    NOP, ORA, PHA, PHP, PLA, PLP, ROL, ROR, RTI, RTS, SBC,
    SEC, SED, SEI, STA, STX, STY, TAX, TAY, TSX, TXA, TXS,
    TYA,
}

/// The ways in which an instruction names its operand.
#[derive(Clone, Copy, PartialEq, Eq, Structural, Debug)]
pub enum AddrMode {
    /// No mode: the opcode is not an instruction.
    Illegal,
    /// No operand, or the accumulator.
    Impl,
    /// The operand is the byte after the opcode.
    Imm,
    /// An address in the zero page.
    Zpg,
    /// An address in the zero page, indexed by X.
    ZpgX,
    /// An address in the zero page, indexed by Y.
    ZpgY,
    /// A signed distance from the program counter.
    Rel,
    /// A 16-bit address.
    Abs,
    /// A 16-bit address, indexed by X.
    AbsX,
    /// A 16-bit address, indexed by Y.
    AbsY,
    /// A 16-bit pointer to the address.
    Ind,
    /// A zero-page pointer, indexed by X, to the address.
    XInd,
    /// A zero-page pointer to an address that is then indexed by Y.
    IndY,
}

/// The status byte `p` with the bits of `mask` set or cleared.
pub open spec fn with_flag(p: u8, mask: u8, set: bool) -> u8 {
    if set {
        p | mask
    } else {
        p & !mask
    }
}

/// Whether any bit of `mask` is set in the status byte `p`.
pub open spec fn has_flag(p: u8, mask: u8) -> bool {
    p & mask != 0
}

/// The processor.
#[derive(Clone, Copy, PartialEq, Eq, Debug)]
pub struct Cpu {
    pub reg: Registers,
}

impl Cpu {
    /// The processor after a reset that starts execution at `start_addr`.
    pub fn new(start_addr: u16) -> (cpu: Cpu)
        ensures
            cpu.reg == (Registers {
                a: 0, x: 0, y: 0, p: 0, s: 0xFF, pc: start_addr, ic: 0, cc: 0,
            }),
    {
        let reg = Registers { a: 0, x: 0, y: 0, p: 0, s: 0xFF, pc: start_addr, ic: 0, cc: 0 };
        Cpu { reg: reg }
    }

    /// Sets or clears the bits of `flag` in the status byte.
    pub fn set_flag(&mut self, flag: flag::T, set: bool)
        ensures
            final(self).reg == (Registers { p: with_flag(old(self).reg.p, flag.0, set), ..old(self).reg }),
    {
        let flag::T(flag_value) = flag;
        if set {
            self.reg.p |= flag_value;
        } else {
            self.reg.p &= !(flag_value);
        }
    }

    /// Whether any bit of `flag` is set in the status byte.
    pub fn get_flag(&self, flag: flag::T) -> (set: bool)
        ensures
            set == has_flag(self.reg.p, flag.0),
    {
        let flag::T(flag_value) = flag;
        0 != (self.reg.p & (flag_value))
    }
}

/// Setting one of the seven flags makes that flag read as set, clearing it
/// makes it read as clear, and either leaves the other six as they were.
pub proof fn flag_write_then_read(p: u8, f: u8, g: u8, set: bool)
    requires
        is_flag(f),
        is_flag(g),
    ensures
        has_flag(with_flag(p, f, set), g) == (if f == g { set } else { has_flag(p, g) }),
{
    assert(((p | f) & g != 0) == (if f == g { true } else { p & g != 0 })
        && ((p & !f) & g != 0) == (if f == g { false } else { p & g != 0 })) by (bit_vector)
        requires
            f == 0x80 || f == 0x40 || f == 0x10 || f == 0x08 || f == 0x04 || f == 0x02 || f == 0x01,
            g == 0x80 || g == 0x40 || g == 0x10 || g == 0x08 || g == 0x04 || g == 0x02 || g == 0x01,
    ;
}

/// Whether `mask` is one of the seven flags of the status byte.
pub open spec fn is_flag(mask: u8) -> bool {
    mask == flag::N || mask == flag::V || mask == flag::B || mask == flag::D
        || mask == flag::I || mask == flag::Z || mask == flag::C
}

/// A processor with the memory it works on.
pub struct Machine {
    pub cpu: Cpu,
    pub mem: Mem,
}

} // verus!
