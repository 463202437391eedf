//! The instruction set: which opcode is which instruction, and how each
//! finds its operand.

use vstd::prelude::*;
use crate::shared::{AddrMode, Mnemonic};
use crate::shared::addr_mode_flag;

verus! {

/// What an opcode stands for.
#[derive(Clone, Copy, PartialEq, Eq, Structural, Debug)]
pub struct Instruction {
    pub mnemonic: Mnemonic,
    pub addr_mode: AddrMode,
}

/// The instruction that an opcode names, or `ILLEGAL` where it names none.
pub open spec fn mnemonic_of(opcode: u8) -> Mnemonic {
    match opcode {
        0x61 | 0x65 | 0x69 | 0x6D | 0x71 | 0x75 | 0x79 | 0x7D => Mnemonic::ADC,
        0x21 | 0x25 | 0x29 | 0x2D | 0x31 | 0x35 | 0x39 | 0x3D => Mnemonic::AND,
        0x06 | 0x0A | 0x0E | 0x16 | 0x1E => Mnemonic::ASL,
        0x90 => Mnemonic::BCC,
        0xB0 => Mnemonic::BCS,
        0xF0 => Mnemonic::BEQ,
        0x24 | 0x2C => Mnemonic::BIT,
        0x30 => Mnemonic::BMI,
        0xD0 => Mnemonic::BNE,
        0x10 => Mnemonic::BPL,
        0x00 => Mnemonic::BRK,
        0x50 => Mnemonic::BVC,
        0x70 => Mnemonic::BVS,
        0x18 => Mnemonic::CLC,
        0xD8 => Mnemonic::CLD,
        0x58 => Mnemonic::CLI,
        0xB8 => Mnemonic::CLV,
        0xC1 | 0xC5 | 0xC9 | 0xCD | 0xD1 | 0xD5 | 0xD9 | 0xDD => Mnemonic::CMP,
        0xE0 | 0xE4 | 0xEC => Mnemonic::CPX,
        0xC0 | 0xC4 | 0xCC => Mnemonic::CPY,
        0xC6 | 0xCE | 0xD6 | 0xDE => Mnemonic::DEC,
        0xCA => Mnemonic::DEX,
        0x88 => Mnemonic::DEY,
        0x41 | 0x45 | 0x49 | 0x4D | 0x51 | 0x55 | 0x59 | 0x5D => Mnemonic::EOR,
        0xE6 | 0xEE | 0xF6 | 0xFE => Mnemonic::INC,
        0xE8 => Mnemonic::INX,
        0xC8 => Mnemonic::INY,
        0x4C | 0x6C => Mnemonic::JMP,
        0x20 => Mnemonic::JSR,
        0xA1 | 0xA5 | 0xA9 | 0xAD | 0xB1 | 0xB5 | 0xB9 | 0xBD => Mnemonic::LDA,
        0xA2 | 0xA6 | 0xAE | 0xB6 | 0xBE => Mnemonic::LDX,
        0xA0 | 0xA4 | 0xAC | 0xB4 | 0xBC => Mnemonic::LDY,
        0x46 | 0x4A | 0x4E | 0x56 | 0x5E => Mnemonic::LSR,
        0xEA => Mnemonic::NOP,
        0x01 | 0x05 | 0x09 | 0x0D | 0x11 | 0x15 | 0x19 | 0x1D => Mnemonic::ORA,
        0x48 => Mnemonic::PHA,
        0x08 => Mnemonic::PHP,
        0x68 => Mnemonic::PLA,
        0x28 => Mnemonic::PLP,
        0x26 | 0x2A | 0x2E | 0x36 | 0x3E => Mnemonic::ROL,
        0x66 | 0x6A | 0x6E | 0x76 | 0x7E => Mnemonic::ROR,
        0x40 => Mnemonic::RTI,
        0x60 => Mnemonic::RTS,
        0xE1 | 0xE5 | 0xE9 | 0xED | 0xF1 | 0xF5 | 0xF9 | 0xFD => Mnemonic::SBC,
        0x38 => Mnemonic::SEC,
        0xF8 => Mnemonic::SED,
        0x78 => Mnemonic::SEI,
        0x81 | 0x85 | 0x8D | 0x91 | 0x95 | 0x99 | 0x9D => Mnemonic::STA,
        0x86 | 0x8E | 0x96 => Mnemonic::STX,
        0x84 | 0x8C | 0x94 => Mnemonic::STY,
        0xAA => Mnemonic::TAX,
        0xA8 => Mnemonic::TAY,
        0xBA => Mnemonic::TSX,
        0x8A => Mnemonic::TXA,
        0x9A => Mnemonic::TXS,
        0x98 => Mnemonic::TYA,
        _ => Mnemonic::ILLEGAL,
    }
}

/// The addressing mode of an opcode, or `Illegal` where it names no
/// instruction.
pub open spec fn addr_mode_of(opcode: u8) -> AddrMode {
    match opcode {
        0x00 | 0x08 | 0x0A | 0x18 | 0x28 | 0x2A | 0x38 | 0x40 | 0x48 | 0x4A | 0x58 | 0x60 |
        0x68 | 0x6A | 0x78 | 0x88 | 0x8A | 0x98 | 0x9A | 0xA8 | 0xAA | 0xB8 | 0xBA | 0xC8 |
        0xCA | 0xD8 | 0xE8 | 0xEA | 0xF8 => AddrMode::Impl,
        0x09 | 0x29 | 0x49 | 0x69 | 0xA0 | 0xA2 | 0xA9 | 0xC0 | 0xC9 | 0xE0 | 0xE9 => AddrMode::Imm,
        0x05 | 0x06 | 0x24 | 0x25 | 0x26 | 0x45 | 0x46 | 0x65 | 0x66 | 0x84 | 0x85 | 0x86 |
        0xA4 | 0xA5 | 0xA6 | 0xC4 | 0xC5 | 0xC6 | 0xE4 | 0xE5 | 0xE6 => AddrMode::Zpg,
        0x15 | 0x16 | 0x35 | 0x36 | 0x55 | 0x56 | 0x75 | 0x76 | 0x94 | 0x95 | 0xB4 | 0xB5 |
        0xD5 | 0xD6 | 0xF5 | 0xF6 => AddrMode::ZpgX,
        0x96 | 0xB6 => AddrMode::ZpgY,
        0x10 | 0x30 | 0x50 | 0x70 | 0x90 | 0xB0 | 0xD0 | 0xF0 => AddrMode::Rel,
        0x0D | 0x0E | 0x20 | 0x2C | 0x2D | 0x2E | 0x4C | 0x4D | 0x4E | 0x6D | 0x6E | 0x8C |
        0x8D | 0x8E | 0xAC | 0xAD | 0xAE | 0xCC | 0xCD | 0xCE | 0xEC | 0xED | 0xEE => AddrMode::Abs,
        0x1D | 0x1E | 0x3D | 0x3E | 0x5D | 0x5E | 0x7D | 0x7E | 0x9D | 0xBC | 0xBD | 0xDD |
        0xDE | 0xFD | 0xFE => AddrMode::AbsX,
        0x19 | 0x39 | 0x59 | 0x79 | 0x99 | 0xB9 | 0xBE | 0xD9 | 0xF9 => AddrMode::AbsY,
        0x6C => AddrMode::Ind,
        0x01 | 0x21 | 0x41 | 0x61 | 0x81 | 0xA1 | 0xC1 | 0xE1 => AddrMode::XInd,
        0x11 | 0x31 | 0x51 | 0x71 | 0x91 | 0xB1 | 0xD1 | 0xF1 => AddrMode::IndY,
        _ => AddrMode::Illegal,
    }
}

/// The table entry of an opcode.
pub open spec fn instruction_of(opcode: u8) -> Instruction {
    Instruction { mnemonic: mnemonic_of(opcode), addr_mode: addr_mode_of(opcode) }
}

/// Looks an opcode up in the instruction table.
pub fn instruction_lookup(opcode: u8) -> (instr: Instruction)
    ensures
        instr == instruction_of(opcode),
{
    let (mnemonic, addr_mode) = match opcode {
        0x00 => (Mnemonic::BRK, AddrMode::Impl),
        0x01 => (Mnemonic::ORA, AddrMode::XInd),
        0x05 => (Mnemonic::ORA, AddrMode::Zpg),
        0x06 => (Mnemonic::ASL, AddrMode::Zpg),
        0x08 => (Mnemonic::PHP, AddrMode::Impl),
        0x09 => (Mnemonic::ORA, AddrMode::Imm),
        0x0A => (Mnemonic::ASL, AddrMode::Impl),
        0x0D => (Mnemonic::ORA, AddrMode::Abs),
        0x0E => (Mnemonic::ASL, AddrMode::Abs),
        0x10 => (Mnemonic::BPL, AddrMode::Rel),
        0x11 => (Mnemonic::ORA, AddrMode::IndY),
        0x15 => (Mnemonic::ORA, AddrMode::ZpgX),
        0x16 => (Mnemonic::ASL, AddrMode::ZpgX),
        0x18 => (Mnemonic::CLC, AddrMode::Impl),
        0x19 => (Mnemonic::ORA, AddrMode::AbsY),
        0x1D => (Mnemonic::ORA, AddrMode::AbsX),
        0x1E => (Mnemonic::ASL, AddrMode::AbsX),
        0x20 => (Mnemonic::JSR, AddrMode::Abs),
        0x21 => (Mnemonic::AND, AddrMode::XInd),
        0x24 => (Mnemonic::BIT, AddrMode::Zpg),
        0x25 => (Mnemonic::AND, AddrMode::Zpg),
        0x26 => (Mnemonic::ROL, AddrMode::Zpg),
        0x28 => (Mnemonic::PLP, AddrMode::Impl),
        0x29 => (Mnemonic::AND, AddrMode::Imm),
        0x2A => (Mnemonic::ROL, AddrMode::Impl),
        0x2C => (Mnemonic::BIT, AddrMode::Abs),
        0x2D => (Mnemonic::AND, AddrMode::Abs),
        0x2E => (Mnemonic::ROL, AddrMode::Abs),
        0x30 => (Mnemonic::BMI, AddrMode::Rel),
        0x31 => (Mnemonic::AND, AddrMode::IndY),
        0x35 => (Mnemonic::AND, AddrMode::ZpgX),
        0x36 => (Mnemonic::ROL, AddrMode::ZpgX),
        0x38 => (Mnemonic::SEC, AddrMode::Impl),
        0x39 => (Mnemonic::AND, AddrMode::AbsY),
        0x3D => (Mnemonic::AND, AddrMode::AbsX),
        0x3E => (Mnemonic::ROL, AddrMode::AbsX),
        0x40 => (Mnemonic::RTI, AddrMode::Impl),
        0x41 => (Mnemonic::EOR, AddrMode::XInd),
        0x45 => (Mnemonic::EOR, AddrMode::Zpg),
        0x46 => (Mnemonic::LSR, AddrMode::Zpg),
        0x48 => (Mnemonic::PHA, AddrMode::Impl),
        0x49 => (Mnemonic::EOR, AddrMode::Imm),
        0x4A => (Mnemonic::LSR, AddrMode::Impl),
        0x4C => (Mnemonic::JMP, AddrMode::Abs),
        0x4D => (Mnemonic::EOR, AddrMode::Abs),
        0x4E => (Mnemonic::LSR, AddrMode::Abs),
        0x50 => (Mnemonic::BVC, AddrMode::Rel),
        0x51 => (Mnemonic::EOR, AddrMode::IndY),
        0x55 => (Mnemonic::EOR, AddrMode::ZpgX),
        0x56 => (Mnemonic::LSR, AddrMode::ZpgX),
        0x58 => (Mnemonic::CLI, AddrMode::Impl),
        0x59 => (Mnemonic::EOR, AddrMode::AbsY),
        0x5D => (Mnemonic::EOR, AddrMode::AbsX),
        0x5E => (Mnemonic::LSR, AddrMode::AbsX),
        0x60 => (Mnemonic::RTS, AddrMode::Impl),
        0x61 => (Mnemonic::ADC, AddrMode::XInd),
        0x65 => (Mnemonic::ADC, AddrMode::Zpg),
        0x66 => (Mnemonic::ROR, AddrMode::Zpg),
        0x68 => (Mnemonic::PLA, AddrMode::Impl),
        0x69 => (Mnemonic::ADC, AddrMode::Imm),
        0x6A => (Mnemonic::ROR, AddrMode::Impl),
        0x6C => (Mnemonic::JMP, AddrMode::Ind),
        0x6D => (Mnemonic::ADC, AddrMode::Abs),
        0x6E => (Mnemonic::ROR, AddrMode::Abs),
        0x70 => (Mnemonic::BVS, AddrMode::Rel),
        0x71 => (Mnemonic::ADC, AddrMode::IndY),
        0x75 => (Mnemonic::ADC, AddrMode::ZpgX),
        0x76 => (Mnemonic::ROR, AddrMode::ZpgX),
        0x78 => (Mnemonic::SEI, AddrMode::Impl),
        0x79 => (Mnemonic::ADC, AddrMode::AbsY),
        0x7D => (Mnemonic::ADC, AddrMode::AbsX),
        0x7E => (Mnemonic::ROR, AddrMode::AbsX),
        0x81 => (Mnemonic::STA, AddrMode::XInd),
        0x84 => (Mnemonic::STY, AddrMode::Zpg),
        0x85 => (Mnemonic::STA, AddrMode::Zpg),
        0x86 => (Mnemonic::STX, AddrMode::Zpg),
        0x88 => (Mnemonic::DEY, AddrMode::Impl),
        0x8A => (Mnemonic::TXA, AddrMode::Impl),
        0x8C => (Mnemonic::STY, AddrMode::Abs),
        0x8D => (Mnemonic::STA, AddrMode::Abs),
        0x8E => (Mnemonic::STX, AddrMode::Abs),
        0x90 => (Mnemonic::BCC, AddrMode::Rel),
        0x91 => (Mnemonic::STA, AddrMode::IndY),
        0x94 => (Mnemonic::STY, AddrMode::ZpgX),
        0x95 => (Mnemonic::STA, AddrMode::ZpgX),
        0x96 => (Mnemonic::STX, AddrMode::ZpgY),
        0x98 => (Mnemonic::TYA, AddrMode::Impl),
        0x99 => (Mnemonic::STA, AddrMode::AbsY),
        0x9A => (Mnemonic::TXS, AddrMode::Impl),
        0x9D => (Mnemonic::STA, AddrMode::AbsX),
        0xA0 => (Mnemonic::LDY, AddrMode::Imm),
        0xA1 => (Mnemonic::LDA, AddrMode::XInd),
        0xA2 => (Mnemonic::LDX, AddrMode::Imm),
        0xA4 => (Mnemonic::LDY, AddrMode::Zpg),
        0xA5 => (Mnemonic::LDA, AddrMode::Zpg),
        0xA6 => (Mnemonic::LDX, AddrMode::Zpg),
        0xA8 => (Mnemonic::TAY, AddrMode::Impl),
        0xA9 => (Mnemonic::LDA, AddrMode::Imm),
        0xAA => (Mnemonic::TAX, AddrMode::Impl),
        0xAC => (Mnemonic::LDY, AddrMode::Abs),
        0xAD => (Mnemonic::LDA, AddrMode::Abs),
        0xAE => (Mnemonic::LDX, AddrMode::Abs),
        0xB0 => (Mnemonic::BCS, AddrMode::Rel),
        0xB1 => (Mnemonic::LDA, AddrMode::IndY),
        0xB4 => (Mnemonic::LDY, AddrMode::ZpgX),
        0xB5 => (Mnemonic::LDA, AddrMode::ZpgX),
        0xB6 => (Mnemonic::LDX, AddrMode::ZpgY),
        0xB8 => (Mnemonic::CLV, AddrMode::Impl),
        0xB9 => (Mnemonic::LDA, AddrMode::AbsY),
        0xBA => (Mnemonic::TSX, AddrMode::Impl),
        0xBC => (Mnemonic::LDY, AddrMode::AbsX),
        0xBD => (Mnemonic::LDA, AddrMode::AbsX),
        0xBE => (Mnemonic::LDX, AddrMode::AbsY),
        0xC0 => (Mnemonic::CPY, AddrMode::Imm),
        0xC1 => (Mnemonic::CMP, AddrMode::XInd),
        0xC4 => (Mnemonic::CPY, AddrMode::Zpg),
        0xC5 => (Mnemonic::CMP, AddrMode::Zpg),
        0xC6 => (Mnemonic::DEC, AddrMode::Zpg),
        0xC8 => (Mnemonic::INY, AddrMode::Impl),
        0xC9 => (Mnemonic::CMP, AddrMode::Imm),
        0xCA => (Mnemonic::DEX, AddrMode::Impl),
        0xCC => (Mnemonic::CPY, AddrMode::Abs),
        0xCD => (Mnemonic::CMP, AddrMode::Abs),
        0xCE => (Mnemonic::DEC, AddrMode::Abs),
        0xD0 => (Mnemonic::BNE, AddrMode::Rel),
        0xD1 => (Mnemonic::CMP, AddrMode::IndY),
        0xD5 => (Mnemonic::CMP, AddrMode::ZpgX),
        0xD6 => (Mnemonic::DEC, AddrMode::ZpgX),
        0xD8 => (Mnemonic::CLD, AddrMode::Impl),
        0xD9 => (Mnemonic::CMP, AddrMode::AbsY),
        0xDD => (Mnemonic::CMP, AddrMode::AbsX),
        0xDE => (Mnemonic::DEC, AddrMode::AbsX),
        0xE0 => (Mnemonic::CPX, AddrMode::Imm),
        0xE1 => (Mnemonic::SBC, AddrMode::XInd),
        0xE4 => (Mnemonic::CPX, AddrMode::Zpg),
        0xE5 => (Mnemonic::SBC, AddrMode::Zpg),
        0xE6 => (Mnemonic::INC, AddrMode::Zpg),
        0xE8 => (Mnemonic::INX, AddrMode::Impl),
        0xE9 => (Mnemonic::SBC, AddrMode::Imm),
        0xEA => (Mnemonic::NOP, AddrMode::Impl),
        0xEC => (Mnemonic::CPX, AddrMode::Abs),
        0xED => (Mnemonic::SBC, AddrMode::Abs),
        0xEE => (Mnemonic::INC, AddrMode::Abs),
        0xF0 => (Mnemonic::BEQ, AddrMode::Rel),
        0xF1 => (Mnemonic::SBC, AddrMode::IndY),
        0xF5 => (Mnemonic::SBC, AddrMode::ZpgX),
        0xF6 => (Mnemonic::INC, AddrMode::ZpgX),
        0xF8 => (Mnemonic::SED, AddrMode::Impl),
        0xF9 => (Mnemonic::SBC, AddrMode::AbsY),
        0xFD => (Mnemonic::SBC, AddrMode::AbsX),
        0xFE => (Mnemonic::INC, AddrMode::AbsX),
        _ => (Mnemonic::ILLEGAL, AddrMode::Illegal),
    };
    Instruction { mnemonic, addr_mode }
}

/// The properties of an addressing mode: whether its operand is an address
/// to resolve, of which kind the address is, and by which register it is
/// indexed.
pub open spec fn mode_flags(mode: AddrMode) -> addr_mode_flag::T {
    addr_mode_flag::T(
        match mode {
            AddrMode::Illegal | AddrMode::Impl | AddrMode::Imm => addr_mode_flag::NoFlag,
            AddrMode::Zpg => addr_mode_flag::Resolve | addr_mode_flag::Zpg | addr_mode_flag::NoIndex,
            AddrMode::ZpgX => addr_mode_flag::Resolve | addr_mode_flag::Zpg | addr_mode_flag::X,
            AddrMode::ZpgY => addr_mode_flag::Resolve | addr_mode_flag::Zpg | addr_mode_flag::Y,
            AddrMode::Rel => addr_mode_flag::Resolve | addr_mode_flag::NoFlag | addr_mode_flag::NoIndex,
            AddrMode::Abs => addr_mode_flag::Resolve | addr_mode_flag::Abs | addr_mode_flag::NoIndex,
            AddrMode::AbsX => addr_mode_flag::Resolve | addr_mode_flag::Abs | addr_mode_flag::X,
            AddrMode::AbsY => addr_mode_flag::Resolve | addr_mode_flag::Abs | addr_mode_flag::Y,
            AddrMode::Ind => addr_mode_flag::Resolve | addr_mode_flag::Ind | addr_mode_flag::NoIndex,
            AddrMode::XInd => addr_mode_flag::Resolve | addr_mode_flag::Ind | addr_mode_flag::X,
            AddrMode::IndY => addr_mode_flag::Resolve | addr_mode_flag::Ind | addr_mode_flag::Y,
        },
    )
}

/// Whether the operand of the mode is an address that has to be resolved.
pub open spec fn resolves(mode: AddrMode) -> bool {
    !(mode is Illegal || mode is Impl || mode is Imm)
}

/// Which bits are set in the properties of each addressing mode.
pub proof fn mode_flag_bits(mode: AddrMode)
    ensures
        mode_flags(mode).0 & addr_mode_flag::Resolve != 0 <==> resolves(mode),
        mode_flags(mode).0 & addr_mode_flag::Abs != 0 <==> (mode is Abs || mode is AbsX || mode is AbsY),
        mode_flags(mode).0 & addr_mode_flag::Ind != 0 <==> (mode is Ind || mode is XInd || mode is IndY),
        mode_flags(mode).0 & addr_mode_flag::Zpg != 0 <==> (mode is Zpg || mode is ZpgX || mode is ZpgY),
        mode_flags(mode).0 & addr_mode_flag::X != 0 <==> (mode is ZpgX || mode is AbsX || mode is XInd),
        mode_flags(mode).0 & addr_mode_flag::Y != 0 <==> (mode is ZpgY || mode is AbsY || mode is IndY),
{
    let m = mode_flags(mode).0;
    assert(0x01u8 | 0x10 | 0x80 == 0x91 && 0x01u8 | 0x10 | 0x20 == 0x31 && 0x01u8 | 0x10 | 0x40 == 0x51
        && 0x01u8 | 0x00 | 0x80 == 0x81 && 0x01u8 | 0x08 | 0x80 == 0x89 && 0x01u8 | 0x08 | 0x20 == 0x29
        && 0x01u8 | 0x08 | 0x40 == 0x49 && 0x01u8 | 0x04 | 0x80 == 0x85 && 0x01u8 | 0x04 | 0x20 == 0x25
        && 0x01u8 | 0x04 | 0x40 == 0x45) by (bit_vector);
    assert((m == 0 || m == 0x91 || m == 0x31 || m == 0x51 || m == 0x81 || m == 0x89 || m == 0x29
        || m == 0x49 || m == 0x85 || m == 0x25 || m == 0x45) ==> {
        &&& (m & 0x01 != 0 <==> m != 0)
        &&& (m & 0x08 != 0 <==> (m == 0x89 || m == 0x29 || m == 0x49))
        &&& (m & 0x04 != 0 <==> (m == 0x85 || m == 0x25 || m == 0x45))
        &&& (m & 0x10 != 0 <==> (m == 0x91 || m == 0x31 || m == 0x51))
        &&& (m & 0x20 != 0 <==> (m == 0x31 || m == 0x29 || m == 0x25))
        &&& (m & 0x40 != 0 <==> (m == 0x51 || m == 0x49 || m == 0x45))
    }) by (bit_vector);
}

/// Looks up the properties of an addressing mode.
pub fn lookup_addr_mode_flags(mode: AddrMode) -> (flags: addr_mode_flag::T)
    ensures
        flags == mode_flags(mode),
{
    let no = addr_mode_flag::T(addr_mode_flag::NoFlag);
    let resolve = addr_mode_flag::T(addr_mode_flag::Resolve);
    let ind = addr_mode_flag::T(addr_mode_flag::Ind);
    let abs = addr_mode_flag::T(addr_mode_flag::Abs);
    let zpg = addr_mode_flag::T(addr_mode_flag::Zpg);
    let x = addr_mode_flag::T(addr_mode_flag::X);
    let y = addr_mode_flag::T(addr_mode_flag::Y);
    let no_index = addr_mode_flag::T(addr_mode_flag::NoIndex);
    match mode {
        AddrMode::Illegal | AddrMode::Impl | AddrMode::Imm => no,
        AddrMode::Zpg => addr_mode_flag::combine(resolve, zpg, no_index),
        AddrMode::ZpgX => addr_mode_flag::combine(resolve, zpg, x),
        AddrMode::ZpgY => addr_mode_flag::combine(resolve, zpg, y),
        AddrMode::Rel => addr_mode_flag::combine(resolve, no, no_index),
        AddrMode::Abs => addr_mode_flag::combine(resolve, abs, no_index),
        AddrMode::AbsX => addr_mode_flag::combine(resolve, abs, x),
        AddrMode::AbsY => addr_mode_flag::combine(resolve, abs, y),
        AddrMode::Ind => addr_mode_flag::combine(resolve, ind, no_index),
        AddrMode::XInd => addr_mode_flag::combine(resolve, ind, x),
        AddrMode::IndY => addr_mode_flag::combine(resolve, ind, y),
    }
}

} // verus!
