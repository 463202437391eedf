//! The processor: flag arithmetic, the stack, addressing modes, and the
//! execution of instructions.

use vstd::prelude::*;
use crate::bus::{peek_word, Bus};
use crate::instructions::{Instruction, instruction_lookup, instruction_of, lookup_addr_mode_flags, mode_flag_bits, mode_flags, resolves};
use crate::shared::{flag_write_then_read, has_flag, is_flag, offset, with_flag, word, word_hi, word_lo, word_of};
use crate::shared::{AddrMode, Cpu, Mnemonic, Registers};
use crate::shared::addr_mode_flag;
use crate::shared::addr_mode_flag::is_set;
use crate::shared::flag;

verus! {

/// Why an instruction could not be executed.
#[derive(Clone, Copy, PartialEq, Eq, Structural, Debug)]
pub enum FaultKind {
    /// The opcode byte names no instruction.
    IllegalOpcode,
    /// A push with the stack pointer at `0x00`.
    StackOverflow,
    /// A pull with the stack pointer at `0xFF`, or a return from subroutine
    /// with fewer than two bytes on the stack.
    StackUnderflow,
    /// `BRK` or `RTI`: interrupts are not emulated.
    Unsupported,
    /// The instruction does not take an operand of the kind that it was given.
    Unexpected,
}

/// A fault, with the instruction that raised it.
#[derive(Clone, Copy, PartialEq, Eq, Structural, Debug)]
pub struct Fault {
    pub kind: FaultKind,
    /// The opcode byte of the instruction.
    pub opcode: u8,
    /// The address of the opcode byte.
    pub pc: u16,
    /// The number of the instruction, counted from 1.
    pub ic: usize,
}

/// The status byte `p` with Z and N set from `value`: Z where it is zero, N
/// where its bit 7 is set.
pub open spec fn nz(p: u8, value: u8) -> u8 {
    with_flag(with_flag(p, flag::Z, value == 0), flag::N, value >= 0x80)
}

/// The address of the stack cell that the stack pointer `s` names.
pub open spec fn stack_addr(s: u8) -> u16 {
    (0x0100 + s) as u16
}

/// The registers and the bus state after a push of `value`, where `reg.s` is
/// not zero.
pub open spec fn pushed<B: Bus>(reg: Registers, m: B::V, value: u8) -> (Registers, B::V) {
    (Registers { s: (reg.s - 1) as u8, ..reg }, B::poke(m, stack_addr(reg.s), value))
}

/// The registers after a pull and the value pulled, where `reg.s` is not
/// `0xFF`.
pub open spec fn pulled<B: Bus>(reg: Registers, m: B::V) -> (Registers, u8) {
    (Registers { s: (reg.s + 1) as u8, ..reg }, B::peek(m, stack_addr((reg.s + 1) as u8)))
}

/// The status byte and the result of a shift to the left: bit 7 goes to the
/// carry, and `low_bit` comes in as bit 0.
pub open spec fn shift_left(p: u8, value: u8, low_bit: bool) -> (u8, u8) {
    let result = ((value * 2) % 256 + if low_bit { 1int } else { 0 }) as u8;
    (nz(with_flag(p, flag::C, value >= 0x80), result), result)
}

/// The status byte and the result of a shift to the right: bit 0 goes to the
/// carry, and `high_bit` comes in as bit 7.
pub open spec fn shift_right(p: u8, value: u8, high_bit: bool) -> (u8, u8) {
    let result = (value / 2 + if high_bit { 128int } else { 0 }) as u8;
    (nz(with_flag(p, flag::C, value % 2 == 1), result), result)
}

/// The one's complement of a byte.
pub open spec fn complement(value: u8) -> u8 {
    (255 - value) as u8
}

/// The registers after an addition of `operand` to `reg_val`. The carry
/// comes in as 1 where it is set or where `is_compare` holds. N and Z
/// follow the low eight bits of the sum, C is its ninth bit. Unless
/// `is_compare` holds, V tells whether both summands differ in sign from the
/// result, and the result goes to the accumulator.
pub open spec fn summed(reg: Registers, reg_val: u8, operand: u8, is_compare: bool) -> Registers {
    let carry_in = if is_compare || has_flag(reg.p, flag::C) { 1int } else { 0 };
    let sum = reg_val + operand + carry_in;
    let result = (sum % 256) as u8;
    let p = with_flag(nz(reg.p, result), flag::C, sum >= 256);
    if is_compare {
        Registers { p, ..reg }
    } else {
        let overflow = (reg_val ^ result) & (operand ^ result) & 0x80 != 0;
        Registers { p: with_flag(p, flag::V, overflow), a: result, ..reg }
    }
}

/// Sets the N and Z flags from `byte_value`.
pub fn set_nz(cpu: &mut Cpu, byte_value: u8)
    ensures
        final(cpu).reg == (Registers { p: nz(old(cpu).reg.p, byte_value), ..old(cpu).reg }),
{
    assert((byte_value & 0x80 != 0) == (byte_value >= 0x80)) by (bit_vector);
    if byte_value == 0 {
        cpu.set_flag(flag::T(flag::Z), true);
        cpu.set_flag(flag::T(flag::N), false);
    } else {
        cpu.set_flag(flag::T(flag::Z), false);
        cpu.set_flag(flag::T(flag::N), 0 != (byte_value & 0x80));
    }
}

/// Pushes `operand` on the stack. With the stack pointer at zero nothing is
/// changed and the push fails.
pub fn push<B: Bus>(cpu: &mut Cpu, mem: &mut B, operand: u8) -> (r: Result<(), FaultKind>)
    requires
        B::valid(old(mem)@),
    ensures
        B::valid(final(mem)@),
        old(cpu).reg.s == 0 ==> r == Err::<(), FaultKind>(FaultKind::StackOverflow)
            && *final(cpu) == *old(cpu) && final(mem)@ == old(mem)@,
        old(cpu).reg.s != 0 ==> r is Ok
            && (final(cpu).reg, final(mem)@) == pushed::<B>(old(cpu).reg, old(mem)@, operand),
{
    if cpu.reg.s == 0 {
        return Err(FaultKind::StackOverflow);
    }
    mem.set(0x100 + (cpu.reg.s as u16), operand);
    cpu.reg.s -= 1;
    Ok(())
}

/// Pulls a byte from the stack. With the stack pointer at `0xFF` nothing is
/// changed and the pull fails.
pub fn pull<B: Bus>(cpu: &mut Cpu, mem: &B) -> (r: Result<u8, FaultKind>)
    requires
        B::valid(mem@),
    ensures
        old(cpu).reg.s == 0xFF ==> r == Err::<u8, FaultKind>(FaultKind::StackUnderflow)
            && *final(cpu) == *old(cpu),
        old(cpu).reg.s != 0xFF ==> r is Ok
            && (final(cpu).reg, r->Ok_0) == pulled::<B>(old(cpu).reg, mem@),
{
    if cpu.reg.s == 0xFF {
        return Err(FaultKind::StackUnderflow);
    }
    cpu.reg.s += 1;
    let v = mem.get(0x100 + (cpu.reg.s as u16));
    Ok(v)
}

/// What was pushed is pulled again, and the pull leaves the registers as
/// they were before the push.
pub proof fn push_then_pull<B: Bus>(reg: Registers, m: B::V, value: u8)
    requires
        B::valid(m),
        reg.s != 0,
    ensures
        pushed::<B>(reg, m, value).0.s != 0xFF,
        pulled::<B>(pushed::<B>(reg, m, value).0, pushed::<B>(reg, m, value).1) == (reg, value),
{
    B::stack_page_is_storage(m, stack_addr(reg.s), value, stack_addr(reg.s));
}

/// Reads the byte at `addr`.
pub fn load<B: Bus>(mem: &mut B, addr: u16) -> (value: u8)
    requires
        B::valid(old(mem)@),
    ensures
        value == B::peek(old(mem)@, addr),
        final(mem)@ == old(mem)@,
{
    mem.get(addr)
}

/// Writes `value` to `addr` and hands it back.
pub fn store<B: Bus>(mem: &mut B, addr: u16, value: u8) -> (stored: u8)
    requires
        B::valid(old(mem)@),
    ensures
        B::valid(final(mem)@),
        final(mem)@ == B::poke(old(mem)@, addr, value),
        stored == value,
{
    mem.set(addr, value);
    value
}

/// Arithmetic shift left.
pub fn bitwise_asl(cpu: &mut Cpu, value: u8) -> (shifted: u8)
    ensures
        (final(cpu).reg.p, shifted) == shift_left(old(cpu).reg.p, value, false),
        final(cpu).reg == (Registers { p: final(cpu).reg.p, ..old(cpu).reg }),
{
    assert((value & 0x80 != 0) == (value >= 0x80) && (value << 1) == (value * 2) % 256) by (bit_vector);
    cpu.set_flag(flag::T(flag::C), value & 0x80 != 0);
    let shifted = value << 1;
    set_nz(cpu, shifted);
    shifted
}

/// Logical shift right.
pub fn bitwise_lsr(cpu: &mut Cpu, value: u8) -> (shifted: u8)
    ensures
        (final(cpu).reg.p, shifted) == shift_right(old(cpu).reg.p, value, false),
        final(cpu).reg == (Registers { p: final(cpu).reg.p, ..old(cpu).reg }),
{
    assert((value & 1 != 0) == (value % 2 == 1) && (value >> 1) == value / 2) by (bit_vector);
    cpu.set_flag(flag::T(flag::C), value & 1 != 0);
    let shifted = value >> 1;
    set_nz(cpu, shifted);
    shifted
}

/// Rotate left through the carry.
pub fn bitwise_rol(cpu: &mut Cpu, value: u8) -> (shifted: u8)
    ensures
        (final(cpu).reg.p, shifted) == shift_left(
            old(cpu).reg.p,
            value,
            has_flag(old(cpu).reg.p, flag::C),
        ),
        final(cpu).reg == (Registers { p: final(cpu).reg.p, ..old(cpu).reg }),
{
    assert((value & 0x80 != 0) == (value >= 0x80) && (value << 1) == (value * 2) % 256
        && (value << 1) <= 254) by (bit_vector);
    let carry_set_before = cpu.get_flag(flag::T(flag::C));
    cpu.set_flag(flag::T(flag::C), value & 0x80 != 0);
    let mut shifted = value << 1;
    if carry_set_before {
        shifted += 1;
    }
    set_nz(cpu, shifted);
    shifted
}

/// Rotate right through the carry.
pub fn bitwise_ror(cpu: &mut Cpu, value: u8) -> (shifted: u8)
    ensures
        (final(cpu).reg.p, shifted) == shift_right(
            old(cpu).reg.p,
            value,
            has_flag(old(cpu).reg.p, flag::C),
        ),
        final(cpu).reg == (Registers { p: final(cpu).reg.p, ..old(cpu).reg }),
{
    assert((value & 1 != 0) == (value % 2 == 1) && (value >> 1) == value / 2
        && ((value >> 1) | 0x80) == value / 2 + 128) by (bit_vector);
    let carry_set_before = cpu.get_flag(flag::T(flag::C));
    cpu.set_flag(flag::T(flag::C), value & 1 != 0);
    let mut shifted = value >> 1;
    if carry_set_before {
        shifted |= 0x80;
    }
    set_nz(cpu, shifted);
    shifted
}

/// Adds `mem_val` and the carry to `reg_val`. This is add with carry;
/// with `mem_val` complemented it is subtract with carry, and with
/// `is_compare` a comparison, which leaves V and the accumulator alone.
pub fn add(cpu: &mut Cpu, reg_val: u8, mem_val: u8, is_compare: bool)
    ensures
        final(cpu).reg == summed(old(cpu).reg, reg_val, mem_val, is_compare),
{
    let mut diff: u16 = (reg_val as u16) + (mem_val as u16);
    if is_compare || cpu.get_flag(flag::T(flag::C)) {
        diff += 1;
    }
    assert(diff & 0xFF == diff % 256 && (diff & 0x100 != 0) == (diff >= 256)) by (bit_vector)
        requires
            diff < 512,
    ;
    let b: u8 = (diff & 0xFF) as u8;
    set_nz(cpu, b);
    cpu.set_flag(flag::T(flag::C), diff & 0x100 != 0);
    if !is_compare {
        let overflow = 0 != ((reg_val ^ b) & (mem_val ^ b) & 0x80);
        cpu.set_flag(flag::T(flag::V), overflow);
        cpu.reg.a = b;
    }
}

/// The registers after a return from subroutine, where at least two bytes
/// are on the stack: the low and then the high byte of an address are
/// pulled, and execution goes on one past that address.
pub open spec fn returned<B: Bus>(reg: Registers, m: B::V) -> Registers {
    let lo = B::peek(m, stack_addr((reg.s + 1) as u8));
    let hi = B::peek(m, stack_addr((reg.s + 2) as u8));
    Registers { s: (reg.s + 2) as u8, pc: offset(word_of(lo, hi), 1), ..reg }
}

/// Returns from a subroutine. With fewer than two bytes on the stack
/// nothing is changed and the return fails.
pub fn return_from_sub<B: Bus>(cpu: &mut Cpu, mem: &B) -> (r: Result<(), FaultKind>)
    requires
        B::valid(mem@),
    ensures
        old(cpu).reg.s > 0xFD ==> r == Err::<(), FaultKind>(FaultKind::StackUnderflow)
            && *final(cpu) == *old(cpu),
        old(cpu).reg.s <= 0xFD ==> r is Ok && final(cpu).reg == returned::<B>(old(cpu).reg, mem@),
{
    if cpu.reg.s > 0xFD {
        return Err(FaultKind::StackUnderflow);
    }
    let return_addr_lo = mem.get(0x101 + (cpu.reg.s as u16));
    let return_addr_hi = mem.get(0x102 + (cpu.reg.s as u16));
    cpu.reg.s += 2;
    cpu.reg.pc = word(return_addr_lo, return_addr_hi).wrapping_add(1);
    Ok(())
}

/// A return from subroutine is two pulls, and one is added to the address
/// that they give.
pub proof fn return_is_two_pulls<B: Bus>(reg: Registers, m: B::V)
    requires
        reg.s <= 0xFD,
    ensures
        ({
            let (first, lo) = pulled::<B>(reg, m);
            let (second, hi) = pulled::<B>(first, m);
            returned::<B>(reg, m) == (Registers { pc: offset(word_of(lo, hi), 1), ..second })
        }),
{
}

/// Goes on at `addr`. `far` tells a jump from a branch. The bus is not
/// touched.
pub fn jump<B: Bus>(cpu: &mut Cpu, _mem: &mut B, addr: u16, far: bool)
    ensures
        final(cpu).reg == (Registers { pc: addr, ..old(cpu).reg }),
        final(_mem)@ == old(_mem)@,
{
    cpu.reg.pc = addr;
}

/// The word that `pointer` points to.
pub fn deref<B: Bus>(mem: &B, pointer: u16) -> (w: u16)
    requires
        B::valid(mem@),
    ensures
        w == peek_word::<B>(mem@, pointer),
{
    let lo = mem.get(pointer);
    let hi = mem.get(pointer.wrapping_add(1));
    word(lo, hi)
}

/// The registers after a reset: the stack is empty, all flags are clear,
/// and execution starts at `start_addr`.
pub open spec fn reset_registers(start_addr: u16) -> Registers {
    Registers { a: 0, x: 0, y: 0, p: 0, s: 0xFF, pc: start_addr, ic: 0, cc: 0 }
}

/// The processor after a reset on the bus `mem`: execution starts at the
/// address that the reset vector at `0xFFFC` holds.
pub fn reset<B: Bus>(mem: &B) -> (cpu: Cpu)
    requires
        B::valid(mem@),
    ensures
        cpu.reg == reset_registers(peek_word::<B>(mem@, 0xFFFC)),
{
    Cpu::new(deref(mem, 0xFFFC))
}

/// The number of operand bytes of an addressing mode.
pub open spec fn operand_len(mode: AddrMode) -> int {
    match mode {
        AddrMode::Illegal | AddrMode::Impl => 0,
        AddrMode::Abs | AddrMode::AbsX | AddrMode::AbsY | AddrMode::Ind => 2,
        _ => 1,
    }
}

/// The value of a byte read as a two's complement number.
pub open spec fn signed(value: u8) -> int {
    if value < 0x80 {
        value as int
    } else {
        value - 256
    }
}

/// The zero-page address `base` indexed by `index`, which stays in the zero
/// page.
pub open spec fn zero_page(base: u8, index: u8) -> u16 {
    ((base + index) % 256) as u16
}

/// What an addressing mode resolves to, with the program counter of `reg`
/// at the first operand byte: whether the address was found through a
/// pointer, the effective address, and the address as the operand bytes
/// give it where they hold a full 16-bit address, else zero. A pointer is
/// read as any word is: where its low byte is the last of a page, its
/// high byte is the first of the next page.
pub open spec fn resolved<B: Bus>(reg: Registers, m: B::V, mode: AddrMode) -> (bool, u16, u16) {
    let lo = B::peek(m, reg.pc);
    let hi = B::peek(m, offset(reg.pc, 1));
    let abs = word_of(lo, hi);
    match mode {
        AddrMode::Zpg => (false, lo as u16, 0),
        AddrMode::ZpgX => (false, zero_page(lo, reg.x), 0),
        AddrMode::ZpgY => (false, zero_page(lo, reg.y), 0),
        AddrMode::Rel => (false, offset(offset(reg.pc, 1), signed(lo)), 0),
        AddrMode::Abs => (false, abs, abs),
        AddrMode::AbsX => (false, offset(abs, reg.x as int), abs),
        AddrMode::AbsY => (false, offset(abs, reg.y as int), abs),
        AddrMode::Ind => (true, peek_word::<B>(m, abs), abs),
        AddrMode::XInd => (true, peek_word::<B>(m, zero_page(lo, reg.x)), 0),
        AddrMode::IndY => (true, offset(peek_word::<B>(m, lo as u16), reg.y as int), 0),
        _ => (false, 0, 0),
    }
}

/// The address after `addr`.
fn next(addr: u16) -> (after: u16)
    ensures
        after == offset(addr, 1),
        offset(after, 1) == offset(addr, 2),
{
    addr.wrapping_add(1)
}

/// The address `index` places after `addr`.
fn indexed(addr: u16, index: u8) -> (sum: u16)
    ensures
        sum == offset(addr, index as int),
{
    addr.wrapping_add(index as u16)
}

/// The zero-page address `index` places after `base`.
fn zero_page_indexed(base: u8, index: u8) -> (sum: u16)
    ensures
        sum == zero_page(base, index),
{
    base.wrapping_add(index) as u16
}

/// The address that lies the signed `distance` from `pc`.
fn branch_target(pc: u16, distance: u8) -> (target: u16)
    ensures
        target == offset(pc, signed(distance)),
{
    if distance < 0x80 {
        pc.wrapping_add(distance as u16)
    } else {
        pc.wrapping_sub(256 - (distance as u16))
    }
}

/// Reads the operand bytes of an addressing mode at the program counter,
/// moves the program counter past them, and resolves them to an address.
pub fn resolve_address<B: Bus>(
    cpu: &mut Cpu,
    mem: &B,
    admd: AddrMode,
    admd_flags: addr_mode_flag::T,
) -> (r: (bool, u16, u16))
    requires
        B::valid(mem@),
        resolves(admd),
        admd_flags == mode_flags(admd),
    ensures
        r == resolved::<B>(old(cpu).reg, mem@, admd),
        final(cpu).reg == (Registers {
            pc: offset(old(cpu).reg.pc, operand_len(admd)),
            ..old(cpu).reg
        }),
{
    let mut is_indirect = false;
    let mut raw_addr: u16 = 0;
    let first = mem.get(cpu.reg.pc);
    let mut addr: u16 = first as u16;
    cpu.reg.pc = next(cpu.reg.pc);
    proof {
        mode_flag_bits(admd);
    }
    if is_set(admd_flags, addr_mode_flag::T(addr_mode_flag::Abs)) {
        let second = mem.get(cpu.reg.pc);
        addr = word(first, second);
        cpu.reg.pc = next(cpu.reg.pc);
        raw_addr = addr;
        if admd == AddrMode::AbsX {
            addr = indexed(addr, cpu.reg.x);
        } else if admd == AddrMode::AbsY {
            addr = indexed(addr, cpu.reg.y);
        }
    } else {
        if is_set(admd_flags, addr_mode_flag::T(addr_mode_flag::Ind)) {
            if admd == AddrMode::XInd {
                addr = deref(mem, zero_page_indexed(first, cpu.reg.x));
            } else {
                if admd == AddrMode::IndY {
                    addr = deref(mem, addr);
                    addr = indexed(addr, cpu.reg.y);
                } else {
                    let second = mem.get(cpu.reg.pc);
                    addr = word(first, second);
                    cpu.reg.pc = next(cpu.reg.pc);
                    raw_addr = addr;
                    addr = deref(mem, addr);
                }
            }
            is_indirect = true;
        } else if admd == AddrMode::Rel {
            addr = branch_target(cpu.reg.pc, first);
        } else {
            if admd == AddrMode::ZpgX {
                addr = zero_page_indexed(first, cpu.reg.x);
            } else if admd == AddrMode::ZpgY {
                addr = zero_page_indexed(first, cpu.reg.y);
            }
        }
    }
    (is_indirect, addr, raw_addr)
}

/// `reg` with the accumulator loaded with `value`.
pub open spec fn with_a(reg: Registers, value: u8) -> Registers {
    Registers { a: value, p: nz(reg.p, value), ..reg }
}

/// `reg` with register X loaded with `value`.
pub open spec fn with_x(reg: Registers, value: u8) -> Registers {
    Registers { x: value, p: nz(reg.p, value), ..reg }
}

/// `reg` with register Y loaded with `value`.
pub open spec fn with_y(reg: Registers, value: u8) -> Registers {
    Registers { y: value, p: nz(reg.p, value), ..reg }
}

/// The byte after `value`; after `0xFF` comes zero.
pub open spec fn inc(value: u8) -> u8 {
    ((value + 1) % 256) as u8
}

/// The byte before `value`; before zero comes `0xFF`.
pub open spec fn dec(value: u8) -> u8 {
    ((value + 255) % 256) as u8
}

/// What an instruction does with the operand byte `operand`.
pub open spec fn immediate(reg: Registers, mnemonic: Mnemonic, operand: u8) -> Result<
    Registers,
    FaultKind,
> {
    match mnemonic {
        Mnemonic::LDA => Ok(with_a(reg, operand)),
        Mnemonic::LDX => Ok(with_x(reg, operand)),
        Mnemonic::LDY => Ok(with_y(reg, operand)),
        Mnemonic::ADC => Ok(summed(reg, reg.a, operand, false)),
        Mnemonic::SBC => Ok(summed(reg, reg.a, complement(operand), false)),
        Mnemonic::CMP => Ok(summed(reg, reg.a, complement(operand), true)),
        Mnemonic::CPX => Ok(summed(reg, reg.x, complement(operand), true)),
        Mnemonic::CPY => Ok(summed(reg, reg.y, complement(operand), true)),
        Mnemonic::ORA => Ok(with_a(reg, reg.a | operand)),
        Mnemonic::AND => Ok(with_a(reg, reg.a & operand)),
        Mnemonic::EOR => Ok(with_a(reg, reg.a ^ operand)),
        _ => Err(FaultKind::Unexpected),
    }
}

/// Executes an instruction on an operand byte. Where the instruction takes
/// no such operand nothing is changed and the fault is returned.
pub fn interp_immediate(cpu: &mut Cpu, mnemonic: Mnemonic, operand: u8) -> (r: Result<(), FaultKind>)
    ensures
        match immediate(old(cpu).reg, mnemonic, operand) {
            Ok(reg) => r is Ok && final(cpu).reg == reg,
            Err(kind) => r == Err::<(), FaultKind>(kind) && *final(cpu) == *old(cpu),
        },
{
    assert(!operand == 255 - operand) by (bit_vector);
    let a = cpu.reg.a;
    let x = cpu.reg.x;
    let y = cpu.reg.y;
    match mnemonic {
        Mnemonic::LDA => { cpu.reg.a = operand; set_nz(cpu, operand); },
        Mnemonic::LDX => { cpu.reg.x = operand; set_nz(cpu, operand); },
        Mnemonic::LDY => { cpu.reg.y = operand; set_nz(cpu, operand); },
        Mnemonic::ADC => { self::add(cpu, a, operand, false); },
        Mnemonic::SBC => { self::add(cpu, a, !operand, false); },
        Mnemonic::CMP => { self::add(cpu, a, !operand, true); },
        Mnemonic::CPX => { self::add(cpu, x, !operand, true); },
        Mnemonic::CPY => { self::add(cpu, y, !operand, true); },
        Mnemonic::ORA => { cpu.reg.a = a | operand; set_nz(cpu, a | operand); },
        Mnemonic::AND => { cpu.reg.a = a & operand; set_nz(cpu, a & operand); },
        Mnemonic::EOR => { cpu.reg.a = a ^ operand; set_nz(cpu, a ^ operand); },
        _ => { return Err(FaultKind::Unexpected); },
    }
    Ok(())
}

/// `reg` after a branch to `addr` that is taken or not.
pub open spec fn branched(reg: Registers, taken: bool, addr: u16) -> Registers {
    if taken {
        Registers { pc: addr, ..reg }
    } else {
        reg
    }
}

/// The registers and the bus state after a call of the subroutine at
/// `addr`, where at least two bytes of the stack are free: the address of
/// the last byte of the calling instruction is pushed, high byte first.
pub open spec fn called<B: Bus>(reg: Registers, m: B::V, addr: u16) -> (Registers, B::V) {
    let last = offset(reg.pc, -1);
    let (reg1, m1) = pushed::<B>(reg, m, (last / 256) as u8);
    let (reg2, m2) = pushed::<B>(reg1, m1, (last % 256) as u8);
    (Registers { pc: addr, ..reg2 }, m2)
}

/// What an instruction does with the operand at `addr`, with the program
/// counter of `reg` already past the instruction.
pub open spec fn addressed<B: Bus>(reg: Registers, m: B::V, mnemonic: Mnemonic, addr: u16) -> Result<
    (Registers, B::V),
    FaultKind,
> {
    let value = B::peek(m, addr);
    let p = reg.p;
    match mnemonic {
        Mnemonic::JSR => if reg.s < 2 {
            Err(FaultKind::StackOverflow)
        } else {
            Ok(called::<B>(reg, m, addr))
        },
        Mnemonic::JMP => Ok((branched(reg, true, addr), m)),
        Mnemonic::BPL => Ok((branched(reg, !has_flag(p, flag::N), addr), m)),
        Mnemonic::BMI => Ok((branched(reg, has_flag(p, flag::N), addr), m)),
        Mnemonic::BVC => Ok((branched(reg, !has_flag(p, flag::V), addr), m)),
        Mnemonic::BVS => Ok((branched(reg, has_flag(p, flag::V), addr), m)),
        Mnemonic::BCC => Ok((branched(reg, !has_flag(p, flag::C), addr), m)),
        Mnemonic::BCS => Ok((branched(reg, has_flag(p, flag::C), addr), m)),
        Mnemonic::BNE => Ok((branched(reg, !has_flag(p, flag::Z), addr), m)),
        Mnemonic::BEQ => Ok((branched(reg, has_flag(p, flag::Z), addr), m)),
        Mnemonic::LDA => Ok((with_a(reg, value), m)),
        Mnemonic::LDX => Ok((with_x(reg, value), m)),
        Mnemonic::LDY => Ok((with_y(reg, value), m)),
        Mnemonic::STA => Ok((reg, B::poke(m, addr, reg.a))),
        Mnemonic::STX => Ok((reg, B::poke(m, addr, reg.x))),
        Mnemonic::STY => Ok((reg, B::poke(m, addr, reg.y))),
        Mnemonic::BIT => Ok((reg, B::poke(m, addr, reg.p))),
        Mnemonic::INC => Ok((Registers { p: nz(p, inc(value)), ..reg }, B::poke(m, addr, inc(value)))),
        Mnemonic::DEC => Ok((Registers { p: nz(p, dec(value)), ..reg }, B::poke(m, addr, dec(value)))),
        Mnemonic::ASL => Ok((
            Registers { p: shift_left(p, value, false).0, ..reg },
            B::poke(m, addr, shift_left(p, value, false).1),
        )),
        Mnemonic::LSR => Ok((
            Registers { p: shift_right(p, value, false).0, ..reg },
            B::poke(m, addr, shift_right(p, value, false).1),
        )),
        Mnemonic::ROL => Ok((
            Registers { p: shift_left(p, value, has_flag(p, flag::C)).0, ..reg },
            B::poke(m, addr, shift_left(p, value, has_flag(p, flag::C)).1),
        )),
        Mnemonic::ROR => Ok((
            Registers { p: shift_right(p, value, has_flag(p, flag::C)).0, ..reg },
            B::poke(m, addr, shift_right(p, value, has_flag(p, flag::C)).1),
        )),
        _ => match immediate(reg, mnemonic, value) {
            Ok(next) => Ok((next, m)),
            Err(kind) => Err(kind),
        },
    }
}

/// Whether a handler did what `expected` says: on success the processor and
/// the bus are in the state that it gives, and on a fault the fault is
/// returned and both are as they were `before`.
pub open spec fn settled<S, F>(
    expected: Result<(Registers, S), F>,
    r: Result<(), F>,
    before: (Registers, S),
    after: (Registers, S),
) -> bool {
    match expected {
        Ok(next) => r is Ok && after == next,
        Err(fault) => r == Err::<(), F>(fault) && after == before,
    }
}

/// Executes an instruction on the operand at `addr`.
pub fn interp_address<B: Bus>(cpu: &mut Cpu, mem: &mut B, mnemonic: Mnemonic, addr: u16) -> (r: Result<
    (),
    FaultKind,
>)
    requires
        B::valid(old(mem)@),
    ensures
        B::valid(final(mem)@),
        settled(
            addressed::<B>(old(cpu).reg, old(mem)@, mnemonic, addr),
            r,
            (old(cpu).reg, old(mem)@),
            (final(cpu).reg, final(mem)@),
        ),
{
    let a = cpu.reg.a;
    let x = cpu.reg.x;
    let y = cpu.reg.y;
    let p = cpu.reg.p;
    match mnemonic {
        Mnemonic::JSR => {
            if cpu.reg.s < 2 {
                return Err(FaultKind::StackOverflow);
            }
            let push_addr = cpu.reg.pc.wrapping_sub(1);
            let first = push(cpu, mem, word_hi(push_addr));
            let second = push(cpu, mem, word_lo(push_addr));
            jump(cpu, mem, addr, true);
        },
        Mnemonic::JMP => { jump(cpu, mem, addr, true); },
        Mnemonic::BPL => { if !cpu.get_flag(flag::T(flag::N)) { jump(cpu, mem, addr, false); } },
        Mnemonic::BMI => { if cpu.get_flag(flag::T(flag::N)) { jump(cpu, mem, addr, false); } },
        Mnemonic::BVC => { if !cpu.get_flag(flag::T(flag::V)) { jump(cpu, mem, addr, false); } },
        Mnemonic::BVS => { if cpu.get_flag(flag::T(flag::V)) { jump(cpu, mem, addr, false); } },
        Mnemonic::BCC => { if !cpu.get_flag(flag::T(flag::C)) { jump(cpu, mem, addr, false); } },
        Mnemonic::BCS => { if cpu.get_flag(flag::T(flag::C)) { jump(cpu, mem, addr, false); } },
        Mnemonic::BNE => { if !cpu.get_flag(flag::T(flag::Z)) { jump(cpu, mem, addr, false); } },
        Mnemonic::BEQ => { if cpu.get_flag(flag::T(flag::Z)) { jump(cpu, mem, addr, false); } },
        Mnemonic::LDA => { let v = load(mem, addr); cpu.reg.a = v; set_nz(cpu, v); },
        Mnemonic::LDX => { let v = load(mem, addr); cpu.reg.x = v; set_nz(cpu, v); },
        Mnemonic::LDY => { let v = load(mem, addr); cpu.reg.y = v; set_nz(cpu, v); },
        Mnemonic::STA => { store(mem, addr, a); },
        Mnemonic::STX => { store(mem, addr, x); },
        Mnemonic::STY => { store(mem, addr, y); },
        Mnemonic::BIT => { store(mem, addr, p); },
        Mnemonic::INC => {
            let v = load(mem, addr).wrapping_add(1);
            store(mem, addr, v);
            set_nz(cpu, v);
        },
        Mnemonic::DEC => {
            let v = load(mem, addr).wrapping_sub(1);
            store(mem, addr, v);
            set_nz(cpu, v);
        },
        Mnemonic::ASL => { let v = bitwise_asl(cpu, load(mem, addr)); store(mem, addr, v); },
        Mnemonic::LSR => { let v = bitwise_lsr(cpu, load(mem, addr)); store(mem, addr, v); },
        Mnemonic::ROL => { let v = bitwise_rol(cpu, load(mem, addr)); store(mem, addr, v); },
        Mnemonic::ROR => { let v = bitwise_ror(cpu, load(mem, addr)); store(mem, addr, v); },
        _ => { return interp_immediate(cpu, mnemonic, load(mem, addr)); },
    }
    Ok(())
}

/// What an instruction without an operand does.
pub open spec fn implied<B: Bus>(reg: Registers, m: B::V, mnemonic: Mnemonic) -> Result<
    (Registers, B::V),
    FaultKind,
> {
    let p = reg.p;
    let carry = has_flag(p, flag::C);
    match mnemonic {
        Mnemonic::RTS => if reg.s > 0xFD {
            Err(FaultKind::StackUnderflow)
        } else {
            Ok((returned::<B>(reg, m), m))
        },
        Mnemonic::PHP => if reg.s == 0 {
            Err(FaultKind::StackOverflow)
        } else {
            Ok(pushed::<B>(reg, m, reg.p))
        },
        Mnemonic::PHA => if reg.s == 0 {
            Err(FaultKind::StackOverflow)
        } else {
            Ok(pushed::<B>(reg, m, reg.a))
        },
        Mnemonic::PLP => if reg.s == 0xFF {
            Err(FaultKind::StackUnderflow)
        } else {
            Ok((Registers { p: pulled::<B>(reg, m).1, ..pulled::<B>(reg, m).0 }, m))
        },
        Mnemonic::PLA => if reg.s == 0xFF {
            Err(FaultKind::StackUnderflow)
        } else {
            Ok((Registers { a: pulled::<B>(reg, m).1, ..pulled::<B>(reg, m).0 }, m))
        },
        Mnemonic::CLC => Ok((Registers { p: with_flag(p, flag::C, false), ..reg }, m)),
        Mnemonic::SEC => Ok((Registers { p: with_flag(p, flag::C, true), ..reg }, m)),
        Mnemonic::CLV => Ok((Registers { p: with_flag(p, flag::V, false), ..reg }, m)),
        Mnemonic::CLD => Ok((Registers { p: with_flag(p, flag::D, false), ..reg }, m)),
        Mnemonic::SED => Ok((Registers { p: with_flag(p, flag::D, true), ..reg }, m)),
        Mnemonic::CLI => Ok((Registers { p: with_flag(p, flag::I, false), ..reg }, m)),
        Mnemonic::SEI => Ok((Registers { p: with_flag(p, flag::I, true), ..reg }, m)),
        Mnemonic::INX => Ok((with_x(reg, inc(reg.x)), m)),
        Mnemonic::DEX => Ok((with_x(reg, dec(reg.x)), m)),
        Mnemonic::INY => Ok((with_y(reg, inc(reg.y)), m)),
        Mnemonic::DEY => Ok((with_y(reg, dec(reg.y)), m)),
        Mnemonic::TYA => Ok((with_a(reg, reg.y), m)),
        Mnemonic::TAY => Ok((with_y(reg, reg.a), m)),
        Mnemonic::TXA => Ok((with_a(reg, reg.x), m)),
        Mnemonic::TAX => Ok((with_x(reg, reg.a), m)),
        Mnemonic::TXS => Ok((Registers { s: reg.x, ..reg }, m)),
        Mnemonic::TSX => Ok((with_x(reg, reg.s), m)),
        Mnemonic::ASL => Ok((
            Registers { p: shift_left(p, reg.a, false).0, a: shift_left(p, reg.a, false).1, ..reg },
            m,
        )),
        Mnemonic::LSR => Ok((
            Registers { p: shift_right(p, reg.a, false).0, a: shift_right(p, reg.a, false).1, ..reg },
            m,
        )),
        Mnemonic::ROL => Ok((
            Registers { p: shift_left(p, reg.a, carry).0, a: shift_left(p, reg.a, carry).1, ..reg },
            m,
        )),
        Mnemonic::ROR => Ok((
            Registers { p: shift_right(p, reg.a, carry).0, a: shift_right(p, reg.a, carry).1, ..reg },
            m,
        )),
        Mnemonic::NOP => Ok((reg, m)),
        Mnemonic::BRK | Mnemonic::RTI => Err(FaultKind::Unsupported),
        _ => Err(FaultKind::Unexpected),
    }
}

/// Executes an instruction that has no operand.
pub fn interp_implied<B: Bus>(cpu: &mut Cpu, mem: &mut B, mnemonic: Mnemonic) -> (r: Result<
    (),
    FaultKind,
>)
    requires
        B::valid(old(mem)@),
    ensures
        B::valid(final(mem)@),
        settled(
            implied::<B>(old(cpu).reg, old(mem)@, mnemonic),
            r,
            (old(cpu).reg, old(mem)@),
            (final(cpu).reg, final(mem)@),
        ),
{
    let a = cpu.reg.a;
    let x = cpu.reg.x;
    let y = cpu.reg.y;
    let p = cpu.reg.p;
    let s = cpu.reg.s;
    match mnemonic {
        Mnemonic::RTS => { return return_from_sub(cpu, mem); },
        Mnemonic::PHP => { return push(cpu, mem, p); },
        Mnemonic::PHA => { return push(cpu, mem, a); },
        Mnemonic::PLP => {
            match pull(cpu, mem) {
                Ok(v) => { cpu.reg.p = v; },
                Err(kind) => { return Err(kind); },
            }
        },
        Mnemonic::PLA => {
            match pull(cpu, mem) {
                Ok(v) => { cpu.reg.a = v; },
                Err(kind) => { return Err(kind); },
            }
        },
        Mnemonic::CLC => { cpu.set_flag(flag::T(flag::C), false); },
        Mnemonic::SEC => { cpu.set_flag(flag::T(flag::C), true); },
        Mnemonic::CLV => { cpu.set_flag(flag::T(flag::V), false); },
        Mnemonic::CLD => { cpu.set_flag(flag::T(flag::D), false); },
        Mnemonic::SED => { cpu.set_flag(flag::T(flag::D), true); },
        Mnemonic::CLI => { cpu.set_flag(flag::T(flag::I), false); },
        Mnemonic::SEI => { cpu.set_flag(flag::T(flag::I), true); },
        Mnemonic::INX => { let v = x.wrapping_add(1); cpu.reg.x = v; set_nz(cpu, v); },
        Mnemonic::DEX => { let v = x.wrapping_sub(1); cpu.reg.x = v; set_nz(cpu, v); },
        Mnemonic::INY => { let v = y.wrapping_add(1); cpu.reg.y = v; set_nz(cpu, v); },
        Mnemonic::DEY => { let v = y.wrapping_sub(1); cpu.reg.y = v; set_nz(cpu, v); },
        Mnemonic::TYA => { cpu.reg.a = y; set_nz(cpu, y); },
        Mnemonic::TAY => { cpu.reg.y = a; set_nz(cpu, a); },
        Mnemonic::TXA => { cpu.reg.a = x; set_nz(cpu, x); },
        Mnemonic::TAX => { cpu.reg.x = a; set_nz(cpu, a); },
        Mnemonic::TXS => { cpu.reg.s = x; },
        Mnemonic::TSX => { cpu.reg.x = s; set_nz(cpu, s); },
        Mnemonic::ASL => { let v = bitwise_asl(cpu, a); cpu.reg.a = v; },
        Mnemonic::LSR => { let v = bitwise_lsr(cpu, a); cpu.reg.a = v; },
        Mnemonic::ROL => { let v = bitwise_rol(cpu, a); cpu.reg.a = v; },
        Mnemonic::ROR => { let v = bitwise_ror(cpu, a); cpu.reg.a = v; },
        Mnemonic::NOP => { },
        Mnemonic::BRK | Mnemonic::RTI => { return Err(FaultKind::Unsupported); },
        _ => { return Err(FaultKind::Unexpected); },
    }
    Ok(())
}

/// The registers after the opcode byte was read: the program counter is
/// past it, and the instruction is counted.
pub open spec fn fetched(reg: Registers) -> Registers {
    Registers { pc: offset(reg.pc, 1), ic: (reg.ic + 1) as usize, ..reg }
}

/// What the instruction `instr` does, with the program counter of `reg` at
/// its first operand byte.
pub open spec fn executed<B: Bus>(reg: Registers, m: B::V, instr: Instruction) -> Result<
    (Registers, B::V),
    FaultKind,
> {
    let past = Registers { pc: offset(reg.pc, operand_len(instr.addr_mode)), ..reg };
    if instr.mnemonic is ILLEGAL {
        Err(FaultKind::IllegalOpcode)
    } else {
        match instr.addr_mode {
            AddrMode::Illegal => Err(FaultKind::IllegalOpcode),
            AddrMode::Impl => implied::<B>(reg, m, instr.mnemonic),
            AddrMode::Imm => match immediate(past, instr.mnemonic, B::peek(m, reg.pc)) {
                Ok(next) => Ok((next, m)),
                Err(kind) => Err(kind),
            },
            mode => addressed::<B>(past, m, instr.mnemonic, resolved::<B>(reg, m, mode).1),
        }
    }
}

/// One instruction: the opcode byte at the program counter is looked up in
/// the instruction table and the instruction is executed. A fault names
/// the opcode byte, its address and the number of the instruction.
pub open spec fn step<B: Bus>(reg: Registers, m: B::V) -> Result<(Registers, B::V), Fault> {
    let opcode = B::peek(m, reg.pc);
    match executed::<B>(fetched(reg), m, instruction_of(opcode)) {
        Ok(next) => Ok(next),
        Err(kind) => Err(Fault { kind, opcode, pc: reg.pc, ic: fetched(reg).ic }),
    }
}

/// Executes the instruction at the program counter. On a fault the
/// processor and the bus are as they were before the call.
pub fn interp_one_instruction<B: Bus>(cpu: &mut Cpu, mem: &mut B) -> (r: Result<(), Fault>)
    requires
        B::valid(old(mem)@),
        old(cpu).reg.ic < usize::MAX,
    ensures
        B::valid(final(mem)@),
        settled(
            step::<B>(old(cpu).reg, old(mem)@),
            r,
            (old(cpu).reg, old(mem)@),
            (final(cpu).reg, final(mem)@),
        ),
        r is Ok ==> final(cpu).reg.ic == old(cpu).reg.ic + 1 && final(cpu).reg.cc == old(cpu).reg.cc,
        r is Err ==> r->Err_0.kind != FaultKind::Unexpected,
{
    proof {
        table_fits_handlers::<B>(fetched(cpu.reg), mem@, B::peek(mem@, cpu.reg.pc));
    }
    let saved = *cpu;
    let opcode_addr = cpu.reg.pc;
    let opcode = mem.get(opcode_addr);
    cpu.reg.pc = next(cpu.reg.pc);
    cpu.reg.ic += 1;
    let instr = instruction_lookup(opcode);
    let done = if instr.mnemonic == Mnemonic::ILLEGAL {
        Err(FaultKind::IllegalOpcode)
    } else {
        let admd_flags = lookup_addr_mode_flags(instr.addr_mode);
        proof {
            mode_flag_bits(instr.addr_mode);
        }
        if is_set(admd_flags, addr_mode_flag::T(addr_mode_flag::Resolve)) {
            let (is_indirect, operand, raw_operand) = resolve_address(cpu, mem, instr.addr_mode, admd_flags);
            interp_address(cpu, mem, instr.mnemonic, operand)
        } else {
            match instr.addr_mode {
                AddrMode::Imm => {
                    let operand = mem.get(cpu.reg.pc);
                    cpu.reg.pc = next(cpu.reg.pc);
                    interp_immediate(cpu, instr.mnemonic, operand)
                },
                AddrMode::Impl => interp_implied(cpu, mem, instr.mnemonic),
                _ => Err(FaultKind::IllegalOpcode),
            }
        }
    };
    match done {
        Ok(()) => Ok(()),
        Err(kind) => {
            *cpu = saved;
            Err(Fault { kind, opcode, pc: opcode_addr, ic: saved.reg.ic + 1 })
        },
    }
}

/// The registers and the bus state after a run of at most `steps`
/// instructions, and the fault that ended it, if one did.
pub open spec fn run<B: Bus>(reg: Registers, m: B::V, steps: nat) -> (Registers, B::V, Option<Fault>)
    decreases steps,
{
    if steps == 0 {
        (reg, m, None)
    } else {
        match step::<B>(reg, m) {
            Ok((next_reg, next_m)) => run::<B>(next_reg, next_m, (steps - 1) as nat),
            Err(fault) => (reg, m, Some(fault)),
        }
    }
}

/// Executes instructions until one faults or `max_steps` of them are done:
/// a request to stop is served between two instructions. The processor and
/// the bus are left as the last instruction that was executed left them.
pub fn interp_steps<B: Bus>(cpu: &mut Cpu, mem: &mut B, max_steps: usize) -> (r: Result<(), Fault>)
    requires
        B::valid(old(mem)@),
        old(cpu).reg.ic + max_steps <= usize::MAX,
    ensures
        B::valid(final(mem)@),
        run::<B>(old(cpu).reg, old(mem)@, max_steps as nat) == (
            final(cpu).reg,
            final(mem)@,
            match r {
                Ok(_) => None,
                Err(fault) => Some(fault),
            },
        ),
        r is Ok ==> final(cpu).reg.ic == old(cpu).reg.ic + max_steps,
{
    proof {
        run_counts::<B>(cpu.reg, mem@, max_steps as nat);
    }
    let mut done: usize = 0;
    while done < max_steps
        invariant
            done <= max_steps,
            B::valid(mem@),
            cpu.reg.ic + (max_steps - done) <= usize::MAX,
            run::<B>(old(cpu).reg, old(mem)@, max_steps as nat) == run::<B>(
                cpu.reg,
                mem@,
                (max_steps - done) as nat,
            ),
        decreases max_steps - done,
    {
        match interp_one_instruction(cpu, mem) {
            Ok(()) => { },
            Err(fault) => { return Err(fault); },
        }
        done += 1;
    }
    Ok(())
}

/// Executes instructions until one faults. The run also ends, without a
/// fault, where the count of instructions has reached the largest number
/// that it can hold.
pub fn interp<B: Bus>(cpu: &mut Cpu, mem: &mut B) -> (r: Result<(), Fault>)
    requires
        B::valid(old(mem)@),
    ensures
        B::valid(final(mem)@),
        run::<B>(old(cpu).reg, old(mem)@, (usize::MAX - old(cpu).reg.ic) as nat) == (
            final(cpu).reg,
            final(mem)@,
            match r {
                Ok(_) => None,
                Err(fault) => Some(fault),
            },
        ),
        r is Ok ==> final(cpu).reg.ic == usize::MAX,
{
    let left = usize::MAX - cpu.reg.ic;
    interp_steps(cpu, mem, left)
}

/// Every instruction of the table is known to the handler of its addressing
/// mode: no opcode byte faults as unexpected.
pub proof fn table_fits_handlers<B: Bus>(reg: Registers, m: B::V, opcode: u8)
    ensures
        executed::<B>(reg, m, instruction_of(opcode)) != Err::<(Registers, B::V), FaultKind>(
            FaultKind::Unexpected,
        ),
        instruction_of(opcode).mnemonic is ILLEGAL <==> instruction_of(opcode).addr_mode is Illegal,
{
}

/// After N and Z were set from a value, Z tells whether the value is zero
/// and N whether its bit 7 is set, and the other flags are as they were.
pub proof fn nz_flags(p: u8, value: u8, other: u8)
    requires
        is_flag(other),
        other != flag::Z,
        other != flag::N,
    ensures
        has_flag(nz(p, value), flag::Z) == (value == 0),
        has_flag(nz(p, value), flag::N) == (value >= 0x80),
        has_flag(nz(p, value), other) == has_flag(p, other),
{
    let after_first = with_flag(p, flag::Z, value == 0);
    flag_write_then_read(p, flag::Z, flag::Z, value == 0);
    flag_write_then_read(p, flag::Z, other, value == 0);
    flag_write_then_read(after_first, flag::N, flag::Z, value >= 0x80);
    flag_write_then_read(after_first, flag::N, flag::N, value >= 0x80);
    flag_write_then_read(after_first, flag::N, other, value >= 0x80);
}

/// What an addition means. The accumulator holds the low eight bits of the
/// sum of the two values and the carry. C tells that the sum does not fit
/// in eight bits, Z that its low eight bits are zero, N that bit 7 of them
/// is set, and V that the sum of the two values read as signed numbers,
/// and the carry, does not fit in a signed byte.
pub proof fn sum_flags(reg: Registers, reg_val: u8, operand: u8)
    ensures
        ({
            let carry_in = if has_flag(reg.p, flag::C) { 1int } else { 0 };
            let sum = reg_val + operand + carry_in;
            let signed_sum = signed(reg_val) + signed(operand) + carry_in;
            let after = summed(reg, reg_val, operand, false);
            &&& after.a == sum % 256
            &&& has_flag(after.p, flag::C) == (sum >= 256)
            &&& has_flag(after.p, flag::Z) == (sum % 256 == 0)
            &&& has_flag(after.p, flag::N) == (sum % 256 >= 128)
            &&& has_flag(after.p, flag::V) == !(-128 <= signed_sum <= 127)
            &&& has_flag(after.p, flag::D) == has_flag(reg.p, flag::D)
            &&& has_flag(after.p, flag::I) == has_flag(reg.p, flag::I)
            &&& has_flag(after.p, flag::B) == has_flag(reg.p, flag::B)
            &&& after == (Registers { a: after.a, p: after.p, ..reg })
        }),
{
    let carry_in = if has_flag(reg.p, flag::C) { 1int } else { 0 };
    let sum = reg_val + operand + carry_in;
    let result = (sum % 256) as u8;
    let overflow = (reg_val ^ result) & (operand ^ result) & 0x80 != 0;
    let after_nz = nz(reg.p, result);
    let after_first = with_flag(after_nz, flag::C, sum >= 256);
    assert(overflow == ((reg_val < 128) == (operand < 128) && (result < 128) != (reg_val < 128)))
        by (bit_vector)
        requires
            overflow == ((reg_val ^ result) & (operand ^ result) & 0x80 != 0),
    ;
    nz_flags(reg.p, result, flag::C);
    nz_flags(reg.p, result, flag::V);
    nz_flags(reg.p, result, flag::D);
    nz_flags(reg.p, result, flag::I);
    nz_flags(reg.p, result, flag::B);
    flag_write_then_read(after_nz, flag::C, flag::C, sum >= 256);
    flag_write_then_read(after_nz, flag::C, flag::Z, sum >= 256);
    flag_write_then_read(after_nz, flag::C, flag::N, sum >= 256);
    flag_write_then_read(after_nz, flag::C, flag::D, sum >= 256);
    flag_write_then_read(after_nz, flag::C, flag::I, sum >= 256);
    flag_write_then_read(after_nz, flag::C, flag::B, sum >= 256);
    flag_write_then_read(after_first, flag::V, flag::V, overflow);
    flag_write_then_read(after_first, flag::V, flag::C, overflow);
    flag_write_then_read(after_first, flag::V, flag::Z, overflow);
    flag_write_then_read(after_first, flag::V, flag::N, overflow);
    flag_write_then_read(after_first, flag::V, flag::D, overflow);
    flag_write_then_read(after_first, flag::V, flag::I, overflow);
    flag_write_then_read(after_first, flag::V, flag::B, overflow);
}

/// What a comparison means. The operand comes complemented, and the carry
/// counts as set, so the sum is the difference of the two values. C tells
/// that the register value is not below the operand, Z that the two are
/// equal, and N that bit 7 of the difference is set. The registers and the
/// other flags are as they were.
pub proof fn compare_flags(reg: Registers, reg_val: u8, operand: u8, other: u8)
    requires
        is_flag(other),
        other != flag::Z,
        other != flag::N,
        other != flag::C,
    ensures
        ({
            let after = summed(reg, reg_val, complement(operand), true);
            &&& has_flag(after.p, flag::C) == (reg_val >= operand)
            &&& has_flag(after.p, flag::Z) == (reg_val == operand)
            &&& has_flag(after.p, flag::N) == ((reg_val - operand) % 256 >= 128)
            &&& has_flag(after.p, other) == has_flag(reg.p, other)
            &&& after == (Registers { p: after.p, ..reg })
        }),
{
    let sum = reg_val + complement(operand) + 1;
    let result = (sum % 256) as u8;
    let after_nz = nz(reg.p, result);
    nz_flags(reg.p, result, flag::C);
    nz_flags(reg.p, result, other);
    flag_write_then_read(after_nz, flag::C, flag::C, sum >= 256);
    flag_write_then_read(after_nz, flag::C, flag::Z, sum >= 256);
    flag_write_then_read(after_nz, flag::C, flag::N, sum >= 256);
    flag_write_then_read(after_nz, flag::C, other, sum >= 256);
}

/// An indexed zero-page address stays in the zero page.
pub proof fn zero_page_stays_in_page(base: u8, index: u8)
    ensures
        zero_page(base, index) < 0x100,
        base + index < 0x100 ==> zero_page(base, index) == base + index,
        base + index >= 0x100 ==> zero_page(base, index) == base + index - 0x100,
{
}

/// A branch on equal goes the signed distance of its operand byte from the
/// address after the instruction where Z is set, and to the address after
/// the instruction where Z is clear. Nothing else changes but the count
/// of instructions.
pub proof fn branch_on_equal<B: Bus>(reg: Registers, m: B::V)
    requires
        B::peek(m, reg.pc) == 0xF0,
    ensures
        ({
            let after = offset(reg.pc, 2);
            let distance = signed(B::peek(m, offset(reg.pc, 1)));
            let target = if has_flag(reg.p, flag::Z) { offset(after, distance) } else { after };
            step::<B>(reg, m) == Ok::<(Registers, B::V), Fault>(
                (Registers { pc: target, ic: (reg.ic + 1) as usize, ..reg }, m),
            )
        }),
{
    let instr = Instruction { mnemonic: Mnemonic::BEQ, addr_mode: AddrMode::Rel };
    let at_operand = fetched(reg);
    let past = Registers { pc: offset(reg.pc, 2), ..at_operand };
    let target = offset(offset(reg.pc, 2), signed(B::peek(m, offset(reg.pc, 1))));
    beq_entry();
    offsets_add_up(reg.pc);
    assert(resolved::<B>(at_operand, m, AddrMode::Rel).1 == target);
    assert(executed::<B>(at_operand, m, instr) == addressed::<B>(past, m, Mnemonic::BEQ, target));
    assert(addressed::<B>(past, m, Mnemonic::BEQ, target) == Ok::<(Registers, B::V), FaultKind>(
        (branched(past, has_flag(reg.p, flag::Z), target), m),
    ));
}

/// The table entry of the branch on equal.
proof fn beq_entry()
    ensures
        instruction_of(0xF0) == (Instruction { mnemonic: Mnemonic::BEQ, addr_mode: AddrMode::Rel }),
{
}

/// One place after one place after an address is two places after it.
proof fn offsets_add_up(addr: u16)
    ensures
        offset(offset(addr, 1), 1) == offset(addr, 2),
{
}

/// An instruction that does not fault counts as one instruction and
/// leaves the cycle count alone.
pub proof fn step_counts<B: Bus>(reg: Registers, m: B::V)
    ensures
        step::<B>(reg, m) is Ok ==> step::<B>(reg, m)->Ok_0.0.ic == (reg.ic + 1) as usize && step::<B>(
            reg,
            m,
        )->Ok_0.0.cc == reg.cc,
{
    let opcode = B::peek(m, reg.pc);
    let instr = instruction_of(opcode);
    let at_operand = fetched(reg);
    let past = Registers { pc: offset(at_operand.pc, operand_len(instr.addr_mode)), ..at_operand };
    let addr = resolved::<B>(at_operand, m, instr.addr_mode).1;
    handlers_keep_counts::<B>(at_operand, m, instr.mnemonic, 0, 0);
    handlers_keep_counts::<B>(past, m, instr.mnemonic, addr, B::peek(m, at_operand.pc));
}

/// No handler changes the count of instructions or of cycles.
proof fn handlers_keep_counts<B: Bus>(reg: Registers, m: B::V, mnemonic: Mnemonic, addr: u16, operand: u8)
    ensures
        match immediate(reg, mnemonic, operand) {
            Ok(next) => next.ic == reg.ic && next.cc == reg.cc,
            Err(_) => true,
        },
        match addressed::<B>(reg, m, mnemonic, addr) {
            Ok(next) => next.0.ic == reg.ic && next.0.cc == reg.cc,
            Err(_) => true,
        },
        match implied::<B>(reg, m, mnemonic) {
            Ok(next) => next.0.ic == reg.ic && next.0.cc == reg.cc,
            Err(_) => true,
        },
{
}

/// A run of `steps` instructions that ends without a fault has counted
/// `steps` instructions.
pub proof fn run_counts<B: Bus>(reg: Registers, m: B::V, steps: nat)
    requires
        reg.ic + steps <= usize::MAX,
    ensures
        run::<B>(reg, m, steps).2 is None ==> run::<B>(reg, m, steps).0.ic == reg.ic + steps,
        run::<B>(reg, m, steps).0.ic <= reg.ic + steps,
        run::<B>(reg, m, steps).0.ic >= reg.ic,
    decreases steps,
{
    if steps > 0 {
        step_counts::<B>(reg, m);
        match step::<B>(reg, m) {
            Ok((next_reg, next_m)) => {
                run_counts::<B>(next_reg, next_m, (steps - 1) as nat);
            },
            Err(_) => {},
        }
    }
}

} // verus!
