use rust6502::shared::{word, word_hi, word_lo, Cpu, Mem, C1541_RAM_SIZE, C64_RAM_SIZE};
use rust6502::shared::addr_mode_flag;
use rust6502::shared::flag;

#[test]
fn word_joins_low_and_high_byte() {
    assert_eq!(word(0x34, 0x12), 0x1234);
    assert_eq!(word(0xFF, 0x00), 0x00FF);
    assert_eq!(word(0x00, 0xFF), 0xFF00);
    assert_eq!(word(0xFF, 0xFF), 0xFFFF);
    assert_eq!(word(0, 0), 0);
}

#[test]
fn word_hi_and_lo_split_a_word() {
    assert_eq!(word_hi(0x1234), 0x12);
    assert_eq!(word_lo(0x1234), 0x34);
    assert_eq!(word_hi(0xFFFF), 0xFF);
    assert_eq!(word_lo(0x0100), 0x00);
}

#[test]
fn word_round_trips_through_its_bytes() {
    for w in [0u16, 1, 0x00FF, 0x0100, 0x8000, 0xABCD, 0xFFFF] {
        assert_eq!(word(word_lo(w), word_hi(w)), w);
    }
}

#[test]
fn new_memory_is_zero() {
    let mem = Mem::new(C1541_RAM_SIZE);
    assert_eq!(mem.size(), 2048);
    assert_eq!(mem.read(0), 0);
    assert_eq!(mem.read(2047), 0);
}

#[test]
fn memory_reads_what_was_written() {
    let mut mem = Mem::new(C64_RAM_SIZE);
    mem.write(0x1234, 0xAB);
    mem.write(0x1235, 0xCD);
    assert_eq!(mem.read(0x1234), 0xAB);
    assert_eq!(mem.read(0x1235), 0xCD);
    assert_eq!(mem.read(0x1236), 0);
    mem.write(0x1234, 0x01);
    assert_eq!(mem.read(0x1234), 0x01);
    assert_eq!(mem.read(0x1235), 0xCD);
}

#[test]
fn read_word_is_little_endian() {
    let mut mem = Mem::new(C64_RAM_SIZE);
    mem.write(0xFFFC, 0x00);
    mem.write(0xFFFD, 0xC0);
    assert_eq!(mem.read_word(0xFFFC), 0xC000);
    mem.write(0x00FF, 0x34);
    mem.write(0x0100, 0x12);
    assert_eq!(mem.read_word(0x00FF), 0x1234);
}

#[test]
fn cpu_after_reset() {
    let cpu = Cpu::new(0xC000);
    assert_eq!(cpu.reg.a, 0);
    assert_eq!(cpu.reg.x, 0);
    assert_eq!(cpu.reg.y, 0);
    assert_eq!(cpu.reg.p, 0);
    assert_eq!(cpu.reg.s, 0xFF);
    assert_eq!(cpu.reg.pc, 0xC000);
    assert_eq!(cpu.reg.ic, 0);
    assert_eq!(cpu.reg.cc, 0);
}

#[test]
fn flags_sit_at_their_bits() {
    assert_eq!(flag::N, 0x80);
    assert_eq!(flag::V, 0x40);
    assert_eq!(flag::B, 0x10);
    assert_eq!(flag::D, 0x08);
    assert_eq!(flag::I, 0x04);
    assert_eq!(flag::Z, 0x02);
    assert_eq!(flag::C, 0x01);
}

#[test]
fn set_flag_changes_one_flag_only() {
    let mut cpu = Cpu::new(0);
    cpu.set_flag(flag::T(flag::C), true);
    cpu.set_flag(flag::T(flag::N), true);
    assert_eq!(cpu.reg.p, 0x81);
    assert!(cpu.get_flag(flag::T(flag::C)));
    assert!(cpu.get_flag(flag::T(flag::N)));
    assert!(!cpu.get_flag(flag::T(flag::Z)));
    cpu.set_flag(flag::T(flag::C), false);
    assert_eq!(cpu.reg.p, 0x80);
    assert!(!cpu.get_flag(flag::T(flag::C)));
    assert!(cpu.get_flag(flag::T(flag::N)));
}

#[test]
fn every_flag_reads_back_as_written() {
    let flags = [flag::N, flag::V, flag::B, flag::D, flag::I, flag::Z, flag::C];
    for p in [0x00u8, 0xFF, 0x5A, 0xA5] {
        for f in flags {
            for set in [false, true] {
                let mut cpu = Cpu::new(0);
                cpu.reg.p = p;
                cpu.set_flag(flag::T(f), set);
                for g in flags {
                    let before = p & g != 0;
                    let expected = if f == g { set } else { before };
                    assert_eq!(cpu.get_flag(flag::T(g)), expected);
                }
            }
        }
    }
}

#[test]
fn flag_masks_intersect() {
    assert_eq!(flag::T(0xF0) & flag::T(0x3C), flag::T(0x30));
    assert_eq!(addr_mode_flag::T(0xF0) & addr_mode_flag::T(0x3C), addr_mode_flag::T(0x30));
}

#[test]
fn combine_is_the_union() {
    let all = addr_mode_flag::combine(
        addr_mode_flag::T(addr_mode_flag::Resolve),
        addr_mode_flag::T(addr_mode_flag::Abs),
        addr_mode_flag::T(addr_mode_flag::X),
    );
    assert_eq!(all, addr_mode_flag::T(0x29));
    let none = addr_mode_flag::combine(
        addr_mode_flag::T(addr_mode_flag::NoFlag),
        addr_mode_flag::T(addr_mode_flag::NoFlag),
        addr_mode_flag::T(addr_mode_flag::NoFlag),
    );
    assert_eq!(none, addr_mode_flag::T(0));
}

#[test]
fn is_set_tells_a_common_bit() {
    let flags = addr_mode_flag::T(0x29);
    assert!(addr_mode_flag::is_set(flags, addr_mode_flag::T(addr_mode_flag::Abs)));
    assert!(addr_mode_flag::is_set(flags, addr_mode_flag::T(addr_mode_flag::X)));
    assert!(!addr_mode_flag::is_set(flags, addr_mode_flag::T(addr_mode_flag::Y)));
    assert!(!addr_mode_flag::is_set(flags, addr_mode_flag::T(addr_mode_flag::NoFlag)));
}
