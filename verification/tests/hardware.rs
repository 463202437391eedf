use rust6502::bus::Bus;
use rust6502::c64;
use rust6502::c64::mos6510;
use rust6502::c64::mos6510::{IoRegion, RomRegion};
use rust6502::c64::{cia_addr_conv, video_addr_conv, HardwareC64, RomError};
use rust6502::cpu::{interp_one_instruction, pull, push};
use rust6502::media::{Display, Pixel, DISPLAY_H, DISPLAY_W};
use rust6502::shared::Cpu;
use rust6502::video::{render, Sprite};

fn rom(size: usize, seed: u8) -> Vec<u8> {
    let mut bytes = Vec::with_capacity(size);
    for i in 0..size {
        bytes.push(seed.wrapping_add((i % 251) as u8));
    }
    bytes
}

fn chargen_byte(offset: usize) -> u8 {
    0x10u8.wrapping_add((offset % 251) as u8)
}

fn basic_byte(offset: usize) -> u8 {
    0x20u8.wrapping_add((offset % 251) as u8)
}

fn kernal_byte(offset: usize) -> u8 {
    0x30u8.wrapping_add((offset % 251) as u8)
}

fn computer() -> HardwareC64 {
    match c64::new(rom(4096, 0x10), rom(8192, 0x20), rom(8192, 0x30)) {
        Ok(hw) => hw,
        Err(e) => panic!("{:?}", e),
    }
}

#[test]
fn port_after_reset() {
    let port = mos6510::new();
    assert_eq!(port.get(0), 0x2F);
    assert_eq!(port.get(1), 0x37);
    assert_eq!(port.bank_a000(), RomRegion::Rom);
    assert_eq!(port.bank_d000(), IoRegion::Io);
    assert_eq!(port.bank_e000(), RomRegion::Rom);
}

#[test]
fn port_write_is_masked_by_the_direction_register() {
    let mut port = mos6510::new();
    port.set(1, 0xFF);
    assert_eq!(port.get(1), 0x2F);
    port.set(0, 0x07);
    assert_eq!(port.get(0), 0x07);
    assert_eq!(port.get(1), 0x2F);
    port.set(1, 0xFD);
    assert_eq!(port.get(1), 0x05);
    port.set(0, 0x00);
    port.set(1, 0xFF);
    assert_eq!(port.get(1), 0x00);
}

#[test]
fn bank_table_row_by_row() {
    let rows = [
        (0u8, RomRegion::Ram, IoRegion::Ram, RomRegion::Ram),
        (1, RomRegion::Ram, IoRegion::CharRom, RomRegion::Ram),
        (2, RomRegion::Ram, IoRegion::CharRom, RomRegion::Rom),
        (3, RomRegion::Rom, IoRegion::CharRom, RomRegion::Rom),
        (4, RomRegion::Ram, IoRegion::Ram, RomRegion::Ram),
        (5, RomRegion::Ram, IoRegion::Io, RomRegion::Ram),
        (6, RomRegion::Ram, IoRegion::Io, RomRegion::Rom),
        (7, RomRegion::Rom, IoRegion::Io, RomRegion::Rom),
    ];
    for (bits, a000, d000, e000) in rows {
        let mut port = mos6510::new();
        port.set(0, 0xFF);
        port.set(1, 0xF8 | bits);
        assert_eq!(port.bank_a000(), a000);
        assert_eq!(port.bank_d000(), d000);
        assert_eq!(port.bank_e000(), e000);
    }
}

#[test]
fn rom_images_of_the_wrong_size_are_refused() {
    assert_eq!(
        c64::new(rom(4095, 0), rom(8192, 0), rom(8192, 0)).err(),
        Some(RomError::CharacterRomSize)
    );
    assert_eq!(
        c64::new(rom(4096, 0), rom(8193, 0), rom(8192, 0)).err(),
        Some(RomError::BasicRomSize)
    );
    assert_eq!(
        c64::new(rom(4096, 0), rom(8192, 0), rom(0, 0)).err(),
        Some(RomError::KernalRomSize)
    );
    assert_eq!(c64::new(rom(0, 0), rom(0, 0), rom(0, 0)).err(), Some(RomError::CharacterRomSize));
    assert!(c64::new(rom(4096, 0), rom(8192, 0), rom(8192, 0)).is_ok());
}

#[test]
fn power_on_state() {
    let hw = computer();
    assert_eq!(hw.mem_get(0), 0x2F);
    assert_eq!(hw.mem_get(1), 0x37);
    assert_eq!(hw.mem_get(0x0002), 0);
    assert_eq!(hw.mem_get(0xA000), basic_byte(0));
    assert_eq!(hw.mem_get(0xBFFF), basic_byte(0x1FFF));
    assert_eq!(hw.mem_get(0xE000), kernal_byte(0));
    assert_eq!(hw.mem_get(0xFFFF), kernal_byte(0x1FFF));
    assert_eq!(hw.mem_get(0xD011), 0x1B);
    assert_eq!(hw.mem_get(0xD016), 0xC8);
    assert_eq!(hw.mem_get(0xD020), 0);
    assert_eq!(hw.interrupt_line(), 0);
    assert_eq!(hw.ram().len(), 0x10000);
    assert_eq!(hw.color_ram().len(), 0x400);
    assert_eq!(hw.video_registers().len(), 0x40);
}

#[test]
fn plain_ram_reads_the_last_write() {
    let mut hw = computer();
    for addr in [0x0002u16, 0x0100, 0x01FF, 0x8000, 0x9FFF, 0xC000, 0xCFFF] {
        hw.mem_set(addr, 0xAA);
        assert_eq!(hw.mem_get(addr), 0xAA);
        hw.mem_set(addr.wrapping_add(1), 0x55);
        hw.mem_set(1, 0x00);
        hw.mem_set(0xD020, 0x03);
        assert_eq!(hw.mem_get(addr), 0xAA);
        hw.mem_set(addr, 0x11);
        assert_eq!(hw.mem_get(addr), 0x11);
        hw.mem_set(1, 0x37);
    }
}

#[test]
fn basic_rom_shows_where_both_low_bits_are_set() {
    for value in 0..=255u8 {
        let mut hw = computer();
        hw.mem_set(0, 0xFF);
        hw.mem_set(1, 0x00);
        hw.mem_set(0xA000, 0x77);
        hw.mem_set(1, value);
        let expected = if value & 0b011 == 0b011 { basic_byte(0) } else { 0x77 };
        assert_eq!(hw.mem_get(0xA000), expected);
    }
}

#[test]
fn write_under_rom_reaches_ram() {
    for value in [0x37u8, 0x36, 0x35, 0x33, 0x30] {
        let mut hw = computer();
        hw.mem_set(1, value);
        hw.mem_set(0xA000, 0x5A);
        hw.mem_set(0xE123, 0x6B);
        hw.mem_set(1, 0x34);
        assert_eq!(hw.mem_get(0xA000), 0x5A);
        assert_eq!(hw.mem_get(0xE123), 0x6B);
    }
    let mut hw = computer();
    hw.mem_set(0xA000, 0x5A);
    assert_eq!(hw.mem_get(0xA000), basic_byte(0));
    assert_eq!(hw.ram()[0xA000], 0x5A);
}

#[test]
fn kernal_rom_shows_where_bit_one_is_set() {
    let mut hw = computer();
    hw.mem_set(0xFFFC, 0x12);
    hw.mem_set(1, 0x36);
    assert_eq!(hw.mem_get(0xFFFC), kernal_byte(0x1FFC));
    assert_eq!(hw.mem_get(0xA000), 0);
    hw.mem_set(1, 0x35);
    assert_eq!(hw.mem_get(0xFFFC), 0x12);
}

#[test]
fn character_rom_shows_where_bit_two_is_clear() {
    let mut hw = computer();
    hw.mem_set(1, 0x33);
    assert_eq!(hw.mem_get(0xD000), chargen_byte(0));
    assert_eq!(hw.mem_get(0xDFFF), chargen_byte(0xFFF));
    hw.mem_set(0xD000, 0x99);
    assert_eq!(hw.mem_get(0xD000), chargen_byte(0));
    hw.mem_set(1, 0x30);
    assert_eq!(hw.mem_get(0xD000), 0x99);
    hw.mem_set(0xD001, 0x98);
    assert_eq!(hw.mem_get(0xD001), 0x98);
    hw.mem_set(1, 0x37);
    assert_eq!(hw.mem_get(0xD000), 0);
    assert_eq!(hw.ram()[0xD000], 0x99);
}

#[test]
fn video_registers_are_mirrored() {
    let mut hw = computer();
    hw.mem_set(0xD020, 0x0E);
    assert_eq!(hw.mem_get(0xD020), 0x0E);
    assert_eq!(hw.mem_get(0xD060), 0x0E);
    assert_eq!(hw.mem_get(0xD3E0), 0x0E);
    hw.mem_set(0xD3E1, 0x06);
    assert_eq!(hw.mem_get(0xD021), 0x06);
    hw.mem_set(0xD03F, 0x44);
    assert_eq!(hw.mem_get(0xD03F), 0x44);
    assert_eq!(hw.ram()[0xD020], 0);
}

#[test]
fn video_control_and_raster_registers() {
    let mut hw = computer();
    hw.video_write(0x11, 0x9B);
    assert_eq!(hw.video_read(0x11), 0x1B);
    assert_eq!(hw.interrupt_line(), 0x100);
    hw.video_write(0x12, 0x34);
    assert_eq!(hw.interrupt_line(), 0x134);
    assert_eq!(hw.video_read(0x12), 0);
    hw.video_write(0x11, 0x7F);
    assert_eq!(hw.video_read(0x11), 0x7F);
    assert_eq!(hw.interrupt_line(), 0x034);
    hw.video_write(0x12, 0xFF);
    assert_eq!(hw.interrupt_line(), 0x0FF);
}

#[test]
fn video_interrupt_and_collision_registers_take_nothing() {
    let mut hw = computer();
    for addr in [0x19u16, 0x1E, 0x1F] {
        hw.video_write(addr, 0xFF);
        assert_eq!(hw.video_read(addr), 0);
    }
    hw.video_write(0x1A, 0x0F);
    assert_eq!(hw.video_read(0x1A), 0x0F);
}

#[test]
fn video_init_resets_the_registers() {
    let mut hw = computer();
    hw.video_write(0x20, 0x05);
    hw.video_write(0x11, 0x00);
    hw.video_init();
    assert_eq!(hw.video_read(0x20), 0);
    assert_eq!(hw.video_read(0x11), 0x1B);
    assert_eq!(hw.video_read(0x16), 0xC8);
}

#[test]
fn sound_registers() {
    let mut hw = computer();
    hw.mem_set(0xD400, 0x12);
    assert_eq!(hw.mem_get(0xD400), 0);
    hw.mem_set(0xD418, 0x0F);
    assert_eq!(hw.mem_get(0xD418), 0);
    hw.mem_set(0xD419, 0x77);
    assert_eq!(hw.mem_get(0xD419), 0);
    hw.sid_write(0x18, 0x0F);
    assert_eq!(hw.sid_read(0x18), 0);
    assert_eq!(hw.sid_read(0x1F), 0);
    assert_eq!(hw.mem_get(0xD43F), 0);
}

#[test]
fn color_ram_keeps_four_bits() {
    let mut hw = computer();
    hw.mem_set(0xD800, 0xFE);
    assert_eq!(hw.mem_get(0xD800), 0x0E);
    assert_eq!(hw.color_ram()[0], 0x0E);
    hw.mem_set(0xDBE7, 0x3C);
    assert_eq!(hw.mem_get(0xDBE7), 0x0C);
    assert_eq!(hw.color_ram()[999], 0x0C);
    hw.mem_set(0xDBE8, 0xAB);
    assert_eq!(hw.mem_get(0xDBE8), 0x0B);
    assert_eq!(hw.ram()[0xDBE8], 0x0B);
    hw.mem_set(0xDBFF, 0xF1);
    assert_eq!(hw.mem_get(0xDBFF), 0x01);
    assert_eq!(hw.ram()[0xD800], 0);
}

#[test]
fn interface_chip_ports_are_masked() {
    let mut hw = computer();
    hw.mem_set(0xDC00, 0xFF);
    assert_eq!(hw.mem_get(0xDC00), 0x00);
    hw.mem_set(0xDC02, 0x0F);
    hw.mem_set(0xDC00, 0xFF);
    assert_eq!(hw.mem_get(0xDC00), 0x0F);
    hw.mem_set(0xDC03, 0xF0);
    hw.mem_set(0xDC01, 0xAA);
    assert_eq!(hw.mem_get(0xDC01), 0xA0);
    assert_eq!(hw.mem_get(0xDD00), 0x00);
    hw.mem_set(0xDD02, 0x03);
    hw.mem_set(0xDD10, 0xFE);
    assert_eq!(hw.mem_get(0xDD00), 0x02);
    assert_eq!(hw.cia_read(1, 0), 0x02);
    assert_eq!(hw.cia_read(0, 0), 0x0F);
}

#[test]
fn time_of_day_or_alarm() {
    let mut hw = computer();
    hw.cia_write(0, 0x08, 0x11);
    hw.cia_write(0, 0x0B, 0x12);
    assert_eq!(hw.cia_read(0, 0x08), 0x11);
    assert_eq!(hw.cia_read(0, 0x0B), 0x12);
    hw.cia_write(0, 0x0F, 0x80);
    hw.cia_write(0, 0x08, 0x55);
    hw.cia_write(0, 0x09, 0x56);
    hw.cia_write(0, 0x0A, 0x57);
    hw.cia_write(0, 0x0B, 0x58);
    assert_eq!(hw.cia_read(0, 0x08), 0x11);
    assert_eq!(hw.cia_read(0, 0x09), 0x00);
    assert_eq!(hw.cia_read(0, 0x0B), 0x12);
    hw.cia_write(0, 0x0F, 0x7F);
    hw.cia_write(0, 0x08, 0x99);
    assert_eq!(hw.cia_read(0, 0x08), 0x99);
    assert_eq!(hw.cia_read(1, 0x08), 0x00);
    hw.cia_write(1, 0x04, 0xEE);
    assert_eq!(hw.cia_read(1, 0x04), 0xEE);
    assert_eq!(hw.cia_read(0, 0x04), 0x00);
}

#[test]
fn expansion_pages_read_zero() {
    let mut hw = computer();
    hw.mem_set(0xDE00, 0x12);
    hw.mem_set(0xDFFF, 0x34);
    assert_eq!(hw.mem_get(0xDE00), 0);
    assert_eq!(hw.mem_get(0xDFFF), 0);
    assert_eq!(hw.ram()[0xDE00], 0);
    assert_eq!(hw.expansion_read(0, 0x10), 0);
    hw.expansion_write(1, 0x10, 0xFF);
    assert_eq!(hw.expansion_read(1, 0x10), 0);
}

#[test]
fn io_window_directly() {
    let mut hw = computer();
    hw.io_write(0xD021, 0x0B);
    assert_eq!(hw.io_read(0xD021), 0x0B);
    hw.io_write(0xD900, 0xFF);
    assert_eq!(hw.io_read(0xD900), 0x0F);
}

#[test]
fn address_conversions() {
    assert_eq!(video_addr_conv(0xD000), 0);
    assert_eq!(video_addr_conv(0xD02E), 0x2E);
    assert_eq!(video_addr_conv(0xD3E0), 0x20);
    assert_eq!(cia_addr_conv(1, 0xDC00), 0);
    assert_eq!(cia_addr_conv(1, 0xDC1F), 0x0F);
    assert_eq!(cia_addr_conv(2, 0xDD00), 0);
    assert_eq!(cia_addr_conv(2, 0xDD3D), 0x0D);
}

#[test]
fn stack_round_trip_on_the_computer() {
    let mut hw = computer();
    let mut cpu = Cpu::new(0x0800);
    for v in [0x00u8, 0x5A, 0xFF] {
        let s = cpu.reg.s;
        assert_eq!(push(&mut cpu, &mut hw, v), Ok(()));
        assert_eq!(pull(&mut cpu, &hw), Ok(v));
        assert_eq!(cpu.reg.s, s);
    }
}

#[test]
fn program_on_the_computer() {
    let mut hw = computer();
    let program = [0xA9u8, 0x05, 0x85, 0x00, 0xA6, 0x00, 0xE8];
    for (i, byte) in program.iter().enumerate() {
        hw.set(0x0800 + i as u16, *byte);
    }
    let mut cpu = Cpu::new(0x0800);
    for _ in 0..4 {
        assert_eq!(interp_one_instruction(&mut cpu, &mut hw), Ok(()));
    }
    assert_eq!(cpu.reg.a, 5);
    assert_eq!(cpu.reg.x, 6);
    assert_eq!(hw.get(0), 5);
    assert_eq!(cpu.reg.p & 0x82, 0);
}

#[test]
fn program_switches_the_banks() {
    let mut hw = computer();
    // LDA #$34; STA $01; LDA $A000
    let program = [0xA9u8, 0x34, 0x85, 0x01, 0xAD, 0x00, 0xA0];
    for (i, byte) in program.iter().enumerate() {
        hw.set(0x0800 + i as u16, *byte);
    }
    hw.set(0xA000, 0x42);
    assert_eq!(hw.get(0xA000), basic_byte(0));
    let mut cpu = Cpu::new(0x0800);
    for _ in 0..3 {
        assert_eq!(interp_one_instruction(&mut cpu, &mut hw), Ok(()));
    }
    assert_eq!(hw.get(1), 0x24);
    assert_eq!(cpu.reg.a, 0x42);
}

#[test]
fn reset_vector_comes_from_the_kernal() {
    let hw = computer();
    let lo = hw.get(0xFFFC);
    let hi = hw.get(0xFFFD);
    assert_eq!(lo, kernal_byte(0x1FFC));
    assert_eq!(hi, kernal_byte(0x1FFD));
    assert_eq!(rust6502::cpu::deref(&hw, 0xFFFC), (hi as u16) << 8 | lo as u16);
}

#[test]
fn video_setup_after_power_on() {
    let hw = computer();
    let (setup, sprites) = render(&hw);
    assert_eq!(setup.bank_base_addr, 0xC000);
    assert!(!setup.bitmap_mode);
    assert!(!setup.extbg_mode);
    assert!(!setup.multicolor_mode);
    assert_eq!(setup.video_base_addr, 0xC000);
    assert!(!setup.use_chargen);
    assert_eq!(setup.screen_mem_addr, 0xC000);
    assert_eq!(setup.border_color, 0);
    assert_eq!(setup.bg_color, 0);
    assert!(sprites.is_empty());
}

#[test]
fn video_setup_in_text_mode() {
    let mut hw = computer();
    hw.mem_set(0xDD02, 0x03);
    hw.mem_set(0xDD00, 0x02);
    hw.mem_set(0xD018, 0x14);
    hw.mem_set(0xD020, 0x0E);
    hw.mem_set(0xD021, 0x06);
    hw.mem_set(0xD025, 0x01);
    hw.mem_set(0xD026, 0x02);
    let (setup, _) = render(&hw);
    assert_eq!(setup.bank_base_addr, 0x4000);
    assert_eq!(setup.video_base_addr, 0x4000 + 2 * 0x800);
    assert!(setup.use_chargen);
    assert_eq!(setup.screen_mem_addr, 0x4000 + 0x400);
    assert_eq!(setup.border_color, 0x0E);
    assert_eq!(setup.bg_color, 0x06);
    assert_eq!(setup.sprite_extra_color_1, 0x01);
    assert_eq!(setup.sprite_extra_color_2, 0x02);

    hw.mem_set(0xDD00, 0x03);
    let (setup, _) = render(&hw);
    assert_eq!(setup.bank_base_addr, 0x0000);
    assert!(!setup.use_chargen);
    assert_eq!(setup.video_base_addr, 0x1000);
    assert_eq!(setup.screen_mem_addr, 0x0400);
}

#[test]
fn video_setup_in_bitmap_mode() {
    let mut hw = computer();
    hw.mem_set(0xDD02, 0x03);
    hw.mem_set(0xDD00, 0x01);
    hw.mem_set(0xD011, 0x7B);
    hw.mem_set(0xD016, 0xD8);
    hw.mem_set(0xD018, 0xF8);
    let (setup, _) = render(&hw);
    assert_eq!(setup.bank_base_addr, 0x8000);
    assert!(setup.bitmap_mode);
    assert!(setup.extbg_mode);
    assert!(setup.multicolor_mode);
    assert_eq!(setup.video_base_addr, 0x8000 + 0x2000);
    assert!(!setup.use_chargen);
    assert_eq!(setup.screen_mem_addr, 0x8000 + 15 * 0x400);
}

#[test]
fn sprites_that_are_switched_on() {
    let mut hw = computer();
    hw.mem_set(0xD015, 0b1000_0101);
    hw.mem_set(0xD010, 0b1000_0001);
    hw.mem_set(0xD017, 0b0000_0100);
    hw.mem_set(0xD000, 0x10);
    hw.mem_set(0xD001, 0x20);
    hw.mem_set(0xD004, 0x30);
    hw.mem_set(0xD005, 0x40);
    hw.mem_set(0xD00E, 0x50);
    hw.mem_set(0xD00F, 0x60);
    hw.mem_set(0xD027, 0x01);
    hw.mem_set(0xD029, 0x02);
    hw.mem_set(0xD02E, 0x03);
    let (_, sprites) = render(&hw);
    assert_eq!(
        sprites,
        vec![
            Sprite { number: 0, x: 0x110, y: 0x20, color: 0x01, double_height: false },
            Sprite { number: 2, x: 0x030, y: 0x40, color: 0x02, double_height: true },
            Sprite { number: 7, x: 0x150, y: 0x60, color: 0x03, double_height: false },
        ]
    );
}

#[test]
fn display_starts_black_and_takes_pixels() {
    let mut display = Display::new();
    let black = Pixel { r: 0, g: 0, b: 0 };
    let red = Pixel { r: 255, g: 0, b: 0 };
    assert_eq!(display.pixel(0, 0), black);
    assert_eq!(display.pixel(DISPLAY_W - 1, DISPLAY_H - 1), black);
    display.set_pixel(3, 2, red);
    assert_eq!(display.pixel(3, 2), red);
    assert_eq!(display.pixel(2, 3), black);
    assert_eq!(display.pixel(4, 2), black);
}
