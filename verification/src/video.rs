//! What the video chip is set up to show: where in memory it finds the
//! characters or the bitmap and the screen, in which mode, and which
//! sprites.

use vstd::prelude::*;
use crate::c64::{wf, HardwareC64, HardwareState};

verus! {

/// The memory and the mode that the video chip works with.
#[derive(Clone, Copy, PartialEq, Eq, Structural, Debug)]
pub struct VideoSetup {
    /// The start of the 16 KiB bank that the video chip sees.
    pub bank_base_addr: u16,
    pub bitmap_mode: bool,
    pub extbg_mode: bool,
    pub multicolor_mode: bool,
    /// The start of the character memory, or of the bitmap in bitmap mode.
    pub video_base_addr: u16,
    /// Whether the characters come from the character ROM.
    pub use_chargen: bool,
    /// The start of the screen memory.
    pub screen_mem_addr: u16,
    pub border_color: u8,
    pub bg_color: u8,
    pub sprite_extra_color_1: u8,
    pub sprite_extra_color_2: u8,
}

/// A sprite that is switched on.
#[derive(Clone, Copy, PartialEq, Eq, Structural, Debug)]
pub struct Sprite {
    /// Its number, 0 to 7.
    pub number: u8,
    /// Its column, nine bits.
    pub x: u16,
    /// Its row.
    pub y: u8,
    pub color: u8,
    pub double_height: bool,
}

/// Whether bit `i` of `byte` is set.
pub open spec fn bit(byte: u8, i: u8) -> bool {
    (byte >> i) & 1 == 1
}

/// The setup that the registers of the video chip and port A of the
/// second interface chip give.
pub open spec fn setup_of(s: HardwareState) -> VideoSetup {
    let reg = s.vic2_reg;
    let bank_bits = s.cia_reg[1][0] % 4;
    let bank_base = (3 - bank_bits) * 0x4000;
    let bitmap_mode = bit(reg[0x11], 5);
    let mem_setup = reg[0x18];
    let text_bits = (mem_setup / 2) % 8;
    VideoSetup {
        bank_base_addr: bank_base as u16,
        bitmap_mode,
        extbg_mode: bit(reg[0x11], 6),
        multicolor_mode: bit(reg[0x16], 4),
        video_base_addr: (if bitmap_mode {
            bank_base + ((mem_setup / 8) % 2) * 0x2000
        } else {
            bank_base + text_bits * 0x800
        }) as u16,
        use_chargen: !bitmap_mode && (bank_bits == 0 || bank_bits == 2) && (text_bits == 2 || text_bits
            == 3),
        screen_mem_addr: (bank_base + (mem_setup / 16) * 0x400) as u16,
        border_color: reg[0x20],
        bg_color: reg[0x21],
        sprite_extra_color_1: reg[0x25],
        sprite_extra_color_2: reg[0x26],
    }
}

/// Sprite `i` as the video registers describe it.
pub open spec fn sprite_of(reg: Seq<u8>, i: u8) -> Sprite {
    Sprite {
        number: i,
        x: (reg[2 * i] + if bit(reg[0x10], i) { 256int } else { 0 }) as u16,
        y: reg[2 * i + 1],
        color: reg[0x27 + i],
        double_height: bit(reg[0x17], i),
    }
}

/// The sprites below number `n` that are switched on, in the order of their
/// numbers.
pub open spec fn sprites_below(reg: Seq<u8>, n: u8) -> Seq<Sprite>
    decreases n,
{
    if n == 0 {
        Seq::empty()
    } else {
        let i = (n - 1) as u8;
        if bit(reg[0x15], i) {
            sprites_below(reg, i).push(sprite_of(reg, i))
        } else {
            sprites_below(reg, i)
        }
    }
}

/// Works out what the video chip is set up to show, and which sprites are
/// switched on.
pub fn render(hw: &HardwareC64) -> (r: (VideoSetup, Vec<Sprite>))
    requires
        wf(hw@),
    ensures
        r.0 == setup_of(hw@),
        r.1@ == sprites_below(hw@.vic2_reg, 8),
{
    let reg = hw.video_registers();
    let bank_bits = hw.cia_read(1, 0) % 4;
    let bank_base_addr: u16 = if bank_bits == 0 {
        0xC000
    } else if bank_bits == 1 {
        0x8000
    } else if bank_bits == 2 {
        0x4000
    } else {
        0x0000
    };
    let bitmap_mode = (reg[0x11] >> 5) & 1 == 1;
    let extbg_mode = (reg[0x11] >> 6) & 1 == 1;
    let multicolor_mode = (reg[0x16] >> 4) & 1 == 1;
    let mem_setup_reg = reg[0x18];
    let text_mode_bits = (mem_setup_reg / 2) % 8;
    let video_rel_addr: u16 = if !bitmap_mode {
        (text_mode_bits as u16) * 0x800
    } else {
        (((mem_setup_reg / 8) % 2) as u16) * 0x2000
    };
    let use_chargen = !bitmap_mode && (bank_bits == 0 || bank_bits == 2) && (text_mode_bits == 2
        || text_mode_bits == 3);
    let screen_mem_rel_addr = ((mem_setup_reg / 16) as u16) * 0x0400;
    let setup = VideoSetup {
        bank_base_addr,
        bitmap_mode,
        extbg_mode,
        multicolor_mode,
        video_base_addr: bank_base_addr + video_rel_addr,
        use_chargen,
        screen_mem_addr: bank_base_addr + screen_mem_rel_addr,
        border_color: reg[0x20],
        bg_color: reg[0x21],
        sprite_extra_color_1: reg[0x25],
        sprite_extra_color_2: reg[0x26],
    };
    let sprite_enabled_reg = reg[0x15];
    let sprite_dbl_hght_reg = reg[0x17];
    let sprite_x_coord_bit8_reg = reg[0x10];
    let mut sprites: Vec<Sprite> = Vec::new();
    let mut i: u8 = 0;
    while i < 8
        invariant
            i <= 8,
            reg@ == hw@.vic2_reg,
            reg@.len() == 0x40,
            sprite_enabled_reg == reg@[0x15],
            sprite_dbl_hght_reg == reg@[0x17],
            sprite_x_coord_bit8_reg == reg@[0x10],
            sprites@ == sprites_below(reg@, i),
        decreases 8 - i,
    {
        if (sprite_enabled_reg >> i) & 1 == 1 {
            let x_low = reg[2 * (i as usize)] as u16;
            let x = if (sprite_x_coord_bit8_reg >> i) & 1 == 1 {
                x_low + 256
            } else {
                x_low
            };
            sprites.push(
                Sprite {
                    number: i,
                    x,
                    y: reg[2 * (i as usize) + 1],
                    color: reg[0x27 + (i as usize)],
                    double_height: (sprite_dbl_hght_reg >> i) & 1 == 1,
                },
            );
        }
        i += 1;
    }
    (setup, sprites)
}

} // verus!
