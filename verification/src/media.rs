//! The picture that the emulator shows, and what can show it.

use vstd::prelude::*;

verus! {

/// The width of the display in pixels.
pub const DISPLAY_W: usize = 400;

/// The height of the display in pixels.
pub const DISPLAY_H: usize = 200;

/// The number of pixels of the display.
pub const DISPLAY_PIXELS: usize = 80000;

/// A colour.
#[derive(Clone, Copy, PartialEq, Eq, Structural, Debug)]
pub struct Pixel {
    pub r: u8,
    pub g: u8,
    pub b: u8,
}

/// A picture of `DISPLAY_W` by `DISPLAY_H` pixels, row by row.
pub struct Display {
    pixels: Vec<Pixel>,
}

impl View for Display {
    type V = Seq<Pixel>;

    closed spec fn view(&self) -> Seq<Pixel> {
        self.pixels@
    }
}

/// The place of the pixel in column `x` of row `y`.
pub open spec fn pixel_index(x: usize, y: usize) -> int {
    y * DISPLAY_W + x
}

impl Display {
    /// Whether the display has all its pixels.
    pub open spec fn complete(&self) -> bool {
        self@.len() == DISPLAY_PIXELS
    }

    /// A black picture.
    pub fn new() -> (display: Display)
        ensures
            display.complete(),
            display@ == Seq::new(DISPLAY_PIXELS as nat, |i: int| Pixel { r: 0, g: 0, b: 0 }),
    {
        let mut pixels: Vec<Pixel> = Vec::with_capacity(DISPLAY_PIXELS);
        let mut i: usize = 0;
        while i < DISPLAY_PIXELS
            invariant
                i <= DISPLAY_PIXELS,
                pixels@ == Seq::new(i as nat, |j: int| Pixel { r: 0, g: 0, b: 0 }),
            decreases DISPLAY_PIXELS - i,
        {
            pixels.push(Pixel { r: 0, g: 0, b: 0 });
            i += 1;
            assert(pixels@ =~= Seq::new(i as nat, |j: int| Pixel { r: 0, g: 0, b: 0 }));
        }
        Display { pixels }
    }

    /// The pixel in column `x` of row `y`.
    pub fn pixel(&self, x: usize, y: usize) -> (p: Pixel)
        requires
            self.complete(),
            x < DISPLAY_W,
            y < DISPLAY_H,
        ensures
            p == self@[pixel_index(x, y)],
    {
        assert(y * DISPLAY_W + x < DISPLAY_PIXELS) by (nonlinear_arith)
            requires
                x < DISPLAY_W,
                y < DISPLAY_H,
                DISPLAY_W == 400,
                DISPLAY_H == 200,
                DISPLAY_PIXELS == 80000,
        ;
        self.pixels[y * DISPLAY_W + x]
    }

    /// Paints the pixel in column `x` of row `y`.
    pub fn set_pixel(&mut self, x: usize, y: usize, p: Pixel)
        requires
            old(self).complete(),
            x < DISPLAY_W,
            y < DISPLAY_H,
        ensures
            final(self).complete(),
            final(self)@ == old(self)@.update(pixel_index(x, y), p),
    {
        assert(y * DISPLAY_W + x < DISPLAY_PIXELS) by (nonlinear_arith)
            requires
                x < DISPLAY_W,
                y < DISPLAY_H,
                DISPLAY_W == 400,
                DISPLAY_H == 200,
                DISPLAY_PIXELS == 80000,
        ;
        self.pixels.set(y * DISPLAY_W + x, p);
    }
}

/// Something that can show the picture.
pub trait Media {
    /// Shows the picture.
    fn draw(&self);
}

} // verus!
