//! Fixed-size bitmap fonts and glyph rasterization.
//!
//! A font holds one 8-pixel-wide bitmap row per glyph line: glyph `g` of a
//! font of height `h` occupies bytes `g*h` to `g*h + h - 1`, most significant
//! bit leftmost. Rasterizing a glyph turns those rows into an on/off pixel
//! grid, which the window glue draws into a texture once per glyph and
//! colour.

use vstd::prelude::*;

verus! {

/// Glyphs in a font.
pub const GLYPH_COUNT: usize = 256;

/// Pixel width of every glyph.
pub const GLYPH_WIDTH: usize = 8;

/// A bitmap font.
pub struct Font {
    /// A human-readable name for the font.
    pub name: &'static str,
    /// Pixel height of every glyph: 8 or 16.
    pub height: usize,
    /// One byte per glyph row, glyph by glyph.
    pub data: Vec<u8>,
}

/// Powers of two up to one byte's width, for picking a bit out of a row.
pub open spec fn pow2(n: int) -> int {
    if n <= 0 {
        1
    } else if n == 1 {
        2
    } else if n == 2 {
        4
    } else if n == 3 {
        8
    } else if n == 4 {
        16
    } else if n == 5 {
        32
    } else if n == 6 {
        64
    } else if n == 7 {
        128
    } else {
        256
    }
}

/// [`pow2`] as an executable lookup.
pub fn pow2_at(n: usize) -> (r: u16)
    requires
        n <= 8,
    ensures
        r == pow2(n as int),
{
    if n == 0 {
        1
    } else if n == 1 {
        2
    } else if n == 2 {
        4
    } else if n == 3 {
        8
    } else if n == 4 {
        16
    } else if n == 5 {
        32
    } else if n == 6 {
        64
    } else if n == 7 {
        128
    } else {
        256
    }
}

impl Font {
    /// A font is sound when its height is one of the two built-in glyph
    /// heights and it holds one row byte per glyph line.
    pub open spec fn wf(self) -> bool {
        &&& (self.height == 8 || self.height == 16)
        &&& self.data@.len() == GLYPH_COUNT * self.height
    }

    /// Build a font, refusing data that does not cover every glyph row of
    /// one of the two built-in heights.
    pub fn new(name: &'static str, height: usize, data: Vec<u8>) -> (r: Option<Font>)
        ensures
            match r {
                Some(font) => {
                    &&& font.wf()
                    &&& font.height == height
                    &&& font.data@ == data@
                },
                None => !(height == 8 || height == 16) || data@.len() != GLYPH_COUNT * height,
            },
    {
        if (height == 8 || height == 16) && data.len() == GLYPH_COUNT * height {
            Some(Font { name, height, data })
        } else {
            None
        }
    }

    /// The bitmap row of line `y` of glyph `glyph`.
    pub open spec fn spec_row(self, glyph: int, y: int) -> u8 {
        self.data@[glyph * self.height + y]
    }

    /// Whether the pixel at column `x` of line `y` of glyph `glyph` is set:
    /// bit `7 - x` of the row byte, leftmost pixel in the top bit.
    pub open spec fn spec_pixel_on(self, glyph: int, x: int, y: int) -> bool {
        (self.spec_row(glyph, y) as int / pow2(7 - x)) % 2 == 1
    }

    /// Rasterize one glyph into a row-major on/off grid: entry `y * 8 + x`
    /// says whether the pixel at column `x` of line `y` is set.
    #[verifier::loop_isolation(false)]
    pub fn glyph_bitmap(&self, glyph: u8) -> (r: Vec<bool>)
        requires
            self.wf(),
        ensures
            r@.len() == GLYPH_WIDTH * self.height,
            forall|x: int, y: int|
                0 <= x < GLYPH_WIDTH && 0 <= y < self.height
                    ==> #[trigger] r@[y * GLYPH_WIDTH + x] == self.spec_pixel_on(
                    glyph as int,
                    x,
                    y,
                ),
    {
        let mut grid: Vec<bool> = Vec::new();
        let mut y: usize = 0;
        while y < self.height
            invariant
                y <= self.height,
                grid@.len() == y * GLYPH_WIDTH,
                forall|px: int, py: int|
                    0 <= px < GLYPH_WIDTH && 0 <= py < y
                        ==> #[trigger] grid@[py * GLYPH_WIDTH + px] == self.spec_pixel_on(
                        glyph as int,
                        px,
                        py,
                    ),
            decreases self.height - y,
        {
            proof {
                assert((glyph as int) * self.height <= 255 * 16 && (glyph as int) * self.height + y
                    < 256 * self.height) by (nonlinear_arith)
                    requires
                        glyph < 256,
                        0 <= y < self.height,
                        self.height <= 16,
                ;
            }
            let row = self.data[(glyph as usize) * self.height + y];
            let mut x: usize = 0;
            while x < GLYPH_WIDTH
                invariant
                    x <= GLYPH_WIDTH,
                    grid@.len() == y * GLYPH_WIDTH + x,
                    forall|px: int, py: int|
                        0 <= px < GLYPH_WIDTH && 0 <= py < y
                            ==> #[trigger] grid@[py * GLYPH_WIDTH + px] == self.spec_pixel_on(
                            glyph as int,
                            px,
                            py,
                        ),
                    forall|px: int|
                        0 <= px < x ==> #[trigger] grid@[y * GLYPH_WIDTH + px]
                            == self.spec_pixel_on(glyph as int, px, y as int),
                decreases GLYPH_WIDTH - x,
            {
                let divisor = pow2_at(7 - x);
                let on = ((row as u16) / divisor) % 2 == 1;
                grid.push(on);
                x += 1;
            }
            y += 1;
        }
        grid
    }
}

} // verus!
