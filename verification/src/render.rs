//! Per-frame translation of video memory into drawing commands.
//!
//! Each frame the render loop reads the current mode and turns the bytes of
//! the framebuffer into a flat list of drawing commands: for text modes, a
//! background rectangle and a glyph-texture blit per cell; for packed bitmap
//! modes, one coloured point per pixel. The window glue only executes the
//! list. The command list is a pure function of the mode, the framebuffer
//! bytes and the palette, stated exactly by the spec functions here.

use vstd::prelude::*;

use crate::colour::Attr;
use crate::font::pow2;
use crate::font::pow2_at;
use crate::framebuffer::FRAMEBUFFER_CAPACITY;
use crate::framebuffer::Framebuffer;
use crate::mode::Format;
use crate::mode::Mode;
use crate::mode::lemma_valid_modes_fit;
use crate::mode::spec_is_valid_mode;
use crate::palette::PALETTE_SIZE;
use crate::palette::Palette;

verus! {

/// The window is drawn at twice the mode's pixel size, so the picture stays
/// readable on a modern monitor.
pub const WINDOW_SCALE: u32 = 2;

/// Number of foreground colours a text attribute can select.
pub const TEXT_FG_COLOURS: usize = 16;

/// One drawing command for the window glue to execute, in list order.
#[derive(Clone, Copy, Debug, PartialEq, Eq, Structural)]
pub enum DrawCmd {
    /// Fill a rectangle with a packed RGB colour.
    FillRect { x: u16, y: u16, width: u16, height: u16, colour: u32 },
    /// Blit the cached glyph texture bound at `slot` onto a rectangle.
    GlyphTexture { x: u16, y: u16, width: u16, height: u16, slot: usize },
    /// Plot one pixel in a packed RGB colour.
    Point { x: u16, y: u16, colour: u32 },
}

/// The glyph height a text format draws with.
pub open spec fn spec_text_font_height(format: Format) -> int {
    match format {
        Format::Text8x8 => 8,
        _ => 16,
    }
}

/// The bits per pixel of a packed bitmap format.
pub open spec fn spec_format_bpp(format: Format) -> int {
    match format {
        Format::Chunky1 => 1,
        Format::Chunky2 => 2,
        Format::Chunky4 => 4,
        _ => 8,
    }
}

/// The background rectangle for one text cell: the cell's pixel box, filled
/// with the palette colour its attribute byte names as background.
pub open spec fn spec_text_cell_fill(
    fbc: Seq<u8>,
    pal: Seq<u32>,
    cols: int,
    fh: int,
    cell: int,
) -> DrawCmd {
    let attr = fbc[2 * cell + 1];
    DrawCmd::FillRect {
        x: ((cell % cols) * 8) as u16,
        y: ((cell / cols) * fh) as u16,
        width: 8u16,
        height: fh as u16,
        colour: pal[(attr as int / 16) % 8],
    }
}

/// The glyph blit for one text cell: the texture of the cell's glyph in its
/// attribute's foreground colour, at the cell's pixel box.
pub open spec fn spec_text_cell_blit(
    fbc: Seq<u8>,
    pal: Seq<u32>,
    cols: int,
    fh: int,
    cell: int,
) -> DrawCmd {
    let glyph = fbc[2 * cell];
    let attr = fbc[2 * cell + 1];
    DrawCmd::GlyphTexture {
        x: ((cell % cols) * 8) as u16,
        y: ((cell / cols) * fh) as u16,
        width: 8u16,
        height: fh as u16,
        slot: (glyph * TEXT_FG_COLOURS + attr % 16) as usize,
    }
}

/// Every command of a text-mode frame: cell by cell in reading order, each
/// cell contributing its background fill and then its glyph blit.
pub open spec fn spec_text_commands(
    fbc: Seq<u8>,
    pal: Seq<u32>,
    cols: int,
    rows: int,
    fh: int,
) -> Seq<DrawCmd> {
    Seq::new(
        (2 * rows * cols) as nat,
        |k: int|
            if k % 2 == 0 {
                spec_text_cell_fill(fbc, pal, cols, fh, k / 2)
            } else {
                spec_text_cell_blit(fbc, pal, cols, fh, k / 2)
            },
    )
}

/// The value of pixel `xi` within one packed byte: the `bpp` bits starting
/// `bpp * xi` bits below the top of the byte.
pub open spec fn spec_chunky_pixel(byte: u8, bpp: int, xi: int) -> int {
    (byte as int / pow2(8 - bpp * (xi + 1))) % pow2(bpp)
}

/// The colour a pixel value maps to: one of the first `num_colours` palette
/// slots, except that in the two-colour mode value 1 is forced to pure
/// white, so the mode stays legible whatever the palette holds.
pub open spec fn spec_chunky_colour(pal: Seq<u32>, num_colours: int, v: int) -> u32 {
    if num_colours == 2 && v == 1 {
        0xffffffu32
    } else {
        pal[v]
    }
}

/// Every command of a bitmap-mode frame: one point per pixel, line by line,
/// each byte of a line unpacked left to right.
pub open spec fn spec_chunky_commands(
    fbc: Seq<u8>,
    pal: Seq<u32>,
    ls: int,
    rows: int,
    bpp: int,
) -> Seq<DrawCmd> {
    let ppb: int = 8int / bpp;
    Seq::new(
        (rows * ls * ppb) as nat,
        |k: int|
            {
                let xi = k % ppb;
                let byte_index = k / ppb;
                let xb = byte_index % ls;
                let y = byte_index / ls;
                let v = spec_chunky_pixel(fbc[byte_index], bpp, xi);
                DrawCmd::Point {
                    x: (xb * ppb + xi) as u16,
                    y: y as u16,
                    colour: spec_chunky_colour(pal, pow2(bpp), v),
                }
            },
    )
}

/// The first `count` palette colours as packed words, with the two-colour
/// special case applied.
#[verifier::loop_isolation(false)]
pub fn make_colours(palette: &Palette, count: usize) -> (r: Vec<u32>)
    requires
        palette.wf(),
        count <= PALETTE_SIZE,
    ensures
        r@.len() == count,
        forall|i: int|
            0 <= i < count ==> #[trigger] r@[i] == spec_chunky_colour(
                palette.spec_slots(),
                count as int,
                i,
            ),
{
    let mut result: Vec<u32> = Vec::new();
    let mut i: usize = 0;
    while i < count
        invariant
            i <= count,
            result@.len() == i,
            forall|j: int|
                0 <= j < i ==> #[trigger] result@[j] == palette.spec_slots()[j],
        decreases count - i,
    {
        let packed = match palette.get(i) {
            Some(c) => c.as_packed(),
            None => 0,
        };
        result.push(packed);
        i += 1;
    }
    if count == 2 {
        result.set(1, 0xffffff);
    }
    result
}

/// How flattened loop indexes decompose back into their coordinates.
proof fn lemma_flat_index(outer: int, inner: int, width: int)
    by (nonlinear_arith)
    requires
        0 <= inner < width,
        0 <= outer,
    ensures
        (outer * width + inner) / width == outer,
        (outer * width + inner) % width == inner,
{
}

/// Translate a text-mode frame: for each cell in reading order, a
/// background fill then a glyph blit, exactly as [`spec_text_commands`]
/// lists them.
#[verifier::loop_isolation(false)]
pub fn render_text(fb: &Framebuffer, palette: &Palette, mode: Mode) -> (r: Vec<DrawCmd>)
    requires
        fb.wf(),
        fb.spec_targets_internal(),
        palette.wf(),
        spec_is_valid_mode(mode.spec_code()),
        mode.spec_format() is Text8x16 || mode.spec_format() is Text8x8,
    ensures
        r@ == spec_text_commands(
            fb.spec_contents(),
            palette.spec_slots(),
            mode.spec_text_width()->Some_0 as int,
            mode.spec_text_height()->Some_0 as int,
            spec_text_font_height(mode.spec_format()),
        ),
{
    let fh: usize = match mode.format() {
        Format::Text8x8 => 8,
        _ => 16,
    };
    let cols: usize = match mode.text_width() {
        Some(w) => w as usize,
        None => 0,
    };
    let rows: usize = match mode.text_height() {
        Some(h) => h as usize,
        None => 0,
    };
    let ghost target = spec_text_commands(
        fb.spec_contents(),
        palette.spec_slots(),
        cols as int,
        rows as int,
        fh as int,
    );
    proof {
        lemma_valid_modes_fit(mode);
        assert((2 * cols) * rows == 2 * (rows * cols) && 2 * (rows * cols) == 2 * rows * cols)
            by (nonlinear_arith);
        assert(mode.spec_line_size_bytes() == 2 * cols);
        assert(mode.spec_line_count() == rows);
        assert(2 * rows * cols <= FRAMEBUFFER_CAPACITY);
    }
    let mut cmds: Vec<DrawCmd> = Vec::new();
    let mut row: usize = 0;
    while row < rows
        invariant
            row <= rows,
            cmds@.len() == 2 * (row * cols),
            forall|k: int| 0 <= k < cmds@.len() ==> cmds@[k] == target[k],
        decreases rows - row,
    {
        let mut col: usize = 0;
        while col < cols
            invariant
                row < rows,
                col <= cols,
                cmds@.len() == 2 * (row * cols + col),
                forall|k: int| 0 <= k < cmds@.len() ==> cmds@[k] == target[k],
            decreases cols - col,
        {
            proof {
                assert(row * cols + col < rows * cols && 0 <= row * cols) by (nonlinear_arith)
                    requires
                        row < rows,
                        col < cols,
                        0 <= row,
                        0 <= col,
                ;
                lemma_flat_index(row as int, col as int, cols as int);
            }
            let cell = row * cols + col;
            let offset = cell * 2;
            let glyph = fb.get_at(offset);
            let attr_byte = fb.get_at(offset + 1);
            let attr = Attr::from_u8(attr_byte);
            let bg_packed = match palette.get(attr.bg() as usize) {
                Some(c) => c.as_packed(),
                None => 0,
            };
            let x = (col * 8) as u16;
            let y = (row * fh) as u16;
            cmds.push(DrawCmd::FillRect { x, y, width: 8, height: fh as u16, colour: bg_packed });
            let slot = (glyph as usize) * TEXT_FG_COLOURS + (attr.fg() as usize);
            cmds.push(DrawCmd::GlyphTexture { x, y, width: 8, height: fh as u16, slot });
            proof {
                assert(cmds@[2 * cell] == spec_text_cell_fill(
                    fb.spec_contents(),
                    palette.spec_slots(),
                    cols as int,
                    fh as int,
                    cell as int,
                ));
                assert(cmds@[2 * cell + 1] == spec_text_cell_blit(
                    fb.spec_contents(),
                    palette.spec_slots(),
                    cols as int,
                    fh as int,
                    cell as int,
                ));
            }
            col += 1;
        }
        proof {
            assert((row + 1) * cols == row * cols + cols) by (nonlinear_arith);
        }
        row += 1;
    }
    cmds
}

/// The value of pixel `xi` within one packed byte.
fn pixel_from_byte(byte: u8, bpp: usize, xi: usize) -> (v: u8)
    requires
        bpp == 1 || bpp == 2 || bpp == 4 || bpp == 8,
        xi < 8int / bpp as int,
    ensures
        v == spec_chunky_pixel(byte, bpp as int, xi as int),
        v < pow2(bpp as int),
{
    proof {
        assert(bpp * (xi + 1) <= 8) by (nonlinear_arith)
            requires
                bpp == 1 || bpp == 2 || bpp == 4 || bpp == 8,
                xi + 1 <= 8int / bpp as int,
        ;
    }
    let shift = 8 - bpp * (xi + 1);
    let divisor = pow2_at(shift);
    let modulus = pow2_at(bpp);
    (((byte as u16) / divisor) % modulus) as u8
}

/// Translate a bitmap-mode frame: one coloured point per pixel, exactly as
/// [`spec_chunky_commands`] lists them.
#[verifier::loop_isolation(false)]
pub fn render_chunky(fb: &Framebuffer, palette: &Palette, mode: Mode) -> (r: Vec<DrawCmd>)
    requires
        fb.wf(),
        fb.spec_targets_internal(),
        palette.wf(),
        spec_is_valid_mode(mode.spec_code()),
        mode.spec_format() is Chunky1 || mode.spec_format() is Chunky2 || mode.spec_format()
            is Chunky4 || mode.spec_format() is Chunky8,
    ensures
        r@ == spec_chunky_commands(
            fb.spec_contents(),
            palette.spec_slots(),
            mode.spec_line_size_bytes(),
            mode.spec_vertical_lines() as int,
            spec_format_bpp(mode.spec_format()),
        ),
{
    let (bpp, num_colours): (usize, usize) = match mode.format() {
        Format::Chunky1 => (1, 2),
        Format::Chunky2 => (2, 4),
        Format::Chunky4 => (4, 16),
        _ => (8, 256),
    };
    let ppb: usize = 8 / bpp;
    let ls = mode.line_size_bytes();
    let rows = mode.vertical_lines() as usize;
    let colours = make_colours(palette, num_colours);
    let ghost target = spec_chunky_commands(
        fb.spec_contents(),
        palette.spec_slots(),
        ls as int,
        rows as int,
        bpp as int,
    );
    proof {
        lemma_valid_modes_fit(mode);
        assert(mode.spec_line_count() == rows);
        assert(rows * ls <= FRAMEBUFFER_CAPACITY) by {
            assert(ls * rows == rows * ls) by (nonlinear_arith);
        }
        assert(num_colours == pow2(bpp as int));
        assert(target.len() == rows * ls * ppb);
    }
    let mut cmds: Vec<DrawCmd> = Vec::new();
    let mut y: usize = 0;
    while y < rows
        invariant
            y <= rows,
            cmds@.len() == y * ls * ppb,
            forall|k: int| 0 <= k < cmds@.len() ==> cmds@[k] == target[k],
        decreases rows - y,
    {
        let mut xb: usize = 0;
        while xb < ls
            invariant
                y < rows,
                xb <= ls,
                cmds@.len() == (y * ls + xb) * ppb,
                forall|k: int| 0 <= k < cmds@.len() ==> cmds@[k] == target[k],
            decreases ls - xb,
        {
            proof {
                assert(y * ls + xb < rows * ls && 0 <= y * ls) by (nonlinear_arith)
                    requires
                        y < rows,
                        xb < ls,
                        0 <= y,
                        0 <= xb,
                ;
                lemma_flat_index(y as int, xb as int, ls as int);
            }
            let byte_index = y * ls + xb;
            let byte = fb.get_at(byte_index);
            let mut xi: usize = 0;
            while xi < ppb
                invariant
                    y < rows,
                    xb < ls,
                    xi <= ppb,
                    byte_index == y * ls + xb,
                    byte == fb.spec_contents()[byte_index as int],
                    cmds@.len() == (y * ls + xb) * ppb + xi,
                    forall|k: int| 0 <= k < cmds@.len() ==> cmds@[k] == target[k],
                decreases ppb - xi,
            {
                let v = pixel_from_byte(byte, bpp, xi);
                proof {
                    assert(xb * ppb + xi < ls * ppb && ls * ppb <= 640 * 8 && byte_index * ppb + xi
                        < rows * ls * ppb && 0 <= byte_index * ppb) by (nonlinear_arith)
                        requires
                            xb < ls,
                            xi < ppb,
                            byte_index == y * ls + xb,
                            y < rows,
                            byte_index < rows * ls,
                            0 <= y,
                            0 <= xb,
                            0 <= xi,
                            ls <= 640,
                            ppb <= 8,
                    ;
                    lemma_flat_index(byte_index as int, xi as int, ppb as int);
                }
                let x = xb * ppb + xi;
                let colour = colours[v as usize];
                cmds.push(DrawCmd::Point { x: x as u16, y: y as u16, colour });
                proof {
                    let k = byte_index * ppb + xi;
                    assert(cmds@[k as int] == target[k as int]);
                }
                xi += 1;
            }
            proof {
                assert((y * ls + xb + 1) * ppb == (y * ls + xb) * ppb + ppb) by (nonlinear_arith);
            }
            xb += 1;
        }
        proof {
            assert((y * ls + ls) * ppb == (y + 1) * ls * ppb) by (nonlinear_arith);
        }
        y += 1;
    }
    proof {
        assert(cmds@ =~= target);
    }
    cmds
}

/// What one frame does, given the state the render loop sees.
pub struct FramePlan {
    /// When the mode changed since the last frame, or a reset was pending:
    /// the new window size in window pixels, after which the surface is
    /// cleared. Absent otherwise.
    pub resize: Option<(u32, u32)>,
    /// The drawing commands for the frame, in order.
    pub commands: Vec<DrawCmd>,
}

/// Plan one frame: decide whether the window must be resized and translate
/// the framebuffer under the current mode into drawing commands.
pub fn plan_frame(
    fb: &Framebuffer,
    palette: &Palette,
    current_mode: Mode,
    last_mode: Mode,
    reset: bool,
) -> (r: FramePlan)
    requires
        fb.wf(),
        fb.spec_targets_internal(),
        palette.wf(),
        spec_is_valid_mode(current_mode.spec_code()),
    ensures
        r.resize is Some <==> (current_mode != last_mode || reset),
        r.resize is Some ==> r.resize->Some_0 == (
            (current_mode.spec_horizontal_pixels() * WINDOW_SCALE) as u32,
            (current_mode.spec_vertical_lines() * WINDOW_SCALE) as u32,
        ),
        match current_mode.spec_format() {
            Format::Text8x16 | Format::Text8x8 => r.commands@ == spec_text_commands(
                fb.spec_contents(),
                palette.spec_slots(),
                current_mode.spec_text_width()->Some_0 as int,
                current_mode.spec_text_height()->Some_0 as int,
                spec_text_font_height(current_mode.spec_format()),
            ),
            _ => r.commands@ == spec_chunky_commands(
                fb.spec_contents(),
                palette.spec_slots(),
                current_mode.spec_line_size_bytes(),
                current_mode.spec_vertical_lines() as int,
                spec_format_bpp(current_mode.spec_format()),
            ),
        },
{
    let resize: Option<(u32, u32)> = if current_mode != last_mode || reset {
        Some(
            (
                (current_mode.horizontal_pixels() as u32) * WINDOW_SCALE,
                (current_mode.vertical_lines() as u32) * WINDOW_SCALE,
            ),
        )
    } else {
        None
    };
    let commands = match current_mode.format() {
        Format::Text8x16 | Format::Text8x8 => render_text(fb, palette, current_mode),
        _ => render_chunky(fb, palette, current_mode),
    };
    FramePlan { resize, commands }
}

} // verus!
