//! The encoded video mode and the geometry derived from it.
//!
//! A mode is one byte: bits 0..=2 select the pixel format, bit 3 doubles the
//! pixel width, bits 4..=6 select the signal timing, and bit 7 doubles the
//! line height. Geometry (pixels, text grid, bytes per line) is a pure
//! function of the code, so the validity predicate and the render loop can
//! never disagree about how large a frame is.

use vstd::prelude::*;

verus! {

/// How the bytes of video memory are interpreted.
#[derive(Clone, Copy, Debug, PartialEq, Eq, Structural)]
pub enum Format {
    /// Glyph/attribute pairs drawn with an 8 by 16 pixel font.
    Text8x16,
    /// Glyph/attribute pairs drawn with an 8 by 8 pixel font.
    Text8x8,
    /// One pixel per 32-bit unit.
    Chunky32,
    /// One pixel per 16-bit unit.
    Chunky16,
    /// One pixel per byte, each a palette index.
    Chunky8,
    /// Two pixels per byte.
    Chunky4,
    /// Four pixels per byte.
    Chunky2,
    /// Eight pixels per byte.
    Chunky1,
}

/// The video signal timing, which fixes the nominal resolution.
#[derive(Clone, Copy, Debug, PartialEq, Eq, Structural)]
pub enum Timing {
    /// 640 by 480 visible pixels at 60 Hz.
    T640x480,
    /// 640 by 400 visible pixels at 70 Hz.
    T640x400,
    /// 800 by 600 visible pixels at 60 Hz.
    T800x600,
}

/// An encoded video mode.
///
/// Only codes whose timing bits decode to a known timing can be constructed,
/// so every `Mode` value answers geometry questions.
#[derive(Clone, Copy, Debug, PartialEq, Eq, Structural)]
pub struct Mode {
    code: u8,
}

impl Mode {
    /// The raw code this mode was made from.
    pub closed spec fn spec_code(self) -> u8 {
        self.code
    }

    /// A code is decodable when its timing bits name a known timing.
    pub open spec fn code_decodes(code: u8) -> bool {
        (code / 16) % 8 <= 2
    }

    /// Every constructed mode holds a decodable code.
    pub open spec fn wf(self) -> bool {
        Self::code_decodes(self.spec_code())
    }

    /// The format selected by bits 0..=2 of a code.
    pub open spec fn spec_format_of(code: u8) -> Format {
        let f = code % 8;
        if f == 0 {
            Format::Text8x16
        } else if f == 1 {
            Format::Text8x8
        } else if f == 2 {
            Format::Chunky32
        } else if f == 3 {
            Format::Chunky16
        } else if f == 4 {
            Format::Chunky8
        } else if f == 5 {
            Format::Chunky4
        } else if f == 6 {
            Format::Chunky2
        } else {
            Format::Chunky1
        }
    }

    pub open spec fn spec_format(self) -> Format {
        Self::spec_format_of(self.spec_code())
    }

    /// The timing selected by bits 4..=6 of a decodable code.
    pub open spec fn spec_timing(self) -> Timing {
        let t = (self.spec_code() / 16) % 8;
        if t == 0 {
            Timing::T640x480
        } else if t == 1 {
            Timing::T640x400
        } else {
            Timing::T800x600
        }
    }

    /// Bit 3: the image is stretched to double width, halving the pixels.
    pub open spec fn spec_is_horiz_2x(self) -> bool {
        (self.spec_code() / 8) % 2 == 1
    }

    /// Bit 7: the image is stretched to double height, halving the lines.
    pub open spec fn spec_is_vert_2x(self) -> bool {
        self.spec_code() / 128 == 1
    }

    pub open spec fn spec_horizontal_pixels(self) -> u16 {
        match self.spec_timing() {
            Timing::T640x480 => if self.spec_is_horiz_2x() { 320 } else { 640 },
            Timing::T640x400 => if self.spec_is_horiz_2x() { 320 } else { 640 },
            Timing::T800x600 => if self.spec_is_horiz_2x() { 400 } else { 800 },
        }
    }

    pub open spec fn spec_vertical_lines(self) -> u16 {
        match self.spec_timing() {
            Timing::T640x480 => if self.spec_is_vert_2x() { 240 } else { 480 },
            Timing::T640x400 => if self.spec_is_vert_2x() { 200 } else { 400 },
            Timing::T800x600 => if self.spec_is_vert_2x() { 300 } else { 600 },
        }
    }

    /// Bytes per line of pixels, or per line of text cells in a text mode.
    pub open spec fn spec_line_size_bytes(self) -> int {
        let px = self.spec_horizontal_pixels() as int;
        match self.spec_format() {
            Format::Text8x16 => (px / 8) * 2,
            Format::Text8x8 => (px / 8) * 2,
            Format::Chunky32 => px * 4,
            Format::Chunky16 => px * 2,
            Format::Chunky8 => px,
            Format::Chunky4 => px / 2,
            Format::Chunky2 => px / 4,
            Format::Chunky1 => px / 8,
        }
    }

    /// Text columns, defined only for text formats.
    pub open spec fn spec_text_width(self) -> Option<u16> {
        match self.spec_format() {
            Format::Text8x16 => Some((self.spec_horizontal_pixels() / 8) as u16),
            Format::Text8x8 => Some((self.spec_horizontal_pixels() / 8) as u16),
            _ => None,
        }
    }

    /// Text rows, defined only for text formats.
    pub open spec fn spec_text_height(self) -> Option<u16> {
        match self.spec_format() {
            Format::Text8x16 => Some((self.spec_vertical_lines() / 16) as u16),
            Format::Text8x8 => Some((self.spec_vertical_lines() / 8) as u16),
            _ => None,
        }
    }

    /// How many byte lines make up a frame: pixel lines, or text rows.
    pub open spec fn spec_line_count(self) -> int {
        match self.spec_format() {
            Format::Text8x16 => self.spec_vertical_lines() as int / 16,
            Format::Text8x8 => self.spec_vertical_lines() as int / 8,
            _ => self.spec_vertical_lines() as int,
        }
    }

    /// Total bytes of video memory the mode reads.
    pub open spec fn spec_frame_size_bytes(self) -> int {
        self.spec_line_size_bytes() * self.spec_line_count()
    }

    /// Decode a code, refusing those whose timing bits name no timing.
    pub fn try_from_u8(code: u8) -> (r: Option<Mode>)
        ensures
            Self::code_decodes(code) <==> r is Some,
            r is Some ==> r->Some_0.spec_code() == code && r->Some_0.wf(),
    {
        if (code / 16) % 8 <= 2 {
            Some(Mode { code })
        } else {
            None
        }
    }

    /// The raw code, as handed across the firmware interface.
    #[verifier::when_used_as_spec(spec_code)]
    pub fn as_u8(self) -> (r: u8)
        ensures
            r == self.spec_code(),
    {
        self.code
    }

    #[verifier::when_used_as_spec(spec_format)]
    pub fn format(self) -> (r: Format)
        ensures
            r == self.spec_format(),
    {
        let f = self.code % 8;
        if f == 0 {
            Format::Text8x16
        } else if f == 1 {
            Format::Text8x8
        } else if f == 2 {
            Format::Chunky32
        } else if f == 3 {
            Format::Chunky16
        } else if f == 4 {
            Format::Chunky8
        } else if f == 5 {
            Format::Chunky4
        } else if f == 6 {
            Format::Chunky2
        } else {
            Format::Chunky1
        }
    }

    #[verifier::when_used_as_spec(spec_timing)]
    pub fn timing(self) -> (r: Timing)
        requires
            self.wf(),
        ensures
            r == self.spec_timing(),
    {
        let t = (self.code / 16) % 8;
        if t == 0 {
            Timing::T640x480
        } else if t == 1 {
            Timing::T640x400
        } else {
            Timing::T800x600
        }
    }

    #[verifier::when_used_as_spec(spec_is_horiz_2x)]
    pub fn is_horiz_2x(self) -> (r: bool)
        ensures
            r == self.spec_is_horiz_2x(),
    {
        (self.code / 8) % 2 == 1
    }

    #[verifier::when_used_as_spec(spec_is_vert_2x)]
    pub fn is_vert_2x(self) -> (r: bool)
        ensures
            r == self.spec_is_vert_2x(),
    {
        self.code / 128 == 1
    }

    #[verifier::when_used_as_spec(spec_horizontal_pixels)]
    pub fn horizontal_pixels(self) -> (r: u16)
        requires
            self.wf(),
        ensures
            r == self.spec_horizontal_pixels(),
    {
        match (self.timing(), self.is_horiz_2x()) {
            (Timing::T640x480, false) => 640,
            (Timing::T640x400, false) => 640,
            (Timing::T800x600, false) => 800,
            (Timing::T640x480, true) => 320,
            (Timing::T640x400, true) => 320,
            (Timing::T800x600, true) => 400,
        }
    }

    #[verifier::when_used_as_spec(spec_vertical_lines)]
    pub fn vertical_lines(self) -> (r: u16)
        requires
            self.wf(),
        ensures
            r == self.spec_vertical_lines(),
    {
        match (self.timing(), self.is_vert_2x()) {
            (Timing::T640x480, false) => 480,
            (Timing::T640x400, false) => 400,
            (Timing::T800x600, false) => 600,
            (Timing::T640x480, true) => 240,
            (Timing::T640x400, true) => 200,
            (Timing::T800x600, true) => 300,
        }
    }

    pub fn line_size_bytes(self) -> (r: usize)
        requires
            self.wf(),
        ensures
            r == self.spec_line_size_bytes(),
    {
        let px = self.horizontal_pixels() as usize;
        match self.format() {
            Format::Text8x16 => (px / 8) * 2,
            Format::Text8x8 => (px / 8) * 2,
            Format::Chunky32 => px * 4,
            Format::Chunky16 => px * 2,
            Format::Chunky8 => px,
            Format::Chunky4 => px / 2,
            Format::Chunky2 => px / 4,
            Format::Chunky1 => px / 8,
        }
    }

    pub fn text_width(self) -> (r: Option<u16>)
        requires
            self.wf(),
        ensures
            r == self.spec_text_width(),
    {
        match self.format() {
            Format::Text8x16 => Some(self.horizontal_pixels() / 8),
            Format::Text8x8 => Some(self.horizontal_pixels() / 8),
            _ => None,
        }
    }

    pub fn text_height(self) -> (r: Option<u16>)
        requires
            self.wf(),
        ensures
            r == self.spec_text_height(),
    {
        match self.format() {
            Format::Text8x16 => Some(self.vertical_lines() / 16),
            Format::Text8x8 => Some(self.vertical_lines() / 8),
            _ => None,
        }
    }

    pub fn frame_size_bytes(self) -> (r: usize)
        requires
            self.wf(),
        ensures
            r == self.spec_frame_size_bytes(),
    {
        let lines: usize = match self.format() {
            Format::Text8x16 => self.vertical_lines() as usize / 16,
            Format::Text8x8 => self.vertical_lines() as usize / 8,
            _ => self.vertical_lines() as usize,
        };
        let line_size = self.line_size_bytes();
        proof {
            assert(line_size * lines <= 3200 * 600) by (nonlinear_arith)
                requires
                    0 <= line_size <= 3200,
                    0 <= lines <= 600,
            ;
        }
        line_size * lines
    }
}

/// The mode codes this firmware accepts for storage in the mode register:
/// both text formats and the four indexed bitmap formats, all at the
/// 640 by 480 timing with no scaling.
pub open spec fn spec_is_valid_mode(code: u8) -> bool {
    code == 0 || code == 1 || code == 4 || code == 5 || code == 6 || code == 7
}

/// Does this firmware support the given mode?
pub fn video_is_valid_mode(mode: Mode) -> (r: bool)
    ensures
        r == spec_is_valid_mode(mode.as_u8()),
{
    let code = mode.as_u8();
    code == 0 || code == 1 || code == 4 || code == 5 || code == 6 || code == 7
}

/// Does the mode need more video memory than the built-in region holds?
///
/// For every mode this firmware accepts the answer is no; the predicate
/// exists so a larger mode would have to announce that the operating system
/// must supply its own buffer.
pub fn video_mode_needs_vram(mode: Mode) -> (r: bool)
    requires
        mode.wf(),
    ensures
        r == (mode.spec_frame_size_bytes() > crate::framebuffer::FRAMEBUFFER_CAPACITY),
{
    mode.frame_size_bytes() > crate::framebuffer::FRAMEBUFFER_CAPACITY
}

/// Every accepted mode fits in the built-in video memory: its line size
/// times its line count is at most the framebuffer capacity, so it never
/// needs extra memory from the operating system.
pub proof fn lemma_valid_modes_fit(mode: Mode)
    requires
        spec_is_valid_mode(mode.spec_code()),
    ensures
        mode.wf(),
        mode.spec_line_size_bytes() * mode.spec_line_count()
            <= crate::framebuffer::FRAMEBUFFER_CAPACITY,
        mode.spec_frame_size_bytes() <= crate::framebuffer::FRAMEBUFFER_CAPACITY,
{
    let c = mode.spec_code();
    if c == 0 {
        assert(mode.spec_line_size_bytes() == 160);
        assert(mode.spec_line_count() == 30);
        assert(mode.spec_frame_size_bytes() == 160 * 30);
    } else if c == 1 {
        assert(mode.spec_line_size_bytes() == 160);
        assert(mode.spec_line_count() == 60);
        assert(mode.spec_frame_size_bytes() == 160 * 60);
    } else if c == 4 {
        assert(mode.spec_frame_size_bytes() == 307200);
    } else if c == 5 {
        assert(mode.spec_line_size_bytes() == 320);
        assert(mode.spec_line_count() == 480);
        assert(mode.spec_frame_size_bytes() == 320 * 480);
    } else if c == 6 {
        assert(mode.spec_frame_size_bytes() == 76800);
    } else {
        assert(mode.spec_frame_size_bytes() == 38400);
    }
}

} // verus!
