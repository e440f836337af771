//! Packed colour values and the text attribute byte.
//!
//! A colour is a 24-bit RGB triple kept in a 32-bit word as `0x00RRGGBB`,
//! wide enough for one atomic slot write in the palette. An attribute byte is
//! the classic VGA split: four low bits of foreground palette index, three
//! bits of background palette index, and a blink bit on top.

use vstd::prelude::*;

verus! {

/// A 24-bit RGB colour packed into a 32-bit word.
#[derive(Clone, Copy, Debug, PartialEq, Eq, Structural)]
pub struct RGBColour {
    packed: u32,
}

impl RGBColour {
    /// The packed `0x00RRGGBB` word.
    pub closed spec fn spec_packed(self) -> u32 {
        self.packed
    }

    /// Wrap an already packed word.
    pub fn from_packed(packed: u32) -> (r: RGBColour)
        ensures
            r.spec_packed() == packed,
    {
        RGBColour { packed }
    }

    /// The packed word back out.
    #[verifier::when_used_as_spec(spec_packed)]
    pub fn as_packed(self) -> (r: u32)
        ensures
            r == self.spec_packed(),
    {
        self.packed
    }

    /// Pack a red/green/blue triple; each channel reads back unchanged.
    pub fn from_rgb(red: u8, green: u8, blue: u8) -> (r: RGBColour)
        ensures
            r.spec_packed() == red * 0x10000 + green * 0x100 + blue,
            r.spec_red() == red,
            r.spec_green() == green,
            r.spec_blue() == blue,
    {
        let packed: u32 = (red as u32) * 0x10000 + (green as u32) * 0x100 + (blue as u32);
        proof {
            assert(((red * 0x10000 + green * 0x100 + blue) as u32 / 0x10000) % 0x100 == red && ((
            red * 0x10000 + green * 0x100 + blue) as u32 / 0x100) % 0x100 == green && (red * 0x10000
                + green * 0x100 + blue) as u32 % 0x100 == blue) by (nonlinear_arith);
        }
        RGBColour { packed }
    }

    pub open spec fn spec_red(self) -> u8 {
        ((self.spec_packed() / 0x10000) % 0x100) as u8
    }

    pub open spec fn spec_green(self) -> u8 {
        ((self.spec_packed() / 0x100) % 0x100) as u8
    }

    pub open spec fn spec_blue(self) -> u8 {
        (self.spec_packed() % 0x100) as u8
    }

    /// The red channel of the packed word.
    #[verifier::when_used_as_spec(spec_red)]
    pub fn red(self) -> (r: u8)
        ensures
            r == self.spec_red(),
    {
        ((self.packed / 0x10000) % 0x100) as u8
    }

    /// The green channel of the packed word.
    #[verifier::when_used_as_spec(spec_green)]
    pub fn green(self) -> (r: u8)
        ensures
            r == self.spec_green(),
    {
        ((self.packed / 0x100) % 0x100) as u8
    }

    /// The blue channel of the packed word.
    #[verifier::when_used_as_spec(spec_blue)]
    pub fn blue(self) -> (r: u8)
        ensures
            r == self.spec_blue(),
    {
        (self.packed % 0x100) as u8
    }
}

/// A text-cell attribute byte: blink bit, three background bits, four
/// foreground bits.
#[derive(Clone, Copy, Debug, PartialEq, Eq, Structural)]
pub struct Attr {
    value: u8,
}

impl Attr {
    /// The raw attribute byte.
    pub closed spec fn spec_value(self) -> u8 {
        self.value
    }

    /// The foreground palette index, 0 to 15.
    pub open spec fn spec_fg(self) -> u8 {
        self.spec_value() % 16
    }

    /// The background palette index, 0 to 7.
    pub open spec fn spec_bg(self) -> u8 {
        (self.spec_value() / 16) % 8
    }

    /// Whether the cell blinks.
    pub open spec fn spec_blink(self) -> bool {
        self.spec_value() / 128 == 1
    }

    /// Pack a foreground index, background index and blink flag.
    pub fn new(fg: u8, bg: u8, blink: bool) -> (r: Attr)
        requires
            fg < 16,
            bg < 8,
        ensures
            r.spec_fg() == fg,
            r.spec_bg() == bg,
            r.spec_blink() == blink,
            r.spec_value() == (if blink { 128int } else { 0int }) + bg * 16 + fg,
    {
        let value: u8 = (if blink { 128u8 } else { 0u8 }) + bg * 16 + fg;
        Attr { value }
    }

    /// Wrap a raw byte read from video memory.
    pub fn from_u8(value: u8) -> (r: Attr)
        ensures
            r.spec_value() == value,
    {
        Attr { value }
    }

    /// The raw byte, as stored in video memory.
    #[verifier::when_used_as_spec(spec_value)]
    pub fn as_u8(self) -> (r: u8)
        ensures
            r == self.spec_value(),
    {
        self.value
    }

    #[verifier::when_used_as_spec(spec_fg)]
    pub fn fg(self) -> (r: u8)
        ensures
            r == self.spec_fg(),
    {
        self.value % 16
    }

    #[verifier::when_used_as_spec(spec_bg)]
    pub fn bg(self) -> (r: u8)
        ensures
            r == self.spec_bg(),
    {
        (self.value / 16) % 8
    }

    #[verifier::when_used_as_spec(spec_blink)]
    pub fn blink(self) -> (r: bool)
        ensures
            r == self.spec_blink(),
    {
        self.value / 128 == 1
    }
}

} // verus!
