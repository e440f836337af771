//! The glyph texture cache.
//!
//! Text rendering never rasterizes at draw time: during the one-time
//! initialisation, every glyph is rendered once in each of the first sixteen
//! palette colours into an off-screen texture, and each frame only blits.
//! The cache maps a (glyph, foreground colour) pair to the handle of that
//! texture; it must be complete before the first running-state frame, and
//! the start signal that releases the operating system is only sent after
//! the build finishes.

use vstd::prelude::*;

use crate::palette::PALETTE_SIZE;
use crate::palette::Palette;

verus! {

/// Glyphs per font.
pub const GLYPHS_PER_FONT: usize = 256;

/// Foreground colours a text attribute can name: the first sixteen palette
/// slots.
pub const NUM_FG: usize = 16;

/// The cache slot of a glyph drawn in a foreground colour.
pub open spec fn spec_slot(glyph: u8, fg: u8) -> int {
    glyph * NUM_FG + fg
}

/// The cache slot of `glyph` drawn in foreground colour `fg`.
pub fn texture_slot(glyph: u8, fg: u8) -> (r: usize)
    requires
        fg < NUM_FG,
    ensures
        r == spec_slot(glyph, fg),
        r < GLYPHS_PER_FONT * NUM_FG,
{
    proof {
        assert(glyph * NUM_FG + fg < GLYPHS_PER_FONT * NUM_FG) by (nonlinear_arith)
            requires
                glyph < 256,
                fg < NUM_FG,
                NUM_FG == 16,
                GLYPHS_PER_FONT == 256,
        ;
    }
    (glyph as usize) * NUM_FG + (fg as usize)
}

/// One texture to build during initialisation: which glyph, in which
/// foreground colour, and that colour's packed RGB value at build time.
pub struct GlyphPlanEntry {
    /// The glyph to rasterize.
    pub glyph: u8,
    /// The foreground palette index, below [`NUM_FG`].
    pub fg_index: u8,
    /// The packed RGB word of that palette slot.
    pub fg_packed: u32,
}

/// The build order for one font's textures: slot `s` holds glyph `s / 16`
/// in foreground colour `s % 16`, so pushing the finished handles in order
/// lands each at [`spec_slot`] of its pair.
#[verifier::loop_isolation(false)]
pub fn font_texture_plan(palette: &Palette) -> (r: Vec<GlyphPlanEntry>)
    requires
        palette.wf(),
    ensures
        r@.len() == GLYPHS_PER_FONT * NUM_FG,
        forall|s: int|
            0 <= s < GLYPHS_PER_FONT * NUM_FG ==> {
                &&& (#[trigger] r@[s]).glyph == s / NUM_FG as int
                &&& r@[s].fg_index == s % NUM_FG as int
                &&& r@[s].fg_packed == palette.spec_slots()[s % NUM_FG as int]
            },
{
    let mut plan: Vec<GlyphPlanEntry> = Vec::new();
    let mut glyph: usize = 0;
    while glyph < GLYPHS_PER_FONT
        invariant
            glyph <= GLYPHS_PER_FONT,
            plan@.len() == glyph * NUM_FG,
            forall|s: int|
                0 <= s < glyph * NUM_FG ==> {
                    &&& (#[trigger] plan@[s]).glyph == s / NUM_FG as int
                    &&& plan@[s].fg_index == s % NUM_FG as int
                    &&& plan@[s].fg_packed == palette.spec_slots()[s % NUM_FG as int]
                },
        decreases GLYPHS_PER_FONT - glyph,
    {
        let mut fg: usize = 0;
        while fg < NUM_FG
            invariant
                fg <= NUM_FG,
                glyph < GLYPHS_PER_FONT,
                plan@.len() == glyph * NUM_FG + fg,
                forall|s: int|
                    0 <= s < glyph * NUM_FG + fg ==> {
                        &&& (#[trigger] plan@[s]).glyph == s / NUM_FG as int
                        &&& plan@[s].fg_index == s % NUM_FG as int
                        &&& plan@[s].fg_packed == palette.spec_slots()[s % NUM_FG as int]
                    },
            decreases NUM_FG - fg,
        {
            let packed = match palette.get(fg) {
                Some(c) => c.as_packed(),
                None => 0,
            };
            let entry = GlyphPlanEntry {
                glyph: glyph as u8,
                fg_index: fg as u8,
                fg_packed: packed,
            };
            plan.push(entry);
            proof {
                let s = glyph * NUM_FG + fg;
                assert(s / NUM_FG as int == glyph && s % NUM_FG as int == fg) by (nonlinear_arith)
                    requires
                        0 <= fg < NUM_FG,
                        0 <= glyph,
                        NUM_FG == 16,
                        s == glyph * NUM_FG + fg,
                ;
            }
            fg += 1;
        }
        glyph += 1;
    }
    plan
}

/// The finished texture handles of one font, indexed by [`spec_slot`].
pub struct GlyphCache {
    ids: Vec<u64>,
}

impl GlyphCache {
    /// The bound handles, in slot order.
    pub closed spec fn spec_ids(self) -> Seq<u64> {
        self.ids@
    }

    /// Every glyph/colour pair has a bound handle.
    pub open spec fn is_complete(self) -> bool {
        self.spec_ids().len() == GLYPHS_PER_FONT * NUM_FG
    }

    /// An empty cache, as it stands before initialisation.
    pub fn new() -> (r: GlyphCache)
        ensures
            r.spec_ids() =~= Seq::<u64>::empty(),
    {
        GlyphCache { ids: Vec::new() }
    }

    /// How many handles are bound so far.
    pub fn len(&self) -> (r: usize)
        ensures
            r == self.spec_ids().len(),
    {
        self.ids.len()
    }

    /// Bind the next handle, in plan order.
    pub fn push_texture(&mut self, id: u64)
        ensures
            final(self).spec_ids() == old(self).spec_ids().push(id),
    {
        self.ids.push(id);
    }

    /// The handle bound for `glyph` drawn in foreground colour `fg`.
    pub fn handle_for(&self, glyph: u8, fg: u8) -> (r: u64)
        requires
            self.is_complete(),
            fg < NUM_FG,
        ensures
            r == self.spec_ids()[spec_slot(glyph, fg)],
    {
        let slot = texture_slot(glyph, fg);
        self.ids[slot]
    }
}

/// Once the cache is complete, every glyph and every foreground colour in
/// range has a bound texture handle: the slot of any such pair falls inside
/// the handle table.
pub proof fn lemma_complete_cache_covers_every_pair(cache: GlyphCache, glyph: u8, fg: u8)
    requires
        cache.is_complete(),
        fg < NUM_FG,
    ensures
        0 <= spec_slot(glyph, fg) < cache.spec_ids().len(),
{
    assert(glyph * NUM_FG + fg < GLYPHS_PER_FONT * NUM_FG) by (nonlinear_arith)
        requires
            glyph < 256,
            fg < NUM_FG,
            NUM_FG == 16,
            GLYPHS_PER_FONT == 256,
    ;
}

} // verus!
