//! The shared video memory region.
//!
//! A fixed-capacity byte array, sized for the largest supported mode, plus an
//! optional override address. When the override is absent the internal array
//! is the active read/write target; when present, every access is meant for
//! the external address and the process glue performs it, so the byte
//! operations here are only defined while the internal array is the target.
//! Accesses are single bytes; the region is deliberately shared without a
//! lock, and a reader seeing a half-written frame is accepted behaviour.

use vstd::prelude::*;

verus! {

/// Bytes in the built-in video memory: enough for 640 by 480 pixels at one
/// byte per pixel, the largest frame an accepted mode reads.
pub const FRAMEBUFFER_CAPACITY: usize = 640 * 480;

/// The video memory region with its optional override address.
pub struct Framebuffer {
    contents: Vec<u8>,
    override_addr: Option<u64>,
}

impl Framebuffer {
    /// The bytes of the internal array.
    pub closed spec fn spec_contents(self) -> Seq<u8> {
        self.contents@
    }

    /// The override address, if the operating system installed one.
    pub closed spec fn spec_override(self) -> Option<u64> {
        self.override_addr
    }

    /// The internal array always spans the full capacity.
    pub open spec fn wf(self) -> bool {
        self.spec_contents().len() == FRAMEBUFFER_CAPACITY
    }

    /// Reads and writes go to the internal array exactly when no override
    /// address is installed.
    pub open spec fn spec_targets_internal(self) -> bool {
        self.spec_override() is None
    }

    /// A fresh framebuffer: all zero, no override.
    pub fn new() -> (r: Framebuffer)
        ensures
            r.wf(),
            r.spec_targets_internal(),
            r.spec_contents() =~= Seq::new(FRAMEBUFFER_CAPACITY as nat, |i: int| 0u8),
    {
        let mut contents: Vec<u8> = Vec::new();
        let mut i: usize = 0;
        while i < FRAMEBUFFER_CAPACITY
            invariant
                i <= FRAMEBUFFER_CAPACITY,
                contents@.len() == i,
                forall|j: int| 0 <= j < i ==> contents@[j] == 0u8,
            decreases FRAMEBUFFER_CAPACITY - i,
        {
            contents.push(0);
            i += 1;
        }
        Framebuffer { contents, override_addr: None }
    }

    /// Whether byte accesses currently go to the internal array.
    pub fn targets_internal(&self) -> (r: bool)
        ensures
            r == self.spec_targets_internal(),
    {
        self.override_addr.is_none()
    }

    /// The installed override address, if any.
    pub fn override_address(&self) -> (r: Option<u64>)
        ensures
            r == self.spec_override(),
    {
        self.override_addr
    }

    /// Install or clear the override address. This is called only from the
    /// mode-switch path, so mode and target change together.
    pub fn set_override(&mut self, addr: Option<u64>)
        ensures
            final(self).spec_override() == addr,
            final(self).spec_contents() == old(self).spec_contents(),
    {
        self.override_addr = addr;
    }

    /// Write one byte of the internal array.
    ///
    /// Callers bound `offset` by the current mode's geometry; an offset at or
    /// past the capacity is a contract violation, never a run-time branch.
    pub fn write_at(&mut self, offset: usize, value: u8)
        requires
            old(self).wf(),
            old(self).spec_targets_internal(),
            offset < FRAMEBUFFER_CAPACITY,
        ensures
            final(self).wf(),
            final(self).spec_targets_internal(),
            final(self).spec_contents() == old(self).spec_contents().update(offset as int, value),
    {
        self.contents.set(offset, value);
    }

    /// Read one byte of the internal array, under the same bound as
    /// [`Framebuffer::write_at`].
    pub fn get_at(&self, offset: usize) -> (r: u8)
        requires
            self.wf(),
            self.spec_targets_internal(),
            offset < FRAMEBUFFER_CAPACITY,
        ensures
            r == self.spec_contents()[offset as int],
    {
        self.contents[offset]
    }

    /// Fill the first `count` text cells with one glyph/attribute pair,
    /// leaving every byte past them unchanged. This is how the boot path
    /// blanks the text screen before the operating system starts.
    pub fn fill_text_cells(&mut self, count: usize, glyph: u8, attr: u8)
        requires
            old(self).wf(),
            old(self).spec_targets_internal(),
            count * 2 <= FRAMEBUFFER_CAPACITY,
        ensures
            final(self).wf(),
            final(self).spec_targets_internal(),
            final(self).spec_contents().len() == old(self).spec_contents().len(),
            forall|c: int|
                0 <= c < count ==> #[trigger] final(self).spec_contents()[2 * c] == glyph
                    && final(self).spec_contents()[2 * c + 1] == attr,
            forall|i: int|
                2 * count <= i < FRAMEBUFFER_CAPACITY ==> #[trigger] final(self).spec_contents()[i]
                    == old(self).spec_contents()[i],
    {
        let mut cell: usize = 0;
        while cell < count
            invariant
                cell <= count,
                count * 2 <= FRAMEBUFFER_CAPACITY,
                self.wf(),
                self.spec_targets_internal(),
                forall|c: int|
                    0 <= c < cell ==> #[trigger] self.spec_contents()[2 * c] == glyph
                        && self.spec_contents()[2 * c + 1] == attr,
                forall|i: int|
                    2 * cell <= i < FRAMEBUFFER_CAPACITY ==> #[trigger] self.spec_contents()[i]
                        == old(self).spec_contents()[i],
            decreases count - cell,
        {
            self.write_at(cell * 2, glyph);
            self.write_at(cell * 2 + 1, attr);
            cell += 1;
        }
    }
}

} // verus!
