//! The video state: the current mode register and the framebuffer it
//! governs.
//!
//! The two live in one structure because a mode switch must change the mode
//! register and the framebuffer's override target together: no observer can
//! see a new mode paired with an old target or the other way round. An
//! invalid mode code is rejected before anything changes, so the stored mode
//! is always one the validity predicate accepted.

use vstd::prelude::*;

use crate::Error;
use crate::framebuffer::FRAMEBUFFER_CAPACITY;
use crate::framebuffer::Framebuffer;
use crate::mode::Mode;
use crate::mode::spec_is_valid_mode;
use crate::mode::video_is_valid_mode;

verus! {

/// The mode register and the shared video memory, updated together.
pub struct VideoState {
    mode: Mode,
    fb: Framebuffer,
}

impl VideoState {
    /// The currently stored mode.
    pub closed spec fn spec_mode(self) -> Mode {
        self.mode
    }

    /// The framebuffer in its current state.
    pub closed spec fn spec_fb(self) -> Framebuffer {
        self.fb
    }

    /// The stored mode was accepted by the validity predicate, and the
    /// framebuffer spans its full capacity.
    pub open spec fn wf(self) -> bool {
        &&& spec_is_valid_mode(self.spec_mode().spec_code())
        &&& self.spec_mode().wf()
        &&& self.spec_fb().wf()
    }

    /// Boot state: mode code 0 (80 by 30 text), a zeroed framebuffer, no
    /// override address.
    pub fn new() -> (r: VideoState)
        ensures
            r.wf(),
            r.spec_mode().spec_code() == 0,
            r.spec_fb().spec_targets_internal(),
            r.spec_fb().spec_contents() =~= Seq::new(FRAMEBUFFER_CAPACITY as nat, |i: int| 0u8),
    {
        let mode = Mode::try_from_u8(0).unwrap();
        VideoState { mode, fb: Framebuffer::new() }
    }

    /// Switch modes.
    ///
    /// An accepted mode is stored and the override address is installed in
    /// the same step; `None` aims subsequent byte accesses at the internal
    /// array and `Some` aims them at the external address. A rejected mode
    /// changes nothing and reports why.
    pub fn set_mode(&mut self, mode: Mode, override_addr: Option<u64>) -> (r: Result<(), Error>)
        requires
            old(self).wf(),
            mode.wf(),
        ensures
            final(self).wf(),
            spec_is_valid_mode(mode.spec_code()) ==> {
                &&& r is Ok
                &&& final(self).spec_mode() == mode
                &&& final(self).spec_fb().spec_override() == override_addr
                &&& final(self).spec_fb().spec_targets_internal() <==> override_addr is None
                &&& final(self).spec_fb().spec_contents() == old(self).spec_fb().spec_contents()
            },
            !spec_is_valid_mode(mode.spec_code()) ==> {
                &&& r == Result::<(), Error>::Err(Error::UnsupportedConfiguration)
                &&& final(self).spec_mode() == old(self).spec_mode()
                &&& final(self).spec_fb() == old(self).spec_fb()
            },
    {
        if !video_is_valid_mode(mode) {
            return Err(Error::UnsupportedConfiguration);
        }
        self.mode = mode;
        self.fb.set_override(override_addr);
        Ok(())
    }

    /// The stored mode; by the invariant, always a previously accepted one.
    pub fn get_mode(&self) -> (r: Mode)
        requires
            self.wf(),
        ensures
            r == self.spec_mode(),
            spec_is_valid_mode(r.spec_code()),
    {
        self.mode
    }

    /// Where byte accesses currently go: `None` for the internal array,
    /// `Some` for an operating-system supplied address.
    pub fn override_address(&self) -> (r: Option<u64>)
        ensures
            r == self.spec_fb().spec_override(),
    {
        self.fb.override_address()
    }

    /// Whether byte accesses currently go to the internal array.
    pub fn targets_internal(&self) -> (r: bool)
        ensures
            r == self.spec_fb().spec_targets_internal(),
    {
        self.fb.targets_internal()
    }

    /// The framebuffer, for readers such as the per-frame renderer.
    pub fn framebuffer(&self) -> (r: &Framebuffer)
        ensures
            r == self.spec_fb(),
    {
        &self.fb
    }

    /// Write one byte of the internal array; see [`Framebuffer::write_at`].
    pub fn write_at(&mut self, offset: usize, value: u8)
        requires
            old(self).wf(),
            old(self).spec_fb().spec_targets_internal(),
            offset < FRAMEBUFFER_CAPACITY,
        ensures
            final(self).wf(),
            final(self).spec_mode() == old(self).spec_mode(),
            final(self).spec_fb().spec_targets_internal(),
            final(self).spec_fb().spec_contents() == old(self).spec_fb().spec_contents().update(
                offset as int,
                value,
            ),
    {
        self.fb.write_at(offset, value);
    }

    /// Read one byte of the internal array; see [`Framebuffer::get_at`].
    pub fn get_at(&self, offset: usize) -> (r: u8)
        requires
            self.wf(),
            self.spec_fb().spec_targets_internal(),
            offset < FRAMEBUFFER_CAPACITY,
        ensures
            r == self.spec_fb().spec_contents()[offset as int],
    {
        self.fb.get_at(offset)
    }

    /// Blank the first `count` text cells; see
    /// [`Framebuffer::fill_text_cells`].
    pub fn fill_text_cells(&mut self, count: usize, glyph: u8, attr: u8)
        requires
            old(self).wf(),
            old(self).spec_fb().spec_targets_internal(),
            count * 2 <= FRAMEBUFFER_CAPACITY,
        ensures
            final(self).wf(),
            final(self).spec_mode() == old(self).spec_mode(),
            final(self).spec_fb().spec_targets_internal(),
            forall|c: int|
                0 <= c < count ==> #[trigger] final(self).spec_fb().spec_contents()[2 * c] == glyph
                    && final(self).spec_fb().spec_contents()[2 * c + 1] == attr,
            forall|i: int|
                2 * count <= i < FRAMEBUFFER_CAPACITY
                    ==> #[trigger] final(self).spec_fb().spec_contents()[i] == old(
                    self,
                ).spec_fb().spec_contents()[i],
    {
        self.fb.fill_text_cells(count, glyph, attr);
    }
}

} // verus!
