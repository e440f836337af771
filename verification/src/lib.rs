//! Desktop emulation of a small-computer firmware interface ("BIOS").
//!
//! The crate models the hardware-facing state that such a firmware exposes to
//! a hosted operating system: a shared video framebuffer with an optional
//! override pointer, a 256-entry colour palette, an encoded video-mode
//! register, a FIFO event queue, a block device backed by an in-memory image,
//! and the pure per-frame translation of video memory into drawing commands.
//! Every operation carries a contract describing exactly what it returns or
//! changes; the process-level glue (window, threads, dynamic loading, file
//! I/O) lives outside this crate and hands plain values in and out.

use vstd::prelude::*;

pub mod block;
pub mod colour;
pub mod event;
pub mod font;
pub mod framebuffer;
pub mod glyphs;
pub mod hostapi;
pub mod keymap;
pub mod mode;
pub mod palette;
pub mod render;
pub mod video;

verus! {

/// Result codes returned to the hosted operating system.
#[derive(Clone, Copy, Debug, PartialEq, Eq, Structural)]
pub enum Error {
    /// The peripheral category has no real backing in this emulation.
    Unimplemented,
    /// A mode switch was requested with a mode code this firmware rejects.
    UnsupportedConfiguration,
    /// A block operation named a device other than the one backed disk.
    InvalidDevice,
    /// The underlying storage failed, or a verify found a mismatch.
    DeviceError,
    /// A block operation reached past the end of the backing image.
    BlockOutOfBounds,
}

} // verus!
