//! The remaining host-call logic: configuration transfer, wall clock and
//! tick conversion, the memory-region table, input polling and the version
//! string.
//!
//! The process glue performs the actual file reads, clock queries and
//! allocations; the functions here decide what each call returns for the
//! plain values handed in, which is where the call table's behaviour is
//! pinned down.

use vstd::prelude::*;

use crate::Error;
use crate::event::Event;
use crate::event::EventQueue;
use crate::event::HidEvent;
use crate::event::queue_front;
use crate::event::queue_rest;
use crate::keymap::spec_keycode_for;

verus! {

/// Seconds and nanoseconds since the firmware epoch of 2000-01-01.
#[derive(Clone, Copy, Debug, PartialEq, Eq, Structural)]
pub struct WallTime {
    /// Whole seconds since the epoch.
    pub secs: u32,
    /// Nanoseconds within the current second.
    pub nsecs: u32,
}

/// Fold an elapsed duration since the epoch into the wall-time record.
///
/// The second counter is 32 bits wide, which reaches into the 2130s; a
/// duration beyond it has no representation, so it is ruled out rather than
/// wrapped.
pub fn clock_from_elapsed(secs: u64, nsecs: u32) -> (r: WallTime)
    requires
        secs <= u32::MAX,
    ensures
        r.secs == secs,
        r.nsecs == nsecs,
{
    WallTime { secs: secs as u32, nsecs }
}

/// The millisecond tick counter as handed to the operating system: the
/// elapsed milliseconds, reduced to the 64-bit counter width.
pub fn ticks_from_millis(millis: u128) -> (r: u64)
    ensures
        r == millis % 0x1_0000_0000_0000_0000,
{
    (millis % 0x1_0000_0000_0000_0000) as u64
}

/// The simulated tick rate: one millisecond per tick.
pub fn time_ticks_per_second() -> (r: u64)
    ensures
        r == 1000,
{
    1000
}

/// The outcome of a configuration read or write, given whether a storage
/// path was configured and whether the file operation succeeded: no path
/// means the facility is unimplemented, a failed operation is a device
/// error.
pub fn config_io_result(has_path: bool, io_ok: bool) -> (r: Result<(), Error>)
    ensures
        !has_path ==> r == Result::<(), Error>::Err(Error::Unimplemented),
        has_path && !io_ok ==> r == Result::<(), Error>::Err(Error::DeviceError),
        has_path && io_ok ==> r is Ok,
{
    if !has_path {
        Err(Error::Unimplemented)
    } else if !io_ok {
        Err(Error::DeviceError)
    } else {
        Ok(())
    }
}

/// Copy the stored configuration into the caller's buffer, pairwise up to
/// the shorter length, and report how many bytes the stored blob holds,
/// which may exceed what the buffer could take.
#[verifier::loop_isolation(false)]
pub fn configuration_copy(data: &Vec<u8>, buffer: &mut Vec<u8>) -> (r: usize)
    ensures
        r == data@.len(),
        final(buffer)@.len() == old(buffer)@.len(),
        forall|i: int|
            0 <= i < data@.len() && i < old(buffer)@.len() ==> #[trigger] final(buffer)@[i]
                == data@[i],
        forall|i: int|
            data@.len() <= i < old(buffer)@.len() ==> #[trigger] final(buffer)@[i] == old(
                buffer,
            )@[i],
{
    let count = if data.len() < buffer.len() {
        data.len()
    } else {
        buffer.len()
    };
    let mut i: usize = 0;
    while i < count
        invariant
            i <= count,
            count <= data@.len(),
            count <= buffer@.len(),
            buffer@.len() == old(buffer)@.len(),
            forall|j: int| 0 <= j < i ==> #[trigger] buffer@[j] == data@[j],
            forall|j: int| i <= j < buffer@.len() ==> #[trigger] buffer@[j] == old(buffer)@[j],
        decreases count - i,
    {
        let b = data[i];
        buffer.set(i, b);
        i += 1;
    }
    data.len()
}

/// What a memory-region query reports.
#[derive(Clone, Copy, Debug, PartialEq, Eq, Structural)]
pub enum MemoryKind {
    /// Ordinary read/write memory.
    Ram,
}

/// One region of memory offered to the operating system.
#[derive(Clone, Copy, Debug, PartialEq, Eq, Structural)]
pub struct MemoryRegion {
    /// The region's base address.
    pub start: u64,
    /// The region's length in bytes.
    pub length: usize,
    /// What kind of memory backs the region.
    pub kind: MemoryKind,
}

/// Describe a memory region: region 0 is the one application region, at the
/// address and size of the block the process set aside; any other region
/// number names nothing.
pub fn memory_get_region(region: u8, base: u64, length: usize) -> (r: Option<MemoryRegion>)
    ensures
        region == 0 ==> r == Some(
            MemoryRegion { start: base, length, kind: MemoryKind::Ram },
        ),
        region != 0 ==> r is None,
{
    if region == 0 {
        Some(MemoryRegion { start: base, length, kind: MemoryKind::Ram })
    } else {
        None
    }
}

/// Poll for the next input event without blocking.
///
/// One queued event is consumed per call, whatever it is. A key transition
/// comes back translated through the key table; the start signal and an
/// empty queue both report no input.
pub fn hid_get_event(queue: &mut EventQueue) -> (r: Option<HidEvent>)
    ensures
        final(queue).spec_items() == queue_rest(old(queue).spec_items()),
        r == match queue_front(old(queue).spec_items()) {
            Some(Event::KeyUp(key)) => Some(HidEvent::KeyRelease(spec_keycode_for(key))),
            Some(Event::KeyDown(key)) => Some(HidEvent::KeyPress(spec_keycode_for(key))),
            _ => None::<HidEvent>,
        },
{
    match queue.try_take() {
        Some(Event::KeyUp(key)) => Some(
            HidEvent::KeyRelease(crate::keymap::convert_keycode(key)),
        ),
        Some(Event::KeyDown(key)) => Some(
            HidEvent::KeyPress(crate::keymap::convert_keycode(key)),
        ),
        _ => None,
    }
}

/// The firmware's version string, null-terminated for the C-shaped call
/// table.
pub fn bios_version() -> (r: &'static str)
    ensures
        r@ == "Neotron Desktop BIOS\0"@,
{
    "Neotron Desktop BIOS\0"
}

} // verus!
