//! The block device backed by an in-memory disk image.
//!
//! Device id 0 is the only device; it holds the bytes of the backing image,
//! read and written in whole 512-byte blocks. Every operation names its
//! failure: a wrong device id, absent media, a block range past the end of
//! the image, or a verify mismatch. A write past the end never silently
//! succeeds. The process glue loads the image bytes from a file at startup
//! and writes them back; the block arithmetic and the data movement are
//! decided here.

use vstd::prelude::*;

use crate::Error;

verus! {

/// Bytes per block.
pub const BLOCK_SIZE: usize = 512;

/// What a device-information query reports about the backed disk.
pub struct DeviceInfo {
    /// The fixed name of the one device.
    pub name: &'static str,
    /// Bytes per block; always [`BLOCK_SIZE`].
    pub block_size: u32,
    /// Whole blocks the image holds.
    pub num_blocks: u64,
    /// The disk cannot be ejected.
    pub ejectable: bool,
    /// The disk is not removable.
    pub removable: bool,
    /// Media is present whenever the query succeeds.
    pub media_present: bool,
    /// The disk is writable.
    pub read_only: bool,
}

/// The image bytes after writing `count` bytes of `data` at `base`.
pub open spec fn write_span(media: Seq<u8>, base: int, data: Seq<u8>, count: int) -> Seq<u8> {
    Seq::new(
        media.len(),
        |i: int|
            if base <= i < base + count {
                data[i - base]
            } else {
                media[i]
            },
    )
}

/// The `count` image bytes starting at `base`.
pub open spec fn read_span(media: Seq<u8>, base: int, count: int) -> Seq<u8> {
    media.subrange(base, base + count)
}

/// A block range lies within the image when its final byte does.
pub open spec fn range_in_bounds(media_len: int, block_idx: u64, num_blocks: u8) -> bool {
    (block_idx + num_blocks) * BLOCK_SIZE <= media_len
}

/// The error a block operation reports for a request, before any data is
/// compared: a wrong device id, then absent media, then a range past the
/// end of the image.
pub open spec fn range_error(
    media: Option<Seq<u8>>,
    dev_id: u8,
    block_idx: u64,
    num_blocks: u8,
) -> Option<Error> {
    if dev_id != 0 {
        Some(Error::InvalidDevice)
    } else if media is None {
        Some(Error::DeviceError)
    } else if !range_in_bounds(media->Some_0.len() as int, block_idx, num_blocks) {
        Some(Error::BlockOutOfBounds)
    } else {
        None
    }
}

/// The block device and its optional backing image.
pub struct BlockDevice {
    present: bool,
    media: Vec<u8>,
}

impl BlockDevice {
    /// The image bytes, when media is present.
    pub closed spec fn spec_media(self) -> Option<Seq<u8>> {
        if self.present {
            Some(self.media@)
        } else {
            None
        }
    }

    /// A device backed by the given image bytes, or one with no media.
    pub fn new(media: Option<Vec<u8>>) -> (r: BlockDevice)
        ensures
            match media {
                Some(bytes) => r.spec_media() == Some(bytes@),
                None => r.spec_media() is None,
            },
    {
        match media {
            Some(bytes) => BlockDevice { present: true, media: bytes },
            None => BlockDevice { present: false, media: Vec::new() },
        }
    }

    /// Describe the device: id 0 with media present reports the block size
    /// and the whole-block count of the image; any other query reports no
    /// device.
    pub fn block_dev_get_info(&self, dev_id: u8) -> (r: Option<DeviceInfo>)
        ensures
            match r {
                Some(info) => {
                    &&& dev_id == 0
                    &&& self.spec_media() is Some
                    &&& info.name@ == "File0"@
                    &&& info.block_size == BLOCK_SIZE
                    &&& info.num_blocks == self.spec_media()->Some_0.len() as int / BLOCK_SIZE as int
                    &&& !info.ejectable
                    &&& !info.removable
                    &&& info.media_present
                    &&& !info.read_only
                },
                None => dev_id != 0 || self.spec_media() is None,
            },
    {
        if dev_id == 0 && self.present {
            Some(
                DeviceInfo {
                    name: "File0",
                    block_size: BLOCK_SIZE as u32,
                    num_blocks: (self.media.len() / BLOCK_SIZE) as u64,
                    ejectable: false,
                    removable: false,
                    media_present: true,
                    read_only: false,
                },
            )
        } else {
            None
        }
    }

    /// Check a request and hand back the byte offset and byte count of the
    /// range when it is acceptable.
    fn check_range(&self, dev_id: u8, block_idx: u64, num_blocks: u8) -> (r: Result<
        (usize, usize),
        Error,
    >)
        ensures
            match r {
                Ok((base, count)) => {
                    &&& range_error(self.spec_media(), dev_id, block_idx, num_blocks) is None
                    &&& self.spec_media() is Some
                    &&& base == block_idx * BLOCK_SIZE
                    &&& count == num_blocks * BLOCK_SIZE
                    &&& base + count <= self.spec_media()->Some_0.len()
                },
                Err(e) => range_error(self.spec_media(), dev_id, block_idx, num_blocks) == Some(e),
            },
    {
        if dev_id != 0 {
            return Err(Error::InvalidDevice);
        }
        if !self.present {
            return Err(Error::DeviceError);
        }
        let total_blocks = (self.media.len() / BLOCK_SIZE) as u64;
        if block_idx > total_blocks || (num_blocks as u64) > total_blocks - block_idx {
            proof {
                let len = self.media@.len() as int;
                assert((block_idx + num_blocks) * BLOCK_SIZE > len) by (nonlinear_arith)
                    requires
                        block_idx + num_blocks > len / 512,
                        BLOCK_SIZE == 512,
                        len >= 0,
                ;
            }
            return Err(Error::BlockOutOfBounds);
        }
        proof {
            let len = self.media@.len() as int;
            assert(block_idx * BLOCK_SIZE + num_blocks * BLOCK_SIZE <= len
                && (block_idx + num_blocks) * BLOCK_SIZE <= len) by (nonlinear_arith)
                requires
                    block_idx + num_blocks <= len / 512,
                    BLOCK_SIZE == 512,
                    len >= 0,
            ;
            assert(block_idx * BLOCK_SIZE <= usize::MAX);
        }
        let base = (block_idx as usize) * BLOCK_SIZE;
        let count = (num_blocks as usize) * BLOCK_SIZE;
        Ok((base, count))
    }

    /// Write `num_blocks` blocks from the front of `buffer` at block
    /// `block_idx`. On success exactly those image bytes change; on any
    /// error the image is untouched.
    #[verifier::loop_isolation(false)]
    pub fn block_write(
        &mut self,
        dev_id: u8,
        block_idx: u64,
        num_blocks: u8,
        buffer: &Vec<u8>,
    ) -> (r: Result<(), Error>)
        requires
            buffer@.len() >= num_blocks * BLOCK_SIZE,
        ensures
            match r {
                Ok(()) => {
                    &&& range_error(old(self).spec_media(), dev_id, block_idx, num_blocks) is None
                    &&& final(self).spec_media() is Some
                    &&& final(self).spec_media()->Some_0 == write_span(
                        old(self).spec_media()->Some_0,
                        block_idx * BLOCK_SIZE,
                        buffer@,
                        num_blocks * BLOCK_SIZE,
                    )
                },
                Err(e) => {
                    &&& *final(self) == *old(self)
                    &&& range_error(old(self).spec_media(), dev_id, block_idx, num_blocks) == Some(
                        e,
                    )
                },
            },
    {
        let (base, count) = match self.check_range(dev_id, block_idx, num_blocks) {
            Ok(pair) => pair,
            Err(e) => {
                return Err(e);
            },
        };
        let media_len = self.media.len();
        let mut i: usize = 0;
        while i < count
            invariant
                i <= count,
                base + count <= media_len,
                self.present,
                self.media@.len() == media_len,
                self.media@.len() == old(self).media@.len(),
                buffer@.len() >= count,
                forall|j: int| 0 <= j < i ==> #[trigger] self.media@[base + j] == buffer@[j],
                forall|j: int|
                    0 <= j < self.media@.len() && !(base <= j < base + i)
                        ==> #[trigger] self.media@[j] == old(self).media@[j],
            decreases count - i,
        {
            self.media.set(base + i, buffer[i]);
            i += 1;
        }
        proof {
            let target = write_span(old(self).media@, base as int, buffer@, count as int);
            assert forall|k: int| 0 <= k < self.media@.len() implies self.media@[k] == target[k] by {
                if base <= k < base + count {
                    assert(self.media@[base + (k - base)] == buffer@[k - base]);
                } else {
                    assert(self.media@[k] == old(self).media@[k]);
                }
            }
            assert(self.media@ =~= target);
        }
        Ok(())
    }

    /// Read `num_blocks` blocks at block `block_idx` into the front of
    /// `buffer`. On success the front of the buffer holds exactly those
    /// image bytes and the rest of the buffer is untouched; the image never
    /// changes.
    #[verifier::loop_isolation(false)]
    pub fn block_read(
        &self,
        dev_id: u8,
        block_idx: u64,
        num_blocks: u8,
        buffer: &mut Vec<u8>,
    ) -> (r: Result<(), Error>)
        requires
            old(buffer)@.len() >= num_blocks * BLOCK_SIZE,
        ensures
            final(buffer)@.len() == old(buffer)@.len(),
            match r {
                Ok(()) => {
                    &&& range_error(self.spec_media(), dev_id, block_idx, num_blocks) is None
                    &&& final(buffer)@.subrange(0, (num_blocks * BLOCK_SIZE) as int) == read_span(
                        self.spec_media()->Some_0,
                        block_idx * BLOCK_SIZE,
                        num_blocks * BLOCK_SIZE,
                    )
                    &&& forall|j: int|
                        num_blocks * BLOCK_SIZE <= j < old(buffer)@.len()
                            ==> #[trigger] final(buffer)@[j] == old(buffer)@[j]
                },
                Err(e) => {
                    &&& final(buffer)@ == old(buffer)@
                    &&& range_error(self.spec_media(), dev_id, block_idx, num_blocks) == Some(e)
                },
            },
    {
        let (base, count) = match self.check_range(dev_id, block_idx, num_blocks) {
            Ok(pair) => pair,
            Err(e) => {
                return Err(e);
            },
        };
        let media_len = self.media.len();
        let mut i: usize = 0;
        while i < count
            invariant
                i <= count,
                base + count <= media_len,
                buffer@.len() == old(buffer)@.len(),
                buffer@.len() >= count,
                forall|j: int| 0 <= j < i ==> #[trigger] buffer@[j] == self.media@[base + j],
                forall|j: int| i <= j < buffer@.len() ==> #[trigger] buffer@[j] == old(buffer)@[j],
            decreases count - i,
        {
            let b = self.media[base + i];
            buffer.set(i, b);
            i += 1;
        }
        proof {
            let target = read_span(self.media@, base as int, count as int);
            assert forall|k: int| 0 <= k < count implies buffer@.subrange(0, count as int)[k]
                == target[k] by {
                assert(buffer@[k] == self.media@[base + k]);
            }
            assert(buffer@.subrange(0, count as int) =~= target);
        }
        Ok(())
    }

    /// Compare `num_blocks` blocks at block `block_idx` against the front of
    /// `buffer`: success exactly when the image holds those bytes, a device
    /// error on any mismatch, and neither the image nor the buffer changes.
    #[verifier::loop_isolation(false)]
    pub fn block_verify(
        &self,
        dev_id: u8,
        block_idx: u64,
        num_blocks: u8,
        buffer: &Vec<u8>,
    ) -> (r: Result<(), Error>)
        requires
            buffer@.len() >= num_blocks * BLOCK_SIZE,
        ensures
            match range_error(self.spec_media(), dev_id, block_idx, num_blocks) {
                Some(e) => r == Result::<(), Error>::Err(e),
                None => {
                    &&& (r is Ok <==> read_span(
                        self.spec_media()->Some_0,
                        block_idx * BLOCK_SIZE,
                        num_blocks * BLOCK_SIZE,
                    ) == buffer@.subrange(0, (num_blocks * BLOCK_SIZE) as int))
                    &&& (r is Err ==> r == Result::<(), Error>::Err(Error::DeviceError))
                },
            },
    {
        let (base, count) = match self.check_range(dev_id, block_idx, num_blocks) {
            Ok(pair) => pair,
            Err(e) => {
                return Err(e);
            },
        };
        let media_len = self.media.len();
        let ghost target = read_span(self.media@, base as int, count as int);
        let mut i: usize = 0;
        while i < count
            invariant
                i <= count,
                base + count <= media_len,
                buffer@.len() >= count,
                target == read_span(self.media@, base as int, count as int),
                forall|j: int| 0 <= j < i ==> self.media@[base + j] == buffer@[j],
            decreases count - i,
        {
            if self.media[base + i] != buffer[i] {
                proof {
                    assert(target[i as int] == self.media@[base + i]);
                    assert(buffer@.subrange(0, count as int)[i as int] == buffer@[i as int]);
                    assert(target != buffer@.subrange(0, count as int));
                }
                return Err(Error::DeviceError);
            }
            i += 1;
        }
        proof {
            assert forall|k: int| 0 <= k < count implies target[k] == buffer@.subrange(
                0,
                count as int,
            )[k] by {
                assert(self.media@[base + k] == buffer@[k]);
            }
            assert(target =~= buffer@.subrange(0, count as int));
        }
        Ok(())
    }
}

/// Ejecting always succeeds and has no effect; the image is a file, not a
/// tray.
pub fn block_dev_eject(dev_id: u8) -> (r: Result<(), Error>)
    ensures
        r is Ok,
{
    let _ = dev_id;
    Ok(())
}

/// Writing a block range and reading the same range back yields exactly the
/// bytes written: the read of the written image returns the front of the
/// written buffer.
pub proof fn lemma_block_round_trip(media: Seq<u8>, base: int, data: Seq<u8>, count: int)
    requires
        0 <= base,
        0 <= count,
        base + count <= media.len(),
        count <= data.len(),
    ensures
        read_span(write_span(media, base, data, count), base, count) =~= data.subrange(0, count),
{
}

} // verus!
