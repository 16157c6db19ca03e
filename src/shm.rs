use vstd::prelude::*;

use crate::frame::{segment_len, spec_frame_len};

verus! {

/// A shared-memory segment as registered with the display server: the
/// server's segment identifier and the byte size of the mapping behind it.
#[derive(Clone, Copy, Debug, PartialEq, Eq, Structural)]
pub struct ShmSegWrapper {
    pub seg: u32,
    pub size: usize,
}

impl ShmSegWrapper {
    /// Records a segment registered under `seg` whose mapping holds `size` bytes.
    pub fn new(seg: u32, size: usize) -> (r: ShmSegWrapper)
        ensures
            r.seg == seg,
            r.size == size,
    {
        ShmSegWrapper { seg, size }
    }
}

/// Why a segment could not be bound to a pixmap.
#[derive(Clone, Copy, Debug, PartialEq, Eq, Structural)]
pub enum BindError {
    /// The segment's size differs from the byte size the pixmap implies.
    SizeMismatch,
}

/// A server-side pixmap of depth 32 whose storage is a shared segment.
///
/// The segment always holds exactly the pixmap's packed bytes: four per pixel,
/// rows of `width * 4` bytes with no padding.
#[derive(Clone, Copy, Debug, PartialEq, Eq, Structural)]
pub struct ShmPixmap {
    pub pixmap: u32,
    pub shmseg: ShmSegWrapper,
    pub width: u16,
    pub height: u16,
    pub drawable: u32,
}

/// Whether a segment can back a pixmap of the given size.
pub open spec fn spec_fits(seg: ShmSegWrapper, width: u16, height: u16) -> bool {
    seg.size == spec_frame_len(width, height)
}

fn fits(seg: ShmSegWrapper, width: u16, height: u16) -> (r: bool)
    ensures
        r == spec_fits(seg, width, height),
{
    match segment_len(width, height) {
        Some(n) => n == seg.size,
        None => false,
    }
}

impl ShmPixmap {
    pub open spec fn wf(&self) -> bool {
        spec_fits(self.shmseg, self.width, self.height)
    }

    /// Binds `shmseg` as the storage of pixmap `pixmap` on `drawable`.
    pub fn new(pixmap: u32, drawable: u32, width: u16, height: u16, shmseg: ShmSegWrapper) -> (r: Result<ShmPixmap, BindError>)
        ensures
            r is Ok <==> spec_fits(shmseg, width, height),
            r matches Ok(p) ==> p.wf() && p == (ShmPixmap { pixmap, shmseg, width, height, drawable }),
            r matches Err(e) ==> e == BindError::SizeMismatch,
    {
        if fits(shmseg, width, height) {
            Ok(ShmPixmap { pixmap, shmseg, width, height, drawable })
        } else {
            Err(BindError::SizeMismatch)
        }
    }

    /// Rebinds the pixmap to a new segment at a new size. The pixmap keeps its
    /// identifier and drawable; the old segment is no longer referenced.
    ///
    /// On an error nothing changes.
    pub fn resize(&mut self, width: u16, height: u16, shmseg: ShmSegWrapper) -> (r: Result<(), BindError>)
        requires
            old(self).wf(),
        ensures
            r is Ok <==> spec_fits(shmseg, width, height),
            r is Ok ==> final(self).wf() && *final(self) == (ShmPixmap {
                pixmap: old(self).pixmap,
                shmseg,
                width,
                height,
                drawable: old(self).drawable,
            }),
            r matches Err(e) ==> e == BindError::SizeMismatch && *final(self) == *old(self),
    {
        if fits(shmseg, width, height) {
            self.shmseg = shmseg;
            self.width = width;
            self.height = height;
            Ok(())
        } else {
            Err(BindError::SizeMismatch)
        }
    }

    /// Bytes of the pixmap's storage.
    pub fn byte_len(&self) -> (r: usize)
        requires
            self.wf(),
        ensures
            r == spec_frame_len(self.width, self.height),
    {
        self.shmseg.size
    }
}

/// After a resize the pixmap has exactly one segment behind it, the new one,
/// and that segment's size matches the new geometry.
pub proof fn lemma_resize_single_pair(p: ShmPixmap, q: ShmPixmap, width: u16, height: u16, seg: ShmSegWrapper)
    requires
        p.wf(),
        spec_fits(seg, width, height),
        q == (ShmPixmap { pixmap: p.pixmap, shmseg: seg, width, height, drawable: p.drawable }),
    ensures
        q.wf(),
        q.shmseg == seg,
        q.shmseg.size == spec_frame_len(width, height),
{
}

} // verus!
