//! Buffer sizes asked of the server for a requested latency.

use vstd::prelude::*;

verus! {

/// The five buffer metrics of a connect request, in bytes.
#[derive(Clone, Copy, Debug, PartialEq, Eq, Structural)]
pub struct BufferAttr {
    pub maxlength: u32,
    pub tlength: u32,
    pub prebuf: u32,
    pub minreq: u32,
    pub fragsize: u32,
}

/// What `set_buffering_attribute` returns for a target length in bytes.
pub open spec fn buffering_for(tlength: int) -> BufferAttr {
    BufferAttr {
        maxlength: u32::MAX,
        tlength: tlength as u32,
        prebuf: u32::MAX,
        minreq: (tlength / 4) as u32,
        fragsize: (tlength / 4) as u32,
    }
}

/// Buffer metrics for `latency_frames` frames of `frame_size` bytes each.
pub fn set_buffering_attribute(latency_frames: u32, frame_size: u32) -> (battr: BufferAttr)
    requires
        latency_frames * frame_size <= u32::MAX,
    ensures
        battr == buffering_for(latency_frames * frame_size),
{
    let tlength: u32 = latency_frames * frame_size;
    let minreq: u32 = tlength / 4;
    BufferAttr { maxlength: u32::MAX, tlength, prebuf: u32::MAX, minreq, fragsize: minreq }
}

} // verus!
