//! Frames: decoded pixels or samples with their format.

use vstd::prelude::*;
use crate::buffer::share_spec;
use crate::buffer::BufferPool;
use crate::error::RsmpegError;
use crate::packet::AV_NOPTS_VALUE;
use crate::payload::Payload;

verus! {

/// The native number that stands for "no format".
pub const FORMAT_NONE: i32 = -1;

/// The format and timing of a frame.
#[derive(Debug, Clone, Copy, PartialEq, Eq, Structural)]
pub struct FrameMeta {
    /// The native number of the pixel or sample format.
    pub format: i32,
    /// Width in pixels; zero for audio.
    pub width: i32,
    /// Height in pixels; zero for audio.
    pub height: i32,
    /// Samples per channel; zero for video.
    pub nb_samples: i32,
    /// Presentation timestamp, in the stream's time base.
    pub pts: i64,
    /// Decode timestamp of the packet that gave the frame.
    pub pkt_dts: i64,
}

/// A unit of decoded data: its bytes and its format.
#[derive(Debug, PartialEq, Eq)]
pub struct Frame {
    pub payload: Payload,
    pub meta: FrameMeta,
}

/// The format of a frame of which nothing is known yet.
pub open spec fn blank_frame_meta() -> FrameMeta {
    FrameMeta {
        format: FORMAT_NONE,
        width: 0,
        height: 0,
        nb_samples: 0,
        pts: AV_NOPTS_VALUE,
        pkt_dts: AV_NOPTS_VALUE,
    }
}

impl Frame {
    /// A frame without data and without format.
    pub fn blank() -> (r: Frame)
        ensures
            r.payload@ is None,
            r.meta == blank_frame_meta(),
    {
        Frame {
            payload: Payload::blank(),
            meta: FrameMeta {
                format: FORMAT_NONE,
                width: 0,
                height: 0,
                nb_samples: 0,
                pts: AV_NOPTS_VALUE,
                pkt_dts: AV_NOPTS_VALUE,
            },
        }
    }

    /// A second frame with the same format and the same data. No byte is
    /// copied: the two frames share one buffer, whose count goes up by one.
    /// A blank frame gives a blank frame. `UsageError` if the buffer is not
    /// one that `pool` holds, `AllocationError` if the count cannot grow; the
    /// pool is then unchanged.
    pub fn share(&self, pool: &mut BufferPool) -> (r: Result<Frame, RsmpegError>)
        ensures
            r is Err ==> final(pool)@ == old(pool)@,
            r matches Ok(p) ==> p.meta == self.meta && p.payload@ == self.payload@,
            self.payload@ is None ==> r is Ok && final(pool)@ == old(pool)@,
            self.payload@ is Some && !self.payload.in_pool(old(pool)@) ==> r == Err::<
                Frame,
                RsmpegError,
            >(RsmpegError::UsageError),
            self.payload.in_pool(old(pool)@) && old(pool)@[self.payload@->Some_0].refs
                >= usize::MAX ==> r == Err::<Frame, RsmpegError>(RsmpegError::AllocationError),
            self.payload.in_pool(old(pool)@) && old(pool)@[self.payload@->Some_0].refs
                < usize::MAX ==> r is Ok && final(pool)@ == share_spec(
                old(pool)@,
                self.payload@->Some_0,
            ),
    {
        match self.payload.share(pool) {
            Ok(payload) => Ok(Frame { payload, meta: self.meta }),
            Err(e) => Err(e),
        }
    }
}

} // verus!
