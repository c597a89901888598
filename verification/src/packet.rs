//! Packets: compressed data with its timing.

use vstd::prelude::*;
use crate::buffer::share_spec;
use crate::buffer::BufferPool;
use crate::error::RsmpegError;
use crate::payload::Payload;

verus! {

/// The timestamp that stands for "not known".
pub const AV_NOPTS_VALUE: i64 = i64::MIN;

/// The timing and routing of a packet.
#[derive(Debug, Clone, Copy, PartialEq, Eq, Structural)]
pub struct PacketMeta {
    /// Presentation timestamp, in the stream's time base.
    pub pts: i64,
    /// Decode timestamp, in the stream's time base.
    pub dts: i64,
    /// How long the packet lasts, in the stream's time base.
    pub duration: i64,
    /// The stream that the packet belongs to.
    pub stream_index: i32,
    /// The native flags of the packet.
    pub flags: i32,
}

/// A unit of compressed data: its bytes and its timing.
#[derive(Debug, PartialEq, Eq)]
pub struct Packet {
    pub payload: Payload,
    pub meta: PacketMeta,
}

/// The timing of a packet of which nothing is known yet.
pub open spec fn blank_meta() -> PacketMeta {
    PacketMeta { pts: AV_NOPTS_VALUE, dts: AV_NOPTS_VALUE, duration: 0, stream_index: 0, flags: 0 }
}

impl Packet {
    /// A packet without data and without timing.
    pub fn blank() -> (r: Packet)
        ensures
            r.payload@ is None,
            r.meta == blank_meta(),
    {
        Packet {
            payload: Payload::blank(),
            meta: PacketMeta {
                pts: AV_NOPTS_VALUE,
                dts: AV_NOPTS_VALUE,
                duration: 0,
                stream_index: 0,
                flags: 0,
            },
        }
    }

    /// A second packet with the same timing and the same data. No byte is
    /// copied: the two packets share one buffer, whose count goes up by one.
    /// A blank packet gives a blank packet. `UsageError` if the buffer is not
    /// one that `pool` holds, `AllocationError` if the count cannot grow; the
    /// pool is then unchanged.
    pub fn share(&self, pool: &mut BufferPool) -> (r: Result<Packet, RsmpegError>)
        ensures
            r is Err ==> final(pool)@ == old(pool)@,
            r matches Ok(p) ==> p.meta == self.meta && p.payload@ == self.payload@,
            self.payload@ is None ==> r is Ok && final(pool)@ == old(pool)@,
            self.payload@ is Some && !self.payload.in_pool(old(pool)@) ==> r == Err::<
                Packet,
                RsmpegError,
            >(RsmpegError::UsageError),
            self.payload.in_pool(old(pool)@) && old(pool)@[self.payload@->Some_0].refs
                >= usize::MAX ==> r == Err::<Packet, RsmpegError>(RsmpegError::AllocationError),
            self.payload.in_pool(old(pool)@) && old(pool)@[self.payload@->Some_0].refs
                < usize::MAX ==> r is Ok && final(pool)@ == share_spec(
                old(pool)@,
                self.payload@->Some_0,
            ),
    {
        match self.payload.share(pool) {
            Ok(payload) => Ok(Packet { payload, meta: self.meta }),
            Err(e) => Err(e),
        }
    }
}

} // verus!
