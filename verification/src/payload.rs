//! Payloads: the bytes of a packet or a frame, in a buffer that may be
//! shared.

use vstd::prelude::*;
use crate::buffer::allocate_spec;
use crate::buffer::first_free;
use crate::buffer::live;
use crate::buffer::make_writable_spec;
use crate::buffer::overlay;
use crate::buffer::share_spec;
use crate::buffer::unref_spec;
use crate::buffer::writable_slot;
use crate::buffer::write_spec;
use crate::buffer::BufferPool;
use crate::buffer::BufferRef;
use crate::buffer::SlotView;
use crate::error::RsmpegError;

verus! {

/// The bytes of one unit of media: a reference to a buffer of a pool, which
/// other payloads may share, or nothing. A payload cannot be copied: a second
/// payload with the same bytes is made by `share`, which counts it.
#[derive(Debug, PartialEq, Eq)]
pub struct Payload {
    buf: Option<BufferRef>,
}

impl View for Payload {
    type V = Option<int>;

    /// The slot of the payload's buffer, if it has one.
    closed spec fn view(&self) -> Option<int> {
        match self.buf {
            Some(b) => Some(b.slot()),
            None => None,
        }
    }
}

impl Payload {
    /// Whether the payload has bytes, in a buffer that `pool` holds.
    pub open spec fn in_pool(&self, pool: Seq<SlotView>) -> bool {
        self@ matches Some(s) && live(pool, s)
    }

    /// A payload without bytes.
    pub fn blank() -> (r: Payload)
        ensures
            r@ is None,
    {
        Payload { buf: None }
    }

    /// A payload that holds `data` in a new buffer of `pool`, which no other
    /// payload names.
    pub fn new(pool: &mut BufferPool, data: Vec<u8>) -> (r: Payload)
        ensures
            r@ == Some(first_free(old(pool)@)),
            final(pool)@ == allocate_spec(old(pool)@, data@),
            r.in_pool(final(pool)@),
            final(pool)@[r@->Some_0].data == data@,
            final(pool)@[r@->Some_0].refs == 1,
    {
        let buf = pool.allocate(data);
        Payload { buf: Some(buf) }
    }

    /// Whether the payload has no bytes.
    pub fn is_blank(&self) -> (r: bool)
        ensures
            r == (self@ is None),
    {
        self.buf.is_none()
    }

    /// The bytes, or none if the payload is blank or its buffer is not one
    /// that `pool` holds.
    pub fn data<'a>(&self, pool: &'a BufferPool) -> (r: Option<&'a Vec<u8>>)
        ensures
            self.in_pool(pool@) ==> r is Some && r->Some_0@ == pool@[self@->Some_0].data,
            !self.in_pool(pool@) ==> r is None,
    {
        match &self.buf {
            Some(b) => pool.data(b),
            None => None,
        }
    }

    /// A second payload with the same bytes. No byte is copied: the two
    /// payloads share one buffer, whose count goes up by one. A blank payload
    /// gives a blank payload. `UsageError` if the buffer is not
    /// one that `pool` holds, `AllocationError` if the count cannot grow; the
    /// pool is then unchanged.
    pub fn share(&self, pool: &mut BufferPool) -> (r: Result<Payload, RsmpegError>)
        ensures
            self@ is None ==> r is Ok && r->Ok_0@ == self@ && final(pool)@ == old(pool)@,
            self@ is Some && !self.in_pool(old(pool)@) ==> r == Err::<Payload, RsmpegError>(
                RsmpegError::UsageError,
            ),
            self.in_pool(old(pool)@) && old(pool)@[self@->Some_0].refs >= usize::MAX ==> r
                == Err::<Payload, RsmpegError>(RsmpegError::AllocationError),
            self.in_pool(old(pool)@) && old(pool)@[self@->Some_0].refs < usize::MAX ==> r
                is Ok && r->Ok_0@ == self@ && final(pool)@ == share_spec(
                old(pool)@,
                self@->Some_0,
            ),
            r is Err ==> final(pool)@ == old(pool)@,
    {
        match &self.buf {
            None => Ok(Payload { buf: None }),
            Some(b) => {
                match pool.share(b) {
                    Ok(b2) => Ok(Payload { buf: Some(b2) }),
                    Err(e) => Err(e),
                }
            },
        }
    }

    /// Whether the payload is the only one that names its buffer, so that
    /// its bytes can be changed in place.
    pub fn is_writable(&self, pool: &BufferPool) -> (r: bool)
        ensures
            r == (self.in_pool(pool@) && pool@[self@->Some_0].refs == 1),
    {
        match &self.buf {
            Some(b) => pool.is_writable(b),
            None => false,
        }
    }

    /// Makes the payload the only one that names its bytes: if the buffer is
    /// shared, the payload moves to a private copy and the other payloads
    /// keep the old buffer. The answer says whether a copy was made.
    /// `UsageError` if the payload has no bytes in `pool`; nothing changes
    /// then.
    pub fn make_writable(&mut self, pool: &mut BufferPool) -> (r: Result<bool, RsmpegError>)
        ensures
            !old(self).in_pool(old(pool)@) ==> r == Err::<bool, RsmpegError>(
                RsmpegError::UsageError,
            ) && final(pool)@ == old(pool)@ && final(self)@ == old(self)@,
            old(self).in_pool(old(pool)@) ==> {
                let s = old(self)@->Some_0;
                &&& r == Ok::<bool, RsmpegError>(old(pool)@[s].refs > 1)
                &&& final(pool)@ == make_writable_spec(old(pool)@, s)
                &&& final(self)@ == Some(writable_slot(old(pool)@, s))
                &&& final(self).in_pool(final(pool)@)
                &&& final(pool)@[final(self)@->Some_0].refs == 1
                &&& final(pool)@[final(self)@->Some_0].data == old(pool)@[s].data
            },
    {
        match &mut self.buf {
            Some(b) => pool.make_writable(b),
            None => Err(RsmpegError::UsageError),
        }
    }

    /// Writes `patch` over the bytes from `offset` on. A payload that shares
    /// its buffer first moves to a private copy, so no other payload sees the
    /// change. `UsageError` if the payload has no bytes in `pool` or the
    /// patch would not fit; nothing changes then.
    pub fn write(&mut self, pool: &mut BufferPool, offset: usize, patch: &[u8]) -> (r: Result<
        (),
        RsmpegError,
    >)
        ensures
            r is Ok <==> old(self).in_pool(old(pool)@) && offset + patch@.len() <= old(
                pool,
            )@[old(self)@->Some_0].data.len(),
            r is Err ==> r == Err::<(), RsmpegError>(RsmpegError::UsageError) && final(pool)@
                == old(pool)@ && final(self)@ == old(self)@,
            r is Ok ==> {
                let s = old(self)@->Some_0;
                &&& final(pool)@ == write_spec(old(pool)@, s, offset as int, patch@)
                &&& final(self)@ == Some(writable_slot(old(pool)@, s))
                &&& final(self).in_pool(final(pool)@)
                &&& final(pool)@[final(self)@->Some_0].refs == 1
                &&& final(pool)@[final(self)@->Some_0].data == overlay(
                    old(pool)@[s].data,
                    offset as int,
                    patch@,
                )
            },
    {
        match &mut self.buf {
            Some(b) => pool.write(b, offset, patch),
            None => Err(RsmpegError::UsageError),
        }
    }

    /// Gives the bytes back to the pool and leaves the payload blank. The
    /// buffer is freed if this payload was the last to name it, and the
    /// answer says whether it was. A blank payload answers `Ok(false)`.
    /// `UsageError` if the buffer is not one that `pool` holds; the pool is
    /// then unchanged, and the payload is blank all the same.
    pub fn unref(&mut self, pool: &mut BufferPool) -> (r: Result<bool, RsmpegError>)
        ensures
            final(self)@ is None,
            old(self)@ is None ==> r == Ok::<bool, RsmpegError>(false) && final(pool)@ == old(
                pool,
            )@,
            old(self)@ is Some && !old(self).in_pool(old(pool)@) ==> r == Err::<
                bool,
                RsmpegError,
            >(RsmpegError::UsageError) && final(pool)@ == old(pool)@,
            old(self).in_pool(old(pool)@) ==> r == Ok::<bool, RsmpegError>(
                old(pool)@[old(self)@->Some_0].refs == 1,
            ) && final(pool)@ == unref_spec(old(pool)@, old(self)@->Some_0),
    {
        match self.buf.take() {
            Some(b) => pool.unref(b),
            None => Ok(false),
        }
    }
}

} // verus!
