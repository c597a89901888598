//! The custom I/O bridge: host callbacks behind the native callback
//! convention.
//!
//! The native library calls back with a buffer and expects an integer: the
//! number of bytes moved, the new offset, or a negative code. The host side
//! may fail or break off. What the host side did is turned into the native
//! answer here, so that no failure of the host ever reaches the native
//! library as anything but a negative code.

use vstd::prelude::*;
use crate::error::io_failure_spec;
use crate::error::ErrnoCodes;
use crate::error::RsmpegError;
use crate::error::AVERROR_EOF;
use crate::handle::Release;
use crate::handle::ResourceHandle;
use crate::handle::ResourceKind;
use crate::host::seek_cur;
use crate::host::seek_end;
use crate::host::seek_set;

verus! {

/// With this as `whence`, a seek callback reports the total size and does
/// not move.
pub const AVSEEK_SIZE: i32 = 0x10000;

/// A bit that the native library may set in `whence`; it does not change
/// where the seek goes.
pub const AVSEEK_FORCE: i32 = 0x20000;

/// What a seek is measured from.
#[derive(Debug, Clone, Copy, PartialEq, Eq, Structural)]
pub enum Whence {
    /// From the start.
    Start,
    /// From the current offset.
    Current,
    /// From the end.
    End,
    /// No seek: the total size is asked for.
    Size,
}

/// What became of one call of a host callback.
#[derive(Debug, Clone, Copy, PartialEq, Eq, Structural)]
pub enum HostOutcome {
    /// The callback returned this number: bytes moved, or the new offset.
    Done(i64),
    /// The callback reported a failure.
    Failed,
    /// The callback broke off abnormally and was caught.
    Panicked,
}

/// The meaning of the native `whence` number, or none if it has none.
pub open spec fn whence_of(whence: i32) -> Option<Whence> {
    let plain = whence & !AVSEEK_FORCE;
    if plain == AVSEEK_SIZE {
        Some(Whence::Size)
    } else if plain == 0 {
        Some(Whence::Start)
    } else if plain == 1 {
        Some(Whence::Current)
    } else if plain == 2 {
        Some(Whence::End)
    } else {
        None
    }
}

/// Reads the native `whence` number: the force bit is dropped, the size
/// request is told apart, and the rest is one of the C library's three seek
/// origins or nothing.
pub fn decode_whence(whence: i32) -> (r: Option<Whence>)
    ensures
        r == whence_of(whence),
{
    let plain = whence & !AVSEEK_FORCE;
    if plain == AVSEEK_SIZE {
        Some(Whence::Size)
    } else if plain == seek_set() {
        Some(Whence::Start)
    } else if plain == seek_cur() {
        Some(Whence::Current)
    } else if plain == seek_end() {
        Some(Whence::End)
    } else {
        None
    }
}

/// The native answer of a write callback that was asked to take `len` bytes.
pub open spec fn write_reply_spec(outcome: HostOutcome, len: i32, errno: ErrnoCodes) -> i32 {
    match outcome {
        HostOutcome::Done(n) => if 0 <= n <= len {
            n as i32
        } else {
            io_failure_spec(errno)
        },
        _ => io_failure_spec(errno),
    }
}

/// The native answer of a read callback that was asked for up to `len`
/// bytes.
pub open spec fn read_reply_spec(outcome: HostOutcome, len: i32, errno: ErrnoCodes) -> i32 {
    match outcome {
        HostOutcome::Done(n) => if n == 0 && len > 0 {
            AVERROR_EOF
        } else if 0 <= n <= len {
            n as i32
        } else {
            io_failure_spec(errno)
        },
        _ => io_failure_spec(errno),
    }
}

/// The native answer of a seek callback.
pub open spec fn seek_reply_spec(outcome: HostOutcome, errno: ErrnoCodes) -> i64 {
    match outcome {
        HostOutcome::Done(n) => if n >= 0 {
            n
        } else {
            io_failure_spec(errno) as i64
        },
        _ => io_failure_spec(errno) as i64,
    }
}

/// Turns what a write callback did into the native answer: the number of
/// bytes taken if it lies between zero and `len`, and the negative
/// input/output error code in every other case: a failure, an abnormal end,
/// or a number that cannot be a byte count.
pub fn write_reply(outcome: HostOutcome, len: i32, errno: &ErrnoCodes) -> (r: i32)
    ensures
        r == write_reply_spec(outcome, len, *errno),
        r >= 0 <==> (outcome matches HostOutcome::Done(n) && 0 <= n <= len),
        r >= 0 ==> outcome == HostOutcome::Done(r as i64),
{
    match outcome {
        HostOutcome::Done(n) => {
            if 0 <= n && n <= len as i64 {
                n as i32
            } else {
                errno.io_failure()
            }
        },
        _ => errno.io_failure(),
    }
}

/// Turns what a read callback did into the native answer: the number of
/// bytes given if it lies between one and `len`, the end-of-stream code if it
/// gave none though some were asked for, and the negative input/output error
/// code in every other case.
pub fn read_reply(outcome: HostOutcome, len: i32, errno: &ErrnoCodes) -> (r: i32)
    ensures
        r == read_reply_spec(outcome, len, *errno),
        r >= 0 <==> (outcome matches HostOutcome::Done(n) && 0 <= n <= len && (n > 0 || len
            == 0)),
        r >= 0 ==> outcome == HostOutcome::Done(r as i64),
{
    match outcome {
        HostOutcome::Done(n) => {
            if n == 0 && len > 0 {
                AVERROR_EOF
            } else if 0 <= n && n <= len as i64 {
                n as i32
            } else {
                errno.io_failure()
            }
        },
        _ => errno.io_failure(),
    }
}

/// Turns what a seek callback did into the native answer: the offset if it
/// is not negative, and the negative input/output error code in every other
/// case.
pub fn seek_reply(outcome: HostOutcome, errno: &ErrnoCodes) -> (r: i64)
    ensures
        r == seek_reply_spec(outcome, *errno),
        r >= 0 <==> (outcome matches HostOutcome::Done(n) && n >= 0),
        r >= 0 ==> outcome == HostOutcome::Done(r),
{
    match outcome {
        HostOutcome::Done(n) => {
            if n >= 0 {
                n
            } else {
                errno.io_failure() as i64
            }
        },
        _ => errno.io_failure() as i64,
    }
}

/// An I/O bridge: the native I/O context with its buffer, and the record of
/// which host callbacks stand behind it. A bridge always has a write and a
/// seek callback, and may have a read callback. The callbacks themselves live
/// with the caller, who keeps them alive as long as the bridge.
#[derive(Debug, PartialEq, Eq)]
pub struct IoBridge {
    context: ResourceHandle,
    buffer_size: usize,
    has_read: bool,
    errno: ErrnoCodes,
}

/// An I/O bridge as contracts see it.
pub struct IoBridgeView {
    pub addr: usize,
    pub buffer_size: usize,
    pub has_read: bool,
    pub errno: ErrnoCodes,
}

impl View for IoBridge {
    type V = IoBridgeView;

    closed spec fn view(&self) -> IoBridgeView {
        IoBridgeView {
            addr: self.context.addr(),
            buffer_size: self.buffer_size,
            has_read: self.has_read,
            errno: self.errno,
        }
    }
}

/// A bridge, if there is one, as contracts see it.
pub open spec fn bridge_view(bridge: Option<IoBridge>) -> Option<IoBridgeView> {
    match bridge {
        Some(b) => Some(b@),
        None => None,
    }
}

/// Whether a native buffer can have `buffer_size` bytes: at least one, and
/// no more than the native library can count.
pub open spec fn is_buffer_size(buffer_size: usize) -> bool {
    0 < buffer_size <= i32::MAX
}

impl IoBridge {
    /// The bridge owns its native context.
    #[verifier::type_invariant]
    spec fn inv(&self) -> bool {
        self.context.owning() && self.context.kind() == ResourceKind::IoContext
    }

    /// Takes over the native I/O context at `raw`, which was allocated with a
    /// buffer of `buffer_size` bytes, a write and a seek callback, and a read
    /// callback if `has_read` says so. A buffer size that is zero or beyond
    /// what the native library can count is a `UsageError`; a null address is
    /// `AllocationError`.
    pub fn new(raw: usize, buffer_size: usize, has_read: bool, errno: ErrnoCodes) -> (r: Result<
        IoBridge,
        RsmpegError,
    >)
        ensures
            !is_buffer_size(buffer_size) ==> r == Err::<IoBridge, RsmpegError>(
                RsmpegError::UsageError,
            ),
            is_buffer_size(buffer_size) && raw == 0 ==> r == Err::<IoBridge, RsmpegError>(
                RsmpegError::AllocationError,
            ),
            is_buffer_size(buffer_size) && raw != 0 ==> r is Ok && r->Ok_0@ == (IoBridgeView {
                addr: raw,
                buffer_size,
                has_read,
                errno,
            }),
    {
        if buffer_size == 0 || buffer_size > 0x7fff_ffff {
            return Err(RsmpegError::UsageError);
        }
        match ResourceHandle::acquire(ResourceKind::IoContext, raw) {
            Err(e) => Err(e),
            Ok(context) => Ok(IoBridge { context, buffer_size, has_read, errno }),
        }
    }

    /// The address of the native I/O context, for a native call.
    pub fn as_raw(&self) -> (r: usize)
        ensures
            r == self@.addr,
            r != 0,
    {
        self.context.as_raw()
    }

    /// The size of the native buffer.
    pub fn buffer_size(&self) -> (r: usize)
        ensures
            r == self@.buffer_size,
    {
        self.buffer_size
    }

    /// Whether a read callback stands behind the bridge.
    pub fn has_read(&self) -> (r: bool)
        ensures
            r == self@.has_read,
    {
        self.has_read
    }

    /// The native answer to a write request for `len` bytes, where `outcome`
    /// is what the host's write callback did. A count that is handed on is
    /// the one that the callback returned.
    pub fn on_write(&self, outcome: HostOutcome, len: i32) -> (r: i32)
        ensures
            r == write_reply_spec(outcome, len, self@.errno),
            r >= 0 ==> outcome == HostOutcome::Done(r as i64) && r <= len,
    {
        write_reply(outcome, len, &self.errno)
    }

    /// The native answer to a read request for up to `len` bytes, where
    /// `outcome` is what the host's read callback did. A bridge without a
    /// read callback answers with the input/output error code.
    pub fn on_read(&self, outcome: HostOutcome, len: i32) -> (r: i32)
        ensures
            r == (if self@.has_read {
                read_reply_spec(outcome, len, self@.errno)
            } else {
                io_failure_spec(self@.errno)
            }),
            r >= 0 ==> self@.has_read && outcome == HostOutcome::Done(r as i64) && r <= len,
    {
        if self.has_read {
            read_reply(outcome, len, &self.errno)
        } else {
            self.errno.io_failure()
        }
    }

    /// The native answer to a seek request, where `outcome` is what the
    /// host's seek callback did. An offset that is handed on is the one that
    /// the callback returned.
    pub fn on_seek(&self, outcome: HostOutcome) -> (r: i64)
        ensures
            r == seek_reply_spec(outcome, self@.errno),
            r >= 0 ==> outcome == HostOutcome::Done(r),
    {
        seek_reply(outcome, &self.errno)
    }

    /// Ends the bridge's life: the native I/O context and its buffer are to
    /// be freed.
    pub fn release(self) -> (r: Release)
        ensures
            r == (Release::Free { kind: ResourceKind::IoContext, addr: self@.addr }),
    {
        proof {
            use_type_invariant(&self);
        }
        self.context.release()
    }
}

/// A failure or an abnormal end of a host callback always reaches the native
/// library as a negative code, whichever callback it was.
pub proof fn lemma_host_failure_is_negative(outcome: HostOutcome, len: i32, errno: ErrnoCodes)
    requires
        outcome == HostOutcome::Failed || outcome == HostOutcome::Panicked,
    ensures
        write_reply_spec(outcome, len, errno) < 0,
        read_reply_spec(outcome, len, errno) < 0,
        seek_reply_spec(outcome, errno) < 0,
{
}

} // verus!
