//! An in-memory destination for the I/O bridge.
//!
//! The sink behaves as a file does: it has contents and an offset, a write
//! lays its bytes over the contents at the offset and moves the offset past
//! them, and a seek moves the offset. Bytes between the old end and a write
//! that starts past it are zero.

use vstd::prelude::*;
use crate::error::io_failure_spec;
use crate::io::decode_whence;
use crate::io::whence_of;
use crate::io::HostOutcome;
use crate::io::IoBridge;
use crate::io::Whence;

verus! {

/// A growable byte buffer with an offset.
#[derive(Debug, PartialEq, Eq)]
pub struct MemorySink {
    bytes: Vec<u8>,
    pos: usize,
}

/// A sink as contracts see it.
pub struct SinkView {
    pub bytes: Seq<u8>,
    pub pos: nat,
}

impl View for MemorySink {
    type V = SinkView;

    closed spec fn view(&self) -> SinkView {
        SinkView { bytes: self.bytes@, pos: self.pos as nat }
    }
}

/// The sink after `buf` was written at its offset.
pub open spec fn written(v: SinkView, buf: Seq<u8>) -> SinkView {
    let end = v.pos + buf.len();
    let len = if v.bytes.len() >= end {
        v.bytes.len()
    } else {
        end
    };
    SinkView {
        bytes: Seq::new(
            len,
            |i: int|
                if v.pos <= i < end {
                    buf[i - v.pos]
                } else if i < v.bytes.len() {
                    v.bytes[i]
                } else {
                    0u8
                },
        ),
        pos: end,
    }
}

/// The sink after the buffers of `bufs` were written one after the other.
pub open spec fn written_all(v: SinkView, bufs: Seq<Seq<u8>>) -> SinkView
    decreases bufs.len(),
{
    if bufs.len() == 0 {
        v
    } else {
        written(written_all(v, bufs.drop_last()), bufs.last())
    }
}

/// The buffers of `bufs` put end to end.
pub open spec fn concat(bufs: Seq<Seq<u8>>) -> Seq<u8>
    decreases bufs.len(),
{
    if bufs.len() == 0 {
        Seq::empty()
    } else {
        concat(bufs.drop_last()) + bufs.last()
    }
}

/// The offset that a seek by `offset` from `whence` asks for.
pub open spec fn seek_target(v: SinkView, offset: i64, whence: Whence) -> int {
    match whence {
        Whence::Start => offset as int,
        Whence::Current => v.pos + offset,
        Whence::End => v.bytes.len() + offset,
        Whence::Size => v.pos as int,
    }
}

/// Whether a seek with these arguments can be done: `whence` has a meaning,
/// and the offset asked for is neither negative nor beyond what the machine
/// can count.
pub open spec fn seek_ok(v: SinkView, offset: i64, whence: i32) -> bool {
    match whence_of(whence) {
        None => false,
        Some(Whence::Size) => true,
        Some(w) => 0 <= seek_target(v, offset, w) <= usize::MAX && seek_target(v, offset, w)
            <= i64::MAX,
    }
}

impl MemorySink {
    /// An empty sink with its offset at the start.
    pub fn new() -> (r: MemorySink)
        ensures
            r@ == (SinkView { bytes: Seq::empty(), pos: 0 }),
    {
        MemorySink { bytes: Vec::new(), pos: 0 }
    }

    /// The contents.
    pub fn contents(&self) -> (r: &Vec<u8>)
        ensures
            r@ == self@.bytes,
    {
        &self.bytes
    }

    /// The offset at which the next write starts.
    pub fn position(&self) -> (r: usize)
        ensures
            r == self@.pos,
    {
        self.pos
    }

    /// Writes `buf` at the offset and moves the offset past it. The answer is
    /// the number of bytes written, which is all of them. If the end of the
    /// write lies beyond what the machine can count, nothing is written and
    /// the answer is `Failed`.
    pub fn write(&mut self, buf: &[u8]) -> (r: HostOutcome)
        ensures
            old(self)@.pos + buf@.len() <= usize::MAX && buf@.len() <= i64::MAX ==> r
                == HostOutcome::Done(buf@.len() as i64) && final(self)@ == written(
                old(self)@,
                buf@,
            ),
            !(old(self)@.pos + buf@.len() <= usize::MAX && buf@.len() <= i64::MAX) ==> r
                == HostOutcome::Failed && final(self)@ == old(self)@,
    {
        let n = buf.len();
        if n > usize::MAX - self.pos || n as u64 > i64::MAX as u64 {
            return HostOutcome::Failed;
        }
        let ghost before = self@;
        let start = self.pos;
        while self.bytes.len() < start
            invariant
                self.pos == start,
                before.pos == start,
                before.bytes.len() <= self.bytes.len(),
                self.bytes.len() <= start || self.bytes.len() == before.bytes.len(),
                forall|i: int| 0 <= i < before.bytes.len() ==> self.bytes@[i] == before.bytes[i],
                forall|i: int| before.bytes.len() <= i < self.bytes.len() ==> self.bytes@[i] == 0u8,
            decreases start - self.bytes.len(),
        {
            self.bytes.push(0u8);
        }
        let mut i: usize = 0;
        while i < n
            invariant
                i <= n,
                n == buf@.len(),
                start + n <= usize::MAX,
                self.pos == start,
                before.pos == start,
                start <= self.bytes.len(),
                self.bytes.len() == (if before.bytes.len() >= start + i {
                    before.bytes.len()
                } else {
                    (start + i) as nat
                }),
                forall|k: int|
                    0 <= k < self.bytes.len() ==> self.bytes@[k] == (if start <= k < start + i {
                        buf@[k - start]
                    } else if k < before.bytes.len() {
                        before.bytes[k]
                    } else {
                        0u8
                    }),
            decreases n - i,
        {
            let b = buf[i];
            if start + i < self.bytes.len() {
                self.bytes.set(start + i, b);
            } else {
                self.bytes.push(b);
            }
            i = i + 1;
        }
        self.pos = start + n;
        assert(self@.bytes =~= written(before, buf@).bytes);
        HostOutcome::Done(n as i64)
    }

    /// Moves the offset, or reports the size. With a size request the answer
    /// is the length of the contents and nothing moves. Otherwise the offset
    /// becomes `offset` counted from the start, from the current offset or
    /// from the end, and the answer is the new offset. If `whence` has no
    /// meaning, or the new offset would be negative or beyond what the
    /// machine can count, nothing moves and the answer is `Failed`.
    pub fn seek(&mut self, offset: i64, whence: i32) -> (r: HostOutcome)
        ensures
            final(self)@.bytes == old(self)@.bytes,
            !seek_ok(old(self)@, offset, whence) ==> r == HostOutcome::Failed && final(self)@
                == old(self)@,
            seek_ok(old(self)@, offset, whence) && whence_of(whence) == Some(Whence::Size) ==> (
            r matches HostOutcome::Done(n) && (n == old(self)@.bytes.len() || (n == i64::MAX
                && old(self)@.bytes.len() > i64::MAX))) && final(self)@ == old(self)@,
            seek_ok(old(self)@, offset, whence) && whence_of(whence) != Some(Whence::Size) ==> r
                == HostOutcome::Done(
                seek_target(old(self)@, offset, whence_of(whence)->Some_0) as i64,
            ) && final(self)@.pos == seek_target(old(self)@, offset, whence_of(whence)->Some_0),
    {
        let base: i128 = match decode_whence(whence) {
            None => {
                return HostOutcome::Failed;
            },
            Some(Whence::Size) => {
                let len = self.bytes.len();
                if len as u64 > i64::MAX as u64 {
                    return HostOutcome::Done(i64::MAX);
                }
                return HostOutcome::Done(len as i64);
            },
            Some(Whence::Start) => 0,
            Some(Whence::Current) => self.pos as i128,
            Some(Whence::End) => self.bytes.len() as i128,
        };
        let target: i128 = base + offset as i128;
        if target < 0 || target > usize::MAX as i128 || target > i64::MAX as i128 {
            return HostOutcome::Failed;
        }
        self.pos = target as usize;
        HostOutcome::Done(target as i64)
    }

    /// Serves a write request that the native library makes through
    /// `bridge`, with this sink as the host: the bytes of `buf` are written
    /// at the offset, and the native library is answered with their number.
    /// If there are more bytes than the native library can count, or the end
    /// of the write lies beyond what the machine can count, nothing is
    /// written and the answer is the input/output error code.
    pub fn serve_write(&mut self, bridge: &IoBridge, buf: &[u8]) -> (r: i32)
        ensures
            old(self)@.pos + buf@.len() <= usize::MAX && buf@.len() <= i32::MAX ==> r
                == buf@.len() && final(self)@ == written(old(self)@, buf@),
            !(old(self)@.pos + buf@.len() <= usize::MAX && buf@.len() <= i32::MAX) ==> r
                == io_failure_spec(bridge@.errno) && final(self)@ == old(self)@,
    {
        if buf.len() > 0x7fff_ffff {
            return bridge.on_write(HostOutcome::Failed, 0);
        }
        let len = buf.len() as i32;
        let outcome = self.write(buf);
        bridge.on_write(outcome, len)
    }

    /// Serves a seek request that the native library makes through `bridge`,
    /// with this sink as the host. The answer is the new offset, or the size
    /// for a size request, or the input/output error code if the seek cannot
    /// be done; nothing moves then.
    pub fn serve_seek(&mut self, bridge: &IoBridge, offset: i64, whence: i32) -> (r: i64)
        ensures
            final(self)@.bytes == old(self)@.bytes,
            !seek_ok(old(self)@, offset, whence) ==> r == io_failure_spec(bridge@.errno) as i64
                && final(self)@ == old(self)@,
            seek_ok(old(self)@, offset, whence) && whence_of(whence) == Some(Whence::Size) ==> (r
                == old(self)@.bytes.len() || (r == i64::MAX && old(self)@.bytes.len() > i64::MAX))
                && final(self)@ == old(self)@,
            seek_ok(old(self)@, offset, whence) && whence_of(whence) != Some(Whence::Size) ==> r
                == seek_target(old(self)@, offset, whence_of(whence)->Some_0) && final(self)@.pos
                == r,
    {
        let outcome = self.seek(offset, whence);
        bridge.on_seek(outcome)
    }
}

/// A write changes nothing before its offset and nothing after its end, and
/// puts exactly its bytes in between.
pub proof fn lemma_written_bytes(v: SinkView, buf: Seq<u8>)
    ensures
        written(v, buf).pos == v.pos + buf.len(),
        written(v, buf).bytes.len() >= v.bytes.len(),
        written(v, buf).bytes.len() >= v.pos + buf.len(),
        written(v, buf).bytes.subrange(v.pos as int, (v.pos + buf.len()) as int) == buf,
        forall|i: int|
            0 <= i < v.bytes.len() && !(v.pos <= i < v.pos + buf.len()) ==> written(v, buf).bytes[i]
                == v.bytes[i],
{
    assert(written(v, buf).bytes.subrange(v.pos as int, (v.pos + buf.len()) as int) =~= buf);
}

/// Writes that follow one another without a seek, into a sink whose offset
/// is at its end, add their bytes to the contents in the order of the calls:
/// the contents are the old contents followed by the buffers put end to end,
/// and the offset stays at the end.
pub proof fn lemma_writes_append(v: SinkView, bufs: Seq<Seq<u8>>)
    requires
        v.pos == v.bytes.len(),
    ensures
        written_all(v, bufs).bytes == v.bytes + concat(bufs),
        written_all(v, bufs).pos == written_all(v, bufs).bytes.len(),
    decreases bufs.len(),
{
    if bufs.len() == 0 {
        assert(v.bytes + concat(bufs) =~= v.bytes);
    } else {
        let init = bufs.drop_last();
        lemma_writes_append(v, init);
        let mid = written_all(v, init);
        assert(written(mid, bufs.last()).bytes =~= mid.bytes + bufs.last());
        assert((v.bytes + concat(init)) + bufs.last() =~= v.bytes + (concat(init) + bufs.last()));
    }
}

/// What a new sink holds after a run of writes is the bytes that were passed
/// to the write callback, put end to end in the order of the calls.
pub proof fn lemma_writes_concatenate(bufs: Seq<Seq<u8>>)
    ensures
        written_all(SinkView { bytes: Seq::empty(), pos: 0 }, bufs).bytes == concat(bufs),
{
    let v = SinkView { bytes: Seq::empty(), pos: 0 };
    lemma_writes_append(v, bufs);
    assert(v.bytes + concat(bufs) =~= concat(bufs));
}

} // verus!
