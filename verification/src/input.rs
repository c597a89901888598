//! The input container: streams and packets in container order.
//!
//! The native demuxer is driven from outside this crate. Each method here
//! takes what the native call returned and decides what it means.

use vstd::prelude::*;
use crate::error::RsmpegError;
use crate::error::AVERROR_EOF;
use crate::handle::Release;
use crate::handle::ResourceHandle;
use crate::handle::ResourceKind;
use crate::io::bridge_view;
use crate::io::IoBridge;
use crate::io::IoBridgeView;
use crate::stream::MediaType;
use crate::stream::Stream;
use crate::stream::StreamInfo;
use crate::stream::StreamView;

verus! {

/// How a packet read ended when it did not fail.
#[derive(Debug, Clone, Copy, PartialEq, Eq, Structural)]
pub enum ReadStatus {
    /// The next packet was read.
    Packet,
    /// The container has no more packets.
    EndOfStream,
}

/// An input container. If its bytes come from an I/O bridge, the container
/// owns the bridge: the bridge lives as long as the container, and so through
/// every native call on the container that may reach its callbacks.
#[derive(Debug, PartialEq, Eq)]
pub struct InputContainer {
    handle: ResourceHandle,
    bridge: Option<IoBridge>,
    streams: Vec<Stream>,
    exhausted: bool,
}

/// An input container as contracts see it.
pub struct InputView {
    pub addr: usize,
    /// The bridge that the bytes come from, if they do not come from a file.
    pub bridge: Option<IoBridgeView>,
    pub streams: Seq<StreamView>,
    /// Whether a read has reached the end of the container.
    pub exhausted: bool,
}

/// A container that could not be opened: why, and the bridge that was
/// offered for it, which goes back to the caller.
#[derive(Debug, PartialEq, Eq)]
pub struct OpenFailure {
    pub error: RsmpegError,
    pub bridge: Option<IoBridge>,
}

/// What is left when an input container's life ends.
#[derive(Debug, PartialEq, Eq)]
pub struct ClosedInput {
    /// The native container, which is to be closed and freed first.
    pub container: Release,
    /// The bridge that the container owned, which is to be released after
    /// the container.
    pub bridge: Option<IoBridge>,
}

/// Whether `bridge` can feed an input container: it is no bridge at all, or
/// one with a read callback.
pub open spec fn can_feed(bridge: Option<IoBridgeView>) -> bool {
    bridge matches Some(b) ==> b.has_read
}

/// The descriptors of the streams that the native library reported, in its
/// order: each stream's index is its position.
pub open spec fn probed(infos: Seq<StreamInfo>) -> Seq<StreamView> {
    Seq::new(
        infos.len(),
        |i: int|
            StreamView {
                addr: infos[i].addr,
                index: i as nat,
                time_base: infos[i].time_base,
                codecpar: infos[i].codecpar,
            },
    )
}

/// Whether every stream that the native library reported has an address.
pub open spec fn all_present(infos: Seq<StreamInfo>) -> bool {
    forall|i: int| 0 <= i < infos.len() ==> (#[trigger] infos[i]).addr != 0
}

/// Whether the stream at `index` exists and carries `media_type`.
pub open spec fn is_stream_of(streams: Seq<StreamView>, index: int, media_type: MediaType) -> bool {
    0 <= index < streams.len() && streams[index].codecpar.media_type == media_type
}

/// What the selection of a stream comes to, where the native library
/// answered `code` and gave the decoder at `decoder`: the stream and its
/// decoder if the answer names a stream of the kind asked for and a decoder
/// was found, else `NoStreamFound`.
pub open spec fn best_stream_spec(
    streams: Seq<StreamView>,
    media_type: MediaType,
    code: i32,
    decoder: usize,
) -> Result<(usize, usize), RsmpegError> {
    if is_stream_of(streams, code as int, media_type) && decoder != 0 {
        Ok((code as usize, decoder))
    } else {
        Err(RsmpegError::NoStreamFound)
    }
}

impl View for InputContainer {
    type V = InputView;

    closed spec fn view(&self) -> InputView {
        InputView {
            addr: self.handle.addr(),
            bridge: bridge_view(self.bridge),
            streams: Seq::new(self.streams.len() as nat, |i: int| self.streams[i]@),
            exhausted: self.exhausted,
        }
    }
}

impl InputContainer {
    /// The container owns its native object.
    #[verifier::type_invariant]
    spec fn inv(&self) -> bool {
        self.handle.owning() && self.handle.kind() == ResourceKind::Container
    }

    /// Takes over the container that the native library opened and probed:
    /// `code` is what opening returned, `raw` the address it gave, and
    /// `infos` what it found of each stream. With a bridge the container's
    /// bytes come from the bridge, which the container owns from now on;
    /// without one they come from a file. A bridge without a read callback is
    /// a `UsageError`; a negative code is `OpenError`; a null address, of the
    /// container or of a stream, is `AllocationError`. On each of these the
    /// bridge is handed back.
    pub fn open(code: i32, raw: usize, infos: &Vec<StreamInfo>, bridge: Option<IoBridge>) -> (r:
        Result<InputContainer, OpenFailure>)
        ensures
            r matches Err(failure) ==> failure.bridge == bridge,
            !can_feed(bridge_view(bridge)) ==> r is Err && r->Err_0.error
                == RsmpegError::UsageError,
            can_feed(bridge_view(bridge)) && code < 0 ==> r is Err && r->Err_0.error == (
            RsmpegError::OpenError { code }),
            can_feed(bridge_view(bridge)) && code >= 0 && (raw == 0 || !all_present(infos@)) ==> r
                is Err && r->Err_0.error == RsmpegError::AllocationError,
            can_feed(bridge_view(bridge)) && code >= 0 && raw != 0 && all_present(infos@) ==> r
                is Ok && r->Ok_0@ == (InputView {
                addr: raw,
                bridge: bridge_view(bridge),
                streams: probed(infos@),
                exhausted: false,
            }),
    {
        let fed = match &bridge {
            Some(b) => b.has_read(),
            None => true,
        };
        if !fed {
            return Err(OpenFailure { error: RsmpegError::UsageError, bridge });
        }
        if code < 0 {
            return Err(OpenFailure { error: RsmpegError::OpenError { code }, bridge });
        }
        let handle = match ResourceHandle::acquire(ResourceKind::Container, raw) {
            Err(error) => {
                return Err(OpenFailure { error, bridge });
            },
            Ok(handle) => handle,
        };
        let mut streams: Vec<Stream> = Vec::new();
        let mut i: usize = 0;
        while i < infos.len()
            invariant
                i <= infos.len(),
                streams.len() == i,
                code >= 0,
                raw != 0,
                can_feed(bridge_view(bridge)),
                handle.addr() == raw,
                handle.owning(),
                handle.kind() == ResourceKind::Container,
                forall|k: int| 0 <= k < i ==> (#[trigger] infos@[k]).addr != 0,
                forall|k: int| 0 <= k < i ==> (#[trigger] streams[k])@ == probed(infos@)[k],
            decreases infos.len() - i,
        {
            match Stream::new(&handle, i, infos[i]) {
                None => {
                    assert(infos@[i as int].addr == 0);
                    return Err(OpenFailure { error: RsmpegError::AllocationError, bridge });
                },
                Some(stream) => {
                    streams.push(stream);
                },
            }
            i = i + 1;
        }
        let c = InputContainer { handle, bridge, streams, exhausted: false };
        assert(c@.streams =~= probed(infos@));
        Ok(c)
    }

    /// The address of the native container, for a native call.
    pub fn as_raw(&self) -> (r: usize)
        ensures
            r == self@.addr,
            r != 0,
    {
        self.handle.as_raw()
    }

    /// The number of streams.
    pub fn nb_streams(&self) -> (r: usize)
        ensures
            r == self@.streams.len(),
    {
        self.streams.len()
    }

    /// The stream at `index`, or none if there is no such stream.
    pub fn stream(&self, index: usize) -> (r: Option<&Stream>)
        ensures
            index < self@.streams.len() ==> r is Some && r->Some_0@ == self@.streams[index as int],
            index >= self@.streams.len() ==> r is None,
    {
        if index < self.streams.len() {
            Some(&self.streams[index])
        } else {
            None
        }
    }

    /// Whether a read has reached the end of the container.
    pub fn is_exhausted(&self) -> (r: bool)
        ensures
            r == self@.exhausted,
    {
        self.exhausted
    }

    /// Whether some stream carries `media_type`. If none does, no selection
    /// can succeed and the native library need not be asked.
    pub fn has_stream_of(&self, media_type: MediaType) -> (r: bool)
        ensures
            r == exists|i: int| is_stream_of(self@.streams, i, media_type),
    {
        let mut i: usize = 0;
        while i < self.streams.len()
            invariant
                i <= self.streams.len(),
                forall|k: int| 0 <= k < i ==> !is_stream_of(self@.streams, k, media_type),
            decreases self.streams.len() - i,
        {
            if self.streams[i].codecpar().media_type == media_type {
                assert(is_stream_of(self@.streams, i as int, media_type));
                return true;
            }
            i = i + 1;
        }
        false
    }

    /// Takes the native library's choice of the best stream of `media_type`:
    /// `code` is the index it returned, or a negative code, and `decoder` the
    /// address of the decoder it found for the stream. The answer is the
    /// stream's index and the decoder. `NoStreamFound` if the code is
    /// negative, names no stream of this container, names a stream of
    /// another kind, or no decoder came with it.
    pub fn find_best_stream(&self, media_type: MediaType, code: i32, decoder: usize) -> (r: Result<
        (usize, usize),
        RsmpegError,
    >)
        ensures
            r == best_stream_spec(self@.streams, media_type, code, decoder),
            r matches Ok(found) ==> is_stream_of(self@.streams, found.0 as int, media_type)
                && found.1 != 0,
    {
        if code < 0 || decoder == 0 {
            return Err(RsmpegError::NoStreamFound);
        }
        let index = code as usize;
        if index >= self.streams.len() {
            return Err(RsmpegError::NoStreamFound);
        }
        if self.streams[index].codecpar().media_type == media_type {
            Ok((index, decoder))
        } else {
            Err(RsmpegError::NoStreamFound)
        }
    }

    /// Records that the next packet was asked for, with return code `code`.
    /// The end-of-stream code means that the container has no more packets:
    /// the answer is `EndOfStream`, which is no error. Any other negative code
    /// is a `NativeError`. Otherwise a packet was read.
    pub fn read_packet(&mut self, code: i32, message: String) -> (r: Result<
        ReadStatus,
        RsmpegError,
    >)
        ensures
            final(self)@ == (InputView {
                exhausted: old(self)@.exhausted || code == AVERROR_EOF,
                ..old(self)@
            }),
            code >= 0 ==> r == Ok::<ReadStatus, RsmpegError>(ReadStatus::Packet),
            code == AVERROR_EOF ==> r == Ok::<ReadStatus, RsmpegError>(ReadStatus::EndOfStream),
            code < 0 && code != AVERROR_EOF ==> r == Err::<ReadStatus, RsmpegError>(
                RsmpegError::NativeError { code, message },
            ),
    {
        proof {
            use_type_invariant(&*self);
        }
        if code >= 0 {
            Ok(ReadStatus::Packet)
        } else if code == AVERROR_EOF {
            self.exhausted = true;
            Ok(ReadStatus::EndOfStream)
        } else {
            Err(RsmpegError::NativeError { code, message })
        }
    }

    /// The bridge that the container's bytes come from, if they do not come
    /// from a file.
    pub fn bridge(&self) -> (r: Option<&IoBridge>)
        ensures
            self@.bridge is Some ==> r is Some && r->Some_0@ == self@.bridge->Some_0,
            self@.bridge is None ==> r is None,
    {
        self.bridge.as_ref()
    }

    /// Ends the container's life. The native container is to be closed and
    /// freed; the bridge, if the container owned one, is handed back to be
    /// released after that.
    pub fn release(self) -> (r: ClosedInput)
        ensures
            r.container == (Release::Free { kind: ResourceKind::Container, addr: self@.addr }),
            bridge_view(r.bridge) == self@.bridge,
    {
        proof {
            use_type_invariant(&self);
        }
        let InputContainer { handle, bridge, .. } = self;
        ClosedInput { container: handle.release(), bridge }
    }
}

} // verus!
