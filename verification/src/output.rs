//! The output container: its life from creation to trailer.
//!
//! The native muxer is driven from outside this crate. Each method here takes
//! what the native call returned and decides what it means: whether the call
//! was allowed at all in the container's state, which error comes back, and
//! which state follows. `admits` tells beforehand whether a call is allowed,
//! so that the native call is only made when it is.

use vstd::prelude::*;
use crate::error::averror;
use crate::error::native_result;
use crate::error::ErrnoCodes;
use crate::error::RsmpegError;
use crate::handle::Release;
use crate::handle::ResourceHandle;
use crate::handle::ResourceKind;
use crate::io::bridge_view;
use crate::io::IoBridge;
use crate::io::IoBridgeView;
use crate::packet::Packet;
use crate::stream::CodecParameters;
use crate::stream::MediaType;
use crate::stream::Rational;
use crate::stream::Stream;
use crate::stream::StreamInfo;
use crate::stream::StreamView;

verus! {

/// Where an output container is in its life.
#[derive(Debug, Clone, Copy, PartialEq, Eq, Structural)]
pub enum MuxState {
    /// Streams may be added; the header is not written yet.
    HeaderPending,
    /// The header is written; packets may be written.
    HeaderWritten,
    /// The trailer is written; the file is complete.
    TrailerWritten,
    /// Writing the header, a packet or the trailer failed; the file is
    /// incomplete and nothing more can be written.
    Failed,
}

/// Where the bytes of an output container go.
#[derive(Debug, Clone, Copy, PartialEq, Eq, Structural)]
pub enum IoTarget {
    /// A file that the native library opens by itself.
    File,
    /// An I/O bridge with host callbacks.
    Bridge,
}

/// How a packet write ended when it did not fail.
#[derive(Debug, Clone, Copy, PartialEq, Eq, Structural)]
pub enum WriteStatus {
    /// The packet was taken.
    Written,
    /// The native library refused the packet's time ordering. The packet is
    /// dropped, and the container can go on.
    TimeOrderRejected,
}

/// A call on an output container, before the native library is asked.
#[derive(Debug, Clone, Copy, PartialEq, Eq, Structural)]
pub enum MuxCall {
    NewStream,
    SetStream { index: usize },
    WriteHeader,
    WritePacket { stream_index: i32 },
    WriteTrailer,
}

/// A call on an output container together with what the native library
/// returned for it.
#[derive(Debug, Clone, Copy, PartialEq, Eq, Structural)]
pub enum MuxEvent {
    /// A stream was asked for; `addr` is its address, null if none was made.
    NewStream { addr: usize },
    /// The header was written, with this return code.
    WriteHeader { code: i32 },
    /// A packet for this stream was written, with this return code.
    WritePacket { stream_index: i32, code: i32 },
    /// The trailer was written, with this return code.
    WriteTrailer { code: i32 },
}

/// An output container. If its bytes go to an I/O bridge, the container owns
/// the bridge: the bridge lives as long as the container, and so through
/// every native call on the container that may reach its callbacks.
#[derive(Debug, PartialEq, Eq)]
pub struct OutputContainer {
    handle: ResourceHandle,
    bridge: Option<IoBridge>,
    errno: ErrnoCodes,
    state: MuxState,
    streams: Vec<Stream>,
}

/// An output container as contracts see it.
pub struct OutputView {
    pub addr: usize,
    /// The bridge that the bytes go to, if they do not go to a file.
    pub bridge: Option<IoBridgeView>,
    pub errno: ErrnoCodes,
    pub state: MuxState,
    pub streams: Seq<StreamView>,
}

/// A container that could not be made: why, and the bridge that was offered
/// for it, which goes back to the caller.
#[derive(Debug, PartialEq, Eq)]
pub struct CreateFailure {
    pub error: RsmpegError,
    pub bridge: Option<IoBridge>,
}

/// What is left when a container's life ends.
#[derive(Debug, PartialEq, Eq)]
pub struct Closed {
    /// The native container, which is to be freed first.
    pub container: Release,
    /// The bridge that the container owned, which is to be released after
    /// the container.
    pub bridge: Option<IoBridge>,
    /// Whether the file is complete.
    pub complete: bool,
}

/// Where the bytes of a container in state `v` go.
pub open spec fn target_of(v: OutputView) -> IoTarget {
    if v.bridge is Some {
        IoTarget::Bridge
    } else {
        IoTarget::File
    }
}

/// The parameters of a stream that was just added.
pub open spec fn fresh_codecpar() -> CodecParameters {
    CodecParameters {
        media_type: MediaType::Other,
        codec_id: 0,
        format: -1i32,
        width: 0,
        height: 0,
        sample_rate: 0,
    }
}

/// The descriptor of a stream that was just added at `index`.
pub open spec fn fresh_stream(addr: usize, index: nat) -> StreamView {
    StreamView { addr, index, time_base: Rational { num: 0, den: 1 }, codecpar: fresh_codecpar() }
}

/// The call that `ev` reports.
pub open spec fn call_of(ev: MuxEvent) -> MuxCall {
    match ev {
        MuxEvent::NewStream { .. } => MuxCall::NewStream,
        MuxEvent::WriteHeader { .. } => MuxCall::WriteHeader,
        MuxEvent::WritePacket { stream_index, .. } => MuxCall::WritePacket { stream_index },
        MuxEvent::WriteTrailer { .. } => MuxCall::WriteTrailer,
    }
}

/// Whether `call` is allowed on a container in state `v`.
///
/// Streams are added and set up only before the header. The header needs at
/// least one stream and is written once. A packet needs the header, no
/// trailer yet, and a stream of the container to go to. The trailer needs the
/// header and is written once.
pub open spec fn mux_admits(v: OutputView, call: MuxCall) -> bool {
    match call {
        MuxCall::NewStream => v.state == MuxState::HeaderPending,
        MuxCall::SetStream { index } => v.state == MuxState::HeaderPending && index
            < v.streams.len(),
        MuxCall::WriteHeader => v.state == MuxState::HeaderPending && v.streams.len() > 0,
        MuxCall::WritePacket { stream_index } => v.state == MuxState::HeaderWritten && 0
            <= stream_index < v.streams.len(),
        MuxCall::WriteTrailer => v.state == MuxState::HeaderWritten,
    }
}

/// The container after `ev`. A call that is not allowed changes nothing.
pub open spec fn mux_next(v: OutputView, ev: MuxEvent) -> OutputView {
    if !mux_admits(v, call_of(ev)) {
        v
    } else {
        match ev {
            MuxEvent::NewStream { addr } => if addr == 0 {
                v
            } else {
                OutputView { streams: v.streams.push(fresh_stream(addr, v.streams.len())), ..v }
            },
            MuxEvent::WriteHeader { code } => OutputView {
                state: if code >= 0 {
                    MuxState::HeaderWritten
                } else {
                    MuxState::Failed
                },
                ..v
            },
            MuxEvent::WritePacket { .. } => if mux_succeeds(v, ev) {
                v
            } else {
                OutputView { state: MuxState::Failed, ..v }
            },
            MuxEvent::WriteTrailer { code } => OutputView {
                state: if code >= 0 {
                    MuxState::TrailerWritten
                } else {
                    MuxState::Failed
                },
                ..v
            },
        }
    }
}

/// Whether the call that `ev` reports succeeds on a container in state `v`.
pub open spec fn mux_succeeds(v: OutputView, ev: MuxEvent) -> bool {
    mux_admits(v, call_of(ev)) && match ev {
        MuxEvent::NewStream { addr } => addr != 0,
        MuxEvent::WriteHeader { code } => code >= 0,
        MuxEvent::WritePacket { code, .. } => code >= 0 || code as int == averror(
            v.errno.invalid as int,
        ),
        MuxEvent::WriteTrailer { code } => code >= 0,
    }
}

/// The container after the events of `evs`, in order.
pub open spec fn mux_run(v: OutputView, evs: Seq<MuxEvent>) -> OutputView
    decreases evs.len(),
{
    if evs.len() == 0 {
        v
    } else {
        mux_next(mux_run(v, evs.drop_last()), evs.last())
    }
}

impl View for OutputContainer {
    type V = OutputView;

    closed spec fn view(&self) -> OutputView {
        OutputView {
            addr: self.handle.addr(),
            bridge: bridge_view(self.bridge),
            errno: self.errno,
            state: self.state,
            streams: Seq::new(self.streams.len() as nat, |i: int| self.streams[i]@),
        }
    }
}

impl OutputContainer {
    /// The container owns its native object.
    #[verifier::type_invariant]
    spec fn inv(&self) -> bool {
        self.handle.owning() && self.handle.kind() == ResourceKind::Container
    }

    /// Takes over the container that the native library allocated: `code` is
    /// what the allocation returned and `raw` the address it gave. With a
    /// bridge the container's bytes go to the bridge, which the container
    /// owns from now on; without one they go to a file. A negative code is
    /// `OpenError`, a null address `AllocationError`; the bridge is then
    /// handed back. The new container has no streams and waits for its
    /// header.
    pub fn create(code: i32, raw: usize, bridge: Option<IoBridge>, errno: ErrnoCodes) -> (r: Result<
        OutputContainer,
        CreateFailure,
    >)
        ensures
            code < 0 ==> r is Err && r->Err_0.error == (RsmpegError::OpenError { code }),
            code >= 0 && raw == 0 ==> r is Err && r->Err_0.error == RsmpegError::AllocationError,
            r matches Err(failure) ==> failure.bridge == bridge,
            code >= 0 && raw != 0 ==> r is Ok && r->Ok_0@ == (OutputView {
                addr: raw,
                bridge: bridge_view(bridge),
                errno,
                state: MuxState::HeaderPending,
                streams: Seq::empty(),
            }),
    {
        if code < 0 {
            return Err(CreateFailure { error: RsmpegError::OpenError { code }, bridge });
        }
        match ResourceHandle::acquire(ResourceKind::Container, raw) {
            Err(error) => Err(CreateFailure { error, bridge }),
            Ok(handle) => {
                let c = OutputContainer {
                    handle,
                    bridge,
                    errno,
                    state: MuxState::HeaderPending,
                    streams: Vec::new(),
                };
                assert(c@.streams =~= Seq::empty());
                Ok(c)
            },
        }
    }

    /// The address of the native container, for a native call.
    pub fn as_raw(&self) -> (r: usize)
        ensures
            r == self@.addr,
            r != 0,
    {
        self.handle.as_raw()
    }

    /// Where the container is in its life.
    pub fn state(&self) -> (r: MuxState)
        ensures
            r == self@.state,
    {
        self.state
    }

    /// Where the container's bytes go.
    pub fn io_target(&self) -> (r: IoTarget)
        ensures
            r == target_of(self@),
    {
        match &self.bridge {
            Some(_) => IoTarget::Bridge,
            None => IoTarget::File,
        }
    }

    /// The bridge that the container's bytes go to, if they do not go to a
    /// file.
    pub fn bridge(&self) -> (r: Option<&IoBridge>)
        ensures
            self@.bridge is Some ==> r is Some && r->Some_0@ == self@.bridge->Some_0,
            self@.bridge is None ==> r is None,
    {
        self.bridge.as_ref()
    }

    /// The number of streams.
    pub fn nb_streams(&self) -> (r: usize)
        ensures
            r == self@.streams.len(),
    {
        self.streams.len()
    }

    /// The stream at `index`, or none if there is no such stream.
    pub fn stream(&self, index: usize) -> (r: Option<&Stream>)
        ensures
            index < self@.streams.len() ==> r is Some && r->Some_0@ == self@.streams[index as int],
            index >= self@.streams.len() ==> r is None,
    {
        if index < self.streams.len() {
            Some(&self.streams[index])
        } else {
            None
        }
    }

    /// Whether the file is complete: header, packets and trailer are written.
    pub fn is_complete(&self) -> (r: bool)
        ensures
            r == (self@.state == MuxState::TrailerWritten),
    {
        match self.state {
            MuxState::TrailerWritten => true,
            _ => false,
        }
    }

    /// Whether `call` is allowed now. The native call behind it is to be made
    /// only if it is.
    pub fn admits(&self, call: MuxCall) -> (r: bool)
        ensures
            r == mux_admits(self@, call),
    {
        let pending = match self.state {
            MuxState::HeaderPending => true,
            _ => false,
        };
        let written = match self.state {
            MuxState::HeaderWritten => true,
            _ => false,
        };
        match call {
            MuxCall::NewStream => pending,
            MuxCall::SetStream { index } => pending && index < self.streams.len(),
            MuxCall::WriteHeader => pending && self.streams.len() > 0,
            MuxCall::WritePacket { stream_index } => written && stream_index >= 0
                && (stream_index as usize) < self.streams.len(),
            MuxCall::WriteTrailer => written,
        }
    }

    /// Adds the stream that the native library made at address `raw`, and
    /// returns its index, which is the number of streams before. `UsageError`
    /// once the header was attempted, `AllocationError` for a null address;
    /// nothing changes then.
    pub fn new_stream(&mut self, raw: usize) -> (r: Result<usize, RsmpegError>)
        ensures
            final(self)@ == mux_next(old(self)@, MuxEvent::NewStream { addr: raw }),
            !mux_admits(old(self)@, MuxCall::NewStream) ==> r == Err::<usize, RsmpegError>(
                RsmpegError::UsageError,
            ),
            mux_admits(old(self)@, MuxCall::NewStream) && raw == 0 ==> r == Err::<
                usize,
                RsmpegError,
            >(RsmpegError::AllocationError),
            mux_admits(old(self)@, MuxCall::NewStream) && raw != 0 ==> r == Ok::<
                usize,
                RsmpegError,
            >(old(self)@.streams.len() as usize),
    {
        proof {
            use_type_invariant(&*self);
        }
        if !self.admits(MuxCall::NewStream) {
            return Err(RsmpegError::UsageError);
        }
        let index = self.streams.len();
        let info = StreamInfo {
            addr: raw,
            time_base: Rational { num: 0, den: 1 },
            codecpar: CodecParameters {
                media_type: MediaType::Other,
                codec_id: 0,
                format: -1,
                width: 0,
                height: 0,
                sample_rate: 0,
            },
        };
        match Stream::new(&self.handle, index, info) {
            None => Err(RsmpegError::AllocationError),
            Some(stream) => {
                let ghost before = self@;
                let mut streams: Vec<Stream> = Vec::new();
                core::mem::swap(&mut self.streams, &mut streams);
                streams.push(stream);
                core::mem::swap(&mut self.streams, &mut streams);
                assert(self@.streams =~= before.streams.push(fresh_stream(raw, index as nat)));
                Ok(index)
            },
        }
    }

    /// Sets the codec parameters of the stream at `index`. `UsageError` once
    /// the header was attempted or if there is no such stream; nothing
    /// changes then.
    pub fn set_codecpar(&mut self, index: usize, codecpar: CodecParameters) -> (r: Result<
        (),
        RsmpegError,
    >)
        ensures
            !mux_admits(old(self)@, MuxCall::SetStream { index }) ==> r == Err::<(), RsmpegError>(
                RsmpegError::UsageError,
            ) && final(self)@ == old(self)@,
            mux_admits(old(self)@, MuxCall::SetStream { index }) ==> r == Ok::<(), RsmpegError>(())
                && final(self)@ == (OutputView {
                streams: old(self)@.streams.update(
                    index as int,
                    StreamView { codecpar, ..old(self)@.streams[index as int] },
                ),
                ..old(self)@
            }),
    {
        proof {
            use_type_invariant(&*self);
        }
        if !self.admits(MuxCall::SetStream { index }) {
            return Err(RsmpegError::UsageError);
        }
        let ghost before = self@;
        self.streams[index].set_codecpar(codecpar);
        assert(self@.streams =~= before.streams.update(
            index as int,
            StreamView { codecpar, ..before.streams[index as int] },
        ));
        Ok(())
    }

    /// Sets the time base of the stream at `index`. `UsageError` once the
    /// header was attempted or if there is no such stream; nothing changes
    /// then.
    pub fn set_time_base(&mut self, index: usize, time_base: Rational) -> (r: Result<
        (),
        RsmpegError,
    >)
        ensures
            !mux_admits(old(self)@, MuxCall::SetStream { index }) ==> r == Err::<(), RsmpegError>(
                RsmpegError::UsageError,
            ) && final(self)@ == old(self)@,
            mux_admits(old(self)@, MuxCall::SetStream { index }) ==> r == Ok::<(), RsmpegError>(())
                && final(self)@ == (OutputView {
                streams: old(self)@.streams.update(
                    index as int,
                    StreamView { time_base, ..old(self)@.streams[index as int] },
                ),
                ..old(self)@
            }),
    {
        proof {
            use_type_invariant(&*self);
        }
        if !self.admits(MuxCall::SetStream { index }) {
            return Err(RsmpegError::UsageError);
        }
        let ghost before = self@;
        self.streams[index].set_time_base(time_base);
        assert(self@.streams =~= before.streams.update(
            index as int,
            StreamView { time_base, ..before.streams[index as int] },
        ));
        Ok(())
    }

    /// Records that the header was written with return code `code`.
    /// `UsageError` if the header was attempted before or there is no stream;
    /// nothing changes then. A negative code is a `NativeError` and the
    /// container has failed; otherwise packets may be written from now on.
    pub fn write_header(&mut self, code: i32, message: String) -> (r: Result<(), RsmpegError>)
        ensures
            final(self)@ == mux_next(old(self)@, MuxEvent::WriteHeader { code }),
            !mux_admits(old(self)@, MuxCall::WriteHeader) ==> r == Err::<(), RsmpegError>(
                RsmpegError::UsageError,
            ),
            mux_admits(old(self)@, MuxCall::WriteHeader) ==> r == native_result(code, message, ()),
    {
        proof {
            use_type_invariant(&*self);
        }
        if !self.admits(MuxCall::WriteHeader) {
            return Err(RsmpegError::UsageError);
        }
        if code >= 0 {
            self.state = MuxState::HeaderWritten;
            Ok(())
        } else {
            self.state = MuxState::Failed;
            Err(RsmpegError::NativeError { code, message })
        }
    }

    /// Records that `packet` was handed to the interleaving writer, which
    /// returned `code`. `UsageError` before the header, after the trailer, or
    /// if the packet names no stream of this container; nothing changes
    /// then. The native code for "invalid argument" means that the packet's
    /// time ordering was refused: it is reported as `TimeOrderRejected`, not
    /// as an error, and the container goes on. Any other negative code is
    /// fatal: it is a `NativeError`, and the container has failed.
    pub fn interleaved_write_frame(&mut self, packet: &Packet, code: i32, message: String) -> (r:
        Result<WriteStatus, RsmpegError>)
        ensures
            final(self)@ == mux_next(
                old(self)@,
                MuxEvent::WritePacket { stream_index: packet.meta.stream_index, code },
            ),
            r is Ok <==> mux_succeeds(
                old(self)@,
                MuxEvent::WritePacket { stream_index: packet.meta.stream_index, code },
            ),
            r is Ok ==> final(self)@ == old(self)@,
            !mux_admits(
                old(self)@,
                MuxCall::WritePacket { stream_index: packet.meta.stream_index },
            ) ==> r == Err::<WriteStatus, RsmpegError>(RsmpegError::UsageError) && final(self)@
                == old(self)@,
            mux_admits(old(self)@, MuxCall::WritePacket { stream_index: packet.meta.stream_index })
                ==> r == (if code >= 0 {
                Ok::<WriteStatus, RsmpegError>(WriteStatus::Written)
            } else if code as int == averror(old(self)@.errno.invalid as int) {
                Ok::<WriteStatus, RsmpegError>(WriteStatus::TimeOrderRejected)
            } else {
                Err::<WriteStatus, RsmpegError>(RsmpegError::NativeError { code, message })
            }),
    {
        proof {
            use_type_invariant(&*self);
        }
        if !self.admits(MuxCall::WritePacket { stream_index: packet.meta.stream_index }) {
            return Err(RsmpegError::UsageError);
        }
        if code >= 0 {
            Ok(WriteStatus::Written)
        } else if self.errno.is_invalid(code) {
            Ok(WriteStatus::TimeOrderRejected)
        } else {
            self.state = MuxState::Failed;
            Err(RsmpegError::NativeError { code, message })
        }
    }

    /// Records that the trailer was written with return code `code`.
    /// `UsageError` without a written header or after an earlier trailer;
    /// nothing changes then. A negative code is a `NativeError` and the
    /// container has failed; otherwise the file is complete.
    pub fn write_trailer(&mut self, code: i32, message: String) -> (r: Result<(), RsmpegError>)
        ensures
            final(self)@ == mux_next(old(self)@, MuxEvent::WriteTrailer { code }),
            !mux_admits(old(self)@, MuxCall::WriteTrailer) ==> r == Err::<(), RsmpegError>(
                RsmpegError::UsageError,
            ),
            mux_admits(old(self)@, MuxCall::WriteTrailer) ==> r == native_result(code, message, ()),
    {
        proof {
            use_type_invariant(&*self);
        }
        if !self.admits(MuxCall::WriteTrailer) {
            return Err(RsmpegError::UsageError);
        }
        if code >= 0 {
            self.state = MuxState::TrailerWritten;
            Ok(())
        } else {
            self.state = MuxState::Failed;
            Err(RsmpegError::NativeError { code, message })
        }
    }

    /// Ends the container's life. The native container is to be freed; the
    /// bridge, if the container owned one, is handed back to be released
    /// after that. The answer also says whether the file is complete.
    pub fn release(self) -> (r: Closed)
        ensures
            r.container == (Release::Free { kind: ResourceKind::Container, addr: self@.addr }),
            bridge_view(r.bridge) == self@.bridge,
            r.complete == (self@.state == MuxState::TrailerWritten),
    {
        proof {
            use_type_invariant(&self);
        }
        let complete = self.is_complete();
        let OutputContainer { handle, bridge, .. } = self;
        Closed { container: handle.release(), bridge, complete }
    }
}

/// Whether `ev` is a header write that the native library accepted.
pub open spec fn is_header_success(ev: MuxEvent) -> bool {
    ev matches MuxEvent::WriteHeader { code } && code >= 0
}

/// Without a successful header write the container keeps waiting for its
/// header or has failed, whatever else is called on it.
pub proof fn lemma_no_header_no_progress(v: OutputView, evs: Seq<MuxEvent>)
    requires
        v.state == MuxState::HeaderPending,
        forall|i: int| 0 <= i < evs.len() ==> !is_header_success(#[trigger] evs[i]),
    ensures
        mux_run(v, evs).state == MuxState::HeaderPending || mux_run(v, evs).state
            == MuxState::Failed,
    decreases evs.len(),
{
    if evs.len() > 0 {
        let init = evs.drop_last();
        assert forall|i: int| 0 <= i < init.len() implies !is_header_success(
            #[trigger] init[i],
        ) by {
            assert(init[i] == evs[i]);
        }
        lemma_no_header_no_progress(v, init);
        assert(!is_header_success(evs[evs.len() - 1]));
    }
}

/// Writing the trailer of a container whose header was never written with
/// success fails with `UsageError`, whatever was called on the container in
/// between and whatever the native library would return.
pub proof fn lemma_trailer_needs_header(v: OutputView, evs: Seq<MuxEvent>, code: i32)
    requires
        v.state == MuxState::HeaderPending,
        forall|i: int| 0 <= i < evs.len() ==> !is_header_success(#[trigger] evs[i]),
    ensures
        !mux_admits(mux_run(v, evs), MuxCall::WriteTrailer),
        !mux_succeeds(mux_run(v, evs), MuxEvent::WriteTrailer { code }),
        mux_next(mux_run(v, evs), MuxEvent::WriteTrailer { code }) == mux_run(v, evs),
{
    lemma_no_header_no_progress(v, evs);
}

/// A container whose trailer was written, or that has failed, admits no call
/// ever again.
pub proof fn lemma_finished_is_final(v: OutputView, evs: Seq<MuxEvent>, call: MuxCall)
    requires
        v.state == MuxState::TrailerWritten || v.state == MuxState::Failed,
    ensures
        mux_run(v, evs) == v,
        !mux_admits(mux_run(v, evs), call),
    decreases evs.len(),
{
    if evs.len() > 0 {
        lemma_finished_is_final(v, evs.drop_last(), call);
    }
}

/// A packet is written with success only between a successful header write
/// and the trailer: at a point where a packet write succeeds, the state is
/// `HeaderWritten`, and so some earlier event was a successful header write.
pub proof fn lemma_packet_needs_header(v: OutputView, evs: Seq<MuxEvent>, ev: MuxEvent)
    requires
        v.state == MuxState::HeaderPending,
        ev is WritePacket,
        mux_succeeds(mux_run(v, evs), ev),
    ensures
        exists|i: int| 0 <= i < evs.len() && is_header_success(#[trigger] evs[i]),
{
    if forall|i: int| 0 <= i < evs.len() ==> !is_header_success(#[trigger] evs[i]) {
        lemma_no_header_no_progress(v, evs);
    }
}

/// Header and trailer are each written at most once: after an event that
/// wrote either with success, no later header write and, after the trailer,
/// no later trailer write is admitted.
pub proof fn lemma_header_and_trailer_once(v: OutputView, ev: MuxEvent, later: Seq<MuxEvent>)
    requires
        mux_succeeds(v, ev),
        ev is WriteHeader || ev is WriteTrailer,
    ensures
        !mux_admits(mux_run(mux_next(v, ev), later), MuxCall::WriteHeader),
        ev is WriteTrailer ==> !mux_admits(mux_run(mux_next(v, ev), later), MuxCall::WriteTrailer),
{
    let start = mux_next(v, ev);
    if ev is WriteTrailer {
        lemma_finished_is_final(start, later, MuxCall::WriteHeader);
    } else {
        lemma_header_stays_written(start, later);
    }
}

/// Once the header is written, the container never waits for a header again.
pub proof fn lemma_header_stays_written(v: OutputView, evs: Seq<MuxEvent>)
    requires
        v.state != MuxState::HeaderPending,
    ensures
        mux_run(v, evs).state != MuxState::HeaderPending,
    decreases evs.len(),
{
    if evs.len() > 0 {
        lemma_header_stays_written(v, evs.drop_last());
    }
}

/// Each stream's index is its position: this holds of a new container and is
/// kept by every event.
pub proof fn lemma_stream_indices(v: OutputView, evs: Seq<MuxEvent>)
    requires
        forall|i: int| 0 <= i < v.streams.len() ==> (#[trigger] v.streams[i]).index == i,
    ensures
        forall|i: int|
            0 <= i < mux_run(v, evs).streams.len() ==> (#[trigger] mux_run(
                v,
                evs,
            ).streams[i]).index == i,
    decreases evs.len(),
{
    if evs.len() > 0 {
        lemma_stream_indices(v, evs.drop_last());
    }
}

} // verus!
