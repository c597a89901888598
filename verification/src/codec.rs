//! The codec context: submit, drain, flush.
//!
//! A codec takes units in (packets when it decodes, frames when it encodes)
//! and gives units out, possibly later and possibly several at once. After
//! each submission the caller drains until the codec says that it has no
//! more for now, and only then submits again; after the end-of-stream unit
//! the caller drains until the codec says that it has no more at all. The
//! native codec is driven from outside this crate: each method here takes
//! what the native call returned and decides what it means and which state
//! follows.

use vstd::prelude::*;
use crate::error::check_drain_spec;
use crate::error::class_of;
use crate::error::classify;
use crate::error::native_result;
use crate::error::CodeClass;
use crate::error::ErrnoCodes;
use crate::error::RsmpegError;
use crate::handle::Release;
use crate::handle::ResourceHandle;
use crate::handle::ResourceKind;
use crate::stream::CodecParameters;
use crate::stream::MediaType;
use crate::stream::Rational;

verus! {

/// The capability bit of a codec that holds units back and gives them out
/// late, so that it must be flushed at the end.
pub const AV_CODEC_CAP_DELAY: i32 = 32;

/// The container-format flag that asks for stream headers apart from the
/// packets.
pub const AVFMT_GLOBALHEADER: i32 = 64;

/// The codec flag that puts stream headers apart from the packets.
pub const AV_CODEC_FLAG_GLOBAL_HEADER: i32 = 4194304;

/// Which way a codec context works.
#[derive(Debug, Clone, Copy, PartialEq, Eq, Structural)]
pub enum Direction {
    /// Packets in, frames out.
    Decode,
    /// Frames in, packets out.
    Encode,
}

/// Where a codec context is in its life.
#[derive(Debug, Clone, Copy, PartialEq, Eq, Structural)]
pub enum CodecState {
    /// Allocated and being configured.
    Created,
    /// Open: units may be submitted and drained.
    Opened,
    /// The end-of-stream unit was submitted: what is left may be drained.
    Draining,
    /// The codec has given out everything. Nothing more can be done.
    Flushed,
}

/// A call on a codec context, before the native library is asked.
#[derive(Debug, Clone, Copy, PartialEq, Eq, Structural)]
pub enum CodecCall {
    /// A change of the settings.
    Configure,
    /// Opening the codec.
    Open,
    /// Submitting a unit, or the end-of-stream unit.
    Send { end_of_stream: bool },
    /// Asking for the next unit that the codec has ready.
    Receive,
}

/// A call on a codec context together with the native return code for it.
#[derive(Debug, Clone, Copy, PartialEq, Eq, Structural)]
pub enum CodecEvent {
    Open { code: i32 },
    Send { end_of_stream: bool, code: i32 },
    Receive { code: i32 },
}

/// How a drain call ended.
#[derive(Debug, Clone, Copy, PartialEq, Eq, Structural)]
pub enum Drained {
    /// The call was not allowed in the context's state.
    Refused,
    /// A unit came out.
    Unit,
    /// Nothing for now: more input is needed.
    Exhausted,
    /// Nothing ever again.
    Flushed,
    /// The native codec failed.
    Failed,
}

/// What the next step of a drain loop is.
#[derive(Debug, PartialEq, Eq)]
pub enum DrainStep {
    /// A unit came out: hand it on and drain again.
    Deliver,
    /// The codec has nothing more for now or for ever: leave the loop without
    /// an error.
    Stop,
    /// The loop ends with this error.
    Fail(RsmpegError),
}

/// Whether the end-of-stream unit has to be submitted at the end.
#[derive(Debug, Clone, Copy, PartialEq, Eq, Structural)]
pub enum FlushPlan {
    /// The codec holds nothing back: there is nothing to flush.
    Skip,
    /// Submit the end-of-stream unit and drain.
    Submit,
}

/// What a codec is set up with before it is opened.
#[derive(Debug, Clone, Copy, PartialEq, Eq, Structural)]
pub struct CodecSettings {
    pub media_type: MediaType,
    pub codec_id: i32,
    pub format: i32,
    pub width: i32,
    pub height: i32,
    pub sample_rate: i32,
    pub bit_rate: i64,
    pub gop_size: i32,
    pub time_base: Rational,
    pub framerate: Rational,
    pub flags: i32,
}

/// A codec context.
#[derive(Debug, PartialEq, Eq)]
pub struct CodecContext {
    handle: ResourceHandle,
    direction: Direction,
    capabilities: i32,
    errno: ErrnoCodes,
    state: CodecState,
    undrained: bool,
    settings: CodecSettings,
}

/// A codec context as contracts see it.
pub struct CodecView {
    pub addr: usize,
    pub direction: Direction,
    pub capabilities: i32,
    pub errno: ErrnoCodes,
    pub state: CodecState,
    /// Whether a unit was submitted and the codec has not yet said that it
    /// has no more for now.
    pub undrained: bool,
    pub settings: CodecSettings,
}

/// The settings of a context that was just allocated for the codec `codec_id`.
pub open spec fn fresh_settings(codec_id: i32) -> CodecSettings {
    CodecSettings {
        media_type: MediaType::Other,
        codec_id,
        format: -1i32,
        width: 0,
        height: 0,
        sample_rate: 0,
        bit_rate: 0,
        gop_size: 0,
        time_base: Rational { num: 0, den: 1 },
        framerate: Rational { num: 0, den: 1 },
        flags: 0,
    }
}

/// `settings` with what `par` says of the stream.
pub open spec fn with_codecpar(settings: CodecSettings, par: CodecParameters) -> CodecSettings {
    CodecSettings {
        media_type: par.media_type,
        codec_id: par.codec_id,
        format: par.format,
        width: par.width,
        height: par.height,
        sample_rate: par.sample_rate,
        ..settings
    }
}

/// What `settings` says of the stream.
pub open spec fn codecpar_of(settings: CodecSettings) -> CodecParameters {
    CodecParameters {
        media_type: settings.media_type,
        codec_id: settings.codec_id,
        format: settings.format,
        width: settings.width,
        height: settings.height,
        sample_rate: settings.sample_rate,
    }
}

/// The call that `ev` reports.
pub open spec fn codec_call_of(ev: CodecEvent) -> CodecCall {
    match ev {
        CodecEvent::Open { .. } => CodecCall::Open,
        CodecEvent::Send { end_of_stream, .. } => CodecCall::Send { end_of_stream },
        CodecEvent::Receive { .. } => CodecCall::Receive,
    }
}

/// Whether `call` is allowed on a context in state `v`.
///
/// A context is configured and opened while it is new. A unit is submitted
/// while the context is open, the end-of-stream unit was not submitted, and
/// what the last submission gave was drained to the end. Units are drained
/// while the context is open or draining. Once flushed, nothing is allowed.
pub open spec fn codec_admits(v: CodecView, call: CodecCall) -> bool {
    match call {
        CodecCall::Configure => v.state == CodecState::Created,
        CodecCall::Open => v.state == CodecState::Created,
        CodecCall::Send { .. } => v.state == CodecState::Opened && !v.undrained,
        CodecCall::Receive => v.state == CodecState::Opened || v.state == CodecState::Draining,
    }
}

/// How a drain call with the native return code `code` ends on a context in
/// state `v`.
pub open spec fn drained(v: CodecView, code: i32) -> Drained {
    if !codec_admits(v, CodecCall::Receive) {
        Drained::Refused
    } else {
        match class_of(code as int, v.errno.again as int) {
            CodeClass::Success => Drained::Unit,
            CodeClass::Again => Drained::Exhausted,
            CodeClass::EndOfStream => Drained::Flushed,
            CodeClass::Failure => Drained::Failed,
        }
    }
}

/// Whether the call that `ev` reports succeeds on a context in state `v`.
/// For a drain call, success is that a unit came out.
pub open spec fn codec_succeeds(v: CodecView, ev: CodecEvent) -> bool {
    codec_admits(v, codec_call_of(ev)) && match ev {
        CodecEvent::Open { code } => code >= 0,
        CodecEvent::Send { code, .. } => code >= 0,
        CodecEvent::Receive { code } => drained(v, code) == Drained::Unit,
    }
}

/// The context after `ev`. A call that is not allowed, or that fails,
/// changes nothing.
pub open spec fn codec_next(v: CodecView, ev: CodecEvent) -> CodecView {
    if !codec_admits(v, codec_call_of(ev)) {
        v
    } else {
        match ev {
            CodecEvent::Open { code } => if code >= 0 {
                CodecView { state: CodecState::Opened, ..v }
            } else {
                v
            },
            CodecEvent::Send { end_of_stream, code } => if code < 0 {
                v
            } else if end_of_stream {
                CodecView { state: CodecState::Draining, undrained: true, ..v }
            } else {
                CodecView { undrained: true, ..v }
            },
            CodecEvent::Receive { code } => match drained(v, code) {
                Drained::Exhausted => CodecView { undrained: false, ..v },
                Drained::Flushed => CodecView { state: CodecState::Flushed, undrained: false, ..v },
                _ => v,
            },
        }
    }
}

/// The context after the events of `evs`, in order.
pub open spec fn codec_run(v: CodecView, evs: Seq<CodecEvent>) -> CodecView
    decreases evs.len(),
{
    if evs.len() == 0 {
        v
    } else {
        codec_next(codec_run(v, evs.drop_last()), evs.last())
    }
}

/// Whether the event at position `k` of `evs`, run from `v`, is a drain call
/// that ends as `how`.
pub open spec fn drained_at(v: CodecView, evs: Seq<CodecEvent>, k: int, how: Drained) -> bool {
    &&& 0 <= k < evs.len()
    &&& evs[k] matches CodecEvent::Receive { code }
    &&& drained(codec_run(v, evs.take(k)), code) == how
}

/// What the next step of a drain loop is after a drain call returned `r`.
pub open spec fn drain_step_spec(r: Result<(), RsmpegError>) -> DrainStep {
    match r {
        Ok(_) => DrainStep::Deliver,
        Err(RsmpegError::DrainExhausted) => DrainStep::Stop,
        Err(RsmpegError::Flushed) => DrainStep::Stop,
        Err(e) => DrainStep::Fail(e),
    }
}

/// Decides how a drain loop goes on after a drain call: a unit is delivered,
/// "no more for now" and "no more ever" end the loop without an error, and
/// everything else ends it with that error.
pub fn drain_step(r: Result<(), RsmpegError>) -> (step: DrainStep)
    ensures
        step == drain_step_spec(r),
{
    match r {
        Ok(_) => DrainStep::Deliver,
        Err(RsmpegError::DrainExhausted) => DrainStep::Stop,
        Err(RsmpegError::Flushed) => DrainStep::Stop,
        Err(e) => DrainStep::Fail(e),
    }
}

impl View for CodecContext {
    type V = CodecView;

    closed spec fn view(&self) -> CodecView {
        CodecView {
            addr: self.handle.addr(),
            direction: self.direction,
            capabilities: self.capabilities,
            errno: self.errno,
            state: self.state,
            undrained: self.undrained,
            settings: self.settings,
        }
    }
}

impl CodecContext {
    /// The context owns its native object.
    #[verifier::type_invariant]
    spec fn inv(&self) -> bool {
        self.handle.owning() && self.handle.kind() == ResourceKind::CodecContext
    }

    /// Takes over the codec context that the native library allocated at
    /// `raw` for the codec `codec_id` with the given capability bits. A null
    /// address is `AllocationError`. The new context is not open yet.
    pub fn new(
        raw: usize,
        direction: Direction,
        codec_id: i32,
        capabilities: i32,
        errno: ErrnoCodes,
    ) -> (r: Result<CodecContext, RsmpegError>)
        ensures
            raw == 0 ==> r == Err::<CodecContext, RsmpegError>(RsmpegError::AllocationError),
            raw != 0 ==> r is Ok && r->Ok_0@ == (CodecView {
                addr: raw,
                direction,
                capabilities,
                errno,
                state: CodecState::Created,
                undrained: false,
                settings: fresh_settings(codec_id),
            }),
    {
        match ResourceHandle::acquire(ResourceKind::CodecContext, raw) {
            Err(e) => Err(e),
            Ok(handle) => Ok(
                CodecContext {
                    handle,
                    direction,
                    capabilities,
                    errno,
                    state: CodecState::Created,
                    undrained: false,
                    settings: CodecSettings {
                        media_type: MediaType::Other,
                        codec_id,
                        format: -1,
                        width: 0,
                        height: 0,
                        sample_rate: 0,
                        bit_rate: 0,
                        gop_size: 0,
                        time_base: Rational { num: 0, den: 1 },
                        framerate: Rational { num: 0, den: 1 },
                        flags: 0,
                    },
                },
            ),
        }
    }

    /// The address of the native context, for a native call.
    pub fn as_raw(&self) -> (r: usize)
        ensures
            r == self@.addr,
            r != 0,
    {
        self.handle.as_raw()
    }

    /// Where the context is in its life.
    pub fn state(&self) -> (r: CodecState)
        ensures
            r == self@.state,
    {
        self.state
    }

    /// Whether a unit was submitted and the codec has not yet said that it
    /// has no more for now. While this holds, nothing can be submitted.
    pub fn needs_drain(&self) -> (r: bool)
        ensures
            r == self@.undrained,
    {
        self.undrained
    }

    /// Which way the context works.
    pub fn direction(&self) -> (r: Direction)
        ensures
            r == self@.direction,
    {
        self.direction
    }

    /// What the context is set up with.
    pub fn settings(&self) -> (r: CodecSettings)
        ensures
            r == self@.settings,
    {
        self.settings
    }

    /// Whether `call` is allowed now. The native call behind it is to be made
    /// only if it is.
    pub fn admits(&self, call: CodecCall) -> (r: bool)
        ensures
            r == codec_admits(self@, call),
    {
        match call {
            CodecCall::Configure => match self.state {
                CodecState::Created => true,
                _ => false,
            },
            CodecCall::Open => match self.state {
                CodecState::Created => true,
                _ => false,
            },
            CodecCall::Send { .. } => match self.state {
                CodecState::Opened => !self.undrained,
                _ => false,
            },
            CodecCall::Receive => match self.state {
                CodecState::Opened => true,
                CodecState::Draining => true,
                _ => false,
            },
        }
    }

    fn is_decoder(&self) -> (r: bool)
        ensures
            r == (self@.direction == Direction::Decode),
    {
        match self.direction {
            Direction::Decode => true,
            Direction::Encode => false,
        }
    }

    /// Replaces the settings. `UsageError` once the context is open; nothing
    /// changes then.
    pub fn configure(&mut self, settings: CodecSettings) -> (r: Result<(), RsmpegError>)
        ensures
            !codec_admits(old(self)@, CodecCall::Configure) ==> r == Err::<(), RsmpegError>(
                RsmpegError::UsageError,
            ) && final(self)@ == old(self)@,
            codec_admits(old(self)@, CodecCall::Configure) ==> r == Ok::<(), RsmpegError>(())
                && final(self)@ == (CodecView { settings, ..old(self)@ }),
    {
        proof {
            use_type_invariant(&*self);
        }
        if !self.admits(CodecCall::Configure) {
            return Err(RsmpegError::UsageError);
        }
        self.settings = settings;
        Ok(())
    }

    /// Takes over what `par` says of a stream and keeps the other settings.
    /// `UsageError` once the context is open; nothing changes then.
    pub fn apply_codecpar(&mut self, par: &CodecParameters) -> (r: Result<(), RsmpegError>)
        ensures
            !codec_admits(old(self)@, CodecCall::Configure) ==> r == Err::<(), RsmpegError>(
                RsmpegError::UsageError,
            ) && final(self)@ == old(self)@,
            codec_admits(old(self)@, CodecCall::Configure) ==> r == Ok::<(), RsmpegError>(())
                && final(self)@ == (CodecView {
                settings: with_codecpar(old(self)@.settings, *par),
                ..old(self)@
            }),
    {
        proof {
            use_type_invariant(&*self);
        }
        if !self.admits(CodecCall::Configure) {
            return Err(RsmpegError::UsageError);
        }
        let s = self.settings;
        self.settings = CodecSettings {
            media_type: par.media_type,
            codec_id: par.codec_id,
            format: par.format,
            width: par.width,
            height: par.height,
            sample_rate: par.sample_rate,
            bit_rate: s.bit_rate,
            gop_size: s.gop_size,
            time_base: s.time_base,
            framerate: s.framerate,
            flags: s.flags,
        };
        Ok(())
    }

    /// The stream parameters that the settings amount to, for a stream of an
    /// output container.
    pub fn extract_codecpar(&self) -> (r: CodecParameters)
        ensures
            r == codecpar_of(self@.settings),
    {
        CodecParameters {
            media_type: self.settings.media_type,
            codec_id: self.settings.codec_id,
            format: self.settings.format,
            width: self.settings.width,
            height: self.settings.height,
            sample_rate: self.settings.sample_rate,
        }
    }

    /// Sets the global-header flag if the container format, by its flags,
    /// wants stream headers apart from the packets; else changes nothing.
    /// `UsageError` once the context is open; nothing changes then.
    pub fn negotiate_global_header(&mut self, format_flags: i32) -> (r: Result<(), RsmpegError>)
        ensures
            !codec_admits(old(self)@, CodecCall::Configure) ==> r == Err::<(), RsmpegError>(
                RsmpegError::UsageError,
            ) && final(self)@ == old(self)@,
            codec_admits(old(self)@, CodecCall::Configure) ==> r == Ok::<(), RsmpegError>(())
                && final(self)@ == (CodecView {
                settings: CodecSettings {
                    flags: if format_flags & AVFMT_GLOBALHEADER != 0 {
                        old(self)@.settings.flags | AV_CODEC_FLAG_GLOBAL_HEADER
                    } else {
                        old(self)@.settings.flags
                    },
                    ..old(self)@.settings
                },
                ..old(self)@
            }),
    {
        proof {
            use_type_invariant(&*self);
        }
        if !self.admits(CodecCall::Configure) {
            return Err(RsmpegError::UsageError);
        }
        if format_flags & AVFMT_GLOBALHEADER != 0 {
            self.settings.flags = self.settings.flags | AV_CODEC_FLAG_GLOBAL_HEADER;
        }
        Ok(())
    }

    /// Records that the codec was opened with return code `code`.
    /// `UsageError` if the context is not new; a negative code is
    /// `CodecOpenError` and the context stays new; otherwise it is open.
    pub fn open(&mut self, code: i32) -> (r: Result<(), RsmpegError>)
        ensures
            final(self)@ == codec_next(old(self)@, CodecEvent::Open { code }),
            !codec_admits(old(self)@, CodecCall::Open) ==> r == Err::<(), RsmpegError>(
                RsmpegError::UsageError,
            ),
            codec_admits(old(self)@, CodecCall::Open) && code < 0 ==> r == Err::<
                (),
                RsmpegError,
            >(RsmpegError::CodecOpenError { code }),
            codec_admits(old(self)@, CodecCall::Open) && code >= 0 ==> r == Ok::<
                (),
                RsmpegError,
            >(()),
    {
        proof {
            use_type_invariant(&*self);
        }
        if !self.admits(CodecCall::Open) {
            return Err(RsmpegError::UsageError);
        }
        if code < 0 {
            return Err(RsmpegError::CodecOpenError { code });
        }
        self.state = CodecState::Opened;
        Ok(())
    }

    fn send(&mut self, end_of_stream: bool, code: i32, message: String) -> (r: Result<
        (),
        RsmpegError,
    >)
        ensures
            final(self)@ == codec_next(old(self)@, CodecEvent::Send { end_of_stream, code }),
            !codec_admits(old(self)@, CodecCall::Send { end_of_stream }) ==> r == Err::<
                (),
                RsmpegError,
            >(RsmpegError::UsageError),
            codec_admits(old(self)@, CodecCall::Send { end_of_stream }) ==> r
                == native_result(code, message, ()),
    {
        proof {
            use_type_invariant(&*self);
        }
        if !self.admits(CodecCall::Send { end_of_stream }) {
            return Err(RsmpegError::UsageError);
        }
        if code < 0 {
            return Err(RsmpegError::NativeError { code, message });
        }
        if end_of_stream {
            self.state = CodecState::Draining;
        }
        self.undrained = true;
        Ok(())
    }

    fn receive(&mut self, code: i32, message: String) -> (r: Result<(), RsmpegError>)
        ensures
            final(self)@ == codec_next(old(self)@, CodecEvent::Receive { code }),
            !codec_admits(old(self)@, CodecCall::Receive) ==> r == Err::<(), RsmpegError>(
                RsmpegError::UsageError,
            ),
            codec_admits(old(self)@, CodecCall::Receive) ==> r == unit_of(
                check_drain_spec(code, message, old(self)@.errno),
            ),
    {
        proof {
            use_type_invariant(&*self);
        }
        if !self.admits(CodecCall::Receive) {
            return Err(RsmpegError::UsageError);
        }
        match classify(code, &self.errno) {
            CodeClass::Success => Ok(()),
            CodeClass::Again => {
                self.undrained = false;
                Err(RsmpegError::DrainExhausted)
            },
            CodeClass::EndOfStream => {
                self.state = CodecState::Flushed;
                self.undrained = false;
                Err(RsmpegError::Flushed)
            },
            CodeClass::Failure => Err(RsmpegError::NativeError { code, message }),
        }
    }

    /// Records that a packet, or with `end_of_stream` the end-of-stream unit,
    /// was submitted to a decoder, with return code `code`. `UsageError` on
    /// an encoder, before the context is open, after the end-of-stream unit,
    /// or while what the last submission gave is not drained to the end; a
    /// negative code is a `NativeError`. After the end-of-stream unit the
    /// context is draining.
    pub fn send_packet(&mut self, end_of_stream: bool, code: i32, message: String) -> (r: Result<
        (),
        RsmpegError,
    >)
        ensures
            old(self)@.direction != Direction::Decode ==> r == Err::<(), RsmpegError>(
                RsmpegError::UsageError,
            ) && final(self)@ == old(self)@,
            old(self)@.direction == Direction::Decode ==> {
                &&& final(self)@ == codec_next(old(self)@, CodecEvent::Send { end_of_stream, code })
                &&& r == (if codec_admits(old(self)@, CodecCall::Send { end_of_stream }) {
                    native_result(code, message, ())
                } else {
                    Err(RsmpegError::UsageError)
                })
            },
    {
        if !self.is_decoder() {
            return Err(RsmpegError::UsageError);
        }
        self.send(end_of_stream, code, message)
    }

    /// Records that a decoder was asked for a frame, with return code `code`.
    /// `Ok` means that a frame came out. `DrainExhausted` means none for now:
    /// submit the next packet. `Flushed` means none ever again, and the
    /// context is flushed. `UsageError` on an encoder, before the context is
    /// open, or once it is flushed; any other negative code is a
    /// `NativeError`.
    pub fn receive_frame(&mut self, code: i32, message: String) -> (r: Result<(), RsmpegError>)
        ensures
            old(self)@.direction != Direction::Decode ==> r == Err::<(), RsmpegError>(
                RsmpegError::UsageError,
            ) && final(self)@ == old(self)@,
            old(self)@.direction == Direction::Decode ==> {
                &&& final(self)@ == codec_next(old(self)@, CodecEvent::Receive { code })
                &&& r == (if codec_admits(old(self)@, CodecCall::Receive) {
                    unit_of(check_drain_spec(code, message, old(self)@.errno))
                } else {
                    Err(RsmpegError::UsageError)
                })
            },
    {
        if !self.is_decoder() {
            return Err(RsmpegError::UsageError);
        }
        self.receive(code, message)
    }

    /// Records that a frame, or with `end_of_stream` the end-of-stream unit,
    /// was submitted to an encoder, with return code `code`. `UsageError` on
    /// a decoder, before the context is open, after the end-of-stream unit,
    /// or while what the last submission gave is not drained to the end; a
    /// negative code is a `NativeError`. After the end-of-stream unit the
    /// context is draining.
    pub fn send_frame(&mut self, end_of_stream: bool, code: i32, message: String) -> (r: Result<
        (),
        RsmpegError,
    >)
        ensures
            old(self)@.direction != Direction::Encode ==> r == Err::<(), RsmpegError>(
                RsmpegError::UsageError,
            ) && final(self)@ == old(self)@,
            old(self)@.direction == Direction::Encode ==> {
                &&& final(self)@ == codec_next(old(self)@, CodecEvent::Send { end_of_stream, code })
                &&& r == (if codec_admits(old(self)@, CodecCall::Send { end_of_stream }) {
                    native_result(code, message, ())
                } else {
                    Err(RsmpegError::UsageError)
                })
            },
    {
        if self.is_decoder() {
            return Err(RsmpegError::UsageError);
        }
        self.send(end_of_stream, code, message)
    }

    /// Records that an encoder was asked for a packet, with return code
    /// `code`. `Ok` means that a packet came out. `DrainExhausted` means none
    /// for now: submit the next frame. `Flushed` means none ever again, and
    /// the context is flushed. `UsageError` on a decoder, before the context
    /// is open, or once it is flushed; any other negative code is a
    /// `NativeError`.
    pub fn receive_packet(&mut self, code: i32, message: String) -> (r: Result<(), RsmpegError>)
        ensures
            old(self)@.direction != Direction::Encode ==> r == Err::<(), RsmpegError>(
                RsmpegError::UsageError,
            ) && final(self)@ == old(self)@,
            old(self)@.direction == Direction::Encode ==> {
                &&& final(self)@ == codec_next(old(self)@, CodecEvent::Receive { code })
                &&& r == (if codec_admits(old(self)@, CodecCall::Receive) {
                    unit_of(check_drain_spec(code, message, old(self)@.errno))
                } else {
                    Err(RsmpegError::UsageError)
                })
            },
    {
        if self.is_decoder() {
            return Err(RsmpegError::UsageError);
        }
        self.receive(code, message)
    }

    /// Whether the end-of-stream unit has to be submitted at the end: not if
    /// the codec reports no capability to hold units back, since then it
    /// holds none.
    pub fn flush_plan(&self) -> (r: FlushPlan)
        ensures
            r == (if self@.capabilities & AV_CODEC_CAP_DELAY == 0 {
                FlushPlan::Skip
            } else {
                FlushPlan::Submit
            }),
    {
        if self.capabilities & AV_CODEC_CAP_DELAY == 0 {
            FlushPlan::Skip
        } else {
            FlushPlan::Submit
        }
    }

    /// Ends the context's life: the native context is to be freed.
    pub fn release(self) -> (r: Release)
        ensures
            r == (Release::Free { kind: ResourceKind::CodecContext, addr: self@.addr }),
    {
        proof {
            use_type_invariant(&self);
        }
        self.handle.release()
    }
}

/// A drain result without the native code: success says only that a unit
/// came out.
pub open spec fn unit_of(r: Result<i32, RsmpegError>) -> Result<(), RsmpegError> {
    match r {
        Ok(_) => Ok(()),
        Err(e) => Err(e),
    }
}

/// A flushed context admits no call, whatever is tried on it afterwards.
pub proof fn lemma_flushed_is_final(v: CodecView, evs: Seq<CodecEvent>, call: CodecCall)
    requires
        v.state == CodecState::Flushed,
    ensures
        codec_run(v, evs) == v,
        !codec_admits(codec_run(v, evs), call),
    decreases evs.len(),
{
    if evs.len() > 0 {
        lemma_flushed_is_final(v, evs.drop_last(), call);
    }
}

/// After a drain call that ended with `Flushed`, every later drain call is
/// refused as a usage error, whatever was called in between and whatever the
/// native codec would return.
pub proof fn lemma_after_flushed_refused(
    v: CodecView,
    code: i32,
    later: Seq<CodecEvent>,
    next_code: i32,
)
    requires
        drained(v, code) == Drained::Flushed,
    ensures
        drained(codec_run(codec_next(v, CodecEvent::Receive { code }), later), next_code)
            == Drained::Refused,
{
    lemma_flushed_is_final(
        codec_next(v, CodecEvent::Receive { code }),
        later,
        CodecCall::Receive,
    );
}

/// Running a sequence of events is running its first `k` and then the rest.
pub proof fn lemma_run_split(v: CodecView, evs: Seq<CodecEvent>, k: int)
    requires
        0 <= k <= evs.len(),
    ensures
        codec_run(v, evs) == codec_run(codec_run(v, evs.take(k)), evs.skip(k)),
    decreases evs.len(),
{
    if k == evs.len() {
        assert(evs.take(k) =~= evs);
        assert(evs.skip(k) =~= Seq::<CodecEvent>::empty());
    } else {
        let init = evs.drop_last();
        lemma_run_split(v, init, k);
        assert(init.take(k) =~= evs.take(k));
        assert(evs.skip(k).drop_last() =~= init.skip(k));
        assert(evs.skip(k).last() == evs.last());
    }
}

/// Along any sequence of calls, at most one drain call ends with `Flushed`:
/// if the calls at positions `i` and `j` both do, they are the same call.
pub proof fn lemma_flushed_at_most_once(v: CodecView, evs: Seq<CodecEvent>, i: int, j: int)
    requires
        i <= j,
        drained_at(v, evs, i, Drained::Flushed),
        drained_at(v, evs, j, Drained::Flushed),
    ensures
        i == j,
{
    if i < j {
        let after = codec_next(codec_run(v, evs.take(i)), evs[i]);
        let upto = evs.take(i + 1);
        assert(upto.drop_last() =~= evs.take(i));
        assert(upto.last() == evs[i]);
        assert(codec_run(v, upto) == after);
        lemma_run_split(v, evs.take(j), i + 1);
        assert(evs.take(j).take(i + 1) =~= upto);
        lemma_flushed_is_final(after, evs.take(j).skip(i + 1), CodecCall::Receive);
    }
}

/// No unit comes out of a context that was never opened with success: after
/// any sequence of calls without a successful open, a new context is still
/// new and refuses to be drained.
pub proof fn lemma_no_unit_before_open(v: CodecView, evs: Seq<CodecEvent>, code: i32)
    requires
        v.state == CodecState::Created,
        forall|i: int|
            0 <= i < evs.len() ==> !(#[trigger] evs[i] matches CodecEvent::Open { code: c } && c
                >= 0),
    ensures
        codec_run(v, evs) == v,
        drained(codec_run(v, evs), code) == Drained::Refused,
    decreases evs.len(),
{
    if evs.len() > 0 {
        let init = evs.drop_last();
        assert forall|i: int| 0 <= i < init.len() implies !(#[trigger] init[i]
            matches CodecEvent::Open { code: c } && c >= 0) by {
            assert(init[i] == evs[i]);
        }
        lemma_no_unit_before_open(v, init, code);
        assert(!(evs[evs.len() - 1] matches CodecEvent::Open { code: c } && c >= 0));
    }
}

/// Drain to the end before the next submission: after a unit was submitted
/// with success, no further unit can be submitted until some drain call has
/// ended with "no more for now". Whatever else is called in between, and
/// whatever the native codec returns, a submission is refused.
pub proof fn lemma_submit_needs_exhausted_drain(
    v: CodecView,
    sent: CodecEvent,
    later: Seq<CodecEvent>,
    end_of_stream: bool,
)
    requires
        sent is Send,
        codec_succeeds(v, sent),
        forall|k: int| 0 <= k < later.len() ==> !drained_at(
            codec_next(v, sent),
            later,
            k,
            Drained::Exhausted,
        ),
    ensures
        !codec_admits(codec_run(codec_next(v, sent), later), CodecCall::Send { end_of_stream }),
    decreases later.len(),
{
    let start = codec_next(v, sent);
    lemma_stays_undrained(start, later);
}

/// A context that is open with an undrained submission, or is past the
/// end-of-stream unit, stays so as long as no drain call ends with "no more
/// for now".
pub proof fn lemma_stays_undrained(v: CodecView, evs: Seq<CodecEvent>)
    requires
        (v.state == CodecState::Opened && v.undrained) || v.state == CodecState::Draining
            || v.state == CodecState::Flushed,
        forall|k: int| 0 <= k < evs.len() ==> !drained_at(v, evs, k, Drained::Exhausted),
    ensures
        ({
            let w = codec_run(v, evs);
            (w.state == CodecState::Opened && w.undrained) || w.state == CodecState::Draining
                || w.state == CodecState::Flushed
        }),
    decreases evs.len(),
{
    if evs.len() > 0 {
        let init = evs.drop_last();
        assert forall|k: int| 0 <= k < init.len() implies !drained_at(
            v,
            init,
            k,
            Drained::Exhausted,
        ) by {
            assert(init.take(k) =~= evs.take(k));
            assert(init[k] == evs[k]);
            assert(!drained_at(v, evs, k, Drained::Exhausted));
        }
        lemma_stays_undrained(v, init);
        let last = evs.len() - 1;
        assert(evs.take(last) =~= init);
        assert(!drained_at(v, evs, last, Drained::Exhausted));
    }
}

} // verus!
