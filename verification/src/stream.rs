//! Stream descriptors: what a container knows of each of its streams.

use vstd::prelude::*;
use crate::handle::ResourceHandle;
use crate::handle::ResourceKind;

verus! {

/// The kind of media that a stream carries.
#[derive(Debug, Clone, Copy, PartialEq, Eq, Structural)]
pub enum MediaType {
    Video,
    Audio,
    Subtitle,
    Other,
}

/// A time base or a frame rate: `num / den`.
#[derive(Debug, Clone, Copy, PartialEq, Eq, Structural)]
pub struct Rational {
    pub num: i32,
    pub den: i32,
}

/// The codec parameters of a stream, as plain values.
#[derive(Debug, Clone, Copy, PartialEq, Eq, Structural)]
pub struct CodecParameters {
    pub media_type: MediaType,
    pub codec_id: i32,
    pub format: i32,
    pub width: i32,
    pub height: i32,
    pub sample_rate: i32,
}

/// What the native library reports of one stream when a container is probed.
#[derive(Debug, Clone, Copy, PartialEq, Eq, Structural)]
pub struct StreamInfo {
    /// The address of the native stream; it belongs to the container.
    pub addr: usize,
    pub time_base: Rational,
    pub codecpar: CodecParameters,
}

/// One stream of a container. Its handle is weak: the stream lives and dies
/// with the container and is never freed by itself.
#[derive(Debug, PartialEq, Eq)]
pub struct Stream {
    handle: ResourceHandle,
    index: usize,
    time_base: Rational,
    codecpar: CodecParameters,
}

/// A stream without its handle: the values that contracts speak of.
pub struct StreamView {
    pub addr: usize,
    pub index: nat,
    pub time_base: Rational,
    pub codecpar: CodecParameters,
}

impl View for Stream {
    type V = StreamView;

    closed spec fn view(&self) -> StreamView {
        StreamView {
            addr: self.handle.addr(),
            index: self.index as nat,
            time_base: self.time_base,
            codecpar: self.codecpar,
        }
    }
}

impl Stream {
    /// A stream's handle is a weak view of a native stream.
    #[verifier::type_invariant]
    spec fn inv(&self) -> bool {
        !self.handle.owning()
    }

    /// The descriptor of the stream at `index`, made from a weak view of the
    /// container that owns it.
    pub fn new(owner: &ResourceHandle, index: usize, info: StreamInfo) -> (r: Option<Stream>)
        ensures
            info.addr == 0 ==> r is None,
            info.addr != 0 ==> r is Some && r->Some_0@ == (StreamView {
                addr: info.addr,
                index: index as nat,
                time_base: info.time_base,
                codecpar: info.codecpar,
            }),
    {
        match owner.inner(ResourceKind::Stream, info.addr) {
            Some(handle) => Some(
                Stream { handle, index, time_base: info.time_base, codecpar: info.codecpar },
            ),
            None => None,
        }
    }

    /// The position of the stream in its container.
    pub fn index(&self) -> (r: usize)
        ensures
            r == self@.index,
    {
        self.index
    }

    /// The unit of the stream's timestamps.
    pub fn time_base(&self) -> (r: Rational)
        ensures
            r == self@.time_base,
    {
        self.time_base
    }

    /// The stream's codec parameters.
    pub fn codecpar(&self) -> (r: CodecParameters)
        ensures
            r == self@.codecpar,
    {
        self.codecpar
    }

    /// The address of the native stream, for a native call that borrows it.
    pub fn as_raw(&self) -> (r: usize)
        ensures
            r == self@.addr,
            r != 0,
    {
        self.handle.as_raw()
    }

    /// Sets the unit of the stream's timestamps.
    pub fn set_time_base(&mut self, time_base: Rational)
        ensures
            final(self)@ == (StreamView { time_base, ..old(self)@ }),
        no_unwind
    {
        proof {
            use_type_invariant(&*self);
        }
        self.time_base = time_base;
    }

    /// Sets the stream's codec parameters.
    pub fn set_codecpar(&mut self, codecpar: CodecParameters)
        ensures
            final(self)@ == (StreamView { codecpar, ..old(self)@ }),
        no_unwind
    {
        proof {
            use_type_invariant(&*self);
        }
        self.codecpar = codecpar;
    }
}

} // verus!
