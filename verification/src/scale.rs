//! The scaling context: conversion between pixel formats and sizes.
//!
//! A context is made for one source format and size and one destination
//! format and size. The conversion itself is done by the native library; what
//! is decided here is which frames a context may be used with, and what
//! becomes of the destination frame.

use vstd::prelude::*;
use crate::buffer::lemma_overlay_whole;
use crate::buffer::live;
use crate::buffer::overlay;
use crate::buffer::writable_slot;
use crate::buffer::write_spec;
use crate::buffer::BufferPool;
use crate::error::RsmpegError;
use crate::frame::Frame;
use crate::frame::FrameMeta;
use crate::handle::Release;
use crate::handle::ResourceHandle;
use crate::handle::ResourceKind;

verus! {

/// What a scaling context was made for.
#[derive(Debug, Clone, Copy, PartialEq, Eq, Structural)]
pub struct ScaleParams {
    pub src_w: i32,
    pub src_h: i32,
    pub src_format: i32,
    pub dst_w: i32,
    pub dst_h: i32,
    pub dst_format: i32,
    /// The native number of the scaling algorithm.
    pub algorithm: i32,
}

/// A scaling context.
#[derive(Debug, PartialEq, Eq)]
pub struct ScalingContext {
    handle: ResourceHandle,
    params: ScaleParams,
}

/// A scaling context as contracts see it.
pub struct ScaleView {
    pub addr: usize,
    pub params: ScaleParams,
}

/// Whether a frame with the format `meta` can be the source of a conversion
/// with `params`.
pub open spec fn is_source(params: ScaleParams, meta: FrameMeta) -> bool {
    meta.width == params.src_w && meta.height == params.src_h && meta.format == params.src_format
}

/// Whether a frame with the format `meta` can be the destination of a
/// conversion with `params`: its size and format are exactly those that the
/// context was made for.
pub open spec fn is_destination(params: ScaleParams, meta: FrameMeta) -> bool {
    meta.width == params.dst_w && meta.height == params.dst_h && meta.format == params.dst_format
}

/// Whether the rows from `y` on, `h` of them, lie inside the source.
pub open spec fn is_slice(params: ScaleParams, y: i32, h: i32) -> bool {
    0 <= y && 0 <= h && y + h <= params.src_h
}

impl View for ScalingContext {
    type V = ScaleView;

    closed spec fn view(&self) -> ScaleView {
        ScaleView { addr: self.handle.addr(), params: self.params }
    }
}

impl ScalingContext {
    /// The context owns its native object.
    #[verifier::type_invariant]
    spec fn inv(&self) -> bool {
        self.handle.owning() && self.handle.kind() == ResourceKind::ScalingContext
    }

    /// Takes over the scaling context that the native library made at `raw`
    /// for `params`. A null address is `AllocationError`.
    pub fn get_context(raw: usize, params: ScaleParams) -> (r: Result<ScalingContext, RsmpegError>)
        ensures
            raw == 0 ==> r == Err::<ScalingContext, RsmpegError>(RsmpegError::AllocationError),
            raw != 0 ==> r is Ok && r->Ok_0@ == (ScaleView { addr: raw, params }),
    {
        match ResourceHandle::acquire(ResourceKind::ScalingContext, raw) {
            Err(e) => Err(e),
            Ok(handle) => Ok(ScalingContext { handle, params }),
        }
    }

    /// The address of the native context, for a native call.
    pub fn as_raw(&self) -> (r: usize)
        ensures
            r == self@.addr,
            r != 0,
    {
        self.handle.as_raw()
    }

    /// What the context was made for.
    pub fn params(&self) -> (r: ScaleParams)
        ensures
            r == self@.params,
    {
        self.params
    }

    /// Whether the context can do a conversion with `params`: only if they
    /// are the ones that it was made for. For any others a new context is
    /// needed.
    pub fn serves(&self, params: &ScaleParams) -> (r: bool)
        ensures
            r == (self@.params == *params),
    {
        self.params == *params
    }

    /// Whether `frame` can be the source of a conversion.
    pub fn source_matches(&self, frame: &Frame) -> (r: bool)
        ensures
            r == is_source(self@.params, frame.meta),
    {
        frame.meta.width == self.params.src_w && frame.meta.height == self.params.src_h
            && frame.meta.format == self.params.src_format
    }

    /// Whether `frame` can be the destination of a conversion.
    pub fn destination_matches(&self, frame: &Frame) -> (r: bool)
        ensures
            r == is_destination(self@.params, frame.meta),
    {
        frame.meta.width == self.params.dst_w && frame.meta.height == self.params.dst_h
            && frame.meta.format == self.params.dst_format
    }

    /// Whether the rows from `y` on, `h` of them, lie inside the source.
    pub fn slice_in_range(&self, y: i32, h: i32) -> (r: bool)
        ensures
            r == is_slice(self@.params, y, h),
    {
        0 <= y && 0 <= h && h <= self.params.src_h && y <= self.params.src_h - h
    }

    /// Takes the result of converting the rows from `src_slice_y` on,
    /// `src_slice_h` of them, of `src` into `dst`: `code` is what the native
    /// conversion returned and `output` the bytes that it produced.
    ///
    /// The destination must have exactly the size and format that the
    /// context was made for. `UsageError` if `src` is not what the context
    /// was made for, the rows do not lie inside it, or `output` does not fit
    /// into the destination's data; a negative code is a `NativeError`. In
    /// each of these cases nothing changes. Otherwise `output` is laid over
    /// the destination's data from its start, through a reference that is
    /// first made the only one to those bytes, and the answer is `code`, the
    /// number of rows written. An output that fills the destination is then
    /// what the destination holds, byte for byte.
    pub fn scale_frame(
        &self,
        pool: &mut BufferPool,
        src: &Frame,
        src_slice_y: i32,
        src_slice_h: i32,
        dst: &mut Frame,
        code: i32,
        message: String,
        output: &[u8],
    ) -> (r: Result<i32, RsmpegError>)
        requires
            is_destination(self@.params, old(dst).meta),
        ensures
            final(dst).meta == old(dst).meta,
            r is Err ==> final(pool)@ == old(pool)@ && final(dst).payload@ == old(dst).payload@,
            !(is_source(self@.params, src.meta) && is_slice(
                self@.params,
                src_slice_y,
                src_slice_h,
            )) ==> r == Err::<i32, RsmpegError>(RsmpegError::UsageError),
            is_source(self@.params, src.meta) && is_slice(self@.params, src_slice_y, src_slice_h)
                && code < 0 ==> r == Err::<i32, RsmpegError>(
                RsmpegError::NativeError { code, message },
            ),
            is_source(self@.params, src.meta) && is_slice(self@.params, src_slice_y, src_slice_h)
                && code >= 0 && !(old(dst).payload.in_pool(old(pool)@) && output@.len() <= old(
                pool,
            )@[old(dst).payload@->Some_0].data.len()) ==> r == Err::<i32, RsmpegError>(
                RsmpegError::UsageError,
            ),
            is_source(self@.params, src.meta) && is_slice(self@.params, src_slice_y, src_slice_h)
                && code >= 0 && old(dst).payload.in_pool(old(pool)@) && output@.len() <= old(
                pool,
            )@[old(dst).payload@->Some_0].data.len() ==> {
                let s = old(dst).payload@->Some_0;
                &&& r == Ok::<i32, RsmpegError>(code)
                &&& final(pool)@ == write_spec(old(pool)@, s, 0, output@)
                &&& final(dst).payload@ == Some(writable_slot(old(pool)@, s))
                &&& live(final(pool)@, final(dst).payload@->Some_0)
                &&& final(pool)@[final(dst).payload@->Some_0].data == overlay(
                    old(pool)@[s].data,
                    0,
                    output@,
                )
                &&& output@.len() == old(pool)@[s].data.len() ==> {
                    final(pool)@[final(dst).payload@->Some_0].data == output@
                }
            },
    {
        if !self.source_matches(src) || !self.slice_in_range(src_slice_y, src_slice_h) {
            return Err(RsmpegError::UsageError);
        }
        if code < 0 {
            return Err(RsmpegError::NativeError { code, message });
        }
        let ghost base = pool@[dst.payload@->Some_0].data;
        match dst.payload.write(pool, 0, output) {
            Ok(_) => {
                proof {
                    if output@.len() == base.len() {
                        lemma_overlay_whole(base, output@);
                    }
                }
                Ok(code)
            },
            Err(e) => Err(e),
        }
    }

    /// Ends the context's life: the native context is to be freed.
    pub fn release(self) -> (r: Release)
        ensures
            r == (Release::Free { kind: ResourceKind::ScalingContext, addr: self@.addr }),
    {
        proof {
            use_type_invariant(&self);
        }
        self.handle.release()
    }
}

} // verus!
