//! Typed errors, and the mapping from native return codes to them.

use vstd::prelude::*;
use crate::host::errno_again;
use crate::host::errno_invalid;
use crate::host::errno_io;

verus! {

/// The native library's end-of-stream code: the negated tag `'E' 'O' 'F' ' '`.
pub const AVERROR_EOF: i32 = -541478725;

/// What can go wrong, or be signalled, by an operation of this crate.
#[derive(Debug, PartialEq, Eq)]
pub enum RsmpegError {
    /// A native allocation returned null.
    AllocationError,
    /// A container could not be opened.
    OpenError { code: i32 },
    /// No stream of the requested kind exists.
    NoStreamFound,
    /// A codec could not be opened.
    CodecOpenError { code: i32 },
    /// Any other negative return code, with the native text for it.
    NativeError { code: i32, message: String },
    /// Not a failure: no output is available until more input is submitted.
    DrainExhausted,
    /// Not a failure: no output will ever be produced again.
    Flushed,
    /// The operation is not allowed in the object's current state.
    UsageError,
}

/// The host's errno numbers that the native library turns into return codes.
#[derive(Debug, Clone, Copy, PartialEq, Eq, Structural)]
pub struct ErrnoCodes {
    /// "Try again".
    pub again: i32,
    /// "Invalid argument".
    pub invalid: i32,
    /// "Input/output error".
    pub io: i32,
}

/// The native return code for the errno `e`: the native library negates the
/// errno numbers of a host where they are positive and takes them as they
/// are where they are negative already.
pub open spec fn averror(e: int) -> int {
    if e > 0 {
        -e
    } else {
        e
    }
}

/// How a native return code reads during a drain call.
#[derive(Debug, Clone, Copy, PartialEq, Eq, Structural)]
pub enum CodeClass {
    /// Zero or positive.
    Success,
    /// The native code for "try again".
    Again,
    /// The end-of-stream code.
    EndOfStream,
    /// Any other negative code.
    Failure,
}

/// The class of `code` where `again` is the host's "try again" errno.
/// End-of-stream wins should both numbers coincide.
pub open spec fn class_of(code: int, again: int) -> CodeClass {
    if code >= 0 {
        CodeClass::Success
    } else if code == AVERROR_EOF {
        CodeClass::EndOfStream
    } else if code == averror(again) {
        CodeClass::Again
    } else {
        CodeClass::Failure
    }
}

/// What a plain call site makes of `code`, where success returns `done`: a
/// negative code is a `NativeError` with the code and the native text.
pub open spec fn native_result<T>(code: i32, message: String, done: T) -> Result<T, RsmpegError> {
    if code >= 0 {
        Ok(done)
    } else {
        Err(RsmpegError::NativeError { code, message })
    }
}

/// What a drain call site makes of `code`.
pub open spec fn check_drain_spec(code: i32, message: String, errno: ErrnoCodes) -> Result<
    i32,
    RsmpegError,
> {
    match class_of(code as int, errno.again as int) {
        CodeClass::Success => Ok(code),
        CodeClass::Again => Err(RsmpegError::DrainExhausted),
        CodeClass::EndOfStream => Err(RsmpegError::Flushed),
        CodeClass::Failure => Err(RsmpegError::NativeError { code, message }),
    }
}

impl ErrnoCodes {
    /// The numbers of the machine this code runs on, as its C library has
    /// them. Which numbers they are depends on the machine. On every machine
    /// each of them is an errno in earnest, that is, not zero: so the native
    /// return code for each is negative and is never taken for success, and
    /// the code that a failed callback hands back is the one for
    /// "input/output error" itself.
    pub fn host() -> (r: ErrnoCodes)
        ensures
            r.again != 0,
            r.invalid != 0,
            r.io != 0,
            averror(r.again as int) < 0,
            averror(r.invalid as int) < 0,
            io_failure_spec(r) == averror(r.io as int),
    {
        ErrnoCodes { again: errno_again(), invalid: errno_invalid(), io: errno_io() }
    }

    /// A table with the given numbers.
    pub fn new(again: i32, invalid: i32, io: i32) -> (r: ErrnoCodes)
        ensures
            r == (ErrnoCodes { again, invalid, io }),
    {
        ErrnoCodes { again, invalid, io }
    }

    /// Whether `code` is the native return code for "try again".
    pub fn is_again(&self, code: i32) -> (r: bool)
        ensures
            r == (code as int == averror(self.again as int)),
    {
        is_averror(code, self.again)
    }

    /// Whether `code` is the native return code for "invalid argument".
    pub fn is_invalid(&self, code: i32) -> (r: bool)
        ensures
            r == (code as int == averror(self.invalid as int)),
    {
        is_averror(code, self.invalid)
    }

    /// The native return code for an input/output error, which a callback
    /// hands back when the host side failed. It is negative whatever the
    /// host's errno number is: where that number is zero, -1 stands in.
    pub fn io_failure(&self) -> (r: i32)
        ensures
            r == io_failure_spec(*self),
            r < 0,
    {
        if self.io > 0 {
            -self.io
        } else if self.io < 0 {
            self.io
        } else {
            -1
        }
    }
}

/// The native return code for an input/output error on a host with the
/// errno numbers `errno`.
pub open spec fn io_failure_spec(errno: ErrnoCodes) -> i32 {
    if errno.io == 0 {
        -1i32
    } else {
        averror(errno.io as int) as i32
    }
}

/// Whether `code` is the native return code for the errno `e`.
pub fn is_averror(code: i32, e: i32) -> (r: bool)
    ensures
        r == (code as int == averror(e as int)),
{
    if e > 0 {
        code == -e
    } else {
        code == e
    }
}

/// Classifies a native return code for a drain call.
pub fn classify(code: i32, errno: &ErrnoCodes) -> (r: CodeClass)
    ensures
        r == class_of(code as int, errno.again as int),
{
    if code >= 0 {
        CodeClass::Success
    } else if code == AVERROR_EOF {
        CodeClass::EndOfStream
    } else if errno.is_again(code) {
        CodeClass::Again
    } else {
        CodeClass::Failure
    }
}

/// Maps the return code of a plain native call: zero or positive is success
/// and is handed back, anything negative becomes a `NativeError` that carries
/// the code and the native text for it.
pub fn check(code: i32, message: String) -> (r: Result<i32, RsmpegError>)
    ensures
        r == native_result(code, message, code),
{
    if code >= 0 {
        Ok(code)
    } else {
        Err(RsmpegError::NativeError { code, message })
    }
}

/// Maps the return code of a drain call: "try again" becomes `DrainExhausted`,
/// end-of-stream becomes `Flushed`, any other negative code a `NativeError`.
pub fn check_drain(code: i32, message: String, errno: &ErrnoCodes) -> (r: Result<i32, RsmpegError>)
    ensures
        r == check_drain_spec(code, message, *errno),
{
    match classify(code, errno) {
        CodeClass::Success => Ok(code),
        CodeClass::Again => Err(RsmpegError::DrainExhausted),
        CodeClass::EndOfStream => Err(RsmpegError::Flushed),
        CodeClass::Failure => Err(RsmpegError::NativeError { code, message }),
    }
}

/// Maps the address that a native allocation returned: null is
/// `AllocationError`, anything else is handed back.
pub fn check_alloc(addr: usize) -> (r: Result<usize, RsmpegError>)
    ensures
        addr == 0 ==> r == Err::<usize, RsmpegError>(RsmpegError::AllocationError),
        addr != 0 ==> r == Ok::<usize, RsmpegError>(addr),
{
    if addr == 0 {
        Err(RsmpegError::AllocationError)
    } else {
        Ok(addr)
    }
}

} // verus!
