//! Numbers that the host's C library defines.

use vstd::prelude::*;

verus! {

/// `libc::EAGAIN`, the host's errno for "try again". Its value differs from
/// one platform to the next; libc defines it as a number other than zero on
/// every platform it supports, and no more than that is claimed.
#[verifier::external_body]
pub(crate) fn errno_again() -> (r: libc::c_int)
    ensures
        r != 0,
{
    libc::EAGAIN
}

/// `libc::EINVAL`, the host's errno for "invalid argument". Its value differs
/// from one platform to the next; libc defines it as a number other than zero
/// on every platform it supports, and no more than that is claimed.
#[verifier::external_body]
pub(crate) fn errno_invalid() -> (r: libc::c_int)
    ensures
        r != 0,
{
    libc::EINVAL
}

/// `libc::EIO`, the host's errno for "input/output error". Its value differs
/// from one platform to the next; libc defines it as a number other than zero
/// on every platform it supports, and no more than that is claimed.
#[verifier::external_body]
pub(crate) fn errno_io() -> (r: libc::c_int)
    ensures
        r != 0,
{
    libc::EIO
}

/// `libc::SEEK_SET`: libc defines it as 0 on every platform it supports.
#[verifier::external_body]
pub(crate) fn seek_set() -> (r: libc::c_int)
    ensures
        r == 0,
{
    libc::SEEK_SET
}

/// `libc::SEEK_CUR`: libc defines it as 1 on every platform it supports.
#[verifier::external_body]
pub(crate) fn seek_cur() -> (r: libc::c_int)
    ensures
        r == 1,
{
    libc::SEEK_CUR
}

/// `libc::SEEK_END`: libc defines it as 2 on every platform it supports.
#[verifier::external_body]
pub(crate) fn seek_end() -> (r: libc::c_int)
    ensures
        r == 2,
{
    libc::SEEK_END
}

} // verus!
