//! Ownership of one native object.

use vstd::prelude::*;
use crate::error::RsmpegError;

verus! {

/// The kinds of native object that a handle can stand for.
#[derive(Debug, Clone, Copy, PartialEq, Eq, Structural)]
pub enum ResourceKind {
    Container,
    Stream,
    CodecContext,
    CodecParameters,
    Frame,
    Packet,
    ScalingContext,
    Dictionary,
    IoContext,
}

/// One native object, by its address. An owning handle is the only owner of
/// the object; a weak handle is a view that never frees it, and is not to be
/// used once the owner is released.
///
/// A handle is neither `Clone` nor `Copy`, and `release` and `into_raw` take it
/// by value: the address of an owned object can be given up once and no more.
#[derive(Debug, PartialEq, Eq)]
pub struct ResourceHandle {
    kind: ResourceKind,
    addr: usize,
    owning: bool,
}

/// What has to happen to the native object when a handle goes away.
#[derive(Debug, Clone, Copy, PartialEq, Eq, Structural)]
pub enum Release {
    /// The object at this address, of this kind, must be freed now.
    Free { kind: ResourceKind, addr: usize },
    /// Nothing: the handle did not own the object.
    Nothing,
}

impl ResourceHandle {
    /// The address of the native object.
    pub closed spec fn addr(&self) -> usize {
        self.addr
    }

    /// The kind of the native object.
    pub closed spec fn kind(&self) -> ResourceKind {
        self.kind
    }

    /// Whether this handle must free the object when it goes away.
    pub closed spec fn owning(&self) -> bool {
        self.owning
    }

    /// A handle never holds a null address.
    #[verifier::type_invariant]
    spec fn inv(&self) -> bool {
        self.addr != 0
    }

    /// Wraps the address that a native creation call returned. A null address
    /// is `AllocationError`; any other becomes an owning handle.
    pub fn acquire(kind: ResourceKind, raw: usize) -> (r: Result<ResourceHandle, RsmpegError>)
        ensures
            raw == 0 ==> r == Err::<ResourceHandle, RsmpegError>(RsmpegError::AllocationError),
            raw != 0 ==> r is Ok && r->Ok_0.addr() == raw && r->Ok_0.kind() == kind
                && r->Ok_0.owning(),
    {
        if raw == 0 {
            Err(RsmpegError::AllocationError)
        } else {
            Ok(ResourceHandle { kind, addr: raw, owning: true })
        }
    }

    /// Takes back the ownership that `into_raw` gave away: `raw` is the
    /// address of an object of kind `kind` that has no owner at present. A
    /// null address is `AllocationError`.
    pub fn from_raw(kind: ResourceKind, raw: usize) -> (r: Result<ResourceHandle, RsmpegError>)
        ensures
            raw == 0 ==> r == Err::<ResourceHandle, RsmpegError>(RsmpegError::AllocationError),
            raw != 0 ==> r is Ok && r->Ok_0.addr() == raw && r->Ok_0.kind() == kind
                && r->Ok_0.owning(),
    {
        ResourceHandle::acquire(kind, raw)
    }

    /// A weak view of the same object: same address and kind, never freeing.
    pub fn weak(&self) -> (r: ResourceHandle)
        ensures
            r.addr() == self.addr(),
            r.kind() == self.kind(),
            !r.owning(),
            r.addr() != 0,
    {
        proof {
            use_type_invariant(self);
        }
        ResourceHandle { kind: self.kind, addr: self.addr, owning: false }
    }

    /// A weak view of an object of kind `kind` at `addr` that lives inside
    /// this one and is freed with it, such as a stream inside its container.
    /// A null address gives none.
    pub fn inner(&self, kind: ResourceKind, addr: usize) -> (r: Option<ResourceHandle>)
        ensures
            addr == 0 ==> r is None,
            addr != 0 ==> r is Some && r->Some_0.addr() == addr && r->Some_0.kind() == kind
                && !r->Some_0.owning(),
    {
        if addr == 0 {
            None
        } else {
            Some(ResourceHandle { kind, addr, owning: false })
        }
    }

    /// The address, for a native call that borrows the object.
    pub fn as_raw(&self) -> (r: usize)
        ensures
            r == self.addr(),
            r != 0,
    {
        proof {
            use_type_invariant(self);
        }
        self.addr
    }

    /// The address, for a native call that changes the object in place. The
    /// handle itself is left as it was.
    pub fn as_raw_mut(&mut self) -> (r: usize)
        ensures
            r == old(self).addr(),
            r != 0,
            *final(self) == *old(self),
    {
        proof {
            use_type_invariant(&*self);
        }
        self.addr
    }

    /// Whether the handle owns the object.
    pub fn is_owning(&self) -> (r: bool)
        ensures
            r == self.owning(),
    {
        self.owning
    }

    /// The kind of the object.
    pub fn resource_kind(&self) -> (r: ResourceKind)
        ensures
            r == self.kind(),
    {
        self.kind
    }

    /// Gives the object away: the caller, or the native object that the
    /// address is handed to, is its owner from now on. The handle is used up
    /// and nothing is freed on its account.
    pub fn into_raw(self) -> (r: usize)
        ensures
            r == self.addr(),
            r != 0,
    {
        proof {
            use_type_invariant(&self);
        }
        self.addr
    }

    /// Ends the handle's life. An owning handle asks for its object to be
    /// freed; a weak one asks for nothing. The handle is used up, so no second
    /// release of the same ownership can be asked for.
    pub fn release(self) -> (r: Release)
        ensures
            self.owning() ==> r == (Release::Free { kind: self.kind(), addr: self.addr() }),
            !self.owning() ==> r == Release::Nothing,
            r matches Release::Free { addr, .. } ==> addr != 0,
    {
        proof {
            use_type_invariant(&self);
        }
        if self.owning {
            Release::Free { kind: self.kind, addr: self.addr }
        } else {
            Release::Nothing
        }
    }
}

} // verus!
