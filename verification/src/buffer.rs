//! Reference-counted byte buffers with copy-on-write.
//!
//! A pool holds buffers in numbered slots, each with the count of references
//! to it. A reference is made by `allocate` or `share` and given back by `unref`;
//! the buffer is freed when its last reference is given back. Bytes are only
//! ever changed through a reference that is the sole one to its buffer: a
//! write through a shared reference first moves that reference to a private
//! copy.

use vstd::prelude::*;
use crate::error::RsmpegError;

verus! {

/// One slot of a pool: the bytes it holds and how many references name it.
/// A slot with no reference is free and holds no bytes.
pub struct SlotView {
    pub data: Seq<u8>,
    pub refs: nat,
}

struct Slot {
    data: Vec<u8>,
    refs: usize,
}

/// The buffers, by slot.
pub struct BufferPool {
    slots: Vec<Slot>,
}

/// A reference to one buffer of a pool. It cannot be copied: a second
/// reference to the same buffer is made by `BufferPool::share`, which counts
/// it.
#[derive(Debug, PartialEq, Eq)]
pub struct BufferRef {
    slot: usize,
}

impl BufferRef {
    /// The slot of the buffer that this reference names.
    pub closed spec fn slot(&self) -> int {
        self.slot as int
    }

    /// The slot number, for callers that keep tables by slot.
    pub fn slot_index(&self) -> (r: usize)
        ensures
            r == self.slot(),
    {
        self.slot
    }
}

/// Whether `slot` holds a buffer that some reference names.
pub open spec fn live(pool: Seq<SlotView>, slot: int) -> bool {
    0 <= slot < pool.len() && pool[slot].refs > 0
}

/// The lowest free slot at or after `from`, or the pool's length if all of
/// them are taken.
pub open spec fn first_free_from(pool: Seq<SlotView>, from: int) -> int
    decreases pool.len() - from,
{
    if from < 0 || from >= pool.len() {
        pool.len() as int
    } else if pool[from].refs == 0 {
        from
    } else {
        first_free_from(pool, from + 1)
    }
}

/// The slot that the next new buffer goes to.
pub open spec fn first_free(pool: Seq<SlotView>) -> int {
    first_free_from(pool, 0)
}

/// `pool` with `slot` holding `value`; a slot just past the end is added.
pub open spec fn store(pool: Seq<SlotView>, slot: int, value: SlotView) -> Seq<SlotView> {
    if 0 <= slot < pool.len() {
        pool.update(slot, value)
    } else {
        pool.push(value)
    }
}

/// `pool` after a new buffer with `data` and one reference was added.
pub open spec fn allocate_spec(pool: Seq<SlotView>, data: Seq<u8>) -> Seq<SlotView> {
    store(pool, first_free(pool), SlotView { data, refs: 1 })
}

/// `pool` after one more reference to the live buffer in `slot` was made.
pub open spec fn share_spec(pool: Seq<SlotView>, slot: int) -> Seq<SlotView> {
    pool.update(slot, SlotView { data: pool[slot].data, refs: pool[slot].refs + 1 })
}

/// `pool` after one reference to the live buffer in `slot` was given back:
/// the last one frees the buffer.
pub open spec fn unref_spec(pool: Seq<SlotView>, slot: int) -> Seq<SlotView> {
    if pool[slot].refs == 1 {
        pool.update(slot, SlotView { data: Seq::empty(), refs: 0 })
    } else {
        pool.update(slot, SlotView { data: pool[slot].data, refs: (pool[slot].refs - 1) as nat })
    }
}

/// The slot that a reference to `slot` names once it is the sole reference to
/// its bytes: the same slot if it was alone, else the slot of a new copy.
pub open spec fn writable_slot(pool: Seq<SlotView>, slot: int) -> int {
    if pool[slot].refs == 1 {
        slot
    } else {
        first_free(unref_spec(pool, slot))
    }
}

/// `pool` after a reference to the live buffer in `slot` was made the sole
/// reference to its bytes: unchanged if it was alone, else the reference
/// leaves the shared buffer and a copy with one reference is added.
pub open spec fn make_writable_spec(pool: Seq<SlotView>, slot: int) -> Seq<SlotView> {
    if pool[slot].refs == 1 {
        pool
    } else {
        allocate_spec(unref_spec(pool, slot), pool[slot].data)
    }
}

/// `base` with the bytes of `patch` laid over it from `offset` on.
pub open spec fn overlay(base: Seq<u8>, offset: int, patch: Seq<u8>) -> Seq<u8> {
    Seq::new(
        base.len(),
        |i: int|
            if offset <= i < offset + patch.len() {
                patch[i - offset]
            } else {
                base[i]
            },
    )
}

/// `pool` after `patch` was written at `offset` through a reference to the
/// live buffer in `slot`.
pub open spec fn write_spec(pool: Seq<SlotView>, slot: int, offset: int, patch: Seq<u8>) -> Seq<
    SlotView,
> {
    let target = writable_slot(pool, slot);
    let moved = make_writable_spec(pool, slot);
    moved.update(target, SlotView { data: overlay(pool[slot].data, offset, patch), refs: 1 })
}

/// The lowest free slot is in range, is free if it is inside the pool, and
/// every slot below it is taken.
pub proof fn lemma_first_free(pool: Seq<SlotView>, from: int)
    requires
        0 <= from <= pool.len(),
    ensures
        from <= first_free_from(pool, from) <= pool.len(),
        first_free_from(pool, from) < pool.len() ==> pool[first_free_from(pool, from)].refs == 0,
        forall|j: int| from <= j < first_free_from(pool, from) ==> (#[trigger] pool[j]).refs > 0,
    decreases pool.len() - from,
{
    if from < pool.len() && pool[from].refs != 0 {
        lemma_first_free(pool, from + 1);
    }
}

impl View for BufferPool {
    type V = Seq<SlotView>;

    closed spec fn view(&self) -> Seq<SlotView> {
        Seq::new(
            self.slots.len() as nat,
            |i: int|
                SlotView {
                    data: if self.slots[i].refs == 0 {
                        Seq::empty()
                    } else {
                        self.slots[i].data@
                    },
                    refs: self.slots[i].refs as nat,
                },
        )
    }
}

impl BufferPool {
    /// Whether `r` names a buffer of this pool that is in use.
    pub open spec fn holds(&self, r: &BufferRef) -> bool {
        live(self@, r.slot())
    }

    /// The bytes that `r` names.
    pub open spec fn bytes(&self, r: &BufferRef) -> Seq<u8> {
        self@[r.slot()].data
    }

    /// How many references name the buffer of `r`.
    pub open spec fn refs(&self, r: &BufferRef) -> nat {
        self@[r.slot()].refs
    }

    /// A pool without buffers.
    pub fn new() -> (r: BufferPool)
        ensures
            r@.len() == 0,
    {
        BufferPool { slots: Vec::new() }
    }

    /// The number of slots, free ones included.
    pub fn slot_count(&self) -> (r: usize)
        ensures
            r == self@.len(),
    {
        self.slots.len()
    }

    /// Whether `r` names a buffer of this pool that is in use.
    pub fn is_live(&self, r: &BufferRef) -> (b: bool)
        ensures
            b == self.holds(r),
    {
        r.slot < self.slots.len() && self.slots[r.slot].refs > 0
    }

    /// The number of references to the buffer of `r`; zero if `r` names no
    /// buffer in use.
    pub fn ref_count(&self, r: &BufferRef) -> (n: usize)
        ensures
            self.holds(r) ==> n == self.refs(r),
            !self.holds(r) ==> n == 0,
    {
        if r.slot < self.slots.len() {
            self.slots[r.slot].refs
        } else {
            0
        }
    }

    /// Whether `r` is the sole reference to its buffer, so that the bytes can
    /// be changed in place.
    pub fn is_writable(&self, r: &BufferRef) -> (b: bool)
        ensures
            b == (self.holds(r) && self.refs(r) == 1),
    {
        r.slot < self.slots.len() && self.slots[r.slot].refs == 1
    }

    /// The bytes that `r` names, or none if `r` names no buffer in use.
    pub fn data(&self, r: &BufferRef) -> (out: Option<&Vec<u8>>)
        ensures
            self.holds(r) ==> out is Some && out->Some_0@ == self.bytes(r),
            !self.holds(r) ==> out is None,
    {
        if r.slot < self.slots.len() && self.slots[r.slot].refs > 0 {
            Some(&self.slots[r.slot].data)
        } else {
            None
        }
    }

    fn lowest_free(&self) -> (i: usize)
        ensures
            i == first_free(self@),
            i <= self@.len(),
    {
        let mut i: usize = 0;
        while i < self.slots.len() && self.slots[i].refs != 0
            invariant
                i <= self.slots.len(),
                first_free_from(self@, i as int) == first_free(self@),
            decreases self.slots.len() - i,
        {
            i = i + 1;
        }
        i
    }

    fn put(&mut self, i: usize, slot: Slot)
        requires
            i <= old(self)@.len(),
            slot.refs > 0,
        ensures
            final(self)@ == store(
                old(self)@,
                i as int,
                SlotView { data: slot.data@, refs: slot.refs as nat },
            ),
    {
        let ghost before = self@;
        let ghost value = SlotView { data: slot.data@, refs: slot.refs as nat };
        if i < self.slots.len() {
            self.slots.set(i, slot);
        } else {
            self.slots.push(slot);
        }
        assert(self@ =~= store(before, i as int, value));
    }

    /// Adds a buffer that holds `data`, with one reference, and returns that
    /// reference. The buffer goes to the lowest free slot.
    pub fn allocate(&mut self, data: Vec<u8>) -> (r: BufferRef)
        ensures
            r.slot() == first_free(old(self)@),
            !live(old(self)@, r.slot()),
            final(self)@ == allocate_spec(old(self)@, data@),
            final(self).holds(&r),
            final(self).bytes(&r) == data@,
            final(self).refs(&r) == 1,
    {
        let i = self.lowest_free();
        proof {
            lemma_first_free(self@, 0);
        }
        self.put(i, Slot { data, refs: 1 });
        BufferRef { slot: i }
    }

    /// Makes a second reference to the buffer of `r`: the count goes up by
    /// one and no byte is copied. `UsageError` if `r` names no buffer in use,
    /// `AllocationError` if the count cannot grow; the pool is then unchanged.
    pub fn share(&mut self, r: &BufferRef) -> (out: Result<BufferRef, RsmpegError>)
        ensures
            !old(self).holds(r) ==> out == Err::<BufferRef, RsmpegError>(RsmpegError::UsageError),
            old(self).holds(r) && old(self).refs(r) >= usize::MAX ==> out == Err::<
                BufferRef,
                RsmpegError,
            >(RsmpegError::AllocationError),
            out is Err ==> final(self)@ == old(self)@,
            old(self).holds(r) && old(self).refs(r) < usize::MAX ==> out is Ok
                && out->Ok_0.slot() == r.slot() && final(self)@ == share_spec(
                old(self)@,
                r.slot(),
            ),
    {
        if !self.is_live(r) {
            return Err(RsmpegError::UsageError);
        }
        let n = self.slots[r.slot].refs;
        if n == usize::MAX {
            return Err(RsmpegError::AllocationError);
        }
        let ghost before = self@;
        self.slots[r.slot].refs = n + 1;
        assert(self@ =~= share_spec(before, r.slot()));
        Ok(BufferRef { slot: r.slot })
    }

    /// Gives the reference `r` back. The buffer is freed when `r` was the
    /// last reference to it, and the answer says whether it was. `UsageError`
    /// if `r` names no buffer in use; the pool is then unchanged.
    pub fn unref(&mut self, r: BufferRef) -> (out: Result<bool, RsmpegError>)
        ensures
            !old(self).holds(&r) ==> out == Err::<bool, RsmpegError>(RsmpegError::UsageError)
                && final(self)@ == old(self)@,
            old(self).holds(&r) ==> out == Ok::<bool, RsmpegError>(old(self).refs(&r) == 1)
                && final(self)@ == unref_spec(old(self)@, r.slot()),
    {
        if !self.is_live(&r) {
            return Err(RsmpegError::UsageError);
        }
        let ghost before = self@;
        let n = self.slots[r.slot].refs;
        if n == 1 {
            self.slots.set(r.slot, Slot { data: Vec::new(), refs: 0 });
            assert(self@ =~= unref_spec(before, r.slot()));
            Ok(true)
        } else {
            self.slots[r.slot].refs = n - 1;
            assert(self@ =~= unref_spec(before, r.slot()));
            Ok(false)
        }
    }

    fn copy_of(&self, slot: usize) -> (out: Vec<u8>)
        requires
            live(self@, slot as int),
        ensures
            out@ == self@[slot as int].data,
    {
        let src = &self.slots[slot].data;
        let mut out: Vec<u8> = Vec::new();
        let mut i: usize = 0;
        while i < src.len()
            invariant
                i <= src.len(),
                out@ == src@.subrange(0, i as int),
            decreases src.len() - i,
        {
            out.push(src[i]);
            assert(out@ =~= src@.subrange(0, i + 1));
            i = i + 1;
        }
        assert(out@ =~= src@);
        out
    }

    /// Makes `r` the sole reference to its bytes. If it already is, nothing
    /// changes. If the buffer is shared, `r` leaves it and is moved to a new
    /// buffer with a copy of the bytes; every other reference keeps naming
    /// the old buffer. The answer says whether a copy was made. `UsageError`
    /// if `r` names no buffer in use; pool and `r` are then unchanged.
    pub fn make_writable(&mut self, r: &mut BufferRef) -> (out: Result<bool, RsmpegError>)
        ensures
            !old(self).holds(old(r)) ==> out == Err::<bool, RsmpegError>(RsmpegError::UsageError)
                && final(self)@ == old(self)@ && *final(r) == *old(r),
            old(self).holds(old(r)) ==> out == Ok::<bool, RsmpegError>(old(self).refs(old(r)) > 1)
                && final(self)@ == make_writable_spec(old(self)@, old(r).slot())
                && final(r).slot() == writable_slot(old(self)@, old(r).slot())
                && final(self).holds(final(r)) && final(self).refs(final(r)) == 1
                && final(self).bytes(final(r)) == old(self).bytes(old(r)),
    {
        if !self.is_live(r) {
            return Err(RsmpegError::UsageError);
        }
        let ghost before = self@;
        let n = self.slots[r.slot].refs;
        if n == 1 {
            return Ok(false);
        }
        let copy = self.copy_of(r.slot);
        self.slots[r.slot].refs = n - 1;
        assert(self@ =~= unref_spec(before, r.slot()));
        let i = self.lowest_free();
        proof {
            lemma_first_free(self@, 0);
        }
        self.put(i, Slot { data: copy, refs: 1 });
        r.slot = i;
        Ok(true)
    }

    /// Writes `patch` over the bytes of `r` from `offset` on, through a
    /// reference that is, or is first made, the sole one to its bytes: no
    /// other reference sees the change. `UsageError` if `r` names no buffer in
    /// use or the bytes would not fit; pool and `r` are then unchanged.
    pub fn write(&mut self, r: &mut BufferRef, offset: usize, patch: &[u8]) -> (out: Result<
        (),
        RsmpegError,
    >)
        ensures
            out is Ok <==> old(self).holds(old(r)) && offset + patch@.len() <= old(self).bytes(
                old(r),
            ).len(),
            out is Err ==> out == Err::<(), RsmpegError>(RsmpegError::UsageError) && final(self)@
                == old(self)@ && *final(r) == *old(r),
            out is Ok ==> final(self)@ == write_spec(
                old(self)@,
                old(r).slot(),
                offset as int,
                patch@,
            ) && final(r).slot() == writable_slot(old(self)@, old(r).slot()) && final(self).holds(
                final(r),
            ) && final(self).refs(final(r)) == 1 && final(self).bytes(final(r)) == overlay(
                old(self).bytes(old(r)),
                offset as int,
                patch@,
            ),
    {
        if !self.is_live(r) {
            return Err(RsmpegError::UsageError);
        }
        let len = self.slots[r.slot].data.len();
        if offset > len || patch.len() > len - offset {
            return Err(RsmpegError::UsageError);
        }
        let ghost before = self@;
        let ghost from = r.slot();
        let ghost base = self@[r.slot()].data;
        let moved = self.make_writable(r);
        assert(moved is Ok);
        let ghost mid = self.slots@;
        let target = r.slot;
        let mut i: usize = 0;
        while i < patch.len()
            invariant
                i <= patch.len(),
                target < self.slots.len(),
                self.slots.len() == mid.len(),
                offset + patch.len() <= self.slots[target as int].data.len(),
                self.slots[target as int].refs == 1,
                self.slots[target as int].data@.len() == base.len(),
                forall|k: int|
                    0 <= k < base.len() ==> self.slots[target as int].data@[k] == (if offset <= k
                        < offset + i {
                        patch@[k - offset]
                    } else {
                        base[k]
                    }),
                forall|s: int| 0 <= s < mid.len() && s != target ==> self.slots@[s] == mid[s],
            decreases patch.len() - i,
        {
            let b = patch[i];
            self.slots[target].data.set(offset + i, b);
            i = i + 1;
        }
        assert(self@[target as int].data =~= overlay(base, offset as int, patch@));
        assert(self@ =~= write_spec(before, from, offset as int, patch@));
        Ok(())
    }
}

/// A patch that covers all of the bytes replaces them: what is left is the
/// patch.
pub proof fn lemma_overlay_whole(base: Seq<u8>, patch: Seq<u8>)
    requires
        patch.len() == base.len(),
    ensures
        overlay(base, 0, patch) == patch,
{
    assert(overlay(base, 0, patch) =~= patch);
}

/// Copy-on-write: a write through one of two references to the same buffer
/// leaves the bytes that the other reference names as they were, and leaves
/// that other reference in use.
pub proof fn lemma_write_keeps_alias(
    pool: Seq<SlotView>,
    slot: int,
    offset: int,
    patch: Seq<u8>,
)
    requires
        live(pool, slot),
        pool[slot].refs >= 2,
    ensures
        writable_slot(pool, slot) != slot,
        live(write_spec(pool, slot, offset, patch), slot),
        write_spec(pool, slot, offset, patch)[slot].data == pool[slot].data,
        write_spec(pool, slot, offset, patch)[slot].refs == pool[slot].refs - 1,
{
    let left = unref_spec(pool, slot);
    lemma_first_free(left, 0);
}

/// A write changes the bytes of no buffer but the one that the writing
/// reference ends up naming: every other buffer in use keeps its bytes.
pub proof fn lemma_write_keeps_others(
    pool: Seq<SlotView>,
    slot: int,
    other: int,
    offset: int,
    patch: Seq<u8>,
)
    requires
        live(pool, slot),
        live(pool, other),
        other != slot || pool[slot].refs >= 2,
    ensures
        live(write_spec(pool, slot, offset, patch), other),
        write_spec(pool, slot, offset, patch)[other].data == pool[other].data,
{
    let left = unref_spec(pool, slot);
    lemma_first_free(left, 0);
    lemma_first_free(pool, 0);
}

/// Every buffer is freed exactly when its last reference is given back:
/// giving back one of several leaves it in use with its bytes, giving back
/// the only one leaves the slot free.
pub proof fn lemma_unref_frees_last(pool: Seq<SlotView>, slot: int)
    requires
        live(pool, slot),
    ensures
        pool[slot].refs == 1 <==> !live(unref_spec(pool, slot), slot),
        pool[slot].refs > 1 ==> unref_spec(pool, slot)[slot].data == pool[slot].data,
        forall|s: int|
            0 <= s < pool.len() && s != slot ==> #[trigger] unref_spec(pool, slot)[s] == pool[s],
{
}

} // verus!
