//! Exclusive ownership of native objects, modeled and verified.
//!
//! A "unique" native object has a matched create/destroy pair and exactly
//! one owner. [`UniqueArena`] is the allocation-counting model of that part
//! of the native heap; [`UniqueOwned`] is the generic owner, driven by a
//! per-interface [`UniqueHandle`] descriptor. The owner discharges its
//! destroy obligation exactly once: through [`UniqueOwned::delete`], or by
//! forfeiting it with [`UniqueOwned::into_raw`] to a native consumer that
//! performs the destroy itself.

use vstd::prelude::*;

use crate::NativePtr;

verus! {

/// The model of one exclusively-owned native object: whether it is still
/// allocated, and how many times a destroy was applied to it.
#[derive(Clone, Copy, Debug, PartialEq, Eq, Structural)]
pub struct UniqueSlot {
    pub alive: bool,
    pub destroys: u64,
}

/// Well-formedness of one slot: destroyed at most once, and exactly once
/// when no longer alive.
pub open spec fn unique_slot_wf(s: UniqueSlot) -> bool {
    &&& s.alive == (s.destroys == 0)
    &&& s.destroys <= 1
}

/// A slot as the native constructor returns it.
pub open spec fn fresh_unique_slot() -> UniqueSlot {
    UniqueSlot { alive: true, destroys: 0 }
}

/// The slot after its destroy ran.
pub open spec fn destroyed_unique_slot(s: UniqueSlot) -> UniqueSlot {
    UniqueSlot { alive: false, destroys: (s.destroys + 1) as u64 }
}

/// Destroying a live, well-formed object applies exactly one destroy — never
/// zero, and the resulting state admits no second one.
pub proof fn lemma_exactly_one_destroy(s: UniqueSlot)
    requires
        unique_slot_wf(s),
        s.alive,
    ensures
        destroyed_unique_slot(s).destroys == 1,
        !destroyed_unique_slot(s).alive,
        unique_slot_wf(destroyed_unique_slot(s)),
{
}

/// The allocation-counting model of the native heap of unique objects.
/// Slots are never reused, so the destroy count of every object ever created
/// remains observable.
pub struct UniqueArena {
    slots: Vec<UniqueSlot>,
}

impl View for UniqueArena {
    type V = Seq<UniqueSlot>;

    closed spec fn view(&self) -> Seq<UniqueSlot> {
        self.slots@
    }
}

impl UniqueArena {
    /// An empty native heap.
    pub fn new() -> (r: UniqueArena)
        ensures
            r@.len() == 0,
    {
        UniqueArena { slots: Vec::new() }
    }

    /// Whether `slot` names an object this arena has ever allocated.
    pub open spec fn valid(self, slot: u32) -> bool {
        slot < self@.len()
    }

    /// Every slot of the arena is well-formed.
    pub open spec fn wf(self) -> bool {
        forall|i: int| 0 <= i < self@.len() ==> unique_slot_wf(#[trigger] self@[i])
    }

    /// A native constructor: allocates a fresh object the caller owns.
    pub fn allocate(&mut self) -> (slot: u32)
        requires
            old(self)@.len() < u32::MAX,
        ensures
            final(self)@ == old(self)@.push(fresh_unique_slot()),
            slot == old(self)@.len(),
            final(self).valid(slot),
            old(self).wf() ==> final(self).wf(),
    {
        let slot = self.slots.len();
        self.slots.push(UniqueSlot { alive: true, destroys: 0 });
        slot as u32
    }

    /// The current state of one slot, for inspection.
    pub fn slot(&self, slot: u32) -> (r: UniqueSlot)
        requires
            self.valid(slot),
        ensures
            r == self@[slot as int],
    {
        self.slots[slot as usize]
    }

    /// The native destroy of one object. Demanding a live object makes a
    /// second destroy inexpressible.
    pub fn destroy(&mut self, slot: u32)
        requires
            old(self).valid(slot),
            old(self)@[slot as int].alive,
            unique_slot_wf(old(self)@[slot as int]),
        ensures
            final(self)@ == old(self)@.update(
                slot as int,
                destroyed_unique_slot(old(self)@[slot as int]),
            ),
            final(self)@[slot as int].destroys == 1,
            old(self).wf() ==> final(self).wf(),
    {
        let s = self.slots[slot as usize];
        self.slots.set(slot as usize, UniqueSlot { alive: false, destroys: s.destroys + 1 });
        proof {
            if old(self).wf() {
                assert forall|i: int| 0 <= i < self@.len() implies unique_slot_wf(
                    #[trigger] self@[i],
                ) by {
                    if i != slot as int {
                        assert(self@[i] == old(self)@[i]);
                    }
                }
            }
        }
    }
}

/// The descriptor of one exclusively-owned native interface: how to reach
/// the payload from the unique pointer, and how to destroy the object.
pub trait UniqueHandle: Sized {
    /// Payload pointer of a live object; never null.
    fn get(arena: &UniqueArena, raw_unique: u32) -> (r: NativePtr)
        requires
            arena.valid(raw_unique),
            arena@[raw_unique as int].alive,
        ensures
            r.addr == raw_unique as u64 + 1,
    {
        NativePtr { addr: raw_unique as u64 + 1 }
    }

    /// The matched destroy of the create that produced the object.
    fn delete(arena: &mut UniqueArena, raw_unique: u32)
        requires
            old(arena).valid(raw_unique),
            old(arena)@[raw_unique as int].alive,
            unique_slot_wf(old(arena)@[raw_unique as int]),
        ensures
            final(arena)@ == old(arena)@.update(
                raw_unique as int,
                destroyed_unique_slot(old(arena)@[raw_unique as int]),
            ),
            final(arena)@[raw_unique as int].destroys == 1,
            old(arena).wf() ==> final(arena).wf(),
    {
        arena.destroy(raw_unique);
    }
}

/// The generic owner of one exclusively-owned native object.
///
/// Exactly one destroy happens over the value's lifetime: `delete` performs
/// it, and `into_raw` forfeits it by consuming the owner — after which no
/// path of this type can reach the object again, so the native consumer of
/// the returned pointer is the one place left that may destroy it.
#[derive(Debug)]
pub struct UniqueOwned<H: UniqueHandle> {
    raw_unique: u32,
    marker: core::marker::PhantomData<H>,
}

impl<H: UniqueHandle> UniqueOwned<H> {
    /// The slot this owner holds.
    pub closed spec fn slot(self) -> u32 {
        self.raw_unique
    }

    /// Takes ownership of an object the native constructor produced.
    pub fn from_unique(raw_unique: u32) -> (r: Self)
        ensures
            r.slot() == raw_unique,
    {
        UniqueOwned { raw_unique, marker: core::marker::PhantomData }
    }

    /// The payload pointer, as a borrow-only view; never null while the
    /// object is alive.
    pub fn as_ptr(&self, arena: &UniqueArena) -> (r: NativePtr)
        requires
            arena.valid(self.slot()),
            arena@[self.slot() as int].alive,
        ensures
            r.addr == self.slot() as u64 + 1,
            r.addr != 0,
    {
        H::get(arena, self.raw_unique)
    }

    /// Destroys the object: the owner's one obligation, discharged.
    pub fn delete(self, arena: &mut UniqueArena)
        requires
            old(arena).valid(self.slot()),
            old(arena)@[self.slot() as int].alive,
            unique_slot_wf(old(arena)@[self.slot() as int]),
        ensures
            final(arena)@ == old(arena)@.update(
                self.slot() as int,
                destroyed_unique_slot(old(arena)@[self.slot() as int]),
            ),
            final(arena)@[self.slot() as int].destroys == 1,
            old(arena).wf() ==> final(arena).wf(),
    {
        H::delete(arena, self.raw_unique);
    }

    /// Forfeits the destroy obligation, consuming the owner and returning
    /// the raw slot for a native consumer that takes over responsibility for
    /// destroying the object. Because `self` is consumed, this wrapper can
    /// never destroy the object afterwards: one free, never two, from this
    /// side of the boundary.
    pub fn into_raw(self) -> (r: u32)
        ensures
            r == self.slot(),
    {
        self.raw_unique
    }
}

} // verus!

verus! {

/// The descriptor of the C++ string interface.
pub struct CxxStringHandle;

impl UniqueHandle for CxxStringHandle {

}

/// The descriptor of the string vector interface.
pub struct StringVectorHandle;

impl UniqueHandle for StringVectorHandle {

}

/// The descriptor of the session description interface.
pub struct SessionDescriptionHandle;

impl UniqueHandle for SessionDescriptionHandle {

}

/// The descriptor of the SDP parse error interface.
pub struct SdpParseErrorHandle;

impl UniqueHandle for SdpParseErrorHandle {

}

/// The descriptor of the RTC error interface.
pub struct RtcErrorHandle;

impl UniqueHandle for RtcErrorHandle {

}

/// The descriptor of the worker thread interface.
pub struct ThreadHandle;

impl UniqueHandle for ThreadHandle {

}

/// The descriptor of the timestamp aligner interface.
pub struct TimestampAlignerHandle;

impl UniqueHandle for TimestampAlignerHandle {

}

/// The descriptor of the SDP video format interface.
pub struct SdpVideoFormatHandle;

impl UniqueHandle for SdpVideoFormatHandle {

}

/// The descriptor of the video encoder interface.
pub struct VideoEncoderUniqueHandle;

impl UniqueHandle for VideoEncoderUniqueHandle {

}

/// The descriptor of the video decoder interface.
pub struct VideoDecoderUniqueHandle;

impl UniqueHandle for VideoDecoderUniqueHandle {

}

} // verus!
