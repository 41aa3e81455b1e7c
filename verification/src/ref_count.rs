//! Intrusive reference counting, modeled and verified.
//!
//! A refcounted native object is represented by a [`RefSlot`] inside a
//! [`RefCountArena`]: the arena is the model of the native heap and counts
//! every acquisition and every release ever applied to each object, so the
//! balance between them is a provable fact rather than a convention.
//!
//! [`ScopedRef`] is the generic owner of one logical reference, driven by a
//! per-interface [`RefCountedHandle`] descriptor, as `webrtc::scoped_refptr`
//! is driven by the AddRef/Release pair of each interface.

use vstd::prelude::*;

use crate::NativePtr;

verus! {

/// The model of one refcounted native object.
///
/// `refcount` is the current intrusive count, `acquires` the number of
/// logical references ever handed out (the initial reference of the
/// constructor included), `releases` the number of releases ever applied.
/// The object is `alive` until the count reaches zero; the native side frees
/// it inside the release call that takes the count to zero.
#[derive(Clone, Copy, Debug, PartialEq, Eq, Structural)]
pub struct RefSlot {
    pub refcount: u64,
    pub acquires: u64,
    pub releases: u64,
    pub alive: bool,
}

/// Well-formedness of one slot: the current count is exactly the acquisitions
/// not yet balanced by a release, and liveness mirrors a positive count.
pub open spec fn slot_wf(s: RefSlot) -> bool {
    &&& s.alive == (s.refcount > 0)
    &&& s.releases <= s.acquires
    &&& s.refcount == s.acquires - s.releases
}

/// The slot as it stands right after the native constructor returned it:
/// one logical reference, owned by whoever received the pointer.
pub open spec fn fresh_slot() -> RefSlot {
    RefSlot { refcount: 1, acquires: 1, releases: 0, alive: true }
}

/// The slot after one more reference was acquired.
pub open spec fn slot_after_add_ref(s: RefSlot) -> RefSlot {
    RefSlot {
        refcount: (s.refcount + 1) as u64,
        acquires: (s.acquires + 1) as u64,
        releases: s.releases,
        alive: true,
    }
}

/// The slot after one reference was released; the release that balances the
/// last acquisition frees the object.
pub open spec fn slot_after_release(s: RefSlot) -> RefSlot {
    RefSlot {
        refcount: (s.refcount - 1) as u64,
        acquires: s.acquires,
        releases: (s.releases + 1) as u64,
        alive: s.refcount > 1,
    }
}

/// The slot after `n` further references were acquired.
pub open spec fn slot_after_add_refs(s: RefSlot, n: nat) -> RefSlot
    decreases n,
{
    if n == 0 {
        s
    } else {
        slot_after_add_ref(slot_after_add_refs(s, (n - 1) as nat))
    }
}

/// The slot after `n` references were released.
pub open spec fn slot_after_releases(s: RefSlot, n: nat) -> RefSlot
    decreases n,
{
    if n == 0 {
        s
    } else {
        slot_after_release(slot_after_releases(s, (n - 1) as nat))
    }
}

/// Acquiring `n` references and then releasing all `n` of them applies
/// exactly `n` releases, restores the count, and leaves the object exactly as
/// alive as it was: a clone that is dropped again never frees the object the
/// original still owns.
pub proof fn lemma_clones_balance(s: RefSlot, n: nat)
    requires
        slot_wf(s),
        s.alive,
        s.acquires + n <= u64::MAX,
    ensures
        slot_after_releases(slot_after_add_refs(s, n), n).refcount == s.refcount,
        slot_after_releases(slot_after_add_refs(s, n), n).alive,
        slot_after_releases(slot_after_add_refs(s, n), n).acquires == s.acquires + n,
        slot_after_releases(slot_after_add_refs(s, n), n).releases == s.releases + n,
        slot_wf(slot_after_releases(slot_after_add_refs(s, n), n)),
    decreases n,
{
    if n > 0 {
        lemma_clones_balance(s, (n - 1) as nat);
        lemma_add_refs_counts(s, n);
        lemma_add_refs_counts(s, (n - 1) as nat);
        assert(slot_after_add_refs(s, n) == slot_after_add_ref(
            slot_after_add_refs(s, (n - 1) as nat),
        ));
        lemma_release_after_adds(s, (n - 1) as nat, n);
    }
}

/// After `n` acquisitions every count is shifted by exactly `n` and the
/// object is still alive.
pub proof fn lemma_add_refs_counts(s: RefSlot, n: nat)
    requires
        slot_wf(s),
        s.alive,
        s.acquires + n <= u64::MAX,
    ensures
        slot_after_add_refs(s, n).refcount == s.refcount + n,
        slot_after_add_refs(s, n).acquires == s.acquires + n,
        slot_after_add_refs(s, n).releases == s.releases,
        slot_after_add_refs(s, n).alive,
        slot_wf(slot_after_add_refs(s, n)),
    decreases n,
{
    if n > 0 {
        lemma_add_refs_counts(s, (n - 1) as nat);
    }
}

/// Helper: releasing `k + 1` times after `m + 1` acquisitions is releasing
/// once after the state reached by `m + 1` acquisitions and `k` releases.
proof fn lemma_release_after_adds(s: RefSlot, m: nat, k: nat)
    requires
        slot_wf(s),
        s.alive,
        s.acquires + m + 1 <= u64::MAX,
        k <= s.refcount + m + 1,
    ensures
        slot_after_releases(slot_after_add_refs(s, (m + 1) as nat), k).refcount == s.refcount + m
            + 1 - k,
        slot_after_releases(slot_after_add_refs(s, (m + 1) as nat), k).acquires == s.acquires + m
            + 1,
        slot_after_releases(slot_after_add_refs(s, (m + 1) as nat), k).releases == s.releases + k,
        slot_after_releases(slot_after_add_refs(s, (m + 1) as nat), k).alive == (s.refcount + m + 1
            - k > 0),
        slot_wf(slot_after_releases(slot_after_add_refs(s, (m + 1) as nat), k)),
    decreases k,
{
    lemma_add_refs_counts(s, (m + 1) as nat);
    if k > 0 {
        lemma_release_after_adds(s, m, (k - 1) as nat);
    }
}

/// Dropping the original owner as well — `n` clones and `n + 1` releases in
/// all — balances every acquisition and frees the object: for a sole owner,
/// `n` clones dropped plus the final drop give exactly `n + 1` releases and a
/// refcount of zero.
pub proof fn lemma_last_release_frees(s: RefSlot, n: nat)
    requires
        slot_wf(s),
        s.alive,
        s.refcount == 1,
        s.acquires + n <= u64::MAX,
    ensures
        slot_after_releases(slot_after_add_refs(s, n), (n + 1) as nat).refcount == 0,
        !slot_after_releases(slot_after_add_refs(s, n), (n + 1) as nat).alive,
        slot_after_releases(slot_after_add_refs(s, n), (n + 1) as nat).releases == s.releases + n
            + 1,
        slot_after_releases(slot_after_add_refs(s, n), (n + 1) as nat).acquires
            == slot_after_releases(slot_after_add_refs(s, n), (n + 1) as nat).releases,
    decreases n,
{
    if n == 0 {
        assert(slot_after_add_refs(s, 0) == s);
        assert(slot_after_releases(s, 0) == s);
        assert(slot_after_releases(s, 1) == slot_after_release(slot_after_releases(s, 0)));
    } else {
        lemma_release_after_adds(s, (n - 1) as nat, (n + 1) as nat);
    }
}

/// The allocation-counting model of the native heap of refcounted objects.
///
/// Slots are never reused: a freed object keeps its history, so double
/// releases and use after free are expressible — and excluded by the
/// contracts of the operations.
pub struct RefCountArena {
    slots: Vec<RefSlot>,
}

impl View for RefCountArena {
    type V = Seq<RefSlot>;

    closed spec fn view(&self) -> Seq<RefSlot> {
        self.slots@
    }
}

impl RefCountArena {
    /// An empty native heap.
    pub fn new() -> (r: RefCountArena)
        ensures
            r@.len() == 0,
    {
        RefCountArena { slots: Vec::new() }
    }

    /// Whether `slot` names an object this arena has ever allocated.
    pub open spec fn valid(self, slot: u32) -> bool {
        slot < self@.len()
    }

    /// Every slot of the arena is well-formed.
    pub open spec fn wf(self) -> bool {
        forall|i: int| 0 <= i < self@.len() ==> slot_wf(#[trigger] self@[i])
    }

    /// A native constructor: allocates a fresh object carrying one logical
    /// reference, which the caller now owns.
    pub fn allocate(&mut self) -> (slot: u32)
        requires
            old(self)@.len() < u32::MAX,
        ensures
            final(self)@ == old(self)@.push(fresh_slot()),
            slot == old(self)@.len(),
            final(self).valid(slot),
            old(self).wf() ==> final(self).wf(),
    {
        let slot = self.slots.len();
        self.slots.push(
            RefSlot { refcount: 1, acquires: 1, releases: 0, alive: true },
        );
        assert(slot_wf(fresh_slot()));
        slot as u32
    }

    /// The current state of one slot, for inspection.
    pub fn slot(&self, slot: u32) -> (r: RefSlot)
        requires
            self.valid(slot),
        ensures
            r == self@[slot as int],
    {
        self.slots[slot as usize]
    }

    /// The native AddRef: one more logical reference.
    pub fn add_ref(&mut self, slot: u32)
        requires
            old(self).valid(slot),
            old(self)@[slot as int].alive,
            slot_wf(old(self)@[slot as int]),
            old(self)@[slot as int].acquires < u64::MAX,
        ensures
            final(self)@ == old(self)@.update(slot as int, slot_after_add_ref(old(self)@[slot as int])),
            old(self).wf() ==> final(self).wf(),
    {
        let s = self.slots[slot as usize];
        let updated = RefSlot {
            refcount: s.refcount + 1,
            acquires: s.acquires + 1,
            releases: s.releases,
            alive: true,
        };
        self.slots.set(slot as usize, updated);
        proof {
            if old(self).wf() {
                assert forall|i: int| 0 <= i < self@.len() implies slot_wf(#[trigger] self@[i]) by {
                    if i != slot as int {
                        assert(self@[i] == old(self)@[i]);
                    }
                }
            }
        }
    }

    /// The native Release: gives one logical reference back; the release
    /// that balances the last acquisition frees the object.
    pub fn release(&mut self, slot: u32)
        requires
            old(self).valid(slot),
            old(self)@[slot as int].alive,
            slot_wf(old(self)@[slot as int]),
        ensures
            final(self)@ == old(self)@.update(slot as int, slot_after_release(old(self)@[slot as int])),
            old(self).wf() ==> final(self).wf(),
    {
        let s = self.slots[slot as usize];
        let updated = RefSlot {
            refcount: s.refcount - 1,
            acquires: s.acquires,
            releases: s.releases + 1,
            alive: s.refcount > 1,
        };
        self.slots.set(slot as usize, updated);
        proof {
            if old(self).wf() {
                assert forall|i: int| 0 <= i < self@.len() implies slot_wf(#[trigger] self@[i]) by {
                    if i != slot as int {
                        assert(self@[i] == old(self)@[i]);
                    }
                }
            }
        }
    }
}

/// The descriptor of one refcounted native interface: how to reach the
/// payload from a reference pointer, and how to acquire and release it.
///
/// Each wrapped interface instantiates this once; [`ScopedRef`] is then the
/// one generic owner for all of them. The operations are shared, so the
/// descriptor methods carry default bodies; an interface type only declares
/// the impl.
pub trait RefCountedHandle: Sized {
    /// Payload pointer of a live object; never null.
    fn get(arena: &RefCountArena, raw_ref: u32) -> (r: NativePtr)
        requires
            arena.valid(raw_ref),
            arena@[raw_ref as int].alive,
        ensures
            r.addr == raw_ref as u64 + 1,
    {
        NativePtr { addr: raw_ref as u64 + 1 }
    }

    /// One more logical reference on the object.
    fn add_ref(arena: &mut RefCountArena, raw_ref: u32)
        requires
            old(arena).valid(raw_ref),
            old(arena)@[raw_ref as int].alive,
            slot_wf(old(arena)@[raw_ref as int]),
            old(arena)@[raw_ref as int].acquires < u64::MAX,
        ensures
            final(arena)@ == old(arena)@.update(
                raw_ref as int,
                slot_after_add_ref(old(arena)@[raw_ref as int]),
            ),
            old(arena).wf() ==> final(arena).wf(),
    {
        arena.add_ref(raw_ref);
    }

    /// One logical reference given back.
    fn release(arena: &mut RefCountArena, raw_ref: u32)
        requires
            old(arena).valid(raw_ref),
            old(arena)@[raw_ref as int].alive,
            slot_wf(old(arena)@[raw_ref as int]),
        ensures
            final(arena)@ == old(arena)@.update(
                raw_ref as int,
                slot_after_release(old(arena)@[raw_ref as int]),
            ),
            old(arena).wf() ==> final(arena).wf(),
    {
        arena.release(raw_ref);
    }
}

/// The generic owner of one logical reference to a refcounted native object,
/// the counterpart of `webrtc::scoped_refptr`.
///
/// Every value of this type stands for exactly one acquisition; `clone`
/// acquires one more, `release` gives the value up and balances it. The
/// explicit arena keeps that discipline provable.
#[derive(Debug)]
pub struct ScopedRef<H: RefCountedHandle> {
    raw_ref: u32,
    marker: core::marker::PhantomData<H>,
}

impl<H: RefCountedHandle> ScopedRef<H> {
    /// The slot this reference owns.
    pub closed spec fn slot(self) -> u32 {
        self.raw_ref
    }

    /// Takes ownership of a reference pointer that already carries one
    /// logical reference, by the convention of whoever produced it; no
    /// further acquisition happens.
    pub fn from_raw(raw_ref: u32) -> (r: Self)
        ensures
            r.slot() == raw_ref,
    {
        ScopedRef { raw_ref, marker: core::marker::PhantomData }
    }

    /// The reference pointer, as a borrow-only view.
    pub fn as_refcounted_ptr(&self) -> (r: NativePtr)
        ensures
            r.addr == self.slot() as u64 + 1,
            r.addr != 0,
    {
        NativePtr { addr: self.raw_ref as u64 + 1 }
    }

    /// The payload pointer, as a borrow-only view; never null for a live
    /// object.
    pub fn as_ptr(&self, arena: &RefCountArena) -> (r: NativePtr)
        requires
            arena.valid(self.slot()),
            arena@[self.slot() as int].alive,
        ensures
            r.addr == self.slot() as u64 + 1,
            r.addr != 0,
    {
        H::get(arena, self.raw_ref)
    }

    /// Acquires one more logical reference and returns a second independent
    /// owner of the same object.
    pub fn clone(&self, arena: &mut RefCountArena) -> (r: Self)
        requires
            old(arena).valid(self.slot()),
            old(arena)@[self.slot() as int].alive,
            slot_wf(old(arena)@[self.slot() as int]),
            old(arena)@[self.slot() as int].acquires < u64::MAX,
        ensures
            r.slot() == self.slot(),
            final(arena)@ == old(arena)@.update(
                self.slot() as int,
                slot_after_add_ref(old(arena)@[self.slot() as int]),
            ),
            old(arena).wf() ==> final(arena).wf(),
    {
        H::add_ref(arena, self.raw_ref);
        ScopedRef { raw_ref: self.raw_ref, marker: core::marker::PhantomData }
    }

    /// Gives this owner's reference back. The object is freed by whichever
    /// owner's release takes the count to zero, inside the native call.
    pub fn release(self, arena: &mut RefCountArena)
        requires
            old(arena).valid(self.slot()),
            old(arena)@[self.slot() as int].alive,
            slot_wf(old(arena)@[self.slot() as int]),
        ensures
            final(arena)@ == old(arena)@.update(
                self.slot() as int,
                slot_after_release(old(arena)@[self.slot() as int]),
            ),
            old(arena).wf() ==> final(arena).wf(),
    {
        H::release(arena, self.raw_ref);
    }
}

} // verus!

verus! {

/// The descriptor of the audio decoder factory interface.
pub struct AudioDecoderFactoryHandle;

impl RefCountedHandle for AudioDecoderFactoryHandle {

}

/// The descriptor of the audio encoder factory interface.
pub struct AudioEncoderFactoryHandle;

impl RefCountedHandle for AudioEncoderFactoryHandle {

}

/// The descriptor of the audio device module interface.
pub struct AudioDeviceModuleHandle;

impl RefCountedHandle for AudioDeviceModuleHandle {

}

/// The descriptor of the audio track source interface.
pub struct AudioTrackSourceHandle;

impl RefCountedHandle for AudioTrackSourceHandle {

}

/// The descriptor of the audio track interface.
pub struct AudioTrackHandle;

impl RefCountedHandle for AudioTrackHandle {

}

/// The descriptor of the I420 buffer interface.
pub struct I420BufferHandle;

impl RefCountedHandle for I420BufferHandle {

}

/// The descriptor of the encoded image buffer interface.
pub struct EncodedImageBufferHandle;

impl RefCountedHandle for EncodedImageBufferHandle {

}

/// The descriptor of the adapted video track source interface.
pub struct AdaptedVideoTrackSourceHandle;

impl RefCountedHandle for AdaptedVideoTrackSourceHandle {

}

/// The descriptor of the video track source interface.
pub struct VideoTrackSourceHandle;

impl RefCountedHandle for VideoTrackSourceHandle {

}

/// The descriptor of the video track interface.
pub struct VideoTrackHandle;

impl RefCountedHandle for VideoTrackHandle {

}

/// The descriptor of the media stream track interface.
pub struct MediaStreamTrackHandle;

impl RefCountedHandle for MediaStreamTrackHandle {

}

/// The descriptor of the RTP receiver interface.
pub struct RtpReceiverHandle;

impl RefCountedHandle for RtpReceiverHandle {

}

/// The descriptor of the RTP sender interface.
pub struct RtpSenderHandle;

impl RefCountedHandle for RtpSenderHandle {

}

/// The descriptor of the peer connection interface.
pub struct PeerConnectionHandle;

impl RefCountedHandle for PeerConnectionHandle {

}

/// The descriptor of the statistics report interface.
pub struct RTCStatsReportHandle;

impl RefCountedHandle for RTCStatsReportHandle {

}

/// The descriptor of the RTP transceiver interface.
pub struct RtpTransceiverHandle;

impl RefCountedHandle for RtpTransceiverHandle {

}

/// The descriptor of the set-local-description observer interface.
pub struct SetLocalDescriptionObserverHandle;

impl RefCountedHandle for SetLocalDescriptionObserverHandle {

}

/// The descriptor of the set-remote-description observer interface.
pub struct SetRemoteDescriptionObserverHandle;

impl RefCountedHandle for SetRemoteDescriptionObserverHandle {

}

/// The descriptor of the peer connection factory interface.
pub struct PeerConnectionFactoryHandle;

impl RefCountedHandle for PeerConnectionFactoryHandle {

}

/// The descriptor of the data channel interface.
pub struct DataChannelHandle;

impl RefCountedHandle for DataChannelHandle {

}

} // verus!
