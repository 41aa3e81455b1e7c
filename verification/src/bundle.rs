//! Callback registrations and their teardown, modeled and verified.
//!
//! A registration hands the native side a callback table and an opaque user
//! data block, both heap-allocated once. The native side signals disposal by
//! invoking the registration's reserved `OnDestroy` slot exactly once; that
//! slot is the only code path that frees the two allocations. If the signal
//! never comes, the allocations are deliberately leaked — a speculative free
//! would risk a use after free that this side cannot detect.
//!
//! [`BundleLifecycle`] is the per-registration state every callback wrapper
//! of this crate embeds; [`RegistrationLedger`] is the allocation-counting
//! model over many registrations at once.

use vstd::prelude::*;

verus! {

/// The lifecycle of one callback registration: whether its bundle and table
/// are still allocated, and how many teardown signals have been applied.
#[derive(Clone, Copy, Debug, PartialEq, Eq, Structural)]
pub struct BundleLifecycle {
    pub freed: bool,
    pub teardowns: u64,
}

/// Well-formedness: freed exactly by the first teardown, and never more than
/// one teardown is applied.
pub open spec fn lifecycle_wf(s: BundleLifecycle) -> bool {
    &&& s.freed == (s.teardowns == 1)
    &&& s.teardowns <= 1
}

/// A registration as it stands right after the native register call.
pub open spec fn fresh_lifecycle() -> BundleLifecycle {
    BundleLifecycle { freed: false, teardowns: 0 }
}

/// The registration after its `OnDestroy` slot ran.
pub open spec fn torn_down_lifecycle(s: BundleLifecycle) -> BundleLifecycle {
    BundleLifecycle { freed: true, teardowns: (s.teardowns + 1) as u64 }
}

impl BundleLifecycle {
    /// The state of a fresh registration.
    pub fn register() -> (r: BundleLifecycle)
        ensures
            r == fresh_lifecycle(),
            lifecycle_wf(r),
    {
        BundleLifecycle { freed: false, teardowns: 0 }
    }

    /// Applies the native teardown signal. Returns whether this call was the
    /// one that freed the allocations: true on the first signal, false — and
    /// no state change — on any further one, so a double signal never
    /// becomes a double free.
    pub fn on_destroy(&mut self) -> (freed_now: bool)
        requires
            lifecycle_wf(*old(self)),
        ensures
            freed_now == !old(self).freed,
            old(self).freed ==> *final(self) == *old(self),
            !old(self).freed ==> *final(self) == torn_down_lifecycle(*old(self)),
            final(self).freed,
            lifecycle_wf(*final(self)),
    {
        if self.freed {
            false
        } else {
            self.freed = true;
            self.teardowns = self.teardowns + 1;
            true
        }
    }
}

/// A freed registration stays freed and was torn down exactly once: the
/// teardown slot is the one path to the free, and it runs at most once.
pub proof fn lemma_teardown_frees_once(s: BundleLifecycle)
    requires
        lifecycle_wf(s),
        !s.freed,
    ensures
        torn_down_lifecycle(s).teardowns == 1,
        torn_down_lifecycle(s).freed,
        lifecycle_wf(torn_down_lifecycle(s)),
{
}

/// How many registrations of a sequence have been freed.
pub open spec fn freed_count(regs: Seq<BundleLifecycle>) -> int
    decreases regs.len(),
{
    if regs.len() == 0 {
        0
    } else {
        freed_count(regs.drop_last()) + if regs.last().freed {
            1int
        } else {
            0int
        }
    }
}

/// The allocation-counting model over many registrations: every registration
/// ever made keeps its slot, so leaks and double frees stay observable.
pub struct RegistrationLedger {
    regs: Vec<BundleLifecycle>,
}

impl View for RegistrationLedger {
    type V = Seq<BundleLifecycle>;

    closed spec fn view(&self) -> Seq<BundleLifecycle> {
        self.regs@
    }
}

impl RegistrationLedger {
    /// A ledger with no registrations yet.
    pub fn new() -> (r: RegistrationLedger)
        ensures
            r@.len() == 0,
    {
        RegistrationLedger { regs: Vec::new() }
    }

    /// Whether `reg` names a registration this ledger has seen.
    pub open spec fn valid(self, reg: u32) -> bool {
        reg < self@.len()
    }

    /// Every registration of the ledger is well-formed.
    pub open spec fn wf(self) -> bool {
        forall|i: int| 0 <= i < self@.len() ==> lifecycle_wf(#[trigger] self@[i])
    }

    /// One registration: the bundle and its table are allocated and handed
    /// to the native side.
    pub fn register(&mut self) -> (reg: u32)
        requires
            old(self)@.len() < u32::MAX,
        ensures
            final(self)@ == old(self)@.push(fresh_lifecycle()),
            reg == old(self)@.len(),
            final(self).valid(reg),
            old(self).wf() ==> final(self).wf(),
    {
        let reg = self.regs.len();
        self.regs.push(BundleLifecycle { freed: false, teardowns: 0 });
        reg as u32
    }

    /// The state of one registration, for inspection.
    pub fn registration(&self, reg: u32) -> (r: BundleLifecycle)
        requires
            self.valid(reg),
        ensures
            r == self@[reg as int],
    {
        self.regs[reg as usize]
    }

    /// The native teardown signal for one registration; frees it on the
    /// first signal and does nothing on any further one.
    pub fn on_destroy(&mut self, reg: u32) -> (freed_now: bool)
        requires
            old(self).valid(reg),
            lifecycle_wf(old(self)@[reg as int]),
        ensures
            freed_now == !old(self)@[reg as int].freed,
            old(self)@[reg as int].freed ==> final(self)@ == old(self)@,
            !old(self)@[reg as int].freed ==> final(self)@ == old(self)@.update(
                reg as int,
                torn_down_lifecycle(old(self)@[reg as int]),
            ),
            final(self)@[reg as int].freed,
            old(self).wf() ==> final(self).wf(),
    {
        let s = self.regs[reg as usize];
        if s.freed {
            proof {
                assert(final(self)@ =~= old(self)@);
            }
            false
        } else {
            self.regs.set(
                reg as usize,
                BundleLifecycle { freed: true, teardowns: s.teardowns + 1 },
            );
            proof {
                if old(self).wf() {
                    assert forall|i: int| 0 <= i < self@.len() implies lifecycle_wf(
                        #[trigger] self@[i],
                    ) by {
                        if i != reg as int {
                            assert(self@[i] == old(self)@[i]);
                        }
                    }
                }
            }
            true
        }
    }

    /// How many registrations have been freed so far.
    pub fn freed_total(&self) -> (r: u64)
        requires
            self@.len() <= u64::MAX,
        ensures
            r == freed_count(self@),
    {
        let mut total: u64 = 0;
        let mut i: usize = 0;
        proof {
            assert(self@.subrange(0, 0) =~= Seq::<BundleLifecycle>::empty());
        }
        while i < self.regs.len()
            invariant
                0 <= i <= self@.len(),
                self@.len() <= u64::MAX,
                total == freed_count(self@.subrange(0, i as int)),
                total <= i,
            decreases self@.len() - i,
        {
            proof {
                assert(self@.subrange(0, i + 1).drop_last() =~= self@.subrange(0, i as int));
                assert(self@.subrange(0, i + 1).last() == self@[i as int]);
                lemma_freed_count_bounds(self@.subrange(0, i + 1));
            }
            if self.regs[i].freed {
                total = total + 1;
            }
            i = i + 1;
        }
        proof {
            assert(self@.subrange(0, self@.len() as int) =~= self@);
        }
        total
    }
}

/// The freed count of a sequence of registrations never exceeds its length.
pub proof fn lemma_freed_count_bounds(regs: Seq<BundleLifecycle>)
    ensures
        0 <= freed_count(regs) <= regs.len(),
    decreases regs.len(),
{
    if regs.len() > 0 {
        lemma_freed_count_bounds(regs.drop_last());
    }
}

/// The simulation behind the teardown accounting: `n` registrations, then
/// one teardown signal for each, against the allocation-counting ledger.
/// Exactly `n` frees happen — no leak and no double free: every registration
/// ends freed, by exactly one teardown.
pub fn simulate_register_teardown(n: u32) -> (ledger: RegistrationLedger)
    ensures
        ledger@.len() == n,
        freed_count(ledger@) == n,
        forall|i: int| 0 <= i < n ==> (#[trigger] ledger@[i]).teardowns == 1,
        ledger.wf(),
{
    let mut ledger = RegistrationLedger::new();
    let mut i: u32 = 0;
    while i < n
        invariant
            0 <= i <= n,
            ledger@.len() == i,
            ledger.wf(),
            forall|j: int| 0 <= j < i ==> !(#[trigger] ledger@[j]).freed,
        decreases n - i,
    {
        let _ = ledger.register();
        i = i + 1;
    }
    let mut k: u32 = 0;
    while k < n
        invariant
            0 <= k <= n,
            ledger@.len() == n,
            ledger.wf(),
            forall|j: int| 0 <= j < k ==> (#[trigger] ledger@[j]).freed
                && ledger@[j].teardowns == 1,
            forall|j: int| k <= j < n ==> !(#[trigger] ledger@[j]).freed,
        decreases n - k,
    {
        let _ = ledger.on_destroy(k);
        k = k + 1;
    }
    proof {
        lemma_all_freed_count(ledger@);
    }
    ledger
}

/// A sequence of registrations that are all freed has a freed count equal to
/// its length.
pub proof fn lemma_all_freed_count(regs: Seq<BundleLifecycle>)
    requires
        forall|i: int| 0 <= i < regs.len() ==> (#[trigger] regs[i]).freed,
    ensures
        freed_count(regs) == regs.len(),
    decreases regs.len(),
{
    if regs.len() > 0 {
        lemma_all_freed_count(regs.drop_last());
    }
}

} // verus!
