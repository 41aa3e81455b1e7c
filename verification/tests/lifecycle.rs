use webrtc_harness::{
    BundleLifecycle, Environment, PeerConnectionHandle, RefCountArena, RegistrationLedger,
    ScopedRef, UniqueArena, UniqueOwned, UniqueHandle, simulate_register_teardown,
};

struct ProbeUniqueHandle;

impl UniqueHandle for ProbeUniqueHandle {}

#[test]
fn create_and_drop_environment() {
    let _env = Environment::new();
}

#[test]
fn scoped_ref_clones_balance_releases() {
    let mut arena = RefCountArena::new();
    let slot = arena.allocate();
    let original: ScopedRef<PeerConnectionHandle> = ScopedRef::from_raw(slot);
    assert_eq!(arena.slot(slot).refcount, 1);
    assert_eq!(arena.slot(slot).acquires, 1);

    let clone_a = original.clone(&mut arena);
    let clone_b = original.clone(&mut arena);
    let clone_c = original.clone(&mut arena);
    assert_eq!(arena.slot(slot).refcount, 4);
    assert_eq!(arena.slot(slot).acquires, 4);
    assert_eq!(arena.slot(slot).releases, 0);

    clone_a.release(&mut arena);
    clone_b.release(&mut arena);
    clone_c.release(&mut arena);
    assert_eq!(arena.slot(slot).releases, 3);
    assert_eq!(arena.slot(slot).refcount, 1);
    assert!(arena.slot(slot).alive);

    original.release(&mut arena);
    assert_eq!(arena.slot(slot).releases, 4);
    assert_eq!(arena.slot(slot).refcount, 0);
    assert!(!arena.slot(slot).alive);
    assert_eq!(arena.slot(slot).acquires, arena.slot(slot).releases);
}

#[test]
fn scoped_ref_clone_then_drop_keeps_original_valid() {
    let mut arena = RefCountArena::new();
    let slot = arena.allocate();
    let original: ScopedRef<PeerConnectionHandle> = ScopedRef::from_raw(slot);

    let clone = original.clone(&mut arena);
    clone.release(&mut arena);
    assert!(arena.slot(slot).alive);
    assert_eq!(arena.slot(slot).refcount, 1);
    assert!(!original.as_refcounted_ptr().is_null());
    assert!(!original.as_ptr(&arena).is_null());
    original.release(&mut arena);
}

#[test]
fn unique_owned_delete_destroys_exactly_once() {
    let mut arena = UniqueArena::new();
    let slot = arena.allocate();
    let owned: UniqueOwned<ProbeUniqueHandle> = UniqueOwned::from_unique(slot);
    assert!(arena.slot(slot).alive);
    assert_eq!(arena.slot(slot).destroys, 0);
    assert!(!owned.as_ptr(&arena).is_null());

    owned.delete(&mut arena);
    assert!(!arena.slot(slot).alive);
    assert_eq!(arena.slot(slot).destroys, 1);
}

#[test]
fn unique_owned_into_raw_forfeits_the_destroy() {
    let mut arena = UniqueArena::new();
    let slot = arena.allocate();
    let owned: UniqueOwned<ProbeUniqueHandle> = UniqueOwned::from_unique(slot);

    let raw = owned.into_raw();
    assert_eq!(raw, slot);
    assert!(arena.slot(slot).alive);
    assert_eq!(arena.slot(slot).destroys, 0);

    arena.destroy(raw);
    assert!(!arena.slot(slot).alive);
    assert_eq!(arena.slot(slot).destroys, 1);
}

#[test]
fn bundle_lifecycle_frees_once() {
    let mut lifecycle = BundleLifecycle::register();
    assert!(!lifecycle.freed);
    assert_eq!(lifecycle.teardowns, 0);

    let freed_now = lifecycle.on_destroy();
    assert!(freed_now);
    assert!(lifecycle.freed);
    assert_eq!(lifecycle.teardowns, 1);

    let freed_again = lifecycle.on_destroy();
    assert!(!freed_again);
    assert_eq!(lifecycle.teardowns, 1);
}

#[test]
fn ledger_counts_a_free_per_registration() {
    let mut ledger = RegistrationLedger::new();
    let first = ledger.register();
    let second = ledger.register();
    assert_eq!(ledger.freed_total(), 0);

    assert!(ledger.on_destroy(first));
    assert_eq!(ledger.freed_total(), 1);
    assert!(ledger.on_destroy(second));
    assert_eq!(ledger.freed_total(), 2);

    assert!(!ledger.on_destroy(first));
    assert_eq!(ledger.freed_total(), 2);
    assert_eq!(ledger.registration(first).teardowns, 1);
    assert_eq!(ledger.registration(second).teardowns, 1);
}

#[test]
fn simulated_registrations_free_exactly_once_each() {
    let ledger = simulate_register_teardown(7);
    assert_eq!(ledger.freed_total(), 7);
    let mut reg: u32 = 0;
    while reg < 7 {
        assert!(ledger.registration(reg).freed);
        assert_eq!(ledger.registration(reg).teardowns, 1);
        reg += 1;
    }
}
