use oak_interop::boundary::{handle_or_null, oak_delete_hpke_key_pair, oak_generate_hpke_key_pair};
use oak_interop::key_pair::{
    InvalidHandleError, KeyGenerationError, KeyPairHandle, OakHpkeKeyPair, PLACEHOLDER_MARKER,
};
use oak_interop::provider::{KeyProvider, PlaceholderProvider, UnavailableProvider};
use oak_interop::registry::KeyPairRegistry;

#[test]
fn generate_then_release_wipes_the_key_material() {
    let mut registry = KeyPairRegistry::new();
    let handle = oak_generate_hpke_key_pair(&mut registry, &mut PlaceholderProvider);
    assert!(!handle.is_null());
    assert!(registry.is_live(handle));
    assert_eq!(registry.lookup(handle).map(|k| k.marker()), Ok(10));
    assert_eq!(registry.inspect_cell(0), Some((false, 10)));

    oak_delete_hpke_key_pair(&mut registry, handle);
    assert!(!registry.is_live(handle));
    assert_eq!(registry.storage_len(), 1);
    assert_eq!(registry.inspect_cell(0), Some((true, 0)));
    assert_ne!(registry.inspect_cell(0).map(|c| c.1), Some(PLACEHOLDER_MARKER));
    assert_eq!(registry.inspect_cell(1), None);
}

#[test]
fn provider_failure_gives_null_and_changes_nothing() {
    let mut registry = KeyPairRegistry::new();
    let kept = oak_generate_hpke_key_pair(&mut registry, &mut PlaceholderProvider);
    let issued = registry.issued_count();
    let cells = registry.storage_len();

    let handle = oak_generate_hpke_key_pair(&mut registry, &mut UnavailableProvider);
    assert!(handle.is_null());
    assert_eq!(handle, KeyPairHandle::null());
    assert_eq!(registry.issued_count(), issued);
    assert_eq!(registry.storage_len(), cells);
    assert!(registry.is_live(kept));
    assert_eq!(registry.inspect_cell(0), Some((false, 10)));

    assert_eq!(
        registry.generate(&mut UnavailableProvider),
        Err(KeyGenerationError::ProviderFailure)
    );
    assert_eq!(registry.issue(None), Err(KeyGenerationError::ProviderFailure));
    assert_eq!(registry.issued_count(), issued);
    assert_eq!(registry.storage_len(), cells);
}

#[test]
fn exhausted_handle_values_give_an_error() {
    let mut registry = KeyPairRegistry::starting_after(u64::MAX - 1);
    let last = registry.generate(&mut PlaceholderProvider);
    assert_eq!(last, Ok(KeyPairHandle::from_raw(u64::MAX)));
    assert_eq!(
        registry.generate(&mut PlaceholderProvider),
        Err(KeyGenerationError::HandlesExhausted)
    );
    assert_eq!(
        registry.issue(Some(OakHpkeKeyPair::new(7))),
        Err(KeyGenerationError::HandlesExhausted)
    );
    assert_eq!(registry.issue(None), Err(KeyGenerationError::ProviderFailure));
    assert!(oak_generate_hpke_key_pair(&mut registry, &mut PlaceholderProvider).is_null());
    assert_eq!(registry.issued_count(), u64::MAX);
    assert_eq!(registry.storage_len(), 1);
    assert!(registry.is_live(KeyPairHandle::from_raw(u64::MAX)));
}

#[test]
fn handles_are_numbered_in_order_of_issue() {
    let mut registry = KeyPairRegistry::new();
    let a = registry.generate(&mut PlaceholderProvider).unwrap();
    let b = registry.generate(&mut PlaceholderProvider).unwrap();
    let c = registry.issue(Some(OakHpkeKeyPair::new(42))).unwrap();
    assert_eq!((a.to_raw(), b.to_raw(), c.to_raw()), (1, 2, 3));
    assert_eq!(registry.issued_count(), 3);
    assert_eq!(registry.lookup(c).map(|k| k.marker()), Ok(42));
    assert_eq!(registry.lookup(c), Ok(&OakHpkeKeyPair::new(42)));

    let resumed = KeyPairRegistry::starting_after(41).generate(&mut PlaceholderProvider);
    assert_eq!(resumed.map(|h| h.to_raw()), Ok(42));
}

#[test]
fn live_handles_are_distinct_and_non_null() {
    let mut registry = KeyPairRegistry::new();
    let mut handles = Vec::new();
    for _ in 0..100 {
        let h = oak_generate_hpke_key_pair(&mut registry, &mut PlaceholderProvider);
        assert!(!h.is_null());
        assert!(!handles.contains(&h));
        handles.push(h);
    }
    assert_eq!(registry.storage_len(), 100);
    for h in &handles {
        assert!(registry.is_live(*h));
    }
}

#[test]
fn release_succeeds_exactly_once() {
    let mut registry = KeyPairRegistry::new();
    let handle = registry.generate(&mut PlaceholderProvider).unwrap();
    assert_eq!(registry.release(handle), Ok(()));
    assert_eq!(registry.release(handle), Err(InvalidHandleError));
    assert_eq!(registry.issued_count(), 1);
}

#[test]
fn released_handle_is_refused_for_good() {
    let mut registry = KeyPairRegistry::new();
    let stale = registry.generate(&mut PlaceholderProvider).unwrap();
    registry.release(stale).unwrap();
    assert_eq!(registry.lookup(stale), Err(InvalidHandleError));
    assert!(!registry.is_live(stale));

    let next = registry.generate(&mut PlaceholderProvider).unwrap();
    assert_ne!(next, stale);
    assert_eq!(registry.storage_len(), 1);
    assert_eq!(registry.release(stale), Err(InvalidHandleError));
    assert_eq!(registry.lookup(stale), Err(InvalidHandleError));
    assert!(registry.is_live(next));

    oak_delete_hpke_key_pair(&mut registry, stale);
    assert!(registry.is_live(next));
    assert_eq!(registry.inspect_cell(0), Some((false, 10)));
}

#[test]
fn foreign_handle_is_refused() {
    let mut registry = KeyPairRegistry::new();
    let live = registry.generate(&mut PlaceholderProvider).unwrap();
    let foreign = KeyPairHandle::from_raw(77);
    assert_eq!(registry.release(foreign), Err(InvalidHandleError));
    assert_eq!(registry.lookup(foreign), Err(InvalidHandleError));
    assert!(!registry.is_live(foreign));
    assert!(registry.is_live(live));
    assert_eq!(registry.storage_len(), 1);
}

#[test]
fn releasing_null_is_a_no_op() {
    let mut registry = KeyPairRegistry::new();
    assert_eq!(registry.release(KeyPairHandle::null()), Ok(()));
    assert_eq!(registry.issued_count(), 0);
    assert_eq!(registry.storage_len(), 0);

    let live = registry.generate(&mut PlaceholderProvider).unwrap();
    assert_eq!(registry.release(KeyPairHandle::null()), Ok(()));
    oak_delete_hpke_key_pair(&mut registry, KeyPairHandle::null());
    assert!(registry.is_live(live));
    assert_eq!(registry.issued_count(), 1);
    assert_eq!(registry.storage_len(), 1);
    assert_eq!(registry.inspect_cell(0), Some((false, 10)));
}

#[test]
fn null_handle_is_never_live() {
    let mut registry = KeyPairRegistry::new();
    registry.generate(&mut PlaceholderProvider).unwrap();
    registry.release(KeyPairHandle::from_raw(1)).unwrap();
    assert_eq!(registry.inspect_cell(0), Some((true, 0)));
    assert!(!registry.is_live(KeyPairHandle::null()));
    assert_eq!(registry.lookup(KeyPairHandle::null()), Err(InvalidHandleError));
}

#[test]
fn vacant_cells_are_used_again_first_one_first() {
    let mut registry = KeyPairRegistry::new();
    let a = registry.issue(Some(OakHpkeKeyPair::new(1))).unwrap();
    let b = registry.issue(Some(OakHpkeKeyPair::new(2))).unwrap();
    let c = registry.issue(Some(OakHpkeKeyPair::new(3))).unwrap();
    registry.release(b).unwrap();
    registry.release(a).unwrap();
    assert_eq!(registry.inspect_cell(0), Some((true, 0)));
    assert_eq!(registry.inspect_cell(1), Some((true, 0)));
    assert_eq!(registry.inspect_cell(2), Some((false, 3)));

    let d = registry.issue(Some(OakHpkeKeyPair::new(4))).unwrap();
    assert_eq!(d.to_raw(), 4);
    assert_eq!(registry.storage_len(), 3);
    assert_eq!(registry.inspect_cell(0), Some((false, 4)));
    assert_eq!(registry.inspect_cell(1), Some((true, 0)));
    assert!(registry.is_live(c));
    assert!(registry.is_live(d));
    assert_eq!(registry.lookup(c).map(|k| k.marker()), Ok(3));
    assert_eq!(registry.lookup(d).map(|k| k.marker()), Ok(4));
}

#[test]
fn ten_thousand_paired_calls_on_interleaved_registries() {
    let mut registries = vec![
        KeyPairRegistry::new(),
        KeyPairRegistry::new(),
        KeyPairRegistry::new(),
        KeyPairRegistry::new(),
    ];
    let mut pending: Vec<Option<KeyPairHandle>> = vec![None, None, None, None];
    for round in 0..10_000usize {
        let who = round % 4;
        if let Some(earlier) = pending[who].take() {
            assert_eq!(registries[who].release(earlier), Ok(()));
        }
        let h = oak_generate_hpke_key_pair(&mut registries[who], &mut PlaceholderProvider);
        assert!(!h.is_null());
        assert!(registries[who].is_live(h));
        pending[who] = Some(h);
    }
    for who in 0..4 {
        let last = pending[who].take().unwrap();
        oak_delete_hpke_key_pair(&mut registries[who], last);
        assert!(!registries[who].is_live(last));
        assert_eq!(registries[who].issued_count(), 2_500);
        assert_eq!(registries[who].storage_len(), 1);
        assert_eq!(registries[who].inspect_cell(0), Some((true, 0)));
    }
}

#[test]
fn key_pair_constructors() {
    assert_eq!(PLACEHOLDER_MARKER, 10);
    assert_eq!(OakHpkeKeyPair::placeholder().marker(), 10);
    assert_eq!(OakHpkeKeyPair::placeholder(), OakHpkeKeyPair::new(10));
    assert_eq!(OakHpkeKeyPair::new(-3).marker(), -3);
    assert_eq!(OakHpkeKeyPair::erased().marker(), 0);
    assert_eq!(OakHpkeKeyPair::erased(), OakHpkeKeyPair::new(0));
    assert_ne!(OakHpkeKeyPair::erased(), OakHpkeKeyPair::placeholder());
}

#[test]
fn handle_raw_value_round_trips() {
    assert!(KeyPairHandle::null().is_null());
    assert_eq!(KeyPairHandle::null().to_raw(), 0);
    assert!(KeyPairHandle::from_raw(0).is_null());
    assert!(!KeyPairHandle::from_raw(5).is_null());
    assert_eq!(KeyPairHandle::from_raw(5).to_raw(), 5);
    assert_eq!(KeyPairHandle::from_raw(u64::MAX).to_raw(), u64::MAX);
    let h = KeyPairHandle::from_raw(9);
    assert_eq!(KeyPairHandle::from_raw(h.to_raw()), h);
}

#[test]
fn failures_cross_the_boundary_as_null() {
    let h = KeyPairHandle::from_raw(3);
    assert_eq!(handle_or_null(Ok(h)), h);
    assert_eq!(handle_or_null(Err(KeyGenerationError::ProviderFailure)), KeyPairHandle::null());
    assert_eq!(handle_or_null(Err(KeyGenerationError::HandlesExhausted)), KeyPairHandle::null());
}

#[test]
fn providers_hand_back_what_they_promise() {
    assert_eq!(PlaceholderProvider.produce(), Some(OakHpkeKeyPair::new(10)));
    assert_eq!(PlaceholderProvider.produce().map(|k| k.marker()), Some(10));
    assert_eq!(UnavailableProvider.produce(), None);
}
