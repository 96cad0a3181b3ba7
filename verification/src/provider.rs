use vstd::prelude::*;
use crate::key_pair::{OakHpkeKeyPair, PLACEHOLDER_MARKER};

verus! {

/// The source of key material. `None` stands for a provider that is
/// unavailable or out of entropy.
pub trait KeyProvider {
    /// What the next request will hand back.
    spec fn outcome(&self) -> Option<OakHpkeKeyPair>;

    fn produce(&mut self) -> (r: Option<OakHpkeKeyPair>)
        ensures
            r == old(self).outcome(),
    ;
}

/// Hands out the placeholder key pair on every request.
pub struct PlaceholderProvider;

impl KeyProvider for PlaceholderProvider {
    open spec fn outcome(&self) -> Option<OakHpkeKeyPair> {
        Some(OakHpkeKeyPair::with_marker(PLACEHOLDER_MARKER))
    }

    fn produce(&mut self) -> (r: Option<OakHpkeKeyPair>) {
        Some(OakHpkeKeyPair::placeholder())
    }
}

/// A provider that never has key material, to exercise the failure path.
pub struct UnavailableProvider;

impl KeyProvider for UnavailableProvider {
    open spec fn outcome(&self) -> Option<OakHpkeKeyPair> {
        None
    }

    fn produce(&mut self) -> (r: Option<OakHpkeKeyPair>) {
        None
    }
}

} // verus!
