use vstd::prelude::*;

verus! {

/// Marker that stands in for key material until a real provider is linked.
pub const PLACEHOLDER_MARKER: i32 = 10;

/// An asymmetric key pair. Its contents are hidden; the view is the marker
/// that currently stands for the key material, and `0` means wiped storage.
#[derive(Debug, PartialEq, Eq, Structural)]
pub struct OakHpkeKeyPair {
    boo: i32,
}

impl View for OakHpkeKeyPair {
    type V = int;

    closed spec fn view(&self) -> int {
        self.boo as int
    }
}

impl OakHpkeKeyPair {
    /// Storage that holds no key material.
    pub open spec fn is_erased(&self) -> bool {
        self@ == 0
    }

    /// The key pair whose material is `marker`.
    pub closed spec fn with_marker(marker: i32) -> OakHpkeKeyPair {
        OakHpkeKeyPair { boo: marker }
    }

    /// The view of `with_marker(marker)` is `marker`.
    pub proof fn with_marker_view(marker: i32)
        ensures
            Self::with_marker(marker)@ == marker,
    {
    }

    /// Wraps key material handed over by a provider.
    pub fn new(marker: i32) -> (r: Self)
        ensures
            r == Self::with_marker(marker),
            r@ == marker,
    {
        OakHpkeKeyPair { boo: marker }
    }

    /// The placeholder key pair, carrying the constant marker.
    pub fn placeholder() -> (r: Self)
        ensures
            r == Self::with_marker(PLACEHOLDER_MARKER),
            r@ == PLACEHOLDER_MARKER,
            !r.is_erased(),
    {
        OakHpkeKeyPair { boo: PLACEHOLDER_MARKER }
    }

    /// Storage with the key material wiped out.
    pub fn erased() -> (r: Self)
        ensures
            r == Self::with_marker(0),
            r.is_erased(),
    {
        OakHpkeKeyPair { boo: 0 }
    }

    /// The marker that stands for the key material.
    pub fn marker(&self) -> (r: i32)
        ensures
            r == self@,
    {
        self.boo
    }
}

/// The opaque token a caller holds for one live key pair. Its view is the raw
/// value that crosses the boundary; `0` is the null sentinel.
#[derive(Debug, Clone, Copy, PartialEq, Eq, Structural)]
pub struct KeyPairHandle {
    id: u64,
}

impl View for KeyPairHandle {
    type V = u64;

    closed spec fn view(&self) -> u64 {
        self.id
    }
}

impl KeyPairHandle {
    pub open spec fn is_null_spec(&self) -> bool {
        self@ == 0
    }

    /// The sentinel that refers to no key pair.
    pub fn null() -> (r: Self)
        ensures
            r@ == 0,
    {
        KeyPairHandle { id: 0 }
    }

    #[verifier::when_used_as_spec(is_null_spec)]
    pub fn is_null(&self) -> (r: bool)
        ensures
            r == self.is_null_spec(),
    {
        self.id == 0
    }

    /// Rebuilds a handle from the raw value that crossed the boundary.
    pub fn from_raw(raw: u64) -> (r: Self)
        ensures
            r@ == raw,
    {
        KeyPairHandle { id: raw }
    }

    /// The raw value that crosses the boundary.
    pub fn to_raw(&self) -> (r: u64)
        ensures
            r == self@,
    {
        self.id
    }
}

/// Why no key pair could be issued.
#[derive(Debug, Clone, Copy, PartialEq, Eq, Structural)]
pub enum KeyGenerationError {
    /// The provider could not produce key material.
    ProviderFailure,
    /// Every handle value has been issued already.
    HandlesExhausted,
}

/// The handle is null, foreign, or was released before.
#[derive(Debug, Clone, Copy, PartialEq, Eq, Structural)]
pub struct InvalidHandleError;

} // verus!
