use vstd::prelude::*;
use crate::key_pair::{KeyGenerationError, KeyPairHandle};
use crate::provider::KeyProvider;
use crate::registry::{issues, releases, KeyPairRegistry};

verus! {

/// Turns the outcome of a generation into what crosses the boundary: the
/// handle itself, or the null sentinel for any failure.
pub fn handle_or_null(result: Result<KeyPairHandle, KeyGenerationError>) -> (h: KeyPairHandle)
    ensures
        match result {
            Ok(issued) => h == issued,
            Err(_) => h@ == 0,
        },
{
    match result {
        Ok(issued) => issued,
        Err(_) => KeyPairHandle::null(),
    }
}

/// Generates a key pair and hands its handle to the caller. The null
/// sentinel comes back exactly when the provider fails or no handle value is
/// left, and then the registry is as it was.
pub fn oak_generate_hpke_key_pair<P: KeyProvider>(
    registry: &mut KeyPairRegistry,
    provider: &mut P,
) -> (h: KeyPairHandle)
    requires
        old(registry).wf(),
    ensures
        final(registry).wf(),
        h.is_null() <==> old(provider).outcome() is None || old(registry).issued() == u64::MAX,
        h.is_null() ==> *final(registry) == *old(registry),
        !h.is_null() ==> {
            &&& issues(*old(registry), *final(registry), old(provider).outcome()->0, h@)
            &&& !old(registry)@.contains_key(h@)
            &&& !old(registry).retired(h@)
        },
{
    handle_or_null(registry.generate(provider))
}

/// Takes a key pair back from the caller. The null sentinel and every handle
/// that is not live leave the registry as it was; a live handle is removed
/// and the storage of its key pair is wiped.
pub fn oak_delete_hpke_key_pair(registry: &mut KeyPairRegistry, handle: KeyPairHandle)
    requires
        old(registry).wf(),
    ensures
        final(registry).wf(),
        old(registry)@.contains_key(handle@) ==> releases(
            *old(registry),
            *final(registry),
            handle@,
        ),
        !old(registry)@.contains_key(handle@) ==> *final(registry) == *old(registry),
{
    let _ = registry.release(handle);
}

} // verus!
