use vstd::prelude::*;
use crate::key_pair::OakHpkeKeyPair;
use crate::registry::{issues, releases, KeyPairRegistry};

verus! {

/// A handle that was just issued is not null, was neither live nor retired
/// before, and leaves every handle that was live before live, with the key
/// pair it had.
pub proof fn issued_handle_is_fresh(
    pre: KeyPairRegistry,
    post: KeyPairRegistry,
    key_pair: OakHpkeKeyPair,
    id: u64,
)
    requires
        pre.wf(),
        issues(pre, post, key_pair, id),
    ensures
        id != 0,
        !pre@.contains_key(id),
        !pre.retired(id),
        post@.contains_key(id),
        post@[id] == key_pair,
        forall|other: u64| #[trigger]
            pre@.contains_key(other) ==> other != id && post@.contains_key(other) && post@[other]
                == pre@[other],
{
    assert forall|other: u64| #[trigger] pre@.contains_key(other) implies other != id by {
        let c = pre.cell_of(other);
        assert(pre.storage()[c].owner <= pre.issued());
    }
}

/// Two different live handles never share a storage cell.
pub proof fn live_handles_own_distinct_cells(registry: KeyPairRegistry, a: u64, b: u64)
    requires
        registry.wf(),
        registry@.contains_key(a),
        registry@.contains_key(b),
        a != b,
    ensures
        registry.cell_of(a) != registry.cell_of(b),
{
}

/// Releasing a handle right after it was issued is owed to succeed, brings
/// the live key pairs back to what they were, and cannot succeed again.
pub proof fn release_after_issue_restores(
    start: KeyPairRegistry,
    issued: KeyPairRegistry,
    released: KeyPairRegistry,
    key_pair: OakHpkeKeyPair,
    id: u64,
)
    requires
        start.wf(),
        issues(start, issued, key_pair, id),
        releases(issued, released, id),
    ensures
        issued@.contains_key(id),
        released@ == start@,
        !released@.contains_key(id),
        released.retired(id),
{
    issued_handle_is_fresh(start, issued, key_pair, id);
    assert(released@ =~= start@);
}

/// A handle that was live and is released becomes retired.
pub proof fn release_retires(pre: KeyPairRegistry, post: KeyPairRegistry, id: u64)
    requires
        pre.wf(),
        pre@.contains_key(id),
        releases(pre, post, id),
    ensures
        post.retired(id),
        !post@.contains_key(id),
{
    let c = pre.cell_of(id);
    assert(pre.storage()[c].owner <= pre.issued());
}

/// A retired handle is never live: neither the null handle nor a live one.
pub proof fn retired_is_not_live(registry: KeyPairRegistry, id: u64)
    requires
        registry.retired(id),
    ensures
        id != 0,
        !registry@.contains_key(id),
{
}

/// Issuing a key pair brings no retired handle back.
pub proof fn issue_keeps_retired(
    pre: KeyPairRegistry,
    post: KeyPairRegistry,
    key_pair: OakHpkeKeyPair,
    id: u64,
    stale: u64,
)
    requires
        pre.retired(stale),
        issues(pre, post, key_pair, id),
    ensures
        post.retired(stale),
{
}

/// Releasing a handle brings no retired handle back.
pub proof fn release_keeps_retired(
    pre: KeyPairRegistry,
    post: KeyPairRegistry,
    id: u64,
    stale: u64,
)
    requires
        pre.retired(stale),
        releases(pre, post, id),
    ensures
        post.retired(stale),
{
}

/// Once a key pair is released, the storage cell that held it is vacant and
/// holds no key material, as every vacant cell does.
pub proof fn released_storage_is_wiped(pre: KeyPairRegistry, post: KeyPairRegistry, id: u64)
    requires
        pre.wf(),
        post.wf(),
        pre@.contains_key(id),
        releases(pre, post, id),
    ensures
        post.storage()[pre.cell_of(id)].owner == 0,
        post.storage()[pre.cell_of(id)].key_pair.is_erased(),
        forall|i: int|
            0 <= i < post.storage().len() && (#[trigger] post.storage()[i]).owner == 0
                ==> post.storage()[i].key_pair.is_erased(),
{
    let i = choose|i: int|
        {
            &&& 0 <= i < pre.storage().len()
            &&& (#[trigger] pre.storage()[i]).owner == id
            &&& post.storage()[i].owner == 0
            &&& post.storage()[i].key_pair.is_erased()
        };
    pre.owner_cell_is_unique(i);
}

} // verus!
