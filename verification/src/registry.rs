use vstd::prelude::*;
use crate::key_pair::{InvalidHandleError, KeyGenerationError, KeyPairHandle, OakHpkeKeyPair};
use crate::provider::KeyProvider;

verus! {

/// One cell of the registry's storage: the raw value of the handle that owns
/// it (`0` while the cell is vacant) and the key material it holds.
pub struct Cell {
    pub owner: u64,
    pub key_pair: OakHpkeKeyPair,
}

/// Owns every key pair that was issued and not yet released.
///
/// The view maps the raw value of each live handle to its key pair. Handles
/// are numbered in the order of issue and a number is never used twice, so a
/// released handle stays invalid for good.
pub struct KeyPairRegistry {
    cells: Vec<Cell>,
    issued: u64,
}

impl View for KeyPairRegistry {
    type V = Map<u64, OakHpkeKeyPair>;

    open spec fn view(&self) -> Map<u64, OakHpkeKeyPair> {
        Map::new(|id: u64| self.holds(id), |id: u64| self.storage()[self.cell_of(id)].key_pair)
    }
}

/// `post` is `pre` after one more key pair `key_pair` was issued under `id`.
pub open spec fn issues(
    pre: KeyPairRegistry,
    post: KeyPairRegistry,
    key_pair: OakHpkeKeyPair,
    id: u64,
) -> bool {
    &&& id == pre.issued() + 1
    &&& post.issued() == pre.issued() + 1
    &&& post@ == pre@.insert(id, key_pair)
    &&& stores(pre, post, Cell { owner: id, key_pair })
}

/// The storage of `post` is that of `pre` with `cell` written over the first
/// vacant cell, or behind the last cell where none is vacant.
pub open spec fn stores(pre: KeyPairRegistry, post: KeyPairRegistry, cell: Cell) -> bool {
    exists|i: int|
        {
            &&& #[trigger] pre.is_first_vacant(i)
            &&& post.storage() == if i < pre.storage().len() {
                pre.storage().update(i, cell)
            } else {
                pre.storage().push(cell)
            }
        }
}

/// `post` is `pre` after the live handle `id` was released: the handle is
/// gone from the view, and the cell that held its key pair is vacant and wiped.
pub open spec fn releases(pre: KeyPairRegistry, post: KeyPairRegistry, id: u64) -> bool {
    &&& post.issued() == pre.issued()
    &&& post@ == pre@.remove(id)
    &&& post.storage().len() == pre.storage().len()
    &&& exists|i: int|
        {
            &&& 0 <= i < pre.storage().len()
            &&& (#[trigger] pre.storage()[i]).owner == id
            &&& pre.storage()[i].key_pair == pre@[id]
            &&& post.storage()[i].owner == 0
            &&& post.storage()[i].key_pair.is_erased()
            &&& forall|j: int|
                0 <= j < pre.storage().len() && j != i ==> #[trigger] post.storage()[j]
                    == pre.storage()[j]
        }
}

impl KeyPairRegistry {
    /// The storage cells, vacant ones included.
    pub closed spec fn storage(&self) -> Seq<Cell> {
        self.cells@
    }

    /// How many handles were issued so far. The handles issued are exactly
    /// those with raw values `1 ..= issued()`.
    pub closed spec fn issued(&self) -> nat {
        self.issued as nat
    }

    /// Some cell is owned by `id`.
    pub open spec fn holds(&self, id: u64) -> bool {
        id != 0 && exists|i: int|
            0 <= i < self.storage().len() && (#[trigger] self.storage()[i]).owner == id
    }

    /// `i` is the index of the first vacant cell, or the number of cells
    /// where none is vacant.
    pub open spec fn is_first_vacant(&self, i: int) -> bool {
        &&& 0 <= i <= self.storage().len()
        &&& i < self.storage().len() ==> self.storage()[i].owner == 0
        &&& forall|k: int| 0 <= k < i ==> (#[trigger] self.storage()[k]).owner != 0
    }

    /// A cell owned by `id`, where there is one.
    pub open spec fn cell_of(&self, id: u64) -> int {
        choose|i: int| 0 <= i < self.storage().len() && (#[trigger] self.storage()[i]).owner == id
    }

    /// `id` was issued and has been released since.
    pub open spec fn retired(&self, id: u64) -> bool {
        1 <= id <= self.issued() && !self@.contains_key(id)
    }

    /// No two cells have the same owner, no owner is a handle that was never
    /// issued, and a vacant cell holds no key material.
    pub open spec fn wf(&self) -> bool {
        &&& self.issued() <= u64::MAX
        &&& forall|i: int|
            0 <= i < self.storage().len() ==> (#[trigger] self.storage()[i]).owner
                <= self.issued()
        &&& forall|i: int|
            0 <= i < self.storage().len() && (#[trigger] self.storage()[i]).owner == 0
                ==> self.storage()[i].key_pair.is_erased()
        &&& forall|i: int, j: int|
            0 <= i < j < self.storage().len() && (#[trigger] self.storage()[i]).owner != 0
                ==> self.storage()[i].owner != (#[trigger] self.storage()[j]).owner
    }

    /// In a well-formed registry the cell owned by a live handle is unique.
    pub proof fn owner_cell_is_unique(self, i: int)
        requires
            self.wf(),
            0 <= i < self.storage().len(),
            self.storage()[i].owner != 0,
        ensures
            self.holds(self.storage()[i].owner),
            self.cell_of(self.storage()[i].owner) == i,
            self@[self.storage()[i].owner] == self.storage()[i].key_pair,
    {
        let id = self.storage()[i].owner;
        let c = self.cell_of(id);
        assert(0 <= c < self.storage().len() && self.storage()[c].owner == id);
        if c < i {
            assert(self.storage()[c].owner != self.storage()[i].owner);
        } else if i < c {
            assert(self.storage()[i].owner != self.storage()[c].owner);
        }
    }

    /// A registry with no key pair in it.
    pub fn new() -> (r: Self)
        ensures
            r.wf(),
            r@ == Map::<u64, OakHpkeKeyPair>::empty(),
            r.issued() == 0,
            r.storage().len() == 0,
    {
        let r = KeyPairRegistry { cells: Vec::new(), issued: 0 };
        assert(r@ =~= Map::<u64, OakHpkeKeyPair>::empty());
        r
    }

    /// A registry that goes on where an earlier numbering stopped: the
    /// handles `1 ..= issued` count as issued and released, and the next
    /// handle is the one after them.
    pub fn starting_after(issued: u64) -> (r: Self)
        ensures
            r.wf(),
            r@ == Map::<u64, OakHpkeKeyPair>::empty(),
            r.issued() == issued,
            r.storage().len() == 0,
    {
        let r = KeyPairRegistry { cells: Vec::new(), issued };
        assert(r@ =~= Map::<u64, OakHpkeKeyPair>::empty());
        r
    }

    /// The index of the first vacant cell.
    fn first_vacant(&self) -> (r: Option<usize>)
        ensures
            match r {
                Some(i) => i < self.storage().len() && self.is_first_vacant(i as int),
                None => self.is_first_vacant(self.storage().len() as int),
            },
    {
        let mut i: usize = 0;
        while i < self.cells.len()
            invariant
                i <= self.cells.len(),
                forall|k: int| 0 <= k < i ==> (#[trigger] self.cells@[k]).owner != 0,
            decreases self.cells.len() - i,
        {
            if self.cells[i].owner == 0 {
                return Some(i);
            }
            i += 1;
        }
        None
    }

    /// The index of the cell that `id` owns.
    fn position(&self, id: u64) -> (r: Option<usize>)
        ensures
            match r {
                Some(i) => i < self.storage().len() && self.storage()[i as int].owner == id,
                None => forall|i: int|
                    0 <= i < self.storage().len() ==> (#[trigger] self.storage()[i]).owner != id,
            },
    {
        let mut i: usize = 0;
        while i < self.cells.len()
            invariant
                i <= self.cells.len(),
                forall|k: int| 0 <= k < i ==> (#[trigger] self.cells@[k]).owner != id,
            decreases self.cells.len() - i,
        {
            if self.cells[i].owner == id {
                return Some(i);
            }
            i += 1;
        }
        None
    }

    /// Takes what the provider handed back and, where it is key material and
    /// a handle value is left, stores it under the next handle.
    pub fn issue(&mut self, outcome: Option<OakHpkeKeyPair>) -> (r: Result<
        KeyPairHandle,
        KeyGenerationError,
    >)
        requires
            old(self).wf(),
        ensures
            final(self).wf(),
            r is Ok <==> outcome is Some && old(self).issued() < u64::MAX,
            match r {
                Ok(h) => {
                    &&& outcome is Some
                    &&& issues(*old(self), *final(self), outcome->0, h@)
                    &&& !h.is_null()
                    &&& !old(self)@.contains_key(h@)
                    &&& !old(self).retired(h@)
                },
                Err(e) => {
                    &&& *final(self) == *old(self)
                    &&& e == if outcome is None {
                        KeyGenerationError::ProviderFailure
                    } else {
                        KeyGenerationError::HandlesExhausted
                    }
                },
            },
    {
        match outcome {
            None => Err(KeyGenerationError::ProviderFailure),
            Some(key_pair) => {
                if self.issued == u64::MAX {
                    return Err(KeyGenerationError::HandlesExhausted);
                }
                let id: u64 = self.issued + 1;
                let ghost pre = *self;
                let cell = Cell { owner: id, key_pair };
                match self.first_vacant() {
                    Some(i) => {
                        self.cells.set(i, cell);
                    },
                    None => {
                        self.cells.push(cell);
                    },
                }
                self.issued = id;
                proof {
                    pre.issue_extends_view(*self, outcome->0, id);
                }
                Ok(KeyPairHandle::from_raw(id))
            },
        }
    }

    /// Writing a new owner into a vacant cell, or into a new cell at the end,
    /// adds one entry to the view and keeps the registry well-formed.
    proof fn issue_extends_view(self, post: KeyPairRegistry, key_pair: OakHpkeKeyPair, id: u64)
        requires
            self.wf(),
            id == self.issued() + 1,
            post.issued() == id,
            stores(self, post, Cell { owner: id, key_pair }),
        ensures
            post.wf(),
            post@ == self@.insert(id, key_pair),
            !self@.contains_key(id),
    {
        let cell = Cell { owner: id, key_pair };
        let at: int = choose|i: int|
            {
                &&& #[trigger] self.is_first_vacant(i)
                &&& post.storage() == if i < self.storage().len() {
                    self.storage().update(i, cell)
                } else {
                    self.storage().push(cell)
                }
            };
        assert(0 <= at < post.storage().len());
        assert(post.storage()[at] == Cell { owner: id, key_pair });
        assert(forall|j: int|
            0 <= j < self.storage().len() && j != at ==> #[trigger] post.storage()[j]
                == self.storage()[j]);
        assert(post.wf());
        assert forall|x: u64| #[trigger] post.holds(x) <==> (x == id || self.holds(x)) by {
            if post.holds(x) {
                let j = post.cell_of(x);
                if j != at {
                    assert(self.storage()[j].owner == x);
                }
            }
            if x == id {
                assert(post.storage()[at].owner == x);
            }
            if self.holds(x) {
                let j = self.cell_of(x);
                assert(j != at);
                assert(post.storage()[j].owner == x);
            }
        }
        assert forall|x: u64| #[trigger] post.holds(x) implies post@[x] == self@.insert(
            id,
            key_pair,
        )[x] by {
            if x == id {
                post.owner_cell_is_unique(at);
            } else {
                let j = self.cell_of(x);
                assert(j != at);
                assert(post.storage()[j].owner == x);
                self.owner_cell_is_unique(j);
                post.owner_cell_is_unique(j);
            }
        }
        assert(post@ =~= self@.insert(id, key_pair));
    }

    /// Asks the provider for key material and issues a handle for it: a
    /// handle is owed whenever the provider delivers and a handle value is
    /// left, and a failure leaves the registry as it was.
    pub fn generate<P: KeyProvider>(&mut self, provider: &mut P) -> (r: Result<
        KeyPairHandle,
        KeyGenerationError,
    >)
        requires
            old(self).wf(),
        ensures
            final(self).wf(),
            r is Ok <==> old(provider).outcome() is Some && old(self).issued() < u64::MAX,
            match r {
                Ok(h) => {
                    &&& old(provider).outcome() is Some
                    &&& issues(*old(self), *final(self), old(provider).outcome()->0, h@)
                    &&& !h.is_null()
                    &&& !old(self)@.contains_key(h@)
                    &&& !old(self).retired(h@)
                },
                Err(e) => {
                    &&& *final(self) == *old(self)
                    &&& e == if old(provider).outcome() is None {
                        KeyGenerationError::ProviderFailure
                    } else {
                        KeyGenerationError::HandlesExhausted
                    }
                },
            },
    {
        let outcome = provider.produce();
        self.issue(outcome)
    }

    /// Takes a key pair back. The null handle is accepted and changes nothing;
    /// a live handle is removed and its key material wiped; any other handle
    /// is refused and changes nothing.
    pub fn release(&mut self, handle: KeyPairHandle) -> (r: Result<(), InvalidHandleError>)
        requires
            old(self).wf(),
        ensures
            final(self).wf(),
            r is Ok <==> handle.is_null() || old(self)@.contains_key(handle@),
            handle.is_null() ==> *final(self) == *old(self),
            old(self)@.contains_key(handle@) ==> releases(*old(self), *final(self), handle@),
            !old(self)@.contains_key(handle@) ==> *final(self) == *old(self),
    {
        if handle.is_null() {
            return Ok(());
        }
        let id: u64 = handle.to_raw();
        match self.position(id) {
            None => Err(InvalidHandleError),
            Some(i) => {
                let ghost pre = *self;
                self.cells.set(i, Cell { owner: 0, key_pair: OakHpkeKeyPair::erased() });
                proof {
                    pre.release_shrinks_view(*self, id, i as int);
                }
                Ok(())
            },
        }
    }

    /// Vacating the cell of a live handle removes one entry from the view
    /// and keeps the registry well-formed.
    proof fn release_shrinks_view(self, post: KeyPairRegistry, id: u64, at: int)
        requires
            self.wf(),
            id != 0,
            0 <= at < self.storage().len(),
            self.storage()[at].owner == id,
            post.issued() == self.issued(),
            post.storage().len() == self.storage().len(),
            post.storage()[at].owner == 0,
            post.storage()[at].key_pair.is_erased(),
            forall|j: int|
                0 <= j < self.storage().len() && j != at ==> #[trigger] post.storage()[j]
                    == self.storage()[j],
        ensures
            post.wf(),
            self@.contains_key(id),
            releases(self, post, id),
    {
        self.owner_cell_is_unique(at);
        assert(post.wf());
        assert forall|x: u64| #[trigger] post.holds(x) <==> (x != id && self.holds(x)) by {
            if post.holds(x) {
                let j = post.cell_of(x);
                assert(j != at);
                assert(self.storage()[j].owner == x);
                if x == id {
                    self.owner_cell_is_unique(j);
                }
            }
            if x != id && self.holds(x) {
                let j = self.cell_of(x);
                assert(j != at);
                assert(post.storage()[j].owner == x);
            }
        }
        assert forall|x: u64| #[trigger] post.holds(x) implies post@[x] == self@[x] by {
            let j = post.cell_of(x);
            assert(j != at);
            assert(self.storage()[j].owner == x);
            self.owner_cell_is_unique(j);
            post.owner_cell_is_unique(j);
        }
        assert(post@ =~= self@.remove(id));
    }

    /// The key pair behind a live handle; every other handle is refused.
    pub fn lookup(&self, handle: KeyPairHandle) -> (r: Result<&OakHpkeKeyPair, InvalidHandleError>)
        requires
            self.wf(),
        ensures
            r is Ok <==> self@.contains_key(handle@),
            r is Ok ==> *r->Ok_0 == self@[handle@],
    {
        if handle.is_null() {
            return Err(InvalidHandleError);
        }
        match self.position(handle.to_raw()) {
            None => Err(InvalidHandleError),
            Some(i) => {
                proof {
                    self.owner_cell_is_unique(i as int);
                }
                Ok(&self.cells[i].key_pair)
            },
        }
    }

    /// Whether `handle` refers to a key pair that was issued and not released.
    pub fn is_live(&self, handle: KeyPairHandle) -> (r: bool)
        requires
            self.wf(),
        ensures
            r == self@.contains_key(handle@),
    {
        self.lookup(handle).is_ok()
    }

    /// How many handles were issued so far.
    pub fn issued_count(&self) -> (r: u64)
        ensures
            r == self.issued(),
    {
        self.issued
    }

    /// How many storage cells the registry holds, vacant ones included.
    pub fn storage_len(&self) -> (r: usize)
        ensures
            r == self.storage().len(),
    {
        self.cells.len()
    }

    /// Whether storage cell `index` is vacant, and the marker found in it:
    /// what is left in memory once a key pair was released. `None` where the
    /// registry has no such cell.
    pub fn inspect_cell(&self, index: usize) -> (r: Option<(bool, i32)>)
        ensures
            match r {
                Some((vacant, marker)) => {
                    &&& index < self.storage().len()
                    &&& vacant == (self.storage()[index as int].owner == 0)
                    &&& marker == self.storage()[index as int].key_pair@
                },
                None => index >= self.storage().len(),
            },
    {
        if index < self.cells.len() {
            Some((self.cells[index].owner == 0, self.cells[index].key_pair.marker()))
        } else {
            None
        }
    }
}

} // verus!
