//! The store variants behind one set of operations: an empty in-memory
//! store, or a fork of a remote chain.
use vstd::prelude::*;
use crate::db::{commit_post, Changeset, MemDb};
use crate::error::{BlockchainError, DatabaseError};
use crate::forkdb::ForkedDatabase;
use crate::remote::RemoteProvider;
use crate::table::SlotKey;
use crate::types::{AccountInfo, Address, B256, U256};

verus! {

/// Where a fork reads from: the endpoint and the block to fork at.
pub struct Fork {
    pub url: String,
    pub block_number: u64,
}

/// The store the interpreter reads and writes.
pub enum Backend<P> {
    /// An in-memory store that starts empty.
    Simple(MemDb),
    /// A store that fetches what it lacks from the remote source `P`.
    Forked(ForkedDatabase, P),
}

impl<P: RemoteProvider> Backend<P> {
    pub open spec fn wf(&self) -> bool {
        match self {
            Backend::Simple(m) => m.wf(),
            Backend::Forked(f, _) => f.wf(),
        }
    }

    /// The state the store holds now (for a fork, what it fetched or had
    /// written so far).
    pub open spec fn state(&self) -> MemDb {
        match self {
            Backend::Simple(m) => *m,
            Backend::Forked(f, _) => f.db,
        }
    }

    /// An empty in-memory store.
    pub fn simple() -> (r: Backend<P>)
        ensures
            r.wf(),
            r is Simple,
            r.state().is_empty(),
    {
        Backend::Simple(MemDb::new())
    }

    /// With no fork, an empty in-memory store; with one, a fork of the
    /// chain at its URL as of its block, once a remote source for the URL
    /// is established.
    pub fn new(fork: Option<Fork>) -> (r: Result<Backend<P>, BlockchainError>)
        ensures
            fork is None ==> (r matches Ok(b) && b is Simple),
            r matches Ok(b) ==> b.wf() && b.state().is_empty(),
            fork is Some && r is Ok ==> r->Ok_0 is Forked && r->Ok_0->Forked_0.pinned_block
                == fork->Some_0.block_number,
            r matches Err(e) ==> fork is Some && e == BlockchainError::InvalidUrl(fork->Some_0.url),
    {
        match fork {
            None => Ok(Backend::simple()),
            Some(f) => match P::connect(f.url.as_str()) {
                Ok(p) => Ok(Backend::Forked(ForkedDatabase::new(f.block_number), p)),
                Err(_) => Err(BlockchainError::InvalidUrl(f.url)),
            },
        }
    }

    /// The record of `a`. The in-memory store reads an unknown account as
    /// the zero record; a fork fetches it.
    pub fn basic(&mut self, a: Address) -> (r: Result<AccountInfo, DatabaseError>)
        requires
            old(self).wf(),
        ensures
            final(self).wf(),
            *old(self) is Simple ==> (r matches Ok(v) && v@ == old(self).state().account(a)
                && *final(self) == *old(self)),
            old(self).state().accounts@.contains_key(a) ==> (r matches Ok(v) && v@
                == old(self).state().accounts@[a] && final(self).state().same_as(old(self).state())),
            r is Err ==> final(self).state().same_as(old(self).state()),
    {
        match self {
            Backend::Simple(m) => Ok(m.basic(a)),
            Backend::Forked(f, p) => f.basic(p, a),
        }
    }

    /// The value of a slot. The in-memory store reads an unknown slot as
    /// zero; a fork fetches it.
    pub fn storage(&mut self, a: Address, slot: U256) -> (r: Result<U256, DatabaseError>)
        requires
            old(self).wf(),
        ensures
            final(self).wf(),
            *old(self) is Simple ==> r == Ok::<U256, DatabaseError>(old(self).state().slot(a, slot))
                && *final(self) == *old(self),
            old(self).state().storage@.contains_key(SlotKey { address: a, slot }) ==> r
                == Ok::<U256, DatabaseError>(old(self).state().storage@[SlotKey { address: a, slot }])
                && final(self).state().same_as(old(self).state()),
            r is Err ==> final(self).state().same_as(old(self).state()),
    {
        match self {
            Backend::Simple(m) => Ok(m.storage(a, slot)),
            Backend::Forked(f, p) => f.storage(p, a, slot),
        }
    }

    pub fn code_by_hash(&self, h: B256) -> (r: Vec<u8>)
        requires
            self.wf(),
        ensures
            r@ == self.state().code(h),
    {
        match self {
            Backend::Simple(m) => m.code_by_hash(h),
            Backend::Forked(f, _) => f.code_by_hash(h),
        }
    }

    /// The hash of block `n`. The in-memory store derives one from the
    /// number; a fork fetches it.
    pub fn block_hash(&mut self, n: u64) -> (r: Result<B256, DatabaseError>)
        requires
            old(self).wf(),
        ensures
            final(self).wf(),
            *old(self) is Simple ==> r == Ok::<B256, DatabaseError>(old(self).state().block_hash_of(n))
                && *final(self) == *old(self),
            old(self).state().block_hashes@.contains_key(n) ==> r == Ok::<B256, DatabaseError>(
                old(self).state().block_hashes@[n],
            ),
            r is Err ==> final(self).state().same_as(old(self).state()),
    {
        match self {
            Backend::Simple(m) => Ok(m.block_hash(n)),
            Backend::Forked(f, p) => f.block_hash(p, n),
        }
    }

    pub fn insert_account(&mut self, a: Address, info: AccountInfo)
        requires
            old(self).wf(),
        ensures
            final(self).wf(),
            final(self).state().accounts@ == old(self).state().accounts@.insert(a, info@),
            final(self).state().storage@ == old(self).state().storage@,
    {
        match self {
            Backend::Simple(m) => m.insert_account(a, info),
            Backend::Forked(f, _) => f.insert_account(a, info),
        }
    }

    pub fn set_storage_at(&mut self, a: Address, slot: U256, value: U256)
        requires
            old(self).wf(),
        ensures
            final(self).wf(),
            final(self).state().storage@ == old(self).state().storage@.insert(SlotKey { address: a, slot }, value),
            final(self).state().accounts@ == old(self).state().accounts@,
    {
        match self {
            Backend::Simple(m) => m.set_storage_at(a, slot, value),
            Backend::Forked(f, _) => f.set_storage_at(a, slot, value),
        }
    }

    pub fn commit(&mut self, changes: &Changeset)
        requires
            old(self).wf(),
            changes.wf(),
        ensures
            final(self).wf(),
            commit_post(old(self).state(), *changes, final(self).state()),
    {
        match self {
            Backend::Simple(m) => m.commit(changes),
            Backend::Forked(f, _) => f.commit(changes),
        }
    }
}

} // verus!
