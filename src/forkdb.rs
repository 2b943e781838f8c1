//! The state store of a fork: records fetched from the remote chain at the
//! pinned block, and local writes over them, in one in-memory store.
use vstd::prelude::*;
use crate::db::{commit_post, Changeset, MemDb};
use crate::error::DatabaseError;
use crate::remote::RemoteProvider;
use crate::hash::{keccak256, keccak256_of};
use crate::table::{BlockKey, SlotKey};
use crate::types::{AccountInfo, Address, B256, U256};

verus! {

/// Reads consult the store first; a miss is fetched from the remote source
/// at `pinned_block` and kept. Writes land in the store and shadow anything
/// fetched for the same key.
pub struct ForkedDatabase {
    pub db: MemDb,
    pub pinned_block: u64,
    /// The accounts fetched from the remote source, each with the block it
    /// was fetched at, in order.
    pub fetched: Ghost<Seq<BlockKey>>,
}

/// A read of `a` asks the remote source, at the pinned block, exactly when
/// the store lacks `a`.
pub open spec fn read_fetches(before: ForkedDatabase, a: Address, after: ForkedDatabase) -> bool {
    if before.db.accounts@.contains_key(a) {
        after.fetched == before.fetched
    } else {
        after.fetched@ == before.fetched@.push(BlockKey { address: a, block: before.pinned_block })
    }
}

impl ForkedDatabase {
    pub open spec fn wf(&self) -> bool {
        self.db.wf()
    }

    /// A fork database pinned at `pinned_block`, with nothing fetched yet.
    pub fn new(pinned_block: u64) -> (r: ForkedDatabase)
        ensures
            r.wf(),
            r.db.is_empty(),
            r.pinned_block == pinned_block,
            r.fetched@ == Seq::<BlockKey>::empty(),
    {
        ForkedDatabase { db: MemDb::new(), pinned_block, fetched: Ghost(Seq::empty()) }
    }

    /// The record of `a`: the kept one, else the one fetched now at the
    /// pinned block, with the hash of its code.
    pub fn basic<P: RemoteProvider>(&mut self, remote: &P, a: Address) -> (r: Result<AccountInfo, DatabaseError>)
        requires
            old(self).wf(),
        ensures
            final(self).wf(),
            final(self).pinned_block == old(self).pinned_block,
            read_fetches(*old(self), a, *final(self)),
            r matches Err(e) ==> e is Remote,
            !old(self).db.accounts@.contains_key(a) && r is Ok ==> r->Ok_0@.code is Some
                && r->Ok_0@.code_hash == keccak256_of(r->Ok_0@.code->Some_0),
            old(self).db.accounts@.contains_key(a) ==> r is Ok && r->Ok_0@ == old(self).db.accounts@[a]
                && final(self).db.same_as(old(self).db),
            !old(self).db.accounts@.contains_key(a) && r is Ok ==> final(self).db.accounts@
                == old(self).db.accounts@.insert(a, r->Ok_0@) && final(self).db.storage@ == old(self).db.storage@
                && final(self).db.block_hashes@ == old(self).db.block_hashes@,
            r is Err ==> final(self).db.same_as(old(self).db),
    {
        if let Some(info) = self.db.basic_ref(a) {
            return Ok(info);
        }
        let block = self.pinned_block;
        self.fetched = Ghost(self.fetched@.push(BlockKey { address: a, block }));
        let info = match self.peek(remote, a) {
            Ok(info) => info,
            Err(e) => return Err(e),
        };
        self.db.insert_account(a, info);
        Ok(self.db.basic(a))
    }

    /// The record of `a` without keeping anything: the kept one, else one
    /// fetched now at the pinned block.
    pub fn peek<P: RemoteProvider>(&self, remote: &P, a: Address) -> (r: Result<AccountInfo, DatabaseError>)
        requires
            self.wf(),
        ensures
            self.db.accounts@.contains_key(a) ==> (r matches Ok(v) && v@ == self.db.accounts@[a]),
            !self.db.accounts@.contains_key(a) && r is Ok ==> r->Ok_0@.code is Some
                && r->Ok_0@.code_hash == keccak256_of(r->Ok_0@.code->Some_0),
            r matches Err(e) ==> e is Remote,
    {
        if let Some(info) = self.db.basic_ref(a) {
            return Ok(info);
        }
        let block = self.pinned_block;
        let balance = match remote.get_balance(a, block) {
            Ok(b) => b,
            Err(e) => return Err(DatabaseError::Remote(e)),
        };
        let nonce = match remote.get_transaction_count(a, block) {
            Ok(n) => n,
            Err(e) => return Err(DatabaseError::Remote(e)),
        };
        let code = match remote.get_code(a, block) {
            Ok(c) => c,
            Err(e) => return Err(DatabaseError::Remote(e)),
        };
        let code_hash = keccak256(code.as_slice());
        Ok(AccountInfo { balance, nonce, code: Some(code), code_hash })
    }

    /// The value of a storage slot: the kept one, else the one fetched now.
    pub fn storage<P: RemoteProvider>(&mut self, remote: &P, a: Address, slot: U256) -> (r: Result<U256, DatabaseError>)
        requires
            old(self).wf(),
        ensures
            final(self).wf(),
            final(self).pinned_block == old(self).pinned_block,
            old(self).db.storage@.contains_key(SlotKey { address: a, slot }) ==> r is Ok && r->Ok_0
                == old(self).db.storage@[SlotKey { address: a, slot }] && final(self).db.same_as(old(self).db),
            !old(self).db.storage@.contains_key(SlotKey { address: a, slot }) && r is Ok ==> final(self).db.storage@
                == old(self).db.storage@.insert(SlotKey { address: a, slot }, r->Ok_0)
                && final(self).db.accounts@ == old(self).db.accounts@,
            r is Err ==> final(self).db.same_as(old(self).db),
    {
        if self.db.storage.contains_key(&SlotKey { address: a, slot }) {
            return Ok(self.db.storage(a, slot));
        }
        match remote.get_storage_at(a, slot, self.pinned_block) {
            Ok(v) => {
                self.db.set_storage_at(a, slot, v);
                Ok(v)
            },
            Err(e) => Err(DatabaseError::Remote(e)),
        }
    }

    /// The code kept under a hash; code arrives with the account records.
    pub fn code_by_hash(&self, h: B256) -> (r: Vec<u8>)
        requires
            self.wf(),
        ensures
            r@ == self.db.code(h),
    {
        self.db.code_by_hash(h)
    }

    /// The hash of block `n`: the kept one, else the one fetched now.
    pub fn block_hash<P: RemoteProvider>(&mut self, remote: &P, n: u64) -> (r: Result<B256, DatabaseError>)
        requires
            old(self).wf(),
        ensures
            final(self).wf(),
            final(self).pinned_block == old(self).pinned_block,
            old(self).db.block_hashes@.contains_key(n) ==> r == Ok::<B256, DatabaseError>(old(self).db.block_hashes@[n])
                && final(self).db.same_as(old(self).db),
            !old(self).db.block_hashes@.contains_key(n) && r is Ok ==> final(self).db.block_hashes@
                == old(self).db.block_hashes@.insert(n, r->Ok_0) && final(self).db.accounts@ == old(self).db.accounts@,
            r is Err ==> final(self).db.same_as(old(self).db),
    {
        if let Some(h) = self.db.block_hashes.get(&n) {
            return Ok(*h);
        }
        match remote.get_block_by_number(n) {
            Ok(Some(block)) => match block.hash {
                Some(h) => {
                    self.db.insert_block_hash(n, h);
                    Ok(h)
                },
                None => Err(DatabaseError::BlockNotFound(n)),
            },
            Ok(None) => Err(DatabaseError::BlockNotFound(n)),
            Err(e) => Err(DatabaseError::Remote(e)),
        }
    }

    pub fn insert_account(&mut self, a: Address, info: AccountInfo)
        requires
            old(self).wf(),
        ensures
            final(self).wf(),
            final(self).pinned_block == old(self).pinned_block,
            final(self).db.accounts@ == old(self).db.accounts@.insert(a, info@),
            final(self).db.storage@ == old(self).db.storage@,
    {
        self.db.insert_account(a, info);
    }

    pub fn set_storage_at(&mut self, a: Address, slot: U256, value: U256)
        requires
            old(self).wf(),
        ensures
            final(self).wf(),
            final(self).pinned_block == old(self).pinned_block,
            final(self).db.storage@ == old(self).db.storage@.insert(SlotKey { address: a, slot }, value),
            final(self).db.accounts@ == old(self).db.accounts@,
    {
        self.db.set_storage_at(a, slot, value);
    }

    pub fn commit(&mut self, changes: &Changeset)
        requires
            old(self).wf(),
            changes.wf(),
        ensures
            final(self).wf(),
            final(self).pinned_block == old(self).pinned_block,
            commit_post(old(self).db, *changes, final(self).db),
    {
        self.db.commit(changes);
    }

    /// Pins a new block, if one is given, then drops everything fetched or
    /// written.
    pub fn reset(&mut self, block_number: Option<u64>)
        ensures
            final(self).wf(),
            final(self).db.is_empty(),
            final(self).fetched == old(self).fetched,
            final(self).pinned_block == match block_number {
                Some(n) => n,
                None => old(self).pinned_block,
            },
    {
        if let Some(n) = block_number {
            self.pinned_block = n;
        }
        self.db = MemDb::new();
    }

    pub fn duplicate(&self) -> (r: ForkedDatabase)
        requires
            self.wf(),
        ensures
            r.wf(),
            r.db.same_as(self.db),
            r.pinned_block == self.pinned_block,
    {
        ForkedDatabase { db: self.db.duplicate(), pinned_block: self.pinned_block, fetched: Ghost(self.fetched@) }
    }
}

} // verus!
