//! The fork handle: its configuration, the cache of remote responses it
//! serves requests from, and the fork's state store.
use vstd::prelude::*;
use crate::error::BlockchainError;
use crate::forkdb::{read_fetches, ForkedDatabase};
use crate::remote::{Block, BlockView, ProviderError, RemoteProvider};
use crate::table::{BlockKey, Table, TableValue};
use crate::types::{copy_bytes, Address, B256, U256};

verus! {

/// Responses fetched from the remote source, kept until cleared.
pub struct ForkedStorage {
    pub blocks: Table<B256, Block>,
    pub hashes: Table<u64, B256>,
    pub transactions: Table<B256, Vec<u8>>,
    pub transaction_receipts: Table<B256, Vec<u8>>,
    pub transaction_traces: Table<B256, Vec<u8>>,
    pub block_traces: Table<u64, Vec<u8>>,
    pub code_at: Table<BlockKey, Vec<u8>>,
}

impl ForkedStorage {
    pub open spec fn wf(&self) -> bool {
        &&& self.blocks.wf()
        &&& self.hashes.wf()
        &&& self.transactions.wf()
        &&& self.transaction_receipts.wf()
        &&& self.transaction_traces.wf()
        &&& self.block_traces.wf()
        &&& self.code_at.wf()
    }

    /// Nothing is cached.
    pub open spec fn is_empty(&self) -> bool {
        &&& self.blocks@ == Map::<B256, BlockView>::empty()
        &&& self.hashes@ == Map::<u64, B256>::empty()
        &&& self.transactions@ == Map::<B256, Seq<u8>>::empty()
        &&& self.transaction_receipts@ == Map::<B256, Seq<u8>>::empty()
        &&& self.transaction_traces@ == Map::<B256, Seq<u8>>::empty()
        &&& self.block_traces@ == Map::<u64, Seq<u8>>::empty()
        &&& self.code_at@ == Map::<BlockKey, Seq<u8>>::empty()
    }

    /// The two caches hold the same responses.
    pub open spec fn same_as(&self, other: ForkedStorage) -> bool {
        &&& self.blocks@ == other.blocks@
        &&& self.hashes@ == other.hashes@
        &&& self.transactions@ == other.transactions@
        &&& self.transaction_receipts@ == other.transaction_receipts@
        &&& self.transaction_traces@ == other.transaction_traces@
        &&& self.block_traces@ == other.block_traces@
        &&& self.code_at@ == other.code_at@
    }

    pub fn new() -> (r: ForkedStorage)
        ensures
            r.wf(),
            r.is_empty(),
    {
        ForkedStorage {
            blocks: Table::new(),
            hashes: Table::new(),
            transactions: Table::new(),
            transaction_receipts: Table::new(),
            transaction_traces: Table::new(),
            block_traces: Table::new(),
            code_at: Table::new(),
        }
    }

    /// Clears all data.
    pub fn clear(&mut self)
        ensures
            final(self).wf(),
            final(self).is_empty(),
    {
        *self = ForkedStorage::new();
    }
}

/// Where the fork reads from, and as of which block.
pub struct ClientForkConfig<P> {
    pub eth_rpc_url: String,
    pub block_number: u64,
    pub block_hash: B256,
    pub provider: P,
    pub chain_id: u64,
}

impl<P: RemoteProvider> ClientForkConfig<P> {
    /// Updates the forking metadata: a new URL needs a new remote source, and
    /// if none can be established nothing changes.
    pub fn update(&mut self, url: Option<String>, block_number: Option<u64>) -> (r: Result<(), BlockchainError>)
        ensures
            url is None ==> r is Ok,
            r is Err ==> *final(self) == *old(self) && r == Err::<(), BlockchainError>(
                BlockchainError::InvalidUrl(url.unwrap()),
            ),
            r is Ok ==> final(self).eth_rpc_url@ == match url {
                Some(u) => u@,
                None => old(self).eth_rpc_url@,
            } && final(self).block_number == match block_number {
                Some(n) => n,
                None => old(self).block_number,
            } && final(self).block_hash == old(self).block_hash && final(self).chain_id
                == old(self).chain_id && (url is None ==> final(self).provider == old(self).provider),
    {
        if let Some(url) = url {
            match P::connect(url.as_str()) {
                Ok(p) => {
                    self.provider = p;
                    self.eth_rpc_url = url;
                },
                Err(_) => return Err(BlockchainError::InvalidUrl(url)),
            }
        }
        if let Some(n) = block_number {
            self.block_number = n;
        }
        Ok(())
    }
}

/// A fork of a remote chain: requests are answered from the cache when it
/// holds the response, else fetched through the configured provider and
/// kept. `remote_fetches` counts the requests sent to the remote source.
pub struct ClientFork<P> {
    pub storage: ForkedStorage,
    pub config: ClientForkConfig<P>,
    pub database: ForkedDatabase,
    pub remote_fetches: Ghost<nat>,
}

impl<P: RemoteProvider> ClientFork<P> {
    pub open spec fn wf(&self) -> bool {
        self.storage.wf() && self.database.wf()
    }

    /// A fork of the chain served by `provider`, as of block `block_number`.
    pub fn new(eth_rpc_url: String, block_number: u64, block_hash: B256, chain_id: u64, provider: P) -> (r: ClientFork<P>)
        ensures
            r.wf(),
            r.storage.is_empty(),
            r.database.db.is_empty(),
            r.database.pinned_block == block_number,
            r.config.eth_rpc_url@ == eth_rpc_url@,
            r.config.block_number == block_number,
            r.config.block_hash == block_hash,
            r.config.chain_id == chain_id,
            r.config.provider == provider,
            r.remote_fetches@ == 0,
    {
        ClientFork {
            storage: ForkedStorage::new(),
            config: ClientForkConfig { eth_rpc_url, block_number, block_hash, provider, chain_id },
            database: ForkedDatabase::new(block_number),
            remote_fetches: Ghost(0),
        }
    }

    /// Resets the fork: pins the new block if one is given, drops the cached
    /// responses and the fork's state, then updates the configuration.
    pub fn reset(&mut self, url: Option<String>, block_number: Option<u64>) -> (r: Result<(), BlockchainError>)
        requires
            old(self).wf(),
        ensures
            final(self).wf(),
            reset_post(*old(self), url, block_number, r, *final(self)),
    {
        self.database.reset(block_number);
        self.clear_cached_storage();
        self.config.update(url, block_number)
    }

    /// Removes all data cached from previous responses.
    pub fn clear_cached_storage(&mut self)
        ensures
            final(self).storage.wf(),
            final(self).storage.is_empty(),
            final(self).config == old(self).config,
            final(self).database == old(self).database,
            final(self).remote_fetches == old(self).remote_fetches,
    {
        self.storage.clear();
    }

    /// Whether the block predates the fork.
    pub fn predates_fork(&self, block: u64) -> (r: bool)
        ensures
            r == (block <= self.config.block_number),
    {
        block <= self.block_number()
    }

    pub fn block_number(&self) -> (r: u64)
        ensures
            r == self.config.block_number,
    {
        self.config.block_number
    }

    pub fn block_hash(&self) -> (r: B256)
        ensures
            r == self.config.block_hash,
    {
        self.config.block_hash
    }

    pub fn eth_rpc_url(&self) -> (r: String)
        ensures
            r@ == self.config.eth_rpc_url@,
    {
        self.config.eth_rpc_url.clone()
    }

    pub fn chain_id(&self) -> (r: u64)
        ensures
            r == self.config.chain_id,
    {
        self.config.chain_id
    }

    /// The value of a storage slot as of block `number`, or of the fork's
    /// block; always fetched.
    pub fn storage_at(&mut self, address: Address, index: U256, number: Option<u64>) -> (r: Result<U256, ProviderError>)
        ensures
            final(self).remote_fetches@ == old(self).remote_fetches@ + 1,
            final(self).storage == old(self).storage,
            final(self).config == old(self).config,
            final(self).database == old(self).database,
    {
        let block = match number {
            Some(n) => n,
            None => self.config.block_number,
        };
        self.remote_fetches = Ghost(self.remote_fetches@ + 1);
        self.config.provider.get_storage_at(address, index, block)
    }

    /// The code of `address` as of block `blocknumber`, fetched at most once.
    pub fn get_code(&mut self, address: Address, blocknumber: u64) -> (r: Result<Vec<u8>, ProviderError>)
        requires
            old(self).wf(),
        ensures
            final(self).wf(),
            final(self).config == old(self).config,
            final(self).database == old(self).database,
            get_code_post(
                old(self).storage,
                old(self).remote_fetches@,
                BlockKey { address, block: blocknumber },
                r,
                final(self).storage,
                final(self).remote_fetches@,
            ),
    {
        let key = BlockKey { address, block: blocknumber };
        if let Some(code) = self.storage.code_at.get(&key) {
            return Ok(copy_bytes(code));
        }
        self.remote_fetches = Ghost(self.remote_fetches@ + 1);
        match self.config.provider.get_code(address, blocknumber) {
            Ok(code) => {
                self.storage.code_at.insert(key, copy_bytes(&code));
                Ok(code)
            },
            Err(e) => Err(e),
        }
    }

    /// The balance of `address` as of block `blocknumber`; always fetched.
    pub fn get_balance(&mut self, address: Address, blocknumber: u64) -> (r: Result<U256, ProviderError>)
        ensures
            final(self).remote_fetches@ == old(self).remote_fetches@ + 1,
            final(self).storage == old(self).storage,
            final(self).config == old(self).config,
            final(self).database == old(self).database,
    {
        self.remote_fetches = Ghost(self.remote_fetches@ + 1);
        self.config.provider.get_balance(address, blocknumber)
    }

    /// The nonce of `address` as of block `blocknumber`; always fetched.
    pub fn get_nonce(&mut self, address: Address, blocknumber: u64) -> (r: Result<u64, ProviderError>)
        ensures
            final(self).remote_fetches@ == old(self).remote_fetches@ + 1,
            final(self).storage == old(self).storage,
            final(self).config == old(self).config,
            final(self).database == old(self).database,
    {
        self.remote_fetches = Ghost(self.remote_fetches@ + 1);
        self.config.provider.get_transaction_count(address, blocknumber)
    }
    /// The transaction with this hash, fetched at most once while found.
    pub fn transaction_by_hash(&mut self, hash: B256) -> (r: Result<Option<Vec<u8>>, ProviderError>)
        requires
            old(self).wf(),
        ensures
            final(self).wf(),
            final(self).config == old(self).config,
            final(self).database == old(self).database,
            old(self).storage.transactions@.contains_key(hash) ==> (r matches Ok(Some(t)) && t@
                == old(self).storage.transactions@[hash] && final(self).storage.same_as(old(self).storage)
                && final(self).remote_fetches == old(self).remote_fetches),
            !old(self).storage.transactions@.contains_key(hash) ==> final(self).remote_fetches@
                == old(self).remote_fetches@ + 1 && final(self).storage.transactions@ == match r {
                Ok(Some(t)) => old(self).storage.transactions@.insert(hash, t@),
                _ => old(self).storage.transactions@,
            } && final(self).storage.blocks@ == old(self).storage.blocks@
                && final(self).storage.code_at@ == old(self).storage.code_at@,
    {
        if let Some(tx) = self.storage.transactions.get(&hash) {
            return Ok(Some(copy_bytes(tx)));
        }
        self.remote_fetches = Ghost(self.remote_fetches@ + 1);
        match self.config.provider.get_transaction(hash) {
            Ok(Some(tx)) => {
                self.storage.transactions.insert(hash, copy_bytes(&tx));
                Ok(Some(tx))
            },
            Ok(None) => Ok(None),
            Err(e) => Err(e),
        }
    }

    /// The traces of a transaction, fetched at most once.
    pub fn trace_transaction(&mut self, hash: B256) -> (r: Result<Vec<u8>, ProviderError>)
        requires
            old(self).wf(),
        ensures
            final(self).wf(),
            final(self).config == old(self).config,
            final(self).database == old(self).database,
            old(self).storage.transaction_traces@.contains_key(hash) ==> (r matches Ok(t) && t@
                == old(self).storage.transaction_traces@[hash] && final(self).storage.same_as(old(self).storage)
                && final(self).remote_fetches == old(self).remote_fetches),
            !old(self).storage.transaction_traces@.contains_key(hash) ==> final(self).remote_fetches@
                == old(self).remote_fetches@ + 1 && final(self).storage.transaction_traces@ == match r {
                Ok(t) => old(self).storage.transaction_traces@.insert(hash, t@),
                Err(_) => old(self).storage.transaction_traces@,
            } && final(self).storage.blocks@ == old(self).storage.blocks@,
    {
        if let Some(t) = self.storage.transaction_traces.get(&hash) {
            return Ok(copy_bytes(t));
        }
        self.remote_fetches = Ghost(self.remote_fetches@ + 1);
        match self.config.provider.trace_transaction(hash) {
            Ok(t) => {
                self.storage.transaction_traces.insert(hash, copy_bytes(&t));
                Ok(t)
            },
            Err(e) => Err(e),
        }
    }

    /// The traces of a block, fetched at most once.
    pub fn trace_block(&mut self, number: u64) -> (r: Result<Vec<u8>, ProviderError>)
        requires
            old(self).wf(),
        ensures
            final(self).wf(),
            final(self).config == old(self).config,
            final(self).database == old(self).database,
            old(self).storage.block_traces@.contains_key(number) ==> (r matches Ok(t) && t@
                == old(self).storage.block_traces@[number] && final(self).storage.same_as(old(self).storage)
                && final(self).remote_fetches == old(self).remote_fetches),
            !old(self).storage.block_traces@.contains_key(number) ==> final(self).remote_fetches@
                == old(self).remote_fetches@ + 1 && final(self).storage.block_traces@ == match r {
                Ok(t) => old(self).storage.block_traces@.insert(number, t@),
                Err(_) => old(self).storage.block_traces@,
            } && final(self).storage.blocks@ == old(self).storage.blocks@,
    {
        if let Some(t) = self.storage.block_traces.get(&number) {
            return Ok(copy_bytes(t));
        }
        self.remote_fetches = Ghost(self.remote_fetches@ + 1);
        match self.config.provider.trace_block(number) {
            Ok(t) => {
                self.storage.block_traces.insert(number, copy_bytes(&t));
                Ok(t)
            },
            Err(e) => Err(e),
        }
    }

    /// The receipt of a transaction, fetched at most once while found.
    pub fn transaction_receipt(&mut self, hash: B256) -> (r: Result<Option<Vec<u8>>, ProviderError>)
        requires
            old(self).wf(),
        ensures
            final(self).wf(),
            final(self).config == old(self).config,
            final(self).database == old(self).database,
            old(self).storage.transaction_receipts@.contains_key(hash) ==> (r matches Ok(Some(t)) && t@
                == old(self).storage.transaction_receipts@[hash] && final(self).storage.same_as(old(self).storage)
                && final(self).remote_fetches == old(self).remote_fetches),
            !old(self).storage.transaction_receipts@.contains_key(hash) ==> final(self).remote_fetches@
                == old(self).remote_fetches@ + 1 && final(self).storage.transaction_receipts@ == match r {
                Ok(Some(t)) => old(self).storage.transaction_receipts@.insert(hash, t@),
                _ => old(self).storage.transaction_receipts@,
            } && final(self).storage.blocks@ == old(self).storage.blocks@,
    {
        if let Some(t) = self.storage.transaction_receipts.get(&hash) {
            return Ok(Some(copy_bytes(t)));
        }
        self.remote_fetches = Ghost(self.remote_fetches@ + 1);
        match self.config.provider.get_transaction_receipt(hash) {
            Ok(Some(t)) => {
                self.storage.transaction_receipts.insert(hash, copy_bytes(&t));
                Ok(Some(t))
            },
            Ok(None) => Ok(None),
            Err(e) => Err(e),
        }
    }

    /// The block with this hash, fetched at most once while found. A fetched
    /// block that carries its number is also indexed by that number.
    pub fn block_by_hash(&mut self, hash: B256) -> (r: Result<Option<Block>, ProviderError>)
        requires
            old(self).wf(),
        ensures
            final(self).wf(),
            final(self).config == old(self).config,
            final(self).database == old(self).database,
            old(self).storage.blocks@.contains_key(hash) ==> (r matches Ok(Some(b)) && b@
                == old(self).storage.blocks@[hash] && final(self).storage.same_as(old(self).storage)
                && final(self).remote_fetches == old(self).remote_fetches),
            !old(self).storage.blocks@.contains_key(hash) ==> final(self).remote_fetches@
                == old(self).remote_fetches@ + 1 && final(self).storage.blocks@ == match r {
                Ok(Some(b)) => old(self).storage.blocks@.insert(hash, b@),
                _ => old(self).storage.blocks@,
            } && final(self).storage.hashes@ == match r {
                Ok(Some(b)) => match b.number {
                    Some(n) => old(self).storage.hashes@.insert(n, hash),
                    None => old(self).storage.hashes@,
                },
                _ => old(self).storage.hashes@,
            } && final(self).storage.code_at@ == old(self).storage.code_at@,
    {
        if let Some(b) = self.storage.blocks.get(&hash) {
            return Ok(Some(b.duplicate()));
        }
        self.remote_fetches = Ghost(self.remote_fetches@ + 1);
        match self.config.provider.get_block_by_hash(hash) {
            Ok(Some(block)) => {
                if let Some(n) = block.number {
                    self.storage.hashes.insert(n, hash);
                }
                self.storage.blocks.insert(hash, block.duplicate());
                Ok(Some(block))
            },
            Ok(None) => Ok(None),
            Err(e) => Err(e),
        }
    }

    /// The block with this number, fetched at most once while found. A
    /// fetched block is kept only when it carries its hash.
    pub fn block_by_number(&mut self, number: u64) -> (r: Result<Option<Block>, ProviderError>)
        requires
            old(self).wf(),
        ensures
            final(self).wf(),
            final(self).config == old(self).config,
            final(self).database == old(self).database,
            block_cached(old(self).storage, number) ==> (r matches Ok(Some(b)) && b@
                == old(self).storage.blocks@[old(self).storage.hashes@[number]]
                && final(self).storage.same_as(old(self).storage)
                && final(self).remote_fetches == old(self).remote_fetches),
            !block_cached(old(self).storage, number) ==> final(self).remote_fetches@
                == old(self).remote_fetches@ + 1 && match r {
                Ok(Some(b)) => match b.hash {
                    Some(h) => final(self).storage.blocks@ == old(self).storage.blocks@.insert(h, b@)
                        && final(self).storage.hashes@ == old(self).storage.hashes@.insert(number, h),
                    None => final(self).storage.same_as(old(self).storage),
                },
                _ => final(self).storage.same_as(old(self).storage),
            },
    {
        if let Some(h) = self.storage.hashes.get(&number) {
            if let Some(b) = self.storage.blocks.get(h) {
                return Ok(Some(b.duplicate()));
            }
        }
        self.remote_fetches = Ghost(self.remote_fetches@ + 1);
        match self.config.provider.get_block_by_number(number) {
            Ok(Some(block)) => {
                if let Some(h) = block.hash {
                    self.storage.hashes.insert(number, h);
                    self.storage.blocks.insert(h, block.duplicate());
                }
                Ok(Some(block))
            },
            Ok(None) => Ok(None),
            Err(e) => Err(e),
        }
    }

    /// The transaction at `index` in block `number`, if both exist.
    pub fn transaction_by_block_number_and_index(&mut self, number: u64, index: usize) -> (r: Result<Option<Vec<u8>>, ProviderError>)
        requires
            old(self).wf(),
        ensures
            final(self).wf(),
            final(self).config == old(self).config,
            final(self).database == old(self).database,
            block_cached(old(self).storage, number) && index >= old(self).storage.blocks@[old(self).storage.hashes@[number]].transactions.len()
                ==> (r matches Ok(None)),
    {
        match self.block_by_number(number) {
            Ok(Some(block)) => {
                if index < block.transactions.len() {
                    self.transaction_by_hash(block.transactions[index])
                } else {
                    Ok(None)
                }
            },
            Ok(None) => Ok(None),
            Err(e) => Err(e),
        }
    }

    /// The transaction at `index` in the block with this hash, if both exist.
    pub fn transaction_by_block_hash_and_index(&mut self, hash: B256, index: usize) -> (r: Result<Option<Vec<u8>>, ProviderError>)
        requires
            old(self).wf(),
        ensures
            final(self).wf(),
            final(self).config == old(self).config,
            final(self).database == old(self).database,
            old(self).storage.blocks@.contains_key(hash) && index >= old(self).storage.blocks@[hash].transactions.len()
                ==> (r matches Ok(None)),
    {
        match self.block_by_hash(hash) {
            Ok(Some(block)) => {
                if index < block.transactions.len() {
                    self.transaction_by_hash(block.transactions[index])
                } else {
                    Ok(None)
                }
            },
            Ok(None) => Ok(None),
            Err(e) => Err(e),
        }
    }
}

/// What `reset` leaves: no cached response and no fork state, the new block
/// pinned if one was given, and the configuration updated all-or-nothing.
pub open spec fn reset_post<P>(
    before: ClientFork<P>,
    url: Option<String>,
    block_number: Option<u64>,
    r: Result<(), BlockchainError>,
    after: ClientFork<P>,
) -> bool {
    &&& after.storage.is_empty()
    &&& after.database.db.is_empty()
    &&& after.database.pinned_block == match block_number {
        Some(n) => n,
        None => before.database.pinned_block,
    }
    &&& url is None ==> r is Ok
    &&& r is Err ==> after.config == before.config
    &&& r is Ok ==> after.config.block_number == match block_number {
        Some(n) => n,
        None => before.config.block_number,
    }
    &&& r is Ok && url is Some ==> after.config.eth_rpc_url@ == url.unwrap()@
    &&& url is None ==> after.config.eth_rpc_url@ == before.config.eth_rpc_url@ && after.config.provider
        == before.config.provider
    &&& after.config.chain_id == before.config.chain_id
    &&& after.config.block_hash == before.config.block_hash
    &&& after.remote_fetches == before.remote_fetches
}

/// Two requests for the same code: the second is answered from the cache
/// with the bytes of the first, and the remote source is asked at most once.
pub proof fn lemma_get_code_memoized(
    s0: ForkedStorage,
    f0: nat,
    key: BlockKey,
    r1: Result<Vec<u8>, ProviderError>,
    s1: ForkedStorage,
    f1: nat,
    r2: Result<Vec<u8>, ProviderError>,
    s2: ForkedStorage,
    f2: nat,
)
    requires
        get_code_post(s0, f0, key, r1, s1, f1),
        r1 is Ok,
        get_code_post(s1, f1, key, r2, s2, f2),
    ensures
        r2 is Ok,
        r2->Ok_0@ == r1->Ok_0@,
        f2 == f1,
        f2 <= f0 + 1,
        s2.same_as(s1),
{
}

/// After a reset to block `n` that changes no URL, every cached response and
/// every fetched or written record is gone, and the fork reads as of `n`:
/// the next request for any code or account goes to the remote source.
pub proof fn lemma_reset_clears<P>(
    before: ClientFork<P>,
    n: u64,
    r: Result<(), BlockchainError>,
    after: ClientFork<P>,
)
    requires
        reset_post(before, None, Some(n), r, after),
    ensures
        r is Ok,
        after.database.pinned_block == n,
        after.config.block_number == n,
        forall|k: BlockKey| !after.storage.code_at@.contains_key(k),
        forall|h: B256| !after.storage.blocks@.contains_key(h) && !after.storage.transactions@.contains_key(h)
            && !after.storage.transaction_receipts@.contains_key(h)
            && !after.storage.transaction_traces@.contains_key(h),
        forall|b: u64| !after.storage.hashes@.contains_key(b) && !after.storage.block_traces@.contains_key(b),
        forall|a: Address| !after.database.db.accounts@.contains_key(a),
        after.config.eth_rpc_url@ == before.config.eth_rpc_url@,
        after.config.chain_id == before.config.chain_id,
{
}

/// After a reset to block `n`, reading any account asks the remote source
/// for it as of block `n`.
pub proof fn lemma_read_after_reset_fetches_at<P>(
    before: ClientFork<P>,
    n: u64,
    r: Result<(), BlockchainError>,
    after: ClientFork<P>,
    a: Address,
    read: ForkedDatabase,
)
    requires
        reset_post(before, None, Some(n), r, after),
        read_fetches(after.database, a, read),
    ensures
        read.fetched@.last() == (BlockKey { address: a, block: n }),
{
}

/// The cache can answer a request for block `number`.
pub open spec fn block_cached(s: ForkedStorage, number: u64) -> bool {
    s.hashes@.contains_key(number) && s.blocks@.contains_key(s.hashes@[number])
}

/// What `get_code` leaves: a cached response is returned as it is, with no
/// fetch and no change; a miss is fetched once, and a fetched code is kept.
pub open spec fn get_code_post(
    before: ForkedStorage,
    fetches_before: nat,
    key: BlockKey,
    r: Result<Vec<u8>, ProviderError>,
    after: ForkedStorage,
    fetches_after: nat,
) -> bool {
    if before.code_at@.contains_key(key) {
        &&& r is Ok
        &&& r->Ok_0@ == before.code_at@[key]
        &&& after.same_as(before)
        &&& fetches_after == fetches_before
    } else {
        &&& fetches_after == fetches_before + 1
        &&& r is Ok ==> after.code_at@ == before.code_at@.insert(key, r->Ok_0@)
        &&& r is Err ==> after.code_at@ == before.code_at@
        &&& after.blocks@ == before.blocks@
        &&& after.hashes@ == before.hashes@
        &&& after.transactions@ == before.transactions@
        &&& after.transaction_receipts@ == before.transaction_receipts@
        &&& after.transaction_traces@ == before.transaction_traces@
        &&& after.block_traces@ == before.block_traces@
    }
}

} // verus!
