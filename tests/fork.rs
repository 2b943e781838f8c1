use std::cell::Cell;

use evm_backend::error::BlockchainError;
use evm_backend::fork::ClientFork;
use evm_backend::forkdb::ForkedDatabase;
use evm_backend::remote::{Block, ProviderError, RemoteProvider};
use evm_backend::types::{Address, B256, U256};

/// A remote source that answers from fixed data and counts its requests.
struct Counting {
    calls: Cell<u32>,
}

fn err() -> ProviderError {
    ProviderError { message: String::from("unavailable") }
}

impl RemoteProvider for Counting {
    fn connect(url: &str) -> Result<Self, ProviderError> {
        if url.starts_with("http") {
            Ok(Counting { calls: Cell::new(0) })
        } else {
            Err(err())
        }
    }

    fn get_balance(&self, _address: Address, block: u64) -> Result<U256, ProviderError> {
        self.calls.set(self.calls.get() + 1);
        Ok(U256::from_u64(1000 + block))
    }

    fn get_transaction_count(&self, _address: Address, _block: u64) -> Result<u64, ProviderError> {
        self.calls.set(self.calls.get() + 1);
        Ok(4)
    }

    fn get_code(&self, address: Address, block: u64) -> Result<Vec<u8>, ProviderError> {
        self.calls.set(self.calls.get() + 1);
        if address == Address::new(0, 666) {
            return Err(err());
        }
        Ok(vec![0x60, block as u8])
    }

    fn get_storage_at(&self, _address: Address, slot: U256, _block: u64) -> Result<U256, ProviderError> {
        self.calls.set(self.calls.get() + 1);
        Ok(slot)
    }

    fn get_block_by_hash(&self, hash: B256) -> Result<Option<Block>, ProviderError> {
        self.calls.set(self.calls.get() + 1);
        Ok(Some(Block { hash: Some(hash), number: Some(hash.low as u64), transactions: vec![B256::new(0, 77)], body: vec![1] }))
    }

    fn get_block_by_number(&self, number: u64) -> Result<Option<Block>, ProviderError> {
        self.calls.set(self.calls.get() + 1);
        if number > 100 {
            return Ok(None);
        }
        Ok(Some(Block {
            hash: Some(B256::new(1, number as u128)),
            number: Some(number),
            transactions: vec![B256::new(0, 77), B256::new(0, 78)],
            body: vec![2],
        }))
    }

    fn get_transaction(&self, hash: B256) -> Result<Option<Vec<u8>>, ProviderError> {
        self.calls.set(self.calls.get() + 1);
        Ok(Some(vec![hash.low as u8]))
    }

    fn get_transaction_receipt(&self, _hash: B256) -> Result<Option<Vec<u8>>, ProviderError> {
        self.calls.set(self.calls.get() + 1);
        Ok(None)
    }

    fn trace_transaction(&self, _hash: B256) -> Result<Vec<u8>, ProviderError> {
        self.calls.set(self.calls.get() + 1);
        Ok(vec![9])
    }

    fn trace_block(&self, number: u64) -> Result<Vec<u8>, ProviderError> {
        self.calls.set(self.calls.get() + 1);
        Ok(vec![number as u8])
    }
}

fn fork() -> ClientFork<Counting> {
    let p = Counting::connect("http://localhost:8545").ok().unwrap();
    ClientFork::new(String::from("http://localhost:8545"), 10, B256::new(0, 10), 1, p)
}

#[test]
fn get_code_fetches_once_per_address_and_block() {
    let mut f = fork();
    let a = Address::new(0, 1);
    let first = f.get_code(a, 10).ok().unwrap();
    let second = f.get_code(a, 10).ok().unwrap();
    assert_eq!(first, second);
    assert_eq!(first, vec![0x60, 10]);
    assert_eq!(f.config.provider.calls.get(), 1);
    let other_block = f.get_code(a, 11).ok().unwrap();
    assert_eq!(other_block, vec![0x60, 11]);
    assert_eq!(f.config.provider.calls.get(), 2);
}

#[test]
fn failed_fetch_is_reported_and_not_cached() {
    let mut f = fork();
    let bad = Address::new(0, 666);
    assert!(f.get_code(bad, 10).is_err());
    assert!(f.get_code(bad, 10).is_err());
    assert_eq!(f.config.provider.calls.get(), 2);
}

#[test]
fn reset_clears_cache_and_pins_block() {
    let mut f = fork();
    let a = Address::new(0, 1);
    f.get_code(a, 10).ok().unwrap();
    f.block_by_number(5).ok().unwrap();
    f.trace_block(5).ok().unwrap();
    assert!(f.reset(None, Some(20)).is_ok());
    assert_eq!(f.block_number(), 20);
    assert_eq!(f.database.pinned_block, 20);
    let calls = f.config.provider.calls.get();
    f.get_code(a, 10).ok().unwrap();
    assert_eq!(f.config.provider.calls.get(), calls + 1);
    let mut db = ForkedDatabase::new(0);
    std::mem::swap(&mut db, &mut f.database);
    let acct = db.basic(&f.config.provider, a).ok().unwrap();
    assert_eq!(acct.balance, U256::from_u64(1020));
}

#[test]
fn reset_with_bad_url_keeps_config() {
    let mut f = fork();
    let r = f.reset(Some(String::from("ftp://nowhere")), Some(30));
    assert!(matches!(r, Err(BlockchainError::InvalidUrl(ref u)) if u == "ftp://nowhere"));
    assert_eq!(f.block_number(), 10);
    assert_eq!(f.eth_rpc_url(), "http://localhost:8545");
    assert!(f.reset(Some(String::from("http://other")), None).is_ok());
    assert_eq!(f.eth_rpc_url(), "http://other");
}

#[test]
fn predates_fork_compares_with_pinned_block() {
    let f = fork();
    assert!(f.predates_fork(10));
    assert!(f.predates_fork(3));
    assert!(!f.predates_fork(11));
    assert_eq!(f.chain_id(), 1);
    assert_eq!(f.block_hash(), B256::new(0, 10));
}

#[test]
fn blocks_are_cached_by_number_and_hash() {
    let mut f = fork();
    let b = f.block_by_number(5).ok().unwrap().unwrap();
    assert_eq!(b.hash, Some(B256::new(1, 5)));
    let calls = f.config.provider.calls.get();
    let again = f.block_by_hash(B256::new(1, 5)).ok().unwrap().unwrap();
    assert_eq!(again.number, Some(5));
    f.block_by_number(5).ok().unwrap();
    assert_eq!(f.config.provider.calls.get(), calls);
    assert!(f.block_by_number(500).ok().unwrap().is_none());
}

#[test]
fn transaction_by_block_and_index() {
    let mut f = fork();
    let tx = f.transaction_by_block_number_and_index(5, 1).ok().unwrap();
    assert_eq!(tx, Some(vec![78]));
    assert_eq!(f.transaction_by_block_number_and_index(5, 2).ok().unwrap(), None);
    assert_eq!(f.transaction_by_block_hash_and_index(B256::new(1, 5), 0).ok().unwrap(), Some(vec![77]));
    assert_eq!(f.transaction_by_block_number_and_index(500, 0).ok().unwrap(), None);
}

#[test]
fn receipts_traces_and_transactions_are_cached() {
    let mut f = fork();
    assert_eq!(f.transaction_receipt(B256::new(0, 1)).ok().unwrap(), None);
    assert_eq!(f.trace_transaction(B256::new(0, 1)).ok().unwrap(), vec![9]);
    assert_eq!(f.transaction_by_hash(B256::new(0, 3)).ok().unwrap(), Some(vec![3]));
    let calls = f.config.provider.calls.get();
    f.trace_transaction(B256::new(0, 1)).ok().unwrap();
    f.transaction_by_hash(B256::new(0, 3)).ok().unwrap();
    assert_eq!(f.config.provider.calls.get(), calls);
    f.clear_cached_storage();
    f.trace_transaction(B256::new(0, 1)).ok().unwrap();
    assert_eq!(f.config.provider.calls.get(), calls + 1);
}

#[test]
fn forked_reads_are_fetched_once_and_writes_shadow_them() {
    let p = Counting::connect("http://x").ok().unwrap();
    let mut db = ForkedDatabase::new(7);
    let a = Address::new(0, 2);
    let first = db.basic(&p, a).ok().unwrap();
    assert_eq!(first.balance, U256::from_u64(1007));
    assert_eq!(first.nonce, 4);
    assert_eq!(first.code, Some(vec![0x60, 7]));
    assert_ne!(first.code_hash, B256::keccak_empty());
    assert_eq!(db.code_by_hash(first.code_hash), vec![0x60, 7]);
    let calls = p.calls.get();
    let again = db.basic(&p, a).ok().unwrap();
    assert_eq!(again.balance, first.balance);
    assert_eq!(p.calls.get(), calls);
    db.insert_account(a, evm_backend::types::AccountInfo { balance: U256::from_u64(1), ..again });
    assert_eq!(db.basic(&p, a).ok().unwrap().balance, U256::from_u64(1));
    assert_eq!(db.storage(&p, a, U256::from_u64(5)).ok().unwrap(), U256::from_u64(5));
    db.set_storage_at(a, U256::from_u64(5), U256::from_u64(6));
    assert_eq!(db.storage(&p, a, U256::from_u64(5)).ok().unwrap(), U256::from_u64(6));
    assert_eq!(db.block_hash(&p, 3).ok().unwrap(), B256::new(1, 3));
    assert!(db.block_hash(&p, 300).is_err());
}
