use evm_backend::backend::{Backend, Fork};
use evm_backend::constants::{cheatcode_address, global_failure_slot};
use evm_backend::error::{BlockchainError, DatabaseError};
use evm_backend::multi::{Backend2, CreateFork, ForkId};
use evm_backend::remote::{Block, ProviderError, RemoteProvider};
use evm_backend::types::{AccountInfo, Address, B256, U256};

/// A remote source whose chain holds the same small balance everywhere.
struct Fixed;

impl RemoteProvider for Fixed {
    fn connect(url: &str) -> Result<Self, ProviderError> {
        if url.is_empty() {
            Err(ProviderError { message: String::from("no url") })
        } else {
            Ok(Fixed)
        }
    }
    fn get_balance(&self, _a: Address, _b: u64) -> Result<U256, ProviderError> {
        Ok(U256::from_u64(3))
    }
    fn get_transaction_count(&self, _a: Address, _b: u64) -> Result<u64, ProviderError> {
        Ok(0)
    }
    fn get_code(&self, _a: Address, _b: u64) -> Result<Vec<u8>, ProviderError> {
        Ok(vec![])
    }
    fn get_storage_at(&self, _a: Address, _s: U256, _b: u64) -> Result<U256, ProviderError> {
        Ok(U256::zero())
    }
    fn get_block_by_hash(&self, _h: B256) -> Result<Option<Block>, ProviderError> {
        Ok(None)
    }
    fn get_block_by_number(&self, _n: u64) -> Result<Option<Block>, ProviderError> {
        Ok(None)
    }
    fn get_transaction(&self, _h: B256) -> Result<Option<Vec<u8>>, ProviderError> {
        Ok(None)
    }
    fn get_transaction_receipt(&self, _h: B256) -> Result<Option<Vec<u8>>, ProviderError> {
        Ok(None)
    }
    fn trace_transaction(&self, _h: B256) -> Result<Vec<u8>, ProviderError> {
        Ok(vec![])
    }
    fn trace_block(&self, _n: u64) -> Result<Vec<u8>, ProviderError> {
        Ok(vec![])
    }
}

fn addr(n: u128) -> Address {
    Address::new(0, n)
}

fn funded(balance: u64) -> AccountInfo {
    AccountInfo { balance: U256::from_u64(balance), nonce: 0, code: None, code_hash: B256::keccak_empty() }
}

#[test]
fn backend_variants() {
    let mut simple: Backend<Fixed> = Backend::new(None).ok().unwrap();
    assert!(matches!(simple, Backend::Simple(_)));
    assert_eq!(simple.basic(addr(1)).ok().unwrap().balance, U256::zero());
    simple.insert_account(addr(1), funded(8));
    assert_eq!(simple.basic(addr(1)).ok().unwrap().balance, U256::from_u64(8));
    let mut forked: Backend<Fixed> =
        Backend::new(Some(Fork { url: String::from("http://a"), block_number: 4 })).ok().unwrap();
    assert_eq!(forked.basic(addr(1)).ok().unwrap().balance, U256::from_u64(3));
    let bad = Backend::<Fixed>::new(Some(Fork { url: String::new(), block_number: 4 }));
    assert!(matches!(bad, Err(BlockchainError::InvalidUrl(_))));
}

#[test]
fn snapshot_revert_restores_state_after_earlier_writes() {
    let mut b: Backend2<Fixed> = Backend2::new(None).ok().unwrap();
    b.insert_account(addr(1), funded(10));
    b.set_storage_at(addr(1), U256::from_u64(0), U256::from_u64(1));
    let id = b.insert_snapshot();
    b.insert_account(addr(1), funded(20));
    b.insert_account(addr(2), funded(30));
    b.set_storage_at(addr(1), U256::from_u64(0), U256::from_u64(2));
    assert!(b.revert_snapshot(id));
    assert_eq!(b.basic(addr(1)).ok().unwrap().balance, U256::from_u64(10));
    assert_eq!(b.basic(addr(2)).ok().unwrap().balance, U256::zero());
    assert_eq!(b.memory.storage(addr(1), U256::from_u64(0)), U256::from_u64(1));
    assert!(!b.revert_snapshot(id));
}

#[test]
fn reverting_drops_later_snapshots_and_ids_increase() {
    let mut b: Backend2<Fixed> = Backend2::empty();
    let first = b.insert_snapshot();
    let second = b.insert_snapshot();
    assert_eq!(first, U256::from_u64(0));
    assert_eq!(second, U256::from_u64(1));
    assert!(b.revert_snapshot(first));
    assert!(!b.revert_snapshot(second));
    let third = b.insert_snapshot();
    assert_eq!(third, U256::from_u64(2));
    assert!(!b.revert_snapshot(U256::from_u64(99)));
}

#[test]
fn revert_undoing_a_global_failure_is_recorded() {
    let mut b: Backend2<Fixed> = Backend2::empty();
    let id = b.insert_snapshot();
    assert!(!b.has_snapshot_failure());
    b.set_storage_at(cheatcode_address(), global_failure_slot(), U256::from_u64(1));
    assert!(b.revert_snapshot(id));
    assert!(b.has_snapshot_failure());
    assert_eq!(b.memory.storage(cheatcode_address(), global_failure_slot()), U256::zero());
}

#[test]
fn selecting_unknown_fork_is_an_error() {
    let mut b: Backend2<Fixed> = Backend2::empty();
    let r = b.select_fork(ForkId { index: 0 });
    assert!(matches!(r, Err(BlockchainError::UnknownFork(0))));
    assert!(b.active.is_none());
}

#[test]
fn forks_keep_their_own_writes_and_persistent_accounts_follow() {
    let mut b: Backend2<Fixed> = Backend2::empty();
    b.insert_account(addr(1), funded(50));
    b.insert_account(addr(2), funded(60));
    b.add_persistent_account(addr(1));
    let fa = b.create_fork(CreateFork { enable_caching: false, url: String::from("http://a"), block: 1, chain_id: None }).ok().unwrap();
    let fb = b.create_fork(CreateFork { enable_caching: false, url: String::from("http://b"), block: 2, chain_id: None }).ok().unwrap();
    assert!(b.active.is_none());
    assert!(b.select_fork(fa).is_ok());
    assert_eq!(b.basic(addr(1)).ok().unwrap().balance, U256::from_u64(50));
    assert_eq!(b.basic(addr(2)).ok().unwrap().balance, U256::from_u64(3));
    b.insert_account(addr(3), funded(70));
    assert!(b.select_fork(fb).is_ok());
    assert_eq!(b.basic(addr(3)).ok().unwrap().balance, U256::from_u64(3));
    assert!(b.select_fork(fa).is_ok());
    assert_eq!(b.basic(addr(3)).ok().unwrap().balance, U256::from_u64(70));
    let bad = b.create_fork(CreateFork { enable_caching: false, url: String::new(), block: 2, chain_id: None });
    assert!(bad.is_err());
}

#[test]
fn missing_record_is_none_in_memory() {
    let mut b: Backend2<Fixed> = Backend2::empty();
    assert!(b.basic_ref(addr(5)).ok().unwrap().is_none());
    let r: Result<Option<AccountInfo>, DatabaseError> = b.basic_ref(addr(5));
    assert!(r.is_ok());
}
