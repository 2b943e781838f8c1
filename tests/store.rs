use evm_backend::db::{Changeset, MemDb};
use evm_backend::types::{AccountInfo, Address, B256, U256};

fn addr(n: u128) -> Address {
    Address::new(0, n)
}

fn info(balance: u64, nonce: u64) -> AccountInfo {
    AccountInfo { balance: U256::from_u64(balance), nonce, code: None, code_hash: B256::keccak_empty() }
}

#[test]
fn insert_account_then_basic_reads_it_back() {
    let mut db = MemDb::new();
    db.insert_account(addr(1), info(500, 3));
    let got = db.basic(addr(1));
    assert_eq!(got.balance, U256::from_u64(500));
    assert_eq!(got.nonce, 3);
    assert_eq!(got.code, None);
    assert_eq!(got.code_hash, B256::keccak_empty());
}

#[test]
fn unknown_account_and_slot_read_as_zero() {
    let db = MemDb::new();
    let got = db.basic(addr(9));
    assert_eq!(got.balance, U256::zero());
    assert_eq!(got.nonce, 0);
    assert!(db.basic_ref(addr(9)).is_none());
    assert_eq!(db.storage(addr(9), U256::from_u64(1)), U256::zero());
    assert!(db.code_by_hash(B256::new(1, 2)).is_empty());
}

#[test]
fn records_are_kept_as_given_and_code_is_found_by_its_hash() {
    let mut db = MemDb::new();
    let code = vec![0x60u8, 0x00];
    let hash = B256::new(11, 12);
    db.insert_account(addr(2), AccountInfo { code: Some(code.clone()), code_hash: hash, ..info(0, 0) });
    let stored = db.basic(addr(2));
    assert_eq!(stored.code_hash, hash);
    assert_eq!(stored.code, Some(code.clone()));
    assert_eq!(db.code_by_hash(hash), code);
}

#[test]
fn set_code_stores_the_hash_of_the_code() {
    let mut db = MemDb::new();
    db.set_code(addr(3), vec![0x60, 0x00]);
    let stored = db.basic(addr(3));
    assert_ne!(stored.code_hash, B256::keccak_empty());
    assert_eq!(db.code_by_hash(stored.code_hash), vec![0x60, 0x00]);
    db.set_code(addr(4), vec![]);
    assert_eq!(db.basic(addr(4)).code_hash, B256::keccak_empty());
}

#[test]
fn setters_keep_the_rest_of_the_record() {
    let mut db = MemDb::new();
    db.insert_account(addr(5), info(10, 7));
    db.set_balance(addr(5), U256::from_u64(99));
    db.set_nonce(addr(5), 8);
    let got = db.basic(addr(5));
    assert_eq!(got.balance, U256::from_u64(99));
    assert_eq!(got.nonce, 8);
    db.set_code(addr(5), vec![1, 2, 3]);
    let got = db.basic(addr(5));
    assert_eq!(got.code, Some(vec![1, 2, 3]));
    assert_eq!(got.balance, U256::from_u64(99));
}

#[test]
fn storage_writes_are_read_back() {
    let mut db = MemDb::new();
    db.set_storage_at(addr(6), U256::from_u64(1), U256::from_u64(42));
    assert_eq!(db.storage(addr(6), U256::from_u64(1)), U256::from_u64(42));
    assert_eq!(db.storage(addr(6), U256::from_u64(2)), U256::zero());
}

#[test]
fn unknown_block_hash_reads_as_zero() {
    let db = MemDb::new();
    assert_eq!(db.block_hash(5), B256::zero());
    let mut db2 = MemDb::new();
    db2.insert_block_hash(5, B256::new(7, 8));
    assert_eq!(db2.block_hash(5), B256::new(7, 8));
    assert_eq!(db2.block_hash(6), B256::zero());
}

fn sample_changeset() -> Changeset {
    let mut cs = Changeset::new();
    cs.set_account(addr(1), info(100, 1));
    cs.set_account(addr(2), info(200, 0));
    cs.set_slot(addr(1), U256::from_u64(0), U256::from_u64(5));
    cs
}

#[test]
fn commit_creates_and_overwrites() {
    let mut db = MemDb::new();
    db.insert_account(addr(1), info(1, 0));
    db.set_storage_at(addr(1), U256::from_u64(0), U256::from_u64(9));
    db.set_storage_at(addr(1), U256::from_u64(3), U256::from_u64(4));
    db.commit(&sample_changeset());
    assert_eq!(db.basic(addr(1)).balance, U256::from_u64(100));
    assert_eq!(db.basic(addr(2)).balance, U256::from_u64(200));
    assert_eq!(db.storage(addr(1), U256::from_u64(0)), U256::from_u64(5));
    assert_eq!(db.storage(addr(1), U256::from_u64(3)), U256::from_u64(4));
}

#[test]
fn committing_twice_equals_committing_once() {
    let mut once = MemDb::new();
    once.insert_account(addr(3), info(3, 3));
    let mut twice = MemDb::new();
    twice.insert_account(addr(3), info(3, 3));
    let cs = sample_changeset();
    once.commit(&cs);
    twice.commit(&cs);
    twice.commit(&cs);
    for a in [addr(1), addr(2), addr(3)] {
        let x = once.basic(a);
        let y = twice.basic(a);
        assert_eq!(x.balance, y.balance);
        assert_eq!(x.nonce, y.nonce);
        assert_eq!(x.code_hash, y.code_hash);
    }
    assert_eq!(once.storage(addr(1), U256::from_u64(0)), twice.storage(addr(1), U256::from_u64(0)));
}
