//! What a fork reads from the remote chain, and the capability that reads it.
use vstd::prelude::*;
use crate::table::TableValue;
use crate::types::{copy_bytes, Address, B256, U256};

verus! {

/// A failure reported by the remote data source (transport, timeout, or an
/// error answer).
#[derive(Debug)]
pub struct ProviderError {
    pub message: String,
}

/// A block as the remote source reports it: its identity, the hashes of its
/// transactions in order, and its encoded body.
#[derive(Debug)]
pub struct Block {
    pub hash: Option<B256>,
    pub number: Option<u64>,
    pub transactions: Vec<B256>,
    pub body: Vec<u8>,
}

pub struct BlockView {
    pub hash: Option<B256>,
    pub number: Option<u64>,
    pub transactions: Seq<B256>,
    pub body: Seq<u8>,
}

impl View for Block {
    type V = BlockView;

    open spec fn view(&self) -> BlockView {
        BlockView {
            hash: self.hash,
            number: self.number,
            transactions: self.transactions@,
            body: self.body@,
        }
    }
}

/// Returns a copy of a list of hashes.
pub fn copy_hashes(v: &Vec<B256>) -> (r: Vec<B256>)
    ensures
        r@ == v@,
{
    let mut r: Vec<B256> = Vec::new();
    let mut i: usize = 0;
    while i < v.len()
        invariant
            i <= v.len(),
            r@ == v@.subrange(0, i as int),
        decreases v.len() - i,
    {
        r.push(v[i]);
        i = i + 1;
        assert(r@ =~= v@.subrange(0, i as int));
    }
    assert(r@ =~= v@);
    r
}

impl TableValue for Block {
    fn duplicate(&self) -> (r: Self) {
        Block {
            hash: self.hash,
            number: self.number,
            transactions: copy_hashes(&self.transactions),
            body: copy_bytes(&self.body),
        }
    }
}

/// The remote chain a fork reads from. Every call may fail; "not found" is
/// `Ok(None)`. Transactions, receipts and trace lists are handed over in
/// their encoded form.
pub trait RemoteProvider: Sized {
    /// Establishes a source for the endpoint at `url`.
    fn connect(url: &str) -> Result<Self, ProviderError>;

    fn get_balance(&self, address: Address, block: u64) -> Result<U256, ProviderError>;

    fn get_transaction_count(&self, address: Address, block: u64) -> Result<u64, ProviderError>;

    fn get_code(&self, address: Address, block: u64) -> Result<Vec<u8>, ProviderError>;

    fn get_storage_at(&self, address: Address, slot: U256, block: u64) -> Result<U256, ProviderError>;

    fn get_block_by_hash(&self, hash: B256) -> Result<Option<Block>, ProviderError>;

    fn get_block_by_number(&self, number: u64) -> Result<Option<Block>, ProviderError>;

    fn get_transaction(&self, hash: B256) -> Result<Option<Vec<u8>>, ProviderError>;

    fn get_transaction_receipt(&self, hash: B256) -> Result<Option<Vec<u8>>, ProviderError>;

    fn trace_transaction(&self, hash: B256) -> Result<Vec<u8>, ProviderError>;

    fn trace_block(&self, number: u64) -> Result<Vec<u8>, ProviderError>;
}

} // verus!
