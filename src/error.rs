//! The errors of the stores and of the fork handle.
use vstd::prelude::*;
use crate::remote::ProviderError;
use crate::types::Address;

verus! {

/// A read of the state failed.
#[derive(Debug)]
pub enum DatabaseError {
    /// The remote source failed while answering a cache miss.
    Remote(ProviderError),
    /// An account that the operation needs is absent.
    MissingAccount(Address),
    /// The remote source knows no block with this number.
    BlockNotFound(u64),
}

/// A request to the fork handle failed.
#[derive(Debug)]
pub enum BlockchainError {
    /// No remote source could be established for this URL; the previous
    /// configuration stays in effect.
    InvalidUrl(String),
    /// No fork is registered under this id.
    UnknownFork(usize),
}

} // verus!
