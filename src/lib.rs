//! State backend and execution core of a local EVM development node: account
//! stores, a read-through cache over a remote chain, snapshots and forks, and
//! the call, deploy and success rules of the executor.

pub mod types;
pub mod table;
pub mod hash;
pub mod db;
pub mod remote;
pub mod error;
pub mod forkdb;
pub mod fork;
pub mod backend;
pub mod constants;
pub mod multi;
pub mod env;
pub mod outcome;
pub mod executor;
pub mod traits;
pub mod coverage;
pub mod config;
