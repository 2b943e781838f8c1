//! The execution environment of one call: chain configuration, block
//! context and transaction context.
use vstd::prelude::*;
use crate::types::{copy_bytes, Address, U256};

verus! {

/// The protocol upgrades, in the order they were activated.
#[derive(Clone, Copy, Debug, PartialEq, Eq, Structural)]
pub enum SpecId {
    Frontier,
    Homestead,
    Tangerine,
    SpuriousDragon,
    Byzantium,
    Constantinople,
    Petersburg,
    Istanbul,
    MuirGlacier,
    Berlin,
    London,
    ArrowGlacier,
    GrayGlacier,
    Merge,
    Shanghai,
    Cancun,
    Latest,
}

/// The position of an upgrade in activation order.
pub open spec fn spec_order(s: SpecId) -> nat {
    match s {
        SpecId::Frontier => 0,
        SpecId::Homestead => 1,
        SpecId::Tangerine => 2,
        SpecId::SpuriousDragon => 3,
        SpecId::Byzantium => 4,
        SpecId::Constantinople => 5,
        SpecId::Petersburg => 6,
        SpecId::Istanbul => 7,
        SpecId::MuirGlacier => 8,
        SpecId::Berlin => 9,
        SpecId::London => 10,
        SpecId::ArrowGlacier => 11,
        SpecId::GrayGlacier => 12,
        SpecId::Merge => 13,
        SpecId::Shanghai => 14,
        SpecId::Cancun => 15,
        SpecId::Latest => 16,
    }
}

impl SpecId {
    pub fn order(&self) -> (r: u8)
        ensures
            r as nat == spec_order(*self),
    {
        match self {
            SpecId::Frontier => 0,
            SpecId::Homestead => 1,
            SpecId::Tangerine => 2,
            SpecId::SpuriousDragon => 3,
            SpecId::Byzantium => 4,
            SpecId::Constantinople => 5,
            SpecId::Petersburg => 6,
            SpecId::Istanbul => 7,
            SpecId::MuirGlacier => 8,
            SpecId::Berlin => 9,
            SpecId::London => 10,
            SpecId::ArrowGlacier => 11,
            SpecId::GrayGlacier => 12,
            SpecId::Merge => 13,
            SpecId::Shanghai => 14,
            SpecId::Cancun => 15,
            SpecId::Latest => 16,
        }
    }

    /// Whether the rules of `other` are in force under `self`.
    pub fn enabled(our: SpecId, other: SpecId) -> (r: bool)
        ensures
            r == (spec_order(our) >= spec_order(other)),
    {
        our.order() >= other.order()
    }
}

#[derive(Clone, Copy, Debug, PartialEq, Eq, Structural)]
pub struct CfgEnv {
    pub chain_id: u64,
    pub spec_id: SpecId,
}

#[derive(Clone, Copy, Debug, PartialEq, Eq, Structural)]
pub struct BlockEnv {
    pub number: U256,
    pub coinbase: Address,
    pub timestamp: U256,
    pub gas_limit: U256,
    pub basefee: U256,
}

/// What a transaction targets: a call to an account, or a contract creation.
#[derive(Clone, Copy, Debug, PartialEq, Eq, Structural)]
pub enum TransactTo {
    Call(Address),
    Create,
}

#[derive(Debug)]
pub struct TxEnv {
    pub caller: Address,
    pub gas_limit: u64,
    pub gas_price: U256,
    pub gas_priority_fee: Option<U256>,
    pub transact_to: TransactTo,
    pub value: U256,
    pub data: Vec<u8>,
    pub chain_id: Option<u64>,
    pub nonce: Option<u64>,
}

#[derive(Debug)]
pub struct Env {
    pub cfg: CfgEnv,
    pub block: BlockEnv,
    pub tx: TxEnv,
}

/// The transaction context with its calldata as a sequence.
pub struct TxEnvView {
    pub caller: Address,
    pub gas_limit: u64,
    pub gas_price: U256,
    pub gas_priority_fee: Option<U256>,
    pub transact_to: TransactTo,
    pub value: U256,
    pub data: Seq<u8>,
    pub chain_id: Option<u64>,
    pub nonce: Option<u64>,
}

pub struct EnvView {
    pub cfg: CfgEnv,
    pub block: BlockEnv,
    pub tx: TxEnvView,
}

impl View for TxEnv {
    type V = TxEnvView;

    open spec fn view(&self) -> TxEnvView {
        TxEnvView {
            caller: self.caller,
            gas_limit: self.gas_limit,
            gas_price: self.gas_price,
            gas_priority_fee: self.gas_priority_fee,
            transact_to: self.transact_to,
            value: self.value,
            data: self.data@,
            chain_id: self.chain_id,
            nonce: self.nonce,
        }
    }
}

impl View for Env {
    type V = EnvView;

    open spec fn view(&self) -> EnvView {
        EnvView { cfg: self.cfg, block: self.block, tx: self.tx@ }
    }
}

impl Env {
    pub fn duplicate(&self) -> (r: Env)
        ensures
            r@ == self@,
    {
        Env {
            cfg: self.cfg,
            block: self.block,
            tx: TxEnv {
                caller: self.tx.caller,
                gas_limit: self.tx.gas_limit,
                gas_price: self.tx.gas_price,
                gas_priority_fee: self.tx.gas_priority_fee,
                transact_to: self.tx.transact_to,
                value: self.tx.value,
                data: copy_bytes(&self.tx.data),
                chain_id: self.tx.chain_id,
                nonce: self.tx.nonce,
            },
        }
    }
}

} // verus!
