//! Plain value types shared by the stores and the executor: addresses,
//! 256-bit words and account records.
use vstd::prelude::*;

verus! {

/// A 160-bit account address: the first four bytes (big-endian) in `high`,
/// the remaining sixteen in `low`.
#[derive(Clone, Copy, Debug, PartialEq, Eq, Structural)]
pub struct Address {
    pub high: u32,
    pub low: u128,
}

impl Address {
    pub fn zero() -> (r: Address)
        ensures
            r.high == 0 && r.low == 0,
    {
        Address { high: 0, low: 0 }
    }

    pub fn new(high: u32, low: u128) -> (r: Address)
        ensures
            r.high == high,
            r.low == low,
    {
        Address { high, low }
    }
}

/// An unsigned 256-bit integer, as two 128-bit halves.
#[derive(Clone, Copy, Debug, PartialEq, Eq, Structural)]
pub struct U256 {
    pub high: u128,
    pub low: u128,
}

pub open spec fn two_pow_128() -> nat {
    0x1_0000_0000_0000_0000_0000_0000_0000_0000nat
}

impl View for U256 {
    type V = U256;

    open spec fn view(&self) -> U256 {
        *self
    }
}

impl U256 {
    pub open spec fn spec_zero() -> U256 {
        U256 { high: 0, low: 0 }
    }

    pub open spec fn spec_max() -> U256 {
        U256 { high: u128::MAX, low: u128::MAX }
    }

    pub fn zero() -> (r: U256)
        ensures
            r == U256::spec_zero(),
    {
        U256 { high: 0, low: 0 }
    }

    /// The largest value, 2^256 - 1.
    pub fn max_value() -> (r: U256)
        ensures
            r == U256::spec_max(),
    {
        U256 { high: u128::MAX, low: u128::MAX }
    }

    /// The number this word denotes.
    pub open spec fn value(self) -> nat {
        self.high as nat * two_pow_128() + self.low as nat
    }

    pub fn from_u64(n: u64) -> (r: U256)
        ensures
            r.value() == n as nat,
            r.high == 0,
    {
        U256 { high: 0, low: n as u128 }
    }

    pub fn from_u128(n: u128) -> (r: U256)
        ensures
            r.value() == n as nat,
            r.high == 0,
    {
        U256 { high: 0, low: n }
    }

    pub fn is_zero(&self) -> (r: bool)
        ensures
            r == (self.value() == 0),
    {
        self.high == 0 && self.low == 0
    }
}

pub const KECCAK_EMPTY_HIGH: u128 = 0xc5d2_4601_86f7_233c_927e_7db2_dcc7_03c0;

pub const KECCAK_EMPTY_LOW: u128 = 0xe500_b653_ca82_273b_7bfa_d804_5d85_a470;

/// A 32-byte hash (of code, of a block, of a transaction).
#[derive(Clone, Copy, Debug, PartialEq, Eq, Structural)]
pub struct B256 {
    pub high: u128,
    pub low: u128,
}

impl View for B256 {
    type V = B256;

    open spec fn view(&self) -> B256 {
        *self
    }
}

impl B256 {
    pub open spec fn spec_zero() -> B256 {
        B256 { high: 0, low: 0 }
    }

    /// The hash of empty input, which an account without code carries.
    pub open spec fn spec_keccak_empty() -> B256 {
        B256 { high: KECCAK_EMPTY_HIGH, low: KECCAK_EMPTY_LOW }
    }

    pub fn zero() -> (r: B256)
        ensures
            r == B256::spec_zero(),
    {
        B256 { high: 0, low: 0 }
    }

    pub fn keccak_empty() -> (r: B256)
        ensures
            r == B256::spec_keccak_empty(),
    {
        B256 { high: KECCAK_EMPTY_HIGH, low: KECCAK_EMPTY_LOW }
    }

    pub fn new(high: u128, low: u128) -> (r: B256)
        ensures
            r.high == high,
            r.low == low,
    {
        B256 { high, low }
    }
}

/// Returns a copy of `b` with the same bytes.
pub fn copy_bytes(b: &Vec<u8>) -> (r: Vec<u8>)
    ensures
        r@ == b@,
{
    let mut r: Vec<u8> = Vec::new();
    let mut i: usize = 0;
    while i < b.len()
        invariant
            i <= b.len(),
            r@ == b@.subrange(0, i as int),
        decreases b.len() - i,
    {
        r.push(b[i]);
        i = i + 1;
        assert(r@ =~= b@.subrange(0, i as int));
    }
    assert(r@ =~= b@);
    r
}

/// Returns a copy of an optional byte string.
pub fn copy_opt_bytes(b: &Option<Vec<u8>>) -> (r: Option<Vec<u8>>)
    ensures
        opt_bytes_view(r) == opt_bytes_view(*b),
{
    match b {
        Some(v) => Some(copy_bytes(v)),
        None => None,
    }
}

pub open spec fn opt_bytes_view(b: Option<Vec<u8>>) -> Option<Seq<u8>> {
    match b {
        Some(v) => Some(v@),
        None => None,
    }
}

/// The basic record of an account.
#[derive(Debug)]
pub struct AccountInfo {
    pub balance: U256,
    pub nonce: u64,
    pub code: Option<Vec<u8>>,
    pub code_hash: B256,
}

/// What an account record holds, with its code as a sequence of bytes.
pub struct AccountInfoView {
    pub balance: U256,
    pub nonce: u64,
    pub code: Option<Seq<u8>>,
    pub code_hash: B256,
}

impl View for AccountInfo {
    type V = AccountInfoView;

    open spec fn view(&self) -> AccountInfoView {
        AccountInfoView {
            balance: self.balance,
            nonce: self.nonce,
            code: opt_bytes_view(self.code),
            code_hash: self.code_hash,
        }
    }
}

/// The record that an account never written nor fetched reads as.
pub open spec fn default_account() -> AccountInfoView {
    AccountInfoView { balance: U256::spec_zero(), nonce: 0, code: None, code_hash: B256::spec_keccak_empty() }
}

impl AccountInfo {
    /// The zero-valued record: no balance, no nonce, no code.
    pub fn empty() -> (r: AccountInfo)
        ensures
            r@ == default_account(),
    {
        AccountInfo { balance: U256::zero(), nonce: 0, code: None, code_hash: B256::keccak_empty() }
    }

    pub fn copy(&self) -> (r: AccountInfo)
        ensures
            r@ == self@,
    {
        AccountInfo {
            balance: self.balance,
            nonce: self.nonce,
            code: copy_opt_bytes(&self.code),
            code_hash: self.code_hash,
        }
    }

    /// Whether the account holds no code, or empty code.
    pub fn has_no_code(&self) -> (r: bool)
        ensures
            r == (self@.code is None || self@.code.unwrap().len() == 0),
    {
        match &self.code {
            Some(c) => c.len() == 0,
            None => true,
        }
    }
}

} // verus!
