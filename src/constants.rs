//! Well-known addresses, slots and byte strings of the test environment.
use vstd::prelude::*;
use crate::types::{Address, U256};

verus! {

/// 0x7109709ECfa91a80626fF3989D68f67F5b1DD12D, the cheatcode handler.
pub open spec fn spec_cheatcode_address() -> Address {
    Address { high: 0x7109709e, low: 0xcfa91a80626ff3989d68f67f5b1dd12d }
}

pub fn cheatcode_address() -> (r: Address)
    ensures
        r == spec_cheatcode_address(),
{
    Address { high: 0x7109709e, low: 0xcfa91a80626ff3989d68f67f5b1dd12d }
}

/// 0x1804c8AB1F12E6bbf3894d4083f33e07309d1f38, the default sender of calls.
pub open spec fn spec_caller() -> Address {
    Address { high: 0x1804c8ab, low: 0x1f12e6bbf3894d4083f33e07309d1f38 }
}

pub fn caller() -> (r: Address)
    ensures
        r == spec_caller(),
{
    Address { high: 0x1804c8ab, low: 0x1f12e6bbf3894d4083f33e07309d1f38 }
}

/// 0x4e59b44847b379578588920cA78FbF26c0B4956C, where the CREATE2 deployer lives.
pub open spec fn spec_create2_deployer() -> Address {
    Address { high: 0x4e59b448, low: 0x47b379578588920ca78fbf26c0b4956c }
}

pub fn create2_deployer() -> (r: Address)
    ensures
        r == spec_create2_deployer(),
{
    Address { high: 0x4e59b448, low: 0x47b379578588920ca78fbf26c0b4956c }
}

/// 0x3fAB184622Dc19b6109349B94811493BF2a45362, the account that deploys the
/// CREATE2 deployer.
pub open spec fn spec_create2_creator() -> Address {
    Address { high: 0x3fab1846, low: 0x22dc19b6109349b94811493bf2a45362 }
}

pub fn create2_creator() -> (r: Address)
    ensures
        r == spec_create2_creator(),
{
    Address { high: 0x3fab1846, low: 0x22dc19b6109349b94811493bf2a45362 }
}

/// The slot of the cheatcode handler that holds the global failure flag:
/// the bytes of "failed", left-aligned.
pub open spec fn spec_global_failure_slot() -> U256 {
    U256 { high: 0x6661696c656400000000000000000000, low: 0 }
}

pub fn global_failure_slot() -> (r: U256)
    ensures
        r == spec_global_failure_slot(),
{
    U256 { high: 0x6661696c656400000000000000000000, low: 0 }
}

/// The return data of a call that asks for its test to be skipped.
pub open spec fn spec_magic_skip() -> Seq<u8> {
    seq![70u8, 79, 85, 78, 68, 82, 89, 58, 58, 83, 75, 73, 80]
}

/// "FOUNDRY::SKIP"
pub fn magic_skip() -> (r: Vec<u8>)
    ensures
        r@ == spec_magic_skip(),
{
    let r: Vec<u8> = vec![70u8, 79, 85, 78, 68, 82, 89, 58, 58, 83, 75, 73, 80];
    assert(r@ =~= spec_magic_skip());
    r
}

/// The creation code of the CREATE2 deployer.
pub open spec fn spec_create2_deployer_code() -> Seq<u8> {
    seq![
        0x60u8, 0x45, 0x80, 0x60, 0x0e, 0x60, 0x00, 0x39, 0x80, 0x60, 0x00, 0xf3, 0x50, 0xfe, 0x7f,
        0xff, 0xff, 0xff, 0xff, 0xff, 0xff, 0xff, 0xff, 0xff, 0xff, 0xff, 0xff, 0xff, 0xff, 0xff,
        0xff, 0xff, 0xff, 0xff, 0xff, 0xff, 0xff, 0xff, 0xff, 0xff, 0xff, 0xff, 0xff, 0xff, 0xff,
        0xff, 0xe0, 0x36, 0x01, 0x60, 0x00, 0x81, 0x60, 0x20, 0x82, 0x37, 0x80, 0x35, 0x82, 0x82,
        0x34, 0xf5, 0x80, 0x15, 0x15, 0x60, 0x39, 0x57, 0x81, 0x82, 0xfd, 0x5b, 0x80, 0x82, 0x52,
        0x50, 0x50, 0x50, 0x60, 0x14, 0x60, 0x0c, 0xf3,
    ]
}

pub fn create2_deployer_code() -> (r: Vec<u8>)
    ensures
        r@ == spec_create2_deployer_code(),
{
    let r: Vec<u8> = vec![
        0x60, 0x45, 0x80, 0x60, 0x0e, 0x60, 0x00, 0x39, 0x80, 0x60, 0x00, 0xf3, 0x50, 0xfe, 0x7f,
        0xff, 0xff, 0xff, 0xff, 0xff, 0xff, 0xff, 0xff, 0xff, 0xff, 0xff, 0xff, 0xff, 0xff, 0xff,
        0xff, 0xff, 0xff, 0xff, 0xff, 0xff, 0xff, 0xff, 0xff, 0xff, 0xff, 0xff, 0xff, 0xff, 0xff,
        0xff, 0xe0, 0x36, 0x01, 0x60, 0x00, 0x81, 0x60, 0x20, 0x82, 0x37, 0x80, 0x35, 0x82, 0x82,
        0x34, 0xf5, 0x80, 0x15, 0x15, 0x60, 0x39, 0x57, 0x81, 0x82, 0xfd, 0x5b, 0x80, 0x82, 0x52,
        0x50, 0x50, 0x50, 0x60, 0x14, 0x60, 0x0c, 0xf3,
    ];
    assert(r@ =~= spec_create2_deployer_code());
    r
}

} // verus!
