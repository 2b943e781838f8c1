use evm_backend::constants::{caller, create2_creator, create2_deployer};
use evm_backend::db::Changeset;
use evm_backend::env::{BlockEnv, CfgEnv, Env, SpecId, TransactTo, TxEnv};
use evm_backend::error::DatabaseError;
use evm_backend::executor::{evaluate_success, selector, Executor, InspectorConfig};
use evm_backend::multi::Backend2;
use evm_backend::outcome::{
    calc_stipend, EvmError, Evm, Execution, ExecutionResult, InspectorData, InstructionResult, NoDecoder,
    Output, RevertReason,
};
use evm_backend::remote::{Block, ProviderError, RemoteProvider};
use evm_backend::types::{AccountInfo, Address, B256, U256};

struct Offline;

fn offline() -> ProviderError {
    ProviderError { message: String::from("offline") }
}

impl RemoteProvider for Offline {
    fn connect(_url: &str) -> Result<Self, ProviderError> {
        Err(offline())
    }
    fn get_balance(&self, _a: Address, _b: u64) -> Result<U256, ProviderError> {
        Err(offline())
    }
    fn get_transaction_count(&self, _a: Address, _b: u64) -> Result<u64, ProviderError> {
        Err(offline())
    }
    fn get_code(&self, _a: Address, _b: u64) -> Result<Vec<u8>, ProviderError> {
        Err(offline())
    }
    fn get_storage_at(&self, _a: Address, _s: U256, _b: u64) -> Result<U256, ProviderError> {
        Err(offline())
    }
    fn get_block_by_hash(&self, _h: B256) -> Result<Option<Block>, ProviderError> {
        Err(offline())
    }
    fn get_block_by_number(&self, _n: u64) -> Result<Option<Block>, ProviderError> {
        Err(offline())
    }
    fn get_transaction(&self, _h: B256) -> Result<Option<Vec<u8>>, ProviderError> {
        Err(offline())
    }
    fn get_transaction_receipt(&self, _h: B256) -> Result<Option<Vec<u8>>, ProviderError> {
        Err(offline())
    }
    fn trace_transaction(&self, _h: B256) -> Result<Vec<u8>, ProviderError> {
        Err(offline())
    }
    fn trace_block(&self, _n: u64) -> Result<Vec<u8>, ProviderError> {
        Err(offline())
    }
}

fn template() -> Env {
    Env {
        cfg: CfgEnv { chain_id: 31337, spec_id: SpecId::Latest },
        block: BlockEnv {
            number: U256::from_u64(1),
            coinbase: Address::zero(),
            timestamp: U256::from_u64(1000),
            gas_limit: U256::from_u64(30_000_000),
            basefee: U256::from_u64(7),
        },
        tx: TxEnv {
            caller: Address::zero(),
            gas_limit: 0,
            gas_price: U256::from_u64(5),
            gas_priority_fee: Some(U256::from_u64(1)),
            transact_to: TransactTo::Create,
            value: U256::zero(),
            data: vec![],
            chain_id: None,
            nonce: None,
        },
    }
}

fn executor() -> Executor<Offline> {
    Executor::new(Backend2::empty(), template(), InspectorConfig::new(), U256::from_u64(1_000_000))
}

fn no_data() -> InspectorData {
    InspectorData { logs: vec![], labels: vec![], broadcastable_transactions: vec![] }
}

fn success(env: &Env, output: Output, state: Changeset) -> Execution {
    Execution {
        result: ExecutionResult::Success { reason: InstructionResult::Stop, gas_used: 21000, gas_refunded: 0, output },
        state,
        env: env.duplicate(),
        inspector: no_data(),
        snapshot_failure: false,
    }
}

fn word(v: u8) -> Vec<u8> {
    let mut w = vec![0u8; 32];
    w[31] = v;
    w
}

/// Moves the value of each call from the caller to the target.
struct Transfer {
    calls: u32,
}

impl<P: RemoteProvider> Evm<P> for Transfer {
    fn transact(&mut self, db: &Backend2<P>, env: &Env) -> Result<Execution, DatabaseError> {
        self.calls += 1;
        let to = match env.tx.transact_to {
            TransactTo::Call(a) => a,
            TransactTo::Create => Address::zero(),
        };
        let from = env.tx.caller;
        let mut f = db.memory.basic(from);
        let mut t = db.memory.basic(to);
        f.balance = U256::from_u128(f.balance.low - env.tx.value.low);
        t.balance = U256::from_u128(t.balance.low + env.tx.value.low);
        let mut cs = Changeset::new();
        cs.set_account(from, f);
        cs.set_account(to, t);
        Ok(success(env, Output::Call(vec![]), cs))
    }
}

/// Answers every call with a fixed outcome and no state change.
struct Fixed {
    reason: InstructionResult,
    output: Vec<u8>,
}

impl<P: RemoteProvider> Evm<P> for Fixed {
    fn transact(&mut self, _db: &Backend2<P>, env: &Env) -> Result<Execution, DatabaseError> {
        let result = if self.reason == InstructionResult::Revert {
            ExecutionResult::Revert { gas_used: 100, output: self.output.clone() }
        } else if self.reason == InstructionResult::Stop {
            ExecutionResult::Success { reason: self.reason, gas_used: 100, gas_refunded: 0, output: Output::Call(self.output.clone()) }
        } else {
            ExecutionResult::Halt { reason: self.reason, gas_used: 100 }
        };
        Ok(Execution { result, state: Changeset::new(), env: env.duplicate(), inspector: no_data(), snapshot_failure: false })
    }
}

/// Deploys by putting code at the CREATE2 deployer address.
struct Deployer {
    deployments: u32,
}

impl<P: RemoteProvider> Evm<P> for Deployer {
    fn transact(&mut self, db: &Backend2<P>, env: &Env) -> Result<Execution, DatabaseError> {
        self.deployments += 1;
        let mut cs = Changeset::new();
        let mut creator = db.memory.basic(env.tx.caller);
        creator.nonce += 1;
        cs.set_account(env.tx.caller, creator);
        let deployed = AccountInfo { code: Some(vec![0x60, 0x01]), ..db.memory.basic(create2_deployer()) };
        cs.set_account(create2_deployer(), deployed);
        Ok(success(env, Output::Create(vec![0x60, 0x01], Some(create2_deployer())), cs))
    }
}

#[test]
fn stipend_counts_calldata_bytes() {
    assert_eq!(calc_stipend(&[], SpecId::Istanbul), 21000);
    assert_eq!(calc_stipend(&[0x00], SpecId::Istanbul), 21004);
    assert_eq!(calc_stipend(&[0x01], SpecId::Istanbul), 21016);
    assert_eq!(calc_stipend(&[0x01], SpecId::Petersburg), 21068);
    assert_eq!(calc_stipend(&[0x00, 0x01, 0x02], SpecId::Latest), 21036);
}

#[test]
fn success_truth_table() {
    assert!(evaluate_success(true, true, None));
    assert!(!evaluate_success(false, true, None));
    assert!(!evaluate_success(true, false, Some(false)));
    assert!(evaluate_success(false, false, Some(false)));
    assert!(!evaluate_success(false, false, Some(true)));
    assert!(evaluate_success(true, false, Some(true)));
    assert!(evaluate_success(false, false, None));
}

#[test]
fn is_success_reads_the_failure_flag() {
    let mut ex = executor();
    let target = Address::new(0, 0xabc);
    let mut unset = Fixed { reason: InstructionResult::Stop, output: word(0) };
    assert!(ex.is_success(&mut unset, target, false, Changeset::new(), false));
    assert!(!ex.is_success(&mut unset, target, false, Changeset::new(), true));
    assert!(ex.is_success(&mut unset, target, true, Changeset::new(), true));
    assert!(!ex.is_success(&mut unset, target, true, Changeset::new(), false));
    let mut set = Fixed { reason: InstructionResult::Stop, output: word(1) };
    assert!(!ex.is_success(&mut set, target, false, Changeset::new(), false));
    assert!(ex.is_success(&mut set, target, false, Changeset::new(), true));
    let mut short = Fixed { reason: InstructionResult::Stop, output: vec![1] };
    assert!(ex.is_success(&mut short, target, false, Changeset::new(), false));
}

#[test]
fn failure_selectors_are_keccak_prefixes() {
    assert_eq!(selector(b"failed()"), vec![0xba, 0x41, 0x4f, 0xa6]);
    assert_eq!(selector(b"setUp()"), vec![0x0a, 0x92, 0x54, 0xe4]);
}

#[test]
fn new_executor_installs_cheatcode_code() {
    let mut ex = executor();
    let info = ex.backend.basic(evm_backend::constants::cheatcode_address()).ok().unwrap();
    assert_eq!(info.code, Some(vec![0]));
}

#[test]
fn test_env_zeroes_prices_and_uses_gas_limit() {
    let ex = executor();
    let env = ex.build_test_env(caller(), TransactTo::Call(Address::new(0, 1)), vec![1, 2], U256::from_u64(3));
    assert_eq!(env.block.basefee, U256::zero());
    assert_eq!(env.block.gas_limit, U256::from_u64(1_000_000));
    assert_eq!(env.block.timestamp, U256::from_u64(1000));
    assert_eq!(env.tx.gas_price, U256::zero());
    assert_eq!(env.tx.gas_priority_fee, None);
    assert_eq!(env.tx.gas_limit, 1_000_000);
    assert_eq!(env.tx.caller, caller());
    assert_eq!(env.tx.data, vec![1, 2]);
}

#[test]
fn transfer_is_visible_only_after_commit() {
    let mut ex = executor();
    let x = Address::new(0, 0x10);
    let y = Address::new(0, 0x20);
    let b = U256::from_u64(1_000);
    assert!(ex.set_balance(x, b).is_ok());
    let mut evm = Transfer { calls: 0 };
    let probe = ex.call_raw(&mut evm, x, y, vec![], b).ok().unwrap();
    assert!(!probe.reverted);
    assert!(probe.state_changeset.is_some());
    assert_eq!(ex.get_balance(y).ok().unwrap(), U256::zero());
    assert_eq!(ex.get_balance(x).ok().unwrap(), b);
    let done = ex.call_raw_committing(&mut evm, x, y, vec![], b).ok().unwrap();
    assert!(!done.reverted);
    assert_eq!(done.stipend, 21000);
    assert_eq!(ex.get_balance(y).ok().unwrap(), b);
    assert_eq!(ex.get_balance(x).ok().unwrap(), U256::zero());
}

#[test]
fn create2_deployer_is_deployed_once_and_creator_balance_restored() {
    let mut ex = executor();
    assert!(ex.set_balance(create2_deployer(), U256::zero()).is_ok());
    assert!(ex.set_balance(create2_creator(), U256::from_u64(7)).is_ok());
    let mut evm = Deployer { deployments: 0 };
    assert!(ex.deploy_create2_deployer(&mut evm).is_ok());
    assert_eq!(evm.deployments, 1);
    assert_eq!(ex.get_balance(create2_creator()).ok().unwrap(), U256::from_u64(7));
    assert!(ex.deploy_create2_deployer(&mut evm).is_ok());
    assert_eq!(evm.deployments, 1);
    assert_eq!(ex.get_balance(create2_creator()).ok().unwrap(), U256::from_u64(7));
    assert!(ex.backend.persistent.contains(&create2_deployer()));
}

#[test]
fn create2_deployer_without_record_is_missing() {
    let mut ex = executor();
    let mut evm = Deployer { deployments: 0 };
    let r = ex.deploy_create2_deployer(&mut evm);
    assert!(matches!(r, Err(EvmError::Database(DatabaseError::MissingAccount(a))) if a == create2_deployer()));
    assert_eq!(evm.deployments, 0);
}

#[test]
fn failed_call_reports_raw_reason_or_skip() {
    let ex = executor();
    let target = Address::new(0, 5);
    let mut revert = Fixed { reason: InstructionResult::Revert, output: vec![0xde, 0xad] };
    match ex.call(&mut revert, caller(), target, vec![], U256::zero(), None::<&NoDecoder>) {
        Err(EvmError::Execution(e)) => {
            assert!(e.reverted);
            assert!(matches!(e.reason, RevertReason::Raw(ref d) if d == &vec![0xde, 0xad]));
        }
        _ => panic!("expected an execution error"),
    }
    let mut skip = Fixed { reason: InstructionResult::Revert, output: b"FOUNDRY::SKIP".to_vec() };
    assert!(matches!(ex.call(&mut skip, caller(), target, vec![], U256::zero(), None::<&NoDecoder>), Err(EvmError::SkipError)));
    let mut ok = Fixed { reason: InstructionResult::Stop, output: word(1) };
    let c = ex.call(&mut ok, caller(), target, vec![], U256::zero(), None::<&NoDecoder>).ok().unwrap();
    assert!(!c.reverted);
    assert_eq!(c.result, word(1));
}

#[test]
fn deploy_without_address_is_an_error() {
    let mut ex = executor();
    let mut evm = Fixed { reason: InstructionResult::Stop, output: vec![] };
    let r = ex.deploy(&mut evm, caller(), vec![0x60], U256::zero(), None::<&NoDecoder>);
    assert!(matches!(r, Err(EvmError::InternalInvariantViolation(ref e)) if matches!(e.reason, RevertReason::MissingAddress)));
    let mut halt = Fixed { reason: InstructionResult::OutOfGas, output: vec![] };
    let r = ex.deploy(&mut halt, caller(), vec![0x60], U256::zero(), None::<&NoDecoder>);
    assert!(matches!(r, Err(EvmError::Execution(ref e)) if e.reverted));
    assert!(ex.backend.persistent.is_empty());
}

#[test]
fn reverted_deploy_reports_its_revert_data() {
    let mut ex = executor();
    let mut revert = Fixed { reason: InstructionResult::Revert, output: vec![0x08, 0xc3, 0x79, 0xa0] };
    match ex.deploy(&mut revert, caller(), vec![0x60], U256::zero(), None::<&NoDecoder>) {
        Err(EvmError::Execution(e)) => {
            assert!(e.reverted);
            assert!(matches!(e.reason, RevertReason::Raw(ref d) if d == &vec![0x08, 0xc3, 0x79, 0xa0]));
        }
        _ => panic!("expected an execution error"),
    }
    assert!(ex.backend.persistent.is_empty());
}

/// Answers every call with a fixed outcome after moving the block forward.
struct Roll;

impl<P: RemoteProvider> Evm<P> for Roll {
    fn transact(&mut self, _db: &Backend2<P>, env: &Env) -> Result<Execution, DatabaseError> {
        let mut left = env.duplicate();
        left.block.number = U256::from_u64(99);
        left.cfg.chain_id = 5;
        left.tx.data = vec![];
        Ok(Execution {
            result: ExecutionResult::Success { reason: InstructionResult::Stop, gas_used: 1, gas_refunded: 0, output: Output::Call(word(0)) },
            state: Changeset::new(),
            env: left,
            inspector: no_data(),
            snapshot_failure: false,
        })
    }
}

#[test]
fn setup_keeps_the_block_the_run_left() {
    let mut ex = executor();
    let target = Address::new(0, 9);
    let mut evm = Roll;
    let c = ex.setup(&mut evm, None, target).ok().unwrap();
    assert_eq!(c.env.block.number, U256::from_u64(99));
    assert_eq!(c.env.tx.data, selector(b"setUp()"));
    assert_eq!(c.env.tx.caller, caller());
    assert_eq!(ex.env.block.number, U256::from_u64(99));
    assert_eq!(ex.env.cfg.chain_id, 5);
}

#[test]
fn setup_fails_when_failure_flag_set() {
    let mut ex = executor();
    let target = Address::new(0, 9);
    let mut ok = Fixed { reason: InstructionResult::Stop, output: word(0) };
    assert!(ex.setup(&mut ok, None, target).is_ok());
    let mut flagged = Fixed { reason: InstructionResult::Stop, output: word(1) };
    assert!(matches!(ex.setup(&mut flagged, None, target), Err(EvmError::Execution(_))));
}
