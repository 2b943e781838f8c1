//! The executor: builds the environment of each call from a template, runs
//! the interpreter, commits what committing calls changed, and decides
//! whether a test passed.
use vstd::prelude::*;
use crate::constants::{caller, cheatcode_address, spec_cheatcode_address};
use crate::db::{commit_post, Changeset, MemDb};
use crate::env::{BlockEnv, Env, EnvView, TransactTo, TxEnv, TxEnvView};
use crate::error::DatabaseError;
use crate::hash::{keccak256, keccak256_of};
use crate::multi::Backend2;
use crate::outcome::{
    convert_call_result, convert_deploy_result, convert_executed_result, is_ok, CallResult, DeployResult,
    EvmError, Evm, ExecutionErr, RawCallResult, RevertDecoder, RevertReason,
    MAX_CALLDATA_LEN,
};
use crate::remote::RemoteProvider;
use crate::types::{AccountInfo, AccountInfoView, Address, U256};

verus! {

/// Which inspectors run, and what the cheatcode inspector carries between
/// calls.
pub struct InspectorConfig {
    pub tracing: bool,
    pub debugger: bool,
    pub print: bool,
    pub broadcastable_transactions: Vec<Vec<u8>>,
}

impl InspectorConfig {
    pub fn new() -> (r: InspectorConfig)
        ensures
            !r.tracing && !r.debugger && !r.print,
            r.broadcastable_transactions@.len() == 0,
    {
        InspectorConfig { tracing: false, debugger: false, print: false, broadcastable_transactions: Vec::new() }
    }

    pub fn duplicate(&self) -> (r: InspectorConfig)
        ensures
            r.tracing == self.tracing && r.debugger == self.debugger && r.print == self.print,
            r.broadcastable_transactions@.len() == 0,
    {
        InspectorConfig {
            tracing: self.tracing,
            debugger: self.debugger,
            print: self.print,
            broadcastable_transactions: Vec::new(),
        }
    }
}

/// The first four bytes of the Keccak-256 digest of a function signature.
pub open spec fn selector_of(signature: Seq<u8>) -> Seq<u8> {
    let h = keccak256_of(signature).high;
    seq![(h >> 120u128) as u8, (h >> 112u128) as u8, (h >> 104u128) as u8, (h >> 96u128) as u8]
}

/// The calldata of a call to a function with no arguments.
pub fn selector(signature: &[u8]) -> (r: Vec<u8>)
    ensures
        r@ == selector_of(signature@),
{
    let h = keccak256(signature).high;
    let r: Vec<u8> = vec![(h >> 120u128) as u8, (h >> 112u128) as u8, (h >> 104u128) as u8, (h >> 96u128) as u8];
    assert(r@ =~= selector_of(signature@));
    r
}

/// "failed()"
pub open spec fn failed_signature() -> Seq<u8> {
    seq![102u8, 97, 105, 108, 101, 100, 40, 41]
}

/// "setUp()"
pub open spec fn setup_signature() -> Seq<u8> {
    seq![115u8, 101, 116, 85, 112, 40, 41]
}

/// The boolean that return data holds: its first 32-byte word, nonzero
/// meaning true; none if the data is shorter than a word.
pub open spec fn decoded_bool(data: Seq<u8>) -> Option<bool> {
    if data.len() < 32 {
        None
    } else {
        Some(exists|j: int| 0 <= j < 32 && data[j] != 0)
    }
}

pub fn decode_bool(data: &[u8]) -> (r: Option<bool>)
    ensures
        r == decoded_bool(data@),
{
    if data.len() < 32 {
        return None;
    }
    let mut j: usize = 0;
    while j < 32
        invariant
            j <= 32,
            data@.len() >= 32,
            forall|q: int| 0 <= q < j ==> data@[q] == 0,
        decreases 32 - j,
    {
        if data[j] != 0 {
            return Some(true);
        }
        j = j + 1;
    }
    Some(false)
}

/// Whether a test passed, given whether it was expected to fail, whether
/// its call reverted, and what the failure flag probe reported (none if the
/// probe did not complete or was not made): a test passes when its outcome,
/// reverted or flagged as failed, matches the expectation.
pub open spec fn success_verdict(should_fail: bool, reverted: bool, failed_flag: Option<bool>) -> bool {
    let success = !reverted && failed_flag != Some(true);
    should_fail != success
}

/// The verdict on a test from its expectation, its revert, and the probe of
/// the failure flag.
pub fn evaluate_success(should_fail: bool, reverted: bool, failed_flag: Option<bool>) -> (r: bool)
    ensures
        r == success_verdict(should_fail, reverted, failed_flag),
{
    let mut success = !reverted;
    if success {
        if let Some(failed) = failed_flag {
            success = !failed;
        }
    }
    should_fail ^ success
}

/// The record holds non-empty code.
pub open spec fn has_code(info: AccountInfoView) -> bool {
    info.code is Some && info.code.unwrap().len() > 0
}

/// What `deploy_create2_deployer` leaves: nothing changes if the deployer
/// already has code; with no record of the deployer in memory the account
/// is reported missing; in memory the creator's balance ends as it began.
pub open spec fn create2_post<P: RemoteProvider>(before: Executor<P>, r: Result<(), EvmError>, after: Executor<P>) -> bool {
    let deployer = crate::constants::spec_create2_deployer();
    let creator = crate::constants::spec_create2_creator();
    &&& after.backend.active == before.backend.active
    &&& before.backend.live().accounts@.contains_key(deployer) && has_code(before.backend.live().accounts@[deployer])
        ==> r is Ok && after.backend.same_except_live(before.backend) && after.backend.live().same_as(
        before.backend.live(),
    ) && after.env == before.env
    &&& before.backend.active is None && !before.backend.live().accounts@.contains_key(deployer) ==> (r matches Err(
        EvmError::Database(DatabaseError::MissingAccount(a)),
    ) && a == deployer) && after.backend.live().same_as(before.backend.live())
    &&& r is Ok && before.backend.active is None ==> after.backend.live().account(creator).balance
        == before.backend.live().account(creator).balance
    &&& before.backend.active is None && deployer_lacks_code(before) ==> after.backend.live().account(creator).balance
        == before.backend.live().account(creator).balance
    &&& before.backend.active is None && deployer_lacks_code(before) && r is Ok ==> exists|g: MemDb, cs: Changeset, mid: MemDb|
        granted(before, g) && cs.wf() && #[trigger] commit_post(g, cs, mid) && after.backend.live().accounts@
            == mid.accounts@.insert(
            creator,
            AccountInfoView { balance: before.backend.live().account(creator).balance, ..mid.account(creator) },
        )
}

/// The deployer has a record without code.
pub open spec fn deployer_lacks_code<P: RemoteProvider>(e: Executor<P>) -> bool {
    let deployer = crate::constants::spec_create2_deployer();
    e.backend.live().accounts@.contains_key(deployer) && !has_code(e.backend.live().accounts@[deployer])
}

/// `g` is the live state of `e` with the creator granted the largest balance.
pub open spec fn granted<P: RemoteProvider>(e: Executor<P>, g: MemDb) -> bool {
    let creator = crate::constants::spec_create2_creator();
    &&& g.accounts@ == e.backend.live().accounts@.insert(
        creator,
        AccountInfoView { balance: U256::spec_max(), ..e.backend.live().account(creator) },
    )
    &&& g.storage@ == e.backend.live().storage@
}

/// The record the cheatcode handler gets: a single zero byte of code, so
/// that code-size checks against it pass.
pub open spec fn cheatcode_account() -> AccountInfoView {
    AccountInfoView { code: Some(seq![0u8]), ..crate::types::default_account() }
}

pub struct Executor<P> {
    pub backend: Backend2<P>,
    /// The template every call's environment is built from.
    pub env: Env,
    pub inspector: InspectorConfig,
    /// The gas limit of calls and deployments; the block gas limit in `env`
    /// is only what the `gaslimit` opcode reads.
    pub gas_limit: U256,
}

impl<P: RemoteProvider> Executor<P> {
    pub open spec fn spec_gas_limit(&self) -> U256 {
        self.gas_limit
    }

    pub open spec fn wf(&self) -> bool {
        &&& self.backend.wf()
        &&& self.spec_gas_limit().value() <= u64::MAX
        &&& self.env.tx.data@.len() <= MAX_CALLDATA_LEN as nat
    }

    /// The environment of a call from `caller` to `transact_to`: the
    /// template's chain and block, with base fee zero and the executor's gas
    /// limit; a transaction with gas price zero, no priority fee and the
    /// executor's gas limit.
    pub open spec fn test_env(&self, caller: Address, transact_to: TransactTo, data: Seq<u8>, value: U256) -> EnvView {
        EnvView {
            cfg: self.env.cfg,
            block: BlockEnv { basefee: U256::spec_zero(), gas_limit: self.spec_gas_limit(), ..self.env.block },
            tx: TxEnvView {
                caller,
                transact_to,
                data,
                value,
                gas_price: U256::spec_zero(),
                gas_priority_fee: None,
                gas_limit: self.spec_gas_limit().low as u64,
                ..self.env.tx@
            },
        }
    }

    /// An executor over `backend`; the cheatcode handler gets a record
    /// with non-empty code.
    pub fn new(backend: Backend2<P>, env: Env, inspector: InspectorConfig, gas_limit: U256) -> (r: Executor<P>)
        requires
            backend.wf(),
            gas_limit.value() <= u64::MAX,
            env.tx.data@.len() <= MAX_CALLDATA_LEN as nat,
        ensures
            r.wf(),
            r.spec_gas_limit() == gas_limit,
            r.env@ == env@,
            r.backend.same_except_live(backend),
            r.backend.live().accounts@ == backend.live().accounts@.insert(
                spec_cheatcode_address(),
                cheatcode_account(),
            ),
            r.backend.live().storage@ == backend.live().storage@,
    {
        let mut backend = backend;
        let mut code: Vec<u8> = Vec::new();
        code.push(0u8);
        let info = AccountInfo { code: Some(code), ..AccountInfo::empty() };
        assert(info@ =~= cheatcode_account());
        backend.insert_account(cheatcode_address(), info);
        Executor { backend, env, inspector, gas_limit }
    }

    pub fn gas_limit(&self) -> (r: U256)
        ensures
            r == self.spec_gas_limit(),
    {
        self.gas_limit
    }

    pub fn set_gas_limit(&mut self, gas_limit: U256)
        requires
            gas_limit.value() <= u64::MAX,
        ensures
            final(self).spec_gas_limit() == gas_limit,
            final(self).backend == old(self).backend,
            final(self).env == old(self).env,
    {
        self.gas_limit = gas_limit;
    }

    pub fn set_tracing(&mut self, tracing: bool)
        ensures
            final(self).inspector.tracing == tracing,
            final(self).backend == old(self).backend,
            final(self).spec_gas_limit() == old(self).spec_gas_limit(),
    {
        self.inspector.tracing = tracing;
    }

    pub fn set_debugger(&mut self, debugger: bool)
        ensures
            final(self).inspector.debugger == debugger,
            final(self).backend == old(self).backend,
            final(self).spec_gas_limit() == old(self).spec_gas_limit(),
    {
        self.inspector.debugger = debugger;
    }

    pub fn set_trace_printer(&mut self, trace_printer: bool)
        ensures
            final(self).inspector.print == trace_printer,
            final(self).backend == old(self).backend,
            final(self).spec_gas_limit() == old(self).spec_gas_limit(),
    {
        self.inspector.print = trace_printer;
    }

    /// Sets the balance of `address`, keeping the rest of its record.
    pub fn set_balance(&mut self, address: Address, amount: U256) -> (r: Result<(), DatabaseError>)
        requires
            old(self).wf(),
        ensures
            final(self).wf(),
            final(self).env == old(self).env,
            final(self).spec_gas_limit() == old(self).spec_gas_limit(),
            final(self).backend.same_except_live(old(self).backend),
            old(self).backend.active is None ==> r is Ok,
            r is Ok ==> final(self).backend.live().account(address).balance == amount,
            r is Err ==> old(self).backend.active is Some && !old(self).backend.live().accounts@.contains_key(address)
                && final(self).backend.live().same_as(old(self).backend.live()),
            old(self).backend.active is None ==> final(self).backend.live().accounts@
                == old(self).backend.live().accounts@.insert(
                address,
                AccountInfoView { balance: amount, ..old(self).backend.live().account(address) },
            ),
            final(self).backend.live().storage@ == old(self).backend.live().storage@,
    {
        let mut account = match self.backend.basic(address) {
            Ok(a) => a,
            Err(e) => return Err(e),
        };
        account.balance = amount;
        self.backend.insert_account(address, account);
        Ok(())
    }

    /// The balance of `address`.
    pub fn get_balance(&mut self, address: Address) -> (r: Result<U256, DatabaseError>)
        requires
            old(self).wf(),
        ensures
            final(self).wf(),
            final(self).env == old(self).env,
            final(self).spec_gas_limit() == old(self).spec_gas_limit(),
            final(self).backend.same_except_live(old(self).backend),
            old(self).backend.active is None ==> r == Ok::<U256, DatabaseError>(
                old(self).backend.live().account(address).balance,
            ) && final(self).backend.live().same_as(old(self).backend.live()),
            old(self).backend.live().accounts@.contains_key(address) ==> r == Ok::<U256, DatabaseError>(
                old(self).backend.live().accounts@[address].balance,
            ) && final(self).backend.live().same_as(old(self).backend.live()),
            r is Err ==> final(self).backend.live().same_as(old(self).backend.live()),
            final(self).backend.live().storage@ == old(self).backend.live().storage@,
    {
        match self.backend.basic(address) {
            Ok(a) => Ok(a.balance),
            Err(e) => Err(e),
        }
    }

    /// Sets the nonce of `address`, keeping the rest of its record.
    pub fn set_nonce(&mut self, address: Address, nonce: u64) -> (r: Result<(), DatabaseError>)
        requires
            old(self).wf(),
        ensures
            final(self).wf(),
            final(self).env == old(self).env,
            final(self).spec_gas_limit() == old(self).spec_gas_limit(),
            final(self).backend.same_except_live(old(self).backend),
            old(self).backend.active is None ==> r is Ok,
            r is Ok ==> final(self).backend.live().account(address).nonce == nonce,
            r is Err ==> old(self).backend.active is Some && !old(self).backend.live().accounts@.contains_key(address)
                && final(self).backend.live().same_as(old(self).backend.live()),
            old(self).backend.active is None ==> final(self).backend.live().accounts@
                == old(self).backend.live().accounts@.insert(
                address,
                AccountInfoView { nonce, ..old(self).backend.live().account(address) },
            ),
    {
        let mut account = match self.backend.basic(address) {
            Ok(a) => a,
            Err(e) => return Err(e),
        };
        account.nonce = nonce;
        self.backend.insert_account(address, account);
        Ok(())
    }

    /// The nonce of `address`.
    pub fn get_nonce(&mut self, address: Address) -> (r: Result<u64, DatabaseError>)
        requires
            old(self).wf(),
        ensures
            final(self).wf(),
            final(self).env == old(self).env,
            final(self).spec_gas_limit() == old(self).spec_gas_limit(),
            final(self).backend.same_except_live(old(self).backend),
            old(self).backend.active is None ==> r == Ok::<u64, DatabaseError>(
                old(self).backend.live().account(address).nonce,
            ) && final(self).backend.live().same_as(old(self).backend.live()),
            old(self).backend.live().accounts@.contains_key(address) ==> r == Ok::<u64, DatabaseError>(
                old(self).backend.live().accounts@[address].nonce,
            ),
    {
        match self.backend.basic(address) {
            Ok(a) => Ok(a.nonce),
            Err(e) => Err(e),
        }
    }

    /// The environment of a call in a test context, built from the template.
    pub fn build_test_env(&self, caller: Address, transact_to: TransactTo, data: Vec<u8>, value: U256) -> (r: Env)
        requires
            self.wf(),
        ensures
            r@ == self.test_env(caller, transact_to, data@, value),
    {
        Env {
            cfg: self.env.cfg,
            block: BlockEnv { basefee: U256::zero(), gas_limit: self.gas_limit, ..self.env.block },
            tx: TxEnv {
                caller,
                transact_to,
                data,
                value,
                gas_price: U256::zero(),
                gas_priority_fee: None,
                gas_limit: self.gas_limit.low as u64,
                chain_id: self.env.tx.chain_id,
                nonce: self.env.tx.nonce,
            },
        }
    }
    /// Runs the transaction of `env` without committing its changes. A
    /// snapshot failure that the run reports is recorded on the backend.
    pub fn call_raw_with_env<E: Evm<P>>(&mut self, evm: &mut E, env: Env) -> (r: Result<RawCallResult, DatabaseError>)
        requires
            old(self).wf(),
            env.tx.data@.len() <= MAX_CALLDATA_LEN as nat,
        ensures
            final(self).wf(),
            final(self).env == old(self).env,
            final(self).spec_gas_limit() == old(self).spec_gas_limit(),
            final(self).backend.memory == old(self).backend.memory,
            final(self).backend.forks@ == old(self).backend.forks@,
            final(self).backend.active == old(self).backend.active,
            final(self).backend.snapshots@ == old(self).backend.snapshots@,
            final(self).backend.persistent@ == old(self).backend.persistent@,
            old(self).backend.snapshot_failure ==> final(self).backend.snapshot_failure,
            r matches Ok(res) ==> res.env@.tx == env@.tx && res.env@.cfg.spec_id == env@.cfg.spec_id && res.has_snapshot_failure == final(self).backend.snapshot_failure
                && res.reverted == !is_ok(res.exit_reason) && res.state_changeset is Some
                && res.stipend == crate::outcome::stipend_of(env.tx.data@, env.cfg.spec_id),
            r is Err ==> final(self).backend.snapshot_failure == old(self).backend.snapshot_failure,
    {
        let exec = match evm.transact(&self.backend, &env) {
            Ok(x) => x,
            Err(e) => return Err(e),
        };
        if exec.snapshot_failure {
            self.backend.record_snapshot_failure();
        }
        Ok(convert_executed_result(env, exec, self.backend.has_snapshot_failure()))
    }

    /// Runs a call from `from` to `to` on the current state and discards
    /// its changes: the backend is only read.
    pub fn call_raw<E: Evm<P>>(&self, evm: &mut E, from: Address, to: Address, calldata: Vec<u8>, value: U256) -> (r: Result<RawCallResult, DatabaseError>)
        requires
            self.wf(),
            calldata@.len() <= MAX_CALLDATA_LEN as nat,
        ensures
            r matches Ok(res) ==> res.env@.tx == self.test_env(from, TransactTo::Call(to), calldata@, value).tx
                && res.reverted == !is_ok(res.exit_reason) && res.state_changeset is Some
                && res.stipend == crate::outcome::stipend_of(calldata@, self.env.cfg.spec_id),
    {
        let env = self.build_test_env(from, TransactTo::Call(to), calldata, value);
        let exec = match evm.transact(&self.backend, &env) {
            Ok(x) => x,
            Err(e) => return Err(e),
        };
        let has_snapshot_failure = exec.snapshot_failure;
        Ok(convert_executed_result(env, exec, has_snapshot_failure))
    }

    /// Calls `to` with `calldata` on the current state, discarding the
    /// changes, and reports the call's result or failure.
    pub fn call<E: Evm<P>, D: RevertDecoder>(
        &self,
        evm: &mut E,
        from: Address,
        to: Address,
        calldata: Vec<u8>,
        value: U256,
        rd: Option<&D>,
    ) -> (r: Result<CallResult, EvmError>)
        requires
            self.wf(),
            calldata@.len() <= MAX_CALLDATA_LEN as nat,
        ensures
            r matches Ok(c) ==> !c.reverted && c.env@.tx == self.test_env(from, TransactTo::Call(to), calldata@, value).tx
                && c.stipend == crate::outcome::stipend_of(calldata@, self.env.cfg.spec_id),
    {
        match self.call_raw(evm, from, to, calldata, value) {
            Ok(res) => convert_call_result(rd, res),
            Err(e) => Err(EvmError::Database(e)),
        }
    }

    /// Commits what an execution changed, clears the transactions recorded
    /// for broadcast, and keeps the block and chain id it left.
    pub fn commit(&mut self, result: &RawCallResult)
        requires
            old(self).wf(),
        ensures
            final(self).wf(),
            final(self).spec_gas_limit() == old(self).spec_gas_limit(),
            final(self).backend.same_except_live(old(self).backend),
            match result.state_changeset {
                Some(cs) => cs.wf() && commit_post(old(self).backend.live(), cs, final(self).backend.live()),
                None => final(self).backend == old(self).backend,
            },
            final(self).env.block == result.env.block,
            final(self).env.cfg.chain_id == result.env.cfg.chain_id,
            final(self).env.cfg.spec_id == old(self).env.cfg.spec_id,
            final(self).env.tx@ == old(self).env.tx@,
            final(self).inspector.broadcastable_transactions@.len() == 0,
    {
        if let Some(changes) = &result.state_changeset {
            changes.check_wf();
            self.backend.commit(changes);
        }
        self.inspector.broadcastable_transactions = Vec::new();
        self.env.block = result.env.block;
        self.env.cfg.chain_id = result.env.cfg.chain_id;
    }

    /// Runs the transaction of `env` and commits its changes.
    pub fn commit_tx_with_env<E: Evm<P>>(&mut self, evm: &mut E, env: Env) -> (r: Result<RawCallResult, DatabaseError>)
        requires
            old(self).wf(),
            env.tx.data@.len() <= MAX_CALLDATA_LEN as nat,
        ensures
            final(self).wf(),
            final(self).spec_gas_limit() == old(self).spec_gas_limit(),
            final(self).backend.active == old(self).backend.active,
            final(self).backend.snapshots@ == old(self).backend.snapshots@,
            final(self).backend.persistent@ == old(self).backend.persistent@,
            r matches Ok(res) ==> res.env@.tx == env@.tx && res.state_changeset is Some
                && res.state_changeset->Some_0.wf() && res.reverted == !is_ok(res.exit_reason) && commit_post(
                old(self).backend.live(),
                res.state_changeset->Some_0,
                final(self).backend.live(),
            ),
            r is Err ==> final(self).backend.live() == old(self).backend.live(),
    {
        let result = match self.call_raw_with_env(evm, env) {
            Ok(res) => res,
            Err(e) => return Err(e),
        };
        self.commit(&result);
        Ok(result)
    }

    /// Runs a call from `from` to `to` and commits its changes.
    pub fn call_raw_committing<E: Evm<P>>(&mut self, evm: &mut E, from: Address, to: Address, calldata: Vec<u8>, value: U256) -> (r: Result<RawCallResult, DatabaseError>)
        requires
            old(self).wf(),
            calldata@.len() <= MAX_CALLDATA_LEN as nat,
        ensures
            final(self).wf(),
            final(self).spec_gas_limit() == old(self).spec_gas_limit(),
            final(self).backend.active == old(self).backend.active,
            final(self).backend.snapshots@ == old(self).backend.snapshots@,
            final(self).backend.persistent@ == old(self).backend.persistent@,
            r matches Ok(res) ==> res.env@.tx == old(self).test_env(from, TransactTo::Call(to), calldata@, value).tx
                && res.state_changeset is Some && res.state_changeset->Some_0.wf() && res.reverted == !is_ok(res.exit_reason) && commit_post(
                old(self).backend.live(),
                res.state_changeset->Some_0,
                final(self).backend.live(),
            ),
            r is Err ==> final(self).backend.live() == old(self).backend.live(),
    {
        let env = self.build_test_env(from, TransactTo::Call(to), calldata, value);
        self.commit_tx_with_env(evm, env)
    }

    /// Calls `to` with `calldata`, commits the changes, and reports the
    /// call's result or failure.
    pub fn call_committing<E: Evm<P>, D: RevertDecoder>(
        &mut self,
        evm: &mut E,
        from: Address,
        to: Address,
        calldata: Vec<u8>,
        value: U256,
        rd: Option<&D>,
    ) -> (r: Result<CallResult, EvmError>)
        requires
            old(self).wf(),
            calldata@.len() <= MAX_CALLDATA_LEN as nat,
        ensures
            final(self).wf(),
            final(self).spec_gas_limit() == old(self).spec_gas_limit(),
            final(self).backend.active == old(self).backend.active,
            final(self).backend.snapshots@ == old(self).backend.snapshots@,
            final(self).backend.persistent@ == old(self).backend.persistent@,
            r matches Ok(c) ==> !c.reverted && c.state_changeset is Some && c.state_changeset->Some_0.wf()
                && c.env@.tx == old(self).test_env(from, TransactTo::Call(to), calldata@, value).tx && commit_post(
                old(self).backend.live(),
                c.state_changeset->Some_0,
                final(self).backend.live(),
            ),
            rd is None ==> (r matches Err(EvmError::Execution(e)) ==> e.reason is Raw),
    {
        match self.call_raw_committing(evm, from, to, calldata, value) {
            Ok(res) => convert_call_result(rd, res),
            Err(e) => Err(EvmError::Database(e)),
        }
    }

    /// Runs a test function call without committing its changes.
    pub fn execute_test<E: Evm<P>, D: RevertDecoder>(
        &mut self,
        evm: &mut E,
        from: Address,
        test_contract: Address,
        calldata: Vec<u8>,
        value: U256,
        rd: Option<&D>,
    ) -> (r: Result<CallResult, EvmError>)
        requires
            old(self).wf(),
            calldata@.len() <= MAX_CALLDATA_LEN as nat,
        ensures
            final(self).wf(),
            final(self).backend.live() == old(self).backend.live(),
            final(self).backend.active == old(self).backend.active,
            final(self).env == old(self).env,
            r matches Ok(c) ==> !c.reverted && c.env@.tx == old(self).test_env(
                from,
                TransactTo::Call(test_contract),
                calldata@,
                value,
            ).tx,
    {
        let env = self.build_test_env(from, TransactTo::Call(test_contract), calldata, value);
        match self.call_raw_with_env(evm, env) {
            Ok(res) => convert_call_result(rd, res),
            Err(e) => Err(EvmError::Database(e)),
        }
    }
    /// Deploys the contract creation of `env` and commits the new state. On
    /// success the created address is made persistent; a success without an
    /// address is an error of the interpreter; a failure reports its reason.
    pub fn deploy_with_env<E: Evm<P>, D: RevertDecoder>(&mut self, evm: &mut E, env: Env, rd: Option<&D>) -> (r: Result<DeployResult, EvmError>)
        requires
            old(self).wf(),
            env.tx.data@.len() <= MAX_CALLDATA_LEN as nat,
            env.tx.transact_to is Create,
        ensures
            final(self).wf(),
            final(self).spec_gas_limit() == old(self).spec_gas_limit(),
            final(self).backend.active == old(self).backend.active,
            final(self).backend.snapshots@ == old(self).backend.snapshots@,
            forall|a: Address| old(self).backend.persistent@.contains(a) ==> final(self).backend.persistent@.contains(a),
            r matches Ok(d) ==> final(self).backend.persistent@.contains(d.address) && d.env@.tx == env@.tx,
            r is Err ==> final(self).backend.persistent@ == old(self).backend.persistent@,
            r matches Err(EvmError::Execution(e)) ==> e.reverted,
            r matches Err(EvmError::Database(_)) ==> final(self).backend.live() == old(self).backend.live(),
            !(r matches Err(EvmError::Database(_))) ==> exists|cs: Changeset|
                cs.wf() && #[trigger] commit_post(old(self).backend.live(), cs, final(self).backend.live()),
    {
        let result = match self.call_raw_with_env(evm, env) {
            Ok(res) => res,
            Err(e) => return Err(EvmError::Database(e)),
        };
        self.commit(&result);
        let ghost committed = result.state_changeset->Some_0;
        assert(committed.wf() && commit_post(old(self).backend.live(), committed, self.backend.live()));
        match convert_deploy_result(rd, result) {
            Ok(d) => {
                self.backend.add_persistent_account(d.address);
                assert(commit_post(old(self).backend.live(), committed, self.backend.live()));
                Ok(d)
            },
            Err(e) => Err(e),
        }
    }

    /// Deploys `code` from `from` and commits the new state.
    pub fn deploy<E: Evm<P>, D: RevertDecoder>(&mut self, evm: &mut E, from: Address, code: Vec<u8>, value: U256, rd: Option<&D>) -> (r: Result<DeployResult, EvmError>)
        requires
            old(self).wf(),
            code@.len() <= MAX_CALLDATA_LEN as nat,
        ensures
            final(self).wf(),
            final(self).spec_gas_limit() == old(self).spec_gas_limit(),
            final(self).backend.active == old(self).backend.active,
            final(self).backend.snapshots@ == old(self).backend.snapshots@,
            forall|a: Address| old(self).backend.persistent@.contains(a) ==> final(self).backend.persistent@.contains(a),
            r matches Ok(d) ==> final(self).backend.persistent@.contains(d.address) && d.env@.tx == old(self).test_env(
                from,
                TransactTo::Create,
                code@,
                value,
            ).tx,
            r is Err ==> final(self).backend.persistent@ == old(self).backend.persistent@,
            r matches Err(EvmError::Database(_)) ==> final(self).backend.live() == old(self).backend.live(),
            !(r matches Err(EvmError::Database(_))) ==> exists|cs: Changeset|
                cs.wf() && #[trigger] commit_post(old(self).backend.live(), cs, final(self).backend.live()),
    {
        let env = self.build_test_env(from, TransactTo::Create, code, value);
        self.deploy_with_env(evm, env, rd)
    }

    /// Deploys the CREATE2 deployer unless its address already has code.
    /// The creator is funded for the deployment and then gets back exactly
    /// the balance it had.
    pub fn deploy_create2_deployer<E: Evm<P>>(&mut self, evm: &mut E) -> (r: Result<(), EvmError>)
        requires
            old(self).wf(),
        ensures
            final(self).wf(),
            create2_post(*old(self), r, *final(self)),
    {
        let deployer = crate::constants::create2_deployer();
        let account = match self.backend.basic_ref(deployer) {
            Ok(Some(a)) => a,
            Ok(None) => return Err(EvmError::Database(DatabaseError::MissingAccount(deployer))),
            Err(e) => return Err(EvmError::Database(e)),
        };
        if account.has_no_code() {
            let creator = crate::constants::create2_creator();
            let initial_balance = match self.get_balance(creator) {
                Ok(b) => b,
                Err(e) => return Err(EvmError::Database(e)),
            };
            if let Err(e) = self.set_balance(creator, U256::max_value()) {
                return Err(EvmError::Database(e));
            }
            let ghost g = self.backend.live();
            let deployed = self.deploy(
                evm,
                creator,
                crate::constants::create2_deployer_code(),
                U256::zero(),
                None::<&crate::outcome::NoDecoder>,
            );
            let ghost mid = self.backend.live();
            if let Err(e) = self.set_balance(creator, initial_balance) {
                return Err(EvmError::Database(e));
            }
            if let Err(e) = deployed {
                return Err(e);
            }
            proof {
                if old(self).backend.active is None {
                    let cs = choose|cs: Changeset| cs.wf() && #[trigger] commit_post(g, cs, mid);
                    assert(granted(*old(self), g));
                    assert(commit_post(g, cs, mid));
                }
            }
        }
        Ok(())
    }

    /// The backend the failure flag is read from: an empty one holding the
    /// records of `address` and of the cheatcode handler, read from this
    /// backend, with `state_changeset` committed on top. A failed read is
    /// returned as the error.
    pub fn probe_backend(&self, address: Address, state_changeset: &Changeset) -> (r: Result<Backend2<P>, DatabaseError>)
        requires
            self.wf(),
        ensures
            r matches Ok(b) ==> b.wf() && b.active is None && b.snapshots@.len() == 0 && !b.snapshot_failure,
            r is Err ==> self.backend.active is Some,
            r matches Err(e) ==> e is Remote,
            self.backend.active is None ==> (r matches Ok(b) && b.live().accounts@ == crate::db::committed_accounts(
                Map::empty().insert(address, self.backend.live().account(address)).insert(
                    spec_cheatcode_address(),
                    self.backend.live().account(spec_cheatcode_address()),
                ),
                state_changeset.accounts@,
            ) && b.live().storage@ == Map::<crate::table::SlotKey, U256>::empty().union_prefer_right(
                state_changeset.storage@,
            )),
    {
        let mut backend = self.backend.clone_empty();
        let acc = match self.backend.peek(address) {
            Ok(a) => a,
            Err(e) => return Err(e),
        };
        backend.insert_account(address, acc);
        let cheat = cheatcode_address();
        let acc = match self.backend.peek(cheat) {
            Ok(a) => a,
            Err(e) => return Err(e),
        };
        backend.insert_account(cheat, acc);
        state_changeset.check_wf();
        backend.commit(state_changeset);
        Ok(backend)
    }

    /// The failure flag that a `failed()` call from the default sender
    /// reports against `probe`: none if the call does not complete or its
    /// output is not a word.
    pub fn failed_flag<E: Evm<P>>(&self, evm: &mut E, probe: Backend2<P>, address: Address) -> (r: Option<bool>)
        requires
            self.wf(),
            probe.wf(),
    {
        let executor = Executor::new(probe, self.env.duplicate(), self.inspector.duplicate(), self.gas_limit);
        let calldata = selector(vec![102u8, 97, 105, 108, 101, 100, 40, 41].as_slice());
        match executor.call(evm, caller(), address, calldata, U256::zero(), None::<&crate::outcome::NoDecoder>) {
            Ok(c) => decode_bool(c.result.as_slice()),
            Err(_) => None,
        }
    }

    /// Checks whether a test call succeeded: after a reverted snapshot that
    /// undid a failure, the outcome is `should_fail`; else the call
    /// succeeded if it did not revert and a `failed()` call against the
    /// probe backend does not report true; the result is whether that
    /// matches the expectation. A failed read of the state is returned.
    pub fn ensure_success<E: Evm<P>>(
        &self,
        evm: &mut E,
        address: Address,
        reverted: bool,
        state_changeset: Changeset,
        should_fail: bool,
    ) -> (r: Result<bool, DatabaseError>)
        requires
            self.wf(),
        ensures
            self.backend.snapshot_failure ==> r == Ok::<bool, DatabaseError>(should_fail),
            self.backend.active is None ==> r is Ok,
            r is Err ==> !self.backend.snapshot_failure && self.backend.active is Some,
            r matches Err(e) ==> e is Remote,
            r is Ok && reverted ==> r->Ok_0 == should_fail,
    {
        if self.backend.has_snapshot_failure() {
            return Ok(should_fail);
        }
        let probe = match self.probe_backend(address, &state_changeset) {
            Ok(b) => b,
            Err(e) => return Err(e),
        };
        let failed_flag = if reverted {
            None
        } else {
            self.failed_flag(evm, probe, address)
        };
        Ok(evaluate_success(should_fail, reverted, failed_flag))
    }

    /// Whether a test call succeeded; a failed read of the state counts as
    /// not.
    pub fn is_success<E: Evm<P>>(
        &self,
        evm: &mut E,
        address: Address,
        reverted: bool,
        state_changeset: Changeset,
        should_fail: bool,
    ) -> (r: bool)
        requires
            self.wf(),
        ensures
            self.backend.snapshot_failure ==> r == should_fail,
            reverted && (self.backend.active is None || self.backend.snapshot_failure) ==> r == should_fail,
    {
        match self.ensure_success(evm, address, reverted, state_changeset, should_fail) {
            Ok(b) => b,
            Err(_) => false,
        }
    }

    /// Whether a call made with `call_raw` succeeded; the snapshot failure
    /// it recorded decides first.
    pub fn is_raw_call_success<E: Evm<P>>(
        &self,
        evm: &mut E,
        address: Address,
        state_changeset: Changeset,
        call_result: &RawCallResult,
        should_fail: bool,
    ) -> (r: bool)
        requires
            self.wf(),
        ensures
            call_result.has_snapshot_failure ==> r == should_fail,
            !call_result.has_snapshot_failure && self.backend.snapshot_failure ==> r == should_fail,
    {
        if call_result.has_snapshot_failure {
            return should_fail;
        }
        self.is_success(evm, address, call_result.reverted, state_changeset, should_fail)
    }

    /// Calls `setUp()` on `to` from `from` (the default sender if none),
    /// commits its changes, keeps the block and chain id it left, and
    /// checks that it succeeded; a setup whose success check fails is an
    /// execution error.
    pub fn setup<E: Evm<P>>(&mut self, evm: &mut E, from: Option<Address>, to: Address) -> (r: Result<CallResult, EvmError>)
        requires
            old(self).wf(),
        ensures
            final(self).wf(),
            final(self).backend.active == old(self).backend.active,
            final(self).backend.snapshots@ == old(self).backend.snapshots@,
            r matches Ok(c) ==> !c.reverted && c.state_changeset is Some && c.env@.tx == old(self).test_env(
                match from {
                    Some(f) => f,
                    None => crate::constants::spec_caller(),
                },
                TransactTo::Call(to),
                selector_of(setup_signature()),
                U256::spec_zero(),
            ).tx && final(self).env.block == c.env.block && final(self).env.cfg.chain_id == c.env.cfg.chain_id
                && commit_post(old(self).backend.live(), c.state_changeset->Some_0, final(self).backend.live()),
            r matches Err(EvmError::Execution(e)) && e.reason is ExecutionError ==> exists|cs: Changeset|
                cs.wf() && #[trigger] commit_post(old(self).backend.live(), cs, final(self).backend.live()),
    {
        let from = match from {
            Some(f) => f,
            None => caller(),
        };
        let sig: Vec<u8> = vec![115u8, 101, 116, 85, 112, 40, 41];
        assert(sig@ =~= setup_signature());
        let calldata = selector(sig.as_slice());
        let res = match self.call_committing(evm, from, to, calldata, U256::zero(), None::<&crate::outcome::NoDecoder>) {
            Ok(c) => c,
            Err(e) => return Err(e),
        };
        self.env.block = res.env.block;
        self.env.cfg.chain_id = res.env.cfg.chain_id;
        let changes = match &res.state_changeset {
            Some(cs) => {
                cs.check_wf();
                cs.duplicate()
            },
            None => return Ok(res),
        };
        let success = match self.ensure_success(evm, to, res.reverted, changes, false) {
            Ok(b) => b,
            Err(e) => return Err(EvmError::Database(e)),
        };
        if success {
            Ok(res)
        } else {
            let ghost committed = res.state_changeset->Some_0;
            assert(committed.wf() && commit_post(old(self).backend.live(), committed, self.backend.live()));
            let CallResult { skipped: _, reverted, result: _, gas_used, gas_refunded, stipend, logs, labels, transactions: _, state_changeset: _, env: _ } = res;
            Err(
                EvmError::Execution(
                    ExecutionErr {
                        reverted,
                        reason: RevertReason::ExecutionError,
                        gas_used,
                        gas_refunded,
                        stipend,
                        logs,
                        labels,
                        transactions: None,
                        state_changeset: None,
                    },
                ),
            )
        }
    }
}

} // verus!

verus! {

/// Bootstrapping the CREATE2 deployer twice in a row deploys it once: when
/// the first call left code at the deployer, the second changes nothing,
/// and the creator's balance ends as it was before the first call.
pub proof fn lemma_create2_bootstrap_idempotent<P: RemoteProvider>(
    e0: Executor<P>,
    r1: Result<(), EvmError>,
    e1: Executor<P>,
    r2: Result<(), EvmError>,
    e2: Executor<P>,
)
    requires
        e0.backend.active is None,
        create2_post(e0, r1, e1),
        r1 is Ok,
        e1.backend.live().accounts@.contains_key(crate::constants::spec_create2_deployer()),
        has_code(e1.backend.live().accounts@[crate::constants::spec_create2_deployer()]),
        create2_post(e1, r2, e2),
    ensures
        r2 is Ok,
        e2.backend.live().same_as(e1.backend.live()),
        e2.env == e1.env,
        e2.backend.live().account(crate::constants::spec_create2_creator()).balance
            == e0.backend.live().account(crate::constants::spec_create2_creator()).balance,
{
}

} // verus!
