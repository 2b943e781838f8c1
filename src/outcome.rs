//! What the interpreter reports for one execution, and the results and
//! errors the executor derives from it.
use vstd::prelude::*;
use crate::constants::{magic_skip, spec_magic_skip};
use crate::db::Changeset;
use crate::env::{spec_order, BlockEnv, CfgEnv, Env, EnvView, SpecId, TransactTo, TxEnv};
use crate::error::DatabaseError;
use crate::multi::Backend2;
use crate::types::{Address, B256, U256};

verus! {

/// How the interpreter stopped.
#[derive(Clone, Copy, Debug, PartialEq, Eq, Structural)]
pub enum InstructionResult {
    Continue,
    Stop,
    Return,
    SelfDestruct,
    Revert,
    CallTooDeep,
    OutOfFund,
    OutOfGas,
    OpcodeNotFound,
    InvalidFEOpcode,
    InvalidJump,
    StackUnderflow,
    StackOverflow,
    OutOfOffset,
    CreateCollision,
    PrecompileError,
    NonceOverflow,
    CreateContractSizeLimit,
    FatalExternalError,
}

/// The statuses of an execution that completed normally.
pub open spec fn is_ok(s: InstructionResult) -> bool {
    s is Continue || s is Stop || s is Return || s is SelfDestruct
}

impl InstructionResult {
    pub fn is_ok(&self) -> (r: bool)
        ensures
            r == is_ok(*self),
    {
        match self {
            InstructionResult::Continue | InstructionResult::Stop | InstructionResult::Return
            | InstructionResult::SelfDestruct => true,
            _ => false,
        }
    }
}

/// The output of an execution: return data, or the code and address of a
/// created contract.
#[derive(Debug)]
pub enum Output {
    Call(Vec<u8>),
    Create(Vec<u8>, Option<Address>),
}

#[derive(Debug)]
#[allow(inconsistent_fields)]
pub enum ExecutionResult {
    Success { reason: InstructionResult, gas_used: u64, gas_refunded: u64, output: Output },
    Revert { gas_used: u64, output: Vec<u8> },
    Halt { reason: InstructionResult, gas_used: u64 },
}

#[derive(Debug)]
pub struct Log {
    pub address: Address,
    pub topics: Vec<B256>,
    pub data: Vec<u8>,
}

/// A name given to an address during execution.
#[derive(Debug)]
pub struct Label {
    pub address: Address,
    pub label: String,
}

/// What the inspectors collected during an execution.
#[derive(Debug)]
pub struct InspectorData {
    pub logs: Vec<Log>,
    pub labels: Vec<Label>,
    /// Transactions recorded for broadcast, encoded.
    pub broadcastable_transactions: Vec<Vec<u8>>,
}

/// Everything one run of the interpreter reports: the result, the state
/// changes, the environment as the run left it, what the inspectors
/// collected, and whether a snapshot revert during the run undid a global
/// failure.
pub struct Execution {
    pub result: ExecutionResult,
    pub state: Changeset,
    pub env: Env,
    pub inspector: InspectorData,
    pub snapshot_failure: bool,
}

/// The bytecode interpreter, with its inspectors: runs the transaction of
/// `env` against `db`, whose state it only reads.
pub trait Evm<P> {
    fn transact(&mut self, db: &Backend2<P>, env: &Env) -> Result<Execution, DatabaseError>;
}

/// Turns revert data into a readable reason.
pub trait RevertDecoder {
    fn decode(&self, data: &[u8], status: InstructionResult) -> String;
}

/// The decoder used where none is given; it is never asked to decode.
pub struct NoDecoder;

impl RevertDecoder for NoDecoder {
    fn decode(&self, data: &[u8], status: InstructionResult) -> String {
        String::new()
    }
}

/// Why a call failed: decoded, or the raw revert data when no decoder was
/// given.
#[derive(Debug)]
pub enum RevertReason {
    Decoded(String),
    Raw(Vec<u8>),
    /// A deployment succeeded but reported no address.
    MissingAddress,
    /// A call or deployment completed but its success checks failed.
    ExecutionError,
}

/// The result of one execution, in the executor's terms.
pub struct RawCallResult {
    pub exit_reason: InstructionResult,
    pub reverted: bool,
    /// A snapshot revert undid a global failure; tracked apart from
    /// `reverted` because it can happen without a revert.
    pub has_snapshot_failure: bool,
    pub result: Vec<u8>,
    pub gas_used: u64,
    pub gas_refunded: u64,
    pub stipend: u64,
    pub logs: Vec<Log>,
    pub labels: Vec<Label>,
    pub transactions: Option<Vec<Vec<u8>>>,
    pub state_changeset: Option<Changeset>,
    pub env: Env,
    pub out: Option<Output>,
}

impl Default for RawCallResult {
    /// A result that reports nothing: no status yet, no gas, no output, and
    /// the default environment under the latest rules.
    fn default() -> (r: RawCallResult)
        ensures
            r.exit_reason == InstructionResult::Continue,
            !r.reverted,
            !r.has_snapshot_failure,
            r.result@.len() == 0,
            r.gas_used == 0,
            r.gas_refunded == 0,
            r.stipend == 0,
            r.logs@.len() == 0,
            r.labels@.len() == 0,
            r.transactions is None,
            r.state_changeset is None,
            r.out is None,
            r.env.cfg.spec_id == SpecId::Latest,
            r.env.tx.data@.len() == 0,
    {
        let zero = U256::zero();
        RawCallResult {
            exit_reason: InstructionResult::Continue,
            reverted: false,
            has_snapshot_failure: false,
            result: Vec::new(),
            gas_used: 0,
            gas_refunded: 0,
            stipend: 0,
            logs: Vec::new(),
            labels: Vec::new(),
            transactions: None,
            state_changeset: None,
            env: Env {
                cfg: CfgEnv { chain_id: 1, spec_id: SpecId::Latest },
                block: BlockEnv { number: zero, coinbase: Address::zero(), timestamp: zero, gas_limit: zero, basefee: zero },
                tx: TxEnv {
                    caller: Address::zero(),
                    gas_limit: u64::MAX,
                    gas_price: zero,
                    gas_priority_fee: None,
                    transact_to: TransactTo::Create,
                    value: zero,
                    data: Vec::new(),
                    chain_id: None,
                    nonce: None,
                },
            },
            out: None,
        }
    }
}

pub struct CallResult {
    pub skipped: bool,
    pub reverted: bool,
    pub result: Vec<u8>,
    pub gas_used: u64,
    pub gas_refunded: u64,
    pub stipend: u64,
    pub logs: Vec<Log>,
    pub labels: Vec<Label>,
    pub transactions: Option<Vec<Vec<u8>>>,
    pub state_changeset: Option<Changeset>,
    pub env: Env,
}

#[derive(Debug)]
pub struct DeployResult {
    pub address: Address,
    pub gas_used: u64,
    pub gas_refunded: u64,
    pub logs: Vec<Log>,
    pub env: Env,
}

/// The context of a failed execution.
pub struct ExecutionErr {
    pub reverted: bool,
    pub reason: RevertReason,
    pub gas_used: u64,
    pub gas_refunded: u64,
    pub stipend: u64,
    pub logs: Vec<Log>,
    pub labels: Vec<Label>,
    pub transactions: Option<Vec<Vec<u8>>>,
    pub state_changeset: Option<Changeset>,
}

pub enum EvmError {
    /// The execution did not complete as expected.
    Execution(ExecutionErr),
    /// The call asked for its test to be skipped.
    SkipError,
    /// Reading the state failed.
    Database(DatabaseError),
    /// The interpreter broke its own contract (a deployment succeeded but
    /// reported no address): a fault of the engine, not of the call.
    InternalInvariantViolation(ExecutionErr),
}

/// The largest calldata whose stipend fits in 64 bits.
pub const MAX_CALLDATA_LEN: u64 = 271_275_648_142_787_214;

/// The stipend of `data` under `spec`: 21000, plus 4 per zero byte and 16
/// per other byte (68 before Istanbul).
pub open spec fn stipend_of(data: Seq<u8>, spec: SpecId) -> nat
    decreases data.len(),
{
    if data.len() == 0 {
        21000
    } else {
        stipend_of(data.drop_last(), spec) + if data.last() == 0 {
            4nat
        } else if spec_order(spec) >= spec_order(SpecId::Istanbul) {
            16nat
        } else {
            68nat
        }
    }
}

proof fn lemma_stipend_bound(data: Seq<u8>, spec: SpecId)
    ensures
        stipend_of(data, spec) <= 21000 + 68 * data.len(),
    decreases data.len(),
{
    if data.len() > 0 {
        lemma_stipend_bound(data.drop_last(), spec);
    }
}

/// The initial gas stipend of a transaction with calldata `calldata`.
pub fn calc_stipend(calldata: &[u8], spec: SpecId) -> (r: u64)
    requires
        calldata@.len() <= MAX_CALLDATA_LEN as nat,
    ensures
        r == stipend_of(calldata@, spec),
{
    let non_zero_data_cost: u64 = if SpecId::enabled(spec, SpecId::Istanbul) {
        16
    } else {
        68
    };
    let mut sum: u64 = 21000;
    let mut i: usize = 0;
    while i < calldata.len()
        invariant
            i <= calldata@.len(),
            calldata@.len() <= MAX_CALLDATA_LEN as nat,
            non_zero_data_cost == (if spec_order(spec) >= spec_order(SpecId::Istanbul) { 16u64 } else { 68u64 }),
            sum == stipend_of(calldata@.subrange(0, i as int), spec),
        decreases calldata@.len() - i,
    {
        proof {
            lemma_stipend_bound(calldata@.subrange(0, i as int), spec);
            assert(calldata@.subrange(0, i + 1).drop_last() =~= calldata@.subrange(0, i as int));
            let n = i as int;
            assert(68 * (n + 1) <= 68 * (MAX_CALLDATA_LEN as int)) by (nonlinear_arith)
                requires n + 1 <= MAX_CALLDATA_LEN as int;
        }
        sum = sum + if calldata[i] == 0 {
            4
        } else {
            non_zero_data_cost
        };
        i = i + 1;
    }
    proof { assert(calldata@.subrange(0, i as int) =~= calldata@); }
    sum
}

/// The status, refund, gas and output that an execution result reports.
pub open spec fn result_parts(r: ExecutionResult) -> (InstructionResult, u64, u64) {
    match r {
        ExecutionResult::Success { reason, gas_used, gas_refunded, .. } => (reason, gas_refunded, gas_used),
        ExecutionResult::Revert { gas_used, .. } => (InstructionResult::Revert, 0, gas_used),
        ExecutionResult::Halt { reason, gas_used } => (reason, 0, gas_used),
    }
}

/// The return data of an execution result: the output of a call, else empty.
pub open spec fn result_data(r: ExecutionResult) -> Seq<u8> {
    match r {
        ExecutionResult::Success { output: Output::Call(d), .. } => d@,
        ExecutionResult::Revert { output, .. } => output@,
        _ => Seq::empty(),
    }
}

/// The environment a run reports: the transaction as it was sent, with the
/// block and chain id as the run left them (cheatcodes may change those).
pub open spec fn run_env(sent: EnvView, left: EnvView) -> EnvView {
    EnvView { cfg: CfgEnv { chain_id: left.cfg.chain_id, ..sent.cfg }, block: left.block, tx: sent.tx }
}

/// The output an execution result carries: a revert's data as call output,
/// nothing for a halt.
pub open spec fn result_out(r: ExecutionResult) -> Option<Output> {
    match r {
        ExecutionResult::Success { output, .. } => Some(output),
        ExecutionResult::Revert { output, .. } => Some(Output::Call(output)),
        ExecutionResult::Halt { .. } => None,
    }
}

/// Converts what the interpreter reported into a `RawCallResult`.
pub fn convert_executed_result(env: Env, exec: Execution, has_snapshot_failure: bool) -> (r: RawCallResult)
    requires
        env.tx.data@.len() <= MAX_CALLDATA_LEN as nat,
    ensures
        r.exit_reason == result_parts(exec.result).0,
        r.gas_refunded == result_parts(exec.result).1,
        r.gas_used == result_parts(exec.result).2,
        r.reverted == !is_ok(r.exit_reason),
        r.has_snapshot_failure == has_snapshot_failure,
        r.result@ == result_data(exec.result),
        r.stipend == stipend_of(env.tx.data@, env.cfg.spec_id),
        r.env@ == run_env(env@, exec.env@),
        r.out == result_out(exec.result),
        r.state_changeset == Some(exec.state),
        r.logs == exec.inspector.logs,
        r.labels == exec.inspector.labels,
        r.transactions is Some == (exec.inspector.broadcastable_transactions@.len() > 0),
        r.transactions matches Some(t) ==> t == exec.inspector.broadcastable_transactions,
{
    let stipend = calc_stipend(env.tx.data.as_slice(), env.cfg.spec_id);
    let Execution { result, state, env: left, inspector, snapshot_failure: _ } = exec;
    let mut env = env;
    env.block = left.block;
    env.cfg.chain_id = left.cfg.chain_id;
    let (exit_reason, gas_refunded, gas_used, out, data) = match result {
        ExecutionResult::Success { reason, gas_used, gas_refunded, output } => {
            let data = match &output {
                Output::Call(d) => crate::types::copy_bytes(d),
                Output::Create(_, _) => Vec::new(),
            };
            (reason, gas_refunded, gas_used, Some(output), data)
        },
        ExecutionResult::Revert { gas_used, output } => {
            let data = crate::types::copy_bytes(&output);
            (InstructionResult::Revert, 0u64, gas_used, Some(Output::Call(output)), data)
        },
        ExecutionResult::Halt { reason, gas_used } => (reason, 0u64, gas_used, None, Vec::new()),
    };
    let InspectorData { logs, labels, broadcastable_transactions } = inspector;
    let transactions = if broadcastable_transactions.len() > 0 {
        Some(broadcastable_transactions)
    } else {
        None
    };
    RawCallResult {
        exit_reason,
        reverted: !exit_reason.is_ok(),
        has_snapshot_failure,
        result: data,
        gas_used,
        gas_refunded,
        stipend,
        logs,
        labels,
        transactions,
        state_changeset: Some(state),
        env,
        out,
    }
}

/// The address a result reports as created, if any.
pub open spec fn created_address(out: Option<Output>) -> Option<Address> {
    match out {
        Some(Output::Create(_, a)) => a,
        _ => None,
    }
}

/// Turns the raw result of a deployment into its outcome: the created
/// address on success; an error without an address when a success reports
/// none; else an error with the reason decoded from the returned data.
pub fn convert_deploy_result<D: RevertDecoder>(rd: Option<&D>, result: RawCallResult) -> (r: Result<DeployResult, EvmError>)
    ensures
        is_ok(result.exit_reason) && created_address(result.out) is Some ==> (r matches Ok(d) && d.address
            == created_address(result.out)->Some_0 && d.gas_used == result.gas_used && d.gas_refunded
            == result.gas_refunded && d.logs == result.logs && d.env@ == result.env@),
        is_ok(result.exit_reason) && created_address(result.out) is None ==> (r matches Err(
            EvmError::InternalInvariantViolation(e),
        ) && e.reason is MissingAddress && e.gas_used == result.gas_used && e.logs == result.logs),
        !is_ok(result.exit_reason) ==> (r matches Err(EvmError::Execution(e)) && e.reverted && e.gas_used
            == result.gas_used && e.gas_refunded == result.gas_refunded && e.logs == result.logs
            && e.labels == result.labels && e.state_changeset is None && (rd is None ==> (e.reason matches RevertReason::Raw(d)
            && d@ == result.result@))),
{
    let RawCallResult {
        exit_reason,
        reverted: _,
        has_snapshot_failure: _,
        result: data,
        gas_used,
        gas_refunded,
        stipend: _,
        logs,
        labels,
        transactions: _,
        state_changeset: _,
        env,
        out,
    } = result;
    if exit_reason.is_ok() {
        match out {
            Some(Output::Create(_, Some(address))) => Ok(DeployResult { address, gas_used, gas_refunded, logs, env }),
            _ => Err(
                EvmError::InternalInvariantViolation(
                    ExecutionErr {
                        reverted: true,
                        reason: RevertReason::MissingAddress,
                        gas_used,
                        gas_refunded: 0,
                        stipend: 0,
                        logs,
                        labels,
                        transactions: None,
                        state_changeset: None,
                    },
                ),
            ),
        }
    } else {
        let reason = decode_reason(rd, data, exit_reason);
        Err(
            EvmError::Execution(
                ExecutionErr {
                    reverted: true,
                    reason,
                    gas_used,
                    gas_refunded,
                    stipend: 0,
                    logs,
                    labels,
                    transactions: None,
                    state_changeset: None,
                },
            ),
        )
    }
}

/// Whether two byte strings are equal.
pub fn bytes_eq(a: &[u8], b: &[u8]) -> (r: bool)
    ensures
        r == (a@ == b@),
{
    if a.len() != b.len() {
        return false;
    }
    let mut i: usize = 0;
    while i < a.len()
        invariant
            a@.len() == b@.len(),
            i <= a@.len(),
            forall|j: int| 0 <= j < i ==> a@[j] == b@[j],
        decreases a@.len() - i,
    {
        if a[i] != b[i] {
            return false;
        }
        i = i + 1;
    }
    assert(a@ =~= b@);
    true
}

/// The reason reported for revert data: decoded when a decoder is given,
/// else the raw data.
pub fn decode_reason<D: RevertDecoder>(rd: Option<&D>, data: Vec<u8>, status: InstructionResult) -> (r: RevertReason)
    ensures
        rd is None ==> (r matches RevertReason::Raw(d) && d@ == data@),
        rd is Some ==> r is Decoded,
{
    match rd {
        Some(d) => RevertReason::Decoded(d.decode(data.as_slice(), status)),
        None => RevertReason::Raw(data),
    }
}

/// Turns a raw result into the result of a call: a success when the
/// execution completed normally; else a skip when the return data asks for
/// one, or an execution error with the reason.
pub fn convert_call_result<D: RevertDecoder>(rd: Option<&D>, call_result: RawCallResult) -> (r: Result<CallResult, EvmError>)
    ensures
        is_ok(call_result.exit_reason) <==> r is Ok,
        r matches Ok(c) ==> c.result@ == call_result.result@ && c.reverted == call_result.reverted
            && c.gas_used == call_result.gas_used && c.gas_refunded == call_result.gas_refunded
            && c.stipend == call_result.stipend && c.env@ == call_result.env@ && !c.skipped
            && c.state_changeset == call_result.state_changeset,
        !is_ok(call_result.exit_reason) ==> (r matches Err(EvmError::SkipError) <==> call_result.result@
            == spec_magic_skip()),
        !is_ok(call_result.exit_reason) && call_result.result@ != spec_magic_skip() ==> (r matches Err(
            EvmError::Execution(e),
        ) && e.reverted == call_result.reverted && e.gas_used == call_result.gas_used && e.gas_refunded
            == call_result.gas_refunded && e.stipend == call_result.stipend && e.logs == call_result.logs
            && e.labels == call_result.labels && e.transactions == call_result.transactions
            && e.state_changeset == call_result.state_changeset && (rd is None ==> (e.reason matches RevertReason::Raw(d)
            && d@ == call_result.result@))),
{
    let RawCallResult {
        exit_reason,
        reverted,
        has_snapshot_failure: _,
        result,
        gas_used,
        gas_refunded,
        stipend,
        logs,
        labels,
        transactions,
        state_changeset,
        env,
        out: _,
    } = call_result;
    if exit_reason.is_ok() {
        Ok(CallResult {
            skipped: false,
            reverted,
            result,
            gas_used,
            gas_refunded,
            stipend,
            logs,
            labels,
            transactions,
            state_changeset,
            env,
        })
    } else {
        let skip = magic_skip();
        if bytes_eq(result.as_slice(), skip.as_slice()) {
            return Err(EvmError::SkipError);
        }
        let reason = decode_reason(rd, result, exit_reason);
        Err(
            EvmError::Execution(
                ExecutionErr {
                    reverted,
                    reason,
                    gas_used,
                    gas_refunded,
                    stipend,
                    logs,
                    labels,
                    transactions,
                    state_changeset,
                },
            ),
        )
    }
}

} // verus!
