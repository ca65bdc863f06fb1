//! The sequencer state machine: the application side of the consensus
//! engine's block lifecycle.
//!
//! The consensus connection drives `begin_block`, `deliver_tx*`, `end_block`
//! and `commit` strictly sequentially; this state is owned exclusively by
//! that call path. Payload interpretation belongs to the execution engine:
//! `deliver_tx` validates the envelope, folds its hash into the app-hash
//! accumulator, and hands back an `ExecutionRequest` describing the work the
//! engine must perform; an execution failure is logged by the caller but
//! never rolls the delivery back, since the hash is already committed to the
//! accumulator.
//!
//! The caller performs the height-ledger file I/O: it feeds the stored bytes
//! in at start-up and must durably write the bytes `commit` hands back
//! before acknowledging the commit to the consensus engine.

use vstd::prelude::*;
use vstd::string::*;

use crate::accumulator::AppHashAccumulator;
use crate::digest::sha256_chain;
use crate::engine::view_inputs;
use crate::height::{spec_height_bytes, HeightLedger};
use crate::proposal::{prepare_proposal_txs, spec_budget, total_len};
use crate::transaction::{integrity_holds, spec_tx_hash, Transaction, TransactionType};

verus! {

/// An indexed attribute of an emitted event.
#[derive(Clone, Debug)]
pub struct EventAttribute {
    pub key: String,
    pub value: String,
    pub index: bool,
}

/// An event emitted at delivery, indexed for later lookup.
#[derive(Clone, Debug)]
pub struct Event {
    pub kind: String,
    pub attributes: Vec<EventAttribute>,
}

/// The genesis hook's response: genesis loads nothing here.
#[derive(Clone, Debug)]
pub struct InitChainResponse {}

/// Application identity and replay information for the consensus engine.
#[derive(Clone, Debug)]
pub struct InfoResponse {
    pub data: String,
    pub version: String,
    pub app_version: u64,
    pub last_block_height: i64,
    pub last_block_app_hash: Vec<u8>,
}

/// The response to a state query.
#[derive(Clone, Debug)]
pub struct QueryResponse {
    pub code: u32,
    pub log: String,
    pub info: String,
}

/// The mempool gate's admission verdict.
#[derive(Clone, Debug)]
pub struct CheckTxResponse {
    pub code: u32,
    pub log: String,
}

/// The outcome of delivering one transaction.
#[derive(Clone, Debug)]
pub struct DeliverTxResponse {
    pub code: u32,
    pub data: String,
    pub log: String,
    pub info: String,
    pub events: Vec<Event>,
}

/// What the consensus engine is told at commit.
#[derive(Clone, Debug)]
pub struct CommitResponse {
    pub app_hash: Vec<u8>,
    pub retain_height: i64,
}

/// Per-block throughput counters, reported for observability only; never
/// consensus-relevant.
#[derive(Clone, Copy, Debug)]
pub struct BlockMetrics {
    pub transactions: usize,
}

/// The work an accepted transaction asks of the execution engine.
#[derive(Clone, Debug)]
pub enum ExecutionRequest {
    /// Register the declared class under its computed class hash.
    RegisterClass { program: String, class_hash: String },
    /// Instantiate a contract of `class_hash` at the computed address.
    DeployContract { address: String, class_hash: String },
    /// Resolve the entry point through the ABI and execute it.
    InvokeEntryPoint { address: String, abi: String, function: String, inputs: Option<Vec<i32>> },
}

/// A delivery response together with the execution work it implies.
#[derive(Clone, Debug)]
pub struct DeliverOutcome {
    pub response: DeliverTxResponse,
    pub request: Option<ExecutionRequest>,
}

/// A commit response together with the ledger bytes that must be durably
/// written before the response is returned to the consensus engine.
#[derive(Clone, Debug)]
pub struct CommitOutcome {
    pub response: CommitResponse,
    pub height: i64,
    pub persist: Vec<u8>,
}

/// The admission log line of the mempool gate, by kind of payload.
pub open spec fn spec_check_log(t: TransactionType) -> Seq<char> {
    match t {
        TransactionType::Declare { .. } => "Received declare transaction"@,
        TransactionType::DeployAccount { .. } => "Received deploy transaction"@,
        TransactionType::Invoke { .. } => "Received invoke transaction"@,
    }
}

/// The log line of a rejected delivery: a mismatch between the stored and
/// derived hash, or a payload whose hash cannot be derived at all.
pub open spec fn spec_deliver_error_log(tx: Transaction) -> Seq<char> {
    if spec_tx_hash(tx.transaction_type@) is Some {
        "Error delivering transaction. Integrity check failed."@
    } else {
        "Error delivering transaction: hash derivation failed."@
    }
}

/// The execution request an accepted transaction maps to: its payload,
/// routed by kind, with the derived hash standing in for the class hash of
/// a declaration and the address of a deployment.
pub open spec fn spec_request_matches(tx: Transaction, r: Option<ExecutionRequest>) -> bool {
    match tx.transaction_type {
        TransactionType::Declare { program } => r matches Some(
            ExecutionRequest::RegisterClass { program: p, class_hash: c },
        ) && p@ == program@ && c@ == tx.transaction_hash@,
        TransactionType::DeployAccount { class_hash, salt, inputs } => r matches Some(
            ExecutionRequest::DeployContract { address: a, class_hash: c },
        ) && a@ == tx.transaction_hash@ && c@ == class_hash@,
        TransactionType::Invoke { address, abi, function, inputs } => r matches Some(
            ExecutionRequest::InvokeEntryPoint { address: a, abi: ab, function: f, inputs: i },
        ) && a@ == address@ && ab@ == abi@ && f@ == function@ && view_inputs(i) == view_inputs(
            inputs,
        ),
    }
}

/// What the app-hash digests: the whole chain history, or each block alone.
///
/// With `Running`, the accumulator is never reset: the app-hash at every
/// commit digests every transaction accepted since genesis. With
/// `PerBlock`, `commit` empties the accumulator, so each app-hash digests
/// only the block just committed. `Running` is the default; either way the
/// app-hash is a pure function of what the accumulator holds, so replicas
/// configured alike agree.
#[derive(Clone, Copy, Debug, PartialEq, Eq, Structural)]
pub enum AppHashMode {
    Running,
    PerBlock,
}

/// The application state machine, one instance for the process lifetime,
/// owned by the consensus connection.
pub struct StarknetApp {
    accumulator: AppHashAccumulator,
    ledger: HeightLedger,
    block_txs: usize,
    mode: AppHashMode,
}

impl StarknetApp {
    /// The transaction hashes accepted so far, in delivery order. The
    /// externally visible app-hash is `sha256_chain` of this sequence.
    pub closed spec fn delivered(&self) -> Seq<Seq<char>> {
        self.accumulator@
    }

    /// The last committed height the ledger records.
    pub closed spec fn height(&self) -> i64 {
        self.ledger.height()
    }

    /// Transactions delivered since the block opened.
    pub closed spec fn block_transactions(&self) -> usize {
        self.block_txs
    }

    /// The configured app-hash semantics.
    pub closed spec fn app_hash_mode(&self) -> AppHashMode {
        self.mode
    }

    /// A fresh application over a started height ledger: nothing delivered,
    /// no block open, running-digest semantics.
    pub fn new(ledger: HeightLedger) -> (app: StarknetApp)
        ensures
            app.delivered() == Seq::<Seq<char>>::empty(),
            app.height() == ledger.height(),
            app.block_transactions() == 0,
            app.app_hash_mode() == AppHashMode::Running,
    {
        StarknetApp {
            accumulator: AppHashAccumulator::new(),
            ledger,
            block_txs: 0,
            mode: AppHashMode::Running,
        }
    }

    /// A fresh application with the chosen app-hash semantics.
    pub fn with_mode(ledger: HeightLedger, mode: AppHashMode) -> (app: StarknetApp)
        ensures
            app.delivered() == Seq::<Seq<char>>::empty(),
            app.height() == ledger.height(),
            app.block_transactions() == 0,
            app.app_hash_mode() == mode,
    {
        StarknetApp { accumulator: AppHashAccumulator::new(), ledger, block_txs: 0, mode }
    }

    /// One-time genesis hook; a no-op: genesis loads nothing.
    pub fn init_chain(&self) -> (r: InitChainResponse) {
        InitChainResponse {  }
    }

    /// Application identity and the last committed height, so the engine can
    /// decide replay and catch-up; mutates nothing.
    pub fn info(&self) -> (r: InfoResponse)
        ensures
            r.data@ == "cairo-app"@,
            r.version@ == "0.1.0"@,
            r.app_version == 1,
            r.last_block_height == self.height(),
            r.last_block_app_hash@ == Seq::<u8>::empty(),
    {
        InfoResponse {
            data: String::from_str("cairo-app"),
            version: String::from_str("0.1.0"),
            app_version: 1,
            last_block_height: self.ledger.current(),
            last_block_app_hash: Vec::new(),
        }
    }

    /// State queries are an explicit failure, never a silent no-op: the
    /// lookup is not implemented.
    pub fn query(&self, _data: &Vec<u8>) -> (r: QueryResponse)
        ensures
            r.code == 1,
            r.log@ == "Error running query: Query hook needs implementation"@,
            r.info@ == "Error running query: Query hook needs implementation"@,
    {
        QueryResponse {
            code: 1,
            log: String::from_str("Error running query: Query hook needs implementation"),
            info: String::from_str("Error running query: Query hook needs implementation"),
        }
    }

    /// The mempool gate: admit the transaction and report its kind. The
    /// gate does not repeat delivery's integrity verification, so an invalid
    /// transaction can enter the mempool and only fail at `deliver_tx`.
    pub fn check_tx(&self, tx: &Transaction) -> (r: CheckTxResponse)
        ensures
            r.code == 0,
            r.log@ == spec_check_log(tx.transaction_type),
    {
        let log = match &tx.transaction_type {
            TransactionType::Declare { .. } => String::from_str("Received declare transaction"),
            TransactionType::DeployAccount { .. } => String::from_str(
                "Received deploy transaction",
            ),
            TransactionType::Invoke { .. } => String::from_str("Received invoke transaction"),
        };
        CheckTxResponse { code: 0, log }
    }

    /// Open a block: reset the ephemeral per-block counters and hand the
    /// previous block's count back for the cadence log.
    pub fn begin_block(&mut self) -> (prev: BlockMetrics)
        ensures
            final(self).block_transactions() == 0,
            final(self).delivered() == old(self).delivered(),
            final(self).height() == old(self).height(),
            final(self).app_hash_mode() == old(self).app_hash_mode(),
            prev.transactions == old(self).block_transactions(),
    {
        let prev = BlockMetrics { transactions: self.block_txs };
        self.block_txs = 0;
        prev
    }

    /// Deliver one transaction: re-check the envelope's integrity, and only
    /// on success fold its hash into the app-hash accumulator - in delivery
    /// order - emit the indexing event carrying `tx_id`, and hand back the
    /// execution request for its payload. On failure nothing changes and a
    /// distinguished error response is returned.
    pub fn deliver_tx(&mut self, tx: &Transaction) -> (r: DeliverOutcome)
        requires
            old(self).block_transactions() < usize::MAX,
        ensures
            final(self).height() == old(self).height(),
            final(self).block_transactions() == old(self).block_transactions() + 1,
            final(self).app_hash_mode() == old(self).app_hash_mode(),
            integrity_holds(*tx) ==> {
                &&& final(self).delivered() == old(self).delivered().push(tx.transaction_hash@)
                &&& r.response.code == 0
                &&& r.response.data@ == tx.transaction_hash@
                &&& r.response.events@.len() == 1
                &&& r.response.events@[0].kind@ == "app"@
                &&& r.response.events@[0].attributes@.len() == 1
                &&& r.response.events@[0].attributes@[0].key@ == "tx_id"@
                &&& r.response.events@[0].attributes@[0].value@ == tx.transaction_hash@
                &&& r.response.events@[0].attributes@[0].index == true
                &&& r.response.log@ == Seq::<char>::empty()
                &&& r.response.info@ == Seq::<char>::empty()
                &&& spec_request_matches(*tx, r.request)
            },
            !integrity_holds(*tx) ==> {
                &&& final(self).delivered() == old(self).delivered()
                &&& r.response.code == 1
                &&& r.response.data@ == Seq::<char>::empty()
                &&& r.response.log@ == spec_deliver_error_log(*tx)
                &&& r.response.info@ == spec_deliver_error_log(*tx)
                &&& r.response.events@.len() == 0
                &&& r.request is None
            },
    {
        self.block_txs = self.block_txs + 1;
        match tx.verify() {
            Result::Ok(_) => {
                self.accumulator.absorb(tx.transaction_hash.as_str());
                let attribute = EventAttribute {
                    key: String::from_str("tx_id"),
                    value: tx.transaction_hash.clone(),
                    index: true,
                };
                let mut attributes: Vec<EventAttribute> = Vec::new();
                attributes.push(attribute);
                let mut events: Vec<Event> = Vec::new();
                events.push(Event { kind: String::from_str("app"), attributes });
                let request = match &tx.transaction_type {
                    TransactionType::Declare { program } => ExecutionRequest::RegisterClass {
                        program: program.clone(),
                        class_hash: tx.transaction_hash.clone(),
                    },
                    TransactionType::DeployAccount { class_hash, .. } => ExecutionRequest::DeployContract {
                        address: tx.transaction_hash.clone(),
                        class_hash: class_hash.clone(),
                    },
                    TransactionType::Invoke { address, abi, function, inputs } => ExecutionRequest::InvokeEntryPoint {
                        address: address.clone(),
                        abi: abi.clone(),
                        function: function.clone(),
                        inputs: match inputs {
                            Option::Some(v) => Option::Some(v.clone()),
                            Option::None => Option::None,
                        },
                    },
                };
                DeliverOutcome {
                    response: DeliverTxResponse {
                        code: 0,
                        data: tx.transaction_hash.clone(),
                        log: String::new(),
                        info: String::new(),
                        events,
                    },
                    request: Option::Some(request),
                }
            },
            Result::Err(e) => {
                let log = match e {
                    crate::transaction::IntegrityError::HashMismatch => String::from_str(
                        "Error delivering transaction. Integrity check failed.",
                    ),
                    crate::transaction::IntegrityError::Hashing(_) => String::from_str(
                        "Error delivering transaction: hash derivation failed.",
                    ),
                };
                let info = log.clone();
                DeliverOutcome {
                    response: DeliverTxResponse {
                        code: 1,
                        data: String::new(),
                        log,
                        info,
                        events: Vec::new(),
                    },
                    request: Option::None,
                }
            },
        }
    }

    /// Close the block: no validator-set changes; report the block's count
    /// for the cadence log.
    pub fn end_block(&self) -> (metrics: BlockMetrics)
        ensures
            metrics.transactions == self.block_transactions(),
    {
        BlockMetrics { transactions: self.block_txs }
    }

    /// Commit the block: read the accumulator, advance the height ledger by
    /// exactly one, and hand back the app-hash, the new height, and the
    /// ledger bytes the caller must durably write before acknowledging.
    /// Bit-for-bit deterministic in the delivered sequence: two replicas
    /// that delivered the same transactions report the same app-hash.
    ///
    /// Under running-digest semantics the accumulator is left untouched;
    /// under per-block semantics it is emptied for the next block.
    pub fn commit(&mut self) -> (r: CommitOutcome)
        requires
            old(self).height() < i64::MAX,
        ensures
            old(self).app_hash_mode() == AppHashMode::Running ==> final(self).delivered() == old(
                self,
            ).delivered(),
            old(self).app_hash_mode() == AppHashMode::PerBlock ==> final(self).delivered()
                == Seq::<Seq<char>>::empty(),
            final(self).block_transactions() == old(self).block_transactions(),
            final(self).height() == old(self).height() + 1,
            final(self).app_hash_mode() == old(self).app_hash_mode(),
            r.response.app_hash@ == sha256_chain(old(self).delivered()),
            r.response.app_hash@.len() == 32,
            r.response.retain_height == 0,
            r.height == final(self).height(),
            r.persist@ == spec_height_bytes(final(self).height()),
    {
        let app_hash = self.accumulator.current_digest();
        if matches!(&self.mode, AppHashMode::PerBlock) {
            self.accumulator = AppHashAccumulator::new();
        }
        let (height, persist) = self.ledger.increment();
        CommitOutcome { response: CommitResponse { app_hash, retain_height: 0 }, height, persist }
    }

    /// The app-hash over everything delivered so far, read without touching
    /// the accumulator: what `commit` would report right now.
    pub fn current_app_hash(&self) -> (out: Vec<u8>)
        ensures
            out@ == sha256_chain(self.delivered()),
            out@.len() == 32,
    {
        self.accumulator.current_digest()
    }

    /// Build a block proposal within the engine's byte budget; see the
    /// proposal builder for the exact bound.
    pub fn prepare_proposal(&self, txs: Vec<Vec<u8>>, max_tx_bytes: i64) -> (kept: Vec<Vec<u8>>)
        ensures
            kept@.len() <= txs@.len(),
            kept.deep_view() == txs.deep_view().take(kept@.len() as int),
            total_len(txs.deep_view()) <= spec_budget(max_tx_bytes) ==> kept@.len() == txs@.len(),
            total_len(txs.deep_view()) <= usize::MAX ==> total_len(kept.deep_view())
                <= spec_budget(max_tx_bytes) && (kept@.len() < txs@.len() ==> total_len(
                txs.deep_view().take(kept@.len() as int + 1),
            ) > spec_budget(max_tx_bytes)),
    {
        prepare_proposal_txs(txs, max_tx_bytes)
    }

    /// Every proposed block is accepted.
    pub fn process_proposal(&self) -> (accept: bool)
        ensures
            accept,
    {
        true
    }
}

/// Under the default running-digest semantics `commit` leaves the
/// accumulator untouched, so two commits in direct succession - no
/// `deliver_tx` between them - report the same app-hash. Under per-block
/// semantics the second commit reports the digest of an empty block
/// instead.
pub proof fn lemma_commit_twice_same_app_hash(first: StarknetApp, second: StarknetApp)
    requires
        second.delivered() == first.delivered(),
    ensures
        sha256_chain(second.delivered()) == sha256_chain(first.delivered()),
{
}

} // verus!
