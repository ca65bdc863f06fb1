//! The transaction envelope: a self-describing, self-verifying unit of work.
//!
//! The stored hash is deterministically derived from the transaction type
//! alone; the envelope is well formed exactly when the stored hash equals
//! that derivation, and this is checked, never assumed, at delivery.

use vstd::prelude::*;
use vstd::string::*;

use crate::engine::{
    class_hash_bytes, class_hash_bytes_of, deploy_address_bytes, deploy_address_bytes_of,
    invoke_hash, invoke_hash_of, view_inputs,
};
use crate::hexstr::{encode_hex, hex_of};

verus! {

/// The committed payload of a transaction, one variant per kind of work.
#[derive(Clone, Debug)]
pub enum TransactionType {
    /// Register a new contract class.
    Declare { program: String },
    /// Create a contract instance, bound to a declared class, at an address
    /// derived from the salt, the class hash and the constructor calldata.
    DeployAccount { class_hash: String, salt: i32, inputs: Option<Vec<i32>> },
    /// Execute a function of a deployed contract.
    Invoke { address: String, abi: String, function: String, inputs: Option<Vec<i32>> },
}

/// The mathematical image of a `TransactionType`.
pub enum TxTypeView {
    Declare { program: Seq<char> },
    DeployAccount { class_hash: Seq<char>, salt: i32, inputs: Option<Seq<i32>> },
    Invoke { address: Seq<char>, abi: Seq<char>, function: Seq<char>, inputs: Option<Seq<i32>> },
}

impl View for TransactionType {
    type V = TxTypeView;

    open spec fn view(&self) -> TxTypeView {
        match self {
            TransactionType::Declare { program } => TxTypeView::Declare { program: program@ },
            TransactionType::DeployAccount { class_hash, salt, inputs } => TxTypeView::DeployAccount {
                class_hash: class_hash@,
                salt: *salt,
                inputs: view_inputs(*inputs),
            },
            TransactionType::Invoke { address, abi, function, inputs } => TxTypeView::Invoke {
                address: address@,
                abi: abi@,
                function: function@,
                inputs: view_inputs(*inputs),
            },
        }
    }
}

/// A transaction envelope. The `id` only correlates client requests and is
/// never consensus-relevant; `transaction_hash` must equal the hash derived
/// from `transaction_type` for the envelope to be accepted into a block.
#[derive(Clone, Debug)]
pub struct Transaction {
    pub id: String,
    pub transaction_hash: String,
    pub transaction_type: TransactionType,
}

/// Why a hash derivation failed.
#[derive(Clone, Copy, Debug, PartialEq, Eq)]
pub enum HashingError {
    /// The declared contract-class artifact does not parse.
    InvalidContractClass,
    /// The deployment's class-hash string is not a valid field element.
    InvalidDeployment,
}

/// Why an envelope was rejected.
#[derive(Clone, Copy, Debug, PartialEq, Eq)]
pub enum IntegrityError {
    /// The stored hash differs from the one its type derives to.
    HashMismatch,
    /// The hash could not be derived at all.
    Hashing(HashingError),
}

/// Constructor calldata: the inputs, or empty when none were given.
pub open spec fn spec_calldata(inputs: Option<Seq<i32>>) -> Seq<i32> {
    match inputs {
        Option::Some(s) => s,
        Option::None => Seq::<i32>::empty(),
    }
}

/// A 32-byte value rendered as `0x` followed by its lower-case hex digits.
pub open spec fn prefixed_hex(bytes: Seq<u8>) -> Seq<char> {
    seq!['0', 'x'] + hex_of(bytes)
}

/// The hash a transaction type derives to, or `None` when derivation fails
/// on a malformed payload.
pub open spec fn spec_tx_hash(t: TxTypeView) -> Option<Seq<char>> {
    match t {
        TxTypeView::Declare { program } => match class_hash_bytes_of(program) {
            Option::Some(bytes) => Option::Some(prefixed_hex(bytes)),
            Option::None => Option::None,
        },
        TxTypeView::DeployAccount { class_hash, salt, inputs } => match deploy_address_bytes_of(
            salt,
            class_hash,
            spec_calldata(inputs),
        ) {
            Option::Some(bytes) => Option::Some(prefixed_hex(bytes)),
            Option::None => Option::None,
        },
        TxTypeView::Invoke { address, abi, function, inputs } => Option::Some(
            invoke_hash_of(address, function, inputs),
        ),
    }
}

/// The error a failed derivation reports, by kind of payload.
pub open spec fn spec_hash_error(t: TxTypeView) -> HashingError {
    match t {
        TxTypeView::DeployAccount { .. } => HashingError::InvalidDeployment,
        _ => HashingError::InvalidContractClass,
    }
}

/// The envelope invariant: the stored hash is exactly the hash its type
/// derives to.
pub open spec fn integrity_holds(t: Transaction) -> bool {
    spec_tx_hash(t.transaction_type@) == Option::Some(t.transaction_hash@)
}

/// Relies on uuid's `Uuid::new_v4` and its hyphenated rendering: a fresh
/// random identifier, 36 characters long. Nothing more is promised; the
/// value is random, so two calls need not agree.
#[verifier::external_body]
fn fresh_id() -> (r: String)
    ensures
        r@.len() == 36,
{
    uuid::Uuid::new_v4().to_string()
}

/// Render engine-derived bytes in the on-chain hash format.
fn prefix_hex_string(bytes: &Vec<u8>) -> (out: String)
    ensures
        out@ == prefixed_hex(bytes@),
{
    let mut out = String::from_str("0x");
    proof {
        reveal_strlit("0x");
        assert(out@ =~= seq!['0', 'x']);
    }
    let digits = encode_hex(bytes);
    out.append(digits.as_str());
    out
}

impl TransactionType {
    /// Derive the hash this payload commits to. A pure function of the
    /// committed fields: identical payloads derive identical hashes on
    /// every replica.
    pub fn compute_and_hash(&self) -> (r: Result<String, HashingError>)
        ensures
            r is Ok <==> spec_tx_hash(self@) is Some,
            r matches Ok(h) ==> Option::Some(h@) == spec_tx_hash(self@),
            r matches Err(e) ==> e == spec_hash_error(self@),
    {
        match self {
            TransactionType::Declare { program } => match class_hash_bytes(program.as_str()) {
                Option::Some(bytes) => Result::Ok(prefix_hex_string(&bytes)),
                Option::None => Result::Err(HashingError::InvalidContractClass),
            },
            TransactionType::DeployAccount { class_hash, salt, inputs } => {
                let calldata: Vec<i32> = match inputs {
                    Option::Some(v) => v.clone(),
                    Option::None => Vec::new(),
                };
                match deploy_address_bytes(*salt, class_hash.as_str(), &calldata) {
                    Option::Some(bytes) => Result::Ok(prefix_hex_string(&bytes)),
                    Option::None => Result::Err(HashingError::InvalidDeployment),
                }
            },
            TransactionType::Invoke { address, abi, function, inputs } => Result::Ok(
                invoke_hash(address.as_str(), function.as_str(), inputs),
            ),
        }
    }
}

impl Transaction {
    /// Build a fresh envelope: derive the hash of `transaction_type`, store
    /// it beside the payload, and assign a fresh correlation id. Fails
    /// exactly when hash derivation fails, with that failure.
    ///
    /// Every envelope this returns satisfies the integrity invariant, so
    /// `verify` succeeds on it.
    pub fn with_type(transaction_type: TransactionType) -> (r: Result<Transaction, HashingError>)
        ensures
            r is Ok <==> spec_tx_hash(transaction_type@) is Some,
            r matches Ok(env) ==> env.transaction_type == transaction_type && integrity_holds(env)
                && env.id@.len() == 36,
            r matches Err(e) ==> e == spec_hash_error(transaction_type@),
    {
        let transaction_hash = match transaction_type.compute_and_hash() {
            Result::Ok(h) => h,
            Result::Err(e) => {
                return Result::Err(e);
            },
        };
        Result::Ok(Transaction { id: fresh_id(), transaction_hash, transaction_type })
    }

    /// Check the envelope against its own hash: succeed exactly when the
    /// stored hash equals the derivation of the stored type; report a
    /// mismatch, or the derivation failure of a malformed payload.
    pub fn verify(&self) -> (r: Result<(), IntegrityError>)
        ensures
            r is Ok <==> integrity_holds(*self),
            r matches Err(e) ==> e == (if spec_tx_hash(self.transaction_type@) is Some {
                IntegrityError::HashMismatch
            } else {
                IntegrityError::Hashing(spec_hash_error(self.transaction_type@))
            }),
    {
        let computed = match self.transaction_type.compute_and_hash() {
            Result::Ok(h) => h,
            Result::Err(e) => {
                return Result::Err(IntegrityError::Hashing(e));
            },
        };
        if self.transaction_hash == computed {
            Result::Ok(())
        } else {
            Result::Err(IntegrityError::HashMismatch)
        }
    }

    /// The same check under the name the relay layer uses.
    pub fn assert_integrity(&self) -> (r: Result<(), IntegrityError>)
        ensures
            r is Ok <==> integrity_holds(*self),
            r matches Err(e) ==> e == (if spec_tx_hash(self.transaction_type@) is Some {
                IntegrityError::HashMismatch
            } else {
                IntegrityError::Hashing(spec_hash_error(self.transaction_type@))
            }),
    {
        self.verify()
    }
}

/// Construction establishes exactly the invariant verification checks: any
/// envelope whose stored hash is the derivation of its type - in particular
/// any envelope `with_type` returns - passes `verify`.
pub proof fn lemma_with_type_verifies(env: Transaction)
    requires
        Option::Some(env.transaction_hash@) == spec_tx_hash(env.transaction_type@),
    ensures
        integrity_holds(env),
{
}

/// Mutating the stored hash of a well-formed envelope, while keeping its
/// payload, breaks the integrity invariant: `verify` then fails.
pub proof fn lemma_mutated_hash_fails(t: Transaction, mutated: Transaction)
    requires
        integrity_holds(t),
        mutated.transaction_type == t.transaction_type,
        mutated.transaction_hash@ != t.transaction_hash@,
    ensures
        !integrity_holds(mutated),
{
}

/// The deployment address is a pure function of `(salt, class hash,
/// calldata, deployer = 0)`: two deploy-account payloads with equal
/// committed fields derive the same hash, however the rest of their
/// envelopes differ.
pub proof fn lemma_deploy_address_pure(a: TransactionType, b: TransactionType)
    requires
        a@ matches TxTypeView::DeployAccount { class_hash: ca, salt: sa, inputs: ia }
            && b@ matches TxTypeView::DeployAccount { class_hash: cb, salt: sb, inputs: ib }
            && ca == cb && sa == sb && spec_calldata(ia) == spec_calldata(ib),
    ensures
        spec_tx_hash(a@) == spec_tx_hash(b@),
{
}

} // verus!
