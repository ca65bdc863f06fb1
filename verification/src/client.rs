//! Client-side construction of transactions, and the key under which a
//! committed transaction can be looked up again.
//!
//! The surrounding tooling reads files, parses arguments and talks to the
//! network; what it hands over arrives here as plain values, and the
//! envelopes built from them are exactly the ones the sequencer verifies.

use vstd::prelude::*;
use vstd::string::*;

use crate::engine::{deploy_address_bytes_of, view_inputs};
use crate::transaction::{
    integrity_holds, spec_calldata, spec_tx_hash, HashingError, Transaction, TransactionType,
    TxTypeView,
};

verus! {

/// A lookup of a committed transaction by its hash.
#[derive(Clone, Debug)]
pub struct GetArgs {
    pub transaction_id: String,
}

/// A class declaration; `contract` is the path of the compiled artifact.
#[derive(Clone, Debug)]
pub struct DeclareArgs {
    pub contract: String,
}

/// An account deployment.
#[derive(Clone, Debug)]
pub struct DeployArgs {
    pub class_hash: String,
    pub salt: i32,
    pub inputs: Option<Vec<i32>>,
}

/// A contract invocation; `abi` is the path of the ABI file.
#[derive(Clone, Debug)]
pub struct InvokeArgs {
    pub address: String,
    pub abi: String,
    pub function: String,
    pub inputs: Option<Vec<i32>>,
    pub url: String,
}

/// Build the declare envelope for an artifact already read from disk:
/// succeeds, with a well-formed envelope, exactly when the artifact text
/// derives a class hash.
pub fn declare_transaction(program: String) -> (r: Result<Transaction, HashingError>)
    ensures
        r is Ok <==> spec_tx_hash(TxTypeView::Declare { program: program@ }) is Some,
        r matches Ok(env) ==> integrity_holds(env) && (env.transaction_type matches
            TransactionType::Declare { program: p } && p@ == program@),
        r matches Err(e) ==> e == HashingError::InvalidContractClass,
{
    Transaction::with_type(TransactionType::Declare { program })
}

/// Build the deploy-account envelope from its arguments: succeeds, with a
/// well-formed envelope, exactly when the class-hash string is a valid
/// field element.
pub fn deploy_transaction(args: DeployArgs) -> (r: Result<Transaction, HashingError>)
    ensures
        r is Ok <==> deploy_address_bytes_of(
            args.salt,
            args.class_hash@,
            spec_calldata(view_inputs(args.inputs)),
        ) is Some,
        r matches Ok(env) ==> integrity_holds(env) && (env.transaction_type matches
            TransactionType::DeployAccount { class_hash: c, salt: s, inputs: i } && c@
            == args.class_hash@ && s == args.salt && view_inputs(i) == view_inputs(args.inputs)),
        r matches Err(e) ==> e == HashingError::InvalidDeployment,
{
    Transaction::with_type(
        TransactionType::DeployAccount {
            class_hash: args.class_hash,
            salt: args.salt,
            inputs: args.inputs,
        },
    )
}

/// Build the invoke envelope from its arguments; an invocation's hash always
/// derives, so this always succeeds with a well-formed envelope.
pub fn invoke_transaction(args: InvokeArgs) -> (r: Result<Transaction, HashingError>)
    ensures
        r is Ok,
        r matches Ok(env) ==> integrity_holds(env) && (env.transaction_type matches
            TransactionType::Invoke { address: a, abi: ab, function: f, inputs: i } && a@
            == args.address@ && ab@ == args.abi@ && f@ == args.function@ && view_inputs(i)
            == view_inputs(args.inputs)),
{
    Transaction::with_type(
        TransactionType::Invoke {
            address: args.address,
            abi: args.abi,
            function: args.function,
            inputs: args.inputs,
        },
    )
}

/// The attribute key under which committed transactions are searchable
/// through the engine's event-search interface.
pub fn tx_search_key() -> (key: String)
    ensures
        key@ == "app.tx_id"@,
{
    String::from_str("app.tx_id")
}

/// The search key the client queries under is exactly the indexing event's
/// kind and attribute key joined by a dot, so a committed transaction is
/// discoverable under the very attribute `deliver_tx` emits.
pub proof fn lemma_search_key_matches_index_event()
    ensures
        "app.tx_id"@ == "app"@ + "."@ + "tx_id"@,
{
    reveal_strlit("app.tx_id");
    reveal_strlit("app");
    reveal_strlit(".");
    reveal_strlit("tx_id");
    assert("app.tx_id"@ =~= "app"@ + "."@ + "tx_id"@);
}

} // verus!
