//! Trusted boundary to the execution engine: the deterministic hash
//! derivations that the envelope delegates to the starknet-core crate.
//!
//! Each result is a pure function of its arguments; what exactly it is stays
//! an uninterpreted name, since stating it would amount to restating the
//! engine's hashing algorithms.

use vstd::prelude::*;

verus! {

/// The view of an optional calldata vector.
pub open spec fn view_inputs(inputs: Option<Vec<i32>>) -> Option<Seq<i32>> {
    match inputs {
        Option::Some(v) => Option::Some(v@),
        Option::None => Option::None,
    }
}

/// The class hash of a Cairo contract-class artifact, as 32 big-endian
/// bytes; `None` exactly when the artifact text is malformed.
pub uninterp spec fn class_hash_bytes_of(program: Seq<char>) -> Option<Seq<u8>>;

/// Relies on starknet-core: serde parsing of `program` as a legacy
/// contract-class artifact, and `LegacyContractClass::class_hash`, a pure
/// function of the artifact. The hash is a 32-byte field element.
#[verifier::external_body]
pub fn class_hash_bytes(program: &str) -> (r: Option<Vec<u8>>)
    ensures
        r is Some <==> class_hash_bytes_of(program@) is Some,
        r matches Some(bytes) ==> Some(bytes@) == class_hash_bytes_of(program@) && bytes@.len()
            == 32,
{
    let class: starknet_core::types::contract::legacy::LegacyContractClass = serde_json::from_str(
        program,
    ).ok()?;
    let hash = class.class_hash().ok()?;
    Some(hash.to_bytes_be().to_vec())
}

/// The deployment address derived from `(salt, class_hash, calldata)` with
/// deployer address zero, as 32 big-endian bytes; `None` exactly when the
/// class-hash string is not a valid hexadecimal field element.
pub uninterp spec fn deploy_address_bytes_of(
    salt: i32,
    class_hash: Seq<char>,
    calldata: Seq<i32>,
) -> Option<Seq<u8>>;

/// Relies on starknet-core's `get_contract_address`, a pure function of
/// `(salt, class_hash, constructor calldata, deployer)`; the deployer is
/// fixed to zero. `Felt::from_hex` converts the class-hash string and fails
/// exactly on malformed input.
#[verifier::external_body]
pub fn deploy_address_bytes(salt: i32, class_hash: &str, calldata: &Vec<i32>) -> (r: Option<
    Vec<u8>,
>)
    ensures
        r is Some <==> deploy_address_bytes_of(salt, class_hash@, calldata@) is Some,
        r matches Some(bytes) ==> Some(bytes@) == deploy_address_bytes_of(
            salt,
            class_hash@,
            calldata@,
        ) && bytes@.len() == 32,
{
    let class_hash = starknet_core::types::Felt::from_hex(class_hash).ok()?;
    let data: std::vec::Vec<starknet_core::types::Felt> = calldata.iter().map(
        |n: &i32| starknet_core::types::Felt::from(*n),
    ).collect();
    let address = starknet_core::utils::get_contract_address(
        starknet_core::types::Felt::from(salt),
        class_hash,
        &data,
        starknet_core::types::Felt::ZERO,
    );
    Some(address.to_bytes_be().to_vec())
}

/// The hash an invocation derives to: a rendering of the target address,
/// function, and inputs. A pure function of those three values.
pub uninterp spec fn invoke_hash_of(
    address: Seq<char>,
    function: Seq<char>,
    inputs: Option<Seq<i32>>,
) -> Seq<char>;

/// Relies on std's `format!`: a deterministic rendering of the call's
/// address, function, and inputs, identical across replicas for identical
/// values.
#[verifier::external_body]
pub fn invoke_hash(address: &str, function: &str, inputs: &Option<Vec<i32>>) -> (r: String)
    ensures
        r@ == invoke_hash_of(address@, function@, view_inputs(*inputs)),
{
    format!("Invoked {} with inputs {:?} for contract in address {}", function, inputs, address)
}

} // verus!
