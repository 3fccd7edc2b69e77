//! Unsigned transactions that carry exactly one operation: installing a
//! module, or creating a contract instance from an installed module.

use vstd::prelude::*;
use vstd::string::StringSliceAdditionalSpecFns;
use crate::addressing::{contract_id_of, derive_contract_id, hash_module, module_hash_of, network_id, network_id_of};
use crate::error::Error;

verus! {

/// The largest module, in bytes, that an install operation can carry.
pub const CONTRACT_CODE_LIMIT: usize = 256000;

/// The host function that an operation invokes.
#[derive(Debug, Clone, PartialEq, Eq)]
pub enum HostFunction {
    /// Install module bytes on the ledger.
    UploadContractWasm { code: Vec<u8> },
    /// Create a contract instance of an installed module, its identifier
    /// keyed by the source account and `salt`.
    CreateContract { salt: [u8; 32], wasm_hash: [u8; 32] },
}

/// One operation: an optional source account overriding the transaction's,
/// and the host function it invokes.
#[derive(Debug, Clone, PartialEq, Eq)]
pub struct Operation {
    pub source_account: Option<[u8; 32]>,
    pub body: HostFunction,
}

/// An unsigned transaction.
#[derive(Debug, Clone, PartialEq, Eq)]
pub struct Transaction {
    /// The ed25519 public key of the submitting account.
    pub source_account: [u8; 32],
    pub fee: u32,
    pub seq_num: i64,
    /// A text memo; the builders here never set one.
    pub memo: Option<String>,
    /// Time bounds (min, max); the builders here never set them.
    pub time_bounds: Option<(u64, u64)>,
    pub operations: Vec<Operation>,
}

/// `tx` is a plain transaction of `key` at `sequence` with `fee`: no memo,
/// no preconditions, exactly one operation.
pub open spec fn is_single_op_tx(tx: Transaction, sequence: i64, fee: u32, key: Seq<u8>) -> bool {
    &&& tx.source_account@ == key
    &&& tx.fee == fee
    &&& tx.seq_num == sequence
    &&& tx.memo is None
    &&& tx.time_bounds is None
    &&& tx.operations@.len() == 1
}

/// `tx` installs `module` as `key`, at `sequence` with `fee`.
pub open spec fn is_install_tx(tx: Transaction, module: Seq<u8>, sequence: i64, fee: u32, key: Seq<u8>) -> bool {
    &&& is_single_op_tx(tx, sequence, fee, key)
    &&& tx.operations@[0].source_account matches Some(a) && a@ == key
    &&& tx.operations@[0].body matches HostFunction::UploadContractWasm { code } && code@ == module
}

/// `tx` creates, as `key`, an instance of the module `wasm_hash` keyed by
/// `salt`, at `sequence` with `fee`.
pub open spec fn is_create_tx(
    tx: Transaction,
    wasm_hash: Seq<u8>,
    sequence: i64,
    fee: u32,
    salt: Seq<u8>,
    key: Seq<u8>,
) -> bool {
    &&& is_single_op_tx(tx, sequence, fee, key)
    &&& tx.operations@[0].source_account is None
    &&& tx.operations@[0].body matches HostFunction::CreateContract { salt: s, wasm_hash: h }
        && s@ == salt && h@ == wasm_hash
}

/// Builds the transaction that installs `contract` as `key`, with the
/// module's content address. A module over the install limit does not fit
/// the operation's encoding.
pub fn build_install_contract_code_tx(
    contract: Vec<u8>,
    sequence: i64,
    fee: u32,
    key: &[u8; 32],
) -> (r: Result<(Transaction, [u8; 32]), Error>)
    ensures
        contract@.len() > CONTRACT_CODE_LIMIT <==> r is Err,
        r is Err ==> r == Err::<(Transaction, [u8; 32]), Error>(Error::Xdr),
        r matches Ok((tx, hash)) ==> {
            &&& is_install_tx(tx, contract@, sequence, fee, key@)
            &&& hash@ == module_hash_of(contract@)
        },
{
    let hash = hash_module(contract.as_slice());
    if contract.len() > CONTRACT_CODE_LIMIT {
        return Err(Error::Xdr);
    }
    let op = Operation {
        source_account: Some(*key),
        body: HostFunction::UploadContractWasm { code: contract },
    };
    let mut operations: Vec<Operation> = Vec::new();
    operations.push(op);
    let tx = Transaction {
        source_account: *key,
        fee,
        seq_num: sequence,
        memo: None,
        time_bounds: None,
        operations,
    };
    Ok((tx, hash))
}

/// Builds the transaction that creates, as `key`, an instance of the module
/// `hash` keyed by `salt`, with the identifier that the instance will have
/// on the network named by `network_passphrase`.
pub fn build_create_contract_tx(
    hash: [u8; 32],
    sequence: i64,
    fee: u32,
    network_passphrase: &str,
    salt: [u8; 32],
    key: &[u8; 32],
) -> (r: Result<(Transaction, [u8; 32]), Error>)
    ensures
        r matches Ok((tx, id)) && {
            &&& is_create_tx(tx, hash@, sequence, fee, salt@, key@)
            &&& id@ == contract_id_of(network_id_of(network_passphrase.spec_bytes()), key@, salt@)
        },
{
    let network = network_id(network_passphrase);
    let contract_id = derive_contract_id(&network, key, &salt);
    let op = Operation {
        source_account: None,
        body: HostFunction::CreateContract { salt, wasm_hash: hash },
    };
    let mut operations: Vec<Operation> = Vec::new();
    operations.push(op);
    let tx = Transaction {
        source_account: *key,
        fee,
        seq_num: sequence,
        memo: None,
        time_bounds: None,
        operations,
    };
    Ok((tx, contract_id))
}

} // verus!
