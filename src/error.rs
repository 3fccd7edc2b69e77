//! Errors of installation and deployment.

use vstd::prelude::*;

verus! {

/// Why an installation or a deployment failed.
#[derive(Debug, Clone, PartialEq, Eq)]
pub enum Error {
    /// The salt is not a hex string of at most 32 bytes.
    CannotParseSalt { salt: String },
    /// The explicit contract identifier is neither a contract strkey nor hex.
    CannotParseContractId { contract_id: String },
    /// The module hash is neither a strkey nor hex of at most 32 bytes.
    CannotParseWasmHash { wasm_hash: String },
    /// Neither module bytes nor a module hash were supplied.
    WasmNotProvided,
    /// A value does not fit its binary encoding (an oversized module, a
    /// sequence number past the largest one).
    Xdr,
    /// The account could not be fetched.
    AccountLookupFailure { message: String },
    /// Preparing the transaction failed before it was signed: nothing reached
    /// the ledger.
    TransactionPreparationFailure { message: String },
    /// The signed transaction was rejected or not confirmed.
    SubmissionFailure { message: String },
    /// The offline ledger state could not be loaded or saved.
    StorageFailure { message: String },
}

} // verus!
