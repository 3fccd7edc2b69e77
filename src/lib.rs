//! Installation and deployment of contract modules on a ledger: content
//! addressing, contract-id derivation, single-operation transactions, an
//! offline ledger state and the decisions of a deployment session.

pub mod addressing;
pub mod deploy;
pub mod error;
pub mod hexcodec;
pub mod sandbox;
pub mod session;
pub mod strkey;
pub mod tokenizer;
pub mod transaction;
