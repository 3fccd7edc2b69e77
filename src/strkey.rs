//! Checksummed identifiers: rendering contract and account keys as strkeys
//! through `stellar_strkey`, and reading a contract or module identifier
//! written either as a strkey or as hex.

use vstd::prelude::*;
use vstd::string::StringSliceAdditionalSpecFns;
use crate::hexcodec::{padded_hex32, padded_hex_spec};

verus! {

/// The contract strkey ("C...") of a 32-byte contract identifier.
pub uninterp spec fn contract_strkey_of(id: Seq<u8>) -> Seq<char>;

/// The account strkey ("G...") of a 32-byte ed25519 public key.
pub uninterp spec fn account_strkey_of(key: Seq<u8>) -> Seq<char>;

/// The 32-byte payload of a contract strkey, or `None` where the text is not
/// one (bad base32, bad checksum, another version byte, another length).
pub uninterp spec fn contract_strkey_payload(text: Seq<u8>) -> Option<Seq<u8>>;

/// Relies on `stellar_strkey::Contract`'s `Display`: the checksummed strkey
/// of a contract identifier.
#[verifier::external_body]
fn encode_contract_strkey(id: &[u8; 32]) -> (r: String)
    ensures
        r@ == contract_strkey_of(id@),
{
    format!("{}", stellar_strkey::Contract(*id))
}

/// Relies on `stellar_strkey::ed25519::PublicKey`'s `Display`: the
/// checksummed strkey of an account's public key.
#[verifier::external_body]
fn encode_account_strkey(key: &[u8; 32]) -> (r: String)
    ensures
        r@ == account_strkey_of(key@),
{
    format!("{}", stellar_strkey::ed25519::PublicKey(*key))
}

/// Relies on `stellar_strkey::Contract::from_string`: the payload of a
/// valid contract strkey, an error otherwise.
#[verifier::external_body]
fn decode_contract_strkey(text: &str) -> (r: Option<[u8; 32]>)
    ensures
        r matches Some(a) ==> contract_strkey_payload(text.spec_bytes()) == Some(a@),
        r is None ==> contract_strkey_payload(text.spec_bytes()) is None,
{
    stellar_strkey::Contract::from_string(text).ok().map(|c| c.0)
}

/// The strkey of a contract identifier, as shown to users.
pub fn contract_strkey(id: &[u8; 32]) -> (r: String)
    ensures
        r@ == contract_strkey_of(id@),
{
    encode_contract_strkey(id)
}

/// The strkey of an account's public key, by which the account is fetched.
pub fn account_strkey(key: &[u8; 32]) -> (r: String)
    ensures
        r@ == account_strkey_of(key@),
{
    encode_account_strkey(key)
}

/// What reading `text` as a 32-byte identifier gives: the payload of a
/// contract strkey, or else the bytes of a hex string of at most 64 digits,
/// zero-padded on the left.
pub open spec fn identifier_spec(text: Seq<u8>) -> Option<Seq<u8>> {
    match contract_strkey_payload(text) {
        Some(p) => Some(p),
        None => padded_hex_spec(text, 32),
    }
}

/// Reads a contract or module identifier written as a contract strkey or as
/// (short) hex.
pub fn contract_id_from_str(text: &str) -> (r: Option<[u8; 32]>)
    ensures
        r matches Some(a) ==> identifier_spec(text.spec_bytes()) == Some(a@),
        r is None ==> identifier_spec(text.spec_bytes()) is None,
{
    match decode_contract_strkey(text) {
        Some(a) => Some(a),
        None => padded_hex32(text),
    }
}

} // verus!
