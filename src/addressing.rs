//! Content addressing: the hash of a module, the network identifier of a
//! passphrase, and the identifier of a contract created from a source
//! account with a salt.

use vstd::prelude::*;
use vstd::string::StringSliceAdditionalSpecFns;
use sha2::Digest;

verus! {

/// The SHA-256 digest of a byte string.
pub uninterp spec fn sha256_of(data: Seq<u8>) -> Seq<u8>;

/// Relies on `sha2::Sha256::digest`: the 32-byte SHA-256 digest of `data`.
#[verifier::external_body]
fn sha256(data: &[u8]) -> (r: [u8; 32])
    ensures
        r@ == sha256_of(data@),
{
    sha2::Sha256::digest(data).into()
}

/// Envelope type that tags a contract-id preimage built from a source
/// account and a salt.
pub const ENVELOPE_TYPE_CONTRACT_ID_FROM_SOURCE_ACCOUNT: u8 = 11;

/// Public-key type of an ed25519 account.
pub const PUBLIC_KEY_TYPE_ED25519: u8 = 0;

/// The content address of a module.
pub open spec fn module_hash_of(module: Seq<u8>) -> Seq<u8> {
    sha256_of(module)
}

/// The network identifier of a network passphrase.
pub open spec fn network_id_of(passphrase: Seq<u8>) -> Seq<u8> {
    sha256_of(passphrase)
}

/// XDR encoding of a "contract id from source account" preimage: the
/// four-byte envelope type, the network id, the account as a four-byte key
/// type followed by its ed25519 key, then the salt.
pub open spec fn contract_id_preimage_of(network_id: Seq<u8>, account: Seq<u8>, salt: Seq<u8>) -> Seq<u8> {
    seq![0u8, 0u8, 0u8, ENVELOPE_TYPE_CONTRACT_ID_FROM_SOURCE_ACCOUNT] + network_id
        + seq![0u8, 0u8, 0u8, PUBLIC_KEY_TYPE_ED25519] + account + salt
}

/// The identifier of the contract that `account` creates with `salt` on the
/// network `network_id`.
pub open spec fn contract_id_of(network_id: Seq<u8>, account: Seq<u8>, salt: Seq<u8>) -> Seq<u8> {
    sha256_of(contract_id_preimage_of(network_id, account, salt))
}

/// Content address of a module: the SHA-256 digest of its bytes.
pub fn hash_module(module: &[u8]) -> (r: [u8; 32])
    ensures
        r@ == module_hash_of(module@),
{
    sha256(module)
}

/// Network identifier: the SHA-256 digest of the passphrase's bytes.
pub fn network_id(passphrase: &str) -> (r: [u8; 32])
    ensures
        r@ == network_id_of(passphrase.spec_bytes()),
{
    sha256(passphrase.as_bytes())
}

fn push_bytes(out: &mut Vec<u8>, bytes: &[u8; 32])
    ensures
        final(out)@ == old(out)@ + bytes@,
{
    let mut i: usize = 0;
    while i < 32
        invariant
            i <= 32,
            bytes@.len() == 32,
            out@ == old(out)@ + bytes@.subrange(0, i as int),
        decreases 32 - i,
    {
        out.push(bytes[i]);
        i = i + 1;
        assert(bytes@.subrange(0, i as int) =~= bytes@.subrange(0, i - 1).push(bytes@[i - 1]));
        assert(out@ =~= old(out)@ + bytes@.subrange(0, i as int));
    }
    assert(bytes@.subrange(0, 32) =~= bytes@);
}

/// The binary preimage whose digest is a contract's identifier.
pub fn contract_id_preimage(network_id: &[u8; 32], account: &[u8; 32], salt: &[u8; 32]) -> (r: Vec<u8>)
    ensures
        r@ == contract_id_preimage_of(network_id@, account@, salt@),
        r@.len() == 104,
{
    let mut out: Vec<u8> = Vec::new();
    out.push(0u8);
    out.push(0u8);
    out.push(0u8);
    out.push(ENVELOPE_TYPE_CONTRACT_ID_FROM_SOURCE_ACCOUNT);
    push_bytes(&mut out, network_id);
    out.push(0u8);
    out.push(0u8);
    out.push(0u8);
    out.push(PUBLIC_KEY_TYPE_ED25519);
    push_bytes(&mut out, account);
    push_bytes(&mut out, salt);
    assert(out@ =~= contract_id_preimage_of(network_id@, account@, salt@));
    out
}

/// Identifier of the contract that `account` creates with `salt` on the
/// network `network_id`: the digest of the preimage of the three.
pub fn derive_contract_id(network_id: &[u8; 32], account: &[u8; 32], salt: &[u8; 32]) -> (r: [u8; 32])
    ensures
        r@ == contract_id_of(network_id@, account@, salt@),
{
    let preimage = contract_id_preimage(network_id, account, salt);
    sha256(preimage.as_slice())
}

/// Equal modules have equal content addresses.
pub proof fn lemma_module_hash_deterministic(m1: Seq<u8>, m2: Seq<u8>)
    requires
        m1 == m2,
    ensures
        module_hash_of(m1) == module_hash_of(m2),
{
}

/// Contract-id derivation is a function of the network id, the account and
/// the salt: equal triples give equal identifiers.
pub proof fn lemma_contract_id_deterministic(
    n1: Seq<u8>, a1: Seq<u8>, s1: Seq<u8>,
    n2: Seq<u8>, a2: Seq<u8>, s2: Seq<u8>,
)
    requires
        n1 == n2,
        a1 == a2,
        s1 == s2,
    ensures
        contract_id_of(n1, a1, s1) == contract_id_of(n2, a2, s2),
{
}

/// The preimage is injective in its three 32-byte inputs: two triples that
/// differ in any one place have different preimages, so their identifiers
/// differ unless SHA-256 collides.
pub proof fn lemma_contract_id_preimage_injective(
    n1: Seq<u8>, a1: Seq<u8>, s1: Seq<u8>,
    n2: Seq<u8>, a2: Seq<u8>, s2: Seq<u8>,
)
    requires
        n1.len() == 32 && a1.len() == 32 && s1.len() == 32,
        n2.len() == 32 && a2.len() == 32 && s2.len() == 32,
        contract_id_preimage_of(n1, a1, s1) == contract_id_preimage_of(n2, a2, s2),
    ensures
        n1 == n2,
        a1 == a2,
        s1 == s2,
{
    let p1 = contract_id_preimage_of(n1, a1, s1);
    let p2 = contract_id_preimage_of(n2, a2, s2);
    assert(n1 =~= p1.subrange(4, 36));
    assert(n2 =~= p2.subrange(4, 36));
    assert(a1 =~= p1.subrange(40, 72));
    assert(a2 =~= p2.subrange(40, 72));
    assert(s1 =~= p1.subrange(72, 104));
    assert(s2 =~= p2.subrange(72, 104));
}

} // verus!
