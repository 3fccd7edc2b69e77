//! Commands: install a module, and deploy a contract instance of a module,
//! offline against a ledger state or through a network session.

use vstd::prelude::*;
use vstd::utf8::encode_utf8;
use crate::addressing::module_hash_of;
use crate::error::Error;
use crate::hexcodec::{padded_hex32, padded_hex_spec};
use crate::sandbox::LedgerState;
use crate::strkey::{contract_id_from_str, contract_strkey, contract_strkey_of, identifier_spec};

verus! {

/// Relies on `rand::random` (the thread-local generator, seeded from the
/// operating system): 32 random bytes. Nothing is known of their value.
#[verifier::external_body]
fn random_bytes32() -> (r: [u8; 32]) {
    rand::random::<[u8; 32]>()
}

/// A network to deploy to, and the account that deploys.
#[derive(Debug, Clone)]
pub struct Network {
    pub rpc_url: String,
    pub network_passphrase: String,
    /// The ed25519 public key of the submitting account.
    pub public_key: [u8; 32],
}

/// Where commands run: on a network, or (without one) on the offline ledger.
#[derive(Debug, Clone)]
pub struct Config {
    pub network: Option<Network>,
}

impl Config {
    /// Is no network configured, so that the offline ledger is used?
    pub fn is_no_network(&self) -> (r: bool)
        ensures
            r == self.network is None,
    {
        self.network.is_none()
    }
}

/// Installs module bytes.
#[derive(Debug, Clone)]
pub struct UploadCmd {
    pub config: Config,
    pub fee: u32,
    /// The module's bytes.
    pub wasm: Vec<u8>,
}

/// Deploys a contract instance of a module given by its bytes (installed
/// first) or by its hash.
#[derive(Debug, Clone)]
pub struct Cmd {
    /// The module's bytes.
    pub wasm: Option<Vec<u8>>,
    /// The hash of an installed module, as a strkey or hex.
    pub wasm_hash: Option<String>,
    /// An explicit contract identifier (offline only).
    pub contract_id: Option<String>,
    /// A hex salt of at most 32 bytes (network only).
    pub salt: Option<String>,
    pub config: Config,
    pub fee: u32,
}

/// How a deployment obtains its module hash.
#[derive(Debug, Clone, PartialEq, Eq)]
pub enum Plan {
    /// Install the command's module bytes first.
    Install,
    /// Deploy from the given hash of an installed module.
    Deploy { wasm_hash: [u8; 32] },
}

/// Binds `id` to `wasm_hash` on the offline ledger and returns the
/// identifier's strkey.
pub fn create_instance(state: &mut LedgerState, id: [u8; 32], wasm_hash: [u8; 32]) -> (r: String)
    ensures
        final(state).instance_table() == old(state).instance_table().insert(id@, wasm_hash@),
        final(state).module_table() == old(state).module_table(),
        r@ == contract_strkey_of(id@),
{
    state.add_contract(id, wasm_hash);
    contract_strkey(&id)
}

impl UploadCmd {
    /// Installs `contract` on the offline ledger and returns its hash.
    pub fn run_in_sandbox(&self, state: &mut LedgerState, contract: Vec<u8>) -> (r: Result<[u8; 32], Error>)
        ensures
            r matches Ok(h) && old(state).installs(*final(state), contract@, h@),
    {
        Ok(state.add_contract_code(contract))
    }
}

impl Cmd {
    /// Where the module hash comes from: `Ok(None)` to install the module
    /// bytes first, `Ok(Some(h))` to deploy from the given hash `h`.
    pub open spec fn plan_spec(&self) -> Result<Option<Seq<u8>>, Error> {
        if self.wasm is Some {
            Ok(None)
        } else {
            match self.wasm_hash {
                None => Err(Error::WasmNotProvided),
                Some(s) => match identifier_spec(encode_utf8(s@)) {
                    Some(h) => Ok(Some(h)),
                    None => Err(Error::CannotParseWasmHash { wasm_hash: s }),
                },
            }
        }
    }

    /// The given salt, read as padded hex; `None` where none is given.
    pub open spec fn salt_spec(&self) -> Option<Result<Seq<u8>, Error>> {
        match self.salt {
            None => None,
            Some(s) => match padded_hex_spec(encode_utf8(s@), 32) {
                Some(b) => Some(Ok(b)),
                None => Some(Err(Error::CannotParseSalt { salt: s })),
            },
        }
    }

    /// What creating an instance of `wasm_hash` does to the instance table
    /// and returns: binds the explicit identifier, or (without one) some
    /// 32-byte identifier; a malformed explicit one changes nothing.
    pub open spec fn creates(
        &self,
        before: Map<Seq<u8>, Seq<u8>>,
        after: Map<Seq<u8>, Seq<u8>>,
        wasm_hash: Seq<u8>,
        r: Result<String, Error>,
    ) -> bool {
        match self.contract_id {
            Some(s) => match identifier_spec(encode_utf8(s@)) {
                Some(id) => (r matches Ok(t) && t@ == contract_strkey_of(id)) && after == before.insert(id, wasm_hash),
                None => r == Err::<String, Error>(Error::CannotParseContractId { contract_id: s }) && after == before,
            },
            None => exists|id: Seq<u8>| id.len() == 32
                && (r matches Ok(t) && t@ == #[trigger] contract_strkey_of(id))
                && after == before.insert(id, wasm_hash),
        }
    }

    /// Decides where the module hash comes from: the module bytes if given,
    /// else the module hash, which must read as an identifier.
    pub fn plan(&self) -> (r: Result<Plan, Error>)
        ensures
            match self.plan_spec() {
                Ok(None) => r == Ok::<Plan, Error>(Plan::Install),
                Ok(Some(h)) => r matches Ok(Plan::Deploy { wasm_hash }) && wasm_hash@ == h,
                Err(e) => r == Err::<Plan, Error>(e),
            },
    {
        if self.wasm.is_some() {
            return Ok(Plan::Install);
        }
        match &self.wasm_hash {
            None => Err(Error::WasmNotProvided),
            Some(s) => match contract_id_from_str(s.as_str()) {
                Some(h) => Ok(Plan::Deploy { wasm_hash: h }),
                None => Err(Error::CannotParseWasmHash { wasm_hash: s.clone() }),
            },
        }
    }

    /// The salt of a network deployment: the given hex salt, zero-padded on
    /// the left to 32 bytes, or else 32 random bytes.
    pub fn salt_or_random(&self) -> (r: Result<[u8; 32], Error>)
        ensures
            match self.salt_spec() {
                None => r is Ok,
                Some(Ok(b)) => r matches Ok(a) && a@ == b,
                Some(Err(e)) => r == Err::<[u8; 32], Error>(e),
            },
    {
        match &self.salt {
            Some(s) => match padded_hex32(s.as_str()) {
                Some(a) => Ok(a),
                None => Err(Error::CannotParseSalt { salt: s.clone() }),
            },
            None => Ok(random_bytes32()),
        }
    }

    /// Creates an instance of the module `wasm_hash` on the offline ledger,
    /// under the explicit identifier if one is given, else under 32 random
    /// bytes, and returns the identifier's strkey. A malformed explicit
    /// identifier leaves the ledger as it was.
    pub fn run_in_sandbox(&self, state: &mut LedgerState, wasm_hash: [u8; 32]) -> (r: Result<String, Error>)
        ensures
            final(state).module_table() == old(state).module_table(),
            self.creates(old(state).instance_table(), final(state).instance_table(), wasm_hash@, r),
    {
        let id = match &self.contract_id {
            Some(s) => match contract_id_from_str(s.as_str()) {
                Some(a) => a,
                None => {
                    return Err(Error::CannotParseContractId { contract_id: s.clone() });
                },
            },
            None => random_bytes32(),
        };
        let t = create_instance(state, id, wasm_hash);
        assert(t@ == contract_strkey_of(id@) && id@.len() == 32);
        Ok(t)
    }

    /// The whole offline deployment on one ledger state: install the module
    /// if its bytes are given, then create the instance.
    pub fn deploy_in_sandbox(&self, state: &mut LedgerState) -> (r: Result<String, Error>)
        ensures
            match self.plan_spec() {
                Err(e) => r == Err::<String, Error>(e) && *final(state) == *old(state),
                Ok(Some(h)) => final(state).module_table() == old(state).module_table()
                    && self.creates(old(state).instance_table(), final(state).instance_table(), h, r),
                Ok(None) => self.wasm matches Some(m) && final(state).module_table()
                    == old(state).module_table().insert(module_hash_of(m@), m@)
                    && self.creates(old(state).instance_table(), final(state).instance_table(), module_hash_of(m@), r),
            },
    {
        let wasm_hash = match self.plan() {
            Err(e) => {
                return Err(e);
            },
            Ok(Plan::Deploy { wasm_hash }) => wasm_hash,
            Ok(Plan::Install) => {
                let module = match &self.wasm {
                    Some(m) => m.clone(),
                    None => Vec::new(),
                };
                state.add_contract_code(module)
            },
        };
        self.run_in_sandbox(state, wasm_hash)
    }
}

} // verus!
