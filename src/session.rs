//! A deployment session against a network, as a state machine: the caller
//! performs each action (fetch the account, submit a transaction) and hands
//! back what came of it. No transaction is ever submitted again.

use vstd::prelude::*;
use vstd::utf8::encode_utf8;
use crate::addressing::{contract_id_of, module_hash_of, network_id_of};
use crate::deploy::{Cmd, Network, Plan, UploadCmd};
use crate::error::Error;
use crate::strkey::{account_strkey, account_strkey_of, contract_strkey, contract_strkey_of};
use crate::transaction::{
    build_create_contract_tx, build_install_contract_code_tx, is_create_tx, is_install_tx, Transaction,
    CONTRACT_CODE_LIMIT,
};

verus! {

/// Where a session stands.
#[derive(Debug, Clone)]
pub enum Phase {
    /// Waiting for the account, to install `module`; a deployment with
    /// `deploy_salt` follows where it is given.
    InstallAwaitingAccount { module: Vec<u8>, deploy_salt: Option<[u8; 32]> },
    /// Waiting for the outcome of the install transaction.
    InstallAwaitingSubmission { wasm_hash: [u8; 32], deploy_salt: Option<[u8; 32]> },
    /// Waiting for the account (fetched again), to create the instance.
    DeployAwaitingAccount { wasm_hash: [u8; 32], salt: [u8; 32] },
    /// Waiting for the outcome of the create transaction.
    DeployAwaitingSubmission { contract_id: [u8; 32] },
    /// Finished, successfully or not.
    Done,
}

/// The outcome of preparing, signing and sending a transaction.
#[derive(Debug, Clone, PartialEq, Eq)]
pub enum Submission {
    /// The ledger confirmed it.
    Confirmed,
    /// Preparation (simulation, footprint) failed; nothing was signed.
    PreparationFailed(String),
    /// It was signed and sent, and rejected or not confirmed (a stale
    /// sequence number among other causes).
    Rejected(String),
}

/// What the caller reports back.
#[derive(Debug)]
pub enum Event {
    /// The account's current sequence number, or why it could not be had.
    AccountFetched(Result<i64, String>),
    /// The outcome of the last submission.
    Submitted(Submission),
}

/// What a session has achieved.
#[derive(Debug, Clone, PartialEq, Eq)]
pub enum Outcome {
    /// A module was installed under this hash.
    Installed { wasm_hash: [u8; 32] },
    /// A contract instance was created; its strkey.
    Deployed { contract_id: String },
}

/// What the caller is to do next.
#[derive(Debug)]
pub enum Action {
    /// Fetch the account with this strkey.
    FetchAccount { account: String },
    /// Prepare, sign and submit this transaction.
    Submit { tx: Transaction },
    /// Stop: the session's result.
    Finish(Result<Outcome, Error>),
}

impl Phase {
    /// Does the phase wait for this kind of event?
    pub open spec fn accepts_spec(&self, event: Event) -> bool {
        match self {
            Phase::InstallAwaitingAccount { .. } | Phase::DeployAwaitingAccount { .. } => event is AccountFetched,
            Phase::InstallAwaitingSubmission { .. } | Phase::DeployAwaitingSubmission { .. } => event is Submitted,
            Phase::Done => false,
        }
    }

    /// Does the phase wait for this kind of event? `Session::step` takes
    /// only such an event.
    pub fn accepts(&self, event: &Event) -> (r: bool)
        ensures
            r == self.accepts_spec(*event),
    {
        match self {
            Phase::InstallAwaitingAccount { .. } | Phase::DeployAwaitingAccount { .. } => {
                matches!(event, Event::AccountFetched(_))
            },
            Phase::InstallAwaitingSubmission { .. } | Phase::DeployAwaitingSubmission { .. } => {
                matches!(event, Event::Submitted(_))
            },
            Phase::Done => false,
        }
    }
}

/// The error that a failed submission ends a session with (a confirmed
/// submission ends none; its arm is never taken).
pub open spec fn submission_error(s: Submission) -> Error {
    match s {
        Submission::PreparationFailed(m) => Error::TransactionPreparationFailure { message: m },
        Submission::Rejected(m) => Error::SubmissionFailure { message: m },
        Submission::Confirmed => Error::Xdr,
    }
}

fn failed_submission(s: Submission) -> (r: Error)
    requires
        !(s is Confirmed),
    ensures
        r == submission_error(s),
{
    match s {
        Submission::PreparationFailed(m) => Error::TransactionPreparationFailure { message: m },
        Submission::Rejected(m) => Error::SubmissionFailure { message: m },
        Submission::Confirmed => Error::Xdr,
    }
}

/// The sequence number of the next transaction of an account whose current
/// one is `sequence`; none past the largest.
pub fn next_sequence(sequence: i64) -> (r: Option<i64>)
    ensures
        sequence < i64::MAX ==> r == Some((sequence + 1) as i64),
        sequence == i64::MAX ==> r is None,
{
    if sequence < i64::MAX {
        Some(sequence + 1)
    } else {
        None
    }
}

/// A session with a network: the fee of its transactions, the network and
/// account, and where it stands.
#[derive(Debug, Clone)]
pub struct Session {
    pub fee: u32,
    pub network: Network,
    pub phase: Phase,
}

impl Session {
    /// Takes the caller's report on the last action and decides the next one.
    pub fn step(&mut self, event: Event) -> (r: Action)
        requires
            old(self).phase.accepts_spec(event),
        ensures
            final(self).fee == old(self).fee,
            final(self).network == old(self).network,
            // an account that cannot be fetched ends the session
            event matches Event::AccountFetched(Err(m)) ==> final(self).phase is Done
                && r == Action::Finish(Err(Error::AccountLookupFailure { message: m })),
            // a failed submission ends it, with no retry
            event matches Event::Submitted(s) ==> (!(s is Confirmed) ==> final(self).phase is Done
                && r == Action::Finish(Err(submission_error(s)))),
            // install: the transaction takes the next sequence number
            old(self).phase matches Phase::InstallAwaitingAccount { module, deploy_salt } ==> (
                event matches Event::AccountFetched(Ok(seq)) ==> (
                    if seq == i64::MAX || module@.len() > CONTRACT_CODE_LIMIT {
                        final(self).phase is Done && r == Action::Finish(Err(Error::Xdr))
                    } else {
                        (r matches Action::Submit { tx } && is_install_tx(
                            tx, module@, (seq + 1) as i64, old(self).fee, old(self).network.public_key@))
                        && (final(self).phase matches Phase::InstallAwaitingSubmission { wasm_hash, deploy_salt: s2 }
                            && wasm_hash@ == module_hash_of(module@) && s2 == deploy_salt)
                    })),
            // after an install: done, or on to the deployment with a fresh account fetch
            old(self).phase matches Phase::InstallAwaitingSubmission { wasm_hash, deploy_salt } ==> (
                event == Event::Submitted(Submission::Confirmed) ==> match deploy_salt {
                    None => final(self).phase is Done
                        && r == Action::Finish(Ok(Outcome::Installed { wasm_hash })),
                    Some(s) => final(self).phase == (Phase::DeployAwaitingAccount { wasm_hash, salt: s })
                        && (r matches Action::FetchAccount { account }
                            && account@ == account_strkey_of(old(self).network.public_key@)),
                }),
            // create: the transaction takes the next sequence number
            old(self).phase matches Phase::DeployAwaitingAccount { wasm_hash, salt } ==> (
                event matches Event::AccountFetched(Ok(seq)) ==> (
                    if seq == i64::MAX {
                        final(self).phase is Done && r == Action::Finish(Err(Error::Xdr))
                    } else {
                        (r matches Action::Submit { tx } && is_create_tx(
                            tx, wasm_hash@, (seq + 1) as i64, old(self).fee, salt@, old(self).network.public_key@))
                        && (final(self).phase matches Phase::DeployAwaitingSubmission { contract_id }
                            && contract_id@ == contract_id_of(
                                network_id_of(encode_utf8(old(self).network.network_passphrase@)),
                                old(self).network.public_key@, salt@))
                    })),
            old(self).phase matches Phase::DeployAwaitingSubmission { contract_id } ==> (
                event == Event::Submitted(Submission::Confirmed) ==> final(self).phase is Done
                    && (r matches Action::Finish(Ok(Outcome::Deployed { contract_id: t }))
                        && t@ == contract_strkey_of(contract_id@))),
    {
        let mut phase = Phase::Done;
        std::mem::swap(&mut phase, &mut self.phase);
        match (phase, event) {
            (_, Event::AccountFetched(Err(m))) => Action::Finish(Err(Error::AccountLookupFailure { message: m })),
            (Phase::InstallAwaitingAccount { module, deploy_salt }, Event::AccountFetched(Ok(seq))) => {
                let sequence: i64 = match next_sequence(seq) {
                    Some(n) => n,
                    None => {
                        return Action::Finish(Err(Error::Xdr));
                    },
                };
                let key = self.network.public_key;
                match build_install_contract_code_tx(module, sequence, self.fee, &key) {
                    Ok((tx, wasm_hash)) => {
                        self.phase = Phase::InstallAwaitingSubmission { wasm_hash, deploy_salt };
                        Action::Submit { tx }
                    },
                    Err(e) => Action::Finish(Err(e)),
                }
            },
            (Phase::DeployAwaitingAccount { wasm_hash, salt }, Event::AccountFetched(Ok(seq))) => {
                let sequence: i64 = match next_sequence(seq) {
                    Some(n) => n,
                    None => {
                        return Action::Finish(Err(Error::Xdr));
                    },
                };
                let key = self.network.public_key;
                match build_create_contract_tx(
                    wasm_hash,
                    sequence,
                    self.fee,
                    self.network.network_passphrase.as_str(),
                    salt,
                    &key,
                ) {
                    Ok((tx, contract_id)) => {
                        self.phase = Phase::DeployAwaitingSubmission { contract_id };
                        Action::Submit { tx }
                    },
                    Err(e) => Action::Finish(Err(e)),
                }
            },
            (Phase::InstallAwaitingSubmission { wasm_hash, deploy_salt }, Event::Submitted(Submission::Confirmed)) => {
                match deploy_salt {
                    None => Action::Finish(Ok(Outcome::Installed { wasm_hash })),
                    Some(s) => {
                        self.phase = Phase::DeployAwaitingAccount { wasm_hash, salt: s };
                        Action::FetchAccount { account: account_strkey(&self.network.public_key) }
                    },
                }
            },
            (Phase::DeployAwaitingSubmission { contract_id }, Event::Submitted(Submission::Confirmed)) => {
                Action::Finish(Ok(Outcome::Deployed { contract_id: contract_strkey(&contract_id) }))
            },
            (_, Event::Submitted(s)) => Action::Finish(Err(failed_submission(s))),
            (_, Event::AccountFetched(Ok(_))) => Action::Finish(Err(Error::Xdr)),
        }
    }
}

impl UploadCmd {
    /// Opens a session that installs the command's module on `network`:
    /// its first action fetches the account.
    pub fn start_against_rpc_server(&self, network: Network) -> (r: (Session, Action))
        ensures
            r.0.fee == self.fee,
            r.0.network == network,
            r.0.phase matches Phase::InstallAwaitingAccount { module, deploy_salt }
                && module@ == self.wasm@ && deploy_salt is None,
            r.1 matches Action::FetchAccount { account } && account@ == account_strkey_of(network.public_key@),
    {
        let session = Session {
            fee: self.fee,
            network,
            phase: Phase::InstallAwaitingAccount { module: self.wasm.clone(), deploy_salt: None },
        };
        proof {
            assert(self.wasm@ =~= self.wasm@);
        }
        let account = account_strkey(&session.network.public_key);
        (session, Action::FetchAccount { account })
    }
}

impl Cmd {
    /// Opens a session that deploys on `network`: it installs the module
    /// first where its bytes are given. A missing or malformed module source
    /// or salt ends it at once, before any request.
    pub fn start_against_rpc_server(&self, network: Network) -> (r: (Session, Action))
        ensures
            r.0.fee == self.fee,
            r.0.network == network,
            match (self.plan_spec(), self.salt_spec()) {
                (Err(e), _) => r.0.phase is Done && r.1 == Action::Finish(Err(e)),
                (Ok(_), Some(Err(e))) => r.0.phase is Done && r.1 == Action::Finish(Err(e)),
                (Ok(plan), given) => {
                    &&& r.1 matches Action::FetchAccount { account }
                        && account@ == account_strkey_of(network.public_key@)
                    &&& match plan {
                        None => r.0.phase matches Phase::InstallAwaitingAccount { module, deploy_salt: Some(salt) }
                            && (self.wasm matches Some(m) && module@ == m@)
                            && (given matches Some(Ok(b)) ==> salt@ == b),
                        Some(h) => r.0.phase matches Phase::DeployAwaitingAccount { wasm_hash, salt }
                            && wasm_hash@ == h
                            && (given matches Some(Ok(b)) ==> salt@ == b),
                    }
                },
            },
    {
        let mut session = Session { fee: self.fee, network, phase: Phase::Done };
        let plan = match self.plan() {
            Ok(p) => p,
            Err(e) => {
                return (session, Action::Finish(Err(e)));
            },
        };
        let salt = match self.salt_or_random() {
            Ok(s) => s,
            Err(e) => {
                return (session, Action::Finish(Err(e)));
            },
        };
        match plan {
            Plan::Install => {
                let module = match &self.wasm {
                    Some(m) => m.clone(),
                    None => Vec::new(),
                };
                session.phase = Phase::InstallAwaitingAccount { module, deploy_salt: Some(salt) };
            },
            Plan::Deploy { wasm_hash } => {
                session.phase = Phase::DeployAwaitingAccount { wasm_hash, salt };
            },
        }
        let account = account_strkey(&session.network.public_key);
        (session, Action::FetchAccount { account })
    }
}

} // verus!
