use soroban_deploy::addressing::{derive_contract_id, hash_module, network_id};
use soroban_deploy::deploy::{Cmd, Config, Network, UploadCmd};
use soroban_deploy::error::Error;
use soroban_deploy::session::{next_sequence, Action, Event, Outcome, Phase, Submission};
use soroban_deploy::strkey::{account_strkey, contract_strkey};
use soroban_deploy::transaction::{
    build_create_contract_tx, build_install_contract_code_tx, HostFunction, CONTRACT_CODE_LIMIT,
};

const TESTNET: &str = "Test SDF Network ; September 2015";
const DEADBEEF_HASH: &str = "5f78c33274e43fa9de5659265c1d917e25c03722dcb0b8d27db8d5feaa813953";
const KEY: [u8; 32] = [7u8; 32];

fn network() -> Network {
    Network {
        rpc_url: String::from("http://localhost:8000/soroban/rpc"),
        network_passphrase: String::from(TESTNET),
        public_key: KEY,
    }
}

fn deploy_cmd(wasm: Option<Vec<u8>>, wasm_hash: Option<&str>, salt: Option<&str>) -> Cmd {
    Cmd {
        wasm,
        wasm_hash: wasm_hash.map(String::from),
        contract_id: None,
        salt: salt.map(String::from),
        config: Config { network: Some(network()) },
        fee: 100,
    }
}

fn one_salt() -> [u8; 32] {
    let mut s = [0u8; 32];
    s[31] = 1;
    s
}

#[test]
fn install_transaction_shape() {
    let (tx, hash) = build_install_contract_code_tx(vec![0xDE, 0xAD, 0xBE, 0xEF], 42, 100, &KEY).unwrap();
    assert_eq!(hash, hash_module(&[0xDE, 0xAD, 0xBE, 0xEF]));
    assert_eq!(tx.source_account, KEY);
    assert_eq!(tx.fee, 100);
    assert_eq!(tx.seq_num, 42);
    assert_eq!(tx.memo, None);
    assert_eq!(tx.time_bounds, None);
    assert_eq!(tx.operations.len(), 1);
    assert_eq!(tx.operations[0].source_account, Some(KEY));
    assert_eq!(tx.operations[0].body, HostFunction::UploadContractWasm { code: vec![0xDE, 0xAD, 0xBE, 0xEF] });
}

#[test]
fn oversized_module_does_not_encode() {
    assert!(build_install_contract_code_tx(vec![0u8; CONTRACT_CODE_LIMIT], 1, 100, &KEY).is_ok());
    assert_eq!(
        build_install_contract_code_tx(vec![0u8; CONTRACT_CODE_LIMIT + 1], 1, 100, &KEY).unwrap_err(),
        Error::Xdr
    );
}

#[test]
fn create_transaction_shape() {
    let h = hash_module(&[1, 2, 3]);
    let (tx, id) = build_create_contract_tx(h, 43, 200, TESTNET, one_salt(), &KEY).unwrap();
    assert_eq!(id, derive_contract_id(&network_id(TESTNET), &KEY, &one_salt()));
    assert_eq!(tx.source_account, KEY);
    assert_eq!(tx.fee, 200);
    assert_eq!(tx.seq_num, 43);
    assert_eq!(tx.memo, None);
    assert_eq!(tx.time_bounds, None);
    assert_eq!(tx.operations.len(), 1);
    assert_eq!(tx.operations[0].source_account, None);
    assert_eq!(tx.operations[0].body, HostFunction::CreateContract { salt: one_salt(), wasm_hash: h });
}

#[test]
fn sequence_numbers() {
    assert_eq!(next_sequence(41), Some(42));
    assert_eq!(next_sequence(-1), Some(0));
    assert_eq!(next_sequence(i64::MAX), None);
}

#[test]
fn stale_sequence_surfaces_as_submission_failure() {
    let cmd = deploy_cmd(None, Some(DEADBEEF_HASH), Some("01"));
    let (mut session, action) = cmd.start_against_rpc_server(network());
    match action {
        Action::FetchAccount { account } => assert_eq!(account, account_strkey(&KEY)),
        other => panic!("unexpected action {:?}", other),
    }
    let event = Event::AccountFetched(Ok(41));
    assert!(session.phase.accepts(&event));
    let tx = match session.step(event) {
        Action::Submit { tx } => tx,
        other => panic!("unexpected action {:?}", other),
    };
    assert_eq!(tx.seq_num, 42);
    let event = Event::Submitted(Submission::Rejected(String::from("tx_bad_seq")));
    assert!(session.phase.accepts(&event));
    match session.step(event) {
        Action::Finish(r) => assert_eq!(
            r,
            Err(Error::SubmissionFailure { message: String::from("tx_bad_seq") })
        ),
        other => panic!("unexpected action {:?}", other),
    }
    assert!(matches!(session.phase, Phase::Done));
    assert!(!session.phase.accepts(&Event::Submitted(Submission::Confirmed)));
    assert!(!session.phase.accepts(&Event::AccountFetched(Ok(42))));
}

#[test]
fn preparation_failure_is_reported_distinctly() {
    let cmd = deploy_cmd(None, Some(DEADBEEF_HASH), Some("01"));
    let (mut session, _) = cmd.start_against_rpc_server(network());
    session.step(Event::AccountFetched(Ok(1)));
    match session.step(Event::Submitted(Submission::PreparationFailed(String::from("footprint")))) {
        Action::Finish(r) => assert_eq!(
            r,
            Err(Error::TransactionPreparationFailure { message: String::from("footprint") })
        ),
        other => panic!("unexpected action {:?}", other),
    }
}

#[test]
fn account_lookup_failure_ends_the_session() {
    let upload = UploadCmd { config: Config { network: Some(network()) }, fee: 100, wasm: vec![1] };
    let (mut session, _) = upload.start_against_rpc_server(network());
    match session.step(Event::AccountFetched(Err(String::from("not found")))) {
        Action::Finish(r) => assert_eq!(r, Err(Error::AccountLookupFailure { message: String::from("not found") })),
        other => panic!("unexpected action {:?}", other),
    }
    assert!(matches!(session.phase, Phase::Done));
}

#[test]
fn missing_module_source_ends_before_any_request() {
    let cmd = deploy_cmd(None, None, None);
    let (session, action) = cmd.start_against_rpc_server(network());
    assert!(matches!(session.phase, Phase::Done));
    match action {
        Action::Finish(r) => assert_eq!(r, Err(Error::WasmNotProvided)),
        other => panic!("unexpected action {:?}", other),
    }
}

#[test]
fn malformed_salt_ends_before_any_request() {
    let cmd = deploy_cmd(None, Some(DEADBEEF_HASH), Some("salty"));
    let (_, action) = cmd.start_against_rpc_server(network());
    match action {
        Action::Finish(r) => assert_eq!(r, Err(Error::CannotParseSalt { salt: String::from("salty") })),
        other => panic!("unexpected action {:?}", other),
    }
}

fn deploy_with_salt_01() -> String {
    let cmd = deploy_cmd(None, Some(DEADBEEF_HASH), Some("01"));
    let (mut session, _) = cmd.start_against_rpc_server(network());
    session.step(Event::AccountFetched(Ok(5)));
    match session.step(Event::Submitted(Submission::Confirmed)) {
        Action::Finish(Ok(Outcome::Deployed { contract_id })) => contract_id,
        other => panic!("unexpected action {:?}", other),
    }
}

#[test]
fn same_salt_account_and_network_give_the_same_contract() {
    let first = deploy_with_salt_01();
    let second = deploy_with_salt_01();
    assert_eq!(first, second);
    let expected = derive_contract_id(&network_id(TESTNET), &KEY, &one_salt());
    assert_eq!(first, contract_strkey(&expected));
}

#[test]
fn install_then_deploy_refetches_the_account() {
    let cmd = deploy_cmd(Some(vec![0xDE, 0xAD, 0xBE, 0xEF]), None, Some("01"));
    let (mut session, _) = cmd.start_against_rpc_server(network());
    let install = match session.step(Event::AccountFetched(Ok(10))) {
        Action::Submit { tx } => tx,
        other => panic!("unexpected action {:?}", other),
    };
    assert_eq!(install.seq_num, 11);
    match session.step(Event::Submitted(Submission::Confirmed)) {
        Action::FetchAccount { account } => assert_eq!(account, account_strkey(&KEY)),
        other => panic!("unexpected action {:?}", other),
    }
    let create = match session.step(Event::AccountFetched(Ok(11))) {
        Action::Submit { tx } => tx,
        other => panic!("unexpected action {:?}", other),
    };
    assert_eq!(create.seq_num, 12);
    assert_eq!(
        create.operations[0].body,
        HostFunction::CreateContract { salt: one_salt(), wasm_hash: hash_module(&[0xDE, 0xAD, 0xBE, 0xEF]) }
    );
}

#[test]
fn install_only_session_reports_the_hash() {
    let upload = UploadCmd { config: Config { network: Some(network()) }, fee: 100, wasm: vec![0xDE, 0xAD, 0xBE, 0xEF] };
    let (mut session, _) = upload.start_against_rpc_server(network());
    session.step(Event::AccountFetched(Ok(1)));
    match session.step(Event::Submitted(Submission::Confirmed)) {
        Action::Finish(Ok(Outcome::Installed { wasm_hash })) => assert_eq!(hex::encode(wasm_hash), DEADBEEF_HASH),
        other => panic!("unexpected action {:?}", other),
    }
}

#[test]
fn exhausted_sequence_does_not_encode() {
    let cmd = deploy_cmd(None, Some(DEADBEEF_HASH), Some("01"));
    let (mut session, _) = cmd.start_against_rpc_server(network());
    match session.step(Event::AccountFetched(Ok(i64::MAX))) {
        Action::Finish(r) => assert_eq!(r, Err(Error::Xdr)),
        other => panic!("unexpected action {:?}", other),
    }
}
