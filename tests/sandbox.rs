use std::collections::HashSet;

use soroban_deploy::addressing::hash_module;
use soroban_deploy::deploy::{create_instance, Cmd, Config, Plan, UploadCmd};
use soroban_deploy::error::Error;
use soroban_deploy::sandbox::LedgerState;
use soroban_deploy::strkey::{contract_id_from_str, contract_strkey};

const DEADBEEF_HASH: &str = "5f78c33274e43fa9de5659265c1d917e25c03722dcb0b8d27db8d5feaa813953";
const ID_ELEVENS: &str = "CAIRCEIRCEIRCEIRCEIRCEIRCEIRCEIRCEIRCEIRCEIRCEIRCEIRDB3V";

fn offline() -> Config {
    Config { network: None }
}

fn deploy_cmd(wasm: Option<Vec<u8>>, wasm_hash: Option<&str>, contract_id: Option<&str>) -> Cmd {
    Cmd {
        wasm,
        wasm_hash: wasm_hash.map(String::from),
        contract_id: contract_id.map(String::from),
        salt: None,
        config: offline(),
        fee: 100,
    }
}

#[test]
fn install_twice_keeps_one_entry() {
    let mut state = LedgerState::new();
    let upload = UploadCmd { config: offline(), fee: 100, wasm: vec![1, 2, 3] };
    let h1 = upload.run_in_sandbox(&mut state, vec![1, 2, 3]).unwrap();
    assert_eq!(state.modules_len(), 1);
    let h2 = upload.run_in_sandbox(&mut state, vec![1, 2, 3]).unwrap();
    assert_eq!(h1, h2);
    assert_eq!(state.modules_len(), 1);
    assert_eq!(state.module_code(&h1), Some(vec![1, 2, 3]));
    let h3 = state.add_contract_code(vec![4, 5]);
    assert_ne!(h1, h3);
    assert_eq!(state.modules_len(), 2);
    assert_eq!(state.instances_len(), 0);
}

#[test]
fn random_instance_ids_do_not_repeat() {
    let mut state = LedgerState::new();
    let cmd = deploy_cmd(None, Some(DEADBEEF_HASH), None);
    let hash = hash_module(&[0xDE, 0xAD, 0xBE, 0xEF]);
    let mut seen = HashSet::new();
    for _ in 0..10_000 {
        let id = cmd.run_in_sandbox(&mut state, hash).unwrap();
        assert!(seen.insert(id));
    }
    assert_eq!(state.instances_len(), 10_000);
}

#[test]
fn install_then_create_with_explicit_id() {
    let mut state = LedgerState::new();
    let upload = UploadCmd { config: offline(), fee: 100, wasm: vec![0xDE, 0xAD, 0xBE, 0xEF] };
    let h = upload.run_in_sandbox(&mut state, upload.wasm.clone()).unwrap();
    assert_eq!(hex::encode(h), DEADBEEF_HASH);
    let cmd = deploy_cmd(None, None, Some(ID_ELEVENS));
    let shown = cmd.run_in_sandbox(&mut state, h).unwrap();
    assert_eq!(shown, ID_ELEVENS);
    let id = contract_id_from_str(ID_ELEVENS).unwrap();
    assert_eq!(state.lookup(&id), Some(h));
    assert_eq!(state.lookup(&[0u8; 32]), None);
}

#[test]
fn malformed_explicit_id_is_rejected_and_ledger_unchanged() {
    let mut state = LedgerState::new();
    let h = state.add_contract_code(vec![0xDE, 0xAD, 0xBE, 0xEF]);
    let cmd = deploy_cmd(None, None, Some("CONTRACT_A"));
    assert_eq!(
        cmd.run_in_sandbox(&mut state, h),
        Err(Error::CannotParseContractId { contract_id: String::from("CONTRACT_A") })
    );
    assert_eq!(state.instances_len(), 0);
}

#[test]
fn explicit_id_rebinding_replaces_the_module() {
    let mut state = LedgerState::new();
    let id = [0x11u8; 32];
    let shown = create_instance(&mut state, id, [1u8; 32]);
    assert_eq!(shown, contract_strkey(&id));
    create_instance(&mut state, id, [2u8; 32]);
    assert_eq!(state.instances_len(), 1);
    assert_eq!(state.lookup(&id), Some([2u8; 32]));
}

#[test]
fn missing_module_source_fails_before_the_ledger_is_touched() {
    let cmd = deploy_cmd(None, None, None);
    assert_eq!(cmd.plan(), Err(Error::WasmNotProvided));
    let mut state = LedgerState::new();
    state.add_contract_code(vec![9]);
    assert_eq!(cmd.deploy_in_sandbox(&mut state), Err(Error::WasmNotProvided));
    assert_eq!(state.modules_len(), 1);
    assert_eq!(state.instances_len(), 0);
}

#[test]
fn plan_prefers_module_bytes_then_parses_the_hash() {
    assert_eq!(deploy_cmd(Some(vec![1]), Some("zz"), None).plan(), Ok(Plan::Install));
    assert_eq!(
        deploy_cmd(None, Some(DEADBEEF_HASH), None).plan(),
        Ok(Plan::Deploy { wasm_hash: hash_module(&[0xDE, 0xAD, 0xBE, 0xEF]) })
    );
    assert_eq!(
        deploy_cmd(None, Some("not-a-hash"), None).plan(),
        Err(Error::CannotParseWasmHash { wasm_hash: String::from("not-a-hash") })
    );
}

#[test]
fn offline_deployment_installs_then_creates() {
    let mut state = LedgerState::new();
    let cmd = deploy_cmd(Some(vec![0xDE, 0xAD, 0xBE, 0xEF]), None, Some(ID_ELEVENS));
    assert_eq!(cmd.deploy_in_sandbox(&mut state), Ok(String::from(ID_ELEVENS)));
    let h = hash_module(&[0xDE, 0xAD, 0xBE, 0xEF]);
    assert_eq!(state.module_code(&h), Some(vec![0xDE, 0xAD, 0xBE, 0xEF]));
    assert_eq!(state.lookup(&[0x11u8; 32]), Some(h));
}

#[test]
fn salt_parsing() {
    let mut cmd = deploy_cmd(None, Some(DEADBEEF_HASH), None);
    cmd.salt = Some(String::from("01"));
    let mut expected = [0u8; 32];
    expected[31] = 1;
    assert_eq!(cmd.salt_or_random(), Ok(expected));
    cmd.salt = Some(String::from("xyz"));
    assert_eq!(cmd.salt_or_random(), Err(Error::CannotParseSalt { salt: String::from("xyz") }));
    cmd.salt = None;
    assert!(cmd.salt_or_random().is_ok());
}

#[test]
fn backend_is_chosen_by_network_configuration() {
    assert!(offline().is_no_network());
    let online = Config {
        network: Some(soroban_deploy::deploy::Network {
            rpc_url: String::from("http://localhost:8000"),
            network_passphrase: String::from("Standalone Network ; February 2017"),
            public_key: [1u8; 32],
        }),
    };
    assert!(!online.is_no_network());
}
