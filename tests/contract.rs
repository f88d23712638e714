use whoami_paths::contract::{
    execute_mint_path, execute_receive_cw20, execute_receive_cw721, execute_update_admin,
    execute_withdraw_root_token, instantiate,
};
use whoami_paths::error::ContractError;
use whoami_paths::msg::{
    Coin, Cw20ReceiveMsg, Cw721ReceiveMsg, Env, InstantiateMsg, MessageInfo, OutboundMsg,
    PaymentDetails, ReceiveMsg, RegistryMsg,
};
use whoami_paths::state::State;

const USER: &str = "addr1";
const ADMIN: &str = "addr2";
const REGISTRY: &str = "registry";
const TOKEN: &str = "token";
const CONTRACT: &str = "paths";
const NATIVE_DENOM: &str = "ujunox";
const INVALID_DENOM: &str = "uinvalid";

fn env(height: u64) -> Env {
    Env { height, contract_address: CONTRACT.to_string() }
}

fn info(sender: &str, funds: Vec<Coin>) -> MessageInfo {
    MessageInfo { sender: sender.to_string(), funds }
}

fn coins(amount: u128, denom: &str) -> Vec<Coin> {
    vec![Coin { denom: denom.to_string(), amount }]
}

fn native(amount: u128) -> PaymentDetails {
    PaymentDetails::Native { denom: NATIVE_DENOM.to_string(), amount }
}

fn cw20(amount: u128) -> PaymentDetails {
    PaymentDetails::Cw20 { token_address: TOKEN.to_string(), amount }
}

fn setup_test_case(payment_details: Option<PaymentDetails>) -> State {
    let msg = InstantiateMsg {
        admin: ADMIN.to_string(),
        whoami_address: REGISTRY.to_string(),
        payment_details,
        path_root_claim_blocks: None,
    };
    instantiate(&env(10), msg, true).unwrap()
}

fn transfer_name(state: &mut State, registry: &str, from: &str, token_id: &str) -> Result<Vec<OutboundMsg>, ContractError> {
    let msg = Cw721ReceiveMsg { sender: from.to_string(), token_id: token_id.to_string() };
    execute_receive_cw721(state, &info(registry, vec![]), msg)
}

fn setup_test_case_with_name(payment_details: Option<PaymentDetails>) -> State {
    let mut state = setup_test_case(payment_details);
    transfer_name(&mut state, REGISTRY, ADMIN, "root_name").unwrap();
    state
}

fn mint_path_native(state: &State, sender: &str, path: &str, funds: Vec<Coin>) -> Result<Vec<OutboundMsg>, ContractError> {
    execute_mint_path(state, &env(20), &info(sender, funds), path.to_string(), None)
}

fn mint_path_cw20(state: &State, token: &str, sender: &str, amount: u128, path: &str) -> Result<Vec<OutboundMsg>, ContractError> {
    let rcv = Cw20ReceiveMsg {
        sender: sender.to_string(),
        amount,
        msg: ReceiveMsg::MintPath { path: path.to_string() },
    };
    execute_receive_cw20(state, &env(20), &info(token, vec![]), rcv, None)
}

fn minted_to(msgs: &[OutboundMsg]) -> (String, String) {
    match &msgs[1] {
        OutboundMsg::Registry { msg: RegistryMsg::TransferNft { recipient, token_id }, .. } => {
            (recipient.clone(), token_id.clone())
        }
        other => panic!("unexpected call {:?}", other),
    }
}

#[test]
fn test_instantiate_valid() {
    let state = setup_test_case(None);
    assert_eq!(state.payment_details, None);
    assert_eq!(state.config.token_id, None);
    assert_eq!(state.config.initial_height, 10);
    let state = setup_test_case(Some(cw20(100)));
    assert_eq!(state.payment_details, Some(cw20(100)));
    let state = setup_test_case(Some(native(100)));
    assert_eq!(state.payment_details, Some(native(100)));
}

#[test]
fn test_instantiate_invalid_cw20() {
    let msg = InstantiateMsg {
        admin: ADMIN.to_string(),
        whoami_address: REGISTRY.to_string(),
        payment_details: Some(PaymentDetails::Cw20 { token_address: USER.to_string(), amount: 100 }),
        path_root_claim_blocks: None,
    };
    assert_eq!(instantiate(&env(1), msg, false), Err(ContractError::InvalidTokenReference));
}

#[test]
fn test_instantiate_invalid_cw20_amount() {
    let msg = InstantiateMsg {
        admin: ADMIN.to_string(),
        whoami_address: REGISTRY.to_string(),
        payment_details: Some(cw20(0)),
        path_root_claim_blocks: None,
    };
    assert_eq!(instantiate(&env(1), msg, true), Err(ContractError::InvalidPaymentAmount));
}

#[test]
fn test_instantiate_invalid_native_amount() {
    let msg = InstantiateMsg {
        admin: ADMIN.to_string(),
        whoami_address: REGISTRY.to_string(),
        payment_details: Some(native(0)),
        path_root_claim_blocks: None,
    };
    assert_eq!(instantiate(&env(1), msg, true), Err(ContractError::InvalidPaymentAmount));
}

#[test]
fn test_receive_root_name() {
    let mut state = setup_test_case(None);
    assert_eq!(state.config.token_id, None);
    let token_id = "root_name".to_string();
    transfer_name(&mut state, REGISTRY, ADMIN, &token_id).unwrap();
    assert_eq!(state.config.token_id, Some(token_id));
}

#[test]
fn test_receive_root_name_invalid_nft_contract() {
    let mut state = setup_test_case(None);
    assert_eq!(state.config.token_id, None);
    let r = transfer_name(&mut state, "other_registry", ADMIN, "root_name");
    assert_eq!(r, Err(ContractError::Unauthorized));
    assert_eq!(state.config.token_id, None);
}

#[test]
fn test_receive_root_name_root_name_already_set() {
    let mut state = setup_test_case(None);
    assert_eq!(state.config.token_id, None);
    let token_id = "root_name".to_string();
    transfer_name(&mut state, REGISTRY, ADMIN, &token_id).unwrap();
    assert_eq!(state.config.token_id, Some(token_id.clone()));
    let r = transfer_name(&mut state, REGISTRY, ADMIN, "already_set");
    assert_eq!(r, Err(ContractError::ExistingRootToken));
    assert_eq!(state.config.token_id, Some(token_id));
}

#[test]
fn test_receive_root_name_non_admin() {
    let mut state = setup_test_case(None);
    assert_eq!(state.config.token_id, None);
    let r = transfer_name(&mut state, REGISTRY, USER, "root_name");
    assert_eq!(r, Err(ContractError::Unauthorized));
    assert_eq!(state.config.token_id, None);
}

#[test]
fn test_update_admin() {
    let mut state = setup_test_case(None);
    assert_eq!(state.config.admin, ADMIN.to_string());
    execute_update_admin(&mut state, &info(ADMIN, vec![]), USER.to_string()).unwrap();
    assert_eq!(state.config.admin, USER.to_string());
}

#[test]
fn test_update_admin_invalid() {
    let mut state = setup_test_case(None);
    assert_eq!(state.config.admin, ADMIN.to_string());
    let r = execute_update_admin(&mut state, &info(USER, vec![]), USER.to_string());
    assert_eq!(r, Err(ContractError::Unauthorized));
    assert_eq!(state.config.admin, ADMIN.to_string());
}

#[test]
fn test_withdraw_root_name() {
    let mut state = setup_test_case(None);
    let token_id = "root_name".to_string();
    transfer_name(&mut state, REGISTRY, ADMIN, &token_id).unwrap();
    assert_eq!(state.config.token_id, Some(token_id.clone()));
    let msgs = execute_withdraw_root_token(&mut state, &info(ADMIN, vec![])).unwrap();
    assert_eq!(
        msgs,
        vec![OutboundMsg::Registry {
            contract_addr: REGISTRY.to_string(),
            msg: RegistryMsg::TransferNft { recipient: ADMIN.to_string(), token_id },
        }]
    );
    assert_eq!(state.config.token_id, None);
}

#[test]
fn test_withdraw_root_name_no_name() {
    let mut state = setup_test_case(None);
    let r = execute_withdraw_root_token(&mut state, &info(ADMIN, vec![]));
    assert_eq!(r, Err(ContractError::NoRootToken));
}

#[test]
fn test_withdraw_root_name_non_admin() {
    let mut state = setup_test_case(None);
    let token_id = "root_name".to_string();
    transfer_name(&mut state, REGISTRY, ADMIN, &token_id).unwrap();
    assert_eq!(state.config.token_id, Some(token_id.clone()));
    let r = execute_withdraw_root_token(&mut state, &info(USER, vec![]));
    assert_eq!(r, Err(ContractError::Unauthorized));
    assert_eq!(state.config.token_id, Some(token_id));
}

#[test]
fn integration_tests_test_mint_path() {
    let state = setup_test_case_with_name(Some(native(100)));
    let path = "a".to_string();
    let msgs = mint_path_native(&state, USER, &path, coins(100, NATIVE_DENOM)).unwrap();
    let (owner, token_id) = minted_to(&msgs);
    assert_eq!(token_id, format!("{}::{}", "root_name", path));
    assert_eq!(owner, USER.to_string());
}

#[test]
fn test_mint_path_invalid_denom() {
    let state = setup_test_case_with_name(Some(native(100)));
    let r = mint_path_native(&state, USER, "a", coins(100, INVALID_DENOM));
    assert_eq!(r, Err(ContractError::WrongDenom));
}

#[test]
fn test_mint_path_pay_too_much() {
    let state = setup_test_case_with_name(Some(native(100)));
    let r = mint_path_native(&state, USER, "a", coins(101, NATIVE_DENOM));
    assert_eq!(r, Err(ContractError::PaymentMismatch));
}

#[test]
fn test_mint_path_pay_too_little() {
    let state = setup_test_case_with_name(Some(native(100)));
    let r = mint_path_native(&state, USER, "a", coins(99, NATIVE_DENOM));
    assert_eq!(r, Err(ContractError::PaymentMismatch));
}

#[test]
fn integration_tests_test_mint_path_pay_cw20() {
    let state = setup_test_case_with_name(Some(native(100)));
    let r = mint_path_cw20(&state, TOKEN, USER, 100, "a");
    assert_eq!(r, Err(ContractError::Unauthorized));
}

#[test]
fn integration_tests_test_mint_path_no_root_name() {
    let state = setup_test_case(None);
    let r = mint_path_native(&state, USER, "a", coins(100, NATIVE_DENOM));
    assert_eq!(r, Err(ContractError::NoRootToken));
}

#[test]
fn no_payment_test_mint_path() {
    let state = setup_test_case_with_name(None);
    let path = "a".to_string();
    let msgs = mint_path_native(&state, USER, &path, vec![]).unwrap();
    let (owner, token_id) = minted_to(&msgs);
    assert_eq!(token_id, format!("{}::{}", "root_name", path));
    assert_eq!(owner, USER.to_string());
}

#[test]
fn test_mint_path_pay_native() {
    let state = setup_test_case_with_name(None);
    let r = mint_path_native(&state, USER, "a", coins(1000, NATIVE_DENOM));
    assert_eq!(r, Err(ContractError::UnexpectedPayment));
}

#[test]
fn no_payment_test_mint_path_pay_cw20() {
    let state = setup_test_case_with_name(None);
    let r = mint_path_cw20(&state, TOKEN, USER, 100, "a");
    assert_eq!(r, Err(ContractError::NoPaymentPolicy));
}

#[test]
fn no_payment_test_mint_path_no_root_name() {
    let state = setup_test_case(None);
    let r = mint_path_native(&state, USER, "a", vec![]);
    assert_eq!(r, Err(ContractError::NoRootToken));
}
