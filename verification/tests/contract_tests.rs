use cosmwasm_std::StdError;
use seitizen_staking::contract::{
    execute, execute_is_safe, execute_receive_nft, execute_unstake, execute_update_collection,
    execute_update_enabled, execute_update_locktime, execute_update_owner, execute_withdraw,
    instantiate, migrate, query, CONTRACT_NAME, CONTRACT_VERSION,
};
use seitizen_staking::error::{ContractError, QueryError};
use seitizen_staking::msg::{
    Env, ExecuteMsg, InstantiateMsg, MessageInfo, MigrateMsg, NftReceipt, NftReceiveMsg,
    QueryAnswer, QueryMsg,
};
use seitizen_staking::response::{bool_to_string, u64_to_string, ContractResponse};
use seitizen_staking::state::{remove_string, ContractState, ContractVersion};
use seitizen_staking::util::{
    check_enabled, check_owner, decimal, get_transfer_message, multiple, transfer_message,
};

const ADMIN: &str = "admin";
const USER: &str = "user";
const COLLECTION: &str = "collection";

fn env(t: u64) -> Env {
    Env { block_time: t }
}

fn info(sender: &str) -> MessageInfo {
    MessageInfo { sender: sender.to_string() }
}

fn attrs(resp: &ContractResponse) -> Vec<(String, String)> {
    resp.attributes.iter().map(|a| (a.key.clone(), a.value.clone())).collect()
}

fn pairs(list: &[(&str, &str)]) -> Vec<(String, String)> {
    list.iter().map(|(k, v)| (k.to_string(), v.to_string())).collect()
}

fn transfer_json(token_id: &str, recipient: &str) -> Vec<u8> {
    format!("{{\"transfer_nft\":{{\"recipient\":\"{}\",\"token_id\":\"{}\"}}}}", recipient, token_id).into_bytes()
}

fn setup(lock_time: u64) -> ContractState {
    let (mut state, _, _) = instantiate(
        env(1),
        info(ADMIN),
        InstantiateMsg { collection_address: COLLECTION.to_string(), lock_time },
    );
    execute_update_enabled(&mut state, info(ADMIN), true).unwrap();
    state
}

fn receipt(user: &str, token_id: &str) -> NftReceipt {
    NftReceipt {
        sender: Ok(user.to_string()),
        token_id: token_id.to_string(),
        msg: Ok(NftReceiveMsg::Stake {}),
    }
}

fn stake(state: &mut ContractState, user: &str, token_id: &str) -> ContractResponse {
    execute_receive_nft(state, info(COLLECTION), receipt(user, token_id)).unwrap()
}

fn tokens(state: &ContractState, user: &str) -> Option<Vec<String>> {
    state.staking.get(&user.to_string()).map(|i| i.token_ids.clone())
}

fn strings(list: &[&str]) -> Vec<String> {
    list.iter().map(|s| s.to_string()).collect()
}

#[test]
fn test() {
    let mut string_array: Vec<String> = Vec::new();
    string_array.push("result1".to_string());
    string_array.push("result2".to_string());
    string_array.push("result3".to_string());

    let string_array = remove_string(&string_array, &String::from("result1"));
    println!("{:?}", string_array);
    assert_eq!(string_array, strings(&["result2", "result3"]));
}

#[test]
fn remove_string_drops_every_occurrence_and_keeps_order() {
    let list = strings(&["a", "b", "a", "c", "a"]);
    assert_eq!(remove_string(&list, &"a".to_string()), strings(&["b", "c"]));
    assert_eq!(remove_string(&list, &"z".to_string()), list);
}

#[test]
fn instantiate_records_owner_and_starts_closed() {
    let (state, version, resp) = instantiate(
        env(1),
        info(ADMIN),
        InstantiateMsg { collection_address: COLLECTION.to_string(), lock_time: 100 },
    );
    assert_eq!(state.config.owner, ADMIN);
    assert_eq!(state.config.collection_address, COLLECTION);
    assert_eq!(state.config.lock_time, 100);
    assert!(!state.config.enabled);
    assert_eq!(state.config.total_supply, 0);
    assert!(tokens(&state, USER).is_none());
    assert_eq!(version.contract, CONTRACT_NAME);
    assert_eq!(version.version, CONTRACT_VERSION);
    assert!(resp.messages.is_empty());
    assert_eq!(
        attrs(&resp),
        pairs(&[("method", "instantiate"), ("owner", ADMIN), ("collection_address", COLLECTION)])
    );
}

#[test]
fn new_contract_refuses_deliveries() {
    let (mut state, _, _) = instantiate(
        env(1),
        info(ADMIN),
        InstantiateMsg { collection_address: COLLECTION.to_string(), lock_time: 0 },
    );
    let err = execute_receive_nft(&mut state, info(COLLECTION), receipt(USER, "1")).unwrap_err();
    assert!(matches!(err, ContractError::Disabled {}));
    assert_eq!(state.config.total_supply, 0);
    assert!(tokens(&state, USER).is_none());
}

#[test]
fn owner_updates_settings() {
    let mut state = setup(0);
    let resp = execute_update_owner(&mut state, info(ADMIN), "new_admin".to_string()).unwrap();
    assert_eq!(state.config.owner, "new_admin");
    assert_eq!(attrs(&resp), pairs(&[("action", "update_owner"), ("owner", "new_admin")]));

    let resp = execute_update_collection(&mut state, info("new_admin"), "other".to_string()).unwrap();
    assert_eq!(state.config.collection_address, "other");
    assert_eq!(attrs(&resp), pairs(&[("action", "update_collection"), ("collection_address", "other")]));

    let resp = execute_update_locktime(&mut state, info("new_admin"), 86400).unwrap();
    assert_eq!(state.config.lock_time, 86400);
    assert_eq!(attrs(&resp), pairs(&[("action", "update_lockTime"), ("lockTime", "86400")]));

    let resp = execute_update_enabled(&mut state, info("new_admin"), false).unwrap();
    assert!(!state.config.enabled);
    assert_eq!(attrs(&resp), pairs(&[("action", "update_enabled"), ("enabled", "false")]));
    assert_eq!(state.config.total_supply, 0);
}

#[test]
fn strangers_cannot_update_settings() {
    let mut state = setup(5);
    let err = execute_update_owner(&mut state, info(USER), USER.to_string()).unwrap_err();
    assert!(matches!(err, ContractError::Unauthorized {}));
    let err = execute_update_collection(&mut state, info(USER), USER.to_string()).unwrap_err();
    assert!(matches!(err, ContractError::Unauthorized {}));
    let err = execute_update_locktime(&mut state, info(USER), 0).unwrap_err();
    assert!(matches!(err, ContractError::Unauthorized {}));
    let err = execute_update_enabled(&mut state, info(USER), false).unwrap_err();
    assert!(matches!(err, ContractError::Unauthorized {}));
    assert_eq!(state.config.owner, ADMIN);
    assert_eq!(state.config.collection_address, COLLECTION);
    assert_eq!(state.config.lock_time, 5);
    assert!(state.config.enabled);
}

#[test]
fn owner_setting_reads_back_through_query() {
    let mut state = setup(0);
    execute(&mut state, env(2), info(ADMIN), ExecuteMsg::UpdateLockTime { lock_time: 42 }).unwrap();
    match query(Some(&state.config), &state.staking, env(2), QueryMsg::GetConfig {}).unwrap() {
        QueryAnswer::Config(c) => {
            assert_eq!(c.lock_time, 42);
            assert_eq!(c.owner, ADMIN);
            assert!(c.enabled);
        },
        _ => panic!("expected the configuration"),
    }
}

#[test]
fn staking_appends_tokens_and_counts_them() {
    let mut state = setup(0);
    let resp = stake(&mut state, USER, "1");
    assert_eq!(
        attrs(&resp),
        pairs(&[("action", "execute_receive"), ("token_id", "1"), ("user_address", USER)])
    );
    assert!(resp.messages.is_empty());
    stake(&mut state, USER, "2");
    stake(&mut state, "other", "3");
    assert_eq!(tokens(&state, USER), Some(strings(&["1", "2"])));
    assert_eq!(tokens(&state, "other"), Some(strings(&["3"])));
    assert_eq!(state.staking.get(&USER.to_string()).unwrap().address, USER);
    assert_eq!(state.config.total_supply, 3);
}

#[test]
fn deliveries_are_checked_in_order() {
    let mut state = setup(0);
    let err = execute_receive_nft(&mut state, info("fake_collection"), receipt(USER, "1")).unwrap_err();
    assert!(matches!(err, ContractError::InvalidCw721 {}));

    let bad_address = NftReceipt {
        sender: Err(StdError::generic_err("Invalid input: address not normalized")),
        token_id: "1".to_string(),
        msg: Err(StdError::generic_err("bad hook")),
    };
    let err = execute_receive_nft(&mut state, info(COLLECTION), bad_address).unwrap_err();
    match err {
        ContractError::Std(e) => assert_eq!(e, StdError::generic_err("Invalid input: address not normalized")),
        other => panic!("unexpected {:?}", other),
    }

    let bad_hook = NftReceipt {
        sender: Ok(USER.to_string()),
        token_id: "1".to_string(),
        msg: Err(StdError::generic_err("bad hook")),
    };
    let err = execute_receive_nft(&mut state, info(COLLECTION), bad_hook).unwrap_err();
    match err {
        ContractError::Std(e) => assert_eq!(e, StdError::generic_err("bad hook")),
        other => panic!("unexpected {:?}", other),
    }

    execute_update_enabled(&mut state, info(ADMIN), false).unwrap();
    let err = execute_receive_nft(&mut state, info("fake_collection"), receipt(USER, "1")).unwrap_err();
    assert!(matches!(err, ContractError::Disabled {}));
    assert_eq!(state.config.total_supply, 0);
    assert!(tokens(&state, USER).is_none());
}

#[test]
fn unstake_without_lock_returns_the_token() {
    let mut state = setup(0);
    stake(&mut state, USER, "1");
    stake(&mut state, USER, "2");
    let resp = execute_unstake(&mut state, env(10), info(USER), "1".to_string()).unwrap();
    assert_eq!(resp.messages.len(), 1);
    assert_eq!(resp.messages[0].contract_addr, COLLECTION);
    assert_eq!(resp.messages[0].msg, transfer_json("1", USER));
    assert_eq!(attrs(&resp), pairs(&[("action", "unstake"), ("token_id", "1")]));
    assert_eq!(tokens(&state, USER), Some(strings(&["2"])));
    assert_eq!(state.config.total_supply, 1);
}

#[test]
fn unstake_of_a_token_not_staked_is_refused() {
    let mut state = setup(0);
    let err = execute_unstake(&mut state, env(10), info(USER), "1".to_string()).unwrap_err();
    assert!(matches!(err, ContractError::InvalidStaking {}));
    stake(&mut state, "other", "1");
    let err = execute_unstake(&mut state, env(10), info(USER), "1".to_string()).unwrap_err();
    assert!(matches!(err, ContractError::InvalidStaking {}));
    stake(&mut state, USER, "2");
    let err = execute_unstake(&mut state, env(10), info(USER), "1".to_string()).unwrap_err();
    assert!(matches!(err, ContractError::InvalidStaking {}));
    assert_eq!(tokens(&state, "other"), Some(strings(&["1"])));
    assert_eq!(tokens(&state, USER), Some(strings(&["2"])));
    assert_eq!(state.config.total_supply, 2);
}

#[test]
fn unstake_with_lock_waits_for_the_lock_time() {
    let mut state = setup(100);
    stake(&mut state, USER, "1");
    let resp = execute_unstake(&mut state, env(1000), info(USER), "1".to_string()).unwrap();
    assert_eq!(attrs(&resp), pairs(&[("action", "create_unstake"), ("token_id", "1")]));
    assert!(resp.messages.is_empty());
    assert_eq!(state.unlock_time.get(&"1".to_string()), Some(&1000));
    assert_eq!(tokens(&state, USER), Some(strings(&["1"])));

    let err = execute_unstake(&mut state, env(1050), info(USER), "1".to_string()).unwrap_err();
    assert!(matches!(err, ContractError::PendingUnStaking {}));
    let err = execute_unstake(&mut state, env(1100), info(USER), "1".to_string()).unwrap_err();
    assert!(matches!(err, ContractError::PendingUnStaking {}));

    let resp = execute_unstake(&mut state, env(1101), info(USER), "1".to_string()).unwrap();
    assert_eq!(attrs(&resp), pairs(&[("action", "unstake"), ("token_id", "1")]));
    assert_eq!(resp.messages[0].msg, transfer_json("1", USER));
    assert_eq!(tokens(&state, USER), Some(Vec::new()));
    assert_eq!(state.config.total_supply, 0);
    assert_eq!(state.unlock_time.get(&"1".to_string()), Some(&1000));
}

#[test]
fn withdraw_sends_the_token_to_the_owner() {
    let mut state = setup(0);
    stake(&mut state, USER, "1");
    let err = execute_withdraw(&mut state, info(USER), "1".to_string()).unwrap_err();
    assert!(matches!(err, ContractError::Unauthorized {}));
    let resp = execute_withdraw(&mut state, info(ADMIN), "1".to_string()).unwrap();
    assert_eq!(resp.messages[0].contract_addr, COLLECTION);
    assert_eq!(resp.messages[0].msg, transfer_json("1", ADMIN));
    assert_eq!(attrs(&resp), pairs(&[("action", "withdraw"), ("token_id", "1")]));
    assert_eq!(state.config.total_supply, 0);
    assert_eq!(tokens(&state, USER), Some(strings(&["1"])));
}

#[test]
fn execute_dispatches_each_request() {
    let mut state = setup(0);
    execute(&mut state, env(1), info(COLLECTION), ExecuteMsg::ReceiveNft(receipt(USER, "7"))).unwrap();
    assert_eq!(tokens(&state, USER), Some(strings(&["7"])));
    execute(&mut state, env(1), info(ADMIN), ExecuteMsg::UpdatedEnabled { enabled: false }).unwrap();
    assert!(!state.config.enabled);
    execute(&mut state, env(1), info(ADMIN), ExecuteMsg::UpdateCollectionAddress { collection_address: "c2".to_string() }).unwrap();
    assert_eq!(state.config.collection_address, "c2");
    execute(&mut state, env(1), info(ADMIN), ExecuteMsg::UpdateOwner { owner: USER.to_string() }).unwrap();
    assert_eq!(state.config.owner, USER);
    let resp = execute(&mut state, env(2), info(USER), ExecuteMsg::Unstake { token_id: "7".to_string() }).unwrap();
    assert_eq!(resp.messages[0].contract_addr, "c2");
    assert_eq!(state.config.total_supply, 0);
    let err = execute(&mut state, env(2), info(ADMIN), ExecuteMsg::WithdrawId { token_id: "7".to_string() }).unwrap_err();
    assert!(matches!(err, ContractError::Unauthorized {}));
}

#[test]
fn refused_requests_change_nothing() {
    let mut state = setup(100);
    stake(&mut state, USER, "1");
    let before = (state.config.owner.clone(), state.config.total_supply, tokens(&state, USER));
    assert!(execute(&mut state, env(5), info(USER), ExecuteMsg::UpdateLockTime { lock_time: 0 }).is_err());
    assert!(execute(&mut state, env(5), info(USER), ExecuteMsg::WithdrawId { token_id: "1".to_string() }).is_err());
    assert!(execute(&mut state, env(5), info("nobody"), ExecuteMsg::ReceiveNft(receipt(USER, "2"))).is_err());
    assert_eq!(before, (state.config.owner.clone(), state.config.total_supply, tokens(&state, USER)));
    assert_eq!(state.config.lock_time, 100);
}

#[test]
fn stake_then_unstake_restores_the_record() {
    let mut state = setup(0);
    stake(&mut state, USER, "1");
    let supply = state.config.total_supply;
    stake(&mut state, USER, "2");
    assert_eq!(state.config.total_supply, supply + 1);
    execute_unstake(&mut state, env(3), info(USER), "2".to_string()).unwrap();
    assert_eq!(tokens(&state, USER), Some(strings(&["1"])));
    assert_eq!(state.config.total_supply, supply);
}

#[test]
fn unstake_leaves_other_records_alone() {
    let mut state = setup(0);
    stake(&mut state, USER, "1");
    stake(&mut state, "other", "1");
    execute_unstake(&mut state, env(3), info(USER), "1".to_string()).unwrap();
    assert_eq!(tokens(&state, "other"), Some(strings(&["1"])));
    assert_eq!(tokens(&state, USER), Some(Vec::new()));
}

#[test]
fn queries_read_the_state() {
    let mut state = setup(0);
    stake(&mut state, USER, "1");
    match query(None, &state.staking, env(1), QueryMsg::GetStaking { address: USER.to_string() }).unwrap() {
        QueryAnswer::Staking(info) => {
            assert_eq!(info.address, USER);
            assert_eq!(info.token_ids, strings(&["1"]));
        },
        _ => panic!("expected a staking record"),
    }
    let err = query(Some(&state.config), &state.staking, env(1), QueryMsg::GetStaking { address: "nobody".to_string() }).unwrap_err();
    match err {
        QueryError::StakingNotFound { address } => assert_eq!(address, "nobody"),
        other => panic!("unexpected {:?}", other),
    }
    let err = query(None, &state.staking, env(1), QueryMsg::GetConfig {}).unwrap_err();
    assert!(matches!(err, QueryError::ConfigNotFound {}));
}

#[test]
fn migrate_accepts_only_this_contract() {
    let ok = migrate(
        ContractVersion { contract: CONTRACT_NAME.to_string(), version: "0.0.1".to_string() },
        env(1),
        MigrateMsg {},
    )
    .unwrap();
    assert!(ok.messages.is_empty() && ok.attributes.is_empty());
    let err = migrate(
        ContractVersion { contract: "crates.io:other".to_string(), version: "1.0.0".to_string() },
        env(1),
        MigrateMsg {},
    )
    .unwrap_err();
    match err {
        ContractError::CannotMigrate { previous_contract } => assert_eq!(previous_contract, "crates.io:other"),
        other => panic!("unexpected {:?}", other),
    }
}

#[test]
fn checks_answer_empty_responses() {
    let mut state = setup(0);
    let resp = check_owner(&state, &ADMIN.to_string()).unwrap();
    assert!(resp.attributes.is_empty() && resp.messages.is_empty());
    assert!(matches!(check_owner(&state, &USER.to_string()), Err(ContractError::Unauthorized {})));
    assert!(check_enabled(&state).is_ok());
    execute_update_enabled(&mut state, info(ADMIN), false).unwrap();
    assert!(matches!(check_enabled(&state), Err(ContractError::Disabled {})));
}

#[test]
fn transfer_message_encodes_the_cw721_request() {
    let msg = get_transfer_message(COLLECTION.to_string(), "42".to_string(), USER.to_string()).unwrap();
    assert_eq!(msg.contract_addr, COLLECTION);
    assert_eq!(msg.msg, transfer_json("42", USER));
    assert_eq!(
        String::from_utf8(msg.msg).unwrap(),
        r#"{"transfer_nft":{"recipient":"user","token_id":"42"}}"#
    );
}

#[test]
fn amounts_constants() {
    assert_eq!(multiple(), 100);
    assert_eq!(decimal(), 1_000_000);
}

#[test]
fn numbers_and_flags_format_as_to_string() {
    assert_eq!(u64_to_string(0), "0");
    assert_eq!(u64_to_string(7), "7");
    assert_eq!(u64_to_string(100), "100");
    assert_eq!(u64_to_string(u64::MAX), u64::MAX.to_string());
    assert_eq!(bool_to_string(true), "true");
    assert_eq!(bool_to_string(false), "false");
}

#[test]
fn execute_is_safe_flags_overflowing_requests() {
    let mut state = setup(0);
    assert!(!execute_is_safe(&state, &env(1), &info(ADMIN), &ExecuteMsg::WithdrawId { token_id: "1".to_string() }));
    assert!(execute_is_safe(&state, &env(1), &info(USER), &ExecuteMsg::WithdrawId { token_id: "1".to_string() }));
    assert!(execute_is_safe(&state, &env(1), &info(USER), &ExecuteMsg::Unstake { token_id: "1".to_string() }));
    state.config.total_supply = u64::MAX;
    assert!(!execute_is_safe(&state, &env(1), &info(COLLECTION), &ExecuteMsg::ReceiveNft(receipt(USER, "1"))));
    assert!(execute_is_safe(&state, &env(1), &info("fake"), &ExecuteMsg::ReceiveNft(receipt(USER, "1"))));

    let mut locked = setup(u64::MAX);
    stake(&mut locked, USER, "1");
    execute_unstake(&mut locked, env(5), info(USER), "1".to_string()).unwrap();
    assert!(!execute_is_safe(&locked, &env(6), &info(USER), &ExecuteMsg::Unstake { token_id: "1".to_string() }));
}

#[test]
fn transfer_message_carries_the_encoding_or_its_error() {
    let msg = transfer_message(COLLECTION.to_string(), Ok(vec![1, 2, 3])).unwrap();
    assert_eq!(msg.contract_addr, COLLECTION);
    assert_eq!(msg.msg, vec![1, 2, 3]);
    let err = transfer_message(COLLECTION.to_string(), Err(StdError::generic_err("cannot encode"))).unwrap_err();
    match err {
        ContractError::Std(e) => assert_eq!(e, StdError::generic_err("cannot encode")),
        other => panic!("unexpected {:?}", other),
    }
}

#[test]
fn unstake_after_the_lock_keeps_the_request_time() {
    let mut state = setup(100);
    stake(&mut state, ADMIN, "1");
    stake(&mut state, ADMIN, "2");
    execute_unstake(&mut state, env(1), info(ADMIN), "1".to_string()).unwrap();
    let resp = execute_unstake(&mut state, env(200), info(ADMIN), "1".to_string()).unwrap();
    assert_eq!(resp.messages.len(), 1);
    assert_eq!(resp.messages[0].contract_addr, COLLECTION);
    assert_eq!(resp.messages[0].msg, transfer_json("1", ADMIN));
    assert_eq!(attrs(&resp), pairs(&[("action", "unstake"), ("token_id", "1")]));
    assert_eq!(tokens(&state, ADMIN), Some(strings(&["2"])));
    assert_eq!(state.config.total_supply, 1);
    assert_eq!(state.unlock_time.get(&"1".to_string()), Some(&1));
}

#[test]
fn withdraw_leaves_the_records_alone() {
    let mut state = setup(100);
    stake(&mut state, USER, "1");
    stake(&mut state, USER, "2");
    let resp = execute_withdraw(&mut state, info(ADMIN), "1".to_string()).unwrap();
    assert_eq!(resp.messages[0].msg, transfer_json("1", ADMIN));
    assert_eq!(attrs(&resp), pairs(&[("action", "withdraw"), ("token_id", "1")]));
    assert_eq!(state.config.total_supply, 1);
    assert_eq!(tokens(&state, USER), Some(strings(&["1", "2"])));
}

#[test]
fn staking_and_releasing_move_the_count_with_the_records() {
    let mut state = setup(0);
    stake(&mut state, USER, "1");
    stake(&mut state, USER, "2");
    stake(&mut state, "other", "3");
    assert_eq!(state.config.total_supply, 3);
    execute_unstake(&mut state, env(2), info(USER), "2".to_string()).unwrap();
    assert_eq!(state.config.total_supply, 2);
    assert_eq!(tokens(&state, USER).unwrap().len() + tokens(&state, "other").unwrap().len(), 2);
}

#[test]
fn records_stay_under_their_own_address() {
    let mut state = setup(0);
    stake(&mut state, USER, "1");
    stake(&mut state, "other", "2");
    stake(&mut state, USER, "3");
    execute_unstake(&mut state, env(2), info(USER), "1".to_string()).unwrap();
    for key in [USER, "other"] {
        assert_eq!(state.staking.get(&key.to_string()).unwrap().address, key);
    }
}

#[test]
fn count_equals_listed_tokens_across_requests() {
    let mut state = setup(0);
    let listed = |state: &ContractState| -> u64 {
        [USER, "other"].iter().map(|k| tokens(state, k).map_or(0, |t| t.len() as u64)).sum()
    };
    stake(&mut state, USER, "1");
    stake(&mut state, "other", "2");
    stake(&mut state, USER, "3");
    assert_eq!(state.config.total_supply, listed(&state));
    execute_unstake(&mut state, env(2), info(USER), "1".to_string()).unwrap();
    assert_eq!(state.config.total_supply, listed(&state));
    assert!(execute_unstake(&mut state, env(2), info(USER), "1".to_string()).is_err());
    assert_eq!(state.config.total_supply, listed(&state));
}
