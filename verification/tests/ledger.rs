//! Unstake requests and their withdrawal.
use stake_manager::chain::{Coin, CosmosMsg, IbcFee, MessageInfo, Response};
use stake_manager::error_conversion::ContractError;
use stake_manager::execute_unstake::execute_unstake;
use stake_manager::execute_withdraw::{execute_withdraw, sudo_withdraw_callback, sudo_withdraw_failed_callback};
use stake_manager::query::{query_user_unstake, query_user_unstake_index};
use stake_manager::state::{
    get_next_query_reply_id, get_next_reply_id, read_reply_payload, read_sudo_payload, save_reply_payload,
    save_sudo_payload, take_sudo_payload, EraStatus, IcaInfo, IcaInfos, PoolInfo, Store, SudoPayload, TxType,
    UnstakeInfo, WithdrawStatus,
};

const POOL: &str = "cosmos15fqjpj90ruhj57q3l6a5hda0rt77g6mcuz7w8n";

fn s(x: &str) -> String {
    x.to_string()
}

fn info(sender: &str) -> MessageInfo {
    MessageInfo { sender: s(sender), funds: vec![] }
}

fn fee() -> Result<IbcFee, String> {
    Ok(IbcFee {
        recv_fee: vec![],
        ack_fee: vec![Coin { denom: s("untrn"), amount: 1000 }],
        timeout_fee: vec![Coin { denom: s("untrn"), amount: 1000 }],
    })
}

fn ica(addr: &str, port: &str) -> IcaInfo {
    IcaInfo {
        ctrl_connection_id: s("connection-0"),
        host_connection_id: s("connection-9"),
        ctrl_channel_id: s("channel-1"),
        host_channel_id: s("channel-100"),
        ctrl_port_id: s(port),
        ica_addr: s(addr),
    }
}

/// A store with one pool at rest in the era `era`, with `active` at work for as many
/// receipt tokens, at the rate `rate`.
fn store_with_pool(era: u64, active: u128, rate: u128) -> Store {
    let mut store = Store::new();
    let mut pool = PoolInfo::default();
    pool.ica_id = s("pool1");
    pool.admin = s("creator");
    pool.lsd_token = s("lsdtoken");
    pool.platform_fee_receiver = s("platform");
    pool.remote_denom = s("uatom");
    pool.ibc_denom = s("ibc/HASH");
    pool.status = EraStatus::ActiveEnded;
    pool.era = era;
    pool.active = active;
    pool.total_lsd_token_amount = active;
    pool.rate = rate;
    pool.unbonding_period = 3;
    pool.unstake_times_limit = 3;
    store.pools.save(s(POOL), pool);
    store.info_of_ica_id.save(
        s("pool1"),
        IcaInfos {
            pool_address_ica_info: ica(POOL, "icacontroller-contract.pool1"),
            withdraw_address_ica_info: ica("withdraw", "icacontroller-contract.pool1-withdraw_addr"),
            admin: s("creator"),
        },
    );
    store
}

fn set_era(store: &mut Store, era: u64) {
    let mut pool = store.pools.remove(&s(POOL)).unwrap();
    pool.era = era;
    store.pools.save(s(POOL), pool);
}

fn attrs(resp: &Response) -> Vec<(String, String)> {
    resp.attributes.iter().map(|a| (a.key.clone(), a.value.clone())).collect()
}

#[test]
fn unstake_records_the_worth_less_the_dust() {
    let mut store = store_with_pool(4, 10_000_000, 1_250_000);
    let resp = execute_unstake(&mut store, &info("alice"), 1_000_001, s(POOL)).unwrap();
    // floor(1,000,001 * 1,250,000 / 1,000,000) = 1,250,001
    assert_eq!(resp.messages.len(), 1);
    assert_eq!(
        resp.messages[0].msg,
        CosmosMsg::BurnFrom { contract_addr: s("lsdtoken"), owner: s("alice"), amount: 1_000_001 }
    );
    assert_eq!(
        attrs(&resp),
        vec![
            (s("action"), s("unstake")),
            (s("pool"), s(POOL)),
            (s("from"), s("alice")),
            (s("token_amount"), s("1249996")),
            (s("lsd_token_amount"), s("1000001")),
            (s("unstake_index"), s("1")),
        ]
    );
    let pool = store.pools.get(&s(POOL)).unwrap();
    assert_eq!(pool.next_unstake_index, 1);
    assert_eq!(pool.unbond, 1_250_001);
    assert_eq!(pool.active, 10_000_000 - 1_250_001);
    assert_eq!(pool.total_lsd_token_amount, 10_000_000 - 1_000_001);
    assert_eq!(
        store.unstakes_of_index.get(&(s(POOL), 1)),
        Some(&UnstakeInfo {
            era: 4,
            pool_addr: s(POOL),
            unstaker: s("alice"),
            amount: 1_249_996,
            status: WithdrawStatus::Default,
            index: 1,
        })
    );
    assert_eq!(query_user_unstake_index(&store, s(POOL), s("alice")), Some(&vec![1]));
    assert_eq!(query_user_unstake_index(&store, s(POOL), s("bob")), None);
}

#[test]
fn the_unstake_index_goes_up_by_one_with_each_request() {
    let mut store = store_with_pool(4, 10_000_000, 1_000_000);
    for expected in 1..=3u64 {
        execute_unstake(&mut store, &info("alice"), 1000, s(POOL)).unwrap();
        assert_eq!(store.pools.get(&s(POOL)).unwrap().next_unstake_index, expected);
    }
    execute_unstake(&mut store, &info("bob"), 1000, s(POOL)).unwrap();
    assert_eq!(store.pools.get(&s(POOL)).unwrap().next_unstake_index, 4);
    assert_eq!(query_user_unstake_index(&store, s(POOL), s("alice")), Some(&vec![1, 2, 3]));
    assert_eq!(query_user_unstake_index(&store, s(POOL), s("bob")), Some(&vec![4]));
    let requests = query_user_unstake(&store, s(POOL), s("alice")).unwrap();
    assert_eq!(requests.iter().map(|r| r.index).collect::<Vec<_>>(), vec![1, 2, 3]);
    assert_eq!(query_user_unstake(&store, s(POOL), s("carol")), Ok(vec![]));
    // alice has as many requests outstanding as the pool allows
    assert_eq!(
        execute_unstake(&mut store, &info("alice"), 1000, s(POOL)),
        Err(ContractError::EncodeErrUnstakeTimesLimitReached)
    );
    assert_eq!(store.pools.get(&s(POOL)).unwrap().next_unstake_index, 4);
}

#[test]
fn unstake_is_refused_for_nothing_and_for_dust() {
    let mut store = store_with_pool(4, 10_000_000, 1_000_000);
    let before = format!("{:?}", store.pools.get(&s(POOL)));
    assert_eq!(
        execute_unstake(&mut store, &info("alice"), 0, s(POOL)),
        Err(ContractError::EncodeErrLsdTokenAmountZero)
    );
    assert_eq!(
        execute_unstake(&mut store, &info("alice"), 0, s("nowhere")),
        Err(ContractError::EncodeErrLsdTokenAmountZero)
    );
    assert_eq!(execute_unstake(&mut store, &info("alice"), 7, s("nowhere")), Err(ContractError::NotFound));
    // worth five: nothing is left after the dust
    assert_eq!(
        execute_unstake(&mut store, &info("alice"), 5, s(POOL)),
        Err(ContractError::EncodeErrZeroWithdrawAmount)
    );
    // worth six: one is left
    // more than the pool has at work
    assert_eq!(
        execute_unstake(&mut store, &info("alice"), 10_000_001, s(POOL)),
        Err(ContractError::Overflow)
    );
    assert_eq!(format!("{:?}", store.pools.get(&s(POOL))), before);
    assert_eq!(store.unstakes_of_index.len(), 0);
    let resp = execute_unstake(&mut store, &info("alice"), 6, s(POOL)).unwrap();
    assert_eq!(attrs(&resp)[3], (s("token_amount"), s("1")));
}

#[test]
fn the_unbond_commission_goes_to_the_platform() {
    let mut store = store_with_pool(4, 10_000_000, 2_000_000);
    let mut pool = store.pools.remove(&s(POOL)).unwrap();
    pool.unbond_commission = 25_000;
    store.pools.save(s(POOL), pool);
    let resp = execute_unstake(&mut store, &info("alice"), 1_000_000, s(POOL)).unwrap();
    assert_eq!(resp.messages.len(), 2);
    assert_eq!(
        resp.messages[0].msg,
        CosmosMsg::TransferFrom {
            contract_addr: s("lsdtoken"),
            owner: s("alice"),
            recipient: s("platform"),
            amount: 25_000
        }
    );
    assert_eq!(
        resp.messages[1].msg,
        CosmosMsg::BurnFrom { contract_addr: s("lsdtoken"), owner: s("alice"), amount: 975_000 }
    );
    assert_eq!(store.unstakes_of_index.get(&(s(POOL), 1)).unwrap().amount, 975_000 * 2 - 5);
    // with a commission of the whole nothing is left to burn
    let mut pool = store.pools.remove(&s(POOL)).unwrap();
    pool.unbond_commission = 1_000_000;
    store.pools.save(s(POOL), pool);
    assert_eq!(
        execute_unstake(&mut store, &info("alice"), 1_000_000, s(POOL)),
        Err(ContractError::BurnLsdTokenAmountIsZero)
    );
}

#[test]
fn unstake_then_withdraw_sends_what_was_recorded() {
    let mut store = store_with_pool(4, 10_000_000, 1_250_000);
    execute_unstake(&mut store, &info("alice"), 1_000_001, s(POOL)).unwrap();
    // too early: the request of era 4 waits three eras
    set_era(&mut store, 6);
    assert_eq!(
        execute_withdraw(&mut store, &info("alice"), s(POOL), s("cosmos1receiver"), vec![1], &fee()),
        Err(ContractError::UnstakeIndexNotWithdrawable(1))
    );
    set_era(&mut store, 7);
    let resp =
        execute_withdraw(&mut store, &info("alice"), s(POOL), s("cosmos1receiver"), vec![1], &fee()).unwrap();
    assert_eq!(resp.messages.len(), 1);
    assert!(resp.messages[0].reply_on_success);
    assert_eq!(resp.messages[0].id, 1_000_000_000);
    match &resp.messages[0].msg {
        CosmosMsg::SubmitTx { connection_id, interchain_account_id, msgs, .. } => {
            assert_eq!(connection_id, "connection-0");
            assert_eq!(interchain_account_id, "pool1");
            assert_eq!(msgs.len(), 1);
            assert_eq!(msgs[0].type_url, "/cosmos.bank.v1beta1.MsgSend");
        }
        other => panic!("unexpected message {:?}", other),
    }
    let payload = read_reply_payload(&store, 1_000_000_000).unwrap();
    assert_eq!(
        payload,
        SudoPayload {
            message: s("1249996_alice_cosmos1receiver_1"),
            pool_addr: s(POOL),
            port_id: s("icacontroller-contract.pool1"),
            tx_type: TxType::UserWithdraw,
        }
    );
    assert_eq!(store.unstakes_of_index.get(&(s(POOL), 1)).unwrap().status, WithdrawStatus::Pending);
    // a request that is part of a withdrawal cannot be withdrawn again
    assert_eq!(
        execute_withdraw(&mut store, &info("alice"), s(POOL), s("cosmos1receiver"), vec![1], &fee()),
        Err(ContractError::UnstakeIndexStatusNotMatch(1))
    );
    // settlement deletes the request
    let resp = sudo_withdraw_callback(&mut store, payload).unwrap();
    assert_eq!(
        attrs(&resp),
        vec![
            (s("action"), s("withdraw")),
            (s("from"), s("alice")),
            (s("pool"), s(POOL)),
            (s("receiver"), s("cosmos1receiver")),
            (s("unstake_index_list"), s("1")),
            (s("amount"), s("1249996")),
        ]
    );
    assert_eq!(store.unstakes_of_index.get(&(s(POOL), 1)), None);
    assert_eq!(query_user_unstake_index(&store, s(POOL), s("alice")), Some(&vec![]));
}

#[test]
fn a_batch_is_withdrawn_as_one_and_freed_when_it_fails() {
    let mut store = store_with_pool(4, 10_000_000, 1_000_000);
    execute_unstake(&mut store, &info("alice"), 1000, s(POOL)).unwrap();
    execute_unstake(&mut store, &info("alice"), 2000, s(POOL)).unwrap();
    execute_unstake(&mut store, &info("bob"), 3000, s(POOL)).unwrap();
    execute_unstake(&mut store, &info("alice"), 4000, s(POOL)).unwrap();
    set_era(&mut store, 7);
    let before = format!("{:?}", store.unstakes_of_index.get(&(s(POOL), 1)));
    // refusals name the first request that fails, and nothing is marked
    assert_eq!(
        execute_withdraw(&mut store, &info("alice"), s(POOL), s("r"), vec![], &fee()),
        Err(ContractError::EmptyUnstakeList)
    );
    assert_eq!(
        execute_withdraw(&mut store, &info("alice"), s(POOL), s("r"), vec![1, 3], &fee()),
        Err(ContractError::UnstakeIndexUnstakerNotMatch(3))
    );
    assert_eq!(
        execute_withdraw(&mut store, &info("alice"), s(POOL), s("r"), vec![1, 9], &fee()),
        Err(ContractError::NotFound)
    );
    assert_eq!(
        execute_withdraw(&mut store, &info("alice"), s(POOL), s("r"), vec![1, 2, 1], &fee()),
        Err(ContractError::UnstakeIndexStatusNotMatch(1))
    );
    assert_eq!(
        execute_withdraw(&mut store, &info("alice"), s(POOL), s("r"), vec![1, 2], &Err(s("no fee"))),
        Err(ContractError::QueryFailed(s("no fee")))
    );
    assert_eq!(
        execute_withdraw(&mut store, &info("alice"), s("nowhere"), s("r"), vec![1], &fee()),
        Err(ContractError::NotFound)
    );
    assert_eq!(format!("{:?}", store.unstakes_of_index.get(&(s(POOL), 1))), before);

    execute_withdraw(&mut store, &info("alice"), s(POOL), s("r"), vec![4, 1], &fee()).unwrap();
    let payload = read_reply_payload(&store, 1_000_000_000).unwrap();
    // (4000 - 5) + (1000 - 5)
    assert_eq!(payload.message, "4990_alice_r_4_1");
    assert_eq!(store.unstakes_of_index.get(&(s(POOL), 1)).unwrap().status, WithdrawStatus::Pending);
    assert_eq!(store.unstakes_of_index.get(&(s(POOL), 4)).unwrap().status, WithdrawStatus::Pending);
    assert_eq!(store.unstakes_of_index.get(&(s(POOL), 2)).unwrap().status, WithdrawStatus::Default);

    // the instruction fails: both requests can be withdrawn anew
    assert_eq!(sudo_withdraw_failed_callback(&mut store, payload), Ok(Response::new()));
    assert_eq!(store.unstakes_of_index.get(&(s(POOL), 1)).unwrap().status, WithdrawStatus::Default);
    assert_eq!(store.unstakes_of_index.get(&(s(POOL), 4)).unwrap().status, WithdrawStatus::Default);
    assert_eq!(query_user_unstake_index(&store, s(POOL), s("alice")), Some(&vec![1, 2, 4]));

    execute_withdraw(&mut store, &info("alice"), s(POOL), s("r"), vec![1, 2, 4], &fee()).unwrap();
    let payload = read_reply_payload(&store, 1_000_000_001).unwrap();
    assert_eq!(payload.message, "6985_alice_r_1_2_4");
    sudo_withdraw_callback(&mut store, payload).unwrap();
    assert_eq!(query_user_unstake_index(&store, s(POOL), s("alice")), Some(&vec![]));
    assert_eq!(query_user_unstake_index(&store, s(POOL), s("bob")), Some(&vec![3]));
    assert_eq!(store.unstakes_of_index.len(), 1);
}

#[test]
fn a_request_recorded_for_another_pool_is_refused() {
    let mut store = store_with_pool(7, 10_000_000, 1_000_000);
    store.unstakes_of_index.save(
        (s(POOL), 9),
        UnstakeInfo {
            era: 1,
            pool_addr: s("another pool"),
            unstaker: s("alice"),
            amount: 50,
            status: WithdrawStatus::Default,
            index: 9,
        },
    );
    assert_eq!(
        execute_withdraw(&mut store, &info("alice"), s(POOL), s("r"), vec![9], &fee()),
        Err(ContractError::UnstakeIndexPoolNotMatch(9))
    );
    assert_eq!(store.unstakes_of_index.get(&(s(POOL), 9)).unwrap().status, WithdrawStatus::Default);
}

#[test]
fn malformed_contexts_are_refused() {
    let mut store = store_with_pool(4, 10_000_000, 1_000_000);
    let payload = |message: &str| SudoPayload {
        message: s(message),
        pool_addr: s(POOL),
        port_id: s("port"),
        tx_type: TxType::UserWithdraw,
    };
    assert_eq!(
        sudo_withdraw_callback(&mut store, payload("10_alice_r")),
        Err(ContractError::UnsupportedMessage(s("10_alice_r")))
    );
    assert_eq!(
        sudo_withdraw_failed_callback(&mut store, payload("10_alice_r_x")),
        Err(ContractError::UnsupportedMessage(s("10_alice_r_x")))
    );
    assert_eq!(sudo_withdraw_failed_callback(&mut store, payload("10_alice_r_8")), Err(ContractError::NotFound));
    // without indices there is nothing to free
    assert_eq!(sudo_withdraw_failed_callback(&mut store, payload("10_alice_r")), Ok(Response::new()));
}

#[test]
fn reply_identifiers_wrap_round_their_range() {
    let mut store = Store::new();
    assert_eq!(get_next_reply_id(&mut store), 1_000_000_000);
    assert_eq!(get_next_reply_id(&mut store), 1_000_000_001);
    assert_eq!(store.latest_reply_id, Some(1_000_000_002));
    store.latest_reply_id = Some(1_001_000_000);
    assert_eq!(get_next_reply_id(&mut store), 1_001_000_000);
    assert_eq!(get_next_reply_id(&mut store), 1_000_000_000);
    store.latest_reply_id = Some(u64::MAX);
    assert_eq!(get_next_reply_id(&mut store), u64::MAX);
    assert_eq!(store.latest_reply_id, Some(1_000_000_000));

    assert_eq!(get_next_query_reply_id(&mut store), 2_000_000_000);
    assert_eq!(get_next_query_reply_id(&mut store), 2_000_000_001);
    store.latest_query_reply_id = Some(2_001_000_000);
    assert_eq!(get_next_query_reply_id(&mut store), 2_001_000_000);
    assert_eq!(get_next_query_reply_id(&mut store), 2_000_000_000);
}

#[test]
fn a_record_is_found_by_reply_then_by_channel_and_consumed_once() {
    let mut store = Store::new();
    let payload = |m: &str| SudoPayload {
        message: s(m),
        pool_addr: s(POOL),
        port_id: s("port"),
        tx_type: TxType::EraBond,
    };
    assert_eq!(save_reply_payload(&mut store, payload("first")), 1_000_000_000);
    assert_eq!(save_reply_payload(&mut store, payload("second")), 1_000_000_001);
    assert_eq!(read_reply_payload(&store, 1_000_000_001), Ok(payload("second")));
    assert_eq!(read_reply_payload(&store, 1_000_000_002), Err(ContractError::NotFound));
    save_sudo_payload(&mut store, s("channel-1"), 7, payload("first"));
    assert_eq!(read_sudo_payload(&store, s("channel-1"), 7), Ok(payload("first")));
    assert_eq!(read_sudo_payload(&store, s("channel-1"), 8), Err(ContractError::NotFound));
    assert_eq!(read_sudo_payload(&store, s("channel-2"), 7), Err(ContractError::NotFound));
    assert_eq!(take_sudo_payload(&mut store, s("channel-1"), 7), Ok(payload("first")));
    assert_eq!(take_sudo_payload(&mut store, s("channel-1"), 7), Err(ContractError::NotFound));
    assert_eq!(read_sudo_payload(&store, s("channel-1"), 7), Err(ContractError::NotFound));
}
