//! The steps of an era, each from the state that it starts in.
use stake_manager::chain::{
    BalanceResponse, Balances, Coin, CosmosMsg, Delegation, DelegatorDelegationsResponse, Env, IbcFee,
    MessageInfo, Response,
};
use stake_manager::error_conversion::ContractError;
use stake_manager::execute_era_active::execute_era_active;
use stake_manager::execute_era_collect_withdraw::{
    execute_era_collect_withdraw, sudo_era_collect_withdraw_callback,
    sudo_era_collect_withdraw_failed_callback,
};
use stake_manager::execute_era_restake::{
    execute_era_restake, sudo_era_rebond_callback, sudo_era_rebond_failed_callback,
};
use stake_manager::execute_era_stake::{
    execute_era_stake, sudo_era_bond_callback, sudo_era_bond_failed_callback,
};
use stake_manager::execute_era_update::execute_era_update;
use stake_manager::helper::{
    gen_delegation_txs, gen_msg_send, gen_undelegate_tx, gen_withdraw_reward_tx, sudo_set_withdraw_addr_callback,
    sudo_set_withdraw_addr_failed_callback,
};
use stake_manager::state::{
    read_reply_payload, EraSnapshot, EraStatus, IcaInfo, IcaInfos, PoolInfo, Store, SudoPayload, TxType,
};

const POOL: &str = "cosmos15fqjpj90ruhj57q3l6a5hda0rt77g6mcuz7w8n";
const WITHDRAW: &str = "osmo1yz54ncxj9csp7un3xled03q6thrrhy9cztkfzs";
const V1: &str = "val1";
const V2: &str = "val2";
const V3: &str = "val3";

fn s(x: &str) -> String {
    x.to_string()
}

fn coin(denom: &str, amount: u128) -> Coin {
    Coin { denom: s(denom), amount }
}

fn funds(amount: u128) -> MessageInfo {
    MessageInfo { sender: s("anyone"), funds: vec![coin("untrn", amount)] }
}

fn env(height: u64, seconds: u64) -> Env {
    Env { block_height: height, block_time_nanos: seconds * 1_000_000_000, contract_address: s("contract") }
}

fn fee() -> Result<IbcFee, String> {
    Ok(IbcFee { recv_fee: vec![], ack_fee: vec![coin("untrn", 1000)], timeout_fee: vec![coin("untrn", 1000)] })
}

fn observed(amounts: &[(&str, u128)], height: u64) -> Result<DelegatorDelegationsResponse, String> {
    Ok(DelegatorDelegationsResponse {
        delegations: amounts
            .iter()
            .map(|(v, a)| Delegation { delegator: s(POOL), validator: s(v), amount: coin("uatom", *a) })
            .collect(),
        last_submitted_local_height: height,
    })
}

fn ica(addr: &str, connection: &str, port: &str) -> IcaInfo {
    IcaInfo {
        ctrl_connection_id: s(connection),
        host_connection_id: s("connection-9"),
        ctrl_channel_id: s("channel-1"),
        host_channel_id: s("channel-100"),
        ctrl_port_id: s(port),
        ica_addr: s(addr),
    }
}

/// A store whose pool is in `status`, with the snapshot `bond` and `unbond`.
fn store_in(status: EraStatus, bond: u128, unbond: u128) -> Store {
    let mut store = Store::new();
    let mut pool = PoolInfo::default();
    pool.ica_id = s("pool1");
    pool.admin = s("creator");
    pool.remote_denom = s("uatom");
    pool.ibc_denom = s("ibc/HASH");
    pool.channel_id_of_ibc_denom = s("channel-7");
    pool.status = status;
    pool.rate = 1_000_000;
    pool.era = 5;
    pool.era_seconds = 100;
    pool.unbonding_period = 5;
    pool.validator_addrs = vec![s(V1), s(V2), s(V3)];
    pool.era_snapshot =
        EraSnapshot { era: 5, bond, unbond, active: 1_000_000, restake_amount: 0, last_step_height: 50 };
    store.pools.save(s(POOL), pool);
    store.info_of_ica_id.save(
        s("pool1"),
        IcaInfos {
            pool_address_ica_info: ica(POOL, "connection-0", "icacontroller-contract.pool1"),
            withdraw_address_ica_info: ica(
                WITHDRAW,
                "connection-1",
                "icacontroller-contract.pool1-withdraw_addr",
            ),
            admin: s("creator"),
        },
    );
    for (k, (addr, kind)) in
        [(POOL, "balances"), (WITHDRAW, "balances"), (POOL, "delegations"), (POOL, "validators")].iter().enumerate()
    {
        store.address_to_reply_id.save((s(addr), s(kind)), 2_000_000_000 + k as u64);
        store.reply_id_to_query_id.save(2_000_000_000 + k as u64, 10 + k as u64);
    }
    store
}

fn status(store: &Store) -> EraStatus {
    store.pools.get(&s(POOL)).unwrap().status
}

fn submitted(resp: &Response) -> &Vec<stake_manager::chain::ProtobufAny> {
    assert_eq!(resp.messages.len(), 1);
    match &resp.messages[0].msg {
        CosmosMsg::SubmitTx { msgs, .. } => msgs,
        other => panic!("unexpected message {:?}", other),
    }
}

#[test]
fn a_net_unbonding_is_allocated_and_rewards_are_withdrawn_from_the_rest() {
    let mut store = store_in(EraStatus::EraUpdateEnded, 100, 450);
    let resp = execute_era_stake(
        &mut store,
        &env(60, 10_000),
        &funds(2000),
        s(POOL),
        &observed(&[(V1, 100), (V2, 300), (V3, 200)], 51),
        &fee(),
    )
    .unwrap();
    // 350 to unbond: 300 from the largest, 50 from the next; the third gives its reward
    assert_eq!(
        submitted(&resp),
        &vec![
            gen_undelegate_tx(s(POOL), s(V2), s("uatom"), 300),
            gen_undelegate_tx(s(POOL), s(V3), s("uatom"), 50),
            gen_withdraw_reward_tx(s(POOL), s(V1)),
        ]
    );
    assert_eq!(status(&store), EraStatus::EraStakeStarted);
    let payload = read_reply_payload(&store, resp.messages[0].id).unwrap();
    assert_eq!(
        payload,
        SudoPayload {
            message: s("val2_val3"),
            pool_addr: s(POOL),
            port_id: s("icacontroller-contract.pool1"),
            tx_type: TxType::EraBond
        }
    );
    // nothing counts against the validators before the dispatch is acknowledged
    assert_eq!(store.validators_unbonds_time.len(), 0);
    sudo_era_bond_callback(&mut store, &env(70, 10_100), payload).unwrap();
    assert_eq!(status(&store), EraStatus::EraStakeEnded);
    assert_eq!(store.pools.get(&s(POOL)).unwrap().era_snapshot.last_step_height, 70);
    assert_eq!(store.validators_unbonds_time.get(&(s(POOL), s(V2))), Some(&vec![10_100]));
    assert_eq!(store.validators_unbonds_time.get(&(s(POOL), s(V3))), Some(&vec![10_100]));
    assert_eq!(store.validators_unbonds_time.get(&(s(POOL), s(V1))), None);
}

#[test]
fn a_failed_unbonding_does_not_count_against_the_validators() {
    let mut store = store_in(EraStatus::EraUpdateEnded, 0, 10);
    let resp = execute_era_stake(
        &mut store,
        &env(60, 10_000),
        &funds(2000),
        s(POOL),
        &observed(&[(V1, 100)], 51),
        &fee(),
    )
    .unwrap();
    let payload = read_reply_payload(&store, resp.messages[0].id).unwrap();
    sudo_era_bond_failed_callback(&mut store, payload).unwrap();
    assert_eq!(status(&store), EraStatus::EraUpdateEnded);
    assert_eq!(store.validators_unbonds_time.len(), 0);
    assert_eq!(store.pools.get(&s(POOL)).unwrap().era_snapshot.last_step_height, 50);
}

#[test]
fn seven_unbondings_in_flight_hold_a_validator_back() {
    let mut store = store_in(EraStatus::EraUpdateEnded, 0, 250);
    // the unbonding takes 5 eras of 100 seconds
    store.validators_unbonds_time.save((s(POOL), s(V2)), vec![9_400, 9_600, 9_700, 9_800, 9_900, 9_950, 9_990, 9_999]);
    store.validators_unbonds_time.save((s(POOL), s(V3)), vec![1, 2, 9_999]);
    let before = format!("{:?}", store.validators_unbonds_time.get(&(s(POOL), s(V2))));
    // the rest cannot give 301
    let mut short = store_in(EraStatus::EraUpdateEnded, 0, 301);
    short.validators_unbonds_time.save((s(POOL), s(V2)), vec![9_600, 9_700, 9_800, 9_900, 9_950, 9_990, 9_999]);
    assert_eq!(
        execute_era_stake(
            &mut short,
            &env(60, 10_000),
            &funds(2000),
            s(POOL),
            &observed(&[(V1, 100), (V2, 300), (V3, 200)], 51),
            &fee()
        ),
        Err(ContractError::ValidatorForUnbondNotEnough)
    );
    assert_eq!(status(&short), EraStatus::EraUpdateEnded);

    let resp = execute_era_stake(
        &mut store,
        &env(60, 10_000),
        &funds(2000),
        s(POOL),
        &observed(&[(V1, 100), (V2, 300), (V3, 200)], 51),
        &fee(),
    )
    .unwrap();
    assert_eq!(
        submitted(&resp),
        &vec![
            gen_undelegate_tx(s(POOL), s(V3), s("uatom"), 200),
            gen_undelegate_tx(s(POOL), s(V1), s("uatom"), 50),
            gen_withdraw_reward_tx(s(POOL), s(V2)),
        ]
    );
    assert_ne!(format!("{:?}", store.validators_unbonds_time.get(&(s(POOL), s(V2)))), before);
    // the records that the allocation came by hold only what is still in flight
    assert_eq!(
        store.validators_unbonds_time.get(&(s(POOL), s(V2))),
        Some(&vec![9_600, 9_700, 9_800, 9_900, 9_950, 9_990, 9_999])
    );
    assert_eq!(store.validators_unbonds_time.get(&(s(POOL), s(V3))), Some(&vec![9_999]));
}

#[test]
fn era_stake_is_refused_on_stale_or_missing_observations() {
    let mut store = store_in(EraStatus::EraUpdateEnded, 0, 250);
    let all = [(V1, 100u128), (V2, 300), (V3, 200)];
    assert_eq!(
        execute_era_stake(&mut store, &env(60, 10_000), &funds(2000), s(POOL), &observed(&all, 50), &fee()),
        Err(ContractError::DelegationSubmissionHeight)
    );
    assert_eq!(
        execute_era_stake(&mut store, &env(60, 10_000), &funds(2000), s(POOL), &Err(s("down")), &fee()),
        Err(ContractError::QueryFailed(s("down")))
    );
    assert_eq!(
        execute_era_stake(&mut store, &env(60, 10_000), &funds(1999), s(POOL), &observed(&all, 51), &fee()),
        Err(ContractError::ParamsErrorFundsNotMatch)
    );
    assert_eq!(
        execute_era_stake(
            &mut store,
            &env(60, 10_000),
            &MessageInfo { sender: s("anyone"), funds: vec![coin("uatom", 5000)] },
            s(POOL),
            &observed(&all, 51),
            &fee()
        ),
        Err(ContractError::ParamsErrorFundsNotMatch)
    );
    assert_eq!(
        execute_era_stake(&mut store, &env(60, 10_000), &funds(2000), s(POOL), &observed(&all, 51), &Err(s("x"))),
        Err(ContractError::QueryFailed(s("x")))
    );
    assert_eq!(
        execute_era_stake(&mut store, &env(60, 10_000), &funds(2000), s("nowhere"), &observed(&all, 51), &fee()),
        Err(ContractError::NotFound)
    );
    // the query of the pool is not registered
    let mut unregistered = store_in(EraStatus::EraUpdateEnded, 0, 250);
    unregistered.address_to_reply_id.remove(&(s(POOL), s("delegations")));
    assert_eq!(
        execute_era_stake(&mut unregistered, &env(60, 10_000), &funds(2000), s(POOL), &observed(&all, 51), &fee()),
        Err(ContractError::NotFound)
    );
    assert_eq!(status(&store), EraStatus::EraUpdateEnded);
    assert_eq!(store.latest_reply_id, None);
}

#[test]
fn a_small_net_deposit_goes_to_the_first_validator() {
    let mut store = store_in(EraStatus::EraUpdateEnded, 9_999, 0);
    let resp =
        execute_era_stake(&mut store, &env(60, 10_000), &funds(2000), s(POOL), &Err(s("not read")), &fee())
            .unwrap();
    assert_eq!(
        submitted(&resp),
        &vec![
            gen_delegation_txs(s(POOL), s(V1), s("uatom"), 9_999),
            gen_withdraw_reward_tx(s(POOL), s(V2)),
            gen_withdraw_reward_tx(s(POOL), s(V3)),
        ]
    );
    assert_eq!(read_reply_payload(&store, resp.messages[0].id).unwrap().message, "");
}

#[test]
fn a_net_deposit_from_the_threshold_on_is_split_evenly() {
    let mut store = store_in(EraStatus::EraUpdateEnded, 10_000, 0);
    let resp =
        execute_era_stake(&mut store, &env(60, 10_000), &funds(2000), s(POOL), &Err(s("not read")), &fee())
            .unwrap();
    // 10,000 / 3 = 3,333, and the remainder of 1 goes to the first
    assert_eq!(
        submitted(&resp),
        &vec![
            gen_delegation_txs(s(POOL), s(V1), s("uatom"), 3_334),
            gen_delegation_txs(s(POOL), s(V2), s("uatom"), 3_333),
            gen_delegation_txs(s(POOL), s(V3), s("uatom"), 3_333),
        ]
    );
    let mut empty = store_in(EraStatus::EraUpdateEnded, 10_000, 0);
    let mut pool = empty.pools.remove(&s(POOL)).unwrap();
    pool.validator_addrs = vec![];
    empty.pools.save(s(POOL), pool);
    assert_eq!(
        execute_era_stake(&mut empty, &env(60, 10_000), &funds(2000), s(POOL), &Err(s("not read")), &fee()),
        Err(ContractError::ValidatorsEmpty)
    );
}

#[test]
fn an_era_without_net_and_without_delegations_completes_at_once() {
    let mut store = store_in(EraStatus::EraUpdateEnded, 700, 700);
    assert_eq!(
        execute_era_stake(&mut store, &env(60, 10_000), &funds(0), s(POOL), &observed(&[], 51), &Err(s("x"))),
        Ok(Response::new())
    );
    assert_eq!(status(&store), EraStatus::EraStakeEnded);
    // with delegations the rewards are withdrawn
    let mut store = store_in(EraStatus::EraUpdateEnded, 700, 700);
    let resp = execute_era_stake(
        &mut store,
        &env(60, 10_000),
        &funds(2000),
        s(POOL),
        &observed(&[(V2, 5), (V1, 6), (V2, 7)], 51),
        &fee(),
    )
    .unwrap();
    assert_eq!(
        submitted(&resp),
        &vec![gen_withdraw_reward_tx(s(POOL), s(V2)), gen_withdraw_reward_tx(s(POOL), s(V1))]
    );
    assert_eq!(status(&store), EraStatus::EraStakeStarted);
}

#[test]
fn the_balance_of_the_withdrawal_account_is_sent_to_the_pool() {
    let mut store = store_in(EraStatus::EraStakeEnded, 0, 0);
    let balance = |amount: u128, height: u64| {
        Ok(BalanceResponse {
            balances: Balances { coins: vec![coin("other", 3), coin("uatom", amount), coin("uatom", 1)] },
            last_submitted_local_height: height,
        })
    };
    assert_eq!(
        execute_era_collect_withdraw(&mut store, &funds(2000), s(POOL), &balance(777, 50), &fee()),
        Err(ContractError::WithdrawAddrBalanceSubmissionHeight)
    );
    assert_eq!(
        execute_era_collect_withdraw(&mut store, &funds(1000), s(POOL), &balance(777, 51), &fee()),
        Err(ContractError::ParamsErrorFundsNotMatch)
    );
    assert_eq!(status(&store), EraStatus::EraStakeEnded);
    let resp = execute_era_collect_withdraw(&mut store, &funds(2000), s(POOL), &balance(777, 51), &fee()).unwrap();
    match &resp.messages[0].msg {
        CosmosMsg::SubmitTx { connection_id, interchain_account_id, msgs, .. } => {
            assert_eq!(connection_id, "connection-1");
            assert_eq!(interchain_account_id, "pool1-withdraw_addr");
            assert_eq!(msgs, &vec![gen_msg_send(s(WITHDRAW), s(POOL), s("uatom"), s("777"))]);
        }
        other => panic!("unexpected message {:?}", other),
    }
    assert_eq!(status(&store), EraStatus::WithdrawStarted);
    assert_eq!(store.pools.get(&s(POOL)).unwrap().era_snapshot.restake_amount, 777);
    let payload = read_reply_payload(&store, resp.messages[0].id).unwrap();
    assert_eq!(payload.tx_type, TxType::EraCollectWithdraw);
    assert_eq!(payload.port_id, "icacontroller-contract.pool1-withdraw_addr");
    let failed = read_reply_payload(&store, resp.messages[0].id).unwrap();
    sudo_era_collect_withdraw_failed_callback(&mut store, failed).unwrap();
    assert_eq!(status(&store), EraStatus::EraStakeEnded);
    sudo_era_collect_withdraw_callback(&mut store, &env(80, 10_200), payload).unwrap();
    assert_eq!(status(&store), EraStatus::WithdrawEnded);
    assert_eq!(store.pools.get(&s(POOL)).unwrap().era_snapshot.last_step_height, 80);
}

#[test]
fn an_unreadable_or_empty_balance_counts_as_nothing() {
    for balance in [
        Err(s("no result")),
        Ok(BalanceResponse { balances: Balances { coins: vec![] }, last_submitted_local_height: 51 }),
        Ok(BalanceResponse { balances: Balances { coins: vec![coin("other", 9)] }, last_submitted_local_height: 51 }),
    ] {
        let mut store = store_in(EraStatus::EraStakeEnded, 0, 0);
        assert_eq!(
            execute_era_collect_withdraw(&mut store, &funds(0), s(POOL), &balance, &Err(s("x"))),
            Ok(Response::new())
        );
        assert_eq!(status(&store), EraStatus::WithdrawEnded);
    }
    let mut store = store_in(EraStatus::EraUpdateEnded, 0, 0);
    assert_eq!(
        execute_era_collect_withdraw(&mut store, &funds(0), s(POOL), &Err(s("x")), &fee()),
        Err(ContractError::StatusNotAllow)
    );
}

#[test]
fn what_was_collected_is_delegated_again() {
    let mut store = store_in(EraStatus::WithdrawEnded, 0, 0);
    let mut pool = store.pools.remove(&s(POOL)).unwrap();
    pool.era_snapshot.restake_amount = 100;
    store.pools.save(s(POOL), pool);
    assert_eq!(
        execute_era_restake(&mut store, s(POOL), &Err(s("no fee"))),
        Err(ContractError::QueryFailed(s("no fee")))
    );
    let resp = execute_era_restake(&mut store, s(POOL), &fee()).unwrap();
    assert_eq!(
        submitted(&resp),
        &vec![
            gen_delegation_txs(s(POOL), s(V1), s("uatom"), 34),
            gen_delegation_txs(s(POOL), s(V2), s("uatom"), 33),
            gen_delegation_txs(s(POOL), s(V3), s("uatom"), 33),
        ]
    );
    assert_eq!(status(&store), EraStatus::EraRestakeStarted);
    // while the delegation is under way the step cannot be called again
    assert_eq!(execute_era_restake(&mut store, s(POOL), &fee()), Err(ContractError::StatusNotAllow));
    let payload = read_reply_payload(&store, resp.messages[0].id).unwrap();
    assert_eq!(payload.tx_type, TxType::EraRebond);
    let failed = read_reply_payload(&store, resp.messages[0].id).unwrap();
    sudo_era_rebond_failed_callback(&mut store, failed).unwrap();
    assert_eq!(status(&store), EraStatus::WithdrawEnded);
    sudo_era_rebond_callback(&mut store, &env(90, 10_300), payload).unwrap();
    assert_eq!(status(&store), EraStatus::EraRestakeEnded);
    assert_eq!(store.pools.get(&s(POOL)).unwrap().era_snapshot.last_step_height, 90);
}

#[test]
fn era_update_without_deposits_completes_at_once() {
    let mut store = store_in(EraStatus::ActiveEnded, 0, 0);
    let mut pool = store.pools.remove(&s(POOL)).unwrap();
    pool.active = 500;
    pool.unbond = 20;
    pool.offset = -94;
    store.pools.save(s(POOL), pool);
    // 10,000 / 100 - 94 = 6: the next era after 5
    let resp = execute_era_update(&mut store, &env(60, 10_000), s(POOL), &Err(s("not read")), &Err(s("not read")))
        .unwrap();
    assert_eq!(resp.messages.len(), 4);
    let pool = store.pools.get(&s(POOL)).unwrap();
    assert_eq!(pool.status, EraStatus::EraUpdateEnded);
    assert_eq!(pool.era, 6);
    assert_eq!(
        pool.era_snapshot,
        EraSnapshot { era: 6, bond: 0, unbond: 20, active: 500, restake_amount: 0, last_step_height: 60 }
    );
    // far behind the clock the era still goes up by one
    let mut store = store_in(EraStatus::ActiveEnded, 0, 0);
    let mut pool = store.pools.remove(&s(POOL)).unwrap();
    pool.active = 500;
    store.pools.save(s(POOL), pool);
    execute_era_update(&mut store, &env(60, 10_000), s(POOL), &Err(s("x")), &Err(s("x"))).unwrap();
    assert_eq!(store.pools.get(&s(POOL)).unwrap().era, 6);
}

#[test]
fn era_update_is_refused_for_an_empty_pool_and_during_a_change_of_validators() {
    let mut store = store_in(EraStatus::ActiveEnded, 0, 0);
    assert_eq!(
        execute_era_update(&mut store, &env(60, 10_000), s(POOL), &Ok(vec![]), &fee()),
        Err(ContractError::StatusNotAllow)
    );
    let mut pool = store.pools.remove(&s(POOL)).unwrap();
    pool.active = 1;
    pool.validator_update_status = stake_manager::state::ValidatorUpdateStatus::WaitQueryUpdate;
    store.pools.save(s(POOL), pool);
    assert_eq!(
        execute_era_update(&mut store, &env(60, 10_000), s(POOL), &Ok(vec![]), &fee()),
        Err(ContractError::StatusNotAllow)
    );
    let mut pool = store.pools.remove(&s(POOL)).unwrap();
    pool.validator_update_status = stake_manager::state::ValidatorUpdateStatus::End;
    pool.bond = 10;
    store.pools.save(s(POOL), pool);
    // the balances of the contract cannot be read
    assert_eq!(
        execute_era_update(&mut store, &env(60, 10_000), s(POOL), &Err(s("down")), &fee()),
        Err(ContractError::QueryFailed(s("down")))
    );
    // eras without length
    let mut pool = store.pools.remove(&s(POOL)).unwrap();
    pool.era_seconds = 0;
    store.pools.save(s(POOL), pool);
    assert_eq!(
        execute_era_update(&mut store, &env(60, 10_000), s(POOL), &Ok(vec![]), &fee()),
        Err(ContractError::DivideByZero)
    );
    assert_eq!(status(&store), EraStatus::ActiveEnded);
    assert_eq!(store.pools.get(&s(POOL)).unwrap().era, 5);
}

#[test]
fn an_era_is_not_finished_while_liquid_shares_wait_for_redemption() {
    let mut store = store_in(EraStatus::EraRestakeEnded, 0, 0);
    let mut pool = store.pools.remove(&s(POOL)).unwrap();
    pool.share_tokens = vec![coin("val1/7", 5)];
    store.pools.save(s(POOL), pool);
    assert_eq!(
        execute_era_active(&mut store, s(POOL), &observed(&[(V1, 100)], 51)),
        Err(ContractError::PendingShareNotEmpty)
    );
    assert_eq!(status(&store), EraStatus::EraRestakeEnded);
    // in any other status the step is refused before that
    let mut store = store_in(EraStatus::WithdrawEnded, 0, 0);
    assert_eq!(
        execute_era_active(&mut store, s(POOL), &observed(&[(V1, 100)], 51)),
        Err(ContractError::StatusNotAllow)
    );
    // the contract is not set up: there is no protocol commission to apply
    let mut store = store_in(EraStatus::EraRestakeEnded, 0, 0);
    assert_eq!(
        execute_era_active(&mut store, s(POOL), &observed(&[(V1, 100)], 51)),
        Err(ContractError::NotFound)
    );
}

#[test]
fn an_era_that_would_leave_a_rate_of_zero_is_refused() {
    let mut store = store_in(EraStatus::EraRestakeEnded, 0, 0);
    store.stack = Some(stake_manager::state::Stack {
        admin: s("admin"),
        stack_fee_receiver: s("stackfee"),
        stack_fee_commission: 100_000,
        entrusted_pools: vec![],
        lsd_token_code_id: 7,
    });
    let mut pool = store.pools.remove(&s(POOL)).unwrap();
    pool.rate = 2_000_000;
    pool.active = 0;
    pool.total_lsd_token_amount = 1_000;
    pool.era_snapshot.active = 0;
    pool.rate_change_limit = 0;
    store.pools.save(s(POOL), pool);
    let before = format!("{:?}", store.pools.get(&s(POOL)));
    // the remote chain reports no delegation
    assert_eq!(execute_era_active(&mut store, s(POOL), &observed(&[], 51)), Err(ContractError::RateIsZero));
    assert_eq!(format!("{:?}", store.pools.get(&s(POOL))), before);
    assert_eq!(store.era_rate.len(), 0);
    // with a delegation the era is finished, and the rate is above zero
    execute_era_active(&mut store, s(POOL), &observed(&[(V1, 1)], 51)).unwrap();
    let pool = store.pools.get(&s(POOL)).unwrap();
    assert_eq!(pool.status, EraStatus::ActiveEnded);
    assert_eq!(pool.rate, 1_000);
    assert_eq!(store.era_rate.get(&(s(POOL), 5)), Some(&1_000));
}

#[test]
fn the_initialisation_ends_with_the_withdrawal_address() {
    let payload = || SudoPayload {
        message: s(WITHDRAW),
        pool_addr: s(POOL),
        port_id: s("port"),
        tx_type: TxType::SetWithdrawAddr,
    };
    let mut store = store_in(EraStatus::InitStarted, 0, 0);
    sudo_set_withdraw_addr_failed_callback(&mut store, payload()).unwrap();
    assert_eq!(status(&store), EraStatus::InitFailed);
    sudo_set_withdraw_addr_callback(&mut store, payload()).unwrap();
    assert_eq!(status(&store), EraStatus::ActiveEnded);
    let mut missing = payload();
    missing.pool_addr = s("nowhere");
    assert_eq!(sudo_set_withdraw_addr_callback(&mut store, missing), Err(ContractError::NotFound));
}
