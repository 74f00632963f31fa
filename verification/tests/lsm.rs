//! Deposits and redemption of liquid-share tokens.
use stake_manager::chain::{Coin, CosmosMsg, Env, IbcFee, MessageInfo, Response, Validator, ValidatorResponse};
use stake_manager::error_conversion::ContractError;
use stake_manager::execute_redeem_token_for_share::{
    execute_redeem_token_for_share, sudo_redeem_token_for_share_callback,
    sudo_redeem_token_for_share_failed_callback,
};
use stake_manager::execute_stake_lsm::{
    execute_stake_lsm, share_worth, sudo_stake_lsm_callback, sudo_stake_lsm_failed_callback,
};
use stake_manager::helper::{
    denom_trace_request, query_denom_trace_from_ibc_denom, redeem_token_for_share_msg, DenomTrace,
    QueryDenomTraceRequest, QueryDenomTraceResponse,
};
use stake_manager::state::{
    read_reply_payload, EraStatus, IcaInfo, IcaInfos, PoolInfo, Store, SudoPayload, TxType,
};

const POOL: &str = "cosmos15fqjpj90ruhj57q3l6a5hda0rt77g6mcuz7w8n";
const VAL1: &str = "cosmosvaloper132juzk0gdmwuxvx4phug7m3ymyatxlh9734g4w";

fn s(x: &str) -> String {
    x.to_string()
}

fn coin(denom: &str, amount: u128) -> Coin {
    Coin { denom: s(denom), amount }
}

fn env() -> Env {
    Env { block_height: 60, block_time_nanos: 5_000_000_000, contract_address: s("contract") }
}

fn fee() -> Result<IbcFee, String> {
    Ok(IbcFee { recv_fee: vec![], ack_fee: vec![coin("untrn", 1000)], timeout_fee: vec![] })
}

fn share_funds(amount: u128) -> MessageInfo {
    MessageInfo { sender: s("alice"), funds: vec![coin("ibc/SHARE", amount)] }
}

fn trace(path: &str, base: &str) -> Result<QueryDenomTraceResponse, String> {
    Ok(QueryDenomTraceResponse { denom_trace: DenomTrace { path: s(path), base_denom: s(base) } })
}

fn share_trace() -> Result<QueryDenomTraceResponse, String> {
    trace("transfer/channel-8", &format!("{}/7", VAL1))
}

fn validators(tokens: &str, shares: &str) -> Result<ValidatorResponse, String> {
    Ok(ValidatorResponse {
        validators: vec![
            Validator { operator_address: s("other"), tokens: s("1"), delegator_shares: s("1") },
            Validator { operator_address: s(VAL1), tokens: s(tokens), delegator_shares: s(shares) },
        ],
        last_submitted_local_height: 55,
    })
}

fn lsm_store() -> Store {
    let mut store = Store::new();
    let mut pool = PoolInfo::default();
    pool.ica_id = s("pool1");
    pool.admin = s("creator");
    pool.lsd_token = s("lsdtoken");
    pool.remote_denom = s("uatom");
    pool.status = EraStatus::ActiveEnded;
    pool.rate = 2_000_000;
    pool.active = 1_000;
    pool.total_lsd_token_amount = 500;
    pool.minimal_stake = 100;
    pool.lsm_support = true;
    pool.lsm_pending_limit = 2;
    pool.validator_addrs = vec![s(VAL1)];
    store.pools.save(s(POOL), pool);
    store.info_of_ica_id.save(
        s("pool1"),
        IcaInfos {
            pool_address_ica_info: IcaInfo {
                ctrl_connection_id: s("connection-0"),
                host_connection_id: s("connection-9"),
                ctrl_channel_id: s("channel-1"),
                host_channel_id: s("channel-100"),
                ctrl_port_id: s("icacontroller-contract.pool1"),
                ica_addr: s(POOL),
            },
            withdraw_address_ica_info: IcaInfo::default(),
            admin: s("creator"),
        },
    );
    store.address_to_reply_id.save((s(POOL), s("validators")), 2_000_000_003);
    store.reply_id_to_query_id.save(2_000_000_003, 13);
    store
}

fn with_pool(store: &mut Store, change: fn(&mut PoolInfo)) {
    let mut pool = store.pools.remove(&s(POOL)).unwrap();
    change(&mut pool);
    store.pools.save(s(POOL), pool);
}

#[test]
fn shares_are_worth_the_tokens_of_the_validator_per_share() {
    let v = |tokens: &str, shares: &str| Validator {
        operator_address: s(VAL1),
        tokens: s(tokens),
        delegator_shares: s(shares),
    };
    // 900 tokens for 1000 whole shares
    assert_eq!(share_worth(&v("900", "1000000000000000000000"), 500), Ok(450));
    assert_eq!(share_worth(&v("900", "1000999999999999999999"), 500), Ok(450));
    assert_eq!(share_worth(&v("1000", "3000000000000000000"), 10), Ok(3333));
    assert_eq!(share_worth(&v("900", "999999999999999999"), 500), Err(ContractError::DivideByZero));
    assert_eq!(share_worth(&v("nine", "1000000000000000000000"), 500), Err(ContractError::NoValidatorInfo));
    assert_eq!(share_worth(&v("900", "1.5"), 500), Err(ContractError::NoValidatorInfo));
    assert_eq!(
        share_worth(&v("340282366920938463463374607431768211455", "1000000000000000000"), 2),
        Err(ContractError::Overflow)
    );
}

#[test]
fn a_denomination_is_asked_for_by_its_hash() {
    assert_eq!(denom_trace_request(&s("ibc/ABCDEF")), Ok(QueryDenomTraceRequest { hash: s("ABCDEF") }));
    assert_eq!(denom_trace_request(&s("uatom")), Err(ContractError::DenomNotMatch));
    assert_eq!(denom_trace_request(&s("a/b/c")), Err(ContractError::DenomNotMatch));
    let answer = trace("transfer/channel-8", "uatom");
    assert_eq!(query_denom_trace_from_ibc_denom(&s("ibc/ABCDEF"), &answer), Ok(answer.as_ref().unwrap()));
    assert_eq!(query_denom_trace_from_ibc_denom(&s("uatom"), &answer), Err(ContractError::DenomNotMatch));
    assert_eq!(
        query_denom_trace_from_ibc_denom(&s("ibc/ABCDEF"), &Err(s("unknown hash"))),
        Err(ContractError::QueryFailed(s("unknown hash")))
    );
}

#[test]
fn liquid_shares_are_transferred_and_credited_on_acknowledgement() {
    let mut store = lsm_store();
    let resp = execute_stake_lsm(
        &mut store,
        &env(),
        &share_funds(500),
        s("alice"),
        s(POOL),
        &share_trace(),
        &validators("900", "1000000000000000000000"),
        &fee(),
    )
    .unwrap();
    assert_eq!(resp.messages.len(), 1);
    assert_eq!(
        resp.messages[0].msg,
        CosmosMsg::IbcTransfer {
            source_port: s("transfer"),
            source_channel: s("channel-8"),
            sender: s("contract"),
            receiver: s(POOL),
            token: coin("ibc/SHARE", 500),
            timeout_timestamp: 5_000_000_000 + 108_000_000_000_000,
            memo: s(""),
            fee: IbcFee { recv_fee: vec![], ack_fee: vec![coin("untrn", 1000)], timeout_fee: vec![] },
        }
    );
    let payload = read_reply_payload(&store, resp.messages[0].id).unwrap();
    assert_eq!(payload.message, format!("alice_450_500_ibc/SHARE_{}/7", VAL1));
    assert_eq!(payload.tx_type, TxType::StakeLsm);
    // the pool changes only when the transfer is acknowledged
    assert_eq!(store.pools.get(&s(POOL)).unwrap().active, 1_000);

    let resp = sudo_stake_lsm_callback(&mut store, payload).unwrap();
    // 450 at the rate two
    assert_eq!(
        resp.messages[0].msg,
        CosmosMsg::Mint { contract_addr: s("lsdtoken"), recipient: s("alice"), amount: 225 }
    );
    let attrs: Vec<(&str, &str)> = resp.attributes.iter().map(|a| (a.key.as_str(), a.value.as_str())).collect();
    assert_eq!(
        attrs,
        vec![
            ("action", "stake_lsm"),
            ("pool", POOL),
            ("staker", "alice"),
            ("token_amount", "450"),
            ("lsd_token_amount", "225"),
        ]
    );
    let pool = store.pools.get(&s(POOL)).unwrap();
    assert_eq!(pool.active, 1_450);
    assert_eq!(pool.total_lsd_token_amount, 725);
    assert_eq!(pool.share_tokens, vec![coin(&format!("{}/7", VAL1), 500)]);
}

#[test]
fn a_failed_transfer_sends_the_shares_back() {
    let payload = |m: &str| SudoPayload { message: s(m), pool_addr: s(POOL), port_id: s("p"), tx_type: TxType::StakeLsm };
    let resp = sudo_stake_lsm_failed_callback(payload("alice_450_500_ibc/SHARE_val/7")).unwrap();
    assert_eq!(resp.messages.len(), 1);
    assert_eq!(
        resp.messages[0].msg,
        CosmosMsg::BankSend { to_address: s("alice"), amount: vec![coin("ibc/SHARE", 500)] }
    );
    assert_eq!(
        sudo_stake_lsm_failed_callback(payload("alice_450_500_ibc/SHARE")),
        Err(ContractError::UnsupportedMessage(s("alice_450_500_ibc/SHARE")))
    );
    assert_eq!(
        sudo_stake_lsm_failed_callback(payload("alice_450_x_ibc/SHARE_val/7")),
        Err(ContractError::UnsupportedMessage(s("alice_450_x_ibc/SHARE_val/7")))
    );
    let mut store = lsm_store();
    assert_eq!(
        sudo_stake_lsm_callback(&mut store, payload("alice_x_500_ibc/SHARE_val/7")),
        Err(ContractError::UnsupportedMessage(s("alice_x_500_ibc/SHARE_val/7")))
    );
    assert_eq!(
        sudo_stake_lsm_callback(&mut store, payload("a_b")),
        Err(ContractError::UnsupportedMessage(s("a_b")))
    );
}

#[test]
fn deposits_of_liquid_shares_are_refused_in_turn() {
    let good_validators = validators("900", "1000000000000000000000");
    let call = |store: &mut Store,
                info: &MessageInfo,
                trace: &Result<QueryDenomTraceResponse, String>,
                vals: &Result<ValidatorResponse, String>| {
        execute_stake_lsm(store, &env(), info, s("alice"), s(POOL), trace, vals, &fee())
    };
    let mut store = lsm_store();
    with_pool(&mut store, |p| p.lsm_support = false);
    assert_eq!(
        call(&mut store, &share_funds(500), &share_trace(), &good_validators),
        Err(ContractError::LsmStakeNotSupport)
    );
    let mut store = lsm_store();
    with_pool(&mut store, |p| p.share_tokens = vec![coin("a/1", 1), coin("b/2", 2)]);
    assert_eq!(
        call(&mut store, &share_funds(500), &share_trace(), &good_validators),
        Err(ContractError::LsmPendingStakeOverLimit)
    );
    let mut store = lsm_store();
    with_pool(&mut store, |p| p.status = EraStatus::EraUpdateEnded);
    assert_eq!(
        call(&mut store, &share_funds(500), &share_trace(), &good_validators),
        Err(ContractError::EraProcessNotEnd)
    );
    let mut store = lsm_store();
    with_pool(&mut store, |p| p.paused = true);
    assert_eq!(
        call(&mut store, &share_funds(500), &share_trace(), &good_validators),
        Err(ContractError::PoolIsPaused)
    );
    let mut store = lsm_store();
    let plain = MessageInfo { sender: s("alice"), funds: vec![coin("uatom", 500)] };
    assert_eq!(
        call(&mut store, &plain, &share_trace(), &good_validators),
        Err(ContractError::ParamsErrorFundsNotMatch)
    );
    assert_eq!(
        call(&mut store, &share_funds(99), &share_trace(), &good_validators),
        Err(ContractError::LessThanMinimalStake)
    );
    assert_eq!(
        call(&mut store, &share_funds(500), &trace("transfer", "val/7"), &good_validators),
        Err(ContractError::DenomPathNotMatch)
    );
    assert_eq!(
        call(&mut store, &share_funds(500), &trace("transfer/channel-8", "uatom"), &good_validators),
        Err(ContractError::DenomTraceNotMatch)
    );
    assert_eq!(
        call(&mut store, &share_funds(500), &trace("transfer/channel-8", "stranger/7"), &good_validators),
        Err(ContractError::ValidatorNotSupport)
    );
    assert_eq!(
        call(&mut store, &share_funds(500), &share_trace(), &Err(s("down"))),
        Err(ContractError::QueryFailed(s("down")))
    );
    let unknown = Ok(ValidatorResponse { validators: vec![], last_submitted_local_height: 55 });
    assert_eq!(call(&mut store, &share_funds(500), &share_trace(), &unknown), Err(ContractError::NoValidatorInfo));
    assert_eq!(
        call(&mut store, &share_funds(500), &share_trace(), &validators("1", "1000000000000000000000")),
        Err(ContractError::TokenAmountZero)
    );
    assert_eq!(store.latest_reply_id, None);
}

#[test]
fn shares_are_redeemed_and_leave_the_pool_on_acknowledgement() {
    let mut store = lsm_store();
    with_pool(&mut store, |p| p.share_tokens = vec![coin("a/1", 10), coin("b/2", 20), coin("c/3", 30)]);
    let resp =
        execute_redeem_token_for_share(&mut store, s(POOL), vec![coin("c/3", 30), coin("a/1", 10)], &fee()).unwrap();
    match &resp.messages[0].msg {
        CosmosMsg::SubmitTx { msgs, interchain_account_id, .. } => {
            assert_eq!(interchain_account_id, "pool1");
            assert_eq!(
                msgs,
                &vec![
                    redeem_token_for_share_msg(s(POOL), coin("c/3", 30)),
                    redeem_token_for_share_msg(s(POOL), coin("a/1", 10)),
                ]
            );
        }
        other => panic!("unexpected message {:?}", other),
    }
    assert_eq!(store.pools.get(&s(POOL)).unwrap().redeemming_share_token_denom, vec![s("c/3"), s("a/1")]);
    let payload = read_reply_payload(&store, resp.messages[0].id).unwrap();
    assert_eq!(payload.message, "c/3,a/1");
    assert_eq!(payload.tx_type, TxType::RedeemTokenForShare);
    let failed = read_reply_payload(&store, resp.messages[0].id).unwrap();
    assert_eq!(sudo_redeem_token_for_share_failed_callback(&mut store, failed), Ok(Response::new()));
    {
        let pool = store.pools.get(&s(POOL)).unwrap();
        assert!(pool.redeemming_share_token_denom.is_empty());
        assert_eq!(pool.share_tokens.len(), 3);
    }
    sudo_redeem_token_for_share_callback(&mut store, payload).unwrap();
    assert_eq!(store.pools.get(&s(POOL)).unwrap().share_tokens, vec![coin("b/2", 20)]);
}

#[test]
fn redemption_is_refused_for_tokens_the_pool_does_not_hold() {
    let mut store = lsm_store();
    with_pool(&mut store, |p| p.share_tokens = vec![coin("a/1", 10), coin("a/1", 11), coin("b/2", 20)]);
    assert_eq!(
        execute_redeem_token_for_share(&mut store, s(POOL), vec![], &fee()),
        Err(ContractError::TokensLenNotMatch)
    );
    assert_eq!(
        execute_redeem_token_for_share(&mut store, s(POOL), vec![coin("a/1", 10); 11], &fee()),
        Err(ContractError::TokensLenNotMatch)
    );
    assert_eq!(
        execute_redeem_token_for_share(&mut store, s(POOL), vec![coin("a/1", 12)], &fee()),
        Err(ContractError::ShareTokenNotExist)
    );
    assert_eq!(
        execute_redeem_token_for_share(&mut store, s(POOL), vec![coin("a/1", 10), coin("a/1", 11)], &fee()),
        Err(ContractError::DuplicateToken)
    );
    assert_eq!(
        execute_redeem_token_for_share(&mut store, s(POOL), vec![coin("a/1", 10)], &Err(s("x"))),
        Err(ContractError::QueryFailed(s("x")))
    );
    assert!(store.pools.get(&s(POOL)).unwrap().redeemming_share_token_denom.is_empty());
    assert_eq!(store.latest_reply_id, None);
}
