//! The instructions for the remote chain, read back with the crates that define them.
use cosmos_sdk_proto::cosmos::bank::v1beta1::{Balance, MsgSend};
use cosmos_sdk_proto::cosmos::distribution::v1beta1::{MsgSetWithdrawAddress, MsgWithdrawDelegatorReward};
use cosmos_sdk_proto::cosmos::staking::v1beta1::{MsgBeginRedelegate, MsgDelegate, MsgUndelegate};
use cosmos_sdk_proto::prost::Message;
use neutron_sdk::bindings::msg::NeutronMsg;
use neutron_sdk::interchain_queries::v045::{
    new_register_balance_query_msg, new_register_delegator_delegations_query_msg,
    new_register_staking_validators_query_msg,
};
use stake_manager::chain::{Coin, CosmosMsg, KVKey};
use stake_manager::error_conversion::ContractError;
use stake_manager::helper::{
    gen_delegation_txs, gen_msg_send, gen_redelegate_txs, gen_set_withdraw_address_tx, gen_undelegate_tx,
    gen_withdraw_reward_tx, protobuf_any, redeem_token_for_share_msg, register_balance_query_msg,
    register_delegator_delegations_query_msg, register_query_msg_of, register_staking_validators_query_msg,
    submit_tx, validators_icq_update, RawCoin,
};
use stake_manager::state::Store;

const POOL: &str = "cosmos15fqjpj90ruhj57q3l6a5hda0rt77g6mcuz7w8n";
const VAL1: &str = "cosmosvaloper132juzk0gdmwuxvx4phug7m3ymyatxlh9734g4w";
const VAL2: &str = "cosmosvaloper15fqjpj90ruhj57q3l6a5hda0rt77g6mcek2mtq";

fn s(x: &str) -> String {
    x.to_string()
}

fn keys_of(msg: NeutronMsg) -> Vec<KVKey> {
    match msg {
        NeutronMsg::RegisterInterchainQuery { keys, .. } => {
            keys.into_iter().map(|k| KVKey { path: k.path, key: k.key.0 }).collect()
        }
        other => panic!("unexpected message {:?}", other),
    }
}

#[test]
fn a_delegation_reads_back() {
    let any = gen_delegation_txs(s(POOL), s(VAL1), s("uatom"), 1_234_567);
    assert_eq!(any.type_url, "/cosmos.staking.v1beta1.MsgDelegate");
    let msg = MsgDelegate::decode(any.value.as_slice()).unwrap();
    assert_eq!(msg.delegator_address, POOL);
    assert_eq!(msg.validator_address, VAL1);
    let amount = msg.amount.unwrap();
    assert_eq!(amount.denom, "uatom");
    assert_eq!(amount.amount, "1234567");
    // field 1, length 45, the address ...
    assert_eq!(&any.value[..3], &[0x0a, 45, b'c']);
}

#[test]
fn a_redelegation_reads_back() {
    let any = gen_redelegate_txs(s(POOL), s(VAL1), s(VAL2), s("uatom"), 42);
    assert_eq!(any.type_url, "/cosmos.staking.v1beta1.BeginRedelegate");
    let msg = MsgBeginRedelegate::decode(any.value.as_slice()).unwrap();
    assert_eq!(msg.delegator_address, POOL);
    assert_eq!(msg.validator_src_address, VAL1);
    assert_eq!(msg.validator_dst_address, VAL2);
    let amount = msg.amount.unwrap();
    assert_eq!((amount.denom.as_str(), amount.amount.as_str()), ("uatom", "42"));
}

#[test]
fn an_undelegation_reads_back() {
    let any = gen_undelegate_tx(s(POOL), s(VAL2), s("uatom"), 0);
    assert_eq!(any.type_url, "/cosmos.staking.v1beta1.MsgUndelegate");
    let msg = MsgUndelegate::decode(any.value.as_slice()).unwrap();
    assert_eq!(msg.delegator_address, POOL);
    assert_eq!(msg.validator_address, VAL2);
    let amount = msg.amount.unwrap();
    assert_eq!((amount.denom.as_str(), amount.amount.as_str()), ("uatom", "0"));
}

#[test]
fn a_reward_withdrawal_reads_back() {
    let any = gen_withdraw_reward_tx(s(POOL), s(VAL1));
    assert_eq!(any.type_url, "/cosmos.distribution.v1beta1.MsgWithdrawDelegatorReward");
    let msg = MsgWithdrawDelegatorReward::decode(any.value.as_slice()).unwrap();
    assert_eq!(msg.delegator_address, POOL);
    assert_eq!(msg.validator_address, VAL1);
}

#[test]
fn a_withdrawal_address_reads_back() {
    let any = gen_set_withdraw_address_tx(s(POOL), s("cosmos1withdraw"));
    assert_eq!(any.type_url, "/cosmos.distribution.v1beta1.MsgSetWithdrawAddress");
    let msg = MsgSetWithdrawAddress::decode(any.value.as_slice()).unwrap();
    assert_eq!(msg.delegator_address, POOL);
    assert_eq!(msg.withdraw_address, "cosmos1withdraw");
}

#[test]
fn a_send_reads_back() {
    let any = gen_msg_send(s(POOL), s("cosmos1receiver"), s("uatom"), s("1249996"));
    assert_eq!(any.type_url, "/cosmos.bank.v1beta1.MsgSend");
    let msg = MsgSend::decode(any.value.as_slice()).unwrap();
    assert_eq!(msg.from_address, POOL);
    assert_eq!(msg.to_address, "cosmos1receiver");
    assert_eq!(msg.amount.len(), 1);
    assert_eq!((msg.amount[0].denom.as_str(), msg.amount[0].amount.as_str()), ("uatom", "1249996"));
}

#[test]
fn a_redemption_has_the_delegator_in_field_one_and_the_coin_in_field_two() {
    let any = redeem_token_for_share_msg(s("del"), Coin { denom: s("val/7"), amount: 15 });
    assert_eq!(any.type_url, "/cosmos.staking.v1beta1.MsgRedeemTokensForShares");
    assert_eq!(
        any.value,
        vec![
            0x0a, 3, b'd', b'e', b'l', // field 1: the delegator
            0x12, 11, // field 2: the coin, eleven bytes
            0x0a, 5, b'v', b'a', b'l', b'/', b'7', // its field 1: the denomination
            0x12, 2, b'1', b'5', // its field 2: the amount
        ]
    );
    let read = Balance::decode(any.value.as_slice()).unwrap();
    assert_eq!(read.address, "del");
    assert_eq!(read.coins.len(), 1);
    assert_eq!(
        RawCoin::from_coin(Coin { denom: s("val/7"), amount: 15 }),
        RawCoin { denom: s("val/7"), amount: s("15") }
    );
}

#[test]
fn query_keys_are_those_the_sdk_builds() {
    let validators = vec![s(VAL1), s(VAL2)];
    let expected =
        keys_of(new_register_delegator_delegations_query_msg(s("c"), s(POOL), validators.clone(), 5).unwrap());
    assert_eq!(expected.len(), 5);
    assert_eq!(
        register_delegator_delegations_query_msg(s("connection-0"), s(POOL), validators.clone(), 86400),
        Ok(CosmosMsg::RegisterInterchainQuery {
            keys: expected,
            connection_id: s("connection-0"),
            update_period: 86400
        })
    );
    let expected = keys_of(new_register_staking_validators_query_msg(s("c"), validators.clone(), 5).unwrap());
    assert_eq!(expected.len(), 2);
    assert_eq!(expected[0].path, "staking");
    assert_eq!(
        register_staking_validators_query_msg(s("connection-0"), validators.clone(), 6),
        Ok(CosmosMsg::RegisterInterchainQuery { keys: expected, connection_id: s("connection-0"), update_period: 6 })
    );
    let expected = keys_of(new_register_balance_query_msg(s("c"), s(POOL), s("uatom"), 5).unwrap());
    assert_eq!(expected.len(), 1);
    assert_eq!(expected[0].path, "bank");
    assert_eq!(
        register_balance_query_msg(s("connection-0"), s(POOL), s("uatom"), 86400),
        Ok(CosmosMsg::RegisterInterchainQuery {
            keys: expected,
            connection_id: s("connection-0"),
            update_period: 86400
        })
    );
}

#[test]
fn keys_cannot_be_built_from_what_is_no_address() {
    assert_eq!(
        register_delegator_delegations_query_msg(s("c"), s("not an address"), vec![s(VAL1)], 5),
        Err(ContractError::ICQNewKeyBuildFailed)
    );
    assert_eq!(
        register_delegator_delegations_query_msg(s("c"), s(POOL), vec![s(VAL1), s("x")], 5),
        Err(ContractError::ICQNewKeyBuildFailed)
    );
    assert_eq!(
        register_staking_validators_query_msg(s("c"), vec![s("cosmosvaloper1broken")], 5),
        Err(ContractError::ICQNewKeyBuildFailed)
    );
    assert_eq!(
        register_balance_query_msg(s("c"), s(""), s("uatom"), 5),
        Err(ContractError::ICQNewKeyBuildFailed)
    );
    // an empty set of validators has the one key of the staking parameters
    match register_delegator_delegations_query_msg(s("c"), s(POOL), vec![], 5) {
        Ok(CosmosMsg::RegisterInterchainQuery { keys, .. }) => assert_eq!(keys.len(), 1),
        other => panic!("unexpected outcome {:?}", other),
    }
}

#[test]
fn encoded_bytes_are_wrapped_with_the_name_of_their_type() {
    let any = protobuf_any("/some.Type", vec![1, 2, 3]);
    assert_eq!(any.type_url, "/some.Type");
    assert_eq!(any.value, vec![1, 2, 3]);
    assert_eq!(protobuf_any("", vec![]).value, Vec::<u8>::new());
}

#[test]
fn a_registration_needs_keys() {
    let key = || KVKey { path: s("staking"), key: vec![0x21, 7] };
    assert_eq!(
        register_query_msg_of(Some(vec![key()]), s("connection-0"), 60),
        Ok(CosmosMsg::RegisterInterchainQuery { keys: vec![key()], connection_id: s("connection-0"), update_period: 60 })
    );
    assert_eq!(
        register_query_msg_of(Some(vec![]), s("connection-0"), 60),
        Ok(CosmosMsg::RegisterInterchainQuery { keys: vec![], connection_id: s("connection-0"), update_period: 60 })
    );
    assert_eq!(register_query_msg_of(None, s("connection-0"), 60), Err(ContractError::ICQNewKeyBuildFailed));
}

#[test]
fn the_queries_for_the_validators_are_given_their_keys() {
    let key = |n: u8| KVKey { path: s("staking"), key: vec![n] };
    let mut store = Store::new();
    assert_eq!(
        validators_icq_update(&store, s(POOL), None, Some(vec![key(2)])),
        Err(ContractError::ICQNewKeyBuildFailed)
    );
    // the delegations query of the pool is not registered
    assert_eq!(
        validators_icq_update(&store, s(POOL), Some(vec![key(1)]), None),
        Err(ContractError::NotFound)
    );
    store.address_to_reply_id.save((s(POOL), s("delegations")), 2_000_000_002);
    store.reply_id_to_query_id.save(2_000_000_002, 12);
    assert_eq!(
        validators_icq_update(&store, s(POOL), Some(vec![key(1)]), None),
        Err(ContractError::ICQNewKeyBuildFailed)
    );
    assert_eq!(
        validators_icq_update(&store, s(POOL), Some(vec![key(1)]), Some(vec![key(2)])),
        Err(ContractError::NotFound)
    );
    store.address_to_reply_id.save((s(POOL), s("validators")), 2_000_000_003);
    store.reply_id_to_query_id.save(2_000_000_003, 13);
    let resp = validators_icq_update(&store, s(POOL), Some(vec![key(1)]), Some(vec![key(2), key(3)])).unwrap();
    assert_eq!(resp.messages.len(), 2);
    assert_eq!(
        resp.messages[0].msg,
        CosmosMsg::UpdateInterchainQuery { query_id: 12, new_keys: Some(vec![key(1)]), new_update_period: None }
    );
    assert_eq!(
        resp.messages[1].msg,
        CosmosMsg::UpdateInterchainQuery {
            query_id: 13,
            new_keys: Some(vec![key(2), key(3)]),
            new_update_period: None
        }
    );
}

#[test]
fn instructions_are_submitted_with_the_usual_timeout() {
    let fee = stake_manager::chain::IbcFee { recv_fee: vec![], ack_fee: vec![], timeout_fee: vec![] };
    match submit_tx(s("connection-0"), s("pool1"), vec![gen_withdraw_reward_tx(s(POOL), s(VAL1))], fee) {
        CosmosMsg::SubmitTx { connection_id, interchain_account_id, msgs, memo, timeout, .. } => {
            assert_eq!(connection_id, "connection-0");
            assert_eq!(interchain_account_id, "pool1");
            assert_eq!(msgs.len(), 1);
            assert_eq!(memo, "");
            assert_eq!(timeout, 30 * 60 * 60);
        }
        other => panic!("unexpected message {:?}", other),
    }
}
