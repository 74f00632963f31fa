//! Changes of the validator set of a pool.
use stake_manager::chain::{Coin, CosmosMsg, Delegation, DelegatorDelegationsResponse, IbcFee, MessageInfo, Response};
use stake_manager::error_conversion::ContractError;
use stake_manager::execute_pool_add_validator::execute_add_pool_validators;
use stake_manager::execute_pool_rm_validator::{
    execute_rm_pool_validator, sudo_rm_validator_callback, sudo_rm_validator_failed_callback,
};
use stake_manager::execute_pool_update_validator::{
    execute_pool_update_validator, sudo_update_validator_callback, sudo_update_validator_failed_callback,
};
use stake_manager::execute_update_validators_icq::execute_update_validators_icq;
use stake_manager::helper::gen_redelegate_txs;
use stake_manager::state::{
    read_reply_payload, EraStatus, IcaInfo, IcaInfos, PoolInfo, Store, SudoPayload, TxType,
    ValidatorUpdateStatus,
};

const POOL: &str = "cosmos15fqjpj90ruhj57q3l6a5hda0rt77g6mcuz7w8n";
const VAL1: &str = "cosmosvaloper132juzk0gdmwuxvx4phug7m3ymyatxlh9734g4w";
const VAL2: &str = "cosmosvaloper15fqjpj90ruhj57q3l6a5hda0rt77g6mcek2mtq";
const VAL3: &str = "cosmosvaloper1sjllsnramtg3ewxqwwrwjxfgc4n4ef9u2lcnj0";

fn s(x: &str) -> String {
    x.to_string()
}

fn admin(funds: u128) -> MessageInfo {
    MessageInfo { sender: s("creator"), funds: vec![Coin { denom: s("untrn"), amount: funds }] }
}

fn fee() -> Result<IbcFee, String> {
    Ok(IbcFee {
        recv_fee: vec![],
        ack_fee: vec![Coin { denom: s("untrn"), amount: 1000 }],
        timeout_fee: vec![Coin { denom: s("untrn"), amount: 1000 }],
    })
}

fn observed(amounts: &[(&str, u128)]) -> Result<DelegatorDelegationsResponse, String> {
    observed_at(amounts, 10)
}

fn observed_at(amounts: &[(&str, u128)], height: u64) -> Result<DelegatorDelegationsResponse, String> {
    Ok(DelegatorDelegationsResponse {
        delegations: amounts
            .iter()
            .map(|(v, a)| Delegation {
                delegator: s(POOL),
                validator: s(v),
                amount: Coin { denom: s("uatom"), amount: *a },
            })
            .collect(),
        last_submitted_local_height: height,
    })
}

fn store_with_validators(validators: &[&str]) -> Store {
    let mut store = Store::new();
    let mut pool = PoolInfo::default();
    pool.ica_id = s("pool1");
    pool.admin = s("creator");
    pool.remote_denom = s("uatom");
    pool.status = EraStatus::ActiveEnded;
    pool.rate = 1_000_000;
    pool.validator_addrs = validators.iter().map(|v| s(v)).collect();
    pool.era_snapshot.last_step_height = 9;
    store.pools.save(s(POOL), pool);
    store.info_of_ica_id.save(
        s("pool1"),
        IcaInfos {
            pool_address_ica_info: IcaInfo {
                ctrl_connection_id: s("connection-0"),
                host_connection_id: s("connection-9"),
                ctrl_channel_id: s("channel-1"),
                host_channel_id: s("channel-100"),
                ctrl_port_id: s("icacontroller-contract.pool1"),
                ica_addr: s(POOL),
            },
            withdraw_address_ica_info: IcaInfo::default(),
            admin: s("creator"),
        },
    );
    store.address_to_reply_id.save((s(POOL), s("delegations")), 2_000_000_002);
    store.address_to_reply_id.save((s(POOL), s("validators")), 2_000_000_003);
    store.reply_id_to_query_id.save(2_000_000_002, 12);
    store.reply_id_to_query_id.save(2_000_000_003, 13);
    store
}

fn snapshot(store: &Store) -> String {
    format!("{:?} {:?} {:?}", store.pools.get(&s(POOL)), store.latest_reply_id, store.reply_id_to_payload.len())
}

#[test]
fn the_last_validator_cannot_be_removed() {
    let mut store = store_with_validators(&[VAL1]);
    let before = snapshot(&store);
    assert_eq!(
        execute_rm_pool_validator(&mut store, &admin(2000), s(POOL), s(VAL1), &observed(&[(VAL1, 500)]), &fee()),
        Err(ContractError::ValidatorAddressesListSize)
    );
    // whatever is observed of the remote chain
    assert_eq!(
        execute_rm_pool_validator(&mut store, &admin(2000), s(POOL), s(VAL1), &observed(&[]), &fee()),
        Err(ContractError::ValidatorAddressesListSize)
    );
    assert_eq!(
        execute_rm_pool_validator(&mut store, &admin(2000), s(POOL), s(VAL1), &Err(s("unknown")), &fee()),
        Err(ContractError::ValidatorAddressesListSize)
    );
    assert_eq!(snapshot(&store), before);
    let pool = store.pools.get(&s(POOL)).unwrap();
    assert_eq!(pool.validator_addrs, vec![s(VAL1)]);
    assert_eq!(pool.validator_update_status, ValidatorUpdateStatus::End);
}

#[test]
fn a_validator_without_stake_leaves_at_once() {
    let mut store = store_with_validators(&[VAL1, VAL2, VAL3]);
    let resp = execute_rm_pool_validator(
        &mut store,
        &admin(0),
        s(POOL),
        s(VAL2),
        &observed(&[(VAL1, 500), (VAL2, 0)]),
        &Err(s("no fee needed")),
    );
    assert_eq!(resp, Ok(Response::new()));
    let pool = store.pools.get(&s(POOL)).unwrap();
    assert_eq!(pool.validator_addrs, vec![s(VAL1), s(VAL3)]);
    assert_eq!(pool.validator_update_status, ValidatorUpdateStatus::WaitQueryUpdate);

    // the same where the remote chain knows no delegation to it
    let mut store = store_with_validators(&[VAL1, VAL2, VAL3]);
    execute_rm_pool_validator(&mut store, &admin(0), s(POOL), s(VAL3), &observed(&[(VAL1, 500)]), &fee())
        .unwrap();
    assert_eq!(store.pools.get(&s(POOL)).unwrap().validator_addrs, vec![s(VAL1), s(VAL2)]);
}

#[test]
fn a_validator_with_stake_leaves_when_its_stake_was_moved() {
    let mut store = store_with_validators(&[VAL1, VAL2, VAL3]);
    let resp = execute_rm_pool_validator(
        &mut store,
        &admin(2000),
        s(POOL),
        s(VAL1),
        &observed(&[(VAL1, 500), (VAL2, 7)]),
        &fee(),
    )
    .unwrap();
    assert_eq!(resp.messages.len(), 1);
    match &resp.messages[0].msg {
        CosmosMsg::SubmitTx { msgs, interchain_account_id, .. } => {
            assert_eq!(interchain_account_id, "pool1");
            // everything goes to the first validator that stays
            assert_eq!(msgs, &vec![gen_redelegate_txs(s(POOL), s(VAL1), s(VAL2), s("uatom"), 500)]);
        }
        other => panic!("unexpected message {:?}", other),
    }
    {
        let pool = store.pools.get(&s(POOL)).unwrap();
        assert_eq!(pool.validator_addrs, vec![s(VAL1), s(VAL2), s(VAL3)]);
        assert_eq!(pool.validator_update_status, ValidatorUpdateStatus::Start);
    }
    let payload = read_reply_payload(&store, resp.messages[0].id).unwrap();
    assert_eq!(
        payload,
        SudoPayload {
            message: s(VAL1),
            pool_addr: s(POOL),
            port_id: s("icacontroller-contract.pool1"),
            tx_type: TxType::RmValidator
        }
    );
    // while the redelegation is under way the set cannot be changed
    assert_eq!(
        execute_rm_pool_validator(&mut store, &admin(2000), s(POOL), s(VAL2), &observed(&[]), &fee()),
        Err(ContractError::StatusNotAllow)
    );
    assert_eq!(
        execute_pool_update_validator(
            &mut store,
            &admin(2000),
            s(POOL),
            s(VAL2),
            s("new"),
            &observed(&[]),
            &fee()
        ),
        Err(ContractError::StatusNotAllow)
    );
    // failure leaves the set as it was
    let failed = read_reply_payload(&store, resp.messages[0].id).unwrap();
    sudo_rm_validator_failed_callback(&mut store, failed).unwrap();
    {
        let pool = store.pools.get(&s(POOL)).unwrap();
        assert_eq!(pool.validator_addrs, vec![s(VAL1), s(VAL2), s(VAL3)]);
        assert_eq!(pool.validator_update_status, ValidatorUpdateStatus::End);
    }
    // success takes the validator out
    sudo_rm_validator_callback(&mut store, payload).unwrap();
    let pool = store.pools.get(&s(POOL)).unwrap();
    assert_eq!(pool.validator_addrs, vec![s(VAL2), s(VAL3)]);
    assert_eq!(pool.validator_update_status, ValidatorUpdateStatus::WaitQueryUpdate);
}

#[test]
fn removal_is_refused_to_strangers_and_for_strangers() {
    let mut store = store_with_validators(&[VAL1, VAL2]);
    let stranger = MessageInfo { sender: s("mallory"), funds: vec![] };
    assert_eq!(
        execute_rm_pool_validator(&mut store, &stranger, s(POOL), s(VAL1), &observed(&[]), &fee()),
        Err(ContractError::Unauthorized)
    );
    assert_eq!(
        execute_rm_pool_validator(&mut store, &admin(2000), s(POOL), s(VAL3), &observed(&[]), &fee()),
        Err(ContractError::OldValidatorNotExist)
    );
    assert_eq!(
        execute_rm_pool_validator(&mut store, &admin(2000), s("nowhere"), s(VAL1), &observed(&[]), &fee()),
        Err(ContractError::NotFound)
    );
    assert_eq!(
        execute_rm_pool_validator(&mut store, &admin(2000), s(POOL), s(VAL1), &Err(s("down")), &fee()),
        Err(ContractError::QueryFailed(s("down")))
    );
    // the funds must pay the fee of the redelegation
    assert_eq!(
        execute_rm_pool_validator(&mut store, &admin(1999), s(POOL), s(VAL1), &observed(&[(VAL1, 5)]), &fee()),
        Err(ContractError::ParamsErrorFundsNotMatch)
    );
    let mut pool = store.pools.remove(&s(POOL)).unwrap();
    pool.status = EraStatus::EraStakeEnded;
    store.pools.save(s(POOL), pool);
    assert_eq!(
        execute_rm_pool_validator(&mut store, &admin(2000), s(POOL), s(VAL1), &observed(&[]), &fee()),
        Err(ContractError::EraProcessNotEnd)
    );
}

#[test]
fn the_set_is_not_changed_on_stale_observations() {
    let mut store = store_with_validators(&[VAL1, VAL2]);
    let before = snapshot(&store);
    // observed at the height of the last step of the last era
    assert_eq!(
        execute_rm_pool_validator(&mut store, &admin(2000), s(POOL), s(VAL1), &observed_at(&[(VAL1, 0)], 9), &fee()),
        Err(ContractError::DelegationSubmissionHeight)
    );
    assert_eq!(
        execute_pool_update_validator(
            &mut store,
            &admin(2000),
            s(POOL),
            s(VAL1),
            s(VAL3),
            &observed_at(&[(VAL1, 5)], 8),
            &fee()
        ),
        Err(ContractError::DelegationSubmissionHeight)
    );
    assert_eq!(snapshot(&store), before);
}

#[test]
fn a_validator_is_added_and_the_queries_watch_it() {
    let mut store = store_with_validators(&[VAL1]);
    let resp = execute_add_pool_validators(&mut store, &admin(0), s(POOL), s(VAL2)).unwrap();
    assert_eq!(resp.messages.len(), 2);
    match (&resp.messages[0].msg, &resp.messages[1].msg) {
        (
            CosmosMsg::UpdateInterchainQuery { query_id: 12, new_keys: Some(d), new_update_period: None },
            CosmosMsg::UpdateInterchainQuery { query_id: 13, new_keys: Some(v), new_update_period: None },
        ) => {
            // the staking parameters, and a delegation and a validator for each of the two
            assert_eq!(d.len(), 5);
            assert_eq!(v.len(), 2);
        }
        other => panic!("unexpected messages {:?}", other),
    }
    let pool = store.pools.get(&s(POOL)).unwrap();
    assert_eq!(pool.validator_addrs, vec![s(VAL1), s(VAL2)]);
    assert_eq!(pool.validator_update_status, ValidatorUpdateStatus::End);
    assert_eq!(
        execute_add_pool_validators(&mut store, &admin(0), s(POOL), s(VAL2)),
        Err(ContractError::ValidatorAlreadyExit)
    );
    assert_eq!(
        execute_add_pool_validators(&mut store, &admin(0), s(POOL), s("no address")),
        Err(ContractError::ICQNewKeyBuildFailed)
    );
    assert_eq!(store.pools.get(&s(POOL)).unwrap().validator_addrs, vec![s(VAL1), s(VAL2)]);
    let stranger = MessageInfo { sender: s("mallory"), funds: vec![] };
    assert_eq!(
        execute_add_pool_validators(&mut store, &stranger, s(POOL), s(VAL3)),
        Err(ContractError::Unauthorized)
    );
}

#[test]
fn a_full_set_takes_no_more() {
    let many: Vec<String> = (0..16).map(|i| format!("validator{}", i)).collect();
    let refs: Vec<&str> = many.iter().map(|v| v.as_str()).collect();
    let mut store = store_with_validators(&refs);
    assert_eq!(
        execute_add_pool_validators(&mut store, &admin(0), s(POOL), s(VAL1)),
        Err(ContractError::ValidatorAddressesListSize)
    );
    assert_eq!(store.pools.get(&s(POOL)).unwrap().validator_addrs.len(), 16);
}

#[test]
fn a_validator_is_replaced_when_its_stake_was_moved() {
    let mut store = store_with_validators(&[VAL1, VAL2]);
    let resp = execute_pool_update_validator(
        &mut store,
        &admin(0),
        s(POOL),
        s(VAL1),
        s(VAL3),
        &observed(&[(VAL2, 9), (VAL1, 500), (VAL1, 0), (VAL1, 20)]),
        &fee(),
    )
    .unwrap();
    match &resp.messages[0].msg {
        CosmosMsg::SubmitTx { msgs, .. } => {
            assert_eq!(
                msgs,
                &vec![
                    gen_redelegate_txs(s(POOL), s(VAL1), s(VAL3), s("uatom"), 500),
                    gen_redelegate_txs(s(POOL), s(VAL1), s(VAL3), s("uatom"), 20),
                ]
            );
        }
        other => panic!("unexpected message {:?}", other),
    }
    assert_eq!(store.pools.get(&s(POOL)).unwrap().validator_update_status, ValidatorUpdateStatus::Start);
    let payload = read_reply_payload(&store, resp.messages[0].id).unwrap();
    assert_eq!(payload.message, format!("{}_{}", VAL2, VAL3));
    assert_eq!(payload.tx_type, TxType::UpdateValidator);
    let failed = read_reply_payload(&store, resp.messages[0].id).unwrap();
    sudo_update_validator_failed_callback(&mut store, failed).unwrap();
    assert_eq!(store.pools.get(&s(POOL)).unwrap().validator_addrs, vec![s(VAL1), s(VAL2)]);
    assert_eq!(store.pools.get(&s(POOL)).unwrap().validator_update_status, ValidatorUpdateStatus::End);
    sudo_update_validator_callback(&mut store, payload).unwrap();
    let pool = store.pools.get(&s(POOL)).unwrap();
    assert_eq!(pool.validator_addrs, vec![s(VAL2), s(VAL3)]);
    assert_eq!(pool.validator_update_status, ValidatorUpdateStatus::WaitQueryUpdate);

    // the follow-up tells the queries the new set and ends the change
    let stranger = MessageInfo { sender: s("mallory"), funds: vec![] };
    assert_eq!(
        execute_update_validators_icq(&mut store, &stranger, s(POOL)),
        Err(ContractError::Unauthorized)
    );
    let resp = execute_update_validators_icq(&mut store, &admin(0), s(POOL)).unwrap();
    assert_eq!(resp.messages.len(), 2);
    assert_eq!(store.pools.get(&s(POOL)).unwrap().validator_update_status, ValidatorUpdateStatus::End);
    assert_eq!(
        execute_update_validators_icq(&mut store, &admin(0), s(POOL)),
        Err(ContractError::StatusNotAllow)
    );
}

#[test]
fn replacement_is_refused_for_unknown_old_and_known_new_validators() {
    let mut store = store_with_validators(&[VAL1, VAL2]);
    assert_eq!(
        execute_pool_update_validator(&mut store, &admin(0), s(POOL), s(VAL3), s("x"), &observed(&[]), &fee()),
        Err(ContractError::OldValidatorNotExist)
    );
    assert_eq!(
        execute_pool_update_validator(&mut store, &admin(0), s(POOL), s(VAL1), s(VAL2), &observed(&[]), &fee()),
        Err(ContractError::NewValidatorAlreadyExist)
    );
    // nothing delegated to the old validator: nothing is dispatched
    let resp =
        execute_pool_update_validator(&mut store, &admin(0), s(POOL), s(VAL1), s(VAL3), &observed(&[(VAL2, 5)]), &fee());
    assert_eq!(resp, Ok(Response::new()));
    let pool = store.pools.get(&s(POOL)).unwrap();
    assert_eq!(pool.validator_update_status, ValidatorUpdateStatus::WaitQueryUpdate);
    assert_eq!(pool.validator_addrs, vec![s(VAL1), s(VAL2)]);
}
