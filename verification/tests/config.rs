//! Registration, initialisation and configuration.
use stake_manager::chain::{Coin, CosmosMsg, Env, IbcFee, MessageInfo, OpenAckVersion, Response};
use stake_manager::contract::{instantiate, migrate};
use stake_manager::error_conversion::ContractError;
use stake_manager::execute_config_decimals::execute_config_decimals;
use stake_manager::execute_config_pool::execute_config_pool;
use stake_manager::execute_config_pool_stack_fee::execute_config_pool_stack_fee;
use stake_manager::execute_config_stack::execute_config_stack;
use stake_manager::execute_config_unbonding_seconds::execute_config_unbonding_seconds;
use stake_manager::execute_icq_update_period::update_icq_update_period;
use stake_manager::execute_init_pool::{execute_init_pool, lsd_token_salt};
use stake_manager::execute_open_channel::execute_open_channel;
use stake_manager::execute_register_pool::{execute_register_pool, sudo_open_ack};
use stake_manager::helper::{
    check_ibc_fee, min_ntrn_ibc_fee, total_ibc_fee, total_icq_register_fee, DenomTrace,
    QueryDenomTraceResponse,
};
use stake_manager::msg::{
    ConfigPoolParams, ConfigPoolStackFeeParams, ConfigStackParams, InitPoolParams, InstantiateMsg, MigrateMsg,
};
use stake_manager::query::{
    interchain_account_id_from_creator, query_decimals, query_era_snapshot,
    query_interchain_address_contract, query_stack_info, query_unbonding_seconds,
};
use stake_manager::state::{EraStatus, IcaInfo, IcaInfos, PoolInfo, Store};

const POOL: &str = "cosmos15fqjpj90ruhj57q3l6a5hda0rt77g6mcuz7w8n";
const WITHDRAW: &str = "osmo1yz54ncxj9csp7un3xled03q6thrrhy9cztkfzs";
const VAL1: &str = "cosmosvaloper132juzk0gdmwuxvx4phug7m3ymyatxlh9734g4w";

fn s(x: &str) -> String {
    x.to_string()
}

fn coin(denom: &str, amount: u128) -> Coin {
    Coin { denom: s(denom), amount }
}

fn info(sender: &str, funds: Vec<Coin>) -> MessageInfo {
    MessageInfo { sender: s(sender), funds }
}

fn env(seconds: u64) -> Env {
    Env { block_height: 10, block_time_nanos: seconds * 1_000_000_000, contract_address: s("contract") }
}

fn fee() -> Result<IbcFee, String> {
    Ok(IbcFee { recv_fee: vec![], ack_fee: vec![coin("untrn", 1000)], timeout_fee: vec![coin("untrn", 1000)] })
}

fn set_up() -> Store {
    let mut store = Store::new();
    instantiate(
        &mut store,
        &info("admin", vec![]),
        InstantiateMsg { lsd_token_code_id: 7, stack_fee_receiver: s("stackfee") },
    );
    store
}

fn no_change(pool_addr: &str) -> ConfigPoolParams {
    ConfigPoolParams {
        pool_addr: s(pool_addr),
        platform_fee_receiver: None,
        minimal_stake: None,
        unstake_times_limit: None,
        unbond_commission: None,
        platform_fee_commission: None,
        era_seconds: None,
        paused: None,
        lsm_support: None,
        lsm_pending_limit: None,
        rate_change_limit: None,
        new_admin: None,
    }
}

fn pool_at_rest(store: &mut Store) {
    let mut pool = PoolInfo::default();
    pool.ica_id = s("pool1");
    pool.admin = s("creator");
    pool.remote_denom = s("uatom");
    pool.status = EraStatus::ActiveEnded;
    pool.era_seconds = 86400;
    pool.offset = -19759;
    pool.unbonding_period = 22;
    pool.era = 3;
    pool.bond = 50;
    pool.unbond = 60;
    store.pools.save(s(POOL), pool);
    let ica = |addr: &str, channel: &str| IcaInfo {
        ctrl_connection_id: s("connection-0"),
        host_connection_id: s("connection-9"),
        ctrl_channel_id: s(channel),
        host_channel_id: s("channel-100"),
        ctrl_port_id: s("port"),
        ica_addr: s(addr),
    };
    store.info_of_ica_id.save(
        s("pool1"),
        IcaInfos {
            pool_address_ica_info: ica(POOL, "channel-1"),
            withdraw_address_ica_info: ica(WITHDRAW, "channel-2"),
            admin: s("creator"),
        },
    );
}

#[test]
fn the_contract_is_set_up_with_its_sender_as_administrator() {
    let store = set_up();
    let stack = query_stack_info(&store).unwrap();
    assert_eq!(stack.admin, "admin");
    assert_eq!(stack.stack_fee_receiver, "stackfee");
    assert_eq!(stack.stack_fee_commission, 100_000);
    assert_eq!(stack.lsd_token_code_id, 7);
    assert!(stack.entrusted_pools.is_empty());
    assert_eq!(query_stack_info(&Store::new()), Err(ContractError::NotFound));
}

#[test]
fn the_configuration_of_the_contract_changes_field_by_field() {
    let mut store = set_up();
    let change = |add: Option<&str>, remove: Option<&str>| ConfigStackParams {
        stack_fee_receiver: None,
        new_admin: None,
        stack_fee_commission: None,
        lsd_token_code_id: None,
        add_entrusted_pool: add.map(s),
        remove_entrusted_pool: remove.map(s),
    };
    assert_eq!(
        execute_config_stack(&mut store, &info("mallory", vec![]), change(Some("first"), None)),
        Err(ContractError::Unauthorized)
    );
    execute_config_stack(&mut store, &info("admin", vec![]), change(Some("first"), None)).unwrap();
    execute_config_stack(&mut store, &info("admin", vec![]), change(Some("second"), None)).unwrap();
    execute_config_stack(&mut store, &info("admin", vec![]), change(Some("first"), None)).unwrap();
    assert_eq!(query_stack_info(&store).unwrap().entrusted_pools, vec![s("first"), s("second")]);
    execute_config_stack(&mut store, &info("admin", vec![]), change(Some("third"), Some("first"))).unwrap();
    assert_eq!(query_stack_info(&store).unwrap().entrusted_pools, vec![s("second"), s("third")]);
    execute_config_stack(&mut store, &info("admin", vec![]), change(None, Some("zz"))).unwrap();
    assert_eq!(query_stack_info(&store).unwrap().entrusted_pools, vec![s("second"), s("third")]);
    execute_config_stack(
        &mut store,
        &info("admin", vec![]),
        ConfigStackParams {
            stack_fee_receiver: Some(s("treasury")),
            new_admin: Some(s("root")),
            stack_fee_commission: Some(5),
            lsd_token_code_id: Some(9),
            add_entrusted_pool: None,
            remove_entrusted_pool: None,
        },
    )
    .unwrap();
    let stack = query_stack_info(&store).unwrap();
    assert_eq!(
        (stack.stack_fee_receiver.as_str(), stack.admin.as_str(), stack.stack_fee_commission, stack.lsd_token_code_id),
        ("treasury", "root", 5, 9)
    );
    assert_eq!(
        execute_config_stack(&mut store, &info("admin", vec![]), change(None, None)),
        Err(ContractError::Unauthorized)
    );
    assert_eq!(
        execute_config_stack(&mut Store::new(), &info("admin", vec![]), change(None, None)),
        Err(ContractError::NotFound)
    );
}

#[test]
fn decimals_and_unbonding_times_are_set_and_deleted() {
    let mut store = set_up();
    let admin = info("admin", vec![]);
    assert_eq!(
        execute_config_decimals(&mut store, &info("mallory", vec![]), s("uatom"), Some(6)),
        Err(ContractError::Unauthorized)
    );
    assert_eq!(
        execute_config_unbonding_seconds(&mut store, &info("mallory", vec![]), s("uatom"), Some(6)),
        Err(ContractError::Unauthorized)
    );
    assert_eq!(query_decimals(&store, s("uatom")), Err(ContractError::NotFound));
    execute_config_decimals(&mut store, &admin, s("uatom"), Some(6)).unwrap();
    execute_config_decimals(&mut store, &admin, s("uosmo"), Some(8)).unwrap();
    execute_config_decimals(&mut store, &admin, s("uatom"), Some(7)).unwrap();
    assert_eq!(query_decimals(&store, s("uatom")), Ok(7));
    execute_config_decimals(&mut store, &admin, s("uatom"), None).unwrap();
    assert_eq!(query_decimals(&store, s("uatom")), Err(ContractError::NotFound));
    assert_eq!(query_decimals(&store, s("uosmo")), Ok(8));
    execute_config_unbonding_seconds(&mut store, &admin, s("uatom"), Some(1_814_400)).unwrap();
    assert_eq!(query_unbonding_seconds(&store, s("uatom")), Ok(1_814_400));
    execute_config_unbonding_seconds(&mut store, &admin, s("uatom"), None).unwrap();
    assert_eq!(query_unbonding_seconds(&store, s("uatom")), Err(ContractError::NotFound));
}

#[test]
fn a_new_era_length_keeps_the_era_and_sets_the_unbonding_period_anew() {
    let mut store = set_up();
    pool_at_rest(&mut store);
    execute_config_unbonding_seconds(&mut store, &info("admin", vec![]), s("uatom"), Some(1_814_400)).unwrap();
    let now = 1_707_274_643;
    let mut change = no_change(POOL);
    change.era_seconds = Some(28_799);
    assert_eq!(
        execute_config_pool(&mut store, &info("creator", vec![]), &env(now), change),
        Err(ContractError::LessThanMinimalEraSeconds)
    );
    let mut change = no_change(POOL);
    change.era_seconds = Some(86_401);
    assert_eq!(
        execute_config_pool(&mut store, &info("creator", vec![]), &env(now), change),
        Err(ContractError::ExceedMaxEraSeconds)
    );
    let mut change = no_change(POOL);
    change.era_seconds = Some(28_800);
    change.minimal_stake = Some(5);
    change.platform_fee_receiver = Some(s("platform2"));
    change.new_admin = Some(s("owner"));
    change.lsm_support = Some(true);
    change.rate_change_limit = Some(50_000);
    execute_config_pool(&mut store, &info("creator", vec![]), &env(now), change).unwrap();
    let pool = store.pools.get(&s(POOL)).unwrap();
    assert_eq!(pool.era_seconds, 28_800);
    // 1,707,274,643 / 86,400 - 19,759 = 1, and 1 - 1,707,274,643 / 28,800
    assert_eq!(pool.offset, 1 - 59_280);
    assert_eq!(pool.unbonding_period, 64);
    assert_eq!(pool.minimal_stake, 5);
    assert_eq!(pool.platform_fee_receiver, "platform2");
    assert_eq!(pool.admin, "owner");
    assert!(pool.lsm_support);
    assert_eq!(pool.rate_change_limit, 50_000);
    assert_eq!(pool.era, 3);
    assert_eq!(
        execute_config_pool(&mut store, &info("creator", vec![]), &env(now), no_change(POOL)),
        Err(ContractError::Unauthorized)
    );
    // without an unbonding time for the denomination the length cannot be changed
    let mut store = set_up();
    pool_at_rest(&mut store);
    let mut change = no_change(POOL);
    change.era_seconds = Some(28_800);
    assert_eq!(
        execute_config_pool(&mut store, &info("creator", vec![]), &env(now), change),
        Err(ContractError::NotFound)
    );
    assert_eq!(store.pools.get(&s(POOL)).unwrap().era_seconds, 86_400);
}

#[test]
fn the_protocol_commission_of_a_pool_is_set_by_the_contract_administrator() {
    let mut store = set_up();
    pool_at_rest(&mut store);
    let param = |pool: &str| ConfigPoolStackFeeParams { pool_addr: s(pool), stack_fee_commission: 77 };
    assert_eq!(
        execute_config_pool_stack_fee(&mut store, &info("creator", vec![]), param(POOL)),
        Err(ContractError::Unauthorized)
    );
    assert_eq!(
        execute_config_pool_stack_fee(&mut store, &info("admin", vec![]), param("nowhere")),
        Err(ContractError::NotFound)
    );
    execute_config_pool_stack_fee(&mut store, &info("admin", vec![]), param(POOL)).unwrap();
    assert_eq!(store.pools.get(&s(POOL)).unwrap().stack_fee_commission, 77);
}

#[test]
fn a_closed_channel_is_opened_anew() {
    let mut store = set_up();
    pool_at_rest(&mut store);
    let resp =
        execute_open_channel(&mut store, &info("creator", vec![coin("untrn", 9)]), s(POOL), s("channel-2")).unwrap();
    assert_eq!(
        resp.messages[0].msg,
        CosmosMsg::RegisterInterchainAccount {
            connection_id: s("connection-0"),
            interchain_account_id: s("pool1-withdraw_addr"),
            register_fee: Some(vec![coin("untrn", 9)]),
        }
    );
    let resp = execute_open_channel(&mut store, &info("creator", vec![]), s(POOL), s("channel-1")).unwrap();
    assert_eq!(
        resp.messages[0].msg,
        CosmosMsg::RegisterInterchainAccount {
            connection_id: s("connection-0"),
            interchain_account_id: s("pool1"),
            register_fee: None,
        }
    );
    assert_eq!(
        execute_open_channel(&mut store, &info("creator", vec![]), s(POOL), s("channel-3")),
        Err(ContractError::ClosedChannelIdUnmatch)
    );
    assert_eq!(
        execute_open_channel(&mut store, &info("mallory", vec![]), s(POOL), s("channel-1")),
        Err(ContractError::Unauthorized)
    );
}

#[test]
fn account_identifiers_are_checked_at_registration() {
    let mut store = set_up();
    let funds = info("creator", vec![coin("untrn", 10)]);
    for bad in ["", "  ", "a.b", "a-b", "pool-withdraw_addr", "seventeen_letters"] {
        assert_eq!(
            execute_register_pool(&mut store, &env(5), &funds, s("connection-0"), s(bad)),
            Err(ContractError::InvalidInterchainAccountId),
            "{:?}",
            bad
        );
    }
    assert_eq!(
        execute_register_pool(&mut store, &env(5), &info("creator", vec![]), s("connection-0"), s("pool1")),
        Err(ContractError::ParamsErrorFundsNotMatch)
    );
    assert_eq!(
        execute_register_pool(
            &mut store,
            &env(5),
            &info("creator", vec![coin("uatom", 10)]),
            s("connection-0"),
            s("pool1")
        ),
        Err(ContractError::ParamsErrorFundsNotMatch)
    );
    execute_register_pool(&mut store, &env(5), &funds, s("connection-0"), s("sixteen_letters_")).unwrap();
    let resp = execute_register_pool(&mut store, &env(5), &funds, s("connection-0"), s("pool1")).unwrap();
    assert_eq!(resp.messages.len(), 2);
    let infos = query_interchain_address_contract(&store, s("pool1")).unwrap();
    assert_eq!(infos.admin, "creator");
    assert_eq!(infos.pool_address_ica_info.ctrl_port_id, "icacontroller-contract.pool1");
    assert_eq!(infos.withdraw_address_ica_info.ctrl_port_id, "icacontroller-contract.pool1-withdraw_addr");
    assert_eq!(infos.pool_address_ica_info.ctrl_connection_id, "connection-0");
    assert_eq!(infos.pool_address_ica_info.ica_addr, "");
    assert_eq!(
        execute_register_pool(&mut store, &env(5), &funds, s("connection-0"), s("pool1")),
        Err(ContractError::InterchainAccountIdAlreadyExist)
    );
    assert_eq!(query_interchain_address_contract(&store, s("pool2")), Err(ContractError::NotFound));
    assert_eq!(interchain_account_id_from_creator(&store, s("creator")), Vec::<String>::new());
}

#[test]
fn the_opening_of_a_channel_is_read_from_the_port() {
    let mut store = set_up();
    execute_register_pool(&mut store, &env(5), &info("creator", vec![coin("untrn", 10)]), s("c"), s("pool1")).unwrap();
    let version = |address: &str| {
        Some(OpenAckVersion {
            version: s("ics27-1"),
            controller_connection_id: s("c"),
            host_connection_id: s("h"),
            address: s(address),
            encoding: s("proto3"),
            tx_type: s("sdk_multi_msg"),
        })
    };
    let ack = |store: &mut Store, port: &str, v: Option<OpenAckVersion>| {
        sudo_open_ack(store, s(port), s("channel-1"), s("channel-100"), v)
    };
    assert_eq!(
        ack(&mut store, "icacontroller-contract.pool1", None),
        Err(ContractError::CantParseCounterpartyVersion)
    );
    assert_eq!(
        ack(&mut store, "icacontroller-contract", version(POOL)),
        Err(ContractError::CounterpartyVersionNotMatch)
    );
    assert_eq!(ack(&mut store, "a.b.c", version(POOL)), Err(ContractError::CounterpartyVersionNotMatch));
    assert_eq!(
        ack(&mut store, "icacontroller-contract.pool1-withdraw_addr2", version(POOL)),
        Err(ContractError::CounterpartyVersionNotMatch)
    );
    assert_eq!(ack(&mut store, "icacontroller-contract.pool9", version(POOL)), Err(ContractError::NotFound));
    assert_eq!(ack(&mut store, "icacontroller-contract.pool1-withdraw_addr", version(WITHDRAW)), Ok(Response::new()));
    assert_eq!(store.pools.len(), 0);
    assert_eq!(ack(&mut store, "icacontroller-contract.pool1", version(POOL)), Ok(Response::new()));
    assert_eq!(store.pools.len(), 1);
    let infos = query_interchain_address_contract(&store, s("pool1")).unwrap();
    assert_eq!(infos.pool_address_ica_info.ica_addr, POOL);
    assert_eq!(infos.pool_address_ica_info.host_connection_id, "h");
    assert_eq!(infos.pool_address_ica_info.host_channel_id, "channel-100");
    assert_eq!(infos.withdraw_address_ica_info.ica_addr, WITHDRAW);
    // an existing pool is not replaced when a channel is opened again
    let mut pool = store.pools.remove(&s(POOL)).unwrap();
    pool.era = 9;
    store.pools.save(s(POOL), pool);
    assert_eq!(ack(&mut store, "icacontroller-contract.pool1", version(POOL)), Ok(Response::new()));
    assert_eq!(query_era_snapshot(&store, s(POOL)).unwrap().era, 0);
    assert_eq!(store.pools.get(&s(POOL)).unwrap().era, 9);
}

#[test]
fn initialisation_is_refused_in_turn() {
    let mut store = set_up();
    pool_at_rest(&mut store);
    let mut pool = store.pools.remove(&s(POOL)).unwrap();
    pool.status = EraStatus::RegisterEnded;
    store.pools.save(s(POOL), pool);
    let params = |validators: Vec<String>| InitPoolParams {
        interchain_account_id: s("pool1"),
        ibc_denom: s("ibc/HASH"),
        channel_id_of_ibc_denom: s("channel-7"),
        remote_denom: s("uatom"),
        validator_addrs: validators,
        platform_fee_receiver: s("platform"),
        lsd_token_code_id: Some(3),
        lsd_token_name: s("rATOM"),
        lsd_token_symbol: s("rATOM"),
        minimal_stake: 1000,
        platform_fee_commission: Some(1),
    };
    let trace = |base: &str| -> Result<QueryDenomTraceResponse, String> {
        Ok(QueryDenomTraceResponse { denom_trace: DenomTrace { path: s("transfer/channel-7"), base_denom: s(base) } })
    };
    let deposit: Result<Vec<Coin>, String> = Ok(vec![coin("untrn", 100)]);
    let token: Result<String, String> = Ok(s("lsdtoken"));
    let creator = |amount: u128| info("creator", vec![coin("untrn", amount)]);
    let ok_validators = || vec![s(VAL1)];

    let mut call = |info: &MessageInfo,
                    p: InitPoolParams,
                    trace: &Result<QueryDenomTraceResponse, String>,
                    token: &Result<String, String>| {
        execute_init_pool(&mut store, &env(1_707_188_243), info, p, &fee(), &deposit, trace, token)
    };
    let mut unknown = params(ok_validators());
    unknown.interchain_account_id = s("pool9");
    assert_eq!(call(&creator(5000), unknown, &trace("uatom"), &token), Err(ContractError::NotFound));
    assert_eq!(
        call(&creator(5000), params(vec![]), &trace("uatom"), &token),
        Err(ContractError::ValidatorAddressesListSize)
    );
    assert_eq!(
        call(&creator(5000), params(vec![s(VAL1); 17]), &trace("uatom"), &token),
        Err(ContractError::ValidatorAddressesListSize)
    );
    assert_eq!(
        call(&info("creator", vec![]), params(ok_validators()), &trace("uatom"), &token),
        Err(ContractError::ParamsErrorFundsNotMatch)
    );
    assert_eq!(
        call(&info("mallory", vec![coin("untrn", 5000)]), params(ok_validators()), &trace("uatom"), &token),
        Err(ContractError::Unauthorized)
    );
    // four deposits of 100 and the fee of 2000
    assert_eq!(
        call(&creator(2399), params(ok_validators()), &trace("uatom"), &token),
        Err(ContractError::ParamsErrorFundsNotMatch)
    );
    // no unbonding time is configured for the denomination
    assert_eq!(call(&creator(2400), params(ok_validators()), &trace("uatom"), &token), Err(ContractError::NotFound));
}

#[test]
fn initialisation_checks_the_denomination_the_salt_and_the_keys() {
    let mut store = set_up();
    pool_at_rest(&mut store);
    let mut pool = store.pools.remove(&s(POOL)).unwrap();
    pool.status = EraStatus::RegisterEnded;
    store.pools.save(s(POOL), pool);
    execute_config_unbonding_seconds(&mut store, &info("admin", vec![]), s("uatom"), Some(1_814_400)).unwrap();
    let params = |validator: &str| InitPoolParams {
        interchain_account_id: s("pool1"),
        ibc_denom: s("ibc/HASH"),
        channel_id_of_ibc_denom: s("channel-7"),
        remote_denom: s("uatom"),
        validator_addrs: vec![s(validator)],
        platform_fee_receiver: s("platform"),
        lsd_token_code_id: None,
        lsd_token_name: s("rATOM"),
        lsd_token_symbol: s("rATOM"),
        minimal_stake: 1000,
        platform_fee_commission: None,
    };
    let trace = |base: &str| -> Result<QueryDenomTraceResponse, String> {
        Ok(QueryDenomTraceResponse { denom_trace: DenomTrace { path: s("transfer/channel-7"), base_denom: s(base) } })
    };
    let deposit: Result<Vec<Coin>, String> = Ok(vec![coin("untrn", 100)]);
    let funds = info("creator", vec![coin("untrn", 2400)]);
    let e = env(1_707_188_243);
    assert_eq!(
        execute_init_pool(&mut store, &e, &funds, params(VAL1), &fee(), &Err(s("no deposit")), &trace("uatom"), &Ok(s("t"))),
        Err(ContractError::QueryFailed(s("no deposit")))
    );
    assert_eq!(
        execute_init_pool(&mut store, &e, &funds, params(VAL1), &fee(), &deposit, &trace("uosmo"), &Ok(s("t"))),
        Err(ContractError::DenomTraceNotMatch)
    );
    assert_eq!(
        execute_init_pool(&mut store, &e, &funds, params(VAL1), &fee(), &deposit, &trace("uatom"), &Err(s("no code"))),
        Err(ContractError::Instantiate2AddressFailed(s("no code")))
    );
    // no decimals are configured for the denomination
    assert_eq!(
        execute_init_pool(&mut store, &e, &funds, params(VAL1), &fee(), &deposit, &trace("uatom"), &Ok(s("t"))),
        Err(ContractError::NotFound)
    );
    execute_config_decimals(&mut store, &info("admin", vec![]), s("uatom"), Some(6)).unwrap();
    assert_eq!(
        execute_init_pool(&mut store, &e, &funds, params("no address"), &fee(), &deposit, &trace("uatom"), &Ok(s("t"))),
        Err(ContractError::ICQNewKeyBuildFailed)
    );
    assert_eq!(store.pools.get(&s(POOL)).unwrap().status, EraStatus::RegisterEnded);
    assert_eq!(store.latest_query_reply_id, None);
    let resp =
        execute_init_pool(&mut store, &e, &funds, params(VAL1), &fee(), &deposit, &trace("uatom"), &Ok(s("t"))).unwrap();
    assert_eq!(resp.messages.len(), 6);
    assert_eq!(store.pools.get(&s(POOL)).unwrap().status, EraStatus::InitStarted);
    // a pool that is being initialised cannot be initialised again
    assert_eq!(
        execute_init_pool(&mut store, &e, &funds, params(VAL1), &fee(), &deposit, &trace("uatom"), &Ok(s("t"))),
        Err(ContractError::StatusNotAllow)
    );
    // after a failure only the withdrawal address is set again
    let mut pool = store.pools.remove(&s(POOL)).unwrap();
    pool.status = EraStatus::InitFailed;
    store.pools.save(s(POOL), pool);
    assert_eq!(
        execute_init_pool(
            &mut store,
            &e,
            &info("creator", vec![coin("untrn", 1999)]),
            params(VAL1),
            &fee(),
            &deposit,
            &trace("uatom"),
            &Ok(s("t"))
        ),
        Err(ContractError::ParamsErrorFundsNotMatch)
    );
    let resp = execute_init_pool(
        &mut store,
        &e,
        &info("creator", vec![coin("untrn", 2000)]),
        params(VAL1),
        &fee(),
        &Err(s("not read")),
        &Err(s("not read")),
        &Err(s("not read")),
    )
    .unwrap();
    assert_eq!(resp.messages.len(), 1);
    assert!(matches!(resp.messages[0].msg, CosmosMsg::SubmitTx { .. }));
    assert_eq!(store.pools.get(&s(POOL)).unwrap().status, EraStatus::InitFailed);
}

#[test]
fn the_salt_is_the_first_forty_characters_of_the_address() {
    assert_eq!(lsd_token_salt(&s(POOL)), Ok(s("cosmos15fqjpj90ruhj57q3l6a5hda0rt77g6mcu")));
    assert_eq!(lsd_token_salt(&s(&POOL[..40])), Ok(s(&POOL[..40])));
    assert_eq!(
        lsd_token_salt(&s(&POOL[..39])),
        Err(ContractError::Instantiate2AddressFailed(s(&POOL[..39])))
    );
}

#[test]
fn fees_are_paid_in_the_fee_denomination() {
    let mixed = IbcFee {
        recv_fee: vec![coin("uatom", 1), coin("untrn", 2)],
        ack_fee: vec![coin("untrn", 30), coin("untrn", 40), coin("uother", 5)],
        timeout_fee: vec![coin("uother", 500)],
    };
    let kept = min_ntrn_ibc_fee(IbcFee {
        recv_fee: vec![coin("uatom", 1), coin("untrn", 2)],
        ack_fee: vec![coin("untrn", 30), coin("untrn", 40), coin("uother", 5)],
        timeout_fee: vec![coin("uother", 500)],
    });
    assert_eq!(
        kept,
        IbcFee {
            recv_fee: vec![coin("untrn", 2)],
            ack_fee: vec![coin("untrn", 30), coin("untrn", 40)],
            timeout_fee: vec![]
        }
    );
    // the first coin of each stage
    assert_eq!(total_ibc_fee(&kept), Ok(32));
    assert_eq!(total_ibc_fee(&mixed), Ok(1 + 30 + 500));
    assert_eq!(
        total_ibc_fee(&IbcFee {
            recv_fee: vec![coin("untrn", u128::MAX)],
            ack_fee: vec![coin("untrn", 1)],
            timeout_fee: vec![]
        }),
        Err(ContractError::Overflow)
    );
    assert_eq!(check_ibc_fee(&Ok(mixed), &info("a", vec![coin("untrn", 32)])), Ok(kept));
    assert_eq!(
        check_ibc_fee(&fee(), &info("a", vec![coin("untrn", 1999)])),
        Err(ContractError::ParamsErrorFundsNotMatch)
    );
    assert_eq!(
        check_ibc_fee(&fee(), &info("a", vec![coin("untrn", 2000), coin("untrn", 2000)])),
        Err(ContractError::ParamsErrorFundsNotMatch)
    );
    assert_eq!(check_ibc_fee(&Err(s("down")), &info("a", vec![])), Err(ContractError::QueryFailed(s("down"))));
    assert_eq!(total_icq_register_fee(vec![coin("uatom", 7), coin("untrn", 100), coin("untrn", 9)]), 100);
    assert_eq!(total_icq_register_fee(vec![coin("uatom", 7)]), 0);
}

#[test]
fn the_queries_of_a_pool_are_set_back_to_the_usual_interval() {
    let mut store = set_up();
    pool_at_rest(&mut store);
    assert_eq!(
        update_icq_update_period(&mut store, &info("creator", vec![]), s(POOL)),
        Err(ContractError::NotFound)
    );
    for (k, (addr, kind)) in
        [(POOL, "balances"), (WITHDRAW, "balances"), (POOL, "delegations"), (POOL, "validators")].iter().enumerate()
    {
        store.address_to_reply_id.save((s(addr), s(kind)), 2_000_000_000 + k as u64);
        store.reply_id_to_query_id.save(2_000_000_000 + k as u64, 10 + k as u64);
    }
    assert_eq!(
        update_icq_update_period(&mut store, &info("mallory", vec![]), s(POOL)),
        Err(ContractError::Unauthorized)
    );
    let resp = update_icq_update_period(&mut store, &info("creator", vec![]), s(POOL)).unwrap();
    let ids: Vec<u64> = resp
        .messages
        .iter()
        .map(|m| match &m.msg {
            CosmosMsg::UpdateInterchainQuery { query_id, new_keys: None, new_update_period: Some(86400) } => *query_id,
            other => panic!("unexpected message {:?}", other),
        })
        .collect();
    assert_eq!(ids, vec![10, 11, 12, 13]);
}

#[test]
fn the_migration_takes_the_snapshot_out_of_one_pool() {
    let mut store = set_up();
    assert_eq!(migrate(&mut store, MigrateMsg {}), Err(ContractError::NotFound));
    let mut pool = PoolInfo::default();
    pool.bond = 50;
    pool.unbond = 60;
    pool.era_snapshot.bond = 20;
    pool.era_snapshot.unbond = 60;
    store.pools.save(s("cosmos1p4d5ypwaj2yd74lsszd8an7257cepypgg2nvuptnvnx7spqv989qd32kl5"), pool);
    assert_eq!(migrate(&mut store, MigrateMsg {}), Ok(Response::new()));
    let pool = store.pools.get(&s("cosmos1p4d5ypwaj2yd74lsszd8an7257cepypgg2nvuptnvnx7spqv989qd32kl5")).unwrap();
    assert_eq!((pool.bond, pool.unbond), (30, 0));
    assert_eq!(pool.era_snapshot.bond, 20);
    assert_eq!(migrate(&mut store, MigrateMsg {}), Err(ContractError::Overflow));
}
