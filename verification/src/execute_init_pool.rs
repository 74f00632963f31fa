//! The initialisation of a registered pool: its parameters are set, its receipt-token
//! contract is created, its observational queries are registered, and its rewards are
//! directed to its withdrawal account.
use vstd::prelude::*;
use crate::amount::{plus_spec, times_spec};
use crate::chain::{
    plain_msg,
    reply_msg,
    Coin,
    CoinView,
    CosmosMsg,
    CosmosMsgView,
    Env,
    EnvView,
    IbcFee,
    IbcFeeView,
    LsdTokenInit,
    LsdTokenInitView,
    MessageInfo,
    MessageInfoView,
    ProtobufAny,
    Response,
    ResponseView,
    SubMsg,
    SubMsgView,
};
use crate::error_conversion::{ContractError, ContractErrorView};
use crate::execute_config_pool::{era_offset, era_offset_spec, unbonding_period, unbonding_period_spec};
use crate::helper::{
    agrees,
    answer_view,
    balance_query_keys,
    delegations_query_keys,
    denom_trace_spec,
    gen_set_withdraw_address_tx,
    min_fee,
    min_fee_spec,
    query_denom_trace_from_ibc_denom,
    register_balance_query_msg,
    register_delegator_delegations_query_msg,
    register_query_msg,
    register_staking_validators_query_msg,
    set_withdraw_address_tx,
    submit_tx,
    submit_tx_spec,
    total_ibc_fee,
    total_ibc_fee_spec,
    total_icq_register_fee,
    total_icq_register_fee_spec,
    validators_query_keys,
    QueryDenomTraceResponse,
    QueryDenomTraceResponseView,
    CAL_BASE,
    DEFAULT_ERA_SECONDS,
    DEFAULT_UPDATE_PERIOD,
    FEE_DENOM,
    VALIDATORS_LEN_LIMIT,
};
use crate::msg::InitPoolParams;
use crate::query_callback::{query_numbered, register_query_submsg};
use crate::state::{
    next_id,
    registered,
    EraStatus,
    IcaInfo,
    IcaInfoView,
    PoolInfo,
    PoolInfoView,
    QueryKind,
    Store,
    StoreView,
    SudoPayload,
    SudoPayloadView,
    TxType,
    ValidatorUpdateStatus,
    QUERY_REPLY_ID_RANGE_START,
    REPLY_ID_RANGE_START,
};
use crate::text::{copy_list, is_text};
use crate::tx_callback::msg_with_sudo_callback;

verus! {

/// Length of the salt from which the address of a receipt-token contract is derived.
pub const LSD_TOKEN_SALT_LEN: usize = 40;

/// Refresh interval with which the validators query of a pool is registered; it is set
/// to the usual interval after its first result.
pub const VALIDATORS_QUERY_FIRST_PERIOD: u64 = 6;

/// Platform commission of a pool, unless configured.
pub const DEFAULT_PLATFORM_FEE_COMMISSION: u128 = 100_000;

/// Requests that a user may have outstanding with a pool, unless configured.
pub const DEFAULT_UNSTAKE_TIMES_LIMIT: u64 = 20;

/// Liquid-share tokens that may wait for redemption, unless configured.
pub const DEFAULT_LSM_PENDING_LIMIT: u64 = 100;

/// The salt from which the address of the receipt-token contract of the pool with the
/// account address `ica_addr` is derived: the first forty characters of the address.
pub open spec fn lsd_token_salt_spec(ica_addr: Seq<char>) -> Result<Seq<char>, ContractErrorView> {
    if ica_addr.len() < LSD_TOKEN_SALT_LEN {
        Err(ContractErrorView::Instantiate2AddressFailed(ica_addr))
    } else {
        Ok(ica_addr.subrange(0, LSD_TOKEN_SALT_LEN as int))
    }
}

/// Cuts the salt for the receipt-token contract of a pool out of the address of its account.
pub fn lsd_token_salt(ica_addr: &String) -> (r: Result<String, ContractError>)
    ensures
        match lsd_token_salt_spec(ica_addr@) {
            Ok(salt) => r is Ok && r->Ok_0@ == salt,
            Err(e) => r is Err && r->Err_0@ == e,
        },
{
    if ica_addr.as_str().unicode_len() < LSD_TOKEN_SALT_LEN {
        return Err(ContractError::Instantiate2AddressFailed(ica_addr.clone()));
    }
    Ok(String::from_str(ica_addr.as_str().substring_char(0, LSD_TOKEN_SALT_LEN)))
}

/// The state and the message with which the rewards of the account `pool_ica` are
/// directed to the account `withdraw_ica`.
pub open spec fn set_withdraw_dispatch(
    pre: StoreView,
    ica_id: Seq<char>,
    pool_ica: IcaInfoView,
    withdraw_ica: IcaInfoView,
    fee: IbcFeeView,
) -> (StoreView, SubMsgView) {
    (
        registered(
            pre,
            SudoPayloadView {
                port_id: pool_ica.ctrl_port_id,
                message: withdraw_ica.ica_addr,
                pool_addr: pool_ica.ica_addr,
                tx_type: TxType::SetWithdrawAddr,
            },
        ),
        reply_msg(
            submit_tx_spec(
                pool_ica.ctrl_connection_id,
                ica_id,
                seq![set_withdraw_address_tx(pool_ica.ica_addr, withdraw_ica.ica_addr)],
                fee,
            ),
            next_id(pre.latest_reply_id, REPLY_ID_RANGE_START),
        ),
    )
}

/// Builds the instruction that directs the rewards of the account of a pool to its
/// withdrawal account, and registers the record for its resolution.
pub fn set_withdraw_sub_msg(
    store: &mut Store,
    ica_id: String,
    pool_ica_info: &IcaInfo,
    withdraw_ica_info: &IcaInfo,
    fee: IbcFee,
) -> (sub: SubMsg)
    ensures
        (final(store)@, sub@) == set_withdraw_dispatch(
            old(store)@,
            ica_id@,
            pool_ica_info@,
            withdraw_ica_info@,
            fee@,
        ),
{
    let mut msgs: Vec<ProtobufAny> = Vec::new();
    msgs.push(
        gen_set_withdraw_address_tx(pool_ica_info.ica_addr.clone(), withdraw_ica_info.ica_addr.clone()),
    );
    proof {
        assert(msgs.deep_view() =~= seq![
            set_withdraw_address_tx(pool_ica_info.ica_addr@, withdraw_ica_info.ica_addr@),
        ]);
    }
    let cosmos_msg = submit_tx(pool_ica_info.ctrl_connection_id.clone(), ica_id, msgs, fee);
    msg_with_sudo_callback(
        store,
        cosmos_msg,
        SudoPayload {
            port_id: pool_ica_info.ctrl_port_id.clone(),
            message: withdraw_ica_info.ica_addr.clone(),
            pool_addr: pool_ica_info.ica_addr.clone(),
            tx_type: TxType::SetWithdrawAddr,
        },
    )
}

/// The four messages that register the queries of a pool: the balance of its account,
/// the balance of its withdrawal account, its delegations and its validators.
pub open spec fn pool_query_msgs(
    pool: PoolInfoView,
    pool_ica: IcaInfoView,
    withdraw_ica: IcaInfoView,
) -> Result<Seq<CosmosMsgView>, ContractErrorView> {
    match register_query_msg(
        balance_query_keys(
            pool_ica.ctrl_connection_id,
            pool_ica.ica_addr,
            pool.remote_denom,
            DEFAULT_UPDATE_PERIOD,
        ),
        pool_ica.ctrl_connection_id,
        DEFAULT_UPDATE_PERIOD,
    ) {
        Err(e) => Err(e),
        Ok(m1) => match register_query_msg(
            balance_query_keys(
                withdraw_ica.ctrl_connection_id,
                withdraw_ica.ica_addr,
                pool.remote_denom,
                DEFAULT_UPDATE_PERIOD,
            ),
            withdraw_ica.ctrl_connection_id,
            DEFAULT_UPDATE_PERIOD,
        ) {
            Err(e) => Err(e),
            Ok(m2) => match register_query_msg(
                delegations_query_keys(
                    pool_ica.ctrl_connection_id,
                    pool_ica.ica_addr,
                    pool.validator_addrs,
                    DEFAULT_UPDATE_PERIOD,
                ),
                pool_ica.ctrl_connection_id,
                DEFAULT_UPDATE_PERIOD,
            ) {
                Err(e) => Err(e),
                Ok(m3) => match register_query_msg(
                    validators_query_keys(
                        pool_ica.ctrl_connection_id,
                        pool.validator_addrs,
                        VALIDATORS_QUERY_FIRST_PERIOD,
                    ),
                    pool_ica.ctrl_connection_id,
                    VALIDATORS_QUERY_FIRST_PERIOD,
                ) {
                    Err(e) => Err(e),
                    Ok(m4) => Ok(seq![m1, m2, m3, m4]),
                },
            },
        },
    }
}

/// What setting up the pool `pool` does, once its parameters are set.
///
/// The denomination of the pool on this chain must stand for its remote denomination.
/// The pool is recorded as `InitStarted` with the address `lsd_token_addr` of its
/// receipt-token contract, its rate is recorded for its era, and its protocol fee starts
/// at zero. The response creates the receipt-token contract, registers the four queries
/// of the pool and directs its rewards to its withdrawal account.
pub open spec fn deal_pool_spec(
    pre: StoreView,
    env: EnvView,
    info: MessageInfoView,
    pool: PoolInfoView,
    pool_ica: IcaInfoView,
    withdraw_ica: IcaInfoView,
    lsd_code_id: u64,
    lsd_token_name: Seq<char>,
    lsd_token_symbol: Seq<char>,
    fee: IbcFeeView,
    denom_trace: Result<QueryDenomTraceResponseView, Seq<char>>,
    lsd_token_addr: Result<Seq<char>, Seq<char>>,
) -> Result<(StoreView, ResponseView), ContractErrorView> {
    match denom_trace_spec(pool.ibc_denom, denom_trace) {
        Err(e) => Err(e),
        Ok(trace) => if trace.denom_trace.base_denom != pool.remote_denom {
            Err(ContractErrorView::DenomTraceNotMatch)
        } else {
            match lsd_token_salt_spec(pool_ica.ica_addr) {
                Err(e) => Err(e),
                Ok(salt) => match lsd_token_addr {
                    Err(t) => Err(ContractErrorView::Instantiate2AddressFailed(t)),
                    Ok(contract_addr) => if !pre.decimals.contains_key(pool.remote_denom) {
                        Err(ContractErrorView::NotFound)
                    } else {
                        match pool_query_msgs(pool, pool_ica, withdraw_ica) {
                            Err(e) => Err(e),
                            Ok(queries) => {
                                let addr = pool_ica.ica_addr;
                                let s0 = StoreView {
                                    pools: pre.pools.insert(
                                        addr,
                                        PoolInfoView {
                                            lsd_token: contract_addr,
                                            status: EraStatus::InitStarted,
                                            ..pool
                                        },
                                    ),
                                    era_rate: pre.era_rate.insert((addr, pool.era), pool.rate),
                                    total_stack_fee: pre.total_stack_fee.insert(addr, 0),
                                    ..pre
                                };
                                let s1 = query_numbered(s0, addr, QueryKind::Balances);
                                let s2 = query_numbered(s1, withdraw_ica.ica_addr, QueryKind::Balances);
                                let s3 = query_numbered(s2, addr, QueryKind::Delegations);
                                let s4 = query_numbered(s3, addr, QueryKind::Validators);
                                let (s5, set_withdraw) = set_withdraw_dispatch(
                                    s4,
                                    pool.ica_id,
                                    pool_ica,
                                    withdraw_ica,
                                    fee,
                                );
                                Ok(
                                    (
                                        s5,
                                        ResponseView {
                                            messages: seq![
                                                plain_msg(
                                                    CosmosMsgView::InstantiateLsdToken(
                                                        LsdTokenInitView {
                                                            admin: info.sender,
                                                            code_id: lsd_code_id,
                                                            name: lsd_token_name,
                                                            symbol: lsd_token_symbol,
                                                            decimals: pre.decimals[pool.remote_denom],
                                                            minter: env.contract_address,
                                                            label: lsd_token_name,
                                                            salt,
                                                        },
                                                    ),
                                                ),
                                                reply_msg(
                                                    queries[0],
                                                    next_id(
                                                        s0.latest_query_reply_id,
                                                        QUERY_REPLY_ID_RANGE_START,
                                                    ),
                                                ),
                                                reply_msg(
                                                    queries[1],
                                                    next_id(
                                                        s1.latest_query_reply_id,
                                                        QUERY_REPLY_ID_RANGE_START,
                                                    ),
                                                ),
                                                reply_msg(
                                                    queries[2],
                                                    next_id(
                                                        s2.latest_query_reply_id,
                                                        QUERY_REPLY_ID_RANGE_START,
                                                    ),
                                                ),
                                                reply_msg(
                                                    queries[3],
                                                    next_id(
                                                        s3.latest_query_reply_id,
                                                        QUERY_REPLY_ID_RANGE_START,
                                                    ),
                                                ),
                                                set_withdraw,
                                            ],
                                            attributes: Seq::empty(),
                                        },
                                    ),
                                )
                            },
                        }
                    },
                },
            }
        },
    }
}

/// Sets up the pool `pool_info` under the address of the account `pool_ica_info`.
///
/// `denom_trace` is what the chain answered to the question what the denomination of the
/// pool stands for, and `lsd_token_addr` the address that the chain derives for the
/// receipt-token contract from the code `lsd_code_id`, the contract and the salt of the
/// pool, or why it could not be derived.
pub fn deal_pool(
    store: &mut Store,
    env: &Env,
    info: &MessageInfo,
    pool_info: PoolInfo,
    pool_ica_info: &IcaInfo,
    withdraw_ica_info: &IcaInfo,
    lsd_code_id: u64,
    lsd_token_name: String,
    lsd_token_symbol: String,
    ibc_fee: IbcFee,
    denom_trace: &Result<QueryDenomTraceResponse, String>,
    lsd_token_addr: &Result<String, String>,
) -> (r: Result<Response, ContractError>)
    ensures
        agrees(
            r,
            old(store)@,
            final(store)@,
            deal_pool_spec(
                old(store)@,
                env@,
                info@,
                pool_info@,
                pool_ica_info@,
                withdraw_ica_info@,
                lsd_code_id,
                lsd_token_name@,
                lsd_token_symbol@,
                ibc_fee@,
                answer_view(*denom_trace),
                answer_view(*lsd_token_addr),
            ),
        ),
{
    let ghost pre = store@;
    let ghost pool = pool_info@;
    let mut pool_info = pool_info;
    let trace = query_denom_trace_from_ibc_denom(&pool_info.ibc_denom, denom_trace)?;
    if trace.denom_trace.base_denom != pool_info.remote_denom {
        return Err(ContractError::DenomTraceNotMatch);
    }
    let salt = lsd_token_salt(&pool_ica_info.ica_addr)?;
    let contract_addr = match lsd_token_addr {
        Ok(a) => a.clone(),
        Err(t) => {
            return Err(ContractError::Instantiate2AddressFailed(t.clone()));
        },
    };
    let decimals = match store.decimals.get(&pool_info.remote_denom) {
        Some(d) => *d,
        None => {
            return Err(ContractError::NotFound);
        },
    };
    let m1 = register_balance_query_msg(
        pool_ica_info.ctrl_connection_id.clone(),
        pool_ica_info.ica_addr.clone(),
        pool_info.remote_denom.clone(),
        DEFAULT_UPDATE_PERIOD,
    )?;
    let m2 = register_balance_query_msg(
        withdraw_ica_info.ctrl_connection_id.clone(),
        withdraw_ica_info.ica_addr.clone(),
        pool_info.remote_denom.clone(),
        DEFAULT_UPDATE_PERIOD,
    )?;
    let m3 = register_delegator_delegations_query_msg(
        pool_ica_info.ctrl_connection_id.clone(),
        pool_ica_info.ica_addr.clone(),
        copy_list(&pool_info.validator_addrs),
        DEFAULT_UPDATE_PERIOD,
    )?;
    let m4 = register_staking_validators_query_msg(
        pool_ica_info.ctrl_connection_id.clone(),
        copy_list(&pool_info.validator_addrs),
        VALIDATORS_QUERY_FIRST_PERIOD,
    )?;
    let instantiate_lsd_msg = CosmosMsg::InstantiateLsdToken(
        LsdTokenInit {
            admin: info.sender.clone(),
            code_id: lsd_code_id,
            name: lsd_token_name.clone(),
            symbol: lsd_token_symbol,
            decimals,
            minter: env.contract_address.clone(),
            label: lsd_token_name,
            salt,
        },
    );
    pool_info.lsd_token = contract_addr;
    pool_info.status = EraStatus::InitStarted;
    let era = pool_info.era;
    let rate = pool_info.rate;
    let ica_id = pool_info.ica_id.clone();
    let addr = pool_ica_info.ica_addr.clone();
    store.pools.save(addr.clone(), pool_info);
    store.era_rate.save((addr.clone(), era), rate);
    store.total_stack_fee.save(addr.clone(), 0);
    let ghost s0 = store@;
    proof {
        assert(s0 == (StoreView {
            pools: pre.pools.insert(
                addr@,
                PoolInfoView { lsd_token: contract_addr@, status: EraStatus::InitStarted, ..pool },
            ),
            era_rate: pre.era_rate.insert((addr@, pool.era), pool.rate),
            total_stack_fee: pre.total_stack_fee.insert(addr@, 0),
            ..pre
        }));
    }
    let register_balance_pool_submsg = register_query_submsg(
        store,
        m1,
        addr.clone(),
        QueryKind::Balances,
    );
    let register_balance_withdraw_submsg = register_query_submsg(
        store,
        m2,
        withdraw_ica_info.ica_addr.clone(),
        QueryKind::Balances,
    );
    let register_delegation_submsg = register_query_submsg(
        store,
        m3,
        addr.clone(),
        QueryKind::Delegations,
    );
    let register_validator_submsg = register_query_submsg(store, m4, addr, QueryKind::Validators);
    let set_withdraw = set_withdraw_sub_msg(store, ica_id, pool_ica_info, withdraw_ica_info, ibc_fee);
    let mut resp = Response::new();
    resp.add_message(instantiate_lsd_msg);
    let ghost subs = seq![
        register_balance_pool_submsg@,
        register_balance_withdraw_submsg@,
        register_delegation_submsg@,
        register_validator_submsg@,
        set_withdraw@,
    ];
    resp.push_message(register_balance_pool_submsg);
    resp.push_message(register_balance_withdraw_submsg);
    resp.push_message(register_delegation_submsg);
    resp.push_message(register_validator_submsg);
    resp.push_message(set_withdraw);
    proof {
        assert(resp@.messages =~= seq![plain_msg(instantiate_lsd_msg@)] + subs);
        assert(resp@.messages =~= seq![
            plain_msg(instantiate_lsd_msg@),
            subs[0],
            subs[1],
            subs[2],
            subs[3],
            subs[4],
        ]);
        let queries = pool_query_msgs(pool, pool_ica_info@, withdraw_ica_info@)->Ok_0;
        assert(queries[0] == m1@);
        assert(queries[1] == m2@);
        assert(queries[2] == m3@);
        assert(queries[3] == m4@);
        assert(resp@.attributes =~= Seq::empty());
    }
    Ok(resp)
}

/// The pool `pool` with the parameters of an initialisation: the amounts at zero, the
/// rate at the base, the limits at their defaults, and eras of the default length that
/// begin to count at the time of the call.
pub open spec fn pool_with_params(
    pool: PoolInfoView,
    ibc_denom: Seq<char>,
    channel_id_of_ibc_denom: Seq<char>,
    remote_denom: Seq<char>,
    validator_addrs: Seq<Seq<char>>,
    platform_fee_receiver: Seq<char>,
    minimal_stake: u128,
    platform_fee_commission: Option<u128>,
    offset: i64,
    unbonding_period: u64,
) -> PoolInfoView {
    PoolInfoView {
        ibc_denom,
        channel_id_of_ibc_denom,
        remote_denom,
        validator_addrs,
        platform_fee_receiver,
        minimal_stake,
        platform_fee_commission: match platform_fee_commission {
            Some(c) => c,
            None => DEFAULT_PLATFORM_FEE_COMMISSION,
        },
        era: 0,
        bond: 0,
        unbond: 0,
        active: 0,
        rate: CAL_BASE,
        share_tokens: Seq::empty(),
        total_platform_fee: 0,
        total_lsd_token_amount: 0,
        next_unstake_index: 0,
        unstake_times_limit: DEFAULT_UNSTAKE_TIMES_LIMIT,
        unbond_commission: 0,
        paused: false,
        lsm_support: false,
        lsm_pending_limit: DEFAULT_LSM_PENDING_LIMIT,
        rate_change_limit: 0,
        validator_update_status: ValidatorUpdateStatus::End,
        era_seconds: DEFAULT_ERA_SECONDS,
        offset,
        unbonding_period,
        ..pool
    }
}

/// What the initialisation of the pool of the pair `interchain_account_id` does.
///
/// Only the administrator of the pool may do it. The pool must have between one and
/// sixteen validators, and the funds must be one coin of the fee denomination. For a pool
/// whose initialisation failed, the funds must pay the fee of one instruction, and the
/// instruction that directs the rewards is dispatched again. For a pool that was
/// registered, the funds must pay that fee and the deposit of four queries; the pool is
/// given its parameters and set up as `deal_pool_spec` says. Any other pool is refused.
pub open spec fn execute_init_pool_spec(
    pre: StoreView,
    env: EnvView,
    info: MessageInfoView,
    interchain_account_id: Seq<char>,
    ibc_denom: Seq<char>,
    channel_id_of_ibc_denom: Seq<char>,
    remote_denom: Seq<char>,
    validator_addrs: Seq<Seq<char>>,
    platform_fee_receiver: Seq<char>,
    lsd_token_code_id: Option<u64>,
    lsd_token_name: Seq<char>,
    lsd_token_symbol: Seq<char>,
    minimal_stake: u128,
    platform_fee_commission: Option<u128>,
    min_ibc_fee: Result<IbcFeeView, Seq<char>>,
    icq_register_fee: Result<Seq<CoinView>, Seq<char>>,
    denom_trace: Result<QueryDenomTraceResponseView, Seq<char>>,
    lsd_token_addr: Result<Seq<char>, Seq<char>>,
) -> Result<(StoreView, ResponseView), ContractErrorView> {
    if !pre.info_of_ica_id.contains_key(interchain_account_id) {
        Err(ContractErrorView::NotFound)
    } else {
        let infos = pre.info_of_ica_id[interchain_account_id];
        let pool_ica = infos.pool_address_ica_info;
        let withdraw_ica = infos.withdraw_address_ica_info;
        if validator_addrs.len() == 0 || validator_addrs.len() > VALIDATORS_LEN_LIMIT {
            Err(ContractErrorView::ValidatorAddressesListSize)
        } else if info.funds.len() != 1 || info.funds[0].denom != FEE_DENOM@ {
            Err(ContractErrorView::ParamsErrorFundsNotMatch)
        } else if !pre.pools.contains_key(pool_ica.ica_addr) {
            Err(ContractErrorView::NotFound)
        } else {
            let pool = pre.pools[pool_ica.ica_addr];
            if info.sender != pool.admin {
                Err(ContractErrorView::Unauthorized)
            } else {
                match min_fee_spec(min_ibc_fee) {
                    Err(e) => Err(e),
                    Ok(fee) => match total_ibc_fee_spec(fee) {
                        Err(e) => Err(e),
                        Ok(total) => if pool.status == EraStatus::InitFailed {
                            if info.funds[0].amount < total {
                                Err(ContractErrorView::ParamsErrorFundsNotMatch)
                            } else {
                                let (post, sub) = set_withdraw_dispatch(
                                    pre,
                                    pool.ica_id,
                                    pool_ica,
                                    withdraw_ica,
                                    fee,
                                );
                                Ok((post, ResponseView { messages: seq![sub], attributes: Seq::empty() }))
                            }
                        } else if pool.status != EraStatus::RegisterEnded {
                            Err(ContractErrorView::StatusNotAllow)
                        } else {
                            match icq_register_fee {
                                Err(t) => Err(ContractErrorView::QueryFailed(t)),
                                Ok(deposit) => match times_spec(total_icq_register_fee_spec(deposit), 4) {
                                    Err(e) => Err(e),
                                    Ok(deposits) => match plus_spec(deposits, total) {
                                        Err(e) => Err(e),
                                        Ok(need) => if info.funds[0].amount < need {
                                            Err(ContractErrorView::ParamsErrorFundsNotMatch)
                                        } else {
                                            match era_offset_spec(
                                                0,
                                                (env.block_time_nanos / 1_000_000_000) as u64,
                                                DEFAULT_ERA_SECONDS,
                                            ) {
                                                Err(e) => Err(e),
                                                Ok(offset) => if !pre.unbonding_seconds.contains_key(
                                                    remote_denom,
                                                ) {
                                                    Err(ContractErrorView::NotFound)
                                                } else {
                                                    match unbonding_period_spec(
                                                        pre.unbonding_seconds[remote_denom],
                                                        DEFAULT_ERA_SECONDS,
                                                    ) {
                                                        Err(e) => Err(e),
                                                        Ok(period) => if lsd_token_code_id is None
                                                            && pre.stack is None {
                                                            Err(ContractErrorView::NotFound)
                                                        } else {
                                                            deal_pool_spec(
                                                                pre,
                                                                env,
                                                                info,
                                                                pool_with_params(
                                                                    pool,
                                                                    ibc_denom,
                                                                    channel_id_of_ibc_denom,
                                                                    remote_denom,
                                                                    validator_addrs,
                                                                    platform_fee_receiver,
                                                                    minimal_stake,
                                                                    platform_fee_commission,
                                                                    offset,
                                                                    period,
                                                                ),
                                                                pool_ica,
                                                                withdraw_ica,
                                                                match lsd_token_code_id {
                                                                    Some(id) => id,
                                                                    None => pre.stack->Some_0.lsd_token_code_id,
                                                                },
                                                                lsd_token_name,
                                                                lsd_token_symbol,
                                                                fee,
                                                                denom_trace,
                                                                lsd_token_addr,
                                                            )
                                                        },
                                                    }
                                                },
                                            }
                                        },
                                    },
                                },
                            }
                        },
                    },
                }
            }
        }
    }
}

/// Initialises the pool of the pair of accounts that `param` names.
///
/// `min_ibc_fee` is what the chain reported as its minimal fee, `icq_register_fee` what it
/// reported as the deposit for a query, `denom_trace` what it answered to the question
/// what the denomination of the pool stands for, and `lsd_token_addr` the address that it
/// derives for the receipt-token contract of the pool.
pub fn execute_init_pool(
    store: &mut Store,
    env: &Env,
    info: &MessageInfo,
    param: InitPoolParams,
    min_ibc_fee: &Result<IbcFee, String>,
    icq_register_fee: &Result<Vec<Coin>, String>,
    denom_trace: &Result<QueryDenomTraceResponse, String>,
    lsd_token_addr: &Result<String, String>,
) -> (r: Result<Response, ContractError>)
    ensures
        agrees(
            r,
            old(store)@,
            final(store)@,
            execute_init_pool_spec(
                old(store)@,
                env@,
                info@,
                param.interchain_account_id@,
                param.ibc_denom@,
                param.channel_id_of_ibc_denom@,
                param.remote_denom@,
                param.validator_addrs.deep_view(),
                param.platform_fee_receiver@,
                param.lsd_token_code_id,
                param.lsd_token_name@,
                param.lsd_token_symbol@,
                param.minimal_stake,
                param.platform_fee_commission,
                answer_view(*min_ibc_fee),
                answer_view(*icq_register_fee),
                answer_view(*denom_trace),
                answer_view(*lsd_token_addr),
            ),
        ),
{
    let ghost pre = store@;
    let (pool_ica_info, withdraw_ica_info) = match store.info_of_ica_id.get(
        &param.interchain_account_id,
    ) {
        Some(infos) => (infos.pool_address_ica_info.dup(), infos.withdraw_address_ica_info.dup()),
        None => {
            return Err(ContractError::NotFound);
        },
    };
    if param.validator_addrs.len() == 0 || param.validator_addrs.len() > VALIDATORS_LEN_LIMIT {
        return Err(ContractError::ValidatorAddressesListSize);
    }
    if info.funds.len() != 1 || !is_text(&info.funds[0].denom, FEE_DENOM) {
        return Err(ContractError::ParamsErrorFundsNotMatch);
    }
    let pool_info = match store.pools.get(&pool_ica_info.ica_addr) {
        Some(p) => p,
        None => {
            return Err(ContractError::NotFound);
        },
    };
    let ghost pool = pool_info@;
    pool_info.authorize(&info.sender)?;
    let ibc_fee = min_fee(min_ibc_fee)?;
    let total = total_ibc_fee(&ibc_fee)?;
    if pool_info.status == EraStatus::InitFailed {
        if info.funds[0].amount < total {
            return Err(ContractError::ParamsErrorFundsNotMatch);
        }
        let ica_id = pool_info.ica_id.clone();
        let sub = set_withdraw_sub_msg(store, ica_id, &pool_ica_info, &withdraw_ica_info, ibc_fee);
        let mut resp = Response::new();
        resp.messages.push(sub);
        proof {
            assert(resp@.messages =~= seq![sub@]);
            assert(resp@.attributes =~= Seq::empty());
        }
        return Ok(resp);
    }
    if pool_info.status != EraStatus::RegisterEnded {
        return Err(ContractError::StatusNotAllow);
    }
    let deposit = match icq_register_fee {
        Ok(coins) => total_icq_register_fee(crate::chain::copy_coins(coins)),
        Err(t) => {
            return Err(ContractError::QueryFailed(t.clone()));
        },
    };
    let deposits = crate::amount::times(deposit, 4)?;
    let need = crate::amount::plus(deposits, total)?;
    if info.funds[0].amount < need {
        return Err(ContractError::ParamsErrorFundsNotMatch);
    }
    let offset = era_offset(0, env.seconds(), DEFAULT_ERA_SECONDS)?;
    let unbonding_seconds = match store.unbonding_seconds.get(&param.remote_denom) {
        Some(s) => *s,
        None => {
            return Err(ContractError::NotFound);
        },
    };
    let period = unbonding_period(unbonding_seconds, DEFAULT_ERA_SECONDS)?;
    let code_id = match param.lsd_token_code_id {
        Some(id) => id,
        None => match &store.stack {
            Some(stack) => stack.lsd_token_code_id,
            None => {
                return Err(ContractError::NotFound);
            },
        },
    };
    let platform_fee_commission = match param.platform_fee_commission {
        Some(c) => c,
        None => DEFAULT_PLATFORM_FEE_COMMISSION,
    };
    let new_pool = PoolInfo {
        bond: 0,
        unbond: 0,
        active: 0,
        lsd_token: pool_info.lsd_token.clone(),
        ica_id: pool_info.ica_id.clone(),
        ibc_denom: param.ibc_denom,
        channel_id_of_ibc_denom: param.channel_id_of_ibc_denom,
        remote_denom: param.remote_denom,
        validator_addrs: param.validator_addrs,
        era: 0,
        rate: CAL_BASE,
        era_seconds: DEFAULT_ERA_SECONDS,
        offset,
        minimal_stake: param.minimal_stake,
        unstake_times_limit: DEFAULT_UNSTAKE_TIMES_LIMIT,
        next_unstake_index: 0,
        unbonding_period: period,
        status: pool_info.status,
        validator_update_status: ValidatorUpdateStatus::End,
        unbond_commission: 0,
        platform_fee_commission,
        stack_fee_commission: pool_info.stack_fee_commission,
        total_platform_fee: 0,
        total_lsd_token_amount: 0,
        platform_fee_receiver: param.platform_fee_receiver,
        admin: pool_info.admin.clone(),
        share_tokens: Vec::new(),
        redeemming_share_token_denom: copy_list(&pool_info.redeemming_share_token_denom),
        era_snapshot: pool_info.era_snapshot,
        paused: false,
        lsm_support: false,
        lsm_pending_limit: DEFAULT_LSM_PENDING_LIMIT,
        rate_change_limit: 0,
    };
    proof {
        assert(new_pool@.share_tokens =~= Seq::<CoinView>::empty());
    }
    deal_pool(
        store,
        env,
        info,
        new_pool,
        &pool_ica_info,
        &withdraw_ica_info,
        code_id,
        param.lsd_token_name,
        param.lsd_token_symbol,
        ibc_fee,
        denom_trace,
        lsd_token_addr,
    )
}

} // verus!
