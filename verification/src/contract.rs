//! The entry points of the contract: setting it up, the calls of users and
//! administrators, and what the chain reports back.
use vstd::prelude::*;
use crate::amount::minus_spec;
use crate::chain::{Env, EnvView, MessageInfo, MessageInfoView, Reply, Response, ResponseView, SudoMsg};
use crate::error_conversion::{ContractError, ContractErrorView};
use crate::execute_config_decimals::{execute_config_decimals, execute_config_decimals_spec};
use crate::execute_config_pool::{execute_config_pool, execute_config_pool_spec};
use crate::execute_config_pool_stack_fee::{
    execute_config_pool_stack_fee,
    execute_config_pool_stack_fee_spec,
};
use crate::execute_config_stack::{execute_config_stack, execute_config_stack_spec};
use crate::execute_config_unbonding_seconds::{
    execute_config_unbonding_seconds,
    execute_config_unbonding_seconds_spec,
};
use crate::execute_era_active::{execute_era_active, execute_era_active_spec};
use crate::execute_era_collect_withdraw::{
    execute_era_collect_withdraw,
    execute_era_collect_withdraw_spec,
};
use crate::execute_era_restake::{execute_era_restake, execute_era_restake_spec};
use crate::execute_era_stake::{execute_era_stake, execute_era_stake_spec};
use crate::execute_era_update::{execute_era_update, execute_era_update_spec};
use crate::execute_icq_update_period::{update_icq_update_period, update_icq_update_period_spec};
use crate::execute_init_pool::{execute_init_pool, execute_init_pool_spec};
use crate::execute_open_channel::{execute_open_channel, execute_open_channel_spec};
use crate::execute_pool_add_validator::{execute_add_pool_validators, execute_add_pool_validators_spec};
use crate::execute_pool_rm_validator::{execute_rm_pool_validator, execute_rm_pool_validator_spec};
use crate::execute_pool_update_validator::{
    execute_pool_update_validator,
    execute_pool_update_validator_spec,
};
use crate::execute_redeem_token_for_share::{
    execute_redeem_token_for_share,
    execute_redeem_token_for_share_spec,
};
use crate::execute_register_pool::{
    execute_register_pool,
    execute_register_pool_spec,
    sudo_open_ack,
    sudo_open_ack_spec,
};
use crate::execute_stake::{execute_stake, execute_stake_spec};
use crate::execute_stake_lsm::{execute_stake_lsm, execute_stake_lsm_spec};
use crate::execute_unstake::{execute_unstake, execute_unstake_spec};
use crate::execute_update_validators_icq::{
    execute_update_validators_icq,
    execute_update_validators_icq_spec,
};
use crate::execute_withdraw::{execute_withdraw, execute_withdraw_spec};
use crate::helper::{agrees, answer_view, empty_response};
use crate::msg::{ChainData, ExecuteMsg, InstantiateMsg, MigrateMsg};
use crate::query_callback::{
    registration_result,
    sudo_kv_query_result,
    sudo_kv_query_result_spec,
    write_reply_id_to_query_id,
    write_reply_id_to_query_id_spec,
};
use crate::state::{
    with_pool,
    PoolInfoView,
    Stack,
    StackView,
    Store,
    StoreView,
    QUERY_REPLY_ID_RANGE_END,
    QUERY_REPLY_ID_RANGE_START,
    REPLY_ID_RANGE_END,
    REPLY_ID_RANGE_START,
};
use crate::tx_callback::{
    dispatch_result,
    prepare_sudo_payload,
    prepare_sudo_payload_spec,
    resolution_spec,
    sudo_error,
    sudo_response,
    sudo_timeout,
};

verus! {

/// Protocol commission with which the contract is set up.
pub const INITIAL_STACK_FEE_COMMISSION: u128 = 100_000;

/// The pool whose accounts a migration corrects.
pub const MIGRATED_POOL: &'static str = "cosmos1p4d5ypwaj2yd74lsszd8an7257cepypgg2nvuptnvnx7spqv989qd32kl5";

/// The configuration with which the contract is set up by `sender`.
pub open spec fn initial_stack(sender: Seq<char>, lsd_token_code_id: u64, stack_fee_receiver: Seq<char>) -> StackView {
    StackView {
        admin: sender,
        stack_fee_receiver,
        stack_fee_commission: INITIAL_STACK_FEE_COMMISSION,
        entrusted_pools: Seq::empty(),
        lsd_token_code_id,
    }
}

/// Sets up the contract: the sender becomes its administrator.
pub fn instantiate(store: &mut Store, info: &MessageInfo, msg: InstantiateMsg) -> (r: Response)
    ensures
        r@ == empty_response(),
        final(store)@ == (StoreView {
            stack: Some(initial_stack(info.sender@, msg.lsd_token_code_id, msg.stack_fee_receiver@)),
            ..old(store)@
        }),
{
    let stack = Stack {
        admin: info.sender.clone(),
        stack_fee_receiver: msg.stack_fee_receiver,
        stack_fee_commission: INITIAL_STACK_FEE_COMMISSION,
        entrusted_pools: Vec::new(),
        lsd_token_code_id: msg.lsd_token_code_id,
    };
    proof {
        assert(stack@.entrusted_pools =~= Seq::<Seq<char>>::empty());
    }
    store.stack = Some(stack);
    Response::new()
}

/// What the migration does: the pool `MIGRATED_POOL` no longer counts as deposited, or as
/// requested back, what its snapshot holds as such.
pub open spec fn migrate_spec(pre: StoreView) -> Result<(StoreView, ResponseView), ContractErrorView> {
    if !pre.pools.contains_key(MIGRATED_POOL@) {
        Err(ContractErrorView::NotFound)
    } else {
        let pool = pre.pools[MIGRATED_POOL@];
        match minus_spec(pool.bond, pool.era_snapshot.bond) {
            Err(e) => Err(e),
            Ok(bond) => match minus_spec(pool.unbond, pool.era_snapshot.unbond) {
                Err(e) => Err(e),
                Ok(unbond) => Ok(
                    (with_pool(pre, MIGRATED_POOL@, PoolInfoView { bond, unbond, ..pool }), empty_response()),
                ),
            },
        }
    }
}

/// Migrates the state of the contract.
pub fn migrate(store: &mut Store, _msg: MigrateMsg) -> (r: Result<Response, ContractError>)
    ensures
        agrees(r, old(store)@, final(store)@, migrate_spec(old(store)@)),
{
    let ghost pre = store@;
    let key = String::from_str(MIGRATED_POOL);
    let pool_info = match store.pools.get(&key) {
        Some(p) => p,
        None => {
            return Err(ContractError::NotFound);
        },
    };
    let ghost pool = pool_info@;
    let bond = crate::amount::minus(pool_info.bond, pool_info.era_snapshot.bond)?;
    let unbond = crate::amount::minus(pool_info.unbond, pool_info.era_snapshot.unbond)?;
    let mut pool_new = store.pools.take(&key);
    pool_new.bond = bond;
    pool_new.unbond = unbond;
    store.pools.save(key, pool_new);
    proof {
        assert(store@.pools =~= pre.pools.insert(MIGRATED_POOL@, PoolInfoView { bond, unbond, ..pool }));
    }
    Ok(Response::new())
}

/// What the reply `msg` does: a reply numbered from the range of dispatched instructions
/// is the reply to a dispatch, one numbered from the range of query registrations is the
/// reply to a registration, and any other is refused.
pub open spec fn reply_spec(pre: StoreView, msg: Reply) -> Result<(StoreView, ResponseView), ContractErrorView> {
    if REPLY_ID_RANGE_START <= msg.id <= REPLY_ID_RANGE_END {
        prepare_sudo_payload_spec(pre, msg.id, dispatch_result(msg))
    } else if QUERY_REPLY_ID_RANGE_START <= msg.id <= QUERY_REPLY_ID_RANGE_END {
        write_reply_id_to_query_id_spec(pre, msg.id, registration_result(msg))
    } else {
        Err(ContractErrorView::UnsupportedReplyId(msg.id))
    }
}

/// Handles the reply to a message that the contract dispatched.
pub fn reply(store: &mut Store, msg: Reply) -> (r: Result<Response, ContractError>)
    ensures
        agrees(r, old(store)@, final(store)@, reply_spec(old(store)@, msg)),
{
    if REPLY_ID_RANGE_START <= msg.id && msg.id <= REPLY_ID_RANGE_END {
        prepare_sudo_payload(store, msg)
    } else if QUERY_REPLY_ID_RANGE_START <= msg.id && msg.id <= QUERY_REPLY_ID_RANGE_END {
        write_reply_id_to_query_id(store, msg)
    } else {
        Err(ContractError::UnsupportedReplyId(msg.id))
    }
}

/// What the notification `msg` does.
pub open spec fn sudo_spec(pre: StoreView, env: EnvView, msg: SudoMsg) -> Result<
    (StoreView, ResponseView),
    ContractErrorView,
> {
    match msg {
        SudoMsg::Response { request } => resolution_spec(pre, env, request@, true),
        SudoMsg::Error { request } => resolution_spec(pre, env, request@, false),
        SudoMsg::Timeout { request } => resolution_spec(pre, env, request@, false),
        SudoMsg::KVQueryResult { query_id } => Ok(sudo_kv_query_result_spec(pre, query_id)),
        SudoMsg::OpenAck {
            port_id,
            channel_id,
            counterparty_channel_id,
            counterparty_version,
        } => sudo_open_ack_spec(
            pre,
            port_id@,
            channel_id@,
            counterparty_channel_id@,
            counterparty_version.deep_view(),
        ),
        SudoMsg::Other => Ok((pre, empty_response())),
    }
}

/// Handles a notification of the chain.
pub fn sudo(store: &mut Store, env: &Env, msg: SudoMsg) -> (r: Result<Response, ContractError>)
    ensures
        agrees(r, old(store)@, final(store)@, sudo_spec(old(store)@, env@, msg)),
{
    match msg {
        SudoMsg::Response { request } => sudo_response(store, env, request),
        SudoMsg::Error { request } => sudo_error(store, env, request),
        SudoMsg::Timeout { request } => sudo_timeout(store, env, request),
        SudoMsg::KVQueryResult { query_id } => sudo_kv_query_result(store, query_id),
        SudoMsg::OpenAck {
            port_id,
            channel_id,
            counterparty_channel_id,
            counterparty_version,
        } => sudo_open_ack(store, port_id, channel_id, counterparty_channel_id, counterparty_version),
        SudoMsg::Other => Ok(Response::new()),
    }
}

/// What the call `msg` does, given what the chain reports.
pub open spec fn execute_spec(
    pre: StoreView,
    env: EnvView,
    info: MessageInfoView,
    msg: ExecuteMsg,
    chain: ChainData,
) -> Result<(StoreView, ResponseView), ContractErrorView> {
    match msg {
        ExecuteMsg::RegisterPool { connection_id, interchain_account_id } => execute_register_pool_spec(
            pre,
            env,
            info,
            connection_id@,
            interchain_account_id@,
        ),
        ExecuteMsg::InitPool(p) => execute_init_pool_spec(
            pre,
            env,
            info,
            p.interchain_account_id@,
            p.ibc_denom@,
            p.channel_id_of_ibc_denom@,
            p.remote_denom@,
            p.validator_addrs.deep_view(),
            p.platform_fee_receiver@,
            p.lsd_token_code_id,
            p.lsd_token_name@,
            p.lsd_token_symbol@,
            p.minimal_stake,
            p.platform_fee_commission,
            answer_view(chain.min_ibc_fee),
            answer_view(chain.icq_register_fee),
            answer_view(chain.denom_trace),
            answer_view(chain.lsd_token_addr),
        ),
        ExecuteMsg::ConfigPool(p) => execute_config_pool_spec(
            pre,
            info,
            env,
            p.pool_addr@,
            p.platform_fee_receiver.deep_view(),
            p.minimal_stake,
            p.unstake_times_limit,
            p.unbond_commission,
            p.platform_fee_commission,
            p.era_seconds,
            p.paused,
            p.lsm_support,
            p.lsm_pending_limit,
            p.rate_change_limit,
            p.new_admin.deep_view(),
        ),
        ExecuteMsg::ConfigStack(p) => execute_config_stack_spec(
            pre,
            info,
            p.stack_fee_receiver.deep_view(),
            p.new_admin.deep_view(),
            p.stack_fee_commission,
            p.lsd_token_code_id,
            p.add_entrusted_pool.deep_view(),
            p.remove_entrusted_pool.deep_view(),
        ),
        ExecuteMsg::ConfigPoolStackFee(p) => execute_config_pool_stack_fee_spec(
            pre,
            info,
            p.pool_addr@,
            p.stack_fee_commission,
        ),
        ExecuteMsg::ConfigUnbondingSeconds {
            remote_denom,
            unbonding_seconds,
        } => execute_config_unbonding_seconds_spec(pre, info, remote_denom@, unbonding_seconds),
        ExecuteMsg::ConfigDecimals { remote_denom, decimals } => execute_config_decimals_spec(
            pre,
            info,
            remote_denom@,
            decimals,
        ),
        ExecuteMsg::OpenChannel { pool_addr, closed_channel_id } => execute_open_channel_spec(
            pre,
            info,
            pool_addr@,
            closed_channel_id@,
        ),
        ExecuteMsg::RedeemTokenForShare { pool_addr, tokens } => execute_redeem_token_for_share_spec(
            pre,
            pool_addr@,
            tokens.deep_view(),
            answer_view(chain.min_ibc_fee),
        ),
        ExecuteMsg::Stake { neutron_address, pool_addr } => execute_stake_spec(
            pre,
            neutron_address@,
            pool_addr@,
            info,
        ),
        ExecuteMsg::Unstake { amount, pool_addr } => execute_unstake_spec(pre, info, amount, pool_addr@),
        ExecuteMsg::Withdraw { pool_addr, receiver, unstake_index_list } => execute_withdraw_spec(
            pre,
            info,
            pool_addr@,
            receiver@,
            unstake_index_list@,
            answer_view(chain.min_ibc_fee),
        ),
        ExecuteMsg::PoolRmValidator { pool_addr, validator_addr } => execute_rm_pool_validator_spec(
            pre,
            info,
            pool_addr@,
            validator_addr@,
            answer_view(chain.delegations),
            answer_view(chain.min_ibc_fee),
        ),
        ExecuteMsg::PoolAddValidator { pool_addr, validator_addr } => execute_add_pool_validators_spec(
            pre,
            info,
            pool_addr@,
            validator_addr@,
        ),
        ExecuteMsg::PoolUpdateValidator {
            pool_addr,
            old_validator,
            new_validator,
        } => execute_pool_update_validator_spec(
            pre,
            info,
            pool_addr@,
            old_validator@,
            new_validator@,
            answer_view(chain.delegations),
            answer_view(chain.min_ibc_fee),
        ),
        ExecuteMsg::PoolUpdateValidatorsIcq { pool_addr } => execute_update_validators_icq_spec(
            pre,
            info,
            pool_addr@,
        ),
        ExecuteMsg::EraUpdate { pool_addr } => execute_era_update_spec(
            pre,
            env,
            pool_addr@,
            answer_view(chain.contract_balances),
            answer_view(chain.min_ibc_fee),
        ),
        ExecuteMsg::EraStake { pool_addr } => execute_era_stake_spec(
            pre,
            env,
            info,
            pool_addr@,
            answer_view(chain.delegations),
            answer_view(chain.min_ibc_fee),
        ),
        ExecuteMsg::EraCollectWithdraw { pool_addr } => execute_era_collect_withdraw_spec(
            pre,
            info,
            pool_addr@,
            answer_view(chain.withdraw_balance),
            answer_view(chain.min_ibc_fee),
        ),
        ExecuteMsg::EraRestake { pool_addr } => execute_era_restake_spec(
            pre,
            pool_addr@,
            answer_view(chain.min_ibc_fee),
        ),
        ExecuteMsg::EraActive { pool_addr } => execute_era_active_spec(
            pre,
            pool_addr@,
            answer_view(chain.delegations),
        ),
        ExecuteMsg::StakeLsm { neutron_address, pool_addr } => execute_stake_lsm_spec(
            pre,
            env,
            info,
            neutron_address@,
            pool_addr@,
            answer_view(chain.denom_trace),
            answer_view(chain.validators),
            answer_view(chain.min_ibc_fee),
        ),
        ExecuteMsg::UpdateIcqUpdatePeriod { pool_addr } => update_icq_update_period_spec(
            pre,
            info,
            pool_addr@,
        ),
    }
}

/// Handles a call of the contract. `chain` is what the chain reports at the time of the
/// call.
pub fn execute(store: &mut Store, env: &Env, info: &MessageInfo, msg: ExecuteMsg, chain: &ChainData) -> (r:
    Result<Response, ContractError>)
    ensures
        agrees(r, old(store)@, final(store)@, execute_spec(old(store)@, env@, info@, msg, *chain)),
{
    match msg {
        ExecuteMsg::RegisterPool { connection_id, interchain_account_id } => execute_register_pool(
            store,
            env,
            info,
            connection_id,
            interchain_account_id,
        ),
        ExecuteMsg::InitPool(params) => execute_init_pool(
            store,
            env,
            info,
            params,
            &chain.min_ibc_fee,
            &chain.icq_register_fee,
            &chain.denom_trace,
            &chain.lsd_token_addr,
        ),
        ExecuteMsg::ConfigPool(params) => execute_config_pool(store, info, env, params),
        ExecuteMsg::ConfigStack(params) => execute_config_stack(store, info, params),
        ExecuteMsg::ConfigPoolStackFee(params) => execute_config_pool_stack_fee(store, info, params),
        ExecuteMsg::ConfigUnbondingSeconds {
            remote_denom,
            unbonding_seconds,
        } => execute_config_unbonding_seconds(store, info, remote_denom, unbonding_seconds),
        ExecuteMsg::ConfigDecimals { remote_denom, decimals } => execute_config_decimals(
            store,
            info,
            remote_denom,
            decimals,
        ),
        ExecuteMsg::OpenChannel { pool_addr, closed_channel_id } => execute_open_channel(
            store,
            info,
            pool_addr,
            closed_channel_id,
        ),
        ExecuteMsg::RedeemTokenForShare { pool_addr, tokens } => execute_redeem_token_for_share(
            store,
            pool_addr,
            tokens,
            &chain.min_ibc_fee,
        ),
        ExecuteMsg::Stake { neutron_address, pool_addr } => execute_stake(
            store,
            neutron_address,
            pool_addr,
            info,
        ),
        ExecuteMsg::Unstake { amount, pool_addr } => execute_unstake(store, info, amount, pool_addr),
        ExecuteMsg::Withdraw { pool_addr, receiver, unstake_index_list } => execute_withdraw(
            store,
            info,
            pool_addr,
            receiver,
            unstake_index_list,
            &chain.min_ibc_fee,
        ),
        ExecuteMsg::PoolRmValidator { pool_addr, validator_addr } => execute_rm_pool_validator(
            store,
            info,
            pool_addr,
            validator_addr,
            &chain.delegations,
            &chain.min_ibc_fee,
        ),
        ExecuteMsg::PoolAddValidator { pool_addr, validator_addr } => execute_add_pool_validators(
            store,
            info,
            pool_addr,
            validator_addr,
        ),
        ExecuteMsg::PoolUpdateValidator {
            pool_addr,
            old_validator,
            new_validator,
        } => execute_pool_update_validator(
            store,
            info,
            pool_addr,
            old_validator,
            new_validator,
            &chain.delegations,
            &chain.min_ibc_fee,
        ),
        ExecuteMsg::PoolUpdateValidatorsIcq { pool_addr } => execute_update_validators_icq(
            store,
            info,
            pool_addr,
        ),
        ExecuteMsg::EraUpdate { pool_addr } => execute_era_update(
            store,
            env,
            pool_addr,
            &chain.contract_balances,
            &chain.min_ibc_fee,
        ),
        ExecuteMsg::EraStake { pool_addr } => execute_era_stake(
            store,
            env,
            info,
            pool_addr,
            &chain.delegations,
            &chain.min_ibc_fee,
        ),
        ExecuteMsg::EraCollectWithdraw { pool_addr } => execute_era_collect_withdraw(
            store,
            info,
            pool_addr,
            &chain.withdraw_balance,
            &chain.min_ibc_fee,
        ),
        ExecuteMsg::EraRestake { pool_addr } => execute_era_restake(
            store,
            pool_addr,
            &chain.min_ibc_fee,
        ),
        ExecuteMsg::EraActive { pool_addr } => execute_era_active(store, pool_addr, &chain.delegations),
        ExecuteMsg::StakeLsm { neutron_address, pool_addr } => execute_stake_lsm(
            store,
            env,
            info,
            neutron_address,
            pool_addr,
            &chain.denom_trace,
            &chain.validators,
            &chain.min_ibc_fee,
        ),
        ExecuteMsg::UpdateIcqUpdatePeriod { pool_addr } => update_icq_update_period(
            store,
            info,
            pool_addr,
        ),
    }
}

/// The pool waits for the resolution of a step of its era.
pub open spec fn step_under_way(status: crate::state::EraStatus) -> bool {
    status == crate::state::EraStatus::EraUpdateStarted || status == crate::state::EraStatus::EraStakeStarted
        || status == crate::state::EraStatus::WithdrawStarted || status
        == crate::state::EraStatus::EraRestakeStarted
}

/// While a step of an era is under way, no step of the era and no change of the pool can
/// be called.
///
/// Let the pool `pool_addr` wait for the resolution of a step of its era. Then each of the
/// five steps of the era is refused, whoever calls it and whatever the chain reports, and
/// so is every change of the validators and every configuration of the pool. Only the
/// resolution of the step, which arrives as a notification, moves the pool on.
pub proof fn lemma_step_under_way_refuses_calls(
    pre: StoreView,
    env: EnvView,
    info: MessageInfoView,
    pool_addr: Seq<char>,
    chain: ChainData,
    validator: Seq<char>,
    other_validator: Seq<char>,
    config: crate::msg::ConfigPoolParams,
)
    requires
        pre.pools.contains_key(pool_addr),
        step_under_way(pre.pools[pool_addr].status),
        config.pool_addr@ == pool_addr,
    ensures
        execute_era_update_spec(
            pre,
            env,
            pool_addr,
            answer_view(chain.contract_balances),
            answer_view(chain.min_ibc_fee),
        ) is Err,
        execute_era_stake_spec(
            pre,
            env,
            info,
            pool_addr,
            answer_view(chain.delegations),
            answer_view(chain.min_ibc_fee),
        ) is Err,
        execute_era_collect_withdraw_spec(
            pre,
            info,
            pool_addr,
            answer_view(chain.withdraw_balance),
            answer_view(chain.min_ibc_fee),
        ) is Err,
        execute_era_restake_spec(pre, pool_addr, answer_view(chain.min_ibc_fee)) is Err,
        execute_era_active_spec(pre, pool_addr, answer_view(chain.delegations)) is Err,
        execute_add_pool_validators_spec(pre, info, pool_addr, validator) is Err,
        execute_rm_pool_validator_spec(
            pre,
            info,
            pool_addr,
            validator,
            answer_view(chain.delegations),
            answer_view(chain.min_ibc_fee),
        ) is Err,
        execute_pool_update_validator_spec(
            pre,
            info,
            pool_addr,
            validator,
            other_validator,
            answer_view(chain.delegations),
            answer_view(chain.min_ibc_fee),
        ) is Err,
        execute_spec(pre, env, info, ExecuteMsg::ConfigPool(config), chain) is Err,
{
}

/// The pool `addr` has a rate above zero in `pre`, and where `post` still has it, there too.
pub open spec fn rate_kept_above_zero(pre: StoreView, post: StoreView, addr: Seq<char>) -> bool {
    pre.pools.contains_key(addr) && pre.pools[addr].rate > 0 ==> post.pools.contains_key(addr)
        && post.pools[addr].rate > 0
}

/// The rate of a pool is above zero from its initialisation on.
///
/// An initialisation that sets a pool up gives it the base rate. No call, no notification
/// and no reply takes a pool whose rate is above zero to a rate of zero, whatever the
/// chain reports: a call that succeeds leaves every such pool in the state, with a rate
/// above zero.
pub proof fn lemma_rate_stays_above_zero(
    pre: StoreView,
    env: EnvView,
    info: MessageInfoView,
    msg: ExecuteMsg,
    chain: ChainData,
    notification: SudoMsg,
    answer: Reply,
    addr: Seq<char>,
)
    ensures
        execute_spec(pre, env, info, msg, chain) is Ok ==> rate_kept_above_zero(
            pre,
            execute_spec(pre, env, info, msg, chain)->Ok_0.0,
            addr,
        ),
        sudo_spec(pre, env, notification) is Ok ==> rate_kept_above_zero(
            pre,
            sudo_spec(pre, env, notification)->Ok_0.0,
            addr,
        ),
        reply_spec(pre, answer) is Ok ==> rate_kept_above_zero(pre, reply_spec(pre, answer)->Ok_0.0, addr),
        migrate_spec(pre) is Ok ==> rate_kept_above_zero(pre, migrate_spec(pre)->Ok_0.0, addr),
        ({
            let init_addr =
                pre.info_of_ica_id[msg->InitPool_0.interchain_account_id@].pool_address_ica_info.ica_addr;
            msg is InitPool && execute_spec(pre, env, info, msg, chain) is Ok
                && pre.pools[init_addr].status == crate::state::EraStatus::RegisterEnded
                ==> execute_spec(pre, env, info, msg, chain)->Ok_0.0.pools[init_addr].rate
                == crate::helper::CAL_BASE
        }),
{
    lemma_calls_keep_rate(pre, env, info, msg, chain, addr);
    lemma_notifications_keep_rate(pre, env, notification, addr);
}

proof fn lemma_calls_keep_rate(
    pre: StoreView,
    env: EnvView,
    info: MessageInfoView,
    msg: ExecuteMsg,
    chain: ChainData,
    addr: Seq<char>,
)
    ensures
        execute_spec(pre, env, info, msg, chain) is Ok ==> rate_kept_above_zero(
            pre,
            execute_spec(pre, env, info, msg, chain)->Ok_0.0,
            addr,
        ),
{
    match msg {
        ExecuteMsg::RegisterPool { .. } => lemma_rate_kept_by_register_pool(pre, env, info, msg, chain, addr),
        ExecuteMsg::InitPool(_) => lemma_rate_kept_by_init_pool(pre, env, info, msg, chain, addr),
        ExecuteMsg::ConfigPool(_) => lemma_rate_kept_by_config_pool(pre, env, info, msg, chain, addr),
        ExecuteMsg::ConfigStack(_) => lemma_rate_kept_by_config_stack(pre, env, info, msg, chain, addr),
        ExecuteMsg::ConfigPoolStackFee(_) => lemma_rate_kept_by_config_pool_stack_fee(pre, env, info, msg, chain, addr),
        ExecuteMsg::ConfigUnbondingSeconds { .. } => lemma_rate_kept_by_config_unbonding_seconds(pre, env, info, msg, chain, addr),
        ExecuteMsg::ConfigDecimals { .. } => lemma_rate_kept_by_config_decimals(pre, env, info, msg, chain, addr),
        ExecuteMsg::OpenChannel { .. } => lemma_rate_kept_by_open_channel(pre, env, info, msg, chain, addr),
        ExecuteMsg::RedeemTokenForShare { .. } => lemma_rate_kept_by_redeem_token_for_share(pre, env, info, msg, chain, addr),
        ExecuteMsg::Stake { .. } => lemma_rate_kept_by_stake(pre, env, info, msg, chain, addr),
        ExecuteMsg::Unstake { .. } => lemma_rate_kept_by_unstake(pre, env, info, msg, chain, addr),
        ExecuteMsg::Withdraw { .. } => lemma_rate_kept_by_withdraw(pre, env, info, msg, chain, addr),
        ExecuteMsg::PoolRmValidator { .. } => lemma_rate_kept_by_pool_rm_validator(pre, env, info, msg, chain, addr),
        ExecuteMsg::PoolAddValidator { .. } => lemma_rate_kept_by_pool_add_validator(pre, env, info, msg, chain, addr),
        ExecuteMsg::PoolUpdateValidator { .. } => lemma_rate_kept_by_pool_update_validator(pre, env, info, msg, chain, addr),
        ExecuteMsg::PoolUpdateValidatorsIcq { .. } => lemma_rate_kept_by_pool_update_validators_icq(pre, env, info, msg, chain, addr),
        ExecuteMsg::EraUpdate { .. } => lemma_rate_kept_by_era_update(pre, env, info, msg, chain, addr),
        ExecuteMsg::EraStake { .. } => lemma_rate_kept_by_era_stake(pre, env, info, msg, chain, addr),
        ExecuteMsg::EraCollectWithdraw { .. } => lemma_rate_kept_by_era_collect_withdraw(pre, env, info, msg, chain, addr),
        ExecuteMsg::EraRestake { .. } => lemma_rate_kept_by_era_restake(pre, env, info, msg, chain, addr),
        ExecuteMsg::EraActive { .. } => lemma_rate_kept_by_era_active(pre, env, info, msg, chain, addr),
        ExecuteMsg::StakeLsm { .. } => lemma_rate_kept_by_stake_lsm(pre, env, info, msg, chain, addr),
        ExecuteMsg::UpdateIcqUpdatePeriod { .. } => lemma_rate_kept_by_update_icq_update_period(pre, env, info, msg, chain, addr),
    }
}

proof fn lemma_rate_kept_by_register_pool(pre: StoreView, env: EnvView, info: MessageInfoView, msg: ExecuteMsg, chain: ChainData, addr: Seq<char>)
    requires
        msg is RegisterPool,
    ensures
        execute_spec(pre, env, info, msg, chain) is Ok ==> rate_kept_above_zero(
            pre,
            execute_spec(pre, env, info, msg, chain)->Ok_0.0,
            addr,
        ),
{
}

proof fn lemma_rate_kept_by_init_pool(pre: StoreView, env: EnvView, info: MessageInfoView, msg: ExecuteMsg, chain: ChainData, addr: Seq<char>)
    requires
        msg is InitPool,
    ensures
        execute_spec(pre, env, info, msg, chain) is Ok ==> rate_kept_above_zero(
            pre,
            execute_spec(pre, env, info, msg, chain)->Ok_0.0,
            addr,
        ),
{
}

proof fn lemma_rate_kept_by_config_pool(pre: StoreView, env: EnvView, info: MessageInfoView, msg: ExecuteMsg, chain: ChainData, addr: Seq<char>)
    requires
        msg is ConfigPool,
    ensures
        execute_spec(pre, env, info, msg, chain) is Ok ==> rate_kept_above_zero(
            pre,
            execute_spec(pre, env, info, msg, chain)->Ok_0.0,
            addr,
        ),
{
}

proof fn lemma_rate_kept_by_config_stack(pre: StoreView, env: EnvView, info: MessageInfoView, msg: ExecuteMsg, chain: ChainData, addr: Seq<char>)
    requires
        msg is ConfigStack,
    ensures
        execute_spec(pre, env, info, msg, chain) is Ok ==> rate_kept_above_zero(
            pre,
            execute_spec(pre, env, info, msg, chain)->Ok_0.0,
            addr,
        ),
{
}

proof fn lemma_rate_kept_by_config_pool_stack_fee(pre: StoreView, env: EnvView, info: MessageInfoView, msg: ExecuteMsg, chain: ChainData, addr: Seq<char>)
    requires
        msg is ConfigPoolStackFee,
    ensures
        execute_spec(pre, env, info, msg, chain) is Ok ==> rate_kept_above_zero(
            pre,
            execute_spec(pre, env, info, msg, chain)->Ok_0.0,
            addr,
        ),
{
}

proof fn lemma_rate_kept_by_config_unbonding_seconds(pre: StoreView, env: EnvView, info: MessageInfoView, msg: ExecuteMsg, chain: ChainData, addr: Seq<char>)
    requires
        msg is ConfigUnbondingSeconds,
    ensures
        execute_spec(pre, env, info, msg, chain) is Ok ==> rate_kept_above_zero(
            pre,
            execute_spec(pre, env, info, msg, chain)->Ok_0.0,
            addr,
        ),
{
}

proof fn lemma_rate_kept_by_config_decimals(pre: StoreView, env: EnvView, info: MessageInfoView, msg: ExecuteMsg, chain: ChainData, addr: Seq<char>)
    requires
        msg is ConfigDecimals,
    ensures
        execute_spec(pre, env, info, msg, chain) is Ok ==> rate_kept_above_zero(
            pre,
            execute_spec(pre, env, info, msg, chain)->Ok_0.0,
            addr,
        ),
{
}

proof fn lemma_rate_kept_by_open_channel(pre: StoreView, env: EnvView, info: MessageInfoView, msg: ExecuteMsg, chain: ChainData, addr: Seq<char>)
    requires
        msg is OpenChannel,
    ensures
        execute_spec(pre, env, info, msg, chain) is Ok ==> rate_kept_above_zero(
            pre,
            execute_spec(pre, env, info, msg, chain)->Ok_0.0,
            addr,
        ),
{
}

proof fn lemma_rate_kept_by_redeem_token_for_share(pre: StoreView, env: EnvView, info: MessageInfoView, msg: ExecuteMsg, chain: ChainData, addr: Seq<char>)
    requires
        msg is RedeemTokenForShare,
    ensures
        execute_spec(pre, env, info, msg, chain) is Ok ==> rate_kept_above_zero(
            pre,
            execute_spec(pre, env, info, msg, chain)->Ok_0.0,
            addr,
        ),
{
}

proof fn lemma_rate_kept_by_stake(pre: StoreView, env: EnvView, info: MessageInfoView, msg: ExecuteMsg, chain: ChainData, addr: Seq<char>)
    requires
        msg is Stake,
    ensures
        execute_spec(pre, env, info, msg, chain) is Ok ==> rate_kept_above_zero(
            pre,
            execute_spec(pre, env, info, msg, chain)->Ok_0.0,
            addr,
        ),
{
}

proof fn lemma_rate_kept_by_unstake(pre: StoreView, env: EnvView, info: MessageInfoView, msg: ExecuteMsg, chain: ChainData, addr: Seq<char>)
    requires
        msg is Unstake,
    ensures
        execute_spec(pre, env, info, msg, chain) is Ok ==> rate_kept_above_zero(
            pre,
            execute_spec(pre, env, info, msg, chain)->Ok_0.0,
            addr,
        ),
{
}

proof fn lemma_rate_kept_by_withdraw(pre: StoreView, env: EnvView, info: MessageInfoView, msg: ExecuteMsg, chain: ChainData, addr: Seq<char>)
    requires
        msg is Withdraw,
    ensures
        execute_spec(pre, env, info, msg, chain) is Ok ==> rate_kept_above_zero(
            pre,
            execute_spec(pre, env, info, msg, chain)->Ok_0.0,
            addr,
        ),
{
}

proof fn lemma_rate_kept_by_pool_rm_validator(pre: StoreView, env: EnvView, info: MessageInfoView, msg: ExecuteMsg, chain: ChainData, addr: Seq<char>)
    requires
        msg is PoolRmValidator,
    ensures
        execute_spec(pre, env, info, msg, chain) is Ok ==> rate_kept_above_zero(
            pre,
            execute_spec(pre, env, info, msg, chain)->Ok_0.0,
            addr,
        ),
{
}

proof fn lemma_rate_kept_by_pool_add_validator(pre: StoreView, env: EnvView, info: MessageInfoView, msg: ExecuteMsg, chain: ChainData, addr: Seq<char>)
    requires
        msg is PoolAddValidator,
    ensures
        execute_spec(pre, env, info, msg, chain) is Ok ==> rate_kept_above_zero(
            pre,
            execute_spec(pre, env, info, msg, chain)->Ok_0.0,
            addr,
        ),
{
}

proof fn lemma_rate_kept_by_pool_update_validator(pre: StoreView, env: EnvView, info: MessageInfoView, msg: ExecuteMsg, chain: ChainData, addr: Seq<char>)
    requires
        msg is PoolUpdateValidator,
    ensures
        execute_spec(pre, env, info, msg, chain) is Ok ==> rate_kept_above_zero(
            pre,
            execute_spec(pre, env, info, msg, chain)->Ok_0.0,
            addr,
        ),
{
}

proof fn lemma_rate_kept_by_pool_update_validators_icq(pre: StoreView, env: EnvView, info: MessageInfoView, msg: ExecuteMsg, chain: ChainData, addr: Seq<char>)
    requires
        msg is PoolUpdateValidatorsIcq,
    ensures
        execute_spec(pre, env, info, msg, chain) is Ok ==> rate_kept_above_zero(
            pre,
            execute_spec(pre, env, info, msg, chain)->Ok_0.0,
            addr,
        ),
{
}

proof fn lemma_rate_kept_by_era_update(pre: StoreView, env: EnvView, info: MessageInfoView, msg: ExecuteMsg, chain: ChainData, addr: Seq<char>)
    requires
        msg is EraUpdate,
    ensures
        execute_spec(pre, env, info, msg, chain) is Ok ==> rate_kept_above_zero(
            pre,
            execute_spec(pre, env, info, msg, chain)->Ok_0.0,
            addr,
        ),
{
}

proof fn lemma_rate_kept_by_era_stake(pre: StoreView, env: EnvView, info: MessageInfoView, msg: ExecuteMsg, chain: ChainData, addr: Seq<char>)
    requires
        msg is EraStake,
    ensures
        execute_spec(pre, env, info, msg, chain) is Ok ==> rate_kept_above_zero(
            pre,
            execute_spec(pre, env, info, msg, chain)->Ok_0.0,
            addr,
        ),
{
}

proof fn lemma_rate_kept_by_era_collect_withdraw(pre: StoreView, env: EnvView, info: MessageInfoView, msg: ExecuteMsg, chain: ChainData, addr: Seq<char>)
    requires
        msg is EraCollectWithdraw,
    ensures
        execute_spec(pre, env, info, msg, chain) is Ok ==> rate_kept_above_zero(
            pre,
            execute_spec(pre, env, info, msg, chain)->Ok_0.0,
            addr,
        ),
{
}

proof fn lemma_rate_kept_by_era_restake(pre: StoreView, env: EnvView, info: MessageInfoView, msg: ExecuteMsg, chain: ChainData, addr: Seq<char>)
    requires
        msg is EraRestake,
    ensures
        execute_spec(pre, env, info, msg, chain) is Ok ==> rate_kept_above_zero(
            pre,
            execute_spec(pre, env, info, msg, chain)->Ok_0.0,
            addr,
        ),
{
}

proof fn lemma_rate_kept_by_era_active(pre: StoreView, env: EnvView, info: MessageInfoView, msg: ExecuteMsg, chain: ChainData, addr: Seq<char>)
    requires
        msg is EraActive,
    ensures
        execute_spec(pre, env, info, msg, chain) is Ok ==> rate_kept_above_zero(
            pre,
            execute_spec(pre, env, info, msg, chain)->Ok_0.0,
            addr,
        ),
{
}

proof fn lemma_rate_kept_by_stake_lsm(pre: StoreView, env: EnvView, info: MessageInfoView, msg: ExecuteMsg, chain: ChainData, addr: Seq<char>)
    requires
        msg is StakeLsm,
    ensures
        execute_spec(pre, env, info, msg, chain) is Ok ==> rate_kept_above_zero(
            pre,
            execute_spec(pre, env, info, msg, chain)->Ok_0.0,
            addr,
        ),
{
}

proof fn lemma_rate_kept_by_update_icq_update_period(pre: StoreView, env: EnvView, info: MessageInfoView, msg: ExecuteMsg, chain: ChainData, addr: Seq<char>)
    requires
        msg is UpdateIcqUpdatePeriod,
    ensures
        execute_spec(pre, env, info, msg, chain) is Ok ==> rate_kept_above_zero(
            pre,
            execute_spec(pre, env, info, msg, chain)->Ok_0.0,
            addr,
        ),
{
}

proof fn lemma_notifications_keep_rate(pre: StoreView, env: EnvView, notification: SudoMsg, addr: Seq<char>)
    ensures
        sudo_spec(pre, env, notification) is Ok ==> rate_kept_above_zero(
            pre,
            sudo_spec(pre, env, notification)->Ok_0.0,
            addr,
        ),
{
    match notification {
        SudoMsg::Response { request } => lemma_resolution_keeps_rate(pre, env, request@, true, addr),
        SudoMsg::Error { request } => lemma_resolution_keeps_rate(pre, env, request@, false, addr),
        SudoMsg::Timeout { request } => lemma_resolution_keeps_rate(pre, env, request@, false, addr),
        SudoMsg::KVQueryResult { .. } => {},
        SudoMsg::OpenAck { .. } => lemma_open_ack_keeps_rate(pre, env, notification, addr),
        SudoMsg::Other => {},
    }
}

proof fn lemma_open_ack_keeps_rate(pre: StoreView, env: EnvView, notification: SudoMsg, addr: Seq<char>)
    requires
        notification is OpenAck,
    ensures
        sudo_spec(pre, env, notification) is Ok ==> rate_kept_above_zero(
            pre,
            sudo_spec(pre, env, notification)->Ok_0.0,
            addr,
        ),
{
}

proof fn lemma_resolution_keeps_rate(
    pre: StoreView,
    env: EnvView,
    req: crate::chain::RequestPacketView,
    applied: bool,
    addr: Seq<char>,
)
    ensures
        resolution_spec(pre, env, req, applied) is Ok ==> rate_kept_above_zero(
            pre,
            resolution_spec(pre, env, req, applied)->Ok_0.0,
            addr,
        ),
{
    if resolution_spec(pre, env, req, applied) is Ok {
        let payload = pre.sudo_payload[(req.source_channel->Some_0, req.sequence->Some_0)];
        lemma_handler_keeps_rate(pre, env, payload, addr);
    }
}

proof fn lemma_handler_keeps_rate(
    pre: StoreView,
    env: EnvView,
    payload: crate::state::SudoPayloadView,
    addr: Seq<char>,
)
    ensures
        crate::tx_callback::sudo_callback_spec(pre, env, payload) is Ok ==> rate_kept_above_zero(
            pre,
            crate::tx_callback::sudo_callback_spec(pre, env, payload)->Ok_0.0,
            addr,
        ),
        crate::tx_callback::sudo_failed_callback_spec(pre, payload) is Ok ==> rate_kept_above_zero(
            pre,
            crate::tx_callback::sudo_failed_callback_spec(pre, payload)->Ok_0.0,
            addr,
        ),
{
    match payload.tx_type {
        crate::state::TxType::SetWithdrawAddr => lemma_rate_kept_after_set_withdraw_addr(pre, env, payload, addr),
        crate::state::TxType::UpdateValidator => lemma_rate_kept_after_update_validator(pre, env, payload, addr),
        crate::state::TxType::RmValidator => lemma_rate_kept_after_rm_validator(pre, env, payload, addr),
        crate::state::TxType::UserWithdraw => lemma_rate_kept_after_user_withdraw(pre, env, payload, addr),
        crate::state::TxType::EraUpdate => lemma_rate_kept_after_era_update(pre, env, payload, addr),
        crate::state::TxType::EraBond => lemma_rate_kept_after_era_bond(pre, env, payload, addr),
        crate::state::TxType::EraCollectWithdraw => lemma_rate_kept_after_era_collect_withdraw(pre, env, payload, addr),
        crate::state::TxType::EraRebond => lemma_rate_kept_after_era_rebond(pre, env, payload, addr),
        crate::state::TxType::RedeemTokenForShare => lemma_rate_kept_after_redeem_token_for_share(pre, env, payload, addr),
        crate::state::TxType::StakeLsm => lemma_rate_kept_after_stake_lsm(pre, env, payload, addr),
    }
}

proof fn lemma_rate_kept_after_set_withdraw_addr(
    pre: StoreView,
    env: EnvView,
    payload: crate::state::SudoPayloadView,
    addr: Seq<char>,
)
    requires
        payload.tx_type == crate::state::TxType::SetWithdrawAddr,
    ensures
        crate::tx_callback::sudo_callback_spec(pre, env, payload) is Ok ==> rate_kept_above_zero(
            pre,
            crate::tx_callback::sudo_callback_spec(pre, env, payload)->Ok_0.0,
            addr,
        ),
        crate::tx_callback::sudo_failed_callback_spec(pre, payload) is Ok ==> rate_kept_above_zero(
            pre,
            crate::tx_callback::sudo_failed_callback_spec(pre, payload)->Ok_0.0,
            addr,
        ),
{
}

proof fn lemma_rate_kept_after_update_validator(
    pre: StoreView,
    env: EnvView,
    payload: crate::state::SudoPayloadView,
    addr: Seq<char>,
)
    requires
        payload.tx_type == crate::state::TxType::UpdateValidator,
    ensures
        crate::tx_callback::sudo_callback_spec(pre, env, payload) is Ok ==> rate_kept_above_zero(
            pre,
            crate::tx_callback::sudo_callback_spec(pre, env, payload)->Ok_0.0,
            addr,
        ),
        crate::tx_callback::sudo_failed_callback_spec(pre, payload) is Ok ==> rate_kept_above_zero(
            pre,
            crate::tx_callback::sudo_failed_callback_spec(pre, payload)->Ok_0.0,
            addr,
        ),
{
}

proof fn lemma_rate_kept_after_rm_validator(
    pre: StoreView,
    env: EnvView,
    payload: crate::state::SudoPayloadView,
    addr: Seq<char>,
)
    requires
        payload.tx_type == crate::state::TxType::RmValidator,
    ensures
        crate::tx_callback::sudo_callback_spec(pre, env, payload) is Ok ==> rate_kept_above_zero(
            pre,
            crate::tx_callback::sudo_callback_spec(pre, env, payload)->Ok_0.0,
            addr,
        ),
        crate::tx_callback::sudo_failed_callback_spec(pre, payload) is Ok ==> rate_kept_above_zero(
            pre,
            crate::tx_callback::sudo_failed_callback_spec(pre, payload)->Ok_0.0,
            addr,
        ),
{
}

proof fn lemma_rate_kept_after_user_withdraw(
    pre: StoreView,
    env: EnvView,
    payload: crate::state::SudoPayloadView,
    addr: Seq<char>,
)
    requires
        payload.tx_type == crate::state::TxType::UserWithdraw,
    ensures
        crate::tx_callback::sudo_callback_spec(pre, env, payload) is Ok ==> rate_kept_above_zero(
            pre,
            crate::tx_callback::sudo_callback_spec(pre, env, payload)->Ok_0.0,
            addr,
        ),
        crate::tx_callback::sudo_failed_callback_spec(pre, payload) is Ok ==> rate_kept_above_zero(
            pre,
            crate::tx_callback::sudo_failed_callback_spec(pre, payload)->Ok_0.0,
            addr,
        ),
{
}

proof fn lemma_rate_kept_after_era_update(
    pre: StoreView,
    env: EnvView,
    payload: crate::state::SudoPayloadView,
    addr: Seq<char>,
)
    requires
        payload.tx_type == crate::state::TxType::EraUpdate,
    ensures
        crate::tx_callback::sudo_callback_spec(pre, env, payload) is Ok ==> rate_kept_above_zero(
            pre,
            crate::tx_callback::sudo_callback_spec(pre, env, payload)->Ok_0.0,
            addr,
        ),
        crate::tx_callback::sudo_failed_callback_spec(pre, payload) is Ok ==> rate_kept_above_zero(
            pre,
            crate::tx_callback::sudo_failed_callback_spec(pre, payload)->Ok_0.0,
            addr,
        ),
{
}

proof fn lemma_rate_kept_after_era_bond(
    pre: StoreView,
    env: EnvView,
    payload: crate::state::SudoPayloadView,
    addr: Seq<char>,
)
    requires
        payload.tx_type == crate::state::TxType::EraBond,
    ensures
        crate::tx_callback::sudo_callback_spec(pre, env, payload) is Ok ==> rate_kept_above_zero(
            pre,
            crate::tx_callback::sudo_callback_spec(pre, env, payload)->Ok_0.0,
            addr,
        ),
        crate::tx_callback::sudo_failed_callback_spec(pre, payload) is Ok ==> rate_kept_above_zero(
            pre,
            crate::tx_callback::sudo_failed_callback_spec(pre, payload)->Ok_0.0,
            addr,
        ),
{
}

proof fn lemma_rate_kept_after_era_collect_withdraw(
    pre: StoreView,
    env: EnvView,
    payload: crate::state::SudoPayloadView,
    addr: Seq<char>,
)
    requires
        payload.tx_type == crate::state::TxType::EraCollectWithdraw,
    ensures
        crate::tx_callback::sudo_callback_spec(pre, env, payload) is Ok ==> rate_kept_above_zero(
            pre,
            crate::tx_callback::sudo_callback_spec(pre, env, payload)->Ok_0.0,
            addr,
        ),
        crate::tx_callback::sudo_failed_callback_spec(pre, payload) is Ok ==> rate_kept_above_zero(
            pre,
            crate::tx_callback::sudo_failed_callback_spec(pre, payload)->Ok_0.0,
            addr,
        ),
{
}

proof fn lemma_rate_kept_after_era_rebond(
    pre: StoreView,
    env: EnvView,
    payload: crate::state::SudoPayloadView,
    addr: Seq<char>,
)
    requires
        payload.tx_type == crate::state::TxType::EraRebond,
    ensures
        crate::tx_callback::sudo_callback_spec(pre, env, payload) is Ok ==> rate_kept_above_zero(
            pre,
            crate::tx_callback::sudo_callback_spec(pre, env, payload)->Ok_0.0,
            addr,
        ),
        crate::tx_callback::sudo_failed_callback_spec(pre, payload) is Ok ==> rate_kept_above_zero(
            pre,
            crate::tx_callback::sudo_failed_callback_spec(pre, payload)->Ok_0.0,
            addr,
        ),
{
}

proof fn lemma_rate_kept_after_redeem_token_for_share(
    pre: StoreView,
    env: EnvView,
    payload: crate::state::SudoPayloadView,
    addr: Seq<char>,
)
    requires
        payload.tx_type == crate::state::TxType::RedeemTokenForShare,
    ensures
        crate::tx_callback::sudo_callback_spec(pre, env, payload) is Ok ==> rate_kept_above_zero(
            pre,
            crate::tx_callback::sudo_callback_spec(pre, env, payload)->Ok_0.0,
            addr,
        ),
        crate::tx_callback::sudo_failed_callback_spec(pre, payload) is Ok ==> rate_kept_above_zero(
            pre,
            crate::tx_callback::sudo_failed_callback_spec(pre, payload)->Ok_0.0,
            addr,
        ),
{
}

proof fn lemma_rate_kept_after_stake_lsm(
    pre: StoreView,
    env: EnvView,
    payload: crate::state::SudoPayloadView,
    addr: Seq<char>,
)
    requires
        payload.tx_type == crate::state::TxType::StakeLsm,
    ensures
        crate::tx_callback::sudo_callback_spec(pre, env, payload) is Ok ==> rate_kept_above_zero(
            pre,
            crate::tx_callback::sudo_callback_spec(pre, env, payload)->Ok_0.0,
            addr,
        ),
        crate::tx_callback::sudo_failed_callback_spec(pre, payload) is Ok ==> rate_kept_above_zero(
            pre,
            crate::tx_callback::sudo_failed_callback_spec(pre, payload)->Ok_0.0,
            addr,
        ),
{
}

} // verus!
