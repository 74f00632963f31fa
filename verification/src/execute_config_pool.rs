//! The configuration of a pool.
use vstd::prelude::*;
use crate::chain::{Env, EnvView, MessageInfo, MessageInfoView, Response, ResponseView};
use crate::error_conversion::{ContractError, ContractErrorView};
use crate::execute_config_stack::or_keep;
use crate::execute_era_update::{current_era, current_era_spec};
use crate::helper::{agrees, empty_response, MAX_ERA_SECONDS, MIN_ERA_SECONDS};
use crate::msg::ConfigPoolParams;
use crate::state::{with_pool, EraStatus, PoolInfoView, Store, StoreView, ValidatorUpdateStatus};

verus! {

/// The eras that an unstake request waits where the remote chain unbonds in
/// `unbonding_seconds` and an era lasts `era_seconds`: the eras that the unbonding takes,
/// rounded up, and one more.
pub open spec fn unbonding_period_spec(unbonding_seconds: u64, era_seconds: u64) -> Result<
    u64,
    ContractErrorView,
> {
    if era_seconds == 0 {
        Err(ContractErrorView::DivideByZero)
    } else if (unbonding_seconds + era_seconds - 1) / (era_seconds as int) + 1 > u64::MAX {
        Err(ContractErrorView::Overflow)
    } else {
        Ok(((unbonding_seconds + era_seconds - 1) / (era_seconds as int) + 1) as u64)
    }
}

/// Computes the eras that an unstake request waits.
pub fn unbonding_period(unbonding_seconds: u64, era_seconds: u64) -> (r: Result<u64, ContractError>)
    ensures
        crate::amount::is_outcome(r, unbonding_period_spec(unbonding_seconds, era_seconds)),
{
    if era_seconds == 0 {
        return Err(ContractError::DivideByZero);
    }
    let eras: u128 = (unbonding_seconds as u128 + era_seconds as u128 - 1) / (era_seconds as u128) + 1;
    if eras > u64::MAX as u128 {
        return Err(ContractError::Overflow);
    }
    Ok(eras as u64)
}

/// The offset with which the time `seconds` falls into the era `era`, for eras of
/// `era_seconds`: `era - seconds / era_seconds`.
pub open spec fn era_offset_spec(era: u64, seconds: u64, era_seconds: u64) -> Result<
    i64,
    ContractErrorView,
> {
    if era_seconds == 0 {
        Err(ContractErrorView::DivideByZero)
    } else if era - (seconds as int) / (era_seconds as int) > i64::MAX || era - (seconds as int) / (
    era_seconds as int) < i64::MIN {
        Err(ContractErrorView::Overflow)
    } else {
        Ok((era - (seconds as int) / (era_seconds as int)) as i64)
    }
}

/// Computes the offset with which the time `seconds` falls into the era `era`.
pub fn era_offset(era: u64, seconds: u64, era_seconds: u64) -> (r: Result<i64, ContractError>)
    ensures
        crate::amount::is_outcome(r, era_offset_spec(era, seconds, era_seconds)),
{
    if era_seconds == 0 {
        return Err(ContractError::DivideByZero);
    }
    let d: i128 = era as i128 - (seconds / era_seconds) as i128;
    if d > i64::MAX as i128 || d < i64::MIN as i128 {
        return Err(ContractError::Overflow);
    }
    Ok(d as i64)
}

/// The length of the eras of a pool, the offset and the unbonding period after a
/// configuration that may set a new length.
///
/// A new length must lie between the shortest and the longest era. The offset is set so
/// that the time `seconds` stays in the era it is in, and the unbonding period is
/// computed anew from the unbonding time of the denomination of the pool.
pub open spec fn era_settings(
    pre: StoreView,
    pool: PoolInfoView,
    seconds: u64,
    era_seconds: Option<u64>,
) -> Result<(u64, i64, u64), ContractErrorView> {
    match era_seconds {
        None => Ok((pool.era_seconds, pool.offset, pool.unbonding_period)),
        Some(new_seconds) => if new_seconds < MIN_ERA_SECONDS {
            Err(ContractErrorView::LessThanMinimalEraSeconds)
        } else if new_seconds > MAX_ERA_SECONDS {
            Err(ContractErrorView::ExceedMaxEraSeconds)
        } else {
            match current_era_spec(seconds, pool.era_seconds, pool.offset) {
                Err(e) => Err(e),
                Ok(era) => match era_offset_spec(era, seconds, new_seconds) {
                    Err(e) => Err(e),
                    Ok(offset) => if !pre.unbonding_seconds.contains_key(pool.remote_denom) {
                        Err(ContractErrorView::NotFound)
                    } else {
                        match unbonding_period_spec(
                            pre.unbonding_seconds[pool.remote_denom],
                            new_seconds,
                        ) {
                            Err(e) => Err(e),
                            Ok(period) => Ok((new_seconds, offset, period)),
                        }
                    },
                },
            }
        },
    }
}

/// What a configuration of the pool `pool_addr` does: only the administrator of the pool
/// may do it, and only while the pool is at rest and its validators are not being
/// changed; each field that is given replaces what was there.
pub open spec fn execute_config_pool_spec(
    pre: StoreView,
    info: MessageInfoView,
    env: EnvView,
    pool_addr: Seq<char>,
    platform_fee_receiver: Option<Seq<char>>,
    minimal_stake: Option<u128>,
    unstake_times_limit: Option<u64>,
    unbond_commission: Option<u128>,
    platform_fee_commission: Option<u128>,
    era_seconds: Option<u64>,
    paused: Option<bool>,
    lsm_support: Option<bool>,
    lsm_pending_limit: Option<u64>,
    rate_change_limit: Option<u128>,
    new_admin: Option<Seq<char>>,
) -> Result<(StoreView, ResponseView), ContractErrorView> {
    if !pre.pools.contains_key(pool_addr) {
        Err(ContractErrorView::NotFound)
    } else {
        let pool = pre.pools[pool_addr];
        if info.sender != pool.admin {
            Err(ContractErrorView::Unauthorized)
        } else if pool.status != EraStatus::ActiveEnded {
            Err(ContractErrorView::EraProcessNotEnd)
        } else if pool.validator_update_status != ValidatorUpdateStatus::End {
            Err(ContractErrorView::StatusNotAllow)
        } else {
            match era_settings(pre, pool, (env.block_time_nanos / 1_000_000_000) as u64, era_seconds) {
                Err(e) => Err(e),
                Ok((seconds, offset, period)) => Ok(
                    (
                        with_pool(
                            pre,
                            pool_addr,
                            PoolInfoView {
                                minimal_stake: or_keep(minimal_stake, pool.minimal_stake),
                                unstake_times_limit: or_keep(unstake_times_limit, pool.unstake_times_limit),
                                unbond_commission: or_keep(unbond_commission, pool.unbond_commission),
                                platform_fee_commission: or_keep(
                                    platform_fee_commission,
                                    pool.platform_fee_commission,
                                ),
                                era_seconds: seconds,
                                offset,
                                unbonding_period: period,
                                platform_fee_receiver: or_keep(
                                    platform_fee_receiver,
                                    pool.platform_fee_receiver,
                                ),
                                paused: or_keep(paused, pool.paused),
                                lsm_support: or_keep(lsm_support, pool.lsm_support),
                                lsm_pending_limit: or_keep(lsm_pending_limit, pool.lsm_pending_limit),
                                rate_change_limit: or_keep(rate_change_limit, pool.rate_change_limit),
                                admin: or_keep(new_admin, pool.admin),
                                ..pool
                            },
                        ),
                        empty_response(),
                    ),
                ),
            }
        }
    }
}

/// `new` where it is given, else `old`.
pub fn pick<T>(new: Option<T>, old: T) -> (r: T)
    ensures
        r == or_keep(new, old),
{
    match new {
        Some(v) => v,
        None => old,
    }
}

/// The text `new` where it is given, else a copy of `old`.
pub fn pick_text(new: Option<String>, old: &String) -> (r: String)
    ensures
        r@ == or_keep(new.deep_view(), old@),
{
    match new {
        Some(v) => v,
        None => old.clone(),
    }
}

/// Changes the configuration of a pool.
pub fn execute_config_pool(store: &mut Store, info: &MessageInfo, env: &Env, param: ConfigPoolParams) -> (r:
    Result<Response, ContractError>)
    ensures
        agrees(
            r,
            old(store)@,
            final(store)@,
            execute_config_pool_spec(
                old(store)@,
                info@,
                env@,
                param.pool_addr@,
                param.platform_fee_receiver.deep_view(),
                param.minimal_stake,
                param.unstake_times_limit,
                param.unbond_commission,
                param.platform_fee_commission,
                param.era_seconds,
                param.paused,
                param.lsm_support,
                param.lsm_pending_limit,
                param.rate_change_limit,
                param.new_admin.deep_view(),
            ),
        ),
{
    let ghost pre = store@;
    let pool_info = match store.pools.get(&param.pool_addr) {
        Some(p) => p,
        None => {
            return Err(ContractError::NotFound);
        },
    };
    let ghost pool = pool_info@;
    pool_info.authorize(&info.sender)?;
    pool_info.require_era_ended()?;
    pool_info.require_update_validator_ended()?;
    let mut era_seconds = pool_info.era_seconds;
    let mut offset = pool_info.offset;
    let mut period = pool_info.unbonding_period;
    match param.era_seconds {
        Some(new_seconds) => {
            if new_seconds < MIN_ERA_SECONDS {
                return Err(ContractError::LessThanMinimalEraSeconds);
            }
            if new_seconds > MAX_ERA_SECONDS {
                return Err(ContractError::ExceedMaxEraSeconds);
            }
            let era = current_era(env.seconds(), pool_info.era_seconds, pool_info.offset)?;
            era_seconds = new_seconds;
            offset = era_offset(era, env.seconds(), new_seconds)?;
            let unbonding_seconds = match store.unbonding_seconds.get(&pool_info.remote_denom) {
                Some(s) => *s,
                None => {
                    return Err(ContractError::NotFound);
                },
            };
            period = unbonding_period(unbonding_seconds, new_seconds)?;
        },
        None => {},
    }
    let mut pool_new = store.pools.take(&param.pool_addr);
    pool_new.minimal_stake = pick(param.minimal_stake, pool_new.minimal_stake);
    pool_new.unstake_times_limit = pick(param.unstake_times_limit, pool_new.unstake_times_limit);
    pool_new.unbond_commission = pick(param.unbond_commission, pool_new.unbond_commission);
    pool_new.platform_fee_commission = pick(
        param.platform_fee_commission,
        pool_new.platform_fee_commission,
    );
    pool_new.era_seconds = era_seconds;
    pool_new.offset = offset;
    pool_new.unbonding_period = period;
    pool_new.platform_fee_receiver = pick_text(
        param.platform_fee_receiver,
        &pool_new.platform_fee_receiver,
    );
    pool_new.paused = pick(param.paused, pool_new.paused);
    pool_new.lsm_support = pick(param.lsm_support, pool_new.lsm_support);
    pool_new.lsm_pending_limit = pick(param.lsm_pending_limit, pool_new.lsm_pending_limit);
    pool_new.rate_change_limit = pick(param.rate_change_limit, pool_new.rate_change_limit);
    pool_new.admin = pick_text(param.new_admin, &pool_new.admin);
    let ghost new_view = pool_new@;
    store.pools.save(param.pool_addr, pool_new);
    proof {
        assert(store@.pools =~= pre.pools.insert(param.pool_addr@, new_view));
    }
    Ok(Response::new())
}

} // verus!
