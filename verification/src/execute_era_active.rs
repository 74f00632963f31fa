//! The last step of an era: what the pool earned is read off the delegations observed on
//! the remote chain, the commissions are minted as receipt tokens, and the rate of the
//! receipt token is set anew.
use vstd::prelude::*;
use crate::amount::{is_outcome, minus, mul_div, mul_div_spec, plus, plus_spec, times};
use crate::chain::{
    attr,
    CosmosMsg,
    CosmosMsgView,
    Delegation,
    DelegationView,
    DelegatorDelegationsResponse,
    DelegatorDelegationsResponseView,
    Response,
    ResponseView,
};
use crate::error_conversion::{ContractError, ContractErrorView};
use crate::helper::{
    add_messages,
    agrees,
    answer_view,
    get_update_pool_icq_msgs,
    plain_msgs,
    update_pool_icq_msgs_spec,
    CAL_BASE,
    DEFAULT_RATE,
    DEFAULT_UPDATE_PERIOD,
};
use crate::query::{observed, query_delegation_by_addr};
use crate::state::{EraStatus, PoolInfoView, QueryKind, Store, StoreView};
use crate::text::{decimal, u128_to_string, u64_to_string};

verus! {

/// Within this distance of the active amount, a first rate below the default is put down
/// to rounding.
pub const FIRST_RATE_EPSILON: u128 = 1000;

/// The sum of the amounts of `delegations`.
pub open spec fn delegated_sum(delegations: Seq<DelegationView>) -> int
    decreases delegations.len(),
{
    if delegations.len() == 0 {
        0
    } else {
        delegated_sum(delegations.drop_last()) + delegations.last().amount.amount
    }
}

/// What is delegated in all, refused where it exceeds 128 bits.
pub open spec fn total_delegated_spec(delegations: Seq<DelegationView>) -> Result<
    u128,
    ContractErrorView,
> {
    if delegated_sum(delegations) <= u128::MAX {
        Ok(delegated_sum(delegations) as u128)
    } else {
        Err(ContractErrorView::Overflow)
    }
}

/// A sum of delegations is not negative and does not shrink as delegations are added.
pub proof fn lemma_delegated_sum_grows(delegations: Seq<DelegationView>, k: int)
    requires
        0 <= k <= delegations.len(),
    ensures
        0 <= delegated_sum(delegations.subrange(0, k)) <= delegated_sum(delegations),
    decreases delegations.len() - k,
{
    if k == delegations.len() {
        assert(delegations.subrange(0, k) =~= delegations);
        lemma_delegated_sum_not_negative(delegations);
    } else {
        lemma_delegated_sum_grows(delegations, k + 1);
        assert(delegations.subrange(0, k + 1).drop_last() =~= delegations.subrange(0, k));
        lemma_delegated_sum_not_negative(delegations.subrange(0, k));
    }
}

/// A sum of delegations is not negative.
pub proof fn lemma_delegated_sum_not_negative(delegations: Seq<DelegationView>)
    ensures
        0 <= delegated_sum(delegations),
    decreases delegations.len(),
{
    if delegations.len() > 0 {
        lemma_delegated_sum_not_negative(delegations.drop_last());
    }
}

/// Adds up what is delegated.
pub fn total_delegated(delegations: &Vec<Delegation>) -> (r: Result<u128, ContractError>)
    ensures
        is_outcome(r, total_delegated_spec(delegations.deep_view())),
{
    let mut total: u128 = 0;
    let mut i: usize = 0;
    let ghost dv = delegations.deep_view();
    proof {
        assert(dv.subrange(0, 0) =~= Seq::<DelegationView>::empty());
    }
    while i < delegations.len()
        invariant
            0 <= i <= delegations.len(),
            dv == delegations.deep_view(),
            total == delegated_sum(dv.subrange(0, i as int)),
        decreases delegations.len() - i,
    {
        proof {
            assert(dv.subrange(0, i + 1).drop_last() =~= dv.subrange(0, i as int));
            assert(dv.subrange(0, i + 1).last() == dv[i as int]);
            lemma_delegated_sum_grows(dv, i + 1);
        }
        total = match total.checked_add(delegations[i].amount.amount) {
            Some(v) => v,
            None => {
                return Err(ContractError::Overflow);
            },
        };
        i += 1;
    }
    proof {
        assert(dv.subrange(0, delegations.len() as int) =~= dv);
    }
    Ok(total)
}

/// `floor(a * b / rate)`: the product is refused where it exceeds 128 bits, the division
/// where the rate is zero.
pub open spec fn per_rate_spec(a: u128, b: u128, rate: u128) -> Result<u128, ContractErrorView> {
    if a * b > u128::MAX {
        Err(ContractErrorView::Overflow)
    } else if rate == 0 {
        Err(ContractErrorView::RateIsZero)
    } else {
        Ok(((a * b) / (rate as int)) as u128)
    }
}

fn per_rate(a: u128, b: u128, rate: u128) -> (r: Result<u128, ContractError>)
    ensures
        is_outcome(r, per_rate_spec(a, b, rate)),
{
    let product = times(a, b)?;
    if rate == 0 {
        return Err(ContractError::RateIsZero);
    }
    Ok(product / rate)
}

/// The commissions on what a pool earned in an era, in receipt tokens: first what the
/// platform keeps, then what goes to the protocol.
///
/// The reward is what is delegated beyond the active amount of the snapshot. The platform
/// fee is `reward * platform_fee_commission / rate`; of it,
/// `platform_fee * stack_fee_commission / CAL_BASE` goes to the protocol.
pub open spec fn fees_spec(
    total: u128,
    snapshot_active: u128,
    rate: u128,
    platform_fee_commission: u128,
    stack_fee_commission: u128,
) -> Result<(u128, u128), ContractErrorView> {
    if total > snapshot_active {
        match per_rate_spec((total - snapshot_active) as u128, platform_fee_commission, rate) {
            Err(e) => Err(e),
            Ok(platform_fee_raw) => match mul_div_spec(platform_fee_raw, stack_fee_commission, CAL_BASE) {
                Err(e) => Err(e),
                Ok(stack_fee) => if stack_fee > platform_fee_raw {
                    Err(ContractErrorView::Overflow)
                } else {
                    Ok(((platform_fee_raw - stack_fee) as u128, stack_fee))
                },
            },
        }
    } else {
        Ok((0, 0))
    }
}

/// Computes the commissions on what a pool earned in an era.
pub fn compute_fees(
    total: u128,
    snapshot_active: u128,
    rate: u128,
    platform_fee_commission: u128,
    stack_fee_commission: u128,
) -> (r: Result<(u128, u128), ContractError>)
    ensures
        is_outcome(
            r,
            fees_spec(total, snapshot_active, rate, platform_fee_commission, stack_fee_commission),
        ),
{
    if total > snapshot_active {
        let reward = total - snapshot_active;
        let platform_fee_raw = per_rate(reward, platform_fee_commission, rate)?;
        let stack_fee = mul_div(platform_fee_raw, stack_fee_commission, CAL_BASE)?;
        let platform_fee = minus(platform_fee_raw, stack_fee)?;
        Ok((platform_fee, stack_fee))
    } else {
        Ok((0, 0))
    }
}

/// What an era changes in the accounts of a pool.
#[derive(Clone, Copy, Debug, PartialEq, Eq, Structural)]
pub struct RateUpdate {
    /// Receipt tokens minted to the platform.
    pub platform_fee: u128,
    /// Receipt tokens minted to the protocol.
    pub stack_fee: u128,
    /// Receipt tokens outstanding once the fees are minted.
    pub total_lsd_token_amount: u128,
    /// The new active amount.
    pub new_active: u128,
    /// The new rate.
    pub new_rate: u128,
}

/// The active amount after an era: what was active, moved by what the delegations
/// observed differ from the snapshot; zero where that is negative.
pub open spec fn grown_active_spec(active: u128, total: u128, snapshot_active: u128) -> Result<
    u128,
    ContractErrorView,
> {
    if active + total > u128::MAX {
        Err(ContractErrorView::Overflow)
    } else if active + total > snapshot_active {
        Ok((active + total - snapshot_active) as u128)
    } else {
        Ok(0)
    }
}

/// The rate at which `supply` receipt tokens stand for the amount `active`:
/// `active * CAL_BASE / supply`, and `CAL_BASE` where there is no supply.
pub open spec fn rate_of_spec(active: u128, supply: u128) -> Result<u128, ContractErrorView> {
    if supply > 0 {
        mul_div_spec(active, CAL_BASE, supply)
    } else {
        Ok(CAL_BASE)
    }
}

/// By how much `new_rate` differs from `rate`, in millionths of `rate`.
pub open spec fn rate_change_spec(rate: u128, new_rate: u128) -> Result<u128, ContractErrorView> {
    if rate > new_rate {
        per_rate_spec((rate - new_rate) as u128, CAL_BASE, rate)
    } else {
        per_rate_spec((new_rate - rate) as u128, CAL_BASE, rate)
    }
}

/// Whether the first-stake correction applies: the pool is at the default rate, the new
/// rate would fall below it, and the active amount lies less than `FIRST_RATE_EPSILON`
/// above the new one.
pub open spec fn first_stake_correction(rate: u128, new_rate: u128, active: u128, new_active: u128) -> bool {
    rate == DEFAULT_RATE && new_rate < DEFAULT_RATE && active < new_active + FIRST_RATE_EPSILON
}

/// What an era changes in the accounts of a pool, given what is delegated in `total`.
///
/// The fees are minted on top of the receipt tokens outstanding; the new rate is the new
/// active amount per receipt token. With a limit set, a rate that moves by more than the
/// limit is refused. Where the first-stake correction applies, the rate stays at the
/// default and the active amount as it was. A rate of zero is refused: the rate of a pool
/// is above zero at all times.
pub open spec fn rate_update_spec(
    active: u128,
    snapshot_active: u128,
    total_lsd_token_amount: u128,
    rate: u128,
    platform_fee_commission: u128,
    stack_fee_commission: u128,
    rate_change_limit: u128,
    total: u128,
) -> Result<RateUpdate, ContractErrorView> {
    match fees_spec(total, snapshot_active, rate, platform_fee_commission, stack_fee_commission) {
        Err(e) => Err(e),
        Ok((platform_fee, stack_fee)) => match grown_active_spec(active, total, snapshot_active) {
            Err(e) => Err(e),
            Ok(new_active) => if total_lsd_token_amount + platform_fee + stack_fee > u128::MAX {
                Err(ContractErrorView::Overflow)
            } else {
                let supply = (total_lsd_token_amount + platform_fee + stack_fee) as u128;
                match rate_of_spec(new_active, supply) {
                    Err(e) => Err(e),
                    Ok(new_rate) => match (if rate_change_limit != 0 {
                        rate_change_spec(rate, new_rate)
                    } else {
                        Ok(0u128)
                    }) {
                        Err(e) => Err(e),
                        Ok(change) => if change > rate_change_limit {
                            Err(ContractErrorView::RateChangeOverLimit)
                        } else if rate == DEFAULT_RATE && new_rate < DEFAULT_RATE && new_active
                            + FIRST_RATE_EPSILON > u128::MAX {
                            Err(ContractErrorView::Overflow)
                        } else if first_stake_correction(rate, new_rate, active, new_active) {
                            Ok(
                                RateUpdate {
                                    platform_fee,
                                    stack_fee,
                                    total_lsd_token_amount: supply,
                                    new_active: active,
                                    new_rate: DEFAULT_RATE,
                                },
                            )
                        } else if new_rate == 0 {
                            Err(ContractErrorView::RateIsZero)
                        } else {
                            Ok(
                                RateUpdate {
                                    platform_fee,
                                    stack_fee,
                                    total_lsd_token_amount: supply,
                                    new_active,
                                    new_rate,
                                },
                            )
                        },
                    },
                }
            },
        },
    }
}

/// Computes what an era changes in the accounts of a pool. The new rate is above zero.
pub fn compute_rate_update(
    active: u128,
    snapshot_active: u128,
    total_lsd_token_amount: u128,
    rate: u128,
    platform_fee_commission: u128,
    stack_fee_commission: u128,
    rate_change_limit: u128,
    total: u128,
) -> (r: Result<RateUpdate, ContractError>)
    ensures
        is_outcome(
            r,
            rate_update_spec(
                active,
                snapshot_active,
                total_lsd_token_amount,
                rate,
                platform_fee_commission,
                stack_fee_commission,
                rate_change_limit,
                total,
            ),
        ),
        r is Ok ==> r->Ok_0.new_rate > 0,
{
    let (platform_fee, stack_fee) = compute_fees(
        total,
        snapshot_active,
        rate,
        platform_fee_commission,
        stack_fee_commission,
    )?;
    let cal_temp = plus(active, total)?;
    let mut new_active = if cal_temp > snapshot_active {
        cal_temp - snapshot_active
    } else {
        0
    };
    let with_platform_fee = plus(total_lsd_token_amount, platform_fee)?;
    let supply = plus(with_platform_fee, stack_fee)?;
    let mut new_rate = if supply > 0 {
        mul_div(new_active, CAL_BASE, supply)?
    } else {
        CAL_BASE
    };
    if rate_change_limit != 0 {
        let rate_change = if rate > new_rate {
            per_rate(rate - new_rate, CAL_BASE, rate)?
        } else {
            per_rate(new_rate - rate, CAL_BASE, rate)?
        };
        if rate_change > rate_change_limit {
            return Err(ContractError::RateChangeOverLimit);
        }
    }
    if rate == DEFAULT_RATE && new_rate < DEFAULT_RATE {
        let bound = plus(new_active, FIRST_RATE_EPSILON)?;
        if active < bound {
            new_rate = DEFAULT_RATE;
            new_active = active;
        }
    }
    if new_rate == 0 {
        return Err(ContractError::RateIsZero);
    }
    Ok(RateUpdate { platform_fee, stack_fee, total_lsd_token_amount: supply, new_active, new_rate })
}

/// The messages that mint the fees of an era: the platform fee to the receiver of the
/// pool, then the protocol fee to the receiver of the contract; a fee of zero mints nothing.
pub open spec fn fee_mint_msgs(
    lsd_token: Seq<char>,
    platform_fee_receiver: Seq<char>,
    stack_fee_receiver: Seq<char>,
    update: RateUpdate,
) -> Seq<CosmosMsgView> {
    (if update.platform_fee != 0 {
        seq![
            CosmosMsgView::Mint {
                contract_addr: lsd_token,
                recipient: platform_fee_receiver,
                amount: update.platform_fee,
            },
        ]
    } else {
        Seq::<CosmosMsgView>::empty()
    }) + (if update.stack_fee != 0 {
        seq![
            CosmosMsgView::Mint {
                contract_addr: lsd_token,
                recipient: stack_fee_receiver,
                amount: update.stack_fee,
            },
        ]
    } else {
        Seq::<CosmosMsgView>::empty()
    })
}

/// The protocol fee minted so far for a pool.
pub open spec fn stack_fee_so_far(pre: StoreView, pool_addr: Seq<char>) -> u128 {
    if pre.total_stack_fee.contains_key(pool_addr) {
        pre.total_stack_fee[pool_addr]
    } else {
        0
    }
}

/// The pool after an era with the update `update`: at rest, nothing deposited or
/// requested back, the new active amount and rate, and `total_platform_fee` as given.
pub open spec fn pool_after_era(pool: PoolInfoView, update: RateUpdate, total_platform_fee: u128) -> PoolInfoView {
    PoolInfoView {
        total_lsd_token_amount: update.total_lsd_token_amount,
        rate: update.new_rate,
        status: EraStatus::ActiveEnded,
        bond: 0,
        unbond: 0,
        active: update.new_active,
        total_platform_fee,
        ..pool
    }
}

/// What finishing the era of the pool `pool_addr` does.
///
/// It is refused unless the pool has ended its restake and holds no liquid-share tokens
/// that wait for redemption, and unless the delegations were observed after the last
/// step of the era. Then the accounts of the pool are updated as `rate_update_spec` says,
/// the fees are minted and added to the totals, the rate is recorded for the era, and the
/// queries of the pool are slowed down to the usual refresh interval. An era that would
/// leave the pool with a rate of zero is refused.
pub open spec fn execute_era_active_spec(
    pre: StoreView,
    pool_addr: Seq<char>,
    delegations: Result<DelegatorDelegationsResponseView, Seq<char>>,
) -> Result<(StoreView, ResponseView), ContractErrorView> {
    if !pre.pools.contains_key(pool_addr) {
        Err(ContractErrorView::NotFound)
    } else {
        let pool = pre.pools[pool_addr];
        if pool.status != EraStatus::EraRestakeEnded {
            Err(ContractErrorView::StatusNotAllow)
        } else if pool.share_tokens.len() > 0 {
            Err(ContractErrorView::PendingShareNotEmpty)
        } else {
            match observed(pre, pool_addr, QueryKind::Delegations, delegations) {
                Err(_) => Err(ContractErrorView::DelegationsNotExist),
                Ok(resp) => if resp.last_submitted_local_height <= pool.era_snapshot.last_step_height {
                    Err(ContractErrorView::DelegationSubmissionHeight)
                } else {
                    match total_delegated_spec(resp.delegations) {
                        Err(e) => Err(e),
                        Ok(total) => match pre.stack {
                            None => Err(ContractErrorView::NotFound),
                            Some(stack) => match rate_update_spec(
                                pool.active,
                                pool.era_snapshot.active,
                                pool.total_lsd_token_amount,
                                pool.rate,
                                pool.platform_fee_commission,
                                stack.stack_fee_commission,
                                pool.rate_change_limit,
                                total,
                            ) {
                                Err(e) => Err(e),
                                Ok(update) => match plus_spec(
                                    pool.total_platform_fee,
                                    update.platform_fee,
                                ) {
                                    Err(e) => Err(e),
                                    Ok(total_platform_fee) => match plus_spec(
                                        stack_fee_so_far(pre, pool_addr),
                                        update.stack_fee,
                                    ) {
                                        Err(e) => Err(e),
                                        Ok(total_stack_fee) => match update_pool_icq_msgs_spec(
                                            pre,
                                            pool_addr,
                                            pool.ica_id,
                                            DEFAULT_UPDATE_PERIOD,
                                        ) {
                                            Err(e) => Err(e),
                                            Ok(icq_msgs) => Ok(
                                                (
                                                    StoreView {
                                                        pools: pre.pools.insert(
                                                            pool_addr,
                                                            pool_after_era(
                                                                pool,
                                                                update,
                                                                total_platform_fee,
                                                            ),
                                                        ),
                                                        total_stack_fee: if update.stack_fee != 0 {
                                                            pre.total_stack_fee.insert(
                                                                pool_addr,
                                                                total_stack_fee,
                                                            )
                                                        } else {
                                                            pre.total_stack_fee
                                                        },
                                                        era_rate: pre.era_rate.insert(
                                                            (pool_addr, pool.era),
                                                            update.new_rate,
                                                        ),
                                                        ..pre
                                                    },
                                                    ResponseView {
                                                        messages: plain_msgs(
                                                            fee_mint_msgs(
                                                                pool.lsd_token,
                                                                pool.platform_fee_receiver,
                                                                stack.stack_fee_receiver,
                                                                update,
                                                            ) + icq_msgs,
                                                        ),
                                                        attributes: seq![
                                                            attr("new_rate"@, decimal(update.new_rate as nat)),
                                                            attr("action"@, "era_active"@),
                                                            attr("pool"@, pool_addr),
                                                            attr("era"@, decimal(pool.era as nat)),
                                                            attr("rate"@, decimal(update.new_rate as nat)),
                                                        ],
                                                    },
                                                ),
                                            ),
                                        },
                                    },
                                },
                            },
                        },
                    }
                },
            }
        }
    }
}

/// Finishes the era of the pool `pool_addr`. `delegations` is what the chain answered to
/// the delegations query of the pool.
///
/// Where the call succeeds, the rate of the pool is above zero.
pub fn execute_era_active(
    store: &mut Store,
    pool_addr: String,
    delegations: &Result<DelegatorDelegationsResponse, String>,
) -> (r: Result<Response, ContractError>)
    ensures
        agrees(
            r,
            old(store)@,
            final(store)@,
            execute_era_active_spec(old(store)@, pool_addr@, answer_view(*delegations)),
        ),
        r is Ok ==> final(store)@.pools.contains_key(pool_addr@) && final(store)@.pools[pool_addr@].rate
            > 0,
{
    let ghost pre = store@;
    let pool_info = match store.pools.get(&pool_addr) {
        Some(p) => p,
        None => {
            return Err(ContractError::NotFound);
        },
    };
    let ghost pool = pool_info@;
    if pool_info.status != EraStatus::EraRestakeEnded {
        return Err(ContractError::StatusNotAllow);
    }
    if pool_info.share_tokens.len() > 0 {
        return Err(ContractError::PendingShareNotEmpty);
    }
    let delegations_resp = match query_delegation_by_addr(store, pool_addr.clone(), delegations) {
        Ok(resp) => resp,
        Err(_) => {
            return Err(ContractError::DelegationsNotExist);
        },
    };
    if delegations_resp.last_submitted_local_height <= pool_info.era_snapshot.last_step_height {
        return Err(ContractError::DelegationSubmissionHeight);
    }
    let total = total_delegated(&delegations_resp.delegations)?;
    let (stack_fee_commission, stack_fee_receiver) = match &store.stack {
        Some(stack) => (stack.stack_fee_commission, stack.stack_fee_receiver.clone()),
        None => {
            return Err(ContractError::NotFound);
        },
    };
    let update = compute_rate_update(
        pool_info.active,
        pool_info.era_snapshot.active,
        pool_info.total_lsd_token_amount,
        pool_info.rate,
        pool_info.platform_fee_commission,
        stack_fee_commission,
        pool_info.rate_change_limit,
        total,
    )?;
    let total_platform_fee = plus(pool_info.total_platform_fee, update.platform_fee)?;
    let stack_fee_before = match store.total_stack_fee.get(&pool_addr) {
        Some(v) => *v,
        None => 0,
    };
    let total_stack_fee = plus(stack_fee_before, update.stack_fee)?;
    let era = pool_info.era;
    let update_pool_icq_msgs = get_update_pool_icq_msgs(
        store,
        pool_addr.clone(),
        pool_info.ica_id.clone(),
        DEFAULT_UPDATE_PERIOD,
    )?;
    let lsd_token = pool_info.lsd_token.clone();
    let platform_fee_receiver = pool_info.platform_fee_receiver.clone();

    let mut resp = Response::new();
    resp.add_attribute("new_rate", u128_to_string(update.new_rate));
    let ghost mut minted: Seq<CosmosMsgView> = Seq::empty();
    if update.platform_fee != 0 {
        let msg = CosmosMsg::Mint {
            contract_addr: lsd_token.clone(),
            recipient: platform_fee_receiver,
            amount: update.platform_fee,
        };
        proof {
            minted = minted.push(msg@);
        }
        resp.add_message(msg);
    }
    if update.stack_fee != 0 {
        let msg = CosmosMsg::Mint {
            contract_addr: lsd_token,
            recipient: stack_fee_receiver,
            amount: update.stack_fee,
        };
        proof {
            minted = minted.push(msg@);
        }
        resp.add_message(msg);
        store.total_stack_fee.save(pool_addr.clone(), total_stack_fee);
    }
    proof {
        assert(minted =~= fee_mint_msgs(
            pool.lsd_token,
            pool.platform_fee_receiver,
            pre.stack->Some_0.stack_fee_receiver,
            update,
        ));
        assert(resp@.messages =~= plain_msgs(minted));
    }
    let mut pool_new = store.pools.take(&pool_addr);
    pool_new.total_lsd_token_amount = update.total_lsd_token_amount;
    pool_new.rate = update.new_rate;
    pool_new.status = EraStatus::ActiveEnded;
    pool_new.bond = 0;
    pool_new.unbond = 0;
    pool_new.active = update.new_active;
    pool_new.total_platform_fee = total_platform_fee;
    store.pools.save(pool_addr.clone(), pool_new);
    store.era_rate.save((pool_addr.clone(), era), update.new_rate);
    proof {
        assert(store@.pools =~= pre.pools.insert(
            pool_addr@,
            pool_after_era(pool, update, total_platform_fee),
        ));
    }
    let ghost icq = update_pool_icq_msgs.deep_view();
    add_messages(&mut resp, update_pool_icq_msgs);
    proof {
        assert(resp@.messages =~= plain_msgs(minted + icq));
    }
    resp.add_attribute("action", String::from_str("era_active"));
    resp.add_attribute("pool", pool_addr);
    resp.add_attribute("era", u64_to_string(era));
    resp.add_attribute("rate", u128_to_string(update.new_rate));
    proof {
        assert(resp@.attributes =~= seq![
            attr("new_rate"@, decimal(update.new_rate as nat)),
            attr("action"@, "era_active"@),
            attr("pool"@, pool_addr@),
            attr("era"@, decimal(era as nat)),
            attr("rate"@, decimal(update.new_rate as nat)),
        ]);
    }
    Ok(resp)
}

} // verus!
