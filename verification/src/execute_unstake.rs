//! Unstake requests: a user burns receipt tokens and is owed the underlying amount once
//! the unbonding period has passed.
use vstd::prelude::*;
use crate::amount::{minus, minus_spec, mul_div, mul_div_spec, plus, plus_spec};
use crate::chain::{attr, plain_msg, CosmosMsg, CosmosMsgView, MessageInfo, MessageInfoView, Response, ResponseView, SubMsgView};
use crate::error_conversion::{ContractError, ContractErrorView};
use crate::helper::{agrees, CAL_BASE};
use crate::state::{PoolInfoView, Store, StoreView, UnstakeInfo, UnstakeInfoView, WithdrawStatus};
use crate::text::{decimal, u128_to_string, u64_to_string};

verus! {

/// What is held back from each unstake request, so that rounding never makes the pool
/// owe more than it has.
pub const UNSTAKE_DUST: u128 = 5;

/// The receipt tokens burned for an unstake of `lsd_token_amount`, and the commission
/// taken from it before: `floor(lsd_token_amount * unbond_commission / CAL_BASE)`.
pub open spec fn burned_spec(lsd_token_amount: u128, unbond_commission: u128) -> Result<
    (u128, u128),
    ContractErrorView,
> {
    if unbond_commission > 0 {
        match mul_div_spec(lsd_token_amount, unbond_commission, CAL_BASE) {
            Err(e) => Err(e),
            Ok(cms_fee) => if cms_fee > lsd_token_amount {
                Err(ContractErrorView::Overflow)
            } else {
                Ok(((lsd_token_amount - cms_fee) as u128, cms_fee))
            },
        }
    } else {
        Ok((lsd_token_amount, 0))
    }
}

/// What a user gets for `token_amount` of the underlying asset: all but the dust, and
/// nothing where it is no more than the dust.
pub open spec fn receive_spec(token_amount: u128) -> u128 {
    if token_amount > UNSTAKE_DUST {
        (token_amount - UNSTAKE_DUST) as u128
    } else {
        0
    }
}

/// The indices of the requests that `user` has outstanding with the pool `pool_addr`.
pub open spec fn user_indices(pre: StoreView, user: Seq<char>, pool_addr: Seq<char>) -> Seq<u64> {
    if pre.unstakes_index_for_user.contains_key((user, pool_addr)) {
        pre.unstakes_index_for_user[(user, pool_addr)]
    } else {
        Seq::empty()
    }
}

/// The messages of an unstake: the transfer of the commission, where there is one, and
/// the burn.
pub open spec fn unstake_msgs(pool: PoolInfoView, sender: Seq<char>, will_burn: u128, cms_fee: u128) -> Seq<
    SubMsgView,
> {
    (if cms_fee > 0 {
        seq![
            plain_msg(
                CosmosMsgView::TransferFrom {
                    contract_addr: pool.lsd_token,
                    owner: sender,
                    recipient: pool.platform_fee_receiver,
                    amount: cms_fee,
                },
            ),
        ]
    } else {
        Seq::<SubMsgView>::empty()
    }).push(
        plain_msg(
            CosmosMsgView::BurnFrom { contract_addr: pool.lsd_token, owner: sender, amount: will_burn },
        ),
    )
}

/// What an unstake of `lsd_token_amount` receipt tokens from the pool `pool_addr` does.
///
/// It is refused for an amount of zero and for a user who has as many requests
/// outstanding as the pool allows. The commission is taken from the amount; what is left
/// is burned and is worth `floor(burned * rate / CAL_BASE)` of the underlying asset. That
/// is added to what was requested back in the era and taken from the active amount. The
/// request is recorded under the next index of the pool for that worth less the dust; a
/// request for nothing is refused.
pub open spec fn execute_unstake_spec(
    pre: StoreView,
    info: MessageInfoView,
    lsd_token_amount: u128,
    pool_addr: Seq<char>,
) -> Result<(StoreView, ResponseView), ContractErrorView> {
    if lsd_token_amount == 0 {
        Err(ContractErrorView::EncodeErrLsdTokenAmountZero)
    } else if !pre.pools.contains_key(pool_addr) {
        Err(ContractErrorView::NotFound)
    } else {
        let pool = pre.pools[pool_addr];
        let indices = user_indices(pre, info.sender, pool_addr);
        if indices.len() >= pool.unstake_times_limit {
            Err(ContractErrorView::EncodeErrUnstakeTimesLimitReached)
        } else {
            match burned_spec(lsd_token_amount, pool.unbond_commission) {
                Err(e) => Err(e),
                Ok((will_burn, cms_fee)) => if will_burn == 0 {
                    Err(ContractErrorView::BurnLsdTokenAmountIsZero)
                } else {
                    match mul_div_spec(will_burn, pool.rate, CAL_BASE) {
                        Err(e) => Err(e),
                        Ok(token_amount) => if pool.next_unstake_index == u64::MAX {
                            Err(ContractErrorView::Overflow)
                        } else {
                            match plus_spec(pool.unbond, token_amount) {
                                Err(e) => Err(e),
                                Ok(unbond) => match minus_spec(pool.active, token_amount) {
                                    Err(e) => Err(e),
                                    Ok(active) => match minus_spec(
                                        pool.total_lsd_token_amount,
                                        will_burn,
                                    ) {
                                        Err(e) => Err(e),
                                        Ok(total_lsd_token_amount) => if receive_spec(token_amount)
                                            == 0 {
                                            Err(ContractErrorView::EncodeErrZeroWithdrawAmount)
                                        } else {
                                            let index = (pool.next_unstake_index + 1) as u64;
                                            Ok(
                                                (
                                                    StoreView {
                                                        pools: pre.pools.insert(
                                                            pool_addr,
                                                            PoolInfoView {
                                                                next_unstake_index: index,
                                                                unbond,
                                                                active,
                                                                total_lsd_token_amount,
                                                                ..pool
                                                            },
                                                        ),
                                                        unstakes_of_index: pre.unstakes_of_index.insert(
                                                            (pool_addr, index),
                                                            UnstakeInfoView {
                                                                era: pool.era,
                                                                pool_addr,
                                                                unstaker: info.sender,
                                                                amount: receive_spec(token_amount),
                                                                status: WithdrawStatus::Default,
                                                                index,
                                                            },
                                                        ),
                                                        unstakes_index_for_user: pre.unstakes_index_for_user.insert(
                                                            (info.sender, pool_addr),
                                                            indices.push(index),
                                                        ),
                                                        ..pre
                                                    },
                                                    ResponseView {
                                                        messages: unstake_msgs(
                                                            pool,
                                                            info.sender,
                                                            will_burn,
                                                            cms_fee,
                                                        ),
                                                        attributes: seq![
                                                            attr("action"@, "unstake"@),
                                                            attr("pool"@, pool_addr),
                                                            attr("from"@, info.sender),
                                                            attr(
                                                                "token_amount"@,
                                                                decimal(receive_spec(token_amount) as nat),
                                                            ),
                                                            attr(
                                                                "lsd_token_amount"@,
                                                                decimal(lsd_token_amount as nat),
                                                            ),
                                                            attr("unstake_index"@, decimal(index as nat)),
                                                        ],
                                                    },
                                                ),
                                            )
                                        },
                                    },
                                },
                            }
                        },
                    }
                },
            }
        }
    }
}

/// Records a request of the sender to take `lsd_token_amount` receipt tokens out of the
/// pool `pool_addr`. The sender must have allowed the contract to burn them.
///
/// Where the call succeeds, the next unstake index of the pool is one greater than it was.
pub fn execute_unstake(store: &mut Store, info: &MessageInfo, lsd_token_amount: u128, pool_addr: String) -> (r:
    Result<Response, ContractError>)
    ensures
        agrees(
            r,
            old(store)@,
            final(store)@,
            execute_unstake_spec(old(store)@, info@, lsd_token_amount, pool_addr@),
        ),
        r is Ok ==> final(store)@.pools.contains_key(pool_addr@)
            && final(store)@.pools[pool_addr@].next_unstake_index == old(
            store,
        )@.pools[pool_addr@].next_unstake_index + 1,
{
    let ghost pre = store@;
    if lsd_token_amount == 0 {
        return Err(ContractError::EncodeErrLsdTokenAmountZero);
    }
    let pool_info = match store.pools.get(&pool_addr) {
        Some(p) => p,
        None => {
            return Err(ContractError::NotFound);
        },
    };
    let ghost pool = pool_info@;
    let user_key = (info.sender.clone(), pool_addr.clone());
    let unstake_count = match store.unstakes_index_for_user.get(&user_key) {
        Some(list) => list.len(),
        None => 0,
    };
    if unstake_count as u64 >= pool_info.unstake_times_limit {
        return Err(ContractError::EncodeErrUnstakeTimesLimitReached);
    }
    let mut will_burn_lsd_token_amount = lsd_token_amount;
    let mut cms_fee: u128 = 0;
    if pool_info.unbond_commission > 0 {
        cms_fee = mul_div(lsd_token_amount, pool_info.unbond_commission, CAL_BASE)?;
        will_burn_lsd_token_amount = minus(lsd_token_amount, cms_fee)?;
    }
    if will_burn_lsd_token_amount == 0 {
        return Err(ContractError::BurnLsdTokenAmountIsZero);
    }
    let token_amount = mul_div(will_burn_lsd_token_amount, pool_info.rate, CAL_BASE)?;
    if pool_info.next_unstake_index == u64::MAX {
        return Err(ContractError::Overflow);
    }
    let index = pool_info.next_unstake_index + 1;
    let unbond = plus(pool_info.unbond, token_amount)?;
    let active = minus(pool_info.active, token_amount)?;
    let total_lsd_token_amount = minus(pool_info.total_lsd_token_amount, will_burn_lsd_token_amount)?;
    let receive_amount = if token_amount > UNSTAKE_DUST {
        token_amount - UNSTAKE_DUST
    } else {
        0
    };
    if receive_amount == 0 {
        return Err(ContractError::EncodeErrZeroWithdrawAmount);
    }
    let unstake_info = UnstakeInfo {
        era: pool_info.era,
        pool_addr: pool_addr.clone(),
        unstaker: info.sender.clone(),
        amount: receive_amount,
        status: WithdrawStatus::Default,
        index,
    };
    let mut resp = Response::new();
    if cms_fee > 0 {
        resp.add_message(
            CosmosMsg::TransferFrom {
                contract_addr: pool_info.lsd_token.clone(),
                owner: info.sender.clone(),
                recipient: pool_info.platform_fee_receiver.clone(),
                amount: cms_fee,
            },
        );
    }
    resp.add_message(
        CosmosMsg::BurnFrom {
            contract_addr: pool_info.lsd_token.clone(),
            owner: info.sender.clone(),
            amount: will_burn_lsd_token_amount,
        },
    );
    proof {
        assert(resp@.messages =~= unstake_msgs(pool, info.sender@, will_burn_lsd_token_amount, cms_fee));
    }
    let ghost had = user_indices(pre, info.sender@, pool_addr@);
    let mut unstakes_index_for_user = match store.unstakes_index_for_user.remove(&user_key) {
        Some(list) => list,
        None => Vec::new(),
    };
    proof {
        assert(unstakes_index_for_user.deep_view() =~= had);
    }
    unstakes_index_for_user.push(index);
    proof {
        assert(unstakes_index_for_user.deep_view() =~= had.push(index));
    }
    store.unstakes_index_for_user.save(user_key, unstakes_index_for_user);
    store.unstakes_of_index.save((pool_addr.clone(), index), unstake_info);
    let mut pool_new = store.pools.take(&pool_addr);
    pool_new.next_unstake_index = index;
    pool_new.unbond = unbond;
    pool_new.active = active;
    pool_new.total_lsd_token_amount = total_lsd_token_amount;
    store.pools.save(pool_addr.clone(), pool_new);
    proof {
        assert(store@.pools =~= pre.pools.insert(
            pool_addr@,
            PoolInfoView { next_unstake_index: index, unbond, active, total_lsd_token_amount, ..pool },
        ));
        assert(store@.unstakes_index_for_user =~= pre.unstakes_index_for_user.insert(
            (info.sender@, pool_addr@),
            had.push(index),
        ));
    }
    resp.add_attribute("action", String::from_str("unstake"));
    resp.add_attribute("pool", pool_addr);
    resp.add_attribute("from", info.sender.clone());
    resp.add_attribute("token_amount", u128_to_string(receive_amount));
    resp.add_attribute("lsd_token_amount", u128_to_string(lsd_token_amount));
    resp.add_attribute("unstake_index", u64_to_string(index));
    proof {
        assert(resp@.attributes =~= seq![
            attr("action"@, "unstake"@),
            attr("pool"@, pool_addr@),
            attr("from"@, info.sender@),
            attr("token_amount"@, decimal(receive_amount as nat)),
            attr("lsd_token_amount"@, decimal(lsd_token_amount as nat)),
            attr("unstake_index"@, decimal(index as nat)),
        ]);
    }
    Ok(resp)
}

} // verus!
