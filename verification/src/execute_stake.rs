//! Deposits: a user pays in the denomination of the pool and is minted receipt tokens at
//! the rate of the pool.
use vstd::prelude::*;
use crate::amount::{is_outcome, plus, plus_spec};
use crate::chain::{attr, plain_msg, CosmosMsg, CosmosMsgView, MessageInfo, MessageInfoView, Response, ResponseView};
use crate::error_conversion::{ContractError, ContractErrorView};
use crate::execute_era_active::per_rate_spec;
use crate::helper::{agrees, CAL_BASE};
use crate::state::{with_pool, PoolInfoView, Store, StoreView};
use crate::text::{decimal, u128_to_string};

verus! {

/// The receipt tokens minted for a deposit of `token_amount` at the rate `rate`:
/// `floor(token_amount * CAL_BASE / rate)`.
pub open spec fn lsd_for_spec(token_amount: u128, rate: u128) -> Result<u128, ContractErrorView> {
    per_rate_spec(token_amount, CAL_BASE, rate)
}

/// Computes the receipt tokens minted for a deposit.
pub fn lsd_for(token_amount: u128, rate: u128) -> (r: Result<u128, ContractError>)
    ensures
        is_outcome(r, lsd_for_spec(token_amount, rate)),
{
    let product = crate::amount::times(token_amount, CAL_BASE)?;
    if rate == 0 {
        return Err(ContractError::RateIsZero);
    }
    Ok(product / rate)
}

/// What a deposit into the pool `pool_addr` does.
///
/// It is refused for a paused pool, for funds that are not one coin of the denomination
/// of the pool, and for less than the minimal stake. The deposit is added to the active
/// amount and to what was deposited in the era; receipt tokens are minted to
/// `neutron_address` at the rate of the pool and added to the supply.
pub open spec fn execute_stake_spec(
    pre: StoreView,
    neutron_address: Seq<char>,
    pool_addr: Seq<char>,
    info: MessageInfoView,
) -> Result<(StoreView, ResponseView), ContractErrorView> {
    if !pre.pools.contains_key(pool_addr) {
        Err(ContractErrorView::NotFound)
    } else {
        let pool = pre.pools[pool_addr];
        if pool.paused {
            Err(ContractErrorView::PoolIsPaused)
        } else if info.funds.len() != 1 || info.funds[0].denom != pool.ibc_denom {
            Err(ContractErrorView::ParamsErrorFundsNotMatch)
        } else {
            let token_amount = info.funds[0].amount;
            if token_amount < pool.minimal_stake {
                Err(ContractErrorView::LessThanMinimalStake)
            } else {
                match plus_spec(pool.active, token_amount) {
                    Err(e) => Err(e),
                    Ok(active) => match plus_spec(pool.bond, token_amount) {
                        Err(e) => Err(e),
                        Ok(bond) => match lsd_for_spec(token_amount, pool.rate) {
                            Err(e) => Err(e),
                            Ok(lsd_token_amount) => match plus_spec(
                                pool.total_lsd_token_amount,
                                lsd_token_amount,
                            ) {
                                Err(e) => Err(e),
                                Ok(total_lsd_token_amount) => Ok(
                                    (
                                        with_pool(
                                            pre,
                                            pool_addr,
                                            PoolInfoView { active, bond, total_lsd_token_amount, ..pool },
                                        ),
                                        ResponseView {
                                            messages: seq![
                                                plain_msg(
                                                    CosmosMsgView::Mint {
                                                        contract_addr: pool.lsd_token,
                                                        recipient: neutron_address,
                                                        amount: lsd_token_amount,
                                                    },
                                                ),
                                            ],
                                            attributes: seq![
                                                attr("action"@, "stake"@),
                                                attr("pool"@, pool_addr),
                                                attr("staker"@, neutron_address),
                                                attr("token_amount"@, decimal(token_amount as nat)),
                                                attr(
                                                    "lsd_token_amount"@,
                                                    decimal(lsd_token_amount as nat),
                                                ),
                                            ],
                                        },
                                    ),
                                ),
                            },
                        },
                    },
                }
            }
        }
    }
}

/// Deposits the funds sent with the call into the pool `pool_addr` and mints receipt
/// tokens for them to `neutron_address`.
pub fn execute_stake(store: &mut Store, neutron_address: String, pool_addr: String, info: &MessageInfo) -> (r:
    Result<Response, ContractError>)
    ensures
        agrees(
            r,
            old(store)@,
            final(store)@,
            execute_stake_spec(old(store)@, neutron_address@, pool_addr@, info@),
        ),
{
    let ghost pre = store@;
    let pool_info = match store.pools.get(&pool_addr) {
        Some(p) => p,
        None => {
            return Err(ContractError::NotFound);
        },
    };
    let ghost pool = pool_info@;
    if pool_info.paused {
        return Err(ContractError::PoolIsPaused);
    }
    if info.funds.len() != 1 || info.funds[0].denom != pool_info.ibc_denom {
        return Err(ContractError::ParamsErrorFundsNotMatch);
    }
    let token_amount = info.funds[0].amount;
    if token_amount < pool_info.minimal_stake {
        return Err(ContractError::LessThanMinimalStake);
    }
    let active = plus(pool_info.active, token_amount)?;
    let bond = plus(pool_info.bond, token_amount)?;
    let lsd_token_amount = lsd_for(token_amount, pool_info.rate)?;
    let total_lsd_token_amount = plus(pool_info.total_lsd_token_amount, lsd_token_amount)?;
    let msg = CosmosMsg::Mint {
        contract_addr: pool_info.lsd_token.clone(),
        recipient: neutron_address.clone(),
        amount: lsd_token_amount,
    };
    let mut pool_new = store.pools.take(&pool_addr);
    pool_new.active = active;
    pool_new.bond = bond;
    pool_new.total_lsd_token_amount = total_lsd_token_amount;
    store.pools.save(pool_addr.clone(), pool_new);
    proof {
        assert(store@.pools =~= pre.pools.insert(
            pool_addr@,
            PoolInfoView { active, bond, total_lsd_token_amount, ..pool },
        ));
    }
    let mut resp = Response::new();
    resp.add_message(msg);
    resp.add_attribute("action", String::from_str("stake"));
    resp.add_attribute("pool", pool_addr);
    resp.add_attribute("staker", neutron_address);
    resp.add_attribute("token_amount", u128_to_string(token_amount));
    resp.add_attribute("lsd_token_amount", u128_to_string(lsd_token_amount));
    proof {
        assert(resp@.messages =~= seq![plain_msg(msg@)]);
        assert(resp@.attributes =~= seq![
            attr("action"@, "stake"@),
            attr("pool"@, pool_addr@),
            attr("staker"@, neutron_address@),
            attr("token_amount"@, decimal(token_amount as nat)),
            attr("lsd_token_amount"@, decimal(lsd_token_amount as nat)),
        ]);
    }
    Ok(resp)
}

} // verus!
