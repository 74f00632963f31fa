//! Adding a validator to the set of a pool.
use vstd::prelude::*;
use crate::chain::{MessageInfo, MessageInfoView, Response, ResponseView};
use crate::error_conversion::{ContractError, ContractErrorView};
use crate::helper::{agrees, deal_validators_icq_update, validators_icq_update_spec, VALIDATORS_LEN_LIMIT};
use crate::state::{with_pool, EraStatus, PoolInfoView, Store, StoreView};
use crate::text::{copy_list, list_contains};

verus! {

/// What adding `validator_addr` to the pool `pool_addr` does.
///
/// Only the administrator of the pool may do it, and only while the pool is at rest. It
/// is refused where the set is full or holds the validator already. The validator joins
/// the end of the set, and the queries of the pool are made to watch the new set: nothing
/// is dispatched to the remote chain.
pub open spec fn execute_add_pool_validators_spec(
    pre: StoreView,
    info: MessageInfoView,
    pool_addr: Seq<char>,
    validator_addr: Seq<char>,
) -> Result<(StoreView, ResponseView), ContractErrorView> {
    if !pre.pools.contains_key(pool_addr) {
        Err(ContractErrorView::NotFound)
    } else {
        let pool = pre.pools[pool_addr];
        if info.sender != pool.admin {
            Err(ContractErrorView::Unauthorized)
        } else if pool.status != EraStatus::ActiveEnded {
            Err(ContractErrorView::EraProcessNotEnd)
        } else if pool.validator_addrs.len() >= VALIDATORS_LEN_LIMIT {
            Err(ContractErrorView::ValidatorAddressesListSize)
        } else if pool.validator_addrs.contains(validator_addr) {
            Err(ContractErrorView::ValidatorAlreadyExit)
        } else if !pre.info_of_ica_id.contains_key(pool.ica_id) {
            Err(ContractErrorView::NotFound)
        } else {
            let validators = pool.validator_addrs.push(validator_addr);
            match validators_icq_update_spec(
                pre,
                pool_addr,
                validators,
                pre.info_of_ica_id[pool.ica_id].pool_address_ica_info.ctrl_connection_id,
            ) {
                Err(e) => Err(e),
                Ok(resp) => Ok(
                    (with_pool(pre, pool_addr, PoolInfoView { validator_addrs: validators, ..pool }), resp),
                ),
            }
        }
    }
}

/// Adds `validator_addr` to the validators of the pool `pool_addr`.
pub fn execute_add_pool_validators(
    store: &mut Store,
    info: &MessageInfo,
    pool_addr: String,
    validator_addr: String,
) -> (r: Result<Response, ContractError>)
    ensures
        agrees(
            r,
            old(store)@,
            final(store)@,
            execute_add_pool_validators_spec(old(store)@, info@, pool_addr@, validator_addr@),
        ),
{
    let ghost pre = store@;
    let pool_info = match store.pools.get(&pool_addr) {
        Some(p) => p,
        None => {
            return Err(ContractError::NotFound);
        },
    };
    let ghost pool = pool_info@;
    pool_info.authorize(&info.sender)?;
    pool_info.require_era_ended()?;
    if pool_info.validator_addrs.len() >= VALIDATORS_LEN_LIMIT {
        return Err(ContractError::ValidatorAddressesListSize);
    }
    if list_contains(&pool_info.validator_addrs, &validator_addr) {
        return Err(ContractError::ValidatorAlreadyExit);
    }
    let ctrl_connection_id = match store.info_of_ica_id.get(&pool_info.ica_id) {
        Some(infos) => infos.pool_address_ica_info.ctrl_connection_id.clone(),
        None => {
            return Err(ContractError::NotFound);
        },
    };
    let mut validators = copy_list(&pool_info.validator_addrs);
    validators.push(validator_addr.clone());
    proof {
        assert(validators.deep_view() =~= pool.validator_addrs.push(validator_addr@));
    }
    let resp = deal_validators_icq_update(store, pool_addr.clone(), validators, ctrl_connection_id)?;
    let mut pool_new = store.pools.take(&pool_addr);
    let ghost had = pool_new.validator_addrs.deep_view();
    pool_new.validator_addrs.push(validator_addr);
    proof {
        assert(pool_new.validator_addrs.deep_view() =~= had.push(validator_addr@));
    }
    store.pools.save(pool_addr, pool_new);
    proof {
        assert(store@.pools =~= pre.pools.insert(
            pool_addr@,
            PoolInfoView { validator_addrs: pool.validator_addrs.push(validator_addr@), ..pool },
        ));
    }
    Ok(resp)
}

} // verus!
