//! The follow-up of a change of validators: the observational queries of the pool are
//! told the new set.
use vstd::prelude::*;
use crate::chain::{MessageInfo, MessageInfoView, Response, ResponseView};
use crate::error_conversion::{ContractError, ContractErrorView};
use crate::helper::{agrees, deal_validators_icq_update, validators_icq_update_spec};
use crate::state::{with_pool, PoolInfoView, Store, StoreView, ValidatorUpdateStatus};
use crate::text::copy_list;

verus! {

/// What the update of the queries of the pool `pool_addr` does.
///
/// Only the administrator of the pool may do it, and only while the pool waits for it.
/// The queries for the delegations and for the validators of the pool are given the keys
/// of the current set, and the validator set is at rest again.
pub open spec fn execute_update_validators_icq_spec(
    pre: StoreView,
    info: MessageInfoView,
    pool_addr: Seq<char>,
) -> Result<(StoreView, ResponseView), ContractErrorView> {
    if !pre.pools.contains_key(pool_addr) {
        Err(ContractErrorView::NotFound)
    } else {
        let pool = pre.pools[pool_addr];
        if info.sender != pool.admin {
            Err(ContractErrorView::Unauthorized)
        } else if pool.validator_update_status != ValidatorUpdateStatus::WaitQueryUpdate {
            Err(ContractErrorView::StatusNotAllow)
        } else if !pre.info_of_ica_id.contains_key(pool.ica_id) {
            Err(ContractErrorView::NotFound)
        } else {
            match validators_icq_update_spec(
                pre,
                pool_addr,
                pool.validator_addrs,
                pre.info_of_ica_id[pool.ica_id].pool_address_ica_info.ctrl_connection_id,
            ) {
                Err(e) => Err(e),
                Ok(resp) => Ok(
                    (
                        with_pool(
                            pre,
                            pool_addr,
                            PoolInfoView { validator_update_status: ValidatorUpdateStatus::End, ..pool },
                        ),
                        resp,
                    ),
                ),
            }
        }
    }
}

/// Makes the queries of the pool `pool_addr` watch its current validators, and ends the
/// change of its validator set.
pub fn execute_update_validators_icq(store: &mut Store, info: &MessageInfo, pool_addr: String) -> (r: Result<
    Response,
    ContractError,
>)
    ensures
        agrees(
            r,
            old(store)@,
            final(store)@,
            execute_update_validators_icq_spec(old(store)@, info@, pool_addr@),
        ),
{
    let ghost pre = store@;
    let pool_info = match store.pools.get(&pool_addr) {
        Some(p) => p,
        None => {
            return Err(ContractError::NotFound);
        },
    };
    let ghost pool = pool_info@;
    pool_info.authorize(&info.sender)?;
    if pool_info.validator_update_status != ValidatorUpdateStatus::WaitQueryUpdate {
        return Err(ContractError::StatusNotAllow);
    }
    let ctrl_connection_id = match store.info_of_ica_id.get(&pool_info.ica_id) {
        Some(infos) => infos.pool_address_ica_info.ctrl_connection_id.clone(),
        None => {
            return Err(ContractError::NotFound);
        },
    };
    let resp = deal_validators_icq_update(
        store,
        pool_addr.clone(),
        copy_list(&pool_info.validator_addrs),
        ctrl_connection_id,
    )?;
    let mut pool_new = store.pools.take(&pool_addr);
    pool_new.validator_update_status = ValidatorUpdateStatus::End;
    store.pools.save(pool_addr, pool_new);
    proof {
        assert(store@.pools =~= pre.pools.insert(
            pool_addr@,
            PoolInfoView { validator_update_status: ValidatorUpdateStatus::End, ..pool },
        ));
    }
    Ok(resp)
}

} // verus!
