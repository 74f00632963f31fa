//! The protocol commission of a pool.
use vstd::prelude::*;
use crate::chain::{MessageInfo, MessageInfoView, Response, ResponseView};
use crate::error_conversion::{ContractError, ContractErrorView};
use crate::helper::{agrees, empty_response};
use crate::msg::ConfigPoolStackFeeParams;
use crate::state::{with_pool, PoolInfoView, Store, StoreView};

verus! {

/// What setting the protocol commission of the pool `pool_addr` does: only the
/// administrator of the contract may do it.
pub open spec fn execute_config_pool_stack_fee_spec(
    pre: StoreView,
    info: MessageInfoView,
    pool_addr: Seq<char>,
    stack_fee_commission: u128,
) -> Result<(StoreView, ResponseView), ContractErrorView> {
    match pre.stack {
        None => Err(ContractErrorView::NotFound),
        Some(stack) => if info.sender != stack.admin {
            Err(ContractErrorView::Unauthorized)
        } else if !pre.pools.contains_key(pool_addr) {
            Err(ContractErrorView::NotFound)
        } else {
            Ok(
                (
                    with_pool(
                        pre,
                        pool_addr,
                        PoolInfoView { stack_fee_commission, ..pre.pools[pool_addr] },
                    ),
                    empty_response(),
                ),
            )
        },
    }
}

/// Sets the protocol commission of a pool.
pub fn execute_config_pool_stack_fee(store: &mut Store, info: &MessageInfo, param: ConfigPoolStackFeeParams) -> (r:
    Result<Response, ContractError>)
    ensures
        agrees(
            r,
            old(store)@,
            final(store)@,
            execute_config_pool_stack_fee_spec(
                old(store)@,
                info@,
                param.pool_addr@,
                param.stack_fee_commission,
            ),
        ),
{
    let ghost pre = store@;
    match &store.stack {
        Some(stack) => stack.authorize(&info.sender)?,
        None => {
            return Err(ContractError::NotFound);
        },
    }
    if !store.pools.has(&param.pool_addr) {
        return Err(ContractError::NotFound);
    }
    let mut pool_info = store.pools.take(&param.pool_addr);
    let ghost pool = pool_info@;
    pool_info.stack_fee_commission = param.stack_fee_commission;
    store.pools.save(param.pool_addr, pool_info);
    proof {
        assert(store@.pools =~= pre.pools.insert(
            param.pool_addr@,
            PoolInfoView { stack_fee_commission: param.stack_fee_commission, ..pool },
        ));
    }
    Ok(Response::new())
}

} // verus!
