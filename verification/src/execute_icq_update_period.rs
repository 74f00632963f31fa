//! Setting the queries of a pool back to the usual refresh interval.
use vstd::prelude::*;
use crate::chain::{MessageInfo, MessageInfoView, Response, ResponseView};
use crate::error_conversion::{ContractError, ContractErrorView};
use crate::helper::{
    add_messages,
    agrees,
    get_update_pool_icq_msgs,
    plain_msgs,
    update_pool_icq_msgs_spec,
    DEFAULT_UPDATE_PERIOD,
};
use crate::state::{Store, StoreView};

verus! {

/// What setting the queries of the pool `pool_addr` back to the usual refresh interval
/// does: only the administrator of the pool may do it; the state stays as it is.
pub open spec fn update_icq_update_period_spec(pre: StoreView, info: MessageInfoView, pool_addr: Seq<char>) -> Result<
    (StoreView, ResponseView),
    ContractErrorView,
> {
    if !pre.pools.contains_key(pool_addr) {
        Err(ContractErrorView::NotFound)
    } else if info.sender != pre.pools[pool_addr].admin {
        Err(ContractErrorView::Unauthorized)
    } else {
        match update_pool_icq_msgs_spec(pre, pool_addr, pre.pools[pool_addr].ica_id, DEFAULT_UPDATE_PERIOD) {
            Err(e) => Err(e),
            Ok(msgs) => Ok((pre, ResponseView { messages: plain_msgs(msgs), attributes: Seq::empty() })),
        }
    }
}

/// Sets the four queries of the pool `pool_addr` to the usual refresh interval.
pub fn update_icq_update_period(store: &mut Store, info: &MessageInfo, pool_addr: String) -> (r: Result<
    Response,
    ContractError,
>)
    ensures
        agrees(
            r,
            old(store)@,
            final(store)@,
            update_icq_update_period_spec(old(store)@, info@, pool_addr@),
        ),
{
    let pool_info = match store.pools.get(&pool_addr) {
        Some(p) => p,
        None => {
            return Err(ContractError::NotFound);
        },
    };
    pool_info.authorize(&info.sender)?;
    let update_pool_icq_msgs = get_update_pool_icq_msgs(
        store,
        pool_addr,
        pool_info.ica_id.clone(),
        DEFAULT_UPDATE_PERIOD,
    )?;
    let mut resp = Response::new();
    let ghost msgs = update_pool_icq_msgs.deep_view();
    add_messages(&mut resp, update_pool_icq_msgs);
    proof {
        assert(resp@.messages =~= plain_msgs(msgs));
    }
    Ok(resp)
}

} // verus!
