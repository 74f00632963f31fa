//! The unbonding times of the denominations of remote chains.
use vstd::prelude::*;
use crate::chain::{MessageInfo, MessageInfoView, Response, ResponseView};
use crate::error_conversion::{ContractError, ContractErrorView};
use crate::helper::{agrees, empty_response};
use crate::state::{Store, StoreView};

verus! {

/// What setting the unbonding time of `remote_denom` does: only the administrator of the
/// contract may do it; `None` deletes the entry.
pub open spec fn execute_config_unbonding_seconds_spec(
    pre: StoreView,
    info: MessageInfoView,
    remote_denom: Seq<char>,
    unbonding_seconds: Option<u64>,
) -> Result<(StoreView, ResponseView), ContractErrorView> {
    match pre.stack {
        None => Err(ContractErrorView::NotFound),
        Some(stack) => if info.sender != stack.admin {
            Err(ContractErrorView::Unauthorized)
        } else {
            Ok(
                (
                    StoreView {
                        unbonding_seconds: match unbonding_seconds {
                            Some(s) => pre.unbonding_seconds.insert(remote_denom, s),
                            None => pre.unbonding_seconds.remove(remote_denom),
                        },
                        ..pre
                    },
                    empty_response(),
                ),
            )
        },
    }
}

/// Sets or deletes the unbonding time, in seconds, of the denomination `remote_denom`.
pub fn execute_config_unbonding_seconds(
    store: &mut Store,
    info: &MessageInfo,
    remote_denom: String,
    unbonding_seconds: Option<u64>,
) -> (r: Result<Response, ContractError>)
    ensures
        agrees(
            r,
            old(store)@,
            final(store)@,
            execute_config_unbonding_seconds_spec(old(store)@, info@, remote_denom@, unbonding_seconds),
        ),
{
    match &store.stack {
        Some(stack) => stack.authorize(&info.sender)?,
        None => {
            return Err(ContractError::NotFound);
        },
    }
    match unbonding_seconds {
        Some(s) => {
            store.unbonding_seconds.save(remote_denom, s);
        },
        None => {
            let _ = store.unbonding_seconds.remove(&remote_denom);
        },
    }
    Ok(Response::new())
}

} // verus!
