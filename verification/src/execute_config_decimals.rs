//! The decimals of the denominations of remote chains.
use vstd::prelude::*;
use crate::chain::{MessageInfo, MessageInfoView, Response, ResponseView};
use crate::error_conversion::{ContractError, ContractErrorView};
use crate::helper::{agrees, empty_response};
use crate::state::{Store, StoreView};

verus! {

/// What setting the decimals of `remote_denom` does: only the administrator of the
/// contract may do it; `None` deletes the entry.
pub open spec fn execute_config_decimals_spec(
    pre: StoreView,
    info: MessageInfoView,
    remote_denom: Seq<char>,
    decimals: Option<u8>,
) -> Result<(StoreView, ResponseView), ContractErrorView> {
    match pre.stack {
        None => Err(ContractErrorView::NotFound),
        Some(stack) => if info.sender != stack.admin {
            Err(ContractErrorView::Unauthorized)
        } else {
            Ok(
                (
                    StoreView {
                        decimals: match decimals {
                            Some(d) => pre.decimals.insert(remote_denom, d),
                            None => pre.decimals.remove(remote_denom),
                        },
                        ..pre
                    },
                    empty_response(),
                ),
            )
        },
    }
}

/// Sets or deletes the decimals of the denomination `remote_denom`.
pub fn execute_config_decimals(
    store: &mut Store,
    info: &MessageInfo,
    remote_denom: String,
    decimals: Option<u8>,
) -> (r: Result<Response, ContractError>)
    ensures
        agrees(
            r,
            old(store)@,
            final(store)@,
            execute_config_decimals_spec(old(store)@, info@, remote_denom@, decimals),
        ),
{
    match &store.stack {
        Some(stack) => stack.authorize(&info.sender)?,
        None => {
            return Err(ContractError::NotFound);
        },
    }
    match decimals {
        Some(d) => {
            store.decimals.save(remote_denom, d);
        },
        None => {
            let _ = store.decimals.remove(&remote_denom);
        },
    }
    Ok(Response::new())
}

} // verus!
