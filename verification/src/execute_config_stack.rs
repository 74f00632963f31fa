//! The configuration of the contract.
use vstd::prelude::*;
use crate::chain::{MessageInfo, MessageInfoView, Response, ResponseView};
use crate::error_conversion::{ContractError, ContractErrorView};
use crate::execute_pool_rm_validator::without;
use crate::helper::{agrees, empty_response};
use crate::msg::ConfigStackParams;
use crate::state::{Stack, StackView, Store, StoreView};
use crate::text::{list_contains, list_without};

verus! {

/// `new` where it is given, else `old`.
pub open spec fn or_keep<T>(new: Option<T>, old: T) -> T {
    match new {
        Some(v) => v,
        None => old,
    }
}

/// The texts `list` with `x` at the end, unless `list` holds it already.
pub open spec fn with_text(list: Seq<Seq<char>>, x: Seq<char>) -> Seq<Seq<char>> {
    if list.contains(x) {
        list
    } else {
        list.push(x)
    }
}

/// The entrusted pools after a configuration that adds `add` and then removes `remove`.
pub open spec fn entrusted_after(
    pools: Seq<Seq<char>>,
    add: Option<Seq<char>>,
    remove: Option<Seq<char>>,
) -> Seq<Seq<char>> {
    let added = match add {
        Some(p) => with_text(pools, p),
        None => pools,
    };
    match remove {
        Some(p) => without(added, p),
        None => added,
    }
}

/// What a configuration of the contract does: only the administrator of the contract may
/// do it; each field that is given replaces what was there.
pub open spec fn execute_config_stack_spec(
    pre: StoreView,
    info: MessageInfoView,
    stack_fee_receiver: Option<Seq<char>>,
    new_admin: Option<Seq<char>>,
    stack_fee_commission: Option<u128>,
    lsd_token_code_id: Option<u64>,
    add_entrusted_pool: Option<Seq<char>>,
    remove_entrusted_pool: Option<Seq<char>>,
) -> Result<(StoreView, ResponseView), ContractErrorView> {
    match pre.stack {
        None => Err(ContractErrorView::NotFound),
        Some(stack) => if info.sender != stack.admin {
            Err(ContractErrorView::Unauthorized)
        } else {
            Ok(
                (
                    StoreView {
                        stack: Some(
                            StackView {
                                stack_fee_receiver: or_keep(stack_fee_receiver, stack.stack_fee_receiver),
                                stack_fee_commission: or_keep(
                                    stack_fee_commission,
                                    stack.stack_fee_commission,
                                ),
                                admin: or_keep(new_admin, stack.admin),
                                lsd_token_code_id: or_keep(lsd_token_code_id, stack.lsd_token_code_id),
                                entrusted_pools: entrusted_after(
                                    stack.entrusted_pools,
                                    add_entrusted_pool,
                                    remove_entrusted_pool,
                                ),
                            },
                        ),
                        ..pre
                    },
                    empty_response(),
                ),
            )
        },
    }
}

/// Changes the configuration of the contract.
pub fn execute_config_stack(store: &mut Store, info: &MessageInfo, param: ConfigStackParams) -> (r: Result<
    Response,
    ContractError,
>)
    ensures
        agrees(
            r,
            old(store)@,
            final(store)@,
            execute_config_stack_spec(
                old(store)@,
                info@,
                param.stack_fee_receiver.deep_view(),
                param.new_admin.deep_view(),
                param.stack_fee_commission,
                param.lsd_token_code_id,
                param.add_entrusted_pool.deep_view(),
                param.remove_entrusted_pool.deep_view(),
            ),
        ),
{
    let ghost pre = store@;
    match &store.stack {
        Some(stack) => stack.authorize(&info.sender)?,
        None => {
            return Err(ContractError::NotFound);
        },
    }
    let mut held: Option<Stack> = None;
    std::mem::swap(&mut held, &mut store.stack);
    let mut stack = match held {
        Some(s) => s,
        None => vstd::pervasive::unreached(),
    };
    stack.stack_fee_receiver = crate::execute_config_pool::pick_text(
        param.stack_fee_receiver,
        &stack.stack_fee_receiver,
    );
    stack.stack_fee_commission = crate::execute_config_pool::pick(
        param.stack_fee_commission,
        stack.stack_fee_commission,
    );
    stack.admin = crate::execute_config_pool::pick_text(param.new_admin, &stack.admin);
    stack.lsd_token_code_id = crate::execute_config_pool::pick(
        param.lsd_token_code_id,
        stack.lsd_token_code_id,
    );
    match param.add_entrusted_pool {
        Some(add_entrusted_pool) => {
            if !list_contains(&stack.entrusted_pools, &add_entrusted_pool) {
                let ghost had = stack.entrusted_pools.deep_view();
                stack.entrusted_pools.push(add_entrusted_pool);
                proof {
                    assert(stack.entrusted_pools.deep_view() =~= had.push(add_entrusted_pool@));
                }
            }
        },
        None => {},
    }
    match param.remove_entrusted_pool {
        Some(remove_entrusted_pool) => {
            stack.entrusted_pools = list_without(&stack.entrusted_pools, &remove_entrusted_pool);
        },
        None => {},
    }
    store.stack = Some(stack);
    Ok(Response::new())
}

} // verus!
