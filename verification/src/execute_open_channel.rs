//! Opening anew a channel of an interchain account that was closed.
use vstd::prelude::*;
use crate::chain::{
    copy_coins,
    plain_msg,
    CoinView,
    CosmosMsg,
    CosmosMsgView,
    MessageInfo,
    MessageInfoView,
    Response,
    ResponseView,
};
use crate::error_conversion::{ContractError, ContractErrorView};
use crate::helper::{agrees, get_withdraw_ica_id, ICA_WITHDRAW_SUFIX};
use crate::state::{Store, StoreView};

verus! {

/// The fee to register an account with: the funds sent, where any were.
pub open spec fn register_fee_of(funds: Seq<CoinView>) -> Option<Seq<CoinView>> {
    if funds.len() > 0 {
        Some(funds)
    } else {
        None
    }
}

/// What opening anew the channel `closed_channel_id` of the pool `pool_addr` does.
///
/// Only the administrator of the pool may do it. The channel must be the channel of the
/// account of the pool or of its withdrawal account: that account is registered again,
/// with the funds sent as the fee. The state stays as it is.
pub open spec fn execute_open_channel_spec(
    pre: StoreView,
    info: MessageInfoView,
    pool_addr: Seq<char>,
    closed_channel_id: Seq<char>,
) -> Result<(StoreView, ResponseView), ContractErrorView> {
    if !pre.pools.contains_key(pool_addr) {
        Err(ContractErrorView::NotFound)
    } else {
        let pool = pre.pools[pool_addr];
        if info.sender != pool.admin {
            Err(ContractErrorView::Unauthorized)
        } else if !pre.info_of_ica_id.contains_key(pool.ica_id) {
            Err(ContractErrorView::NotFound)
        } else {
            let infos = pre.info_of_ica_id[pool.ica_id];
            if closed_channel_id == infos.pool_address_ica_info.ctrl_channel_id {
                Ok(
                    (
                        pre,
                        ResponseView {
                            messages: seq![
                                plain_msg(
                                    CosmosMsgView::RegisterInterchainAccount {
                                        connection_id: infos.pool_address_ica_info.ctrl_connection_id,
                                        interchain_account_id: pool.ica_id,
                                        register_fee: register_fee_of(info.funds),
                                    },
                                ),
                            ],
                            attributes: Seq::empty(),
                        },
                    ),
                )
            } else if closed_channel_id == infos.withdraw_address_ica_info.ctrl_channel_id {
                Ok(
                    (
                        pre,
                        ResponseView {
                            messages: seq![
                                plain_msg(
                                    CosmosMsgView::RegisterInterchainAccount {
                                        connection_id: infos.withdraw_address_ica_info.ctrl_connection_id,
                                        interchain_account_id: pool.ica_id + ICA_WITHDRAW_SUFIX@,
                                        register_fee: register_fee_of(info.funds),
                                    },
                                ),
                            ],
                            attributes: Seq::empty(),
                        },
                    ),
                )
            } else {
                Err(ContractErrorView::ClosedChannelIdUnmatch)
            }
        }
    }
}

/// Registers again the account of the pool `pool_addr` whose channel `closed_channel_id`
/// was closed.
pub fn execute_open_channel(
    store: &mut Store,
    info: &MessageInfo,
    pool_addr: String,
    closed_channel_id: String,
) -> (r: Result<Response, ContractError>)
    ensures
        agrees(
            r,
            old(store)@,
            final(store)@,
            execute_open_channel_spec(old(store)@, info@, pool_addr@, closed_channel_id@),
        ),
{
    let pool_info = match store.pools.get(&pool_addr) {
        Some(p) => p,
        None => {
            return Err(ContractError::NotFound);
        },
    };
    pool_info.authorize(&info.sender)?;
    let register_fee = if info.funds.len() > 0 {
        Some(copy_coins(&info.funds))
    } else {
        None
    };
    let infos = match store.info_of_ica_id.get(&pool_info.ica_id) {
        Some(i) => i,
        None => {
            return Err(ContractError::NotFound);
        },
    };
    let msg = if closed_channel_id == infos.pool_address_ica_info.ctrl_channel_id {
        CosmosMsg::RegisterInterchainAccount {
            connection_id: infos.pool_address_ica_info.ctrl_connection_id.clone(),
            interchain_account_id: pool_info.ica_id.clone(),
            register_fee,
        }
    } else if closed_channel_id == infos.withdraw_address_ica_info.ctrl_channel_id {
        CosmosMsg::RegisterInterchainAccount {
            connection_id: infos.withdraw_address_ica_info.ctrl_connection_id.clone(),
            interchain_account_id: get_withdraw_ica_id(pool_info.ica_id.clone()),
            register_fee,
        }
    } else {
        return Err(ContractError::ClosedChannelIdUnmatch);
    };
    let mut resp = Response::new();
    resp.add_message(msg);
    proof {
        assert(resp@.messages =~= seq![plain_msg(msg@)]);
    }
    Ok(resp)
}

} // verus!
