//! The fourth step of an era: what was collected from the withdrawal account is
//! delegated again.
use vstd::prelude::*;
use crate::chain::{Env, IbcFee, IbcFeeView, Response, ResponseView};
use crate::error_conversion::{ContractError, ContractErrorView};
use crate::execute_era_collect_withdraw::{resolve_step, step_resolved};
use crate::execute_era_stake::{even_delegate_msgs, even_delegate_msgs_of};
use crate::helper::{
    agrees,
    answer_view,
    dispatch_response,
    empty_response,
    min_fee,
    min_fee_spec,
    submit_tx,
    submit_tx_spec,
};
use crate::state::{
    next_id,
    registered,
    with_pool,
    EraStatus,
    PoolInfoView,
    Store,
    StoreView,
    SudoPayload,
    SudoPayloadView,
    TxType,
    REPLY_ID_RANGE_START,
};
use crate::tx_callback::msg_with_sudo_callback;

verus! {

/// What the restake of the pool `pool_addr` does.
///
/// It is refused unless the pool has ended the collection of its withdrawals. Where
/// nothing was collected, the step completes at once. Else what was collected is
/// delegated evenly to the validators of the pool, the remainder to the first, and the
/// pool waits in `EraRestakeStarted` for the resolution.
pub open spec fn execute_era_restake_spec(
    pre: StoreView,
    pool_addr: Seq<char>,
    min_ibc_fee: Result<IbcFeeView, Seq<char>>,
) -> Result<(StoreView, ResponseView), ContractErrorView> {
    if !pre.pools.contains_key(pool_addr) {
        Err(ContractErrorView::NotFound)
    } else {
        let pool = pre.pools[pool_addr];
        if pool.status != EraStatus::WithdrawEnded {
            Err(ContractErrorView::StatusNotAllow)
        } else if !pre.info_of_ica_id.contains_key(pool.ica_id) {
            Err(ContractErrorView::NotFound)
        } else if pool.era_snapshot.restake_amount == 0 {
            Ok(
                (
                    with_pool(
                        pre,
                        pool_addr,
                        PoolInfoView { status: EraStatus::EraRestakeEnded, ..pool },
                    ),
                    empty_response(),
                ),
            )
        } else if pool.validator_addrs.len() == 0 {
            Err(ContractErrorView::ValidatorsEmpty)
        } else {
            match min_fee_spec(min_ibc_fee) {
                Err(e) => Err(e),
                Ok(fee) => {
                    let ica = pre.info_of_ica_id[pool.ica_id].pool_address_ica_info;
                    let payload = SudoPayloadView {
                        port_id: ica.ctrl_port_id,
                        message: Seq::empty(),
                        pool_addr,
                        tx_type: TxType::EraRebond,
                    };
                    Ok(
                        (
                            with_pool(
                                registered(pre, payload),
                                pool_addr,
                                PoolInfoView { status: EraStatus::EraRestakeStarted, ..pool },
                            ),
                            dispatch_response(
                                submit_tx_spec(
                                    ica.ctrl_connection_id,
                                    pool.ica_id,
                                    even_delegate_msgs(
                                        pool_addr,
                                        pool.remote_denom,
                                        pool.validator_addrs,
                                        pool.era_snapshot.restake_amount,
                                    ),
                                    fee,
                                ),
                                next_id(pre.latest_reply_id, REPLY_ID_RANGE_START),
                            ),
                        ),
                    )
                },
            }
        }
    }
}

/// Runs the fourth step of the era of the pool `pool_addr`. `min_ibc_fee` is what the
/// chain reported as its minimal fee.
pub fn execute_era_restake(store: &mut Store, pool_addr: String, min_ibc_fee: &Result<IbcFee, String>) -> (r:
    Result<Response, ContractError>)
    ensures
        agrees(
            r,
            old(store)@,
            final(store)@,
            execute_era_restake_spec(old(store)@, pool_addr@, answer_view(*min_ibc_fee)),
        ),
{
    let ghost pre = store@;
    let pool_info = match store.pools.get(&pool_addr) {
        Some(p) => p,
        None => {
            return Err(ContractError::NotFound);
        },
    };
    let ghost pool = pool_info@;
    if pool_info.status != EraStatus::WithdrawEnded {
        return Err(ContractError::StatusNotAllow);
    }
    let (ctrl_connection_id, ctrl_port_id) = match store.info_of_ica_id.get(&pool_info.ica_id) {
        Some(infos) => (
            infos.pool_address_ica_info.ctrl_connection_id.clone(),
            infos.pool_address_ica_info.ctrl_port_id.clone(),
        ),
        None => {
            return Err(ContractError::NotFound);
        },
    };
    let restake_amount = pool_info.era_snapshot.restake_amount;
    if restake_amount == 0 {
        let mut pool_new = store.pools.take(&pool_addr);
        pool_new.status = EraStatus::EraRestakeEnded;
        store.pools.save(pool_addr, pool_new);
        proof {
            assert(store@.pools =~= pre.pools.insert(
                pool_addr@,
                PoolInfoView { status: EraStatus::EraRestakeEnded, ..pool },
            ));
        }
        return Ok(Response::new());
    }
    if pool_info.validator_addrs.len() == 0 {
        return Err(ContractError::ValidatorsEmpty);
    }
    let msgs = even_delegate_msgs_of(
        &pool_addr,
        &pool_info.remote_denom,
        &pool_info.validator_addrs,
        restake_amount,
    );
    let fee = min_fee(min_ibc_fee)?;
    let cosmos_msg = submit_tx(ctrl_connection_id, pool_info.ica_id.clone(), msgs, fee);
    let submsg = msg_with_sudo_callback(
        store,
        cosmos_msg,
        SudoPayload {
            port_id: ctrl_port_id,
            message: String::new(),
            pool_addr: pool_addr.clone(),
            tx_type: TxType::EraRebond,
        },
    );
    let mut pool_new = store.pools.take(&pool_addr);
    pool_new.status = EraStatus::EraRestakeStarted;
    store.pools.save(pool_addr, pool_new);
    proof {
        assert(store@.pools =~= pre.pools.insert(
            pool_addr@,
            PoolInfoView { status: EraStatus::EraRestakeStarted, ..pool },
        ));
    }
    let mut resp = Response::new();
    resp.messages.push(submsg);
    proof {
        assert(resp@.messages =~= seq![submsg@]);
        assert(resp@.attributes =~= Seq::empty());
    }
    Ok(resp)
}

/// Completes the restake of a pool whose delegation was acknowledged: the pool has ended
/// its restake at the height of the block.
pub fn sudo_era_rebond_callback(store: &mut Store, env: &Env, payload: SudoPayload) -> (r: Result<
    Response,
    ContractError,
>)
    ensures
        agrees(
            r,
            old(store)@,
            final(store)@,
            step_resolved(
                old(store)@,
                payload.pool_addr@,
                EraStatus::EraRestakeEnded,
                Some(env.block_height),
            ),
        ),
{
    resolve_step(store, payload.pool_addr, EraStatus::EraRestakeEnded, Some(env.block_height))
}

/// Rolls back the restake of a pool whose delegation failed or timed out: the pool is
/// back where the collection of its withdrawals ended.
pub fn sudo_era_rebond_failed_callback(store: &mut Store, payload: SudoPayload) -> (r: Result<
    Response,
    ContractError,
>)
    ensures
        agrees(
            r,
            old(store)@,
            final(store)@,
            step_resolved(old(store)@, payload.pool_addr@, EraStatus::WithdrawEnded, None),
        ),
{
    resolve_step(store, payload.pool_addr, EraStatus::WithdrawEnded, None)
}

} // verus!
