//! The third step of an era: what the withdrawal account of the pool has received is sent
//! on to the account of the pool.
use vstd::prelude::*;
use crate::chain::{
    amount_of,
    amount_of_spec,
    BalanceResponse,
    BalanceResponseView,
    Env,
    IbcFee,
    IbcFeeView,
    MessageInfo,
    MessageInfoView,
    ProtobufAny,
    Response,
    ResponseView,
};
use crate::error_conversion::{ContractError, ContractErrorView};
use crate::helper::{
    agrees,
    answer_view,
    check_ibc_fee,
    check_ibc_fee_spec,
    dispatch_response,
    empty_response,
    gen_msg_send,
    get_withdraw_ica_id,
    send_tx,
    submit_tx,
    submit_tx_spec,
    ICA_WITHDRAW_SUFIX,
};
use crate::query::{observed, query_balance_by_addr};
use crate::state::{
    next_id,
    registered,
    with_pool,
    EraSnapshot,
    EraStatus,
    PoolInfoView,
    QueryKind,
    Store,
    StoreView,
    SudoPayload,
    SudoPayloadView,
    TxType,
    REPLY_ID_RANGE_START,
};
use crate::text::{decimal, u128_to_string};
use crate::tx_callback::msg_with_sudo_callback;

verus! {

/// What the withdrawal account holds for the pool, as far as it was observed: a balance
/// that cannot be read counts as nothing, a balance observed before the last step of the
/// era is refused.
pub open spec fn collectable(
    pool: PoolInfoView,
    balance: Result<BalanceResponseView, ContractErrorView>,
) -> Result<u128, ContractErrorView> {
    match balance {
        Err(_) => Ok(0),
        Ok(resp) => if resp.last_submitted_local_height <= pool.era_snapshot.last_step_height {
            Err(ContractErrorView::WithdrawAddrBalanceSubmissionHeight)
        } else {
            Ok(amount_of_spec(resp.balances.coins, pool.remote_denom))
        },
    }
}

/// What collecting the withdrawals of the pool `pool_addr` does.
///
/// It is refused unless the pool has ended its era stake. Where the withdrawal account
/// holds nothing, the step completes at once. Else the balance is sent from the
/// withdrawal account to the pool, provided the funds sent pay the fee: it is put down
/// as the amount to restake, and the pool waits in `WithdrawStarted` for the resolution.
pub open spec fn execute_era_collect_withdraw_spec(
    pre: StoreView,
    info: MessageInfoView,
    pool_addr: Seq<char>,
    withdraw_balance: Result<BalanceResponseView, Seq<char>>,
    min_ibc_fee: Result<IbcFeeView, Seq<char>>,
) -> Result<(StoreView, ResponseView), ContractErrorView> {
    if !pre.pools.contains_key(pool_addr) {
        Err(ContractErrorView::NotFound)
    } else {
        let pool = pre.pools[pool_addr];
        if pool.status != EraStatus::EraStakeEnded {
            Err(ContractErrorView::StatusNotAllow)
        } else if !pre.info_of_ica_id.contains_key(pool.ica_id) {
            Err(ContractErrorView::NotFound)
        } else {
            let withdraw = pre.info_of_ica_id[pool.ica_id].withdraw_address_ica_info;
            match collectable(
                pool,
                observed(pre, withdraw.ica_addr, QueryKind::Balances, withdraw_balance),
            ) {
                Err(e) => Err(e),
                Ok(amount) => if amount == 0 {
                    Ok(
                        (
                            with_pool(
                                pre,
                                pool_addr,
                                PoolInfoView { status: EraStatus::WithdrawEnded, ..pool },
                            ),
                            empty_response(),
                        ),
                    )
                } else {
                    match check_ibc_fee_spec(min_ibc_fee, info) {
                        Err(e) => Err(e),
                        Ok(fee) => {
                            let payload = SudoPayloadView {
                                port_id: withdraw.ctrl_port_id,
                                message: Seq::empty(),
                                pool_addr,
                                tx_type: TxType::EraCollectWithdraw,
                            };
                            Ok(
                                (
                                    with_pool(
                                        registered(pre, payload),
                                        pool_addr,
                                        PoolInfoView {
                                            status: EraStatus::WithdrawStarted,
                                            era_snapshot: EraSnapshot {
                                                restake_amount: amount,
                                                ..pool.era_snapshot
                                            },
                                            ..pool
                                        },
                                    ),
                                    dispatch_response(
                                        submit_tx_spec(
                                            withdraw.ctrl_connection_id,
                                            pool.ica_id + ICA_WITHDRAW_SUFIX@,
                                            seq![
                                                send_tx(
                                                    withdraw.ica_addr,
                                                    pool_addr,
                                                    pool.remote_denom,
                                                    decimal(amount as nat),
                                                ),
                                            ],
                                            fee,
                                        ),
                                        next_id(pre.latest_reply_id, REPLY_ID_RANGE_START),
                                    ),
                                ),
                            )
                        },
                    }
                },
            }
        }
    }
}

/// Runs the third step of the era of the pool `pool_addr`.
///
/// `withdraw_balance` is what the chain answered to the balance query of the withdrawal
/// account of the pool, `min_ibc_fee` what it reported as its minimal fee.
pub fn execute_era_collect_withdraw(
    store: &mut Store,
    info: &MessageInfo,
    pool_addr: String,
    withdraw_balance: &Result<BalanceResponse, String>,
    min_ibc_fee: &Result<IbcFee, String>,
) -> (r: Result<Response, ContractError>)
    ensures
        agrees(
            r,
            old(store)@,
            final(store)@,
            execute_era_collect_withdraw_spec(
                old(store)@,
                info@,
                pool_addr@,
                answer_view(*withdraw_balance),
                answer_view(*min_ibc_fee),
            ),
        ),
{
    let ghost pre = store@;
    let pool_info = match store.pools.get(&pool_addr) {
        Some(p) => p,
        None => {
            return Err(ContractError::NotFound);
        },
    };
    let ghost pool = pool_info@;
    if pool_info.status != EraStatus::EraStakeEnded {
        return Err(ContractError::StatusNotAllow);
    }
    let withdraw_ica_info = match store.info_of_ica_id.get(&pool_info.ica_id) {
        Some(infos) => infos.withdraw_address_ica_info.dup(),
        None => {
            return Err(ContractError::NotFound);
        },
    };
    let mut withdraw_amount: u128 = 0;
    match query_balance_by_addr(store, withdraw_ica_info.ica_addr.clone(), withdraw_balance) {
        Ok(balance_response) => {
            if balance_response.last_submitted_local_height
                <= pool_info.era_snapshot.last_step_height {
                return Err(ContractError::WithdrawAddrBalanceSubmissionHeight);
            }
            withdraw_amount = amount_of(&balance_response.balances.coins, &pool_info.remote_denom);
        },
        Err(_) => {},
    }
    if withdraw_amount == 0 {
        let mut pool_new = store.pools.take(&pool_addr);
        pool_new.status = EraStatus::WithdrawEnded;
        store.pools.save(pool_addr, pool_new);
        proof {
            assert(store@.pools =~= pre.pools.insert(
                pool_addr@,
                PoolInfoView { status: EraStatus::WithdrawEnded, ..pool },
            ));
        }
        return Ok(Response::new());
    }
    let ibc_fee = check_ibc_fee(min_ibc_fee, info)?;
    let mut msgs: Vec<ProtobufAny> = Vec::new();
    msgs.push(
        gen_msg_send(
            withdraw_ica_info.ica_addr.clone(),
            pool_addr.clone(),
            pool_info.remote_denom.clone(),
            u128_to_string(withdraw_amount),
        ),
    );
    proof {
        assert(msgs.deep_view() =~= seq![
            send_tx(
                withdraw_ica_info.ica_addr@,
                pool_addr@,
                pool.remote_denom,
                decimal(withdraw_amount as nat),
            ),
        ]);
    }
    let cosmos_msg = submit_tx(
        withdraw_ica_info.ctrl_connection_id.clone(),
        get_withdraw_ica_id(pool_info.ica_id.clone()),
        msgs,
        ibc_fee,
    );
    let submsg = msg_with_sudo_callback(
        store,
        cosmos_msg,
        SudoPayload {
            port_id: withdraw_ica_info.ctrl_port_id,
            message: String::new(),
            pool_addr: pool_addr.clone(),
            tx_type: TxType::EraCollectWithdraw,
        },
    );
    let mut pool_new = store.pools.take(&pool_addr);
    pool_new.status = EraStatus::WithdrawStarted;
    pool_new.era_snapshot.restake_amount = withdraw_amount;
    store.pools.save(pool_addr, pool_new);
    proof {
        assert(store@.pools =~= pre.pools.insert(
            pool_addr@,
            PoolInfoView {
                status: EraStatus::WithdrawStarted,
                era_snapshot: EraSnapshot { restake_amount: withdraw_amount, ..pool.era_snapshot },
                ..pool
            },
        ));
    }
    let mut resp = Response::new();
    resp.messages.push(submsg);
    proof {
        assert(resp@.messages =~= seq![submsg@]);
        assert(resp@.attributes =~= Seq::empty());
    }
    Ok(resp)
}

/// The state after a step of the era of the pool `pool_addr` resolved: the pool is in
/// `status`, and where the step was acknowledged, `height` is the height of its last step.
pub open spec fn step_resolved(pre: StoreView, pool_addr: Seq<char>, status: EraStatus, height: Option<u64>) -> Result<
    (StoreView, ResponseView),
    ContractErrorView,
> {
    if !pre.pools.contains_key(pool_addr) {
        Err(ContractErrorView::NotFound)
    } else {
        let pool = pre.pools[pool_addr];
        Ok(
            (
                with_pool(
                    pre,
                    pool_addr,
                    PoolInfoView {
                        status,
                        era_snapshot: match height {
                            Some(h) => EraSnapshot { last_step_height: h, ..pool.era_snapshot },
                            None => pool.era_snapshot,
                        },
                        ..pool
                    },
                ),
                empty_response(),
            ),
        )
    }
}

/// Puts the pool `pool_addr` into `status` once a step of its era resolved; `height` is
/// the height at which the step was acknowledged, where it was.
pub fn resolve_step(store: &mut Store, pool_addr: String, status: EraStatus, height: Option<u64>) -> (r:
    Result<Response, ContractError>)
    ensures
        agrees(r, old(store)@, final(store)@, step_resolved(old(store)@, pool_addr@, status, height)),
{
    let ghost pre = store@;
    if !store.pools.has(&pool_addr) {
        return Err(ContractError::NotFound);
    }
    let mut pool_info = store.pools.take(&pool_addr);
    let ghost pool = pool_info@;
    pool_info.status = status;
    match height {
        Some(h) => {
            pool_info.era_snapshot.last_step_height = h;
        },
        None => {},
    }
    store.pools.save(pool_addr, pool_info);
    proof {
        assert(store@.pools =~= pre.pools.insert(
            pool_addr@,
            PoolInfoView {
                status,
                era_snapshot: match height {
                    Some(h) => EraSnapshot { last_step_height: h, ..pool.era_snapshot },
                    None => pool.era_snapshot,
                },
                ..pool
            },
        ));
    }
    Ok(Response::new())
}

/// Completes the collection of a pool whose transfer was acknowledged: the pool has
/// ended its withdrawal at the height of the block.
pub fn sudo_era_collect_withdraw_callback(store: &mut Store, env: &Env, payload: SudoPayload) -> (r:
    Result<Response, ContractError>)
    ensures
        agrees(
            r,
            old(store)@,
            final(store)@,
            step_resolved(
                old(store)@,
                payload.pool_addr@,
                EraStatus::WithdrawEnded,
                Some(env.block_height),
            ),
        ),
{
    resolve_step(store, payload.pool_addr, EraStatus::WithdrawEnded, Some(env.block_height))
}

/// Rolls back the collection of a pool whose transfer failed or timed out: the pool is
/// back where its era stake ended.
pub fn sudo_era_collect_withdraw_failed_callback(store: &mut Store, payload: SudoPayload) -> (r: Result<
    Response,
    ContractError,
>)
    ensures
        agrees(
            r,
            old(store)@,
            final(store)@,
            step_resolved(old(store)@, payload.pool_addr@, EraStatus::EraStakeEnded, None),
        ),
{
    resolve_step(store, payload.pool_addr, EraStatus::EraStakeEnded, None)
}

} // verus!
