//! The notifications by which the chain reports what became of a dispatched remote
//! instruction, and their routing to the handler of the operation that dispatched it.
//!
//! A record registered for an instruction is found again by the identifier of the reply
//! that reports the dispatch, and from then on by the channel and sequence number of the
//! instruction. The notification that resolves the instruction consumes the record, so
//! that no instruction is resolved twice.
use vstd::prelude::*;
use crate::chain::{reply_msg, CosmosMsg, Env, EnvView, Reply, RequestPacket, RequestPacketView, Response, ResponseView, SubMsg};
use crate::error_conversion::{ContractError, ContractErrorView};
use crate::execute_era_collect_withdraw::{
    step_resolved,
    sudo_era_collect_withdraw_callback,
    sudo_era_collect_withdraw_failed_callback,
};
use crate::execute_era_restake::{sudo_era_rebond_callback, sudo_era_rebond_failed_callback};
use crate::execute_era_stake::{sudo_era_bond_callback, sudo_era_bond_callback_spec, sudo_era_bond_failed_callback};
use crate::execute_era_update::{
    sudo_era_update_callback,
    sudo_era_update_callback_spec,
    sudo_era_update_failed_callback,
    sudo_era_update_failed_callback_spec,
};
use crate::execute_pool_rm_validator::{
    sudo_rm_validator_callback,
    sudo_rm_validator_callback_spec,
    sudo_rm_validator_failed_callback,
    validator_update_reverted,
};
use crate::execute_pool_update_validator::{
    sudo_update_validator_callback,
    sudo_update_validator_callback_spec,
    sudo_update_validator_failed_callback,
};
use crate::execute_redeem_token_for_share::{
    redeem_resolved,
    sudo_redeem_token_for_share_callback,
    sudo_redeem_token_for_share_failed_callback,
};
use crate::execute_stake_lsm::{
    sudo_stake_lsm_callback,
    sudo_stake_lsm_callback_spec,
    sudo_stake_lsm_failed_callback,
    sudo_stake_lsm_failed_callback_spec,
};
use crate::execute_withdraw::{
    sudo_withdraw_callback,
    sudo_withdraw_callback_spec,
    sudo_withdraw_failed_callback,
    sudo_withdraw_failed_callback_spec,
};
use crate::helper::{
    agrees,
    empty_response,
    sudo_set_withdraw_addr_callback,
    sudo_set_withdraw_addr_failed_callback,
};
use crate::state::{
    next_id,
    read_reply_payload,
    read_sudo_payload,
    registered,
    save_reply_payload,
    save_sudo_payload,
    EraStatus,
    Store,
    StoreView,
    SudoPayload,
    SudoPayloadView,
    TxType,
    REPLY_ID_RANGE_START,
};

verus! {

/// Registers `payload` for the instruction `msg` and wraps `msg` so that its successful
/// dispatch is reported back under the identifier that `payload` is kept under.
pub fn msg_with_sudo_callback(store: &mut Store, msg: CosmosMsg, payload: SudoPayload) -> (sub: SubMsg)
    ensures
        sub@ == reply_msg(msg@, next_id(old(store)@.latest_reply_id, REPLY_ID_RANGE_START)),
        final(store)@ == registered(old(store)@, payload@),
{
    let id = save_reply_payload(store, payload);
    SubMsg { id, msg, reply_on_success: true }
}

/// What the reply `msg` holds, read as the reply to the dispatch of a remote instruction:
/// the sequence number and the channel.
pub open spec fn dispatch_result(msg: Reply) -> Result<Option<Result<(u64, Seq<char>), Seq<char>>>, Seq<char>> {
    match msg.result {
        Err(t) => Err(t@),
        Ok(None) => Ok(None),
        Ok(Some(data)) => Ok(
            Some(
                match data.transfer {
                    Ok(resp) => Ok((resp.sequence_id, resp.channel@)),
                    Err(t) => Err(t@),
                },
            ),
        ),
    }
}

/// What the reply to the dispatch of a remote instruction does: the record registered
/// under the identifier of the reply is kept under the channel and sequence number of the
/// instruction as well. Refused where no record is registered under the identifier, where
/// the dispatch failed, where its result has no data, and where the data does not hold a
/// channel and sequence number.
pub open spec fn prepare_sudo_payload_spec(
    pre: StoreView,
    id: u64,
    result: Result<Option<Result<(u64, Seq<char>), Seq<char>>>, Seq<char>>,
) -> Result<(StoreView, ResponseView), ContractErrorView> {
    if !pre.reply_id_to_payload.contains_key(id) {
        Err(ContractErrorView::NotFound)
    } else {
        match result {
            Err(t) => Err(ContractErrorView::QueryFailed(t)),
            Ok(None) => Err(ContractErrorView::ICQErrReplyNoResult),
            Ok(Some(Err(t))) => Err(ContractErrorView::ICQErrFailedParse(t)),
            Ok(Some(Ok((seq_id, channel)))) => Ok(
                (
                    StoreView {
                        sudo_payload: pre.sudo_payload.insert(
                            (channel, seq_id),
                            pre.reply_id_to_payload[id],
                        ),
                        ..pre
                    },
                    empty_response(),
                ),
            ),
        }
    }
}

/// Takes note of the channel and sequence number on which the instruction of the reply
/// `msg` was dispatched: its resolution will be addressed by them.
pub fn prepare_sudo_payload(store: &mut Store, msg: Reply) -> (r: Result<Response, ContractError>)
    ensures
        agrees(
            r,
            old(store)@,
            final(store)@,
            prepare_sudo_payload_spec(old(store)@, msg.id, dispatch_result(msg)),
        ),
{
    let payload = read_reply_payload(store, msg.id)?;
    let data = match msg.result {
        Err(t) => {
            return Err(ContractError::QueryFailed(t));
        },
        Ok(None) => {
            return Err(ContractError::ICQErrReplyNoResult);
        },
        Ok(Some(data)) => data,
    };
    let resp = match data.transfer {
        Ok(resp) => resp,
        Err(t) => {
            return Err(ContractError::ICQErrFailedParse(t));
        },
    };
    save_sudo_payload(store, resp.channel, resp.sequence_id, payload);
    Ok(Response::new())
}

/// What the acknowledgement of the instruction that `payload` was registered for does:
/// the handler of the operation that dispatched it applies the instruction.
pub open spec fn sudo_callback_spec(pre: StoreView, env: EnvView, payload: SudoPayloadView) -> Result<
    (StoreView, ResponseView),
    ContractErrorView,
> {
    match payload.tx_type {
        TxType::SetWithdrawAddr => step_resolved(pre, payload.pool_addr, EraStatus::ActiveEnded, None),
        TxType::EraUpdate => sudo_era_update_callback_spec(pre, env.block_height, payload.pool_addr),
        TxType::EraBond => sudo_era_bond_callback_spec(
            pre,
            (env.block_time_nanos / 1_000_000_000) as u64,
            env.block_height,
            payload.pool_addr,
            payload.message,
        ),
        TxType::EraCollectWithdraw => step_resolved(
            pre,
            payload.pool_addr,
            EraStatus::WithdrawEnded,
            Some(env.block_height),
        ),
        TxType::EraRebond => step_resolved(
            pre,
            payload.pool_addr,
            EraStatus::EraRestakeEnded,
            Some(env.block_height),
        ),
        TxType::UserWithdraw => sudo_withdraw_callback_spec(pre, payload.pool_addr, payload.message),
        TxType::UpdateValidator => sudo_update_validator_callback_spec(
            pre,
            payload.pool_addr,
            payload.message,
        ),
        TxType::RmValidator => sudo_rm_validator_callback_spec(pre, payload.pool_addr, payload.message),
        TxType::StakeLsm => sudo_stake_lsm_callback_spec(pre, payload.pool_addr, payload.message),
        TxType::RedeemTokenForShare => redeem_resolved(pre, payload.pool_addr, payload.message, true),
    }
}

/// What the failure or timeout of the instruction that `payload` was registered for does:
/// the handler of the operation that dispatched it restores the state from which the
/// operation can be called again.
pub open spec fn sudo_failed_callback_spec(pre: StoreView, payload: SudoPayloadView) -> Result<
    (StoreView, ResponseView),
    ContractErrorView,
> {
    match payload.tx_type {
        TxType::SetWithdrawAddr => step_resolved(pre, payload.pool_addr, EraStatus::InitFailed, None),
        TxType::EraUpdate => sudo_era_update_failed_callback_spec(
            pre,
            payload.pool_addr,
            payload.message,
        ),
        TxType::EraBond => step_resolved(pre, payload.pool_addr, EraStatus::EraUpdateEnded, None),
        TxType::EraCollectWithdraw => step_resolved(
            pre,
            payload.pool_addr,
            EraStatus::EraStakeEnded,
            None,
        ),
        TxType::EraRebond => step_resolved(pre, payload.pool_addr, EraStatus::WithdrawEnded, None),
        TxType::UserWithdraw => sudo_withdraw_failed_callback_spec(
            pre,
            payload.pool_addr,
            payload.message,
        ),
        TxType::UpdateValidator => validator_update_reverted(pre, payload.pool_addr),
        TxType::RmValidator => validator_update_reverted(pre, payload.pool_addr),
        TxType::StakeLsm => match sudo_stake_lsm_failed_callback_spec(payload.message) {
            Ok(resp) => Ok((pre, resp)),
            Err(e) => Err(e),
        },
        TxType::RedeemTokenForShare => redeem_resolved(pre, payload.pool_addr, payload.message, false),
    }
}

/// Applies the instruction that `payload` was registered for, by the handler of the
/// operation that dispatched it.
pub fn sudo_callback(store: &mut Store, env: &Env, payload: SudoPayload) -> (r: Result<
    Response,
    ContractError,
>)
    ensures
        agrees(r, old(store)@, final(store)@, sudo_callback_spec(old(store)@, env@, payload@)),
{
    match payload.tx_type {
        TxType::SetWithdrawAddr => sudo_set_withdraw_addr_callback(store, payload),
        TxType::EraUpdate => sudo_era_update_callback(store, env, payload),
        TxType::EraBond => sudo_era_bond_callback(store, env, payload),
        TxType::EraCollectWithdraw => sudo_era_collect_withdraw_callback(store, env, payload),
        TxType::EraRebond => sudo_era_rebond_callback(store, env, payload),
        TxType::UserWithdraw => sudo_withdraw_callback(store, payload),
        TxType::UpdateValidator => sudo_update_validator_callback(store, payload),
        TxType::RmValidator => sudo_rm_validator_callback(store, payload),
        TxType::StakeLsm => sudo_stake_lsm_callback(store, payload),
        TxType::RedeemTokenForShare => sudo_redeem_token_for_share_callback(store, payload),
    }
}

/// Reverts the instruction that `payload` was registered for, by the handler of the
/// operation that dispatched it.
pub fn sudo_failed_callback(store: &mut Store, payload: SudoPayload) -> (r: Result<
    Response,
    ContractError,
>)
    ensures
        agrees(r, old(store)@, final(store)@, sudo_failed_callback_spec(old(store)@, payload@)),
{
    match payload.tx_type {
        TxType::SetWithdrawAddr => sudo_set_withdraw_addr_failed_callback(store, payload),
        TxType::EraUpdate => sudo_era_update_failed_callback(store, payload),
        TxType::EraBond => sudo_era_bond_failed_callback(store, payload),
        TxType::EraCollectWithdraw => sudo_era_collect_withdraw_failed_callback(store, payload),
        TxType::EraRebond => sudo_era_rebond_failed_callback(store, payload),
        TxType::UserWithdraw => sudo_withdraw_failed_callback(store, payload),
        TxType::UpdateValidator => sudo_update_validator_failed_callback(store, payload),
        TxType::RmValidator => sudo_rm_validator_failed_callback(store, payload),
        TxType::StakeLsm => sudo_stake_lsm_failed_callback(payload),
        TxType::RedeemTokenForShare => sudo_redeem_token_for_share_failed_callback(store, payload),
    }
}

/// What a notification about the instruction that `req` names does, `applied` telling
/// whether the instruction was acknowledged.
///
/// The notification must name a sequence number and a channel, and a record must be kept
/// for them: a notification that finds none is refused. The handler that the record
/// selects runs, and where it succeeds the record is consumed.
pub open spec fn resolution_spec(pre: StoreView, env: EnvView, req: RequestPacketView, applied: bool) -> Result<
    (StoreView, ResponseView),
    ContractErrorView,
> {
    match req.sequence {
        None => Err(ContractErrorView::CallBackErrSequenceNotFound),
        Some(seq_id) => match req.source_channel {
            None => Err(ContractErrorView::CallBackErrChannelIDNotFound),
            Some(channel_id) => if !pre.sudo_payload.contains_key((channel_id, seq_id)) {
                Err(ContractErrorView::CallBackErrErrorMsg)
            } else {
                let payload = pre.sudo_payload[(channel_id, seq_id)];
                match (if applied {
                    sudo_callback_spec(pre, env, payload)
                } else {
                    sudo_failed_callback_spec(pre, payload)
                }) {
                    Err(e) => Err(e),
                    Ok((post, resp)) => Ok(
                        (
                            StoreView {
                                sudo_payload: post.sudo_payload.remove((channel_id, seq_id)),
                                ..post
                            },
                            resp,
                        ),
                    ),
                }
            },
        },
    }
}

fn resolve(store: &mut Store, env: &Env, req: RequestPacket, applied: bool) -> (r: Result<
    Response,
    ContractError,
>)
    ensures
        agrees(r, old(store)@, final(store)@, resolution_spec(old(store)@, env@, req@, applied)),
{
    let seq_id = match req.sequence {
        Some(s) => s,
        None => {
            return Err(ContractError::CallBackErrSequenceNotFound);
        },
    };
    let channel_id = match req.source_channel {
        Some(c) => c,
        None => {
            return Err(ContractError::CallBackErrChannelIDNotFound);
        },
    };
    let payload = match read_sudo_payload(store, channel_id.clone(), seq_id) {
        Ok(p) => p,
        Err(_) => {
            return Err(ContractError::CallBackErrErrorMsg);
        },
    };
    let resp = if applied {
        sudo_callback(store, env, payload)?
    } else {
        sudo_failed_callback(store, payload)?
    };
    let _ = store.sudo_payload.remove(&(channel_id, seq_id));
    Ok(resp)
}

/// Handles the acknowledgement of the instruction that `req` names.
pub fn sudo_response(store: &mut Store, env: &Env, req: RequestPacket) -> (r: Result<
    Response,
    ContractError,
>)
    ensures
        agrees(r, old(store)@, final(store)@, resolution_spec(old(store)@, env@, req@, true)),
{
    resolve(store, env, req, true)
}

/// Handles the error with which the remote chain answered the instruction that `req`
/// names.
pub fn sudo_error(store: &mut Store, env: &Env, req: RequestPacket) -> (r: Result<Response, ContractError>)
    ensures
        agrees(r, old(store)@, final(store)@, resolution_spec(old(store)@, env@, req@, false)),
{
    resolve(store, env, req, false)
}

/// Handles the timeout of the instruction that `req` names. A timeout does what an error
/// does: the instruction did not take effect.
pub fn sudo_timeout(store: &mut Store, env: &Env, req: RequestPacket) -> (r: Result<
    Response,
    ContractError,
>)
    ensures
        agrees(r, old(store)@, final(store)@, resolution_spec(old(store)@, env@, req@, false)),
{
    resolve(store, env, req, false)
}

/// No handler of a resolution adds or changes a record of a dispatched instruction.
pub proof fn lemma_handlers_keep_records(pre: StoreView, env: EnvView, payload: SudoPayloadView)
    ensures
        sudo_callback_spec(pre, env, payload) is Ok ==> sudo_callback_spec(
            pre,
            env,
            payload,
        )->Ok_0.0.sudo_payload == pre.sudo_payload,
        sudo_failed_callback_spec(pre, payload) is Ok ==> sudo_failed_callback_spec(
            pre,
            payload,
        )->Ok_0.0.sudo_payload == pre.sudo_payload,
{
}

/// A notification that is delivered again is refused, and changes nothing.
///
/// Where a notification about the instruction that `req` names was handled with success,
/// in whichever of its three forms, no record is left for the instruction: any later
/// notification about it, in whichever form and in whichever block, is refused as
/// unroutable. Nothing is minted, burned or advanced a second time.
pub proof fn lemma_resolved_at_most_once(
    pre: StoreView,
    env: EnvView,
    req: RequestPacketView,
    applied: bool,
    later_env: EnvView,
    later_applied: bool,
)
    requires
        resolution_spec(pre, env, req, applied) is Ok,
    ensures
        resolution_spec(resolution_spec(pre, env, req, applied)->Ok_0.0, later_env, req, later_applied)
            == Err::<(StoreView, ResponseView), ContractErrorView>(
            ContractErrorView::CallBackErrErrorMsg,
        ),
{
    let seq_id = req.sequence->Some_0;
    let channel_id = req.source_channel->Some_0;
    let payload = pre.sudo_payload[(channel_id, seq_id)];
    lemma_handlers_keep_records(pre, env, payload);
}

/// An era update whose transfer fails leaves the pool as it was.
///
/// Let an era update of the pool `pool_addr` dispatch its transfer. When the transfer
/// fails or times out, the handler that its record selects puts the pool back at rest, in
/// the era before the new one and with the snapshot that the update had replaced. For a
/// pool that was in an era before the update, that is the pool exactly as it was.
pub proof fn lemma_failed_era_update_restores_pool(
    pre: StoreView,
    env: EnvView,
    pool_addr: Seq<char>,
    balances: Result<Seq<crate::chain::CoinView>, Seq<char>>,
    min_ibc_fee: Result<crate::chain::IbcFeeView, Seq<char>>,
)
    requires
        crate::execute_era_update::execute_era_update_spec(pre, env, pool_addr, balances, min_ibc_fee)
            is Ok,
        crate::execute_era_update::execute_era_update_spec(
            pre,
            env,
            pool_addr,
            balances,
            min_ibc_fee,
        )->Ok_0.0.pools[pool_addr].status == EraStatus::EraUpdateStarted,
    ensures
        ({
            let post = crate::execute_era_update::execute_era_update_spec(
                pre,
                env,
                pool_addr,
                balances,
                min_ibc_fee,
            )->Ok_0.0;
            let id = next_id(pre.latest_reply_id, REPLY_ID_RANGE_START);
            let payload = post.reply_id_to_payload[id];
            let reverted = sudo_failed_callback_spec(post, payload);
            &&& post.reply_id_to_payload.contains_key(id)
            &&& payload.tx_type == TxType::EraUpdate
            &&& post.pools[pool_addr].era > pre.pools[pool_addr].era
            &&& reverted is Ok
            &&& reverted->Ok_0.0.pools[pool_addr] == (crate::state::PoolInfoView {
                era: (post.pools[pool_addr].era - 1) as u64,
                ..pre.pools[pool_addr]
            })
            &&& pre.pools[pool_addr].era != 0 ==> reverted->Ok_0.0.pools[pool_addr] == pre.pools[pool_addr]
        }),
{
    crate::execute_era_update::lemma_snapshot_round_trip(pre.pools[pool_addr].era_snapshot);
}

/// The status from which the step of an era starts that dispatches instructions of the
/// kind `tx_type`; none for instructions that are no step of an era.
pub open spec fn step_start(tx_type: TxType) -> Option<EraStatus> {
    match tx_type {
        TxType::EraUpdate => Some(EraStatus::ActiveEnded),
        TxType::EraBond => Some(EraStatus::EraUpdateEnded),
        TxType::EraCollectWithdraw => Some(EraStatus::EraStakeEnded),
        TxType::EraRebond => Some(EraStatus::WithdrawEnded),
        _ => None,
    }
}

/// A step of an era whose instruction fails puts the pool back where the step starts.
///
/// When the instruction of an era stake, of a collection of withdrawals or of a restake
/// fails or times out, the handler that its record selects puts the pool into the status
/// from which that step starts, and changes nothing else of the pool: the step can be
/// called again.
pub proof fn lemma_failed_step_returns_to_start(post: StoreView, payload: SudoPayloadView)
    requires
        post.pools.contains_key(payload.pool_addr),
        payload.tx_type == TxType::EraBond || payload.tx_type == TxType::EraCollectWithdraw
            || payload.tx_type == TxType::EraRebond,
    ensures
        sudo_failed_callback_spec(post, payload) is Ok,
        sudo_failed_callback_spec(post, payload)->Ok_0.0 == crate::state::with_pool(
            post,
            payload.pool_addr,
            crate::state::PoolInfoView {
                status: step_start(payload.tx_type)->Some_0,
                ..post.pools[payload.pool_addr]
            },
        ),
{
}

} // verus!
