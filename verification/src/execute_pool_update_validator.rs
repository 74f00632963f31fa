//! Replacing a validator of a pool by another: what is delegated to the old one is moved
//! to the new one.
use vstd::prelude::*;
use crate::chain::{
    Delegation,
    DelegationView,
    DelegatorDelegationsResponse,
    DelegatorDelegationsResponseView,
    IbcFee,
    IbcFeeView,
    MessageInfo,
    MessageInfoView,
    ProtobufAny,
    ProtobufAnyView,
    Response,
    ResponseView,
};
use crate::error_conversion::{ContractError, ContractErrorView};
use crate::execute_pool_rm_validator::{revert_validator_update, validator_update_reverted, without};
use crate::helper::{
    agrees,
    answer_view,
    dispatch_response,
    empty_response,
    gen_redelegate_txs,
    min_fee,
    min_fee_spec,
    redelegate_tx,
    submit_tx,
    submit_tx_spec,
};
use crate::query::{observed, query_delegation_by_addr};
use crate::state::{
    next_id,
    registered,
    with_pool,
    EraStatus,
    PoolInfoView,
    QueryKind,
    Store,
    StoreView,
    SudoPayload,
    SudoPayloadView,
    TxType,
    ValidatorUpdateStatus,
    REPLY_ID_RANGE_START,
};
use crate::text::{join, join_spec, list_contains, list_without, split, split_spec};
use crate::tx_callback::msg_with_sudo_callback;

verus! {

/// The instructions that move to `new_validator` what each of `delegations` has with
/// `old_validator`; a delegation of nothing is passed over.
pub open spec fn replace_msgs(
    pool_addr: Seq<char>,
    denom: Seq<char>,
    old_validator: Seq<char>,
    new_validator: Seq<char>,
    delegations: Seq<DelegationView>,
) -> Seq<ProtobufAnyView>
    decreases delegations.len(),
{
    if delegations.len() == 0 {
        Seq::empty()
    } else {
        let before = replace_msgs(
            pool_addr,
            denom,
            old_validator,
            new_validator,
            delegations.drop_last(),
        );
        let d = delegations.last();
        if d.validator == old_validator && d.amount.amount != 0 {
            before.push(redelegate_tx(pool_addr, d.validator, new_validator, denom, d.amount.amount))
        } else {
            before
        }
    }
}

fn replace_msgs_of(
    pool_addr: &String,
    denom: &String,
    old_validator: &String,
    new_validator: &String,
    delegations: &Vec<Delegation>,
) -> (r: Vec<ProtobufAny>)
    ensures
        r.deep_view() == replace_msgs(
            pool_addr@,
            denom@,
            old_validator@,
            new_validator@,
            delegations.deep_view(),
        ),
{
    let mut r: Vec<ProtobufAny> = Vec::new();
    let mut i: usize = 0;
    let ghost all = delegations.deep_view();
    proof {
        assert(all.subrange(0, 0) =~= Seq::<DelegationView>::empty());
        assert(r.deep_view() =~= Seq::<ProtobufAnyView>::empty());
    }
    while i < delegations.len()
        invariant
            0 <= i <= delegations.len(),
            all == delegations.deep_view(),
            r.deep_view() == replace_msgs(
                pool_addr@,
                denom@,
                old_validator@,
                new_validator@,
                all.subrange(0, i as int),
            ),
        decreases delegations.len() - i,
    {
        let ghost before = r.deep_view();
        proof {
            assert(all.subrange(0, i + 1).drop_last() =~= all.subrange(0, i as int));
            assert(all.subrange(0, i + 1).last() == delegations[i as int]@);
        }
        let d = &delegations[i];
        if d.validator == *old_validator && d.amount.amount != 0 {
            let msg = gen_redelegate_txs(
                pool_addr.clone(),
                d.validator.clone(),
                new_validator.clone(),
                denom.clone(),
                d.amount.amount,
            );
            r.push(msg);
            proof {
                assert(r.deep_view() =~= before.push(msg@));
            }
        }
        i += 1;
    }
    proof {
        assert(all.subrange(0, delegations.len() as int) =~= all);
    }
    r
}

/// What replacing `old_validator` by `new_validator` in the pool `pool_addr` does.
///
/// Only the administrator of the pool may do it, and only while the pool is at rest and
/// its validators are not being changed. It is refused where the pool does not have the
/// old validator or has the new one already, and where the delegations were observed no
/// later than the last step of the last era. Where nothing is delegated to the old
/// validator, the pool goes on to wait for its queries to be updated. Else one
/// redelegation for each delegation to the old validator is dispatched; the correlation
/// record holds the new set, which the pool adopts when the redelegation is acknowledged.
pub open spec fn execute_pool_update_validator_spec(
    pre: StoreView,
    info: MessageInfoView,
    pool_addr: Seq<char>,
    old_validator: Seq<char>,
    new_validator: Seq<char>,
    delegations: Result<DelegatorDelegationsResponseView, Seq<char>>,
    min_ibc_fee: Result<IbcFeeView, Seq<char>>,
) -> Result<(StoreView, ResponseView), ContractErrorView> {
    if !pre.pools.contains_key(pool_addr) {
        Err(ContractErrorView::NotFound)
    } else {
        let pool = pre.pools[pool_addr];
        if info.sender != pool.admin {
            Err(ContractErrorView::Unauthorized)
        } else if pool.status != EraStatus::ActiveEnded {
            Err(ContractErrorView::EraProcessNotEnd)
        } else if pool.validator_update_status != ValidatorUpdateStatus::End {
            Err(ContractErrorView::StatusNotAllow)
        } else if !pool.validator_addrs.contains(old_validator) {
            Err(ContractErrorView::OldValidatorNotExist)
        } else if pool.validator_addrs.contains(new_validator) {
            Err(ContractErrorView::NewValidatorAlreadyExist)
        } else {
            match observed(pre, pool_addr, QueryKind::Delegations, delegations) {
                Err(e) => Err(e),
                Ok(resp) => if resp.last_submitted_local_height <= pool.era_snapshot.last_step_height {
                    Err(ContractErrorView::DelegationSubmissionHeight)
                } else if !pre.info_of_ica_id.contains_key(pool.ica_id) {
                    Err(ContractErrorView::NotFound)
                } else {
                    let msgs = replace_msgs(
                        pool_addr,
                        pool.remote_denom,
                        old_validator,
                        new_validator,
                        resp.delegations,
                    );
                    if msgs.len() == 0 {
                        Ok(
                            (
                                with_pool(
                                    pre,
                                    pool_addr,
                                    PoolInfoView {
                                        validator_update_status: ValidatorUpdateStatus::WaitQueryUpdate,
                                        ..pool
                                    },
                                ),
                                empty_response(),
                            ),
                        )
                    } else {
                        match min_fee_spec(min_ibc_fee) {
                            Err(e) => Err(e),
                            Ok(fee) => {
                                let ica = pre.info_of_ica_id[pool.ica_id].pool_address_ica_info;
                                let payload = SudoPayloadView {
                                    port_id: ica.ctrl_port_id,
                                    pool_addr: ica.ica_addr,
                                    message: join_spec(
                                        without(pool.validator_addrs, old_validator).push(new_validator),
                                        "_"@,
                                    ),
                                    tx_type: TxType::UpdateValidator,
                                };
                                Ok(
                                    (
                                        with_pool(
                                            registered(pre, payload),
                                            pool_addr,
                                            PoolInfoView {
                                                validator_update_status: ValidatorUpdateStatus::Start,
                                                ..pool
                                            },
                                        ),
                                        dispatch_response(
                                            submit_tx_spec(ica.ctrl_connection_id, pool.ica_id, msgs, fee),
                                            next_id(pre.latest_reply_id, REPLY_ID_RANGE_START),
                                        ),
                                    ),
                                )
                            },
                        }
                    }
                },
            }
        }
    }
}

/// Replaces the validator `old_validator` of the pool `pool_addr` by `new_validator`.
///
/// `delegations` is what the chain answered to the delegations query of the pool,
/// `min_ibc_fee` what it reported as its minimal fee.
pub fn execute_pool_update_validator(
    store: &mut Store,
    info: &MessageInfo,
    pool_addr: String,
    old_validator: String,
    new_validator: String,
    delegations: &Result<DelegatorDelegationsResponse, String>,
    min_ibc_fee: &Result<IbcFee, String>,
) -> (r: Result<Response, ContractError>)
    ensures
        agrees(
            r,
            old(store)@,
            final(store)@,
            execute_pool_update_validator_spec(
                old(store)@,
                info@,
                pool_addr@,
                old_validator@,
                new_validator@,
                answer_view(*delegations),
                answer_view(*min_ibc_fee),
            ),
        ),
{
    let ghost pre = store@;
    let pool_info = match store.pools.get(&pool_addr) {
        Some(p) => p,
        None => {
            return Err(ContractError::NotFound);
        },
    };
    let ghost pool = pool_info@;
    pool_info.authorize(&info.sender)?;
    pool_info.require_era_ended()?;
    pool_info.require_update_validator_ended()?;
    if !list_contains(&pool_info.validator_addrs, &old_validator) {
        return Err(ContractError::OldValidatorNotExist);
    }
    if list_contains(&pool_info.validator_addrs, &new_validator) {
        return Err(ContractError::NewValidatorAlreadyExist);
    }
    let resp_delegations = query_delegation_by_addr(store, pool_addr.clone(), delegations)?;
    if resp_delegations.last_submitted_local_height <= pool_info.era_snapshot.last_step_height {
        return Err(ContractError::DelegationSubmissionHeight);
    }
    let mut new_validators = list_without(&pool_info.validator_addrs, &old_validator);
    let ghost kept = new_validators.deep_view();
    new_validators.push(new_validator.clone());
    proof {
        assert(new_validators.deep_view() =~= kept.push(new_validator@));
    }
    let msgs = replace_msgs_of(
        &pool_addr,
        &pool_info.remote_denom,
        &old_validator,
        &new_validator,
        &resp_delegations.delegations,
    );
    let (ctrl_connection_id, ctrl_port_id, ica_addr) = match store.info_of_ica_id.get(
        &pool_info.ica_id,
    ) {
        Some(infos) => (
            infos.pool_address_ica_info.ctrl_connection_id.clone(),
            infos.pool_address_ica_info.ctrl_port_id.clone(),
            infos.pool_address_ica_info.ica_addr.clone(),
        ),
        None => {
            return Err(ContractError::NotFound);
        },
    };
    if msgs.len() == 0 {
        let mut pool_new = store.pools.take(&pool_addr);
        pool_new.validator_update_status = ValidatorUpdateStatus::WaitQueryUpdate;
        store.pools.save(pool_addr, pool_new);
        proof {
            assert(store@.pools =~= pre.pools.insert(
                pool_addr@,
                PoolInfoView {
                    validator_update_status: ValidatorUpdateStatus::WaitQueryUpdate,
                    ..pool
                },
            ));
        }
        return Ok(Response::new());
    }
    let fee = min_fee(min_ibc_fee)?;
    let cosmos_msg = submit_tx(ctrl_connection_id, pool_info.ica_id.clone(), msgs, fee);
    let submsg = msg_with_sudo_callback(
        store,
        cosmos_msg,
        SudoPayload {
            port_id: ctrl_port_id,
            pool_addr: ica_addr,
            message: join(&new_validators, "_"),
            tx_type: TxType::UpdateValidator,
        },
    );
    let mut pool_new = store.pools.take(&pool_addr);
    pool_new.validator_update_status = ValidatorUpdateStatus::Start;
    store.pools.save(pool_addr, pool_new);
    proof {
        assert(store@.pools =~= pre.pools.insert(
            pool_addr@,
            PoolInfoView { validator_update_status: ValidatorUpdateStatus::Start, ..pool },
        ));
    }
    let mut resp = Response::new();
    resp.messages.push(submsg);
    proof {
        assert(resp@.messages =~= seq![submsg@]);
        assert(resp@.attributes =~= Seq::empty());
    }
    Ok(resp)
}

/// The state after the redelegations of a replacement were acknowledged: the pool has the
/// validators that the context `message` lists, and waits for its queries to be updated.
pub open spec fn sudo_update_validator_callback_spec(
    pre: StoreView,
    pool_addr: Seq<char>,
    message: Seq<char>,
) -> Result<(StoreView, ResponseView), ContractErrorView> {
    if !pre.pools.contains_key(pool_addr) {
        Err(ContractErrorView::NotFound)
    } else {
        Ok(
            (
                with_pool(
                    pre,
                    pool_addr,
                    PoolInfoView {
                        validator_addrs: split_spec(message, '_'),
                        validator_update_status: ValidatorUpdateStatus::WaitQueryUpdate,
                        ..pre.pools[pool_addr]
                    },
                ),
                empty_response(),
            ),
        )
    }
}

/// Gives the pool the validator set that the record names, once the redelegations of a
/// replacement were acknowledged.
pub fn sudo_update_validator_callback(store: &mut Store, payload: SudoPayload) -> (r: Result<
    Response,
    ContractError,
>)
    ensures
        agrees(
            r,
            old(store)@,
            final(store)@,
            sudo_update_validator_callback_spec(old(store)@, payload.pool_addr@, payload.message@),
        ),
{
    let ghost pre = store@;
    if !store.pools.has(&payload.pool_addr) {
        return Err(ContractError::NotFound);
    }
    let mut pool_info = store.pools.take(&payload.pool_addr);
    let ghost pool = pool_info@;
    pool_info.validator_addrs = split(payload.message.as_str(), '_');
    pool_info.validator_update_status = ValidatorUpdateStatus::WaitQueryUpdate;
    store.pools.save(payload.pool_addr, pool_info);
    proof {
        assert(store@.pools =~= pre.pools.insert(
            payload.pool_addr@,
            PoolInfoView {
                validator_addrs: split_spec(payload.message@, '_'),
                validator_update_status: ValidatorUpdateStatus::WaitQueryUpdate,
                ..pool
            },
        ));
    }
    Ok(Response::new())
}

/// Leaves the validator set as it was when the redelegations of a replacement failed or
/// timed out.
pub fn sudo_update_validator_failed_callback(store: &mut Store, payload: SudoPayload) -> (r: Result<
    Response,
    ContractError,
>)
    ensures
        agrees(r, old(store)@, final(store)@, validator_update_reverted(old(store)@, payload.pool_addr@)),
{
    revert_validator_update(store, payload.pool_addr)
}

} // verus!
