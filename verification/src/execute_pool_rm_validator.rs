//! Removing a validator from the set of a pool: what is delegated to it is moved to the
//! first of the validators that stay.
use vstd::prelude::*;
use crate::chain::{
    Delegation,
    DelegationView,
    DelegatorDelegationsResponse,
    DelegatorDelegationsResponseView,
    IbcFee,
    IbcFeeView,
    MessageInfo,
    MessageInfoView,
    ProtobufAny,
    Response,
    ResponseView,
};
use crate::error_conversion::{ContractError, ContractErrorView};
use crate::helper::{
    agrees,
    answer_view,
    check_ibc_fee,
    check_ibc_fee_spec,
    dispatch_response,
    empty_response,
    gen_redelegate_txs,
    redelegate_tx,
    submit_tx,
    submit_tx_spec,
};
use crate::query::{observed, query_delegation_by_addr};
use crate::state::{
    next_id,
    registered,
    with_pool,
    EraStatus,
    PoolInfoView,
    QueryKind,
    Store,
    StoreView,
    SudoPayload,
    SudoPayloadView,
    TxType,
    ValidatorUpdateStatus,
    REPLY_ID_RANGE_START,
};
use crate::text::{list_contains, list_without};
use crate::tx_callback::msg_with_sudo_callback;

verus! {

/// The validators `validators` without `validator`.
pub open spec fn without(validators: Seq<Seq<char>>, validator: Seq<char>) -> Seq<Seq<char>> {
    validators.filter(|v: Seq<char>| v != validator)
}

/// The amount of the first of `delegations` that is made to `validator`, where there is one.
pub open spec fn delegated_to(delegations: Seq<DelegationView>, validator: Seq<char>) -> Option<u128>
    decreases delegations.len(),
{
    if delegations.len() == 0 {
        None
    } else if delegations[0].validator == validator {
        Some(delegations[0].amount.amount)
    } else {
        delegated_to(delegations.drop_first(), validator)
    }
}

fn delegated_to_of(delegations: &Vec<Delegation>, validator: &String) -> (r: Option<u128>)
    ensures
        r == delegated_to(delegations.deep_view(), validator@),
{
    let mut i: usize = 0;
    let ghost all = delegations.deep_view();
    proof {
        assert(all.subrange(0, all.len() as int) =~= all);
    }
    while i < delegations.len()
        invariant
            0 <= i <= delegations.len(),
            all == delegations.deep_view(),
            delegated_to(all, validator@) == delegated_to(
                all.subrange(i as int, all.len() as int),
                validator@,
            ),
        decreases delegations.len() - i,
    {
        let ghost rest = all.subrange(i as int, all.len() as int);
        proof {
            assert(rest[0] == delegations[i as int]@);
            assert(rest.drop_first() =~= all.subrange(i + 1, all.len() as int));
        }
        if delegations[i].validator == *validator {
            return Some(delegations[i].amount.amount);
        }
        i += 1;
    }
    None
}

/// What removing `validator_addr` from the pool `pool_addr` does.
///
/// Only the administrator of the pool may do it, and only while the pool is at rest and
/// its validators are not being changed. It is refused where the pool does not have the
/// validator, where the validator is the last one of the pool, and where the delegations
/// were observed no later than the last step of the last era. Where nothing is delegated
/// to the validator, it leaves the set at once and the pool waits for the queries to be
/// updated. Else all that is delegated to it is redelegated to the first
/// validator that stays, provided the funds sent pay the fee: the set is unchanged until
/// the redelegation resolves.
pub open spec fn execute_rm_pool_validator_spec(
    pre: StoreView,
    info: MessageInfoView,
    pool_addr: Seq<char>,
    validator_addr: Seq<char>,
    delegations: Result<DelegatorDelegationsResponseView, Seq<char>>,
    min_ibc_fee: Result<IbcFeeView, Seq<char>>,
) -> Result<(StoreView, ResponseView), ContractErrorView> {
    if !pre.pools.contains_key(pool_addr) {
        Err(ContractErrorView::NotFound)
    } else {
        let pool = pre.pools[pool_addr];
        if info.sender != pool.admin {
            Err(ContractErrorView::Unauthorized)
        } else if pool.status != EraStatus::ActiveEnded {
            Err(ContractErrorView::EraProcessNotEnd)
        } else if pool.validator_update_status != ValidatorUpdateStatus::End {
            Err(ContractErrorView::StatusNotAllow)
        } else if !pool.validator_addrs.contains(validator_addr) {
            Err(ContractErrorView::OldValidatorNotExist)
        } else if pool.validator_addrs.len() <= 1 {
            Err(ContractErrorView::ValidatorAddressesListSize)
        } else {
            match observed(pre, pool_addr, QueryKind::Delegations, delegations) {
                Err(e) => Err(e),
                Ok(resp) => if resp.last_submitted_local_height <= pool.era_snapshot.last_step_height {
                    Err(ContractErrorView::DelegationSubmissionHeight)
                } else {
                    let left = without(pool.validator_addrs, validator_addr);
                    let amount = delegated_to(resp.delegations, validator_addr);
                    if amount is None || amount == Some(0u128) {
                        Ok(
                            (
                                with_pool(
                                    pre,
                                    pool_addr,
                                    PoolInfoView {
                                        validator_update_status: ValidatorUpdateStatus::WaitQueryUpdate,
                                        validator_addrs: left,
                                        ..pool
                                    },
                                ),
                                empty_response(),
                            ),
                        )
                    } else {
                        match check_ibc_fee_spec(min_ibc_fee, info) {
                            Err(e) => Err(e),
                            Ok(fee) => if !pre.info_of_ica_id.contains_key(pool.ica_id) {
                                Err(ContractErrorView::NotFound)
                            } else if left.len() == 0 {
                                Err(ContractErrorView::ValidatorAddressesListSize)
                            } else {
                                let ica = pre.info_of_ica_id[pool.ica_id].pool_address_ica_info;
                                let payload = SudoPayloadView {
                                    port_id: ica.ctrl_port_id,
                                    pool_addr: ica.ica_addr,
                                    message: validator_addr,
                                    tx_type: TxType::RmValidator,
                                };
                                Ok(
                                    (
                                        with_pool(
                                            registered(pre, payload),
                                            pool_addr,
                                            PoolInfoView {
                                                validator_update_status: ValidatorUpdateStatus::Start,
                                                ..pool
                                            },
                                        ),
                                        dispatch_response(
                                            submit_tx_spec(
                                                ica.ctrl_connection_id,
                                                pool.ica_id,
                                                seq![
                                                    redelegate_tx(
                                                        pool_addr,
                                                        validator_addr,
                                                        left[0],
                                                        pool.remote_denom,
                                                        amount->Some_0,
                                                    ),
                                                ],
                                                fee,
                                            ),
                                            next_id(pre.latest_reply_id, REPLY_ID_RANGE_START),
                                        ),
                                    ),
                                )
                            },
                        }
                    }
                },
            }
        }
    }
}

/// Removes `validator_addr` from the validators of the pool `pool_addr`.
///
/// `delegations` is what the chain answered to the delegations query of the pool,
/// `min_ibc_fee` what it reported as its minimal fee.
pub fn execute_rm_pool_validator(
    store: &mut Store,
    info: &MessageInfo,
    pool_addr: String,
    validator_addr: String,
    delegations: &Result<DelegatorDelegationsResponse, String>,
    min_ibc_fee: &Result<IbcFee, String>,
) -> (r: Result<Response, ContractError>)
    ensures
        agrees(
            r,
            old(store)@,
            final(store)@,
            execute_rm_pool_validator_spec(
                old(store)@,
                info@,
                pool_addr@,
                validator_addr@,
                answer_view(*delegations),
                answer_view(*min_ibc_fee),
            ),
        ),
{
    let ghost pre = store@;
    let pool_info = match store.pools.get(&pool_addr) {
        Some(p) => p,
        None => {
            return Err(ContractError::NotFound);
        },
    };
    let ghost pool = pool_info@;
    pool_info.authorize(&info.sender)?;
    pool_info.require_era_ended()?;
    pool_info.require_update_validator_ended()?;
    if !list_contains(&pool_info.validator_addrs, &validator_addr) {
        return Err(ContractError::OldValidatorNotExist);
    }
    if pool_info.validator_addrs.len() <= 1 {
        return Err(ContractError::ValidatorAddressesListSize);
    }
    let resp_delegations = query_delegation_by_addr(store, pool_addr.clone(), delegations)?;
    if resp_delegations.last_submitted_local_height <= pool_info.era_snapshot.last_step_height {
        return Err(ContractError::DelegationSubmissionHeight);
    }
    let left_validators = list_without(&pool_info.validator_addrs, &validator_addr);
    let amount = match delegated_to_of(&resp_delegations.delegations, &validator_addr) {
        Some(a) => a,
        None => 0,
    };
    if amount == 0 {
        let mut pool_new = store.pools.take(&pool_addr);
        pool_new.validator_update_status = ValidatorUpdateStatus::WaitQueryUpdate;
        pool_new.validator_addrs = left_validators;
        store.pools.save(pool_addr, pool_new);
        proof {
            assert(store@.pools =~= pre.pools.insert(
                pool_addr@,
                PoolInfoView {
                    validator_update_status: ValidatorUpdateStatus::WaitQueryUpdate,
                    validator_addrs: without(pool.validator_addrs, validator_addr@),
                    ..pool
                },
            ));
        }
        return Ok(Response::new());
    }
    let ibc_fee = check_ibc_fee(min_ibc_fee, info)?;
    let (ctrl_connection_id, ctrl_port_id, ica_addr) = match store.info_of_ica_id.get(
        &pool_info.ica_id,
    ) {
        Some(infos) => (
            infos.pool_address_ica_info.ctrl_connection_id.clone(),
            infos.pool_address_ica_info.ctrl_port_id.clone(),
            infos.pool_address_ica_info.ica_addr.clone(),
        ),
        None => {
            return Err(ContractError::NotFound);
        },
    };
    if left_validators.len() == 0 {
        return Err(ContractError::ValidatorAddressesListSize);
    }
    proof {
        assert(left_validators.deep_view()[0] == left_validators[0]@);
    }
    let mut msgs: Vec<ProtobufAny> = Vec::new();
    msgs.push(
        gen_redelegate_txs(
            pool_addr.clone(),
            validator_addr.clone(),
            left_validators[0].clone(),
            pool_info.remote_denom.clone(),
            amount,
        ),
    );
    proof {
        assert(msgs.deep_view() =~= seq![
            redelegate_tx(
                pool_addr@,
                validator_addr@,
                left_validators[0]@,
                pool.remote_denom,
                amount,
            ),
        ]);
    }
    let cosmos_msg = submit_tx(ctrl_connection_id, pool_info.ica_id.clone(), msgs, ibc_fee);
    let submsg = msg_with_sudo_callback(
        store,
        cosmos_msg,
        SudoPayload {
            port_id: ctrl_port_id,
            pool_addr: ica_addr,
            message: validator_addr,
            tx_type: TxType::RmValidator,
        },
    );
    let mut pool_new = store.pools.take(&pool_addr);
    pool_new.validator_update_status = ValidatorUpdateStatus::Start;
    store.pools.save(pool_addr, pool_new);
    proof {
        assert(store@.pools =~= pre.pools.insert(
            pool_addr@,
            PoolInfoView { validator_update_status: ValidatorUpdateStatus::Start, ..pool },
        ));
    }
    let mut resp = Response::new();
    resp.messages.push(submsg);
    proof {
        assert(resp@.messages =~= seq![submsg@]);
        assert(resp@.attributes =~= Seq::empty());
    }
    Ok(resp)
}

/// The state after the redelegation away from the validator `validator` was acknowledged:
/// the validator has left the set of the pool, and the pool waits for its queries to be
/// updated.
pub open spec fn sudo_rm_validator_callback_spec(pre: StoreView, pool_addr: Seq<char>, validator: Seq<char>) -> Result<
    (StoreView, ResponseView),
    ContractErrorView,
> {
    if !pre.pools.contains_key(pool_addr) {
        Err(ContractErrorView::NotFound)
    } else {
        let pool = pre.pools[pool_addr];
        Ok(
            (
                with_pool(
                    pre,
                    pool_addr,
                    PoolInfoView {
                        validator_addrs: without(pool.validator_addrs, validator),
                        validator_update_status: ValidatorUpdateStatus::WaitQueryUpdate,
                        ..pool
                    },
                ),
                empty_response(),
            ),
        )
    }
}

/// Takes the validator that the record names out of the set of the pool, once the
/// redelegation away from it was acknowledged.
pub fn sudo_rm_validator_callback(store: &mut Store, payload: SudoPayload) -> (r: Result<
    Response,
    ContractError,
>)
    ensures
        agrees(
            r,
            old(store)@,
            final(store)@,
            sudo_rm_validator_callback_spec(old(store)@, payload.pool_addr@, payload.message@),
        ),
{
    let ghost pre = store@;
    if !store.pools.has(&payload.pool_addr) {
        return Err(ContractError::NotFound);
    }
    let mut pool_info = store.pools.take(&payload.pool_addr);
    let ghost pool = pool_info@;
    pool_info.validator_addrs = list_without(&pool_info.validator_addrs, &payload.message);
    pool_info.validator_update_status = ValidatorUpdateStatus::WaitQueryUpdate;
    store.pools.save(payload.pool_addr, pool_info);
    proof {
        assert(store@.pools =~= pre.pools.insert(
            payload.pool_addr@,
            PoolInfoView {
                validator_addrs: without(pool.validator_addrs, payload.message@),
                validator_update_status: ValidatorUpdateStatus::WaitQueryUpdate,
                ..pool
            },
        ));
    }
    Ok(Response::new())
}

/// The state after a change of the validators of the pool `pool_addr` failed or timed
/// out: the set is as it was, and at rest.
pub open spec fn validator_update_reverted(pre: StoreView, pool_addr: Seq<char>) -> Result<
    (StoreView, ResponseView),
    ContractErrorView,
> {
    if !pre.pools.contains_key(pool_addr) {
        Err(ContractErrorView::NotFound)
    } else {
        Ok(
            (
                with_pool(
                    pre,
                    pool_addr,
                    PoolInfoView {
                        validator_update_status: ValidatorUpdateStatus::End,
                        ..pre.pools[pool_addr]
                    },
                ),
                empty_response(),
            ),
        )
    }
}

/// Puts the validator set of the pool `pool_addr` back at rest.
pub fn revert_validator_update(store: &mut Store, pool_addr: String) -> (r: Result<Response, ContractError>)
    ensures
        agrees(r, old(store)@, final(store)@, validator_update_reverted(old(store)@, pool_addr@)),
{
    let ghost pre = store@;
    if !store.pools.has(&pool_addr) {
        return Err(ContractError::NotFound);
    }
    let mut pool_info = store.pools.take(&pool_addr);
    let ghost pool = pool_info@;
    pool_info.validator_update_status = ValidatorUpdateStatus::End;
    store.pools.save(pool_addr, pool_info);
    proof {
        assert(store@.pools =~= pre.pools.insert(
            pool_addr@,
            PoolInfoView { validator_update_status: ValidatorUpdateStatus::End, ..pool },
        ));
    }
    Ok(Response::new())
}

/// Leaves the validator set as it was when the redelegation away from a validator failed
/// or timed out.
pub fn sudo_rm_validator_failed_callback(store: &mut Store, payload: SudoPayload) -> (r: Result<
    Response,
    ContractError,
>)
    ensures
        agrees(r, old(store)@, final(store)@, validator_update_reverted(old(store)@, payload.pool_addr@)),
{
    revert_validator_update(store, payload.pool_addr)
}

} // verus!
