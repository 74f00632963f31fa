//! Deposits of liquid-share tokens: a user hands in tokenized shares of a delegation to a
//! validator of the pool and is minted receipt tokens for what the shares are worth.
use vstd::prelude::*;
use crate::amount::{is_outcome, mul_div, mul_div_spec, plus, plus_spec};
use crate::chain::{
    attr,
    plain_msg,
    Coin,
    CoinView,
    CosmosMsg,
    CosmosMsgView,
    Env,
    EnvView,
    IbcFee,
    IbcFeeView,
    MessageInfo,
    MessageInfoView,
    Response,
    ResponseView,
    Validator,
    ValidatorResponse,
    ValidatorResponseView,
    ValidatorView,
};
use crate::error_conversion::{ContractError, ContractErrorView};
use crate::execute_stake::{lsd_for, lsd_for_spec};
use crate::helper::{
    agrees,
    answer_view,
    denom_trace_spec,
    dispatch_response,
    min_fee,
    min_fee_spec,
    query_denom_trace_from_ibc_denom,
    QueryDenomTraceResponse,
    QueryDenomTraceResponseView,
    DEFAULT_TIMEOUT_SECONDS,
};
use crate::query::{observed, query_validator_by_addr};
use crate::state::{
    next_id,
    registered,
    with_pool,
    EraStatus,
    PoolInfoView,
    QueryKind,
    Store,
    StoreView,
    SudoPayload,
    SudoPayloadView,
    TxType,
    ValidatorUpdateStatus,
    REPLY_ID_RANGE_START,
};
use crate::text::{
    contains_char,
    decimal,
    list_contains,
    parse_spec,
    parse_u128,
    split,
    split_spec,
    u128_to_string,
};
use crate::tx_callback::msg_with_sudo_callback;

verus! {

/// The unit in which the remote chain counts the shares of a delegation: ten to the
/// eighteenth.
pub const SHARE_UNIT: u128 = 1_000_000_000_000_000_000;

/// The first of `validators` with the address `addr`, where there is one.
pub open spec fn validator_info(validators: Seq<ValidatorView>, addr: Seq<char>) -> Option<ValidatorView>
    decreases validators.len(),
{
    if validators.len() == 0 {
        None
    } else if validators[0].operator_address == addr {
        Some(validators[0])
    } else {
        validator_info(validators.drop_first(), addr)
    }
}

fn validator_info_of<'a>(validators: &'a Vec<Validator>, addr: &String) -> (r: Option<&'a Validator>)
    ensures
        r.deep_view() == validator_info(validators.deep_view(), addr@),
{
    let mut i: usize = 0;
    let ghost all = validators.deep_view();
    proof {
        assert(all.subrange(0, all.len() as int) =~= all);
    }
    while i < validators.len()
        invariant
            0 <= i <= validators.len(),
            all == validators.deep_view(),
            validator_info(all, addr@) == validator_info(all.subrange(i as int, all.len() as int), addr@),
        decreases validators.len() - i,
    {
        let ghost rest = all.subrange(i as int, all.len() as int);
        proof {
            assert(rest[0] == validators[i as int]@);
            assert(rest.drop_first() =~= all.subrange(i + 1, all.len() as int));
        }
        if validators[i].operator_address == *addr {
            return Some(&validators[i]);
        }
        i += 1;
    }
    None
}

/// What `share_token_amount` shares of a validator are worth: the tokens of the validator
/// for each of its shares, the shares counted in whole units. Refused where the validator
/// does not state its tokens and shares as numerals.
pub open spec fn share_worth_spec(validator: ValidatorView, share_token_amount: u128) -> Result<
    u128,
    ContractErrorView,
> {
    match (
        parse_spec(validator.tokens, u128::MAX as nat),
        parse_spec(validator.delegator_shares, u128::MAX as nat),
    ) {
        (Some(tokens), Some(shares)) => mul_div_spec(
            share_token_amount,
            tokens as u128,
            (shares as u128 / SHARE_UNIT) as u128,
        ),
        _ => Err(ContractErrorView::NoValidatorInfo),
    }
}

/// Computes what `share_token_amount` shares of a validator are worth.
pub fn share_worth(validator: &Validator, share_token_amount: u128) -> (r: Result<u128, ContractError>)
    ensures
        is_outcome(r, share_worth_spec(validator@, share_token_amount)),
{
    let val_token_amount = match parse_u128(validator.tokens.as_str()) {
        Some(v) => v,
        None => {
            return Err(ContractError::NoValidatorInfo);
        },
    };
    let val_share_amount = match parse_u128(validator.delegator_shares.as_str()) {
        Some(v) => v / SHARE_UNIT,
        None => {
            return Err(ContractError::NoValidatorInfo);
        },
    };
    mul_div(share_token_amount, val_token_amount, val_share_amount)
}

/// The context that the correlation record of a deposit of liquid-share tokens carries:
/// the staker, what the shares are worth, the amount of the shares, and their
/// denomination on this chain and on the remote chain, joined by `_`.
pub open spec fn stake_lsm_message(
    neutron_address: Seq<char>,
    token_amount: u128,
    share_token_amount: u128,
    share_token_ibc_denom: Seq<char>,
    share_token_denom: Seq<char>,
) -> Seq<char> {
    neutron_address + "_"@ + decimal(token_amount as nat) + "_"@ + decimal(share_token_amount as nat)
        + "_"@ + share_token_ibc_denom + "_"@ + share_token_denom
}

/// What a deposit of liquid-share tokens into the pool `pool_addr` does.
///
/// It is refused unless the pool takes such deposits, has room for one more, is at rest
/// and not paused; unless the funds are one coin of a denomination with a path, of at
/// least the minimal stake; unless the denomination stands for shares of a validator of
/// the pool; and unless the shares are worth something. The shares are transferred to the
/// remote account of the pool; the pool itself changes only when the transfer resolves.
pub open spec fn execute_stake_lsm_spec(
    pre: StoreView,
    env: EnvView,
    info: MessageInfoView,
    neutron_address: Seq<char>,
    pool_addr: Seq<char>,
    denom_trace: Result<QueryDenomTraceResponseView, Seq<char>>,
    validators: Result<ValidatorResponseView, Seq<char>>,
    min_ibc_fee: Result<IbcFeeView, Seq<char>>,
) -> Result<(StoreView, ResponseView), ContractErrorView> {
    if !pre.pools.contains_key(pool_addr) {
        Err(ContractErrorView::NotFound)
    } else {
        let pool = pre.pools[pool_addr];
        if !pool.lsm_support {
            Err(ContractErrorView::LsmStakeNotSupport)
        } else if pool.share_tokens.len() >= pool.lsm_pending_limit {
            Err(ContractErrorView::LsmPendingStakeOverLimit)
        } else if pool.status != EraStatus::ActiveEnded {
            Err(ContractErrorView::EraProcessNotEnd)
        } else if pool.validator_update_status != ValidatorUpdateStatus::End {
            Err(ContractErrorView::StatusNotAllow)
        } else if !pre.info_of_ica_id.contains_key(pool.ica_id) {
            Err(ContractErrorView::NotFound)
        } else if pool.paused {
            Err(ContractErrorView::PoolIsPaused)
        } else if info.funds.len() != 1 || !info.funds[0].denom.contains('/') {
            Err(ContractErrorView::ParamsErrorFundsNotMatch)
        } else if info.funds[0].amount < pool.minimal_stake {
            Err(ContractErrorView::LessThanMinimalStake)
        } else {
            let share = info.funds[0];
            match denom_trace_spec(share.denom, denom_trace) {
                Err(e) => Err(e),
                Ok(trace) => {
                    let path_parts = split_spec(trace.denom_trace.path, '/');
                    let denom_parts = split_spec(trace.denom_trace.base_denom, '/');
                    if path_parts.len() != 2 {
                        Err(ContractErrorView::DenomPathNotMatch)
                    } else if denom_parts.len() != 2 {
                        Err(ContractErrorView::DenomTraceNotMatch)
                    } else if !pool.validator_addrs.contains(denom_parts[0]) {
                        Err(ContractErrorView::ValidatorNotSupport)
                    } else {
                        match observed(pre, pool_addr, QueryKind::Validators, validators) {
                            Err(e) => Err(e),
                            Ok(resp) => match validator_info(resp.validators, denom_parts[0]) {
                                None => Err(ContractErrorView::NoValidatorInfo),
                                Some(validator) => match share_worth_spec(validator, share.amount) {
                                    Err(e) => Err(e),
                                    Ok(token_amount) => if token_amount == 0 {
                                        Err(ContractErrorView::TokenAmountZero)
                                    } else {
                                        match min_fee_spec(min_ibc_fee) {
                                            Err(e) => Err(e),
                                            Ok(fee) => if env.block_time_nanos + DEFAULT_TIMEOUT_SECONDS
                                                * 1_000_000_000 > u64::MAX {
                                                Err(ContractErrorView::Overflow)
                                            } else {
                                                let payload = SudoPayloadView {
                                                    port_id: pre.info_of_ica_id[pool.ica_id].pool_address_ica_info.ctrl_port_id,
                                                    message: stake_lsm_message(
                                                        neutron_address,
                                                        token_amount,
                                                        share.amount,
                                                        share.denom,
                                                        trace.denom_trace.base_denom,
                                                    ),
                                                    pool_addr,
                                                    tx_type: TxType::StakeLsm,
                                                };
                                                Ok(
                                                    (
                                                        registered(pre, payload),
                                                        dispatch_response(
                                                            CosmosMsgView::IbcTransfer {
                                                                source_port: "transfer"@,
                                                                source_channel: path_parts[1],
                                                                sender: env.contract_address,
                                                                receiver: pool_addr,
                                                                token: share,
                                                                timeout_timestamp: (env.block_time_nanos
                                                                    + DEFAULT_TIMEOUT_SECONDS
                                                                    * 1_000_000_000) as u64,
                                                                memo: Seq::empty(),
                                                                fee,
                                                            },
                                                            next_id(
                                                                pre.latest_reply_id,
                                                                REPLY_ID_RANGE_START,
                                                            ),
                                                        ),
                                                    ),
                                                )
                                            },
                                        }
                                    },
                                },
                            },
                        }
                    }
                },
            }
        }
    }
}

/// Deposits the liquid-share tokens sent with the call into the pool `pool_addr`, for
/// receipt tokens to be minted to `neutron_address`.
///
/// `denom_trace` is what the chain answered to the question what the denomination of the
/// funds stands for, `validators` what it answered to the validators query of the pool,
/// `min_ibc_fee` what it reported as its minimal fee.
pub fn execute_stake_lsm(
    store: &mut Store,
    env: &Env,
    info: &MessageInfo,
    neutron_address: String,
    pool_addr: String,
    denom_trace: &Result<QueryDenomTraceResponse, String>,
    validators: &Result<ValidatorResponse, String>,
    min_ibc_fee: &Result<IbcFee, String>,
) -> (r: Result<Response, ContractError>)
    ensures
        agrees(
            r,
            old(store)@,
            final(store)@,
            execute_stake_lsm_spec(
                old(store)@,
                env@,
                info@,
                neutron_address@,
                pool_addr@,
                answer_view(*denom_trace),
                answer_view(*validators),
                answer_view(*min_ibc_fee),
            ),
        ),
{
    let ghost pre = store@;
    let pool_info = match store.pools.get(&pool_addr) {
        Some(p) => p,
        None => {
            return Err(ContractError::NotFound);
        },
    };
    if !pool_info.lsm_support {
        return Err(ContractError::LsmStakeNotSupport);
    }
    if pool_info.share_tokens.len() as u64 >= pool_info.lsm_pending_limit {
        return Err(ContractError::LsmPendingStakeOverLimit);
    }
    pool_info.require_era_ended()?;
    pool_info.require_update_validator_ended()?;
    let ctrl_port_id = match store.info_of_ica_id.get(&pool_info.ica_id) {
        Some(infos) => infos.pool_address_ica_info.ctrl_port_id.clone(),
        None => {
            return Err(ContractError::NotFound);
        },
    };
    if pool_info.paused {
        return Err(ContractError::PoolIsPaused);
    }
    if info.funds.len() != 1 || !contains_char(info.funds[0].denom.as_str(), '/') {
        return Err(ContractError::ParamsErrorFundsNotMatch);
    }
    let share_token_amount = info.funds[0].amount;
    if share_token_amount < pool_info.minimal_stake {
        return Err(ContractError::LessThanMinimalStake);
    }
    let share_token_ibc_denom = info.funds[0].denom.clone();
    let trace = query_denom_trace_from_ibc_denom(&share_token_ibc_denom, denom_trace)?;
    let share_token_denom = trace.denom_trace.base_denom.clone();
    let path_parts = split(trace.denom_trace.path.as_str(), '/');
    if path_parts.len() != 2 {
        return Err(ContractError::DenomPathNotMatch);
    }
    let denom_trace_parts = split(share_token_denom.as_str(), '/');
    if denom_trace_parts.len() != 2 {
        return Err(ContractError::DenomTraceNotMatch);
    }
    proof {
        assert(path_parts.deep_view()[1] == path_parts[1]@);
        assert(denom_trace_parts.deep_view()[0] == denom_trace_parts[0]@);
    }
    let channel_id_of_share_token = path_parts[1].clone();
    let validator_addr = denom_trace_parts[0].clone();
    if !list_contains(&pool_info.validator_addrs, &validator_addr) {
        return Err(ContractError::ValidatorNotSupport);
    }
    let resp_validators = query_validator_by_addr(store, pool_addr.clone(), validators)?;
    let validator = match validator_info_of(&resp_validators.validators, &validator_addr) {
        Some(v) => v,
        None => {
            return Err(ContractError::NoValidatorInfo);
        },
    };
    let token_amount = share_worth(validator, share_token_amount)?;
    if token_amount == 0 {
        return Err(ContractError::TokenAmountZero);
    }
    let fee = min_fee(min_ibc_fee)?;
    let timeout_timestamp = match DEFAULT_TIMEOUT_SECONDS.checked_mul(1_000_000_000) {
        Some(span) => match env.block_time_nanos.checked_add(span) {
            Some(t) => t,
            None => {
                return Err(ContractError::Overflow);
            },
        },
        None => {
            return Err(ContractError::Overflow);
        },
    };
    let transfer_share_token_msg = CosmosMsg::IbcTransfer {
        source_port: String::from_str("transfer"),
        source_channel: channel_id_of_share_token,
        sender: env.contract_address.clone(),
        receiver: pool_addr.clone(),
        token: info.funds[0].dup(),
        timeout_timestamp,
        memo: String::new(),
        fee,
    };
    let mut message = neutron_address;
    message.append("_");
    message.append(u128_to_string(token_amount).as_str());
    message.append("_");
    message.append(u128_to_string(share_token_amount).as_str());
    message.append("_");
    message.append(share_token_ibc_denom.as_str());
    message.append("_");
    message.append(share_token_denom.as_str());
    let sub_msg = msg_with_sudo_callback(
        store,
        transfer_share_token_msg,
        SudoPayload { port_id: ctrl_port_id, message, pool_addr, tx_type: TxType::StakeLsm },
    );
    let mut resp = Response::new();
    resp.messages.push(sub_msg);
    proof {
        assert(resp@.messages =~= seq![sub_msg@]);
        assert(resp@.attributes =~= Seq::empty());
    }
    Ok(resp)
}

/// The state after the transfer of liquid-share tokens that the context `message`
/// describes was acknowledged: what the shares are worth is added to the active amount,
/// receipt tokens are minted for it to the staker, and the shares wait for redemption.
pub open spec fn sudo_stake_lsm_callback_spec(pre: StoreView, pool_addr: Seq<char>, message: Seq<char>) -> Result<
    (StoreView, ResponseView),
    ContractErrorView,
> {
    let parts = split_spec(message, '_');
    if parts.len() != 5 {
        Err(ContractErrorView::UnsupportedMessage(message))
    } else {
        match (parse_spec(parts[1], u128::MAX as nat), parse_spec(parts[2], u128::MAX as nat)) {
            (Some(token_amount), Some(share_token_amount)) => if !pre.pools.contains_key(pool_addr) {
                Err(ContractErrorView::NotFound)
            } else {
                let pool = pre.pools[pool_addr];
                match plus_spec(pool.active, token_amount as u128) {
                    Err(e) => Err(e),
                    Ok(active) => match lsd_for_spec(token_amount as u128, pool.rate) {
                        Err(e) => Err(e),
                        Ok(lsd_token_amount) => match plus_spec(
                            pool.total_lsd_token_amount,
                            lsd_token_amount,
                        ) {
                            Err(e) => Err(e),
                            Ok(total_lsd_token_amount) => Ok(
                                (
                                    with_pool(
                                        pre,
                                        pool_addr,
                                        PoolInfoView {
                                            active,
                                            total_lsd_token_amount,
                                            share_tokens: pool.share_tokens.push(
                                                CoinView {
                                                    denom: parts[4],
                                                    amount: share_token_amount as u128,
                                                },
                                            ),
                                            ..pool
                                        },
                                    ),
                                    ResponseView {
                                        messages: seq![
                                            plain_msg(
                                                CosmosMsgView::Mint {
                                                    contract_addr: pool.lsd_token,
                                                    recipient: parts[0],
                                                    amount: lsd_token_amount,
                                                },
                                            ),
                                        ],
                                        attributes: seq![
                                            attr("action"@, "stake_lsm"@),
                                            attr("pool"@, pool_addr),
                                            attr("staker"@, parts[0]),
                                            attr("token_amount"@, decimal(token_amount)),
                                            attr("lsd_token_amount"@, decimal(lsd_token_amount as nat)),
                                        ],
                                    },
                                ),
                            ),
                        },
                    },
                }
            },
            _ => Err(ContractErrorView::UnsupportedMessage(message)),
        }
    }
}

/// Credits a deposit of liquid-share tokens once their transfer was acknowledged.
pub fn sudo_stake_lsm_callback(store: &mut Store, payload: SudoPayload) -> (r: Result<
    Response,
    ContractError,
>)
    ensures
        agrees(
            r,
            old(store)@,
            final(store)@,
            sudo_stake_lsm_callback_spec(old(store)@, payload.pool_addr@, payload.message@),
        ),
{
    let ghost pre = store@;
    let parts = split(payload.message.as_str(), '_');
    if parts.len() != 5 {
        return Err(ContractError::UnsupportedMessage(payload.message));
    }
    proof {
        assert(forall|i: int| 0 <= i < 5 ==> parts.deep_view()[i] == (#[trigger] parts[i])@);
    }
    let staker_neutron_addr = parts[0].clone();
    let token_amount = match parse_u128(parts[1].as_str()) {
        Some(v) => v,
        None => {
            return Err(ContractError::UnsupportedMessage(payload.message));
        },
    };
    let share_token_amount = match parse_u128(parts[2].as_str()) {
        Some(v) => v,
        None => {
            return Err(ContractError::UnsupportedMessage(payload.message));
        },
    };
    let share_token_denom = parts[4].clone();
    let pool_info = match store.pools.get(&payload.pool_addr) {
        Some(p) => p,
        None => {
            return Err(ContractError::NotFound);
        },
    };
    let ghost pool = pool_info@;
    let active = plus(pool_info.active, token_amount)?;
    let lsd_token_amount = lsd_for(token_amount, pool_info.rate)?;
    let total_lsd_token_amount = plus(pool_info.total_lsd_token_amount, lsd_token_amount)?;
    let msg = CosmosMsg::Mint {
        contract_addr: pool_info.lsd_token.clone(),
        recipient: staker_neutron_addr.clone(),
        amount: lsd_token_amount,
    };
    let mut pool_new = store.pools.take(&payload.pool_addr);
    pool_new.active = active;
    pool_new.total_lsd_token_amount = total_lsd_token_amount;
    let ghost had = pool_new.share_tokens.deep_view();
    pool_new.share_tokens.push(Coin { denom: share_token_denom, amount: share_token_amount });
    proof {
        assert(pool_new.share_tokens.deep_view() =~= had.push(
            CoinView { denom: parts[4]@, amount: share_token_amount },
        ));
    }
    store.pools.save(payload.pool_addr.clone(), pool_new);
    proof {
        assert(store@.pools =~= pre.pools.insert(
            payload.pool_addr@,
            PoolInfoView {
                active,
                total_lsd_token_amount,
                share_tokens: pool.share_tokens.push(
                    CoinView { denom: parts[4]@, amount: share_token_amount },
                ),
                ..pool
            },
        ));
    }
    let mut resp = Response::new();
    resp.add_message(msg);
    resp.add_attribute("action", String::from_str("stake_lsm"));
    resp.add_attribute("pool", payload.pool_addr);
    resp.add_attribute("staker", staker_neutron_addr);
    resp.add_attribute("token_amount", u128_to_string(token_amount));
    resp.add_attribute("lsd_token_amount", u128_to_string(lsd_token_amount));
    proof {
        let ps = split_spec(payload.message@, '_');
        crate::text::lemma_decimal_is_numeral(token_amount as nat);
        assert(resp@.messages =~= seq![plain_msg(msg@)]);
        assert(resp@.attributes =~= seq![
            attr("action"@, "stake_lsm"@),
            attr("pool"@, payload.pool_addr@),
            attr("staker"@, ps[0]),
            attr("token_amount"@, decimal(token_amount as nat)),
            attr("lsd_token_amount"@, decimal(lsd_token_amount as nat)),
        ]);
    }
    Ok(resp)
}

/// The response to a transfer of liquid-share tokens that failed or timed out: the
/// shares that the context `message` names are sent back to the staker.
pub open spec fn sudo_stake_lsm_failed_callback_spec(message: Seq<char>) -> Result<
    ResponseView,
    ContractErrorView,
> {
    let parts = split_spec(message, '_');
    if parts.len() != 5 {
        Err(ContractErrorView::UnsupportedMessage(message))
    } else {
        match parse_spec(parts[2], u128::MAX as nat) {
            None => Err(ContractErrorView::UnsupportedMessage(message)),
            Some(share_token_amount) => Ok(
                ResponseView {
                    messages: seq![
                        plain_msg(
                            CosmosMsgView::BankSend {
                                to_address: parts[0],
                                amount: seq![
                                    CoinView { denom: parts[3], amount: share_token_amount as u128 },
                                ],
                            },
                        ),
                    ],
                    attributes: Seq::empty(),
                },
            ),
        }
    }
}

/// Sends the liquid-share tokens of a deposit back to the staker when their transfer
/// failed or timed out.
pub fn sudo_stake_lsm_failed_callback(payload: SudoPayload) -> (r: Result<Response, ContractError>)
    ensures
        crate::helper::has_outcome(r, sudo_stake_lsm_failed_callback_spec(payload.message@)),
{
    let parts = split(payload.message.as_str(), '_');
    if parts.len() != 5 {
        return Err(ContractError::UnsupportedMessage(payload.message));
    }
    proof {
        assert(forall|i: int| 0 <= i < 5 ==> parts.deep_view()[i] == (#[trigger] parts[i])@);
    }
    let share_token_amount = match parse_u128(parts[2].as_str()) {
        Some(v) => v,
        None => {
            return Err(ContractError::UnsupportedMessage(payload.message));
        },
    };
    let mut amount: Vec<Coin> = Vec::new();
    amount.push(Coin { denom: parts[3].clone(), amount: share_token_amount });
    proof {
        assert(amount.deep_view() =~= seq![CoinView { denom: parts[3]@, amount: share_token_amount }]);
    }
    let msg = CosmosMsg::BankSend { to_address: parts[0].clone(), amount };
    let mut resp = Response::new();
    resp.add_message(msg);
    proof {
        assert(resp@.messages =~= seq![plain_msg(msg@)]);
    }
    Ok(resp)
}

} // verus!
