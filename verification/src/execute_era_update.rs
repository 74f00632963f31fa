//! The first step of an era: the era number advances, what the pool holds is put down in
//! the snapshot of the era, and what was deposited is transferred to the remote account
//! of the pool.
use vstd::prelude::*;
use crate::chain::{
    amount_of,
    amount_of_spec,
    reply_msg,
    Coin,
    CoinView,
    CosmosMsg,
    CosmosMsgView,
    Env,
    EnvView,
    IbcFee,
    IbcFeeView,
    Response,
    ResponseView,
};
use crate::error_conversion::{ContractError, ContractErrorView};
use crate::helper::{
    add_messages,
    agrees,
    answer_view,
    get_update_pool_icq_msgs,
    min_fee,
    min_fee_spec,
    plain_msgs,
    update_pool_icq_msgs_spec,
    DEFAULT_FAST_PERIOD,
    DEFAULT_TIMEOUT_SECONDS,
};
use crate::state::{
    next_id,
    registered,
    with_pool,
    EraSnapshot,
    EraStatus,
    PoolInfoView,
    Store,
    StoreView,
    SudoPayload,
    SudoPayloadView,
    TxType,
    ValidatorUpdateStatus,
    REPLY_ID_RANGE_START,
};
use crate::text::{decimal, join, join_spec, parse_spec, parse_u128, parse_u64, split, split_spec, u128_to_string, u64_to_string};
use crate::tx_callback::msg_with_sudo_callback;

verus! {

/// The era in which the time `seconds` falls, for eras of `era_seconds` counted from
/// `offset`: `seconds / era_seconds + offset`, held between zero and the largest number
/// of 64 bits.
pub open spec fn era_at(seconds: u64, era_seconds: u64, offset: i64) -> u64 {
    let e = seconds as int / era_seconds as int + offset;
    if e < 0 {
        0
    } else if e > u64::MAX {
        u64::MAX
    } else {
        e as u64
    }
}

/// The era in which the time `seconds` falls; refused where eras have no length.
pub open spec fn current_era_spec(seconds: u64, era_seconds: u64, offset: i64) -> Result<
    u64,
    ContractErrorView,
> {
    if era_seconds == 0 {
        Err(ContractErrorView::DivideByZero)
    } else {
        Ok(era_at(seconds, era_seconds, offset))
    }
}

/// Computes the era in which the time `seconds` falls.
pub fn current_era(seconds: u64, era_seconds: u64, offset: i64) -> (r: Result<u64, ContractError>)
    ensures
        crate::amount::is_outcome(r, current_era_spec(seconds, era_seconds, offset)),
{
    if era_seconds == 0 {
        return Err(ContractError::DivideByZero);
    }
    let e: i128 = (seconds / era_seconds) as i128 + offset as i128;
    if e < 0 {
        Ok(0)
    } else if e > u64::MAX as i128 {
        Ok(u64::MAX)
    } else {
        Ok(e as u64)
    }
}

/// The context that the correlation record of an era update carries: the snapshot that
/// the update replaces, as six decimal numerals joined by `_`.
pub open spec fn snapshot_text(snap: EraSnapshot) -> Seq<char> {
    join_spec(
        seq![
            decimal(snap.era as nat),
            decimal(snap.bond as nat),
            decimal(snap.unbond as nat),
            decimal(snap.active as nat),
            decimal(snap.restake_amount as nat),
            decimal(snap.last_step_height as nat),
        ],
        "_"@,
    )
}

/// The snapshot that a context written by `snapshot_text` holds, where `message` is one.
pub open spec fn snapshot_of_text(message: Seq<char>) -> Option<EraSnapshot> {
    let parts = split_spec(message, '_');
    if parts.len() != 6 {
        None
    } else {
        match (
            parse_spec(parts[0], u64::MAX as nat),
            parse_spec(parts[1], u128::MAX as nat),
            parse_spec(parts[2], u128::MAX as nat),
            parse_spec(parts[3], u128::MAX as nat),
            parse_spec(parts[4], u128::MAX as nat),
            parse_spec(parts[5], u64::MAX as nat),
        ) {
            (Some(era), Some(bond), Some(unbond), Some(active), Some(restake), Some(height)) => Some(
                EraSnapshot {
                    era: era as u64,
                    bond: bond as u128,
                    unbond: unbond as u128,
                    active: active as u128,
                    restake_amount: restake as u128,
                    last_step_height: height as u64,
                },
            ),
            _ => None,
        }
    }
}

/// A snapshot is read back from its text as it was written.
pub proof fn lemma_snapshot_round_trip(snap: EraSnapshot)
    ensures
        snapshot_of_text(snapshot_text(snap)) == Some(snap),
{
    let parts = seq![
        decimal(snap.era as nat),
        decimal(snap.bond as nat),
        decimal(snap.unbond as nat),
        decimal(snap.active as nat),
        decimal(snap.restake_amount as nat),
        decimal(snap.last_step_height as nat),
    ];
    reveal_strlit("_");
    assert("_"@ =~= seq!['_']);
    crate::text::lemma_decimal_is_free_of(snap.era as nat, '_');
    crate::text::lemma_decimal_is_free_of(snap.bond as nat, '_');
    crate::text::lemma_decimal_is_free_of(snap.unbond as nat, '_');
    crate::text::lemma_decimal_is_free_of(snap.active as nat, '_');
    crate::text::lemma_decimal_is_free_of(snap.restake_amount as nat, '_');
    crate::text::lemma_decimal_is_free_of(snap.last_step_height as nat, '_');
    crate::text::lemma_split_join(parts, '_');
    crate::text::lemma_decimal_is_numeral(snap.era as nat);
    crate::text::lemma_decimal_is_numeral(snap.bond as nat);
    crate::text::lemma_decimal_is_numeral(snap.unbond as nat);
    crate::text::lemma_decimal_is_numeral(snap.active as nat);
    crate::text::lemma_decimal_is_numeral(snap.restake_amount as nat);
    crate::text::lemma_decimal_is_numeral(snap.last_step_height as nat);
    let read = split_spec(snapshot_text(snap), '_');
    assert(read == parts);
    assert(read[0] == decimal(snap.era as nat));
    assert(read[1] == decimal(snap.bond as nat));
    assert(read[2] == decimal(snap.unbond as nat));
    assert(read[3] == decimal(snap.active as nat));
    assert(read[4] == decimal(snap.restake_amount as nat));
    assert(read[5] == decimal(snap.last_step_height as nat));
}

fn write_snapshot(snap: &EraSnapshot) -> (s: String)
    ensures
        s@ == snapshot_text(*snap),
{
    let mut parts: Vec<String> = Vec::new();
    parts.push(u64_to_string(snap.era));
    parts.push(u128_to_string(snap.bond));
    parts.push(u128_to_string(snap.unbond));
    parts.push(u128_to_string(snap.active));
    parts.push(u128_to_string(snap.restake_amount));
    parts.push(u64_to_string(snap.last_step_height));
    proof {
        assert(parts.deep_view() =~= seq![
            decimal(snap.era as nat),
            decimal(snap.bond as nat),
            decimal(snap.unbond as nat),
            decimal(snap.active as nat),
            decimal(snap.restake_amount as nat),
            decimal(snap.last_step_height as nat),
        ]);
    }
    join(&parts, "_")
}

fn read_snapshot(message: &String) -> (r: Option<EraSnapshot>)
    ensures
        r == snapshot_of_text(message@),
{
    let parts = split(message.as_str(), '_');
    if parts.len() != 6 {
        return None;
    }
    proof {
        assert(forall|i: int| 0 <= i < 6 ==> parts.deep_view()[i] == (#[trigger] parts[i])@);
    }
    let era = parse_u64(parts[0].as_str());
    let bond = parse_u128(parts[1].as_str());
    let unbond = parse_u128(parts[2].as_str());
    let active = parse_u128(parts[3].as_str());
    let restake = parse_u128(parts[4].as_str());
    let height = parse_u64(parts[5].as_str());
    match (era, bond, unbond, active, restake, height) {
        (Some(era), Some(bond), Some(unbond), Some(active), Some(restake_amount), Some(last_step_height)) => Some(
            EraSnapshot { era, bond, unbond, active, restake_amount, last_step_height },
        ),
        _ => None,
    }
}

/// The pool as an era update leaves it while the step is under way: the next era, in
/// `EraUpdateStarted`, with what it holds put down in the snapshot.
pub open spec fn pool_in_new_era(pool: PoolInfoView, new_era: u64, height: u64) -> PoolInfoView {
    PoolInfoView {
        status: EraStatus::EraUpdateStarted,
        era: new_era,
        era_snapshot: EraSnapshot {
            era: new_era,
            bond: pool.bond,
            unbond: pool.unbond,
            active: pool.active,
            last_step_height: height,
            restake_amount: 0,
        },
        ..pool
    }
}

/// The era that follows the era of `pool` when the time stands in `current`: `current`
/// for a pool that was in no era, else the next one.
pub open spec fn next_era(pool: PoolInfoView, current: u64) -> u64 {
    if pool.era == 0 {
        current
    } else {
        (pool.era + 1) as u64
    }
}

/// The message that transfers `amount` of the deposits of the pool to its remote account.
pub open spec fn deposit_transfer(
    pool: PoolInfoView,
    pool_addr: Seq<char>,
    env: EnvView,
    amount: u128,
    timeout_timestamp: u64,
    fee: IbcFeeView,
) -> CosmosMsgView {
    CosmosMsgView::IbcTransfer {
        source_port: "transfer"@,
        source_channel: pool.channel_id_of_ibc_denom,
        sender: env.contract_address,
        receiver: pool_addr,
        token: CoinView { denom: pool.ibc_denom, amount },
        timeout_timestamp,
        memo: Seq::empty(),
        fee,
    }
}

/// What the era update of the pool `pool_addr` does.
///
/// It is refused for a paused pool, for a pool that is not at rest or whose validators
/// are being changed, for a pool that holds nothing, and while the time still stands in
/// the era of the pool. The queries of the pool are sped up. Where nothing was deposited,
/// or the contract holds nothing of the denomination of the pool, the step completes at
/// once; else what the contract holds is transferred to the remote account, and the pool
/// waits in `EraUpdateStarted` for the resolution.
pub open spec fn execute_era_update_spec(
    pre: StoreView,
    env: EnvView,
    pool_addr: Seq<char>,
    balances: Result<Seq<CoinView>, Seq<char>>,
    min_ibc_fee: Result<IbcFeeView, Seq<char>>,
) -> Result<(StoreView, ResponseView), ContractErrorView> {
    if !pre.pools.contains_key(pool_addr) {
        Err(ContractErrorView::NotFound)
    } else {
        let pool = pre.pools[pool_addr];
        if pool.paused {
            Err(ContractErrorView::PoolIsPaused)
        } else if pool.status != EraStatus::ActiveEnded || pool.validator_update_status
            != ValidatorUpdateStatus::End {
            Err(ContractErrorView::StatusNotAllow)
        } else if pool.active == 0 && pool.bond == 0 && pool.unbond == 0 {
            Err(ContractErrorView::StatusNotAllow)
        } else {
            match current_era_spec((env.block_time_nanos / 1_000_000_000) as u64, pool.era_seconds, pool.offset) {
                Err(e) => Err(e),
                Ok(current) => if current <= pool.era {
                    Err(ContractErrorView::AlreadyLatestEra)
                } else {
                    let started = pool_in_new_era(pool, next_era(pool, current), env.block_height);
                    let ended = PoolInfoView { status: EraStatus::EraUpdateEnded, ..started };
                    match update_pool_icq_msgs_spec(pre, pool_addr, pool.ica_id, DEFAULT_FAST_PERIOD) {
                        Err(e) => Err(e),
                        Ok(icq_msgs) => {
                            let quiet = ResponseView {
                                messages: plain_msgs(icq_msgs),
                                attributes: Seq::empty(),
                            };
                            if pool.bond == 0 {
                                Ok((with_pool(pre, pool_addr, ended), quiet))
                            } else {
                                match balances {
                                    Err(t) => Err(ContractErrorView::QueryFailed(t)),
                                    Ok(coins) => if amount_of_spec(coins, pool.ibc_denom) == 0 {
                                        Ok((with_pool(pre, pool_addr, ended), quiet))
                                    } else {
                                        match min_fee_spec(min_ibc_fee) {
                                            Err(e) => Err(e),
                                            Ok(fee) => if env.block_time_nanos + DEFAULT_TIMEOUT_SECONDS
                                                * 1_000_000_000 > u64::MAX {
                                                Err(ContractErrorView::Overflow)
                                            } else if !pre.info_of_ica_id.contains_key(pool.ica_id) {
                                                Err(ContractErrorView::NotFound)
                                            } else {
                                                let payload = SudoPayloadView {
                                                    port_id: pre.info_of_ica_id[pool.ica_id].pool_address_ica_info.ctrl_port_id,
                                                    pool_addr,
                                                    message: snapshot_text(pool.era_snapshot),
                                                    tx_type: TxType::EraUpdate,
                                                };
                                                Ok(
                                                    (
                                                        with_pool(
                                                            registered(pre, payload),
                                                            pool_addr,
                                                            started,
                                                        ),
                                                        ResponseView {
                                                            messages: plain_msgs(icq_msgs).push(
                                                                reply_msg(
                                                                    deposit_transfer(
                                                                        pool,
                                                                        pool_addr,
                                                                        env,
                                                                        amount_of_spec(
                                                                            coins,
                                                                            pool.ibc_denom,
                                                                        ),
                                                                        (env.block_time_nanos
                                                                            + DEFAULT_TIMEOUT_SECONDS
                                                                            * 1_000_000_000) as u64,
                                                                        fee,
                                                                    ),
                                                                    next_id(
                                                                        pre.latest_reply_id,
                                                                        REPLY_ID_RANGE_START,
                                                                    ),
                                                                ),
                                                            ),
                                                            attributes: Seq::empty(),
                                                        },
                                                    ),
                                                )
                                            },
                                        }
                                    },
                                }
                            }
                        },
                    }
                },
            }
        }
    }
}

/// Begins the next era of the pool `pool_addr`.
///
/// `balances` is what the chain reported as the balances of the contract, `min_ibc_fee`
/// what it reported as its minimal fee. Where the call succeeds, the era of the pool is
/// greater than it was.
pub fn execute_era_update(
    store: &mut Store,
    env: &Env,
    pool_addr: String,
    balances: &Result<Vec<Coin>, String>,
    min_ibc_fee: &Result<IbcFee, String>,
) -> (r: Result<Response, ContractError>)
    ensures
        agrees(
            r,
            old(store)@,
            final(store)@,
            execute_era_update_spec(
                old(store)@,
                env@,
                pool_addr@,
                answer_view(*balances),
                answer_view(*min_ibc_fee),
            ),
        ),
        r is Ok ==> final(store)@.pools.contains_key(pool_addr@) && final(store)@.pools[pool_addr@].era
            > old(store)@.pools[pool_addr@].era,
{
    let ghost pre = store@;
    let pool_info = match store.pools.get(&pool_addr) {
        Some(p) => p,
        None => {
            return Err(ContractError::NotFound);
        },
    };
    let ghost pool = pool_info@;
    if pool_info.paused {
        return Err(ContractError::PoolIsPaused);
    }
    if pool_info.status != EraStatus::ActiveEnded || pool_info.validator_update_status
        != ValidatorUpdateStatus::End {
        return Err(ContractError::StatusNotAllow);
    }
    if pool_info.active == 0 && pool_info.bond == 0 && pool_info.unbond == 0 {
        return Err(ContractError::StatusNotAllow);
    }
    let current = current_era(env.seconds(), pool_info.era_seconds, pool_info.offset)?;
    if current <= pool_info.era {
        return Err(ContractError::AlreadyLatestEra);
    }
    let new_era = if pool_info.era == 0 {
        current
    } else {
        pool_info.era + 1
    };
    let snapshot = EraSnapshot {
        era: new_era,
        bond: pool_info.bond,
        unbond: pool_info.unbond,
        active: pool_info.active,
        last_step_height: env.block_height,
        restake_amount: 0,
    };
    let prior = write_snapshot(&pool_info.era_snapshot);
    let icq_msgs = get_update_pool_icq_msgs(
        store,
        pool_addr.clone(),
        pool_info.ica_id.clone(),
        DEFAULT_FAST_PERIOD,
    )?;
    let ghost icq = icq_msgs.deep_view();
    let bond = pool_info.bond;

    let mut transfer: Option<(CosmosMsg, String)> = None;
    if bond != 0 {
        let amount = match balances {
            Ok(coins) => amount_of(coins, &pool_info.ibc_denom),
            Err(t) => {
                return Err(ContractError::QueryFailed(t.clone()));
            },
        };
        if amount != 0 {
            let fee = min_fee(min_ibc_fee)?;
            let timeout_timestamp = match DEFAULT_TIMEOUT_SECONDS.checked_mul(1_000_000_000) {
                Some(span) => match env.block_time_nanos.checked_add(span) {
                    Some(t) => t,
                    None => {
                        return Err(ContractError::Overflow);
                    },
                },
                None => {
                    return Err(ContractError::Overflow);
                },
            };
            let msg = CosmosMsg::IbcTransfer {
                source_port: String::from_str("transfer"),
                source_channel: pool_info.channel_id_of_ibc_denom.clone(),
                sender: env.contract_address.clone(),
                receiver: pool_addr.clone(),
                token: Coin { denom: pool_info.ibc_denom.clone(), amount },
                timeout_timestamp,
                memo: String::new(),
                fee,
            };
            let port_id = match store.info_of_ica_id.get(&pool_info.ica_id) {
                Some(infos) => infos.pool_address_ica_info.ctrl_port_id.clone(),
                None => {
                    return Err(ContractError::NotFound);
                },
            };
            transfer = Some((msg, port_id));
        }
    }
    let mut resp = Response::new();
    add_messages(&mut resp, icq_msgs);
    proof {
        assert(resp@.messages =~= plain_msgs(icq));
    }
    let mut pool_new = store.pools.take(&pool_addr);
    pool_new.era = new_era;
    pool_new.era_snapshot = snapshot;
    match transfer {
        None => {
            pool_new.status = EraStatus::EraUpdateEnded;
            store.pools.save(pool_addr, pool_new);
            proof {
                assert(store@.pools =~= pre.pools.insert(
                    pool_addr@,
                    PoolInfoView {
                        status: EraStatus::EraUpdateEnded,
                        ..pool_in_new_era(pool, new_era, env.block_height)
                    },
                ));
            }
        },
        Some((msg, port_id)) => {
            pool_new.status = EraStatus::EraUpdateStarted;
            store.pools.save(pool_addr.clone(), pool_new);
            let submsg = msg_with_sudo_callback(
                store,
                msg,
                SudoPayload { port_id, pool_addr, message: prior, tx_type: TxType::EraUpdate },
            );
            proof {
                assert(store@.pools =~= pre.pools.insert(
                    pool_addr@,
                    pool_in_new_era(pool, new_era, env.block_height),
                ));
            }
            let ghost before = resp@;
            resp.messages.push(submsg);
            proof {
                assert(resp@.messages =~= before.messages.push(submsg@));
                assert(resp@.attributes =~= before.attributes);
            }
        },
    }
    Ok(resp)
}

/// The state after the transfer of an era update was acknowledged: the pool has ended
/// its era update at the height `height`.
pub open spec fn sudo_era_update_callback_spec(pre: StoreView, height: u64, pool_addr: Seq<char>) -> Result<
    (StoreView, ResponseView),
    ContractErrorView,
> {
    if !pre.pools.contains_key(pool_addr) {
        Err(ContractErrorView::NotFound)
    } else {
        let pool = pre.pools[pool_addr];
        Ok(
            (
                with_pool(
                    pre,
                    pool_addr,
                    PoolInfoView {
                        status: EraStatus::EraUpdateEnded,
                        era_snapshot: EraSnapshot { last_step_height: height, ..pool.era_snapshot },
                        ..pool
                    },
                ),
                crate::helper::empty_response(),
            ),
        )
    }
}

/// Completes the era update of a pool whose transfer was acknowledged.
pub fn sudo_era_update_callback(store: &mut Store, env: &Env, payload: SudoPayload) -> (r: Result<
    Response,
    ContractError,
>)
    ensures
        agrees(
            r,
            old(store)@,
            final(store)@,
            sudo_era_update_callback_spec(old(store)@, env.block_height, payload.pool_addr@),
        ),
{
    let ghost pre = store@;
    if !store.pools.has(&payload.pool_addr) {
        return Err(ContractError::NotFound);
    }
    let mut pool_info = store.pools.take(&payload.pool_addr);
    let ghost pool = pool_info@;
    pool_info.status = EraStatus::EraUpdateEnded;
    pool_info.era_snapshot.last_step_height = env.block_height;
    store.pools.save(payload.pool_addr, pool_info);
    proof {
        assert(store@.pools =~= pre.pools.insert(
            payload.pool_addr@,
            PoolInfoView {
                status: EraStatus::EraUpdateEnded,
                era_snapshot: EraSnapshot { last_step_height: env.block_height, ..pool.era_snapshot },
                ..pool
            },
        ));
    }
    Ok(Response::new())
}

/// The state after the transfer of an era update failed or timed out: the pool is back
/// at rest in the era before, with the snapshot that the update had replaced.
pub open spec fn sudo_era_update_failed_callback_spec(
    pre: StoreView,
    pool_addr: Seq<char>,
    message: Seq<char>,
) -> Result<(StoreView, ResponseView), ContractErrorView> {
    if !pre.pools.contains_key(pool_addr) {
        Err(ContractErrorView::NotFound)
    } else {
        let pool = pre.pools[pool_addr];
        match snapshot_of_text(message) {
            None => Err(ContractErrorView::UnsupportedMessage(message)),
            Some(prior) => if pool.era == 0 {
                Err(ContractErrorView::Overflow)
            } else {
                Ok(
                    (
                        with_pool(
                            pre,
                            pool_addr,
                            PoolInfoView {
                                era: (pool.era - 1) as u64,
                                status: EraStatus::ActiveEnded,
                                era_snapshot: prior,
                                ..pool
                            },
                        ),
                        crate::helper::empty_response(),
                    ),
                )
            },
        }
    }
}

/// Rolls back the era update of a pool whose transfer failed or timed out, so that the
/// update can be called again.
pub fn sudo_era_update_failed_callback(store: &mut Store, payload: SudoPayload) -> (r: Result<
    Response,
    ContractError,
>)
    ensures
        agrees(
            r,
            old(store)@,
            final(store)@,
            sudo_era_update_failed_callback_spec(old(store)@, payload.pool_addr@, payload.message@),
        ),
{
    let ghost pre = store@;
    let era = match store.pools.get(&payload.pool_addr) {
        Some(p) => p.era,
        None => {
            return Err(ContractError::NotFound);
        },
    };
    let prior = match read_snapshot(&payload.message) {
        Some(s) => s,
        None => {
            return Err(ContractError::UnsupportedMessage(payload.message));
        },
    };
    if era == 0 {
        return Err(ContractError::Overflow);
    }
    let mut pool_info = store.pools.take(&payload.pool_addr);
    let ghost pool = pool_info@;
    pool_info.era = era - 1;
    pool_info.status = EraStatus::ActiveEnded;
    pool_info.era_snapshot = prior;
    store.pools.save(payload.pool_addr, pool_info);
    proof {
        assert(store@.pools =~= pre.pools.insert(
            payload.pool_addr@,
            PoolInfoView {
                era: (pool.era - 1) as u64,
                status: EraStatus::ActiveEnded,
                era_snapshot: prior,
                ..pool
            },
        ));
    }
    Ok(Response::new())
}

} // verus!
