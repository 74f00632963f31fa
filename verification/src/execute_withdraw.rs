//! Withdrawals: a user asks for what is owed on unstake requests whose unbonding period
//! has passed, and the pool sends it from its remote account.
use vstd::prelude::*;
use crate::chain::{attr, IbcFee, IbcFeeView, MessageInfo, MessageInfoView, ProtobufAny, Response, ResponseView};
use crate::error_conversion::{ContractError, ContractErrorView};
use crate::execute_unstake::{burned_spec, execute_unstake_spec};
use crate::helper::{
    agrees,
    answer_view,
    dispatch_response,
    gen_msg_send,
    min_fee,
    min_fee_spec,
    send_tx,
    submit_tx,
    submit_tx_spec,
    CAL_BASE,
};
use crate::state::{
    next_id,
    registered,
    Store,
    StoreView,
    SudoPayload,
    SudoPayloadView,
    TxType,
    UnstakeInfo,
    UnstakeInfoView,
    WithdrawStatus,
    REPLY_ID_RANGE_START,
};
use crate::table::Table;
use crate::text::{
    decimal,
    join,
    join_spec,
    list_contains,
    parse_spec,
    parse_u64,
    split,
    split_spec,
    u128_to_string,
    u64_to_string,
};
use crate::tx_callback::msg_with_sudo_callback;

verus! {

/// The unstake requests of the contract, by pool and index.
pub type Unstakes = Map<(Seq<char>, u64), UnstakeInfoView>;

/// What is owed in all on the requests `indices` of the pool `pool_addr`, provided
/// `sender` may withdraw each of them in the era `pool_era`.
///
/// The requests are tried in their order. Each must exist, belong to the pool and to the
/// sender, not be part of a withdrawal already (nor be named twice), and have waited
/// `unbonding_period` eras. The first that fails decides the refusal.
pub open spec fn withdrawable_total(
    unstakes: Unstakes,
    pool_addr: Seq<char>,
    sender: Seq<char>,
    pool_era: u64,
    unbonding_period: u64,
    indices: Seq<u64>,
) -> Result<u128, ContractErrorView>
    decreases indices.len(),
{
    if indices.len() == 0 {
        Ok(0)
    } else {
        match withdrawable_total(
            unstakes,
            pool_addr,
            sender,
            pool_era,
            unbonding_period,
            indices.drop_last(),
        ) {
            Err(e) => Err(e),
            Ok(total) => {
                let index = indices.last();
                if !unstakes.contains_key((pool_addr, index)) {
                    Err(ContractErrorView::NotFound)
                } else {
                    let request = unstakes[(pool_addr, index)];
                    if request.pool_addr != pool_addr {
                        Err(ContractErrorView::UnstakeIndexPoolNotMatch(index))
                    } else if request.unstaker != sender {
                        Err(ContractErrorView::UnstakeIndexUnstakerNotMatch(index))
                    } else if request.status == WithdrawStatus::Pending
                        || indices.drop_last().contains(index) {
                        Err(ContractErrorView::UnstakeIndexStatusNotMatch(index))
                    } else if request.era + unbonding_period > u64::MAX {
                        Err(ContractErrorView::Overflow)
                    } else if request.era + unbonding_period > pool_era {
                        Err(ContractErrorView::UnstakeIndexNotWithdrawable(index))
                    } else if total + request.amount > u128::MAX {
                        Err(ContractErrorView::Overflow)
                    } else {
                        Ok((total + request.amount) as u128)
                    }
                }
            },
        }
    }
}

/// The requests `unstakes` with each of the requests `indices` of the pool `pool_addr`
/// in the status `status`.
pub open spec fn with_status(
    unstakes: Unstakes,
    pool_addr: Seq<char>,
    indices: Seq<u64>,
    status: WithdrawStatus,
) -> Unstakes
    decreases indices.len(),
{
    if indices.len() == 0 {
        unstakes
    } else {
        let before = with_status(unstakes, pool_addr, indices.drop_last(), status);
        let key = (pool_addr, indices.last());
        if before.contains_key(key) {
            before.insert(key, UnstakeInfoView { status, ..before[key] })
        } else {
            before
        }
    }
}

/// The decimal numerals of `indices`.
pub open spec fn index_texts(indices: Seq<u64>) -> Seq<Seq<char>> {
    Seq::new(indices.len(), |i: int| decimal(indices[i] as nat))
}

/// The context that the correlation record of a withdrawal carries: the amount, the
/// sender, the receiver and the indices of the requests, joined by `_`.
pub open spec fn withdraw_message(
    total: u128,
    sender: Seq<char>,
    receiver: Seq<char>,
    indices: Seq<u64>,
) -> Seq<char> {
    decimal(total as nat) + "_"@ + sender + "_"@ + receiver + "_"@ + join_spec(
        index_texts(indices),
        "_"@,
    )
}

/// What a withdrawal on the requests `indices` of the pool `pool_addr` does.
///
/// It is refused for an empty list, for a request that the sender may not withdraw, and
/// for a total of zero. The requests become `Pending`, and one instruction is dispatched
/// that sends the total from the remote account of the pool to `receiver`.
pub open spec fn execute_withdraw_spec(
    pre: StoreView,
    info: MessageInfoView,
    pool_addr: Seq<char>,
    receiver: Seq<char>,
    indices: Seq<u64>,
    min_ibc_fee: Result<IbcFeeView, Seq<char>>,
) -> Result<(StoreView, ResponseView), ContractErrorView> {
    if indices.len() == 0 {
        Err(ContractErrorView::EmptyUnstakeList)
    } else if !pre.pools.contains_key(pool_addr) {
        Err(ContractErrorView::NotFound)
    } else {
        let pool = pre.pools[pool_addr];
        match withdrawable_total(
            pre.unstakes_of_index,
            pool_addr,
            info.sender,
            pool.era,
            pool.unbonding_period,
            indices,
        ) {
            Err(e) => Err(e),
            Ok(total) => if total == 0 {
                Err(ContractErrorView::EncodeErrZeroWithdrawAmount)
            } else if !pre.info_of_ica_id.contains_key(pool.ica_id) {
                Err(ContractErrorView::NotFound)
            } else {
                match min_fee_spec(min_ibc_fee) {
                    Err(e) => Err(e),
                    Ok(fee) => {
                        let ica = pre.info_of_ica_id[pool.ica_id].pool_address_ica_info;
                        let payload = SudoPayloadView {
                            port_id: ica.ctrl_port_id,
                            message: withdraw_message(total, info.sender, receiver, indices),
                            pool_addr,
                            tx_type: TxType::UserWithdraw,
                        };
                        Ok(
                            (
                                StoreView {
                                    unstakes_of_index: with_status(
                                        pre.unstakes_of_index,
                                        pool_addr,
                                        indices,
                                        WithdrawStatus::Pending,
                                    ),
                                    ..registered(pre, payload)
                                },
                                dispatch_response(
                                    submit_tx_spec(
                                        ica.ctrl_connection_id,
                                        pool.ica_id,
                                        seq![
                                            send_tx(
                                                pool_addr,
                                                receiver,
                                                pool.remote_denom,
                                                decimal(total as nat),
                                            ),
                                        ],
                                        fee,
                                    ),
                                    next_id(pre.latest_reply_id, REPLY_ID_RANGE_START),
                                ),
                            ),
                        )
                    },
                }
            },
        }
    }
}

/// Whether the index at position `k` of `list` occurs before that position.
fn occurs_before(list: &Vec<u64>, k: usize) -> (b: bool)
    requires
        k < list.len(),
    ensures
        b == list@.subrange(0, k as int).contains(list[k as int]),
{
    let mut j: usize = 0;
    while j < k
        invariant
            0 <= j <= k,
            k < list.len(),
            forall|i: int| 0 <= i < j ==> list[i] != list[k as int],
        decreases k - j,
    {
        if list[j] == list[k] {
            assert(list@.subrange(0, k as int)[j as int] == list[k as int]);
            return true;
        }
        j += 1;
    }
    false
}

/// Adds up what is owed on the requests `indices`, checking that `sender` may withdraw
/// each of them.
fn check_withdrawable(
    unstakes: &Table<(String, u64), UnstakeInfo>,
    pool_addr: &String,
    sender: &String,
    pool_era: u64,
    unbonding_period: u64,
    indices: &Vec<u64>,
) -> (r: Result<u128, ContractError>)
    ensures
        crate::amount::is_outcome(
            r,
            withdrawable_total(unstakes@, pool_addr@, sender@, pool_era, unbonding_period, indices@),
        ),
        r is Ok ==> forall|i: int|
            0 <= i < indices.len() ==> unstakes@.contains_key((pool_addr@, #[trigger] indices[i])),
{
    let mut total: u128 = 0;
    let mut k: usize = 0;
    proof {
        assert(indices@.subrange(0, 0) =~= Seq::<u64>::empty());
    }
    while k < indices.len()
        invariant
            0 <= k <= indices.len(),
            withdrawable_total(
                unstakes@,
                pool_addr@,
                sender@,
                pool_era,
                unbonding_period,
                indices@.subrange(0, k as int),
            ) == Ok::<u128, ContractErrorView>(total),
            forall|i: int| 0 <= i < k ==> unstakes@.contains_key((pool_addr@, #[trigger] indices[i])),
        decreases indices.len() - k,
    {
        let index = indices[k];
        let ghost next = indices@.subrange(0, k + 1);
        proof {
            assert(next.drop_last() =~= indices@.subrange(0, k as int));
            assert(next.last() == index);
            lemma_refusal_stays(unstakes@, pool_addr@, sender@, pool_era, unbonding_period, indices@, k + 1);
        }
        let request = match unstakes.get(&(pool_addr.clone(), index)) {
            Some(u) => u,
            None => {
                return Err(ContractError::NotFound);
            },
        };
        if request.pool_addr != *pool_addr {
            return Err(ContractError::UnstakeIndexPoolNotMatch(index));
        }
        if request.unstaker != *sender {
            return Err(ContractError::UnstakeIndexUnstakerNotMatch(index));
        }
        if request.status == WithdrawStatus::Pending || occurs_before(indices, k) {
            return Err(ContractError::UnstakeIndexStatusNotMatch(index));
        }
        match request.era.checked_add(unbonding_period) {
            None => {
                return Err(ContractError::Overflow);
            },
            Some(ready) => {
                if ready > pool_era {
                    return Err(ContractError::UnstakeIndexNotWithdrawable(index));
                }
            },
        }
        total = match total.checked_add(request.amount) {
            Some(v) => v,
            None => {
                return Err(ContractError::Overflow);
            },
        };
        k += 1;
    }
    proof {
        assert(indices@.subrange(0, indices.len() as int) =~= indices@);
    }
    Ok(total)
}

/// A refusal met on the first `k` requests is the refusal of the whole list.
pub proof fn lemma_refusal_stays(
    unstakes: Unstakes,
    pool_addr: Seq<char>,
    sender: Seq<char>,
    pool_era: u64,
    unbonding_period: u64,
    indices: Seq<u64>,
    k: int,
)
    requires
        0 <= k <= indices.len(),
    ensures
        withdrawable_total(
            unstakes,
            pool_addr,
            sender,
            pool_era,
            unbonding_period,
            indices.subrange(0, k),
        ) is Err ==> withdrawable_total(unstakes, pool_addr, sender, pool_era, unbonding_period, indices)
            == withdrawable_total(
            unstakes,
            pool_addr,
            sender,
            pool_era,
            unbonding_period,
            indices.subrange(0, k),
        ),
    decreases indices.len() - k,
{
    if k == indices.len() {
        assert(indices.subrange(0, k) =~= indices);
    } else {
        lemma_refusal_stays(unstakes, pool_addr, sender, pool_era, unbonding_period, indices, k + 1);
        assert(indices.subrange(0, k + 1).drop_last() =~= indices.subrange(0, k));
    }
}

/// Puts each of the requests `indices` of the pool `pool_addr` into the status `status`.
fn set_status(
    unstakes: &mut Table<(String, u64), UnstakeInfo>,
    pool_addr: &String,
    indices: &Vec<u64>,
    status: WithdrawStatus,
)
    requires
        forall|i: int|
            0 <= i < indices.len() ==> old(unstakes)@.contains_key((pool_addr@, #[trigger] indices[i])),
    ensures
        final(unstakes)@ == with_status(old(unstakes)@, pool_addr@, indices@, status),
{
    let ghost start = unstakes@;
    let mut k: usize = 0;
    proof {
        assert(indices@.subrange(0, 0) =~= Seq::<u64>::empty());
    }
    while k < indices.len()
        invariant
            0 <= k <= indices.len(),
            unstakes@ == with_status(start, pool_addr@, indices@.subrange(0, k as int), status),
            forall|i: int|
                0 <= i < indices.len() ==> unstakes@.contains_key((pool_addr@, #[trigger] indices[i])),
        decreases indices.len() - k,
    {
        let ghost next = indices@.subrange(0, k + 1);
        let ghost before = unstakes@;
        proof {
            assert(next.drop_last() =~= indices@.subrange(0, k as int));
            assert(next.last() == indices[k as int]);
        }
        let key = (pool_addr.clone(), indices[k]);
        let mut request = unstakes.take(&key);
        request.status = status;
        unstakes.save(key, request);
        proof {
            assert(unstakes@ =~= before.insert(
                (pool_addr@, indices[k as int]),
                UnstakeInfoView { status, ..before[(pool_addr@, indices[k as int])] },
            ));
        }
        k += 1;
    }
    proof {
        assert(indices@.subrange(0, indices.len() as int) =~= indices@);
    }
}

fn index_texts_of(indices: &Vec<u64>) -> (r: Vec<String>)
    ensures
        r.deep_view() == index_texts(indices@),
{
    let mut r: Vec<String> = Vec::new();
    let mut i: usize = 0;
    while i < indices.len()
        invariant
            0 <= i <= indices.len(),
            r.len() == i,
            forall|k: int| 0 <= k < i ==> (#[trigger] r[k])@ == decimal(indices[k] as nat),
        decreases indices.len() - i,
    {
        r.push(u64_to_string(indices[i]));
        i += 1;
    }
    assert(r.deep_view() =~= index_texts(indices@));
    r
}

/// Asks for what is owed to the sender on the requests `unstake_index_list` of the pool
/// `pool_addr`, to be sent to `receiver`. `min_ibc_fee` is what the chain reported as its
/// minimal fee.
pub fn execute_withdraw(
    store: &mut Store,
    info: &MessageInfo,
    pool_addr: String,
    receiver: String,
    unstake_index_list: Vec<u64>,
    min_ibc_fee: &Result<IbcFee, String>,
) -> (r: Result<Response, ContractError>)
    ensures
        agrees(
            r,
            old(store)@,
            final(store)@,
            execute_withdraw_spec(
                old(store)@,
                info@,
                pool_addr@,
                receiver@,
                unstake_index_list@,
                answer_view(*min_ibc_fee),
            ),
        ),
{
    let ghost pre = store@;
    if unstake_index_list.len() == 0 {
        return Err(ContractError::EmptyUnstakeList);
    }
    let pool_info = match store.pools.get(&pool_addr) {
        Some(p) => p,
        None => {
            return Err(ContractError::NotFound);
        },
    };
    let ghost pool = pool_info@;
    let total_withdraw_amount = check_withdrawable(
        &store.unstakes_of_index,
        &pool_addr,
        &info.sender,
        pool_info.era,
        pool_info.unbonding_period,
        &unstake_index_list,
    )?;
    if total_withdraw_amount == 0 {
        return Err(ContractError::EncodeErrZeroWithdrawAmount);
    }
    let texts = index_texts_of(&unstake_index_list);
    let unstake_index_list_str = join(&texts, "_");
    let (ctrl_connection_id, ctrl_port_id) = match store.info_of_ica_id.get(&pool_info.ica_id) {
        Some(infos) => (
            infos.pool_address_ica_info.ctrl_connection_id.clone(),
            infos.pool_address_ica_info.ctrl_port_id.clone(),
        ),
        None => {
            return Err(ContractError::NotFound);
        },
    };
    let fee = min_fee(min_ibc_fee)?;
    let mut msgs: Vec<ProtobufAny> = Vec::new();
    msgs.push(
        gen_msg_send(
            pool_addr.clone(),
            receiver.clone(),
            pool_info.remote_denom.clone(),
            u128_to_string(total_withdraw_amount),
        ),
    );
    proof {
        assert(msgs.deep_view() =~= seq![
            send_tx(pool_addr@, receiver@, pool.remote_denom, decimal(total_withdraw_amount as nat)),
        ]);
    }
    let cosmos_msg = submit_tx(ctrl_connection_id, pool_info.ica_id.clone(), msgs, fee);
    let mut message = u128_to_string(total_withdraw_amount);
    message.append("_");
    message.append(info.sender.as_str());
    message.append("_");
    message.append(receiver.as_str());
    message.append("_");
    message.append(unstake_index_list_str.as_str());
    set_status(&mut store.unstakes_of_index, &pool_addr, &unstake_index_list, WithdrawStatus::Pending);
    let submsg = msg_with_sudo_callback(
        store,
        cosmos_msg,
        SudoPayload { port_id: ctrl_port_id, message, pool_addr, tx_type: TxType::UserWithdraw },
    );
    let mut resp = Response::new();
    resp.messages.push(submsg);
    proof {
        assert(resp@.messages =~= seq![submsg@]);
        assert(resp@.attributes =~= Seq::empty());
    }
    Ok(resp)
}

/// The indices of `list` that a settled withdrawal leaves outstanding: those whose
/// numeral is not among `texts`.
pub open spec fn settled_indices(list: Seq<u64>, texts: Seq<Seq<char>>) -> Seq<u64> {
    list.filter(|i: u64| !texts.contains(decimal(i as nat)))
}

/// The requests that a settled withdrawal leaves: those of `list` whose numeral is among
/// `texts` are deleted.
pub open spec fn settled_unstakes(
    unstakes: Unstakes,
    pool_addr: Seq<char>,
    list: Seq<u64>,
    texts: Seq<Seq<char>>,
) -> Unstakes
    decreases list.len(),
{
    if list.len() == 0 {
        unstakes
    } else {
        let before = settled_unstakes(unstakes, pool_addr, list.drop_last(), texts);
        if texts.contains(decimal(list.last() as nat)) {
            before.remove((pool_addr, list.last()))
        } else {
            before
        }
    }
}

/// The state after the withdrawal that the context `message` describes was acknowledged:
/// the requests it settled are deleted, from the requests of the pool and from those the
/// user has outstanding.
pub open spec fn sudo_withdraw_callback_spec(pre: StoreView, pool_addr: Seq<char>, message: Seq<char>) -> Result<
    (StoreView, ResponseView),
    ContractErrorView,
> {
    let parts = split_spec(message, '_');
    if parts.len() <= 3 {
        Err(ContractErrorView::UnsupportedMessage(message))
    } else {
        let user = parts[1];
        let texts = parts.subrange(3, parts.len() as int);
        Ok(
            (
                if pre.unstakes_index_for_user.contains_key((user, pool_addr)) {
                    let list = pre.unstakes_index_for_user[(user, pool_addr)];
                    StoreView {
                        unstakes_of_index: settled_unstakes(pre.unstakes_of_index, pool_addr, list, texts),
                        unstakes_index_for_user: pre.unstakes_index_for_user.insert(
                            (user, pool_addr),
                            settled_indices(list, texts),
                        ),
                        ..pre
                    }
                } else {
                    pre
                },
                ResponseView {
                    messages: Seq::empty(),
                    attributes: seq![
                        attr("action"@, "withdraw"@),
                        attr("from"@, user),
                        attr("pool"@, pool_addr),
                        attr("receiver"@, parts[2]),
                        attr("unstake_index_list"@, join_spec(texts, "_"@)),
                        attr("amount"@, parts[0]),
                    ],
                },
            ),
        )
    }
}

/// The texts of `parts` from position `from` on.
fn tail_from(parts: &Vec<String>, from: usize) -> (r: Vec<String>)
    requires
        from <= parts.len(),
    ensures
        r.deep_view() == parts.deep_view().subrange(from as int, parts.len() as int),
{
    let mut r: Vec<String> = Vec::new();
    let mut i: usize = from;
    while i < parts.len()
        invariant
            from <= i <= parts.len(),
            r.len() == i - from,
            forall|k: int| 0 <= k < r.len() ==> (#[trigger] r[k])@ == parts[from + k]@,
        decreases parts.len() - i,
    {
        r.push(parts[i].clone());
        i += 1;
    }
    assert(r.deep_view() =~= parts.deep_view().subrange(from as int, parts.len() as int));
    r
}

/// Deletes the requests that a withdrawal settled once its instruction was acknowledged.
pub fn sudo_withdraw_callback(store: &mut Store, payload: SudoPayload) -> (r: Result<
    Response,
    ContractError,
>)
    ensures
        agrees(
            r,
            old(store)@,
            final(store)@,
            sudo_withdraw_callback_spec(old(store)@, payload.pool_addr@, payload.message@),
        ),
{
    let ghost pre = store@;
    let parts = split(payload.message.as_str(), '_');
    if parts.len() <= 3 {
        return Err(ContractError::UnsupportedMessage(payload.message));
    }
    proof {
        assert(forall|i: int| 0 <= i < 3 ==> parts.deep_view()[i] == (#[trigger] parts[i])@);
    }
    let total_withdraw_amount = parts[0].clone();
    let user_addr = parts[1].clone();
    let receiver = parts[2].clone();
    let index_list = tail_from(&parts, 3);
    let ghost texts = index_list.deep_view();
    let unstake_index_list_str = join(&index_list, "_");
    let user_key = (user_addr.clone(), payload.pool_addr.clone());
    match store.unstakes_index_for_user.remove(&user_key) {
        Some(unstakes) => {
            let ghost list = unstakes.deep_view();
            let ghost keep = |i: u64| !texts.contains(decimal(i as nat));
            let mut kept: Vec<u64> = Vec::new();
            let mut k: usize = 0;
            proof {
                assert(list =~= unstakes@);
                assert(list.subrange(0, 0) =~= Seq::<u64>::empty());
            }
            while k < unstakes.len()
                invariant
                    0 <= k <= unstakes.len(),
                    list == unstakes@,
                    texts == index_list.deep_view(),
                    keep == |i: u64| !texts.contains(decimal(i as nat)),
                    kept@ == list.subrange(0, k as int).filter(keep),
                    store@ == (StoreView {
                        unstakes_of_index: settled_unstakes(
                            pre.unstakes_of_index,
                            payload.pool_addr@,
                            list.subrange(0, k as int),
                            texts,
                        ),
                        unstakes_index_for_user: pre.unstakes_index_for_user.remove(
                            (user_addr@, payload.pool_addr@),
                        ),
                        ..pre
                    }),
                decreases unstakes.len() - k,
            {
                proof {
                    assert(list.subrange(0, k + 1).drop_last() =~= list.subrange(0, k as int));
                    assert(list.subrange(0, k + 1).last() == unstakes[k as int]);
                    reveal(Seq::filter);
                }
                let unstake_index = unstakes[k];
                if list_contains(&index_list, &u64_to_string(unstake_index)) {
                    let _ = store.unstakes_of_index.remove(&(payload.pool_addr.clone(), unstake_index));
                } else {
                    kept.push(unstake_index);
                }
                k += 1;
            }
            proof {
                assert(list.subrange(0, unstakes.len() as int) =~= list);
                assert(kept.deep_view() =~= kept@);
            }
            store.unstakes_index_for_user.save(user_key, kept);
            proof {
                assert(store@.unstakes_index_for_user =~= pre.unstakes_index_for_user.insert(
                    (user_addr@, payload.pool_addr@),
                    settled_indices(list, texts),
                ));
            }
        },
        None => {
            proof {
                assert(store@.unstakes_index_for_user =~= pre.unstakes_index_for_user);
            }
        },
    }
    let mut resp = Response::new();
    resp.add_attribute("action", String::from_str("withdraw"));
    resp.add_attribute("from", user_addr);
    resp.add_attribute("pool", payload.pool_addr);
    resp.add_attribute("receiver", receiver);
    resp.add_attribute("unstake_index_list", unstake_index_list_str);
    resp.add_attribute("amount", total_withdraw_amount);
    proof {
        let ps = split_spec(payload.message@, '_');
        assert(resp@.attributes =~= seq![
            attr("action"@, "withdraw"@),
            attr("from"@, ps[1]),
            attr("pool"@, payload.pool_addr@),
            attr("receiver"@, ps[2]),
            attr("unstake_index_list"@, join_spec(texts, "_"@)),
            attr("amount"@, ps[0]),
        ]);
    }
    Ok(resp)
}

/// The numbers that the numerals `texts` write, where each of them is the numeral of a
/// number of 64 bits.
pub open spec fn parsed_indices(texts: Seq<Seq<char>>) -> Option<Seq<u64>>
    decreases texts.len(),
{
    if texts.len() == 0 {
        Some(Seq::empty())
    } else {
        match parsed_indices(texts.drop_last()) {
            None => None,
            Some(before) => match parse_spec(texts.last(), u64::MAX as nat) {
                None => None,
                Some(n) => Some(before.push(n as u64)),
            },
        }
    }
}

/// Each of the requests `indices` of the pool `pool_addr` is recorded.
pub open spec fn all_recorded(unstakes: Unstakes, pool_addr: Seq<char>, indices: Seq<u64>) -> bool {
    forall|i: int| 0 <= i < indices.len() ==> unstakes.contains_key((pool_addr, #[trigger] indices[i]))
}

/// The state after the withdrawal that the context `message` describes failed or timed
/// out: each request it named is `Default` again and can be withdrawn anew.
pub open spec fn sudo_withdraw_failed_callback_spec(
    pre: StoreView,
    pool_addr: Seq<char>,
    message: Seq<char>,
) -> Result<(StoreView, ResponseView), ContractErrorView> {
    let parts = split_spec(message, '_');
    let texts = if parts.len() > 3 {
        parts.subrange(3, parts.len() as int)
    } else {
        Seq::empty()
    };
    match parsed_indices(texts) {
        None => Err(ContractErrorView::UnsupportedMessage(message)),
        Some(indices) => if !all_recorded(pre.unstakes_of_index, pool_addr, indices) {
            Err(ContractErrorView::NotFound)
        } else {
            Ok(
                (
                    StoreView {
                        unstakes_of_index: with_status(
                            pre.unstakes_of_index,
                            pool_addr,
                            indices,
                            WithdrawStatus::Default,
                        ),
                        ..pre
                    },
                    crate::helper::empty_response(),
                ),
            )
        },
    }
}

fn parse_indices(texts: &Vec<String>) -> (r: Option<Vec<u64>>)
    ensures
        match r {
            Some(v) => parsed_indices(texts.deep_view()) == Some(v@),
            None => parsed_indices(texts.deep_view()) is None,
        },
{
    let mut out: Vec<u64> = Vec::new();
    let mut i: usize = 0;
    let ghost all = texts.deep_view();
    proof {
        assert(all.subrange(0, 0) =~= Seq::<Seq<char>>::empty());
    }
    while i < texts.len()
        invariant
            0 <= i <= texts.len(),
            all == texts.deep_view(),
            parsed_indices(all.subrange(0, i as int)) == Some(out@),
        decreases texts.len() - i,
    {
        proof {
            assert(all.subrange(0, i + 1).drop_last() =~= all.subrange(0, i as int));
            assert(all.subrange(0, i + 1).last() == texts[i as int]@);
            lemma_unparsed_stays(all, i + 1);
        }
        match parse_u64(texts[i].as_str()) {
            Some(n) => {
                out.push(n);
            },
            None => {
                return None;
            },
        }
        i += 1;
    }
    proof {
        assert(all.subrange(0, texts.len() as int) =~= all);
    }
    Some(out)
}

/// Where the first `k` texts hold one that is no numeral, so does the whole list.
pub proof fn lemma_unparsed_stays(texts: Seq<Seq<char>>, k: int)
    requires
        0 <= k <= texts.len(),
    ensures
        parsed_indices(texts.subrange(0, k)) is None ==> parsed_indices(texts) is None,
    decreases texts.len() - k,
{
    if k == texts.len() {
        assert(texts.subrange(0, k) =~= texts);
    } else {
        lemma_unparsed_stays(texts, k + 1);
        assert(texts.subrange(0, k + 1).drop_last() =~= texts.subrange(0, k));
    }
}

fn check_recorded(unstakes: &Table<(String, u64), UnstakeInfo>, pool_addr: &String, indices: &Vec<u64>) -> (b:
    bool)
    ensures
        b == all_recorded(unstakes@, pool_addr@, indices@),
{
    let mut i: usize = 0;
    while i < indices.len()
        invariant
            0 <= i <= indices.len(),
            forall|k: int| 0 <= k < i ==> unstakes@.contains_key((pool_addr@, #[trigger] indices[k])),
        decreases indices.len() - i,
    {
        if !unstakes.has(&(pool_addr.clone(), indices[i])) {
            return false;
        }
        i += 1;
    }
    true
}

/// Frees the requests of a withdrawal whose instruction failed or timed out.
pub fn sudo_withdraw_failed_callback(store: &mut Store, payload: SudoPayload) -> (r: Result<
    Response,
    ContractError,
>)
    ensures
        agrees(
            r,
            old(store)@,
            final(store)@,
            sudo_withdraw_failed_callback_spec(old(store)@, payload.pool_addr@, payload.message@),
        ),
{
    let parts = split(payload.message.as_str(), '_');
    let texts = if parts.len() > 3 {
        tail_from(&parts, 3)
    } else {
        let empty: Vec<String> = Vec::new();
        assert(empty.deep_view() =~= Seq::<Seq<char>>::empty());
        empty
    };
    let indices = match parse_indices(&texts) {
        Some(v) => v,
        None => {
            return Err(ContractError::UnsupportedMessage(payload.message));
        },
    };
    if !check_recorded(&store.unstakes_of_index, &payload.pool_addr, &indices) {
        return Err(ContractError::NotFound);
    }
    set_status(&mut store.unstakes_of_index, &payload.pool_addr, &indices, WithdrawStatus::Default);
    Ok(Response::new())
}

/// Unstake followed by withdrawal gives the user the worth of what was burned, less the
/// dust.
///
/// Let an unstake of `lsd_token_amount` from the pool `pool_addr` succeed in the state
/// `pre`, burning `burned` receipt tokens at the rate `rate`. Then the request is
/// recorded for `floor(burned * rate / CAL_BASE) - 5`, which is positive; without an
/// unbond commission, `burned` is `lsd_token_amount`. In any later state `later` that
/// still holds the request as it was recorded, the amount that a withdrawal of that
/// request alone adds up, where it is not refused, is exactly the amount recorded.
pub proof fn lemma_unstake_then_withdraw(
    pre: StoreView,
    info: MessageInfoView,
    lsd_token_amount: u128,
    pool_addr: Seq<char>,
    later: StoreView,
)
    requires
        execute_unstake_spec(pre, info, lsd_token_amount, pool_addr) is Ok,
        later.pools.contains_key(pool_addr),
        later.unstakes_of_index.contains_key(
            (pool_addr, (pre.pools[pool_addr].next_unstake_index + 1) as u64),
        ),
        later.unstakes_of_index[(pool_addr, (pre.pools[pool_addr].next_unstake_index + 1) as u64)]
            == execute_unstake_spec(
            pre,
            info,
            lsd_token_amount,
            pool_addr,
        )->Ok_0.0.unstakes_of_index[(pool_addr, (pre.pools[pool_addr].next_unstake_index + 1) as u64)],
    ensures
        ({
            let pool = pre.pools[pool_addr];
            let index = (pool.next_unstake_index + 1) as u64;
            let burned = burned_spec(lsd_token_amount, pool.unbond_commission)->Ok_0.0;
            let owed = burned * pool.rate / (CAL_BASE as int) - 5;
            &&& pool.unbond_commission == 0 ==> burned == lsd_token_amount
            &&& owed > 0
            &&& execute_unstake_spec(
                pre,
                info,
                lsd_token_amount,
                pool_addr,
            )->Ok_0.0.unstakes_of_index[(pool_addr, index)].amount == owed
            &&& withdrawable_total(
                later.unstakes_of_index,
                pool_addr,
                info.sender,
                later.pools[pool_addr].era,
                later.pools[pool_addr].unbonding_period,
                seq![index],
            ) is Ok ==> withdrawable_total(
                later.unstakes_of_index,
                pool_addr,
                info.sender,
                later.pools[pool_addr].era,
                later.pools[pool_addr].unbonding_period,
                seq![index],
            ) == Ok::<u128, ContractErrorView>(owed as u128)
        }),
{
    let pool = pre.pools[pool_addr];
    let index = (pool.next_unstake_index + 1) as u64;
    let one = seq![index];
    assert(one.drop_last() =~= Seq::<u64>::empty());
    assert(one.last() == index);
    assert(withdrawable_total(
        later.unstakes_of_index,
        pool_addr,
        info.sender,
        later.pools[pool_addr].era,
        later.pools[pool_addr].unbonding_period,
        one.drop_last(),
    ) == Ok::<u128, ContractErrorView>(0));
}

} // verus!
