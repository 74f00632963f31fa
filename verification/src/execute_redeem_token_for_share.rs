//! Redemption of liquid-share tokens: the shares that the pool received are turned into
//! an ordinary delegation of the pool.
use vstd::prelude::*;
use crate::chain::{Coin, CoinView, IbcFee, IbcFeeView, ProtobufAny, ProtobufAnyView, Response, ResponseView};
use crate::error_conversion::{ContractError, ContractErrorView};
use crate::helper::{
    agrees,
    answer_view,
    dispatch_response,
    empty_response,
    min_fee,
    min_fee_spec,
    redeem_token_for_share_msg,
    redeem_tx,
    submit_tx,
    submit_tx_spec,
};
use crate::state::{
    next_id,
    registered,
    with_pool,
    PoolInfoView,
    Store,
    StoreView,
    SudoPayload,
    SudoPayloadView,
    TxType,
    REPLY_ID_RANGE_START,
};
use crate::text::{join, join_spec, list_contains, split, split_spec};
use crate::tx_callback::msg_with_sudo_callback;

verus! {

/// Most tokens that one redemption may name.
pub const REDEEM_TOKENS_LIMIT: usize = 10;

/// The denominations of `tokens`, in their order.
pub open spec fn denoms_of(tokens: Seq<CoinView>) -> Seq<Seq<char>> {
    Seq::new(tokens.len(), |i: int| tokens[i].denom)
}

/// The instructions that redeem `tokens` for the account `delegator`.
pub open spec fn redeem_msgs(delegator: Seq<char>, tokens: Seq<CoinView>) -> Seq<ProtobufAnyView> {
    Seq::new(tokens.len(), |i: int| redeem_tx(delegator, tokens[i]))
}

/// Each of `tokens` is among `held`.
pub open spec fn all_held(held: Seq<CoinView>, tokens: Seq<CoinView>) -> bool {
    forall|i: int| 0 <= i < tokens.len() ==> held.contains(#[trigger] tokens[i])
}

/// What a redemption of `tokens` for the pool `pool_addr` does.
///
/// It is refused unless it names between one and ten tokens, each of them held by the
/// pool, and no denomination twice. One instruction for each token is dispatched to the
/// account of the pool, and the denominations are put down as being redeemed.
pub open spec fn execute_redeem_token_for_share_spec(
    pre: StoreView,
    pool_addr: Seq<char>,
    tokens: Seq<CoinView>,
    min_ibc_fee: Result<IbcFeeView, Seq<char>>,
) -> Result<(StoreView, ResponseView), ContractErrorView> {
    if tokens.len() == 0 || tokens.len() > REDEEM_TOKENS_LIMIT {
        Err(ContractErrorView::TokensLenNotMatch)
    } else if !pre.pools.contains_key(pool_addr) {
        Err(ContractErrorView::NotFound)
    } else {
        let pool = pre.pools[pool_addr];
        if !pre.info_of_ica_id.contains_key(pool.ica_id) {
            Err(ContractErrorView::NotFound)
        } else if !all_held(pool.share_tokens, tokens) {
            Err(ContractErrorView::ShareTokenNotExist)
        } else if !denoms_of(tokens).no_duplicates() {
            Err(ContractErrorView::DuplicateToken)
        } else {
            match min_fee_spec(min_ibc_fee) {
                Err(e) => Err(e),
                Ok(fee) => {
                    let ica = pre.info_of_ica_id[pool.ica_id].pool_address_ica_info;
                    let payload = SudoPayloadView {
                        port_id: ica.ctrl_port_id,
                        message: join_spec(denoms_of(tokens), ","@),
                        pool_addr,
                        tx_type: TxType::RedeemTokenForShare,
                    };
                    Ok(
                        (
                            with_pool(
                                registered(pre, payload),
                                pool_addr,
                                PoolInfoView {
                                    redeemming_share_token_denom: pool.redeemming_share_token_denom
                                        + denoms_of(tokens),
                                    ..pool
                                },
                            ),
                            dispatch_response(
                                submit_tx_spec(
                                    ica.ctrl_connection_id,
                                    pool.ica_id,
                                    redeem_msgs(ica.ica_addr, tokens),
                                    fee,
                                ),
                                next_id(pre.latest_reply_id, REPLY_ID_RANGE_START),
                            ),
                        ),
                    )
                },
            }
        }
    }
}

/// Whether `held` holds the coin `token`.
fn holds(held: &Vec<Coin>, token: &Coin) -> (b: bool)
    ensures
        b == held.deep_view().contains(token@),
{
    let mut i: usize = 0;
    while i < held.len()
        invariant
            0 <= i <= held.len(),
            forall|k: int| 0 <= k < i ==> held.deep_view()[k] != token@,
        decreases held.len() - i,
    {
        if held[i].denom == token.denom && held[i].amount == token.amount {
            assert(held.deep_view()[i as int] == token@);
            return true;
        }
        i += 1;
    }
    false
}

fn check_all_held(held: &Vec<Coin>, tokens: &Vec<Coin>) -> (b: bool)
    ensures
        b == all_held(held.deep_view(), tokens.deep_view()),
{
    let mut i: usize = 0;
    while i < tokens.len()
        invariant
            0 <= i <= tokens.len(),
            forall|k: int| 0 <= k < i ==> held.deep_view().contains(#[trigger] tokens.deep_view()[k]),
        decreases tokens.len() - i,
    {
        if !holds(held, &tokens[i]) {
            assert(tokens.deep_view()[i as int] == tokens[i as int]@);
            return false;
        }
        i += 1;
    }
    true
}

fn denoms_of_tokens(tokens: &Vec<Coin>) -> (r: Vec<String>)
    ensures
        r.deep_view() == denoms_of(tokens.deep_view()),
{
    let mut r: Vec<String> = Vec::new();
    let mut i: usize = 0;
    while i < tokens.len()
        invariant
            0 <= i <= tokens.len(),
            r.len() == i,
            forall|k: int| 0 <= k < i ==> (#[trigger] r[k])@ == tokens[k].denom@,
        decreases tokens.len() - i,
    {
        r.push(tokens[i].denom.clone());
        i += 1;
    }
    assert(r.deep_view() =~= denoms_of(tokens.deep_view()));
    r
}

/// Whether no text occurs twice in `list`.
fn all_distinct(list: &Vec<String>) -> (b: bool)
    ensures
        b == list.deep_view().no_duplicates(),
{
    let mut i: usize = 0;
    let ghost all = list.deep_view();
    while i < list.len()
        invariant
            0 <= i <= list.len(),
            all == list.deep_view(),
            forall|a: int, c: int| 0 <= a < i && 0 <= c < list.len() && a != c ==> all[a] != all[c],
        decreases list.len() - i,
    {
        let mut j: usize = 0;
        while j < list.len()
            invariant
                0 <= j <= list.len(),
                i < list.len(),
                all == list.deep_view(),
                forall|c: int| 0 <= c < j && c != i ==> all[i as int] != all[c],
            decreases list.len() - j,
        {
            if j != i && list[j] == list[i] {
                assert(all[j as int] == all[i as int]);
                return false;
            }
            j += 1;
        }
        i += 1;
    }
    true
}

fn redeem_msgs_of(delegator: &String, tokens: &Vec<Coin>) -> (r: Vec<ProtobufAny>)
    ensures
        r.deep_view() == redeem_msgs(delegator@, tokens.deep_view()),
{
    let mut r: Vec<ProtobufAny> = Vec::new();
    let mut i: usize = 0;
    while i < tokens.len()
        invariant
            0 <= i <= tokens.len(),
            r.len() == i,
            forall|k: int| 0 <= k < i ==> (#[trigger] r[k])@ == redeem_tx(delegator@, tokens[k]@),
        decreases tokens.len() - i,
    {
        r.push(redeem_token_for_share_msg(delegator.clone(), tokens[i].dup()));
        i += 1;
    }
    assert(r.deep_view() =~= redeem_msgs(delegator@, tokens.deep_view()));
    r
}

/// Appends the texts `more` to `list`.
fn append_texts(list: &mut Vec<String>, more: Vec<String>)
    ensures
        final(list).deep_view() == old(list).deep_view() + more.deep_view(),
{
    let mut more = more;
    let ghost a = list.deep_view();
    let ghost b = more.deep_view();
    list.append(&mut more);
    assert(list.deep_view() =~= a + b);
}

/// Redeems the liquid-share tokens `tokens` of the pool `pool_addr`. `min_ibc_fee` is
/// what the chain reported as its minimal fee.
pub fn execute_redeem_token_for_share(
    store: &mut Store,
    pool_addr: String,
    tokens: Vec<Coin>,
    min_ibc_fee: &Result<IbcFee, String>,
) -> (r: Result<Response, ContractError>)
    ensures
        agrees(
            r,
            old(store)@,
            final(store)@,
            execute_redeem_token_for_share_spec(
                old(store)@,
                pool_addr@,
                tokens.deep_view(),
                answer_view(*min_ibc_fee),
            ),
        ),
{
    let ghost pre = store@;
    if tokens.len() == 0 || tokens.len() > REDEEM_TOKENS_LIMIT {
        return Err(ContractError::TokensLenNotMatch);
    }
    let pool_info = match store.pools.get(&pool_addr) {
        Some(p) => p,
        None => {
            return Err(ContractError::NotFound);
        },
    };
    let ghost pool = pool_info@;
    let (ctrl_connection_id, ctrl_port_id, ica_addr) = match store.info_of_ica_id.get(
        &pool_info.ica_id,
    ) {
        Some(infos) => (
            infos.pool_address_ica_info.ctrl_connection_id.clone(),
            infos.pool_address_ica_info.ctrl_port_id.clone(),
            infos.pool_address_ica_info.ica_addr.clone(),
        ),
        None => {
            return Err(ContractError::NotFound);
        },
    };
    if !check_all_held(&pool_info.share_tokens, &tokens) {
        return Err(ContractError::ShareTokenNotExist);
    }
    let denoms = denoms_of_tokens(&tokens);
    if !all_distinct(&denoms) {
        return Err(ContractError::DuplicateToken);
    }
    let msgs = redeem_msgs_of(&ica_addr, &tokens);
    let fee = min_fee(min_ibc_fee)?;
    let submsg = msg_with_sudo_callback(
        store,
        submit_tx(ctrl_connection_id, pool_info.ica_id.clone(), msgs, fee),
        SudoPayload {
            port_id: ctrl_port_id,
            message: join(&denoms, ","),
            pool_addr: pool_addr.clone(),
            tx_type: TxType::RedeemTokenForShare,
        },
    );
    let mut pool_new = store.pools.take(&pool_addr);
    append_texts(&mut pool_new.redeemming_share_token_denom, denoms);
    store.pools.save(pool_addr, pool_new);
    proof {
        assert(store@.pools =~= pre.pools.insert(
            pool_addr@,
            PoolInfoView {
                redeemming_share_token_denom: pool.redeemming_share_token_denom + denoms_of(
                    tokens.deep_view(),
                ),
                ..pool
            },
        ));
    }
    let mut resp = Response::new();
    resp.messages.push(submsg);
    proof {
        assert(resp@.messages =~= seq![submsg@]);
        assert(resp@.attributes =~= Seq::empty());
    }
    Ok(resp)
}

/// The coins of `tokens` whose denomination is not among `denoms`.
pub open spec fn tokens_left(tokens: Seq<CoinView>, denoms: Seq<Seq<char>>) -> Seq<CoinView> {
    tokens.filter(|t: CoinView| !denoms.contains(t.denom))
}

/// The texts of `list` that are not among `denoms`.
pub open spec fn denoms_left(list: Seq<Seq<char>>, denoms: Seq<Seq<char>>) -> Seq<Seq<char>> {
    list.filter(|d: Seq<char>| !denoms.contains(d))
}

fn tokens_left_of(tokens: &Vec<Coin>, denoms: &Vec<String>) -> (r: Vec<Coin>)
    ensures
        r.deep_view() == tokens_left(tokens.deep_view(), denoms.deep_view()),
{
    let mut r: Vec<Coin> = Vec::new();
    let mut i: usize = 0;
    let ghost all = tokens.deep_view();
    let ghost ds = denoms.deep_view();
    let ghost keep = |t: CoinView| !ds.contains(t.denom);
    proof {
        assert(all.subrange(0, 0) =~= Seq::<CoinView>::empty());
        assert(r.deep_view() =~= Seq::<CoinView>::empty());
    }
    while i < tokens.len()
        invariant
            0 <= i <= tokens.len(),
            all == tokens.deep_view(),
            ds == denoms.deep_view(),
            keep == |t: CoinView| !ds.contains(t.denom),
            r.deep_view() == all.subrange(0, i as int).filter(keep),
        decreases tokens.len() - i,
    {
        let ghost before = r.deep_view();
        proof {
            assert(all.subrange(0, i + 1).drop_last() =~= all.subrange(0, i as int));
            assert(all.subrange(0, i + 1).last() == tokens[i as int]@);
            reveal(Seq::filter);
        }
        if !list_contains(denoms, &tokens[i].denom) {
            r.push(tokens[i].dup());
            proof {
                assert(r.deep_view() =~= before.push(tokens[i as int]@));
            }
        }
        i += 1;
    }
    proof {
        assert(all.subrange(0, tokens.len() as int) =~= all);
    }
    r
}

fn denoms_left_of(list: &Vec<String>, denoms: &Vec<String>) -> (r: Vec<String>)
    ensures
        r.deep_view() == denoms_left(list.deep_view(), denoms.deep_view()),
{
    let mut r: Vec<String> = Vec::new();
    let mut i: usize = 0;
    let ghost all = list.deep_view();
    let ghost ds = denoms.deep_view();
    let ghost keep = |d: Seq<char>| !ds.contains(d);
    proof {
        assert(all.subrange(0, 0) =~= Seq::<Seq<char>>::empty());
        assert(r.deep_view() =~= Seq::<Seq<char>>::empty());
    }
    while i < list.len()
        invariant
            0 <= i <= list.len(),
            all == list.deep_view(),
            ds == denoms.deep_view(),
            keep == |d: Seq<char>| !ds.contains(d),
            r.deep_view() == all.subrange(0, i as int).filter(keep),
        decreases list.len() - i,
    {
        let ghost before = r.deep_view();
        proof {
            assert(all.subrange(0, i + 1).drop_last() =~= all.subrange(0, i as int));
            assert(all.subrange(0, i + 1).last() == list[i as int]@);
            reveal(Seq::filter);
        }
        if !list_contains(denoms, &list[i]) {
            r.push(list[i].clone());
            proof {
                assert(r.deep_view() =~= before.push(list[i as int]@));
            }
        }
        i += 1;
    }
    proof {
        assert(all.subrange(0, list.len() as int) =~= all);
    }
    r
}

/// The state after a redemption resolved. The context `message` lists the denominations
/// it named, joined by `,`: they are no longer being redeemed, and where the redemption
/// was acknowledged the pool does not hold their tokens any more.
pub open spec fn redeem_resolved(pre: StoreView, pool_addr: Seq<char>, message: Seq<char>, redeemed: bool) -> Result<
    (StoreView, ResponseView),
    ContractErrorView,
> {
    if !pre.pools.contains_key(pool_addr) {
        Err(ContractErrorView::NotFound)
    } else {
        let pool = pre.pools[pool_addr];
        let denoms = split_spec(message, ',');
        Ok(
            (
                with_pool(
                    pre,
                    pool_addr,
                    PoolInfoView {
                        share_tokens: if redeemed {
                            tokens_left(pool.share_tokens, denoms)
                        } else {
                            pool.share_tokens
                        },
                        redeemming_share_token_denom: denoms_left(
                            pool.redeemming_share_token_denom,
                            denoms,
                        ),
                        ..pool
                    },
                ),
                empty_response(),
            ),
        )
    }
}

fn resolve_redeem(store: &mut Store, payload: SudoPayload, redeemed: bool) -> (r: Result<
    Response,
    ContractError,
>)
    ensures
        agrees(
            r,
            old(store)@,
            final(store)@,
            redeem_resolved(old(store)@, payload.pool_addr@, payload.message@, redeemed),
        ),
{
    let ghost pre = store@;
    if !store.pools.has(&payload.pool_addr) {
        return Err(ContractError::NotFound);
    }
    let mut pool_info = store.pools.take(&payload.pool_addr);
    let ghost pool = pool_info@;
    let will_removed_denoms = split(payload.message.as_str(), ',');
    if redeemed {
        pool_info.share_tokens = tokens_left_of(&pool_info.share_tokens, &will_removed_denoms);
    }
    pool_info.redeemming_share_token_denom = denoms_left_of(
        &pool_info.redeemming_share_token_denom,
        &will_removed_denoms,
    );
    store.pools.save(payload.pool_addr, pool_info);
    proof {
        let denoms = split_spec(payload.message@, ',');
        assert(store@.pools =~= pre.pools.insert(
            payload.pool_addr@,
            PoolInfoView {
                share_tokens: if redeemed {
                    tokens_left(pool.share_tokens, denoms)
                } else {
                    pool.share_tokens
                },
                redeemming_share_token_denom: denoms_left(pool.redeemming_share_token_denom, denoms),
                ..pool
            },
        ));
    }
    Ok(Response::new())
}

/// Drops the tokens of a redemption from what the pool holds, once the redemption was
/// acknowledged.
pub fn sudo_redeem_token_for_share_callback(store: &mut Store, payload: SudoPayload) -> (r: Result<
    Response,
    ContractError,
>)
    ensures
        agrees(
            r,
            old(store)@,
            final(store)@,
            redeem_resolved(old(store)@, payload.pool_addr@, payload.message@, true),
        ),
{
    resolve_redeem(store, payload, true)
}

/// Leaves the tokens of a redemption with the pool when the redemption failed or timed
/// out: they can be redeemed anew.
pub fn sudo_redeem_token_for_share_failed_callback(store: &mut Store, payload: SudoPayload) -> (r:
    Result<Response, ContractError>)
    ensures
        agrees(
            r,
            old(store)@,
            final(store)@,
            redeem_resolved(old(store)@, payload.pool_addr@, payload.message@, false),
        ),
{
    resolve_redeem(store, payload, false)
}

} // verus!
