//! Constants of the contract, the fee that accompanies a remote instruction, and the
//! instructions themselves in the form the remote chain reads.
use vstd::prelude::*;
use crate::amount::{is_outcome, plus, plus_spec};
use crate::chain::{
    Coin,
    CoinView,
    IbcFee,
    IbcFeeView,
    KVKey,
    KVKeyView,
    MessageInfo,
    MessageInfoView,
    ProtobufAny,
    ProtobufAnyView,
};
use crate::error_conversion::{ContractError, ContractErrorView};
use crate::chain::{reply_msg, CosmosMsg, CosmosMsgView, Response, ResponseView};
use crate::state::{QueryKind, Store, StoreView};
use crate::text::{decimal, is_text, u128_to_string};

verus! {

/// Denomination in which fees are paid.
pub const FEE_DENOM: &'static str = "untrn";

/// Suffix that turns the identifier of a pool's interchain account into the identifier
/// of its paired withdrawal account.
pub const ICA_WITHDRAW_SUFIX: &'static str = "-withdraw_addr";

/// Longest identifier of an interchain account.
pub const INTERCHAIN_ACCOUNT_ID_LEN_LIMIT: usize = 16;

/// Base of commissions and of the rate: a commission of `CAL_BASE` is the whole.
pub const CAL_BASE: u128 = 1_000_000;

/// Rate of a pool that has not seen a reward yet: one receipt token for one unit.
pub const DEFAULT_RATE: u128 = 1_000_000;

/// Length of an era, unless configured: a day.
pub const DEFAULT_ERA_SECONDS: u64 = 86400;

/// Shortest era that can be configured: eight hours.
pub const MIN_ERA_SECONDS: u64 = 28800;

/// Longest era that can be configured: a day.
pub const MAX_ERA_SECONDS: u64 = 86400;

/// Largest number of validators of a pool.
pub const VALIDATORS_LEN_LIMIT: usize = 16;

/// Below this amount a delegation goes to the first validator alone.
pub const STAKE_SPLIT_THRESHOLD: u128 = 10_000;

/// Seconds after which a submitted remote instruction times out: thirty hours.
pub const DEFAULT_TIMEOUT_SECONDS: u64 = 108000;

/// Refresh interval of the observational queries while a pool is at rest.
pub const DEFAULT_UPDATE_PERIOD: u64 = 86400;

/// Refresh interval of the observational queries while an era is processed.
pub const DEFAULT_FAST_PERIOD: u64 = 60;

/// What the chain answered to a query, in the model: the answer, or the text of the failure.
pub open spec fn answer_view<T: DeepView>(r: Result<T, String>) -> Result<T::V, Seq<char>> {
    match r {
        Ok(v) => Ok(v.deep_view()),
        Err(t) => Err(t@),
    }
}

/// Whether the outcome `r` has the model `want`.
pub open spec fn has_outcome<T: DeepView>(r: Result<T, ContractError>, want: Result<T::V, ContractErrorView>) -> bool {
    match want {
        Ok(v) => r is Ok && r->Ok_0.deep_view() == v,
        Err(e) => r is Err && r->Err_0@ == e,
    }
}

/// Whether a call ended as its contract says: with the response and the state that `want`
/// names, or with the refusal that `want` names and the state as it was.
pub open spec fn agrees(
    r: Result<Response, ContractError>,
    pre: StoreView,
    post: StoreView,
    want: Result<(StoreView, ResponseView), ContractErrorView>,
) -> bool {
    match want {
        Ok((s, resp)) => r is Ok && r->Ok_0@ == resp && post == s,
        Err(e) => r is Err && r->Err_0@ == e && post == pre,
    }
}

/// The response without messages and attributes.
pub open spec fn empty_response() -> ResponseView {
    ResponseView { messages: Seq::empty(), attributes: Seq::empty() }
}

/// The response that asks for the dispatch of the one message `msg` and for a reply under `id`.
pub open spec fn dispatch_response(msg: CosmosMsgView, id: u64) -> ResponseView {
    ResponseView { messages: seq![reply_msg(msg, id)], attributes: Seq::empty() }
}

/// The messages `msgs`, each as a message of a response for which no reply is asked.
pub open spec fn plain_msgs(msgs: Seq<CosmosMsgView>) -> Seq<crate::chain::SubMsgView> {
    Seq::new(msgs.len(), |i: int| crate::chain::plain_msg(msgs[i]))
}

/// Appends `msgs` to a response, as messages for which no reply is asked.
pub fn add_messages(resp: &mut Response, msgs: Vec<CosmosMsg>)
    ensures
        final(resp)@ == (ResponseView {
            messages: old(resp)@.messages + plain_msgs(msgs.deep_view()),
            ..old(resp)@
        }),
{
    let mut msgs = msgs;
    let ghost all = msgs.deep_view();
    let ghost start = resp@;
    let n = msgs.len();
    let mut i: usize = 0;
    proof {
        assert(plain_msgs(all.subrange(0, 0)) =~= Seq::empty());
        assert(start.messages + plain_msgs(all.subrange(0, 0)) =~= start.messages);
    }
    while msgs.len() > 0
        invariant
            i + msgs.len() == n,
            n == all.len(),
            msgs.deep_view() == all.subrange(i as int, n as int),
            resp@ == (ResponseView {
                messages: start.messages + plain_msgs(all.subrange(0, i as int)),
                ..start
            }),
        decreases msgs.len(),
    {
        let ghost before = resp@;
        let ghost rest = msgs.deep_view();
        let ghost held = msgs@;
        let m = msgs.remove(0);
        proof {
            assert(m@ == rest[0]);
            assert forall|k: int| 0 <= k < msgs.len() implies msgs.deep_view()[k] == all.subrange(
                i + 1,
                n as int,
            )[k] by {
                assert(msgs@[k] == held[k + 1]);
                assert(rest[k + 1] == held[k + 1].deep_view());
            }
            assert(msgs.deep_view() =~= all.subrange(i + 1, n as int));
        }
        resp.add_message(m);
        proof {
            assert(plain_msgs(all.subrange(0, i + 1)) =~= plain_msgs(all.subrange(0, i as int)).push(
                crate::chain::plain_msg(all[i as int]),
            ));
            assert(resp@.messages =~= start.messages + plain_msgs(all.subrange(0, i + 1)));
        }
        i += 1;
    }
    proof {
        assert(all.subrange(0, n as int) =~= all);
    }
}

/// The coins of `coins` that are in the fee denomination, in their order.
pub open spec fn fee_coins(coins: Seq<CoinView>) -> Seq<CoinView> {
    coins.filter(|c: CoinView| c.denom == FEE_DENOM@)
}

/// The fee `fee` without the coins of other denominations than the fee denomination.
pub open spec fn min_ntrn_ibc_fee_spec(fee: IbcFeeView) -> IbcFeeView {
    IbcFeeView {
        recv_fee: fee_coins(fee.recv_fee),
        ack_fee: fee_coins(fee.ack_fee),
        timeout_fee: fee_coins(fee.timeout_fee),
    }
}

fn keep_fee_coins(coins: Vec<Coin>) -> (r: Vec<Coin>)
    ensures
        r.deep_view() == fee_coins(coins.deep_view()),
{
    let mut r: Vec<Coin> = Vec::new();
    let mut i: usize = 0;
    let ghost keep = |c: CoinView| c.denom == FEE_DENOM@;
    proof {
        assert(coins.deep_view().subrange(0, 0) =~= Seq::<CoinView>::empty());
        assert(r.deep_view() =~= Seq::<CoinView>::empty());
    }
    while i < coins.len()
        invariant
            0 <= i <= coins.len(),
            keep == |c: CoinView| c.denom == FEE_DENOM@,
            r.deep_view() == coins.deep_view().subrange(0, i as int).filter(keep),
        decreases coins.len() - i,
    {
        let ghost before = r.deep_view();
        let ghost sofar = coins.deep_view().subrange(0, i as int);
        let ghost next = coins.deep_view().subrange(0, i + 1);
        proof {
            assert(next.drop_last() =~= sofar);
            assert(next.last() == coins[i as int]@);
            reveal(Seq::filter);
        }
        if is_text(&coins[i].denom, FEE_DENOM) {
            r.push(coins[i].dup());
            proof {
                assert(r.deep_view() =~= before.push(coins[i as int]@));
            }
        }
        i += 1;
    }
    proof {
        assert(coins.deep_view().subrange(0, coins.len() as int) =~= coins.deep_view());
    }
    r
}

/// Drops from a fee every coin that is not in the fee denomination.
pub fn min_ntrn_ibc_fee(fee: IbcFee) -> (r: IbcFee)
    ensures
        r@ == min_ntrn_ibc_fee_spec(fee@),
{
    IbcFee {
        recv_fee: keep_fee_coins(fee.recv_fee),
        ack_fee: keep_fee_coins(fee.ack_fee),
        timeout_fee: keep_fee_coins(fee.timeout_fee),
    }
}

/// The amount of the first coin of a list, zero for the empty list.
pub open spec fn first_amount(coins: Seq<CoinView>) -> u128 {
    if coins.len() > 0 {
        coins[0].amount
    } else {
        0
    }
}

/// The sum of the first coin of each stage of a fee.
pub open spec fn total_ibc_fee_spec(fee: IbcFeeView) -> Result<u128, ContractErrorView> {
    match plus_spec(first_amount(fee.recv_fee), first_amount(fee.ack_fee)) {
        Ok(sum) => plus_spec(sum, first_amount(fee.timeout_fee)),
        Err(e) => Err(e),
    }
}

fn first_amount_of(coins: &Vec<Coin>) -> (a: u128)
    ensures
        a == first_amount(coins.deep_view()),
{
    if coins.len() > 0 {
        coins[0].amount
    } else {
        0
    }
}

/// What a remote instruction costs in all: the first coin of each stage of its fee.
pub fn total_ibc_fee(ibc_fee: &IbcFee) -> (r: Result<u128, ContractError>)
    ensures
        is_outcome(r, total_ibc_fee_spec(ibc_fee@)),
{
    let sum = plus(first_amount_of(&ibc_fee.recv_fee), first_amount_of(&ibc_fee.ack_fee))?;
    plus(sum, first_amount_of(&ibc_fee.timeout_fee))
}

/// The funds sent with a call are one coin of the fee denomination of at least `total`.
pub open spec fn funds_cover(info: MessageInfoView, total: u128) -> bool {
    info.funds.len() == 1 && info.funds[0].denom == FEE_DENOM@ && info.funds[0].amount >= total
}

/// The fee to pay for a remote instruction, given the minimal fee the chain reports: that
/// fee in the fee denomination, provided the funds sent with the call cover it.
pub open spec fn check_ibc_fee_spec(
    min_fee: Result<IbcFeeView, Seq<char>>,
    info: MessageInfoView,
) -> Result<IbcFeeView, ContractErrorView> {
    match min_fee {
        Err(t) => Err(ContractErrorView::QueryFailed(t)),
        Ok(fee) => match total_ibc_fee_spec(min_ntrn_ibc_fee_spec(fee)) {
            Err(e) => Err(e),
            Ok(total) => if funds_cover(info, total) {
                Ok(min_ntrn_ibc_fee_spec(fee))
            } else {
                Err(ContractErrorView::ParamsErrorFundsNotMatch)
            },
        },
    }
}

/// Checks that the funds sent with a call pay the fee of one remote instruction, and
/// returns that fee.
pub fn check_ibc_fee(min_fee: &Result<IbcFee, String>, info: &MessageInfo) -> (r: Result<
    IbcFee,
    ContractError,
>)
    ensures
        has_outcome(r, check_ibc_fee_spec(answer_view(*min_fee), info@)),
{
    let ibc_fee = match min_fee {
        Err(t) => {
            return Err(ContractError::QueryFailed(t.clone()));
        },
        Ok(fee) => min_ntrn_ibc_fee(fee.dup()),
    };
    let total = total_ibc_fee(&ibc_fee)?;
    if !(info.funds.len() == 1 && is_text(&info.funds[0].denom, FEE_DENOM) && info.funds[0].amount
        >= total) {
        return Err(ContractError::ParamsErrorFundsNotMatch);
    }
    Ok(ibc_fee)
}

/// The fee in the fee denomination that the chain asks for at least, or the refusal that
/// the query met.
pub open spec fn min_fee_spec(min_fee: Result<IbcFeeView, Seq<char>>) -> Result<
    IbcFeeView,
    ContractErrorView,
> {
    match min_fee {
        Err(t) => Err(ContractErrorView::QueryFailed(t)),
        Ok(fee) => Ok(min_ntrn_ibc_fee_spec(fee)),
    }
}

/// The minimal fee of the chain, in the fee denomination.
pub fn min_fee(answer: &Result<IbcFee, String>) -> (r: Result<IbcFee, ContractError>)
    ensures
        has_outcome(r, min_fee_spec(answer_view(*answer))),
{
    match answer {
        Err(t) => Err(ContractError::QueryFailed(t.clone())),
        Ok(fee) => Ok(min_ntrn_ibc_fee(fee.dup())),
    }
}

/// The fee for registering one query: the first coin of `fee` in the fee denomination,
/// nothing where there is none.
pub open spec fn total_icq_register_fee_spec(fee: Seq<CoinView>) -> u128 {
    first_amount(fee_coins(fee))
}

/// What the registration of one query costs, given the deposit the chain asks for.
pub fn total_icq_register_fee(fee: Vec<Coin>) -> (r: u128)
    ensures
        r == total_icq_register_fee_spec(fee.deep_view()),
{
    let filter_fee = keep_fee_coins(fee);
    first_amount_of(&filter_fee)
}

/// The identifier of the withdrawal account paired with the account `interchain_account_id`.
pub fn get_withdraw_ica_id(interchain_account_id: String) -> (id: String)
    ensures
        id@ == interchain_account_id@ + ICA_WITHDRAW_SUFIX@,
{
    interchain_account_id.concat(ICA_WITHDRAW_SUFIX)
}

/// The path and the base denomination that a denomination of the chain stands for.
#[derive(Clone, Debug, PartialEq, Eq)]
pub struct DenomTrace {
    pub path: String,
    pub base_denom: String,
}

/// The mathematical model of [`DenomTrace`].
pub struct DenomTraceView {
    pub path: Seq<char>,
    pub base_denom: Seq<char>,
}

impl DeepView for DenomTrace {
    type V = DenomTraceView;

    open spec fn deep_view(&self) -> DenomTraceView {
        DenomTraceView { path: self.path@, base_denom: self.base_denom@ }
    }
}

impl View for DenomTrace {
    type V = DenomTraceView;

    open spec fn view(&self) -> DenomTraceView {
        self.deep_view()
    }
}

/// What the chain answers to the question what a denomination stands for.
#[derive(Clone, Debug, PartialEq, Eq)]
pub struct QueryDenomTraceResponse {
    pub denom_trace: DenomTrace,
}

/// The mathematical model of [`QueryDenomTraceResponse`].
pub struct QueryDenomTraceResponseView {
    pub denom_trace: DenomTraceView,
}

impl DeepView for QueryDenomTraceResponse {
    type V = QueryDenomTraceResponseView;

    open spec fn deep_view(&self) -> QueryDenomTraceResponseView {
        QueryDenomTraceResponseView { denom_trace: self.denom_trace@ }
    }
}

impl View for QueryDenomTraceResponse {
    type V = QueryDenomTraceResponseView;

    open spec fn view(&self) -> QueryDenomTraceResponseView {
        self.deep_view()
    }
}

/// The question what the denomination with the hash `hash` stands for.
#[derive(Clone, Debug, PartialEq, Eq)]
pub struct QueryDenomTraceRequest {
    pub hash: String,
}

/// The question to ask the chain about the denomination `ibc_denom`: the denomination
/// must have two parts separated by `/`, and the second is the hash to ask for.
pub open spec fn denom_trace_request_spec(ibc_denom: Seq<char>) -> Result<Seq<char>, ContractErrorView> {
    let parts = crate::text::split_spec(ibc_denom, '/');
    if parts.len() != 2 {
        Err(ContractErrorView::DenomNotMatch)
    } else {
        Ok(parts[1])
    }
}

/// Builds the question to ask the chain about the denomination `ibc_denom`.
pub fn denom_trace_request(ibc_denom: &String) -> (r: Result<QueryDenomTraceRequest, ContractError>)
    ensures
        match denom_trace_request_spec(ibc_denom@) {
            Ok(hash) => r is Ok && r->Ok_0.hash@ == hash,
            Err(e) => r is Err && r->Err_0@ == e,
        },
{
    let parts = crate::text::split(ibc_denom.as_str(), '/');
    if parts.len() != 2 {
        return Err(ContractError::DenomNotMatch);
    }
    proof {
        assert(parts.deep_view()[1] == parts[1]@);
    }
    Ok(QueryDenomTraceRequest { hash: parts[1].clone() })
}

/// What the denomination `ibc_denom` stands for, given what the chain answered: refused
/// where the denomination does not have two parts or the chain could not answer.
pub open spec fn denom_trace_spec(
    ibc_denom: Seq<char>,
    answer: Result<QueryDenomTraceResponseView, Seq<char>>,
) -> Result<QueryDenomTraceResponseView, ContractErrorView> {
    match denom_trace_request_spec(ibc_denom) {
        Err(e) => Err(e),
        Ok(_) => match answer {
            Err(t) => Err(ContractErrorView::QueryFailed(t)),
            Ok(v) => Ok(v),
        },
    }
}

/// What the denomination `ibc_denom` stands for, given what the chain answered to the
/// question built by [`denom_trace_request`].
pub fn query_denom_trace_from_ibc_denom<'a>(
    ibc_denom: &String,
    answer: &'a Result<QueryDenomTraceResponse, String>,
) -> (r: Result<&'a QueryDenomTraceResponse, ContractError>)
    ensures
        has_outcome(r, denom_trace_spec(ibc_denom@, answer_view(*answer))),
{
    let _ = denom_trace_request(ibc_denom)?;
    match answer {
        Ok(v) => Ok(v),
        Err(t) => Err(ContractError::QueryFailed(t.clone())),
    }
}

/// The bytes of a delegation instruction, as `cosmos_sdk_proto` encodes them.
pub uninterp spec fn msg_delegate_bytes(
    delegator: Seq<char>,
    validator: Seq<char>,
    denom: Seq<char>,
    amount: Seq<char>,
) -> Seq<u8>;

/// Encodes a `MsgDelegate` of `cosmos_sdk_proto` with `prost`'s `encode_to_vec`. The
/// result is a function of the four texts alone; the contract gives it a name and claims
/// nothing more of it.
#[verifier::external_body]
fn encode_msg_delegate(delegator: String, validator: String, denom: String, amount: String) -> (bytes: Vec<u8>)
    ensures
        bytes@ == msg_delegate_bytes(delegator@, validator@, denom@, amount@),
{
    cosmos_sdk_proto::prost::Message::encode_to_vec(
        &cosmos_sdk_proto::cosmos::staking::v1beta1::MsgDelegate {
            delegator_address: delegator,
            validator_address: validator,
            amount: Some(cosmos_sdk_proto::cosmos::base::v1beta1::Coin { denom, amount }),
        },
    )
}

/// The bytes of a redelegation instruction, as `cosmos_sdk_proto` encodes them.
pub uninterp spec fn msg_begin_redelegate_bytes(
    delegator: Seq<char>,
    src_validator: Seq<char>,
    dst_validator: Seq<char>,
    denom: Seq<char>,
    amount: Seq<char>,
) -> Seq<u8>;

/// Encodes a `MsgBeginRedelegate` of `cosmos_sdk_proto` with `prost`'s `encode_to_vec`.
/// The result is a function of the five texts alone; the contract gives it a name and
/// claims nothing more of it.
#[verifier::external_body]
fn encode_msg_begin_redelegate(
    delegator: String,
    src_validator: String,
    dst_validator: String,
    denom: String,
    amount: String,
) -> (bytes: Vec<u8>)
    ensures
        bytes@ == msg_begin_redelegate_bytes(
            delegator@,
            src_validator@,
            dst_validator@,
            denom@,
            amount@,
        ),
{
    cosmos_sdk_proto::prost::Message::encode_to_vec(
        &cosmos_sdk_proto::cosmos::staking::v1beta1::MsgBeginRedelegate {
            delegator_address: delegator,
            validator_src_address: src_validator,
            validator_dst_address: dst_validator,
            amount: Some(cosmos_sdk_proto::cosmos::base::v1beta1::Coin { denom, amount }),
        },
    )
}

/// The bytes of an undelegation instruction, as `cosmos_sdk_proto` encodes them.
pub uninterp spec fn msg_undelegate_bytes(
    delegator: Seq<char>,
    validator: Seq<char>,
    denom: Seq<char>,
    amount: Seq<char>,
) -> Seq<u8>;

/// Encodes a `MsgUndelegate` of `cosmos_sdk_proto` with `prost`'s `encode_to_vec`. The
/// result is a function of the four texts alone; the contract gives it a name and claims
/// nothing more of it.
#[verifier::external_body]
fn encode_msg_undelegate(delegator: String, validator: String, denom: String, amount: String) -> (bytes: Vec<u8>)
    ensures
        bytes@ == msg_undelegate_bytes(delegator@, validator@, denom@, amount@),
{
    cosmos_sdk_proto::prost::Message::encode_to_vec(
        &cosmos_sdk_proto::cosmos::staking::v1beta1::MsgUndelegate {
            delegator_address: delegator,
            validator_address: validator,
            amount: Some(cosmos_sdk_proto::cosmos::base::v1beta1::Coin { denom, amount }),
        },
    )
}

/// The bytes of an instruction to withdraw a delegator's reward, as `cosmos_sdk_proto`
/// encodes them.
pub uninterp spec fn msg_withdraw_reward_bytes(delegator: Seq<char>, validator: Seq<char>) -> Seq<u8>;

/// Encodes a `MsgWithdrawDelegatorReward` of `cosmos_sdk_proto` with `prost`'s
/// `encode_to_vec`. The result is a function of the two texts alone; the contract gives
/// it a name and claims nothing more of it.
#[verifier::external_body]
fn encode_msg_withdraw_reward(delegator: String, validator: String) -> (bytes: Vec<u8>)
    ensures
        bytes@ == msg_withdraw_reward_bytes(delegator@, validator@),
{
    cosmos_sdk_proto::prost::Message::encode_to_vec(
        &cosmos_sdk_proto::cosmos::distribution::v1beta1::MsgWithdrawDelegatorReward {
            delegator_address: delegator,
            validator_address: validator,
        },
    )
}

/// The bytes of an instruction to set a delegator's withdrawal address, as
/// `cosmos_sdk_proto` encodes them.
pub uninterp spec fn msg_set_withdraw_address_bytes(delegator: Seq<char>, withdraw: Seq<char>) -> Seq<u8>;

/// Encodes a `MsgSetWithdrawAddress` of `cosmos_sdk_proto` with `prost`'s
/// `encode_to_vec`. The result is a function of the two texts alone; the contract gives
/// it a name and claims nothing more of it.
#[verifier::external_body]
fn encode_msg_set_withdraw_address(delegator: String, withdraw: String) -> (bytes: Vec<u8>)
    ensures
        bytes@ == msg_set_withdraw_address_bytes(delegator@, withdraw@),
{
    cosmos_sdk_proto::prost::Message::encode_to_vec(
        &cosmos_sdk_proto::cosmos::distribution::v1beta1::MsgSetWithdrawAddress {
            delegator_address: delegator,
            withdraw_address: withdraw,
        },
    )
}

/// The bytes of an instruction to send one coin, as `cosmos_sdk_proto` encodes them.
pub uninterp spec fn msg_send_bytes(
    from_address: Seq<char>,
    to_address: Seq<char>,
    denom: Seq<char>,
    amount: Seq<char>,
) -> Seq<u8>;

/// Encodes a `MsgSend` of `cosmos_sdk_proto` that sends one coin, with `prost`'s
/// `encode_to_vec`. The result is a function of the four texts alone; the contract gives
/// it a name and claims nothing more of it.
#[verifier::external_body]
fn encode_msg_send(from_address: String, to_address: String, denom: String, amount: String) -> (bytes: Vec<u8>)
    ensures
        bytes@ == msg_send_bytes(from_address@, to_address@, denom@, amount@),
{
    cosmos_sdk_proto::prost::Message::encode_to_vec(
        &cosmos_sdk_proto::cosmos::bank::v1beta1::MsgSend {
            from_address,
            to_address,
            amount: vec![cosmos_sdk_proto::cosmos::base::v1beta1::Coin { denom, amount }],
        },
    )
}

/// The bytes of an instruction to redeem liquid-share tokens, as `cosmos_sdk_proto`
/// encodes a message with the delegator in its first field and the coin in its second.
pub uninterp spec fn msg_redeem_tokens_bytes(delegator: Seq<char>, denom: Seq<char>, amount: Seq<char>) -> Seq<u8>;

/// Encodes an instruction to redeem liquid-share tokens with `prost`'s `encode_to_vec`.
/// `cosmos_sdk_proto` has no type of that name; its `Balance` has the same wire form, a
/// text in the first field and a coin in the second, and is encoded in its place. The
/// result is a function of the three texts alone; the contract gives it a name and claims
/// nothing more of it.
#[verifier::external_body]
fn encode_msg_redeem_tokens(delegator: String, denom: String, amount: String) -> (bytes: Vec<u8>)
    ensures
        bytes@ == msg_redeem_tokens_bytes(delegator@, denom@, amount@),
{
    cosmos_sdk_proto::prost::Message::encode_to_vec(
        &cosmos_sdk_proto::cosmos::bank::v1beta1::Balance {
            address: delegator,
            coins: vec![cosmos_sdk_proto::cosmos::base::v1beta1::Coin { denom, amount }],
        },
    )
}

/// The instruction by which `delegator` bonds `amount` of `denom` with `validator`.
pub open spec fn delegation_tx(
    delegator: Seq<char>,
    validator: Seq<char>,
    denom: Seq<char>,
    amount: u128,
) -> ProtobufAnyView {
    ProtobufAnyView {
        type_url: "/cosmos.staking.v1beta1.MsgDelegate"@,
        value: msg_delegate_bytes(delegator, validator, denom, decimal(amount as nat)),
    }
}

/// The instruction by which `delegator` moves `amount` of `denom` from one validator to
/// another.
pub open spec fn redelegate_tx(
    delegator: Seq<char>,
    src_validator: Seq<char>,
    target_validator: Seq<char>,
    denom: Seq<char>,
    amount: u128,
) -> ProtobufAnyView {
    ProtobufAnyView {
        type_url: "/cosmos.staking.v1beta1.BeginRedelegate"@,
        value: msg_begin_redelegate_bytes(
            delegator,
            src_validator,
            target_validator,
            denom,
            decimal(amount as nat),
        ),
    }
}

/// The instruction by which `delegator` unbonds `amount` of `denom` from `validator`.
pub open spec fn undelegate_tx(
    delegator: Seq<char>,
    validator: Seq<char>,
    denom: Seq<char>,
    amount: u128,
) -> ProtobufAnyView {
    ProtobufAnyView {
        type_url: "/cosmos.staking.v1beta1.MsgUndelegate"@,
        value: msg_undelegate_bytes(delegator, validator, denom, decimal(amount as nat)),
    }
}

/// The instruction by which `delegator` withdraws its reward from `validator`.
pub open spec fn withdraw_reward_tx(delegator: Seq<char>, validator: Seq<char>) -> ProtobufAnyView {
    ProtobufAnyView {
        type_url: "/cosmos.distribution.v1beta1.MsgWithdrawDelegatorReward"@,
        value: msg_withdraw_reward_bytes(delegator, validator),
    }
}

/// The instruction by which `delegator` has its rewards paid to `withdraw`.
pub open spec fn set_withdraw_address_tx(delegator: Seq<char>, withdraw: Seq<char>) -> ProtobufAnyView {
    ProtobufAnyView {
        type_url: "/cosmos.distribution.v1beta1.MsgSetWithdrawAddress"@,
        value: msg_set_withdraw_address_bytes(delegator, withdraw),
    }
}

/// The instruction that sends `amount`, a decimal numeral, of `denom`.
pub open spec fn send_tx(
    from_address: Seq<char>,
    to_address: Seq<char>,
    denom: Seq<char>,
    amount: Seq<char>,
) -> ProtobufAnyView {
    ProtobufAnyView {
        type_url: "/cosmos.bank.v1beta1.MsgSend"@,
        value: msg_send_bytes(from_address, to_address, denom, amount),
    }
}

/// The instruction by which `delegator` redeems the liquid-share tokens `token`.
pub open spec fn redeem_tx(delegator: Seq<char>, token: CoinView) -> ProtobufAnyView {
    ProtobufAnyView {
        type_url: "/cosmos.staking.v1beta1.MsgRedeemTokensForShares"@,
        value: msg_redeem_tokens_bytes(delegator, token.denom, decimal(token.amount as nat)),
    }
}

/// Wraps the encoded instruction `bytes` with the name `type_url` of its type.
pub fn protobuf_any(type_url: &str, bytes: Vec<u8>) -> (any: ProtobufAny)
    ensures
        any@ == (ProtobufAnyView { type_url: type_url@, value: bytes@ }),
{
    let any = ProtobufAny { type_url: String::from_str(type_url), value: bytes };
    assert(any@.value =~= bytes@);
    any
}

/// Builds the instruction that bonds `amount_for_this_validator` with `validator`.
pub fn gen_delegation_txs(
    delegator: String,
    validator: String,
    remote_denom: String,
    amount_for_this_validator: u128,
) -> (any: ProtobufAny)
    ensures
        any@ == delegation_tx(delegator@, validator@, remote_denom@, amount_for_this_validator),
{
    let bytes = encode_msg_delegate(
        delegator,
        validator,
        remote_denom,
        u128_to_string(amount_for_this_validator),
    );
    protobuf_any("/cosmos.staking.v1beta1.MsgDelegate", bytes)
}

/// Builds the instruction that moves `amount_for_this_validator` from `src_validator` to
/// `target_validator`.
pub fn gen_redelegate_txs(
    delegator: String,
    src_validator: String,
    target_validator: String,
    remote_denom: String,
    amount_for_this_validator: u128,
) -> (any: ProtobufAny)
    ensures
        any@ == redelegate_tx(
            delegator@,
            src_validator@,
            target_validator@,
            remote_denom@,
            amount_for_this_validator,
        ),
{
    let bytes = encode_msg_begin_redelegate(
        delegator,
        src_validator,
        target_validator,
        remote_denom,
        u128_to_string(amount_for_this_validator),
    );
    protobuf_any("/cosmos.staking.v1beta1.BeginRedelegate", bytes)
}

/// Builds the instruction that unbonds `amount` from `validator`.
pub fn gen_undelegate_tx(delegator: String, validator: String, remote_denom: String, amount: u128) -> (any:
    ProtobufAny)
    ensures
        any@ == undelegate_tx(delegator@, validator@, remote_denom@, amount),
{
    let bytes = encode_msg_undelegate(delegator, validator, remote_denom, u128_to_string(amount));
    protobuf_any("/cosmos.staking.v1beta1.MsgUndelegate", bytes)
}

/// Builds the instruction that withdraws the reward of `delegator` from `validator`.
pub fn gen_withdraw_reward_tx(delegator: String, validator: String) -> (any: ProtobufAny)
    ensures
        any@ == withdraw_reward_tx(delegator@, validator@),
{
    let bytes = encode_msg_withdraw_reward(delegator, validator);
    protobuf_any("/cosmos.distribution.v1beta1.MsgWithdrawDelegatorReward", bytes)
}

/// Builds the instruction that has the rewards of `delegator` paid to `withdraw`.
pub fn gen_set_withdraw_address_tx(delegator: String, withdraw: String) -> (any: ProtobufAny)
    ensures
        any@ == set_withdraw_address_tx(delegator@, withdraw@),
{
    let bytes = encode_msg_set_withdraw_address(delegator, withdraw);
    protobuf_any("/cosmos.distribution.v1beta1.MsgSetWithdrawAddress", bytes)
}

/// Builds the instruction that sends `amount`, a decimal numeral, of `denom`.
pub fn gen_msg_send(from_address: String, to_address: String, denom: String, amount: String) -> (any:
    ProtobufAny)
    ensures
        any@ == send_tx(from_address@, to_address@, denom@, amount@),
{
    let bytes = encode_msg_send(from_address, to_address, denom, amount);
    protobuf_any("/cosmos.bank.v1beta1.MsgSend", bytes)
}

/// A coin as the remote chain writes it: the amount is a decimal numeral.
#[derive(Clone, Debug, PartialEq, Eq)]
pub struct RawCoin {
    pub denom: String,
    pub amount: String,
}

/// The mathematical model of [`RawCoin`].
pub struct RawCoinView {
    pub denom: Seq<char>,
    pub amount: Seq<char>,
}

impl DeepView for RawCoin {
    type V = RawCoinView;

    open spec fn deep_view(&self) -> RawCoinView {
        RawCoinView { denom: self.denom@, amount: self.amount@ }
    }
}

impl View for RawCoin {
    type V = RawCoinView;

    open spec fn view(&self) -> RawCoinView {
        self.deep_view()
    }
}

impl RawCoin {
    /// The coin `value` as the remote chain writes it.
    pub fn from_coin(value: Coin) -> (r: RawCoin)
        ensures
            r@ == (RawCoinView { denom: value.denom@, amount: decimal(value.amount as nat) }),
    {
        RawCoin { denom: value.denom, amount: u128_to_string(value.amount) }
    }
}

/// Builds the instruction by which `delegator` redeems the liquid-share tokens `token`.
pub fn redeem_token_for_share_msg(delegator: String, token: Coin) -> (any: ProtobufAny)
    ensures
        any@ == redeem_tx(delegator@, token@),
{
    let raw = RawCoin::from_coin(token);
    let bytes = encode_msg_redeem_tokens(delegator, raw.denom, raw.amount);
    protobuf_any("/cosmos.staking.v1beta1.MsgRedeemTokensForShares", bytes)
}

/// The message that submits the instructions `msgs` to the interchain account
/// `interchain_account_id`, without memo and with the usual timeout.
pub open spec fn submit_tx_spec(
    connection_id: Seq<char>,
    interchain_account_id: Seq<char>,
    msgs: Seq<ProtobufAnyView>,
    fee: IbcFeeView,
) -> CosmosMsgView {
    CosmosMsgView::SubmitTx {
        connection_id,
        interchain_account_id,
        msgs,
        memo: Seq::empty(),
        timeout: DEFAULT_TIMEOUT_SECONDS,
        fee,
    }
}

/// Builds the message that submits the instructions `msgs` to an interchain account.
pub fn submit_tx(
    connection_id: String,
    interchain_account_id: String,
    msgs: Vec<ProtobufAny>,
    fee: IbcFee,
) -> (msg: CosmosMsg)
    ensures
        msg@ == submit_tx_spec(connection_id@, interchain_account_id@, msgs.deep_view(), fee@),
{
    CosmosMsg::SubmitTx {
        connection_id,
        interchain_account_id,
        msgs,
        memo: String::new(),
        timeout: DEFAULT_TIMEOUT_SECONDS,
        fee,
    }
}

/// The identifier under which the chain knows the query of kind `kind` on `addr`.
pub open spec fn query_id_spec(pre: StoreView, addr: Seq<char>, kind: QueryKind) -> Result<
    u64,
    ContractErrorView,
> {
    if !pre.address_to_reply_id.contains_key((addr, kind.name())) {
        Err(ContractErrorView::NotFound)
    } else if !pre.reply_id_to_query_id.contains_key(pre.address_to_reply_id[(addr, kind.name())]) {
        Err(ContractErrorView::NotFound)
    } else {
        Ok(pre.reply_id_to_query_id[pre.address_to_reply_id[(addr, kind.name())]])
    }
}

/// Looks up the identifier under which the chain knows the query of kind `query_kind` on
/// the account `addr`.
pub fn get_query_id(store: &Store, addr: String, query_kind: QueryKind) -> (r: Result<
    u64,
    ContractError,
>)
    ensures
        has_outcome(r, query_id_spec(store@, addr@, query_kind)),
{
    let reply_id = match store.address_to_reply_id.get(&(addr, query_kind.to_string())) {
        Some(id) => *id,
        None => {
            return Err(ContractError::NotFound);
        },
    };
    match store.reply_id_to_query_id.get(&reply_id) {
        Some(id) => Ok(*id),
        None => Err(ContractError::NotFound),
    }
}

/// The message that sets the refresh interval of the query `query_id` to `period`.
pub open spec fn update_period_msg(query_id: u64, period: u64) -> CosmosMsgView {
    CosmosMsgView::UpdateInterchainQuery { query_id, new_keys: None, new_update_period: Some(period) }
}

/// The messages that set the refresh interval of the four queries of a pool to `period`:
/// the balance of the pool, the balance of its withdrawal account, its delegations and
/// its validators, in this order. Refused where one of the queries is not registered or
/// the account pair of the pool is unknown.
pub open spec fn update_pool_icq_msgs_spec(
    pre: StoreView,
    pool_addr: Seq<char>,
    pool_ica_id: Seq<char>,
    period: u64,
) -> Result<Seq<CosmosMsgView>, ContractErrorView> {
    match query_id_spec(pre, pool_addr, QueryKind::Balances) {
        Err(e) => Err(e),
        Ok(pool_balances) => if !pre.info_of_ica_id.contains_key(pool_ica_id) {
            Err(ContractErrorView::NotFound)
        } else {
            match query_id_spec(
                pre,
                pre.info_of_ica_id[pool_ica_id].withdraw_address_ica_info.ica_addr,
                QueryKind::Balances,
            ) {
                Err(e) => Err(e),
                Ok(withdraw_balances) => match query_id_spec(pre, pool_addr, QueryKind::Delegations) {
                    Err(e) => Err(e),
                    Ok(delegations) => match query_id_spec(pre, pool_addr, QueryKind::Validators) {
                        Err(e) => Err(e),
                        Ok(validators) => Ok(
                            seq![
                                update_period_msg(pool_balances, period),
                                update_period_msg(withdraw_balances, period),
                                update_period_msg(delegations, period),
                                update_period_msg(validators, period),
                            ],
                        ),
                    },
                },
            }
        },
    }
}

/// Builds the messages that set the refresh interval of the four queries of a pool.
pub fn get_update_pool_icq_msgs(store: &Store, pool_addr: String, pool_ica_id: String, period: u64) -> (r:
    Result<Vec<CosmosMsg>, ContractError>)
    ensures
        has_outcome(r, update_pool_icq_msgs_spec(store@, pool_addr@, pool_ica_id@, period)),
{
    let pool_balances_query_id = get_query_id(store, pool_addr.clone(), QueryKind::Balances)?;
    let withdraw_addr = match store.info_of_ica_id.get(&pool_ica_id) {
        Some(infos) => infos.withdraw_address_ica_info.ica_addr.clone(),
        None => {
            return Err(ContractError::NotFound);
        },
    };
    let withdraw_addr_balances_query_id = get_query_id(store, withdraw_addr, QueryKind::Balances)?;
    let pool_delegations_query_id = get_query_id(store, pool_addr.clone(), QueryKind::Delegations)?;
    let pool_validators_query_id = get_query_id(store, pool_addr, QueryKind::Validators)?;
    let mut msgs: Vec<CosmosMsg> = Vec::new();
    msgs.push(
        CosmosMsg::UpdateInterchainQuery {
            query_id: pool_balances_query_id,
            new_keys: None,
            new_update_period: Some(period),
        },
    );
    msgs.push(
        CosmosMsg::UpdateInterchainQuery {
            query_id: withdraw_addr_balances_query_id,
            new_keys: None,
            new_update_period: Some(period),
        },
    );
    msgs.push(
        CosmosMsg::UpdateInterchainQuery {
            query_id: pool_delegations_query_id,
            new_keys: None,
            new_update_period: Some(period),
        },
    );
    msgs.push(
        CosmosMsg::UpdateInterchainQuery {
            query_id: pool_validators_query_id,
            new_keys: None,
            new_update_period: Some(period),
        },
    );
    proof {
        assert(msgs.deep_view() =~= seq![
            update_period_msg(pool_balances_query_id, period),
            update_period_msg(withdraw_addr_balances_query_id, period),
            update_period_msg(pool_delegations_query_id, period),
            update_period_msg(pool_validators_query_id, period),
        ]);
    }
    Ok(msgs)
}

/// The storage keys of the remote chain that the query for the delegations of `delegator`
/// to `validators` watches, as `neutron_sdk` builds them; none where it cannot build them.
pub uninterp spec fn delegations_query_keys(
    connection_id: Seq<char>,
    delegator: Seq<char>,
    validators: Seq<Seq<char>>,
    update_period: u64,
) -> Option<Seq<KVKeyView>>;

/// Calls `new_register_delegator_delegations_query_msg` of `neutron_sdk` and hands out the
/// keys of the registration message it builds, or nothing where it fails or builds another
/// message. The keys are a function of the arguments alone; the contract gives them a
/// name and claims nothing more of them.
#[verifier::external_body]
fn build_delegations_query_keys(
    connection_id: String,
    delegator: String,
    validators: Vec<String>,
    update_period: u64,
) -> (keys: Option<Vec<KVKey>>)
    ensures
        keys.deep_view() == delegations_query_keys(
            connection_id@,
            delegator@,
            validators.deep_view(),
            update_period,
        ),
{
    match neutron_sdk::interchain_queries::v045::new_register_delegator_delegations_query_msg(
        connection_id,
        delegator,
        validators,
        update_period,
    ) {
        Ok(neutron_sdk::bindings::msg::NeutronMsg::RegisterInterchainQuery { keys, .. }) => Some(
            keys.into_iter().map(|k| KVKey { path: k.path, key: k.key.0 }).collect(),
        ),
        _ => None,
    }
}

/// The storage keys of the remote chain that the query for `validators` watches, as
/// `neutron_sdk` builds them; none where it cannot build them.
pub uninterp spec fn validators_query_keys(
    connection_id: Seq<char>,
    validators: Seq<Seq<char>>,
    update_period: u64,
) -> Option<Seq<KVKeyView>>;

/// Calls `new_register_staking_validators_query_msg` of `neutron_sdk` and hands out the
/// keys of the registration message it builds, or nothing where it fails or builds another
/// message. The keys are a function of the arguments alone; the contract gives them a
/// name and claims nothing more of them.
#[verifier::external_body]
fn build_validators_query_keys(connection_id: String, validators: Vec<String>, update_period: u64) -> (keys:
    Option<Vec<KVKey>>)
    ensures
        keys.deep_view() == validators_query_keys(connection_id@, validators.deep_view(), update_period),
{
    match neutron_sdk::interchain_queries::v045::new_register_staking_validators_query_msg(
        connection_id,
        validators,
        update_period,
    ) {
        Ok(neutron_sdk::bindings::msg::NeutronMsg::RegisterInterchainQuery { keys, .. }) => Some(
            keys.into_iter().map(|k| KVKey { path: k.path, key: k.key.0 }).collect(),
        ),
        _ => None,
    }
}

/// The storage keys of the remote chain that the query for the balance of `addr` in
/// `denom` watches, as `neutron_sdk` builds them; none where it cannot build them.
pub uninterp spec fn balance_query_keys(
    connection_id: Seq<char>,
    addr: Seq<char>,
    denom: Seq<char>,
    update_period: u64,
) -> Option<Seq<KVKeyView>>;

/// Calls `new_register_balance_query_msg` of `neutron_sdk` and hands out the keys of the
/// registration message it builds, or nothing where it fails or builds another message.
/// The keys are a function of the arguments alone; the contract gives them a name and
/// claims nothing more of them.
#[verifier::external_body]
fn build_balance_query_keys(connection_id: String, addr: String, denom: String, update_period: u64) -> (keys:
    Option<Vec<KVKey>>)
    ensures
        keys.deep_view() == balance_query_keys(connection_id@, addr@, denom@, update_period),
{
    match neutron_sdk::interchain_queries::v045::new_register_balance_query_msg(
        connection_id,
        addr,
        denom,
        update_period,
    ) {
        Ok(neutron_sdk::bindings::msg::NeutronMsg::RegisterInterchainQuery { keys, .. }) => Some(
            keys.into_iter().map(|k| KVKey { path: k.path, key: k.key.0 }).collect(),
        ),
        _ => None,
    }
}

/// The message that registers a query over `keys`, where they could be built.
pub open spec fn register_query_msg(
    keys: Option<Seq<KVKeyView>>,
    connection_id: Seq<char>,
    update_period: u64,
) -> Result<CosmosMsgView, ContractErrorView> {
    match keys {
        Some(keys) => Ok(CosmosMsgView::RegisterInterchainQuery { keys, connection_id, update_period }),
        None => Err(ContractErrorView::ICQNewKeyBuildFailed),
    }
}

/// Builds the message that registers a query over `keys`, where the keys could be built.
pub fn register_query_msg_of(keys: Option<Vec<KVKey>>, connection_id: String, update_period: u64) -> (r: Result<
    CosmosMsg,
    ContractError,
>)
    ensures
        has_outcome(r, register_query_msg(keys.deep_view(), connection_id@, update_period)),
{
    match keys {
        Some(keys) => Ok(CosmosMsg::RegisterInterchainQuery { keys, connection_id, update_period }),
        None => Err(ContractError::ICQNewKeyBuildFailed),
    }
}

/// Builds the message that registers the query for the delegations of `delegator` to
/// `validators`.
pub fn register_delegator_delegations_query_msg(
    connection_id: String,
    delegator: String,
    validators: Vec<String>,
    update_period: u64,
) -> (r: Result<CosmosMsg, ContractError>)
    ensures
        has_outcome(
            r,
            register_query_msg(
                delegations_query_keys(
                    connection_id@,
                    delegator@,
                    validators.deep_view(),
                    update_period,
                ),
                connection_id@,
                update_period,
            ),
        ),
{
    let keys = build_delegations_query_keys(
        connection_id.clone(),
        delegator,
        validators,
        update_period,
    );
    register_query_msg_of(keys, connection_id, update_period)
}

/// Builds the message that registers the query for `validators`.
pub fn register_staking_validators_query_msg(
    connection_id: String,
    validators: Vec<String>,
    update_period: u64,
) -> (r: Result<CosmosMsg, ContractError>)
    ensures
        has_outcome(
            r,
            register_query_msg(
                validators_query_keys(connection_id@, validators.deep_view(), update_period),
                connection_id@,
                update_period,
            ),
        ),
{
    let keys = build_validators_query_keys(connection_id.clone(), validators, update_period);
    register_query_msg_of(keys, connection_id, update_period)
}

/// Builds the message that registers the query for the balance of `addr` in `denom`.
pub fn register_balance_query_msg(
    connection_id: String,
    addr: String,
    denom: String,
    update_period: u64,
) -> (r: Result<CosmosMsg, ContractError>)
    ensures
        has_outcome(
            r,
            register_query_msg(
                balance_query_keys(connection_id@, addr@, denom@, update_period),
                connection_id@,
                update_period,
            ),
        ),
{
    let keys = build_balance_query_keys(connection_id.clone(), addr, denom, update_period);
    register_query_msg_of(keys, connection_id, update_period)
}

/// The response that gives the delegations query of the pool `pool_addr` the keys
/// `delegations_keys` and its validators query the keys `validators_keys`: one message for
/// each. Refused where keys could not be built or a query is not registered.
pub open spec fn validators_icq_update_of(
    pre: StoreView,
    pool_addr: Seq<char>,
    delegations_keys: Option<Seq<KVKeyView>>,
    validators_keys: Option<Seq<KVKeyView>>,
) -> Result<ResponseView, ContractErrorView> {
    match delegations_keys {
        None => Err(ContractErrorView::ICQNewKeyBuildFailed),
        Some(delegations_keys) => match query_id_spec(pre, pool_addr, QueryKind::Delegations) {
            Err(e) => Err(e),
            Ok(delegations_id) => match validators_keys {
                None => Err(ContractErrorView::ICQNewKeyBuildFailed),
                Some(validators_keys) => match query_id_spec(pre, pool_addr, QueryKind::Validators) {
                    Err(e) => Err(e),
                    Ok(validators_id) => Ok(
                        ResponseView {
                            messages: seq![
                                crate::chain::plain_msg(
                                    CosmosMsgView::UpdateInterchainQuery {
                                        query_id: delegations_id,
                                        new_keys: Some(delegations_keys),
                                        new_update_period: None,
                                    },
                                ),
                                crate::chain::plain_msg(
                                    CosmosMsgView::UpdateInterchainQuery {
                                        query_id: validators_id,
                                        new_keys: Some(validators_keys),
                                        new_update_period: None,
                                    },
                                ),
                            ],
                            attributes: Seq::empty(),
                        },
                    ),
                },
            },
        },
    }
}

/// The response that makes the queries of the pool `pool_addr` watch `validators`, with
/// the keys that are built for that set.
pub open spec fn validators_icq_update_spec(
    pre: StoreView,
    pool_addr: Seq<char>,
    validators: Seq<Seq<char>>,
    connection_id: Seq<char>,
) -> Result<ResponseView, ContractErrorView> {
    validators_icq_update_of(
        pre,
        pool_addr,
        delegations_query_keys(connection_id, pool_addr, validators, DEFAULT_UPDATE_PERIOD),
        validators_query_keys(connection_id, validators, DEFAULT_UPDATE_PERIOD),
    )
}

/// Builds the response that gives the two queries of the pool `pool_addr` that watch its
/// validators their new keys.
pub fn validators_icq_update(
    store: &Store,
    pool_addr: String,
    delegations_keys: Option<Vec<KVKey>>,
    validators_keys: Option<Vec<KVKey>>,
) -> (r: Result<Response, ContractError>)
    ensures
        has_outcome(
            r,
            validators_icq_update_of(
                store@,
                pool_addr@,
                delegations_keys.deep_view(),
                validators_keys.deep_view(),
            ),
        ),
{
    let new_delegations_keys = match delegations_keys {
        Some(keys) => keys,
        None => {
            return Err(ContractError::ICQNewKeyBuildFailed);
        },
    };
    let delegations_id = get_query_id(store, pool_addr.clone(), QueryKind::Delegations)?;
    let new_validators_keys = match validators_keys {
        Some(keys) => keys,
        None => {
            return Err(ContractError::ICQNewKeyBuildFailed);
        },
    };
    let validators_id = get_query_id(store, pool_addr, QueryKind::Validators)?;
    let mut resp = Response::new();
    resp.add_message(
        CosmosMsg::UpdateInterchainQuery {
            query_id: delegations_id,
            new_keys: Some(new_delegations_keys),
            new_update_period: None,
        },
    );
    resp.add_message(
        CosmosMsg::UpdateInterchainQuery {
            query_id: validators_id,
            new_keys: Some(new_validators_keys),
            new_update_period: None,
        },
    );
    proof {
        assert(resp@.messages =~= validators_icq_update_of(
            store@,
            pool_addr@,
            delegations_keys.deep_view(),
            validators_keys.deep_view(),
        )->Ok_0.messages);
    }
    Ok(resp)
}

/// Builds the response that makes the queries of the pool `pool_addr` watch `validators`.
pub fn deal_validators_icq_update(
    store: &Store,
    pool_addr: String,
    validators: Vec<String>,
    ctrl_connection_id: String,
) -> (r: Result<Response, ContractError>)
    ensures
        has_outcome(
            r,
            validators_icq_update_spec(store@, pool_addr@, validators.deep_view(), ctrl_connection_id@),
        ),
{
    let validators_again = crate::text::copy_list(&validators);
    let delegations_keys = build_delegations_query_keys(
        ctrl_connection_id.clone(),
        pool_addr.clone(),
        validators,
        DEFAULT_UPDATE_PERIOD,
    );
    let validators_keys = build_validators_query_keys(
        ctrl_connection_id,
        validators_again,
        DEFAULT_UPDATE_PERIOD,
    );
    validators_icq_update(store, pool_addr, delegations_keys, validators_keys)
}

/// Completes the initialisation of a pool whose withdrawal address was set on the remote
/// chain: the pool is at rest and can begin its first era.
pub fn sudo_set_withdraw_addr_callback(store: &mut Store, payload: crate::state::SudoPayload) -> (r:
    Result<Response, ContractError>)
    ensures
        agrees(
            r,
            old(store)@,
            final(store)@,
            crate::execute_era_collect_withdraw::step_resolved(
                old(store)@,
                payload.pool_addr@,
                crate::state::EraStatus::ActiveEnded,
                None,
            ),
        ),
{
    crate::execute_era_collect_withdraw::resolve_step(
        store,
        payload.pool_addr,
        crate::state::EraStatus::ActiveEnded,
        None,
    )
}

/// Marks the initialisation of a pool as failed when its withdrawal address could not be
/// set: the initialisation can be called again.
pub fn sudo_set_withdraw_addr_failed_callback(store: &mut Store, payload: crate::state::SudoPayload) -> (r:
    Result<Response, ContractError>)
    ensures
        agrees(
            r,
            old(store)@,
            final(store)@,
            crate::execute_era_collect_withdraw::step_resolved(
                old(store)@,
                payload.pool_addr@,
                crate::state::EraStatus::InitFailed,
                None,
            ),
        ),
{
    crate::execute_era_collect_withdraw::resolve_step(
        store,
        payload.pool_addr,
        crate::state::EraStatus::InitFailed,
        None,
    )
}

} // verus!
