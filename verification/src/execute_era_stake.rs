//! The second step of an era: the net of what was deposited and what was requested back is
//! delegated to, or unbonded from, the validators of the pool.
use vstd::prelude::*;
use crate::chain::{
    Delegation,
    DelegationView,
    DelegatorDelegationsResponse,
    DelegatorDelegationsResponseView,
    Env,
    EnvView,
    IbcFee,
    IbcFeeView,
    MessageInfo,
    MessageInfoView,
    ProtobufAny,
    ProtobufAnyView,
    Response,
    ResponseView,
};
use crate::error_conversion::{ContractError, ContractErrorView};
use crate::helper::{
    agrees,
    answer_view,
    check_ibc_fee,
    check_ibc_fee_spec,
    delegation_tx,
    dispatch_response,
    empty_response,
    gen_delegation_txs,
    gen_undelegate_tx,
    gen_withdraw_reward_tx,
    has_outcome,
    submit_tx,
    submit_tx_spec,
    undelegate_tx,
    withdraw_reward_tx,
    STAKE_SPLIT_THRESHOLD,
};
use crate::query::{observed, query_delegation_by_addr};
use crate::state::{
    next_id,
    registered,
    EraStatus,
    PoolInfoView,
    QueryKind,
    Store,
    StoreView,
    SudoPayload,
    SudoPayloadView,
    TxType,
    REPLY_ID_RANGE_START,
};
use crate::table::Table;
use crate::text::{join, join_spec, list_contains};
use crate::tx_callback::msg_with_sudo_callback;

verus! {

/// Most unbondings of one delegator from one validator that may be in flight at a time.
pub const UNBOND_TIMES_LIMIT: usize = 7;

/// A validator and the amount to unbond from it.
#[derive(Clone, Debug, PartialEq, Eq)]
pub struct ValidatorUnbondInfo {
    pub validator: String,
    pub unbond_amount: u128,
}

/// The mathematical model of [`ValidatorUnbondInfo`].
pub struct ValidatorUnbondInfoView {
    pub validator: Seq<char>,
    pub unbond_amount: u128,
}

impl DeepView for ValidatorUnbondInfo {
    type V = ValidatorUnbondInfoView;

    open spec fn deep_view(&self) -> ValidatorUnbondInfoView {
        ValidatorUnbondInfoView { validator: self.validator@, unbond_amount: self.unbond_amount }
    }
}

impl View for ValidatorUnbondInfo {
    type V = ValidatorUnbondInfoView;

    open spec fn view(&self) -> ValidatorUnbondInfoView {
        self.deep_view()
    }
}

/// The recorded times of unbonding dispatches, by delegator and validator.
pub type UnbondTimes = Map<(Seq<char>, Seq<char>), Seq<u64>>;

/// An unbonding dispatched at `t` is still in flight at `now`, the unbonding taking
/// `period` seconds.
pub open spec fn in_flight(t: u64, now: u64, period: u64) -> bool {
    now < t + period
}

/// The times of `times` whose unbonding is still in flight at `now`, in their order.
pub open spec fn live_times(times: Seq<u64>, now: u64, period: u64) -> Seq<u64> {
    times.filter(|t: u64| in_flight(t, now, period))
}

/// Whether unbonding from `validator` is held back: seven or more unbondings of
/// `delegator` from it are in flight.
pub open spec fn throttled(
    times: UnbondTimes,
    delegator: Seq<char>,
    validator: Seq<char>,
    now: u64,
    period: u64,
) -> bool {
    times.contains_key((delegator, validator)) && live_times(
        times[(delegator, validator)],
        now,
        period,
    ).len() >= UNBOND_TIMES_LIMIT
}

/// Position of the largest delegation of `s`; of the first one, where several are largest.
pub open spec fn first_largest(s: Seq<DelegationView>) -> int
    decreases s.len(),
{
    if s.len() <= 1 {
        0
    } else {
        let i = first_largest(s.drop_last());
        if s.last().amount.amount > s[i].amount.amount {
            s.len() - 1
        } else {
            i
        }
    }
}

/// The delegations of `s` from the largest to the smallest; equal ones keep their order.
pub open spec fn largest_first(s: Seq<DelegationView>) -> Seq<DelegationView>
    decreases s.len(),
{
    if s.len() == 0 {
        Seq::empty()
    } else {
        proof {
            lemma_first_largest_in_range(s);
        }
        let i = first_largest(s);
        seq![s[i]] + largest_first(s.remove(i))
    }
}

/// What is taken from one delegation when `remaining` is still to unbond.
pub open spec fn share(d: DelegationView, remaining: u128) -> u128 {
    if d.amount.amount < remaining {
        d.amount.amount
    } else {
        remaining
    }
}

/// The allocations made while walking `order` with `remaining` still to unbond: a
/// delegation that is held back is passed over, any other gives what it has, up to what
/// remains; the walk ends when nothing remains.
pub open spec fn allocations(
    order: Seq<DelegationView>,
    remaining: u128,
    times: UnbondTimes,
    now: u64,
    period: u64,
) -> Seq<ValidatorUnbondInfoView>
    decreases order.len(),
{
    if remaining == 0 || order.len() == 0 {
        Seq::empty()
    } else {
        let d = order[0];
        if throttled(times, d.delegator, d.validator, now, period) {
            allocations(order.drop_first(), remaining, times, now, period)
        } else {
            let take = share(d, remaining);
            seq![ValidatorUnbondInfoView { validator: d.validator, unbond_amount: take }]
                + allocations(order.drop_first(), (remaining - take) as u128, times, now, period)
        }
    }
}

/// What is still to unbond after that walk.
pub open spec fn unallocated(
    order: Seq<DelegationView>,
    remaining: u128,
    times: UnbondTimes,
    now: u64,
    period: u64,
) -> u128
    decreases order.len(),
{
    if remaining == 0 || order.len() == 0 {
        remaining
    } else {
        let d = order[0];
        if throttled(times, d.delegator, d.validator, now, period) {
            unallocated(order.drop_first(), remaining, times, now, period)
        } else {
            unallocated(
                order.drop_first(),
                (remaining - share(d, remaining)) as u128,
                times,
                now,
                period,
            )
        }
    }
}

/// The recorded times after that walk: the record of each delegation that the walk came
/// to holds only the times still in flight.
pub open spec fn pruned_times(
    order: Seq<DelegationView>,
    remaining: u128,
    times: UnbondTimes,
    now: u64,
    period: u64,
) -> UnbondTimes
    decreases order.len(),
{
    if remaining == 0 || order.len() == 0 {
        times
    } else {
        let d = order[0];
        let key = (d.delegator, d.validator);
        let kept = if times.contains_key(key) {
            times.insert(key, live_times(times[key], now, period))
        } else {
            times
        };
        let take = if throttled(times, d.delegator, d.validator, now, period) {
            0
        } else {
            share(d, remaining)
        };
        pruned_times(order.drop_first(), (remaining - take) as u128, kept, now, period)
    }
}

/// The sum of the amounts of a list of allocations.
pub open spec fn allocated_sum(infos: Seq<ValidatorUnbondInfoView>) -> int
    decreases infos.len(),
{
    if infos.len() == 0 {
        0
    } else {
        infos[0].unbond_amount + allocated_sum(infos.drop_first())
    }
}

/// How `unbond_amount` is distributed over `delegations`: the allocations of the walk from
/// the largest delegation down, where the walk leaves nothing unallocated; else a refusal.
pub open spec fn allocate_unbond_amount_spec(
    delegations: Seq<DelegationView>,
    unbond_amount: u128,
    times: UnbondTimes,
    now: u64,
    period: u64,
) -> Result<Seq<ValidatorUnbondInfoView>, ContractErrorView> {
    let order = largest_first(delegations);
    if unallocated(order, unbond_amount, times, now, period) != 0 {
        Err(ContractErrorView::ValidatorForUnbondNotEnough)
    } else {
        Ok(allocations(order, unbond_amount, times, now, period))
    }
}

/// What a walk allocates and what it leaves make up what was to unbond.
pub proof fn lemma_allocations_sum(
    order: Seq<DelegationView>,
    remaining: u128,
    times: UnbondTimes,
    now: u64,
    period: u64,
)
    ensures
        allocated_sum(allocations(order, remaining, times, now, period)) + unallocated(
            order,
            remaining,
            times,
            now,
            period,
        ) == remaining,
    decreases order.len(),
{
    if remaining == 0 || order.len() == 0 {
    } else {
        let d = order[0];
        if throttled(times, d.delegator, d.validator, now, period) {
            lemma_allocations_sum(order.drop_first(), remaining, times, now, period);
        } else {
            let take = share(d, remaining);
            let rest = allocations(
                order.drop_first(),
                (remaining - take) as u128,
                times,
                now,
                period,
            );
            lemma_allocations_sum(
                order.drop_first(),
                (remaining - take) as u128,
                times,
                now,
                period,
            );
            let all = seq![ValidatorUnbondInfoView { validator: d.validator, unbond_amount: take }]
                + rest;
            assert(all.drop_first() =~= rest);
        }
    }
}

/// The delegation at position `j` of `order` is to `validator` and is not held back.
pub open spec fn free_at(
    order: Seq<DelegationView>,
    validator: Seq<char>,
    times: UnbondTimes,
    now: u64,
    period: u64,
    j: int,
) -> bool {
    0 <= j < order.len() && order[j].validator == validator && !throttled(
        times,
        order[j].delegator,
        order[j].validator,
        now,
        period,
    )
}

/// Some delegation of `order` is to `validator` and is not held back.
pub open spec fn has_free_delegation(
    order: Seq<DelegationView>,
    validator: Seq<char>,
    times: UnbondTimes,
    now: u64,
    period: u64,
) -> bool {
    exists|j: int| free_at(order, validator, times, now, period, j)
}

/// Every allocation of a walk is made from a delegation of the walk that is not held back.
pub proof fn lemma_allocations_not_throttled(
    order: Seq<DelegationView>,
    remaining: u128,
    times: UnbondTimes,
    now: u64,
    period: u64,
)
    ensures
        forall|i: int|
            0 <= i < allocations(order, remaining, times, now, period).len()
                ==> has_free_delegation(
                order,
                (#[trigger] allocations(order, remaining, times, now, period)[i]).validator,
                times,
                now,
                period,
            ),
    decreases order.len(),
{
    let all = allocations(order, remaining, times, now, period);
    if remaining == 0 || order.len() == 0 {
    } else {
        let d = order[0];
        let tail = order.drop_first();
        if throttled(times, d.delegator, d.validator, now, period) {
            lemma_allocations_not_throttled(tail, remaining, times, now, period);
            assert forall|i: int| 0 <= i < all.len() implies has_free_delegation(
                order,
                (#[trigger] all[i]).validator,
                times,
                now,
                period,
            ) by {
                let v = all[i].validator;
                let rest = allocations(tail, remaining, times, now, period);
                assert(all == rest);
                assert(rest[i].validator == v);
                assert(has_free_delegation(tail, v, times, now, period));
                let j0 = choose|j: int| free_at(tail, v, times, now, period, j);
                assert(order[j0 + 1] == tail[j0]);
                assert(free_at(order, v, times, now, period, j0 + 1));
            }
        } else {
            let take = share(d, remaining);
            let rest = allocations(tail, (remaining - take) as u128, times, now, period);
            lemma_allocations_not_throttled(tail, (remaining - take) as u128, times, now, period);
            assert forall|i: int| 0 <= i < all.len() implies has_free_delegation(
                order,
                (#[trigger] all[i]).validator,
                times,
                now,
                period,
            ) by {
                let v = all[i].validator;
                if i == 0 {
                    assert(free_at(order, v, times, now, period, 0));
                } else {
                    assert(all[i] == rest[i - 1]);
                    assert(has_free_delegation(tail, rest[i - 1].validator, times, now, period));
                    let j0 = choose|j: int| free_at(tail, v, times, now, period, j);
                    assert(order[j0 + 1] == tail[j0]);
                    assert(free_at(order, v, times, now, period, j0 + 1));
                }
            }
        }
    }
}

/// Every delegation of the order `largest_first(s)` is a delegation of `s`.
pub proof fn lemma_largest_first_members(s: Seq<DelegationView>)
    ensures
        largest_first(s).len() == s.len(),
        forall|j: int| 0 <= j < s.len() ==> s.contains(#[trigger] largest_first(s)[j]),
    decreases s.len(),
{
    if s.len() == 0 {
    } else {
        let i = first_largest(s);
        lemma_first_largest_in_range(s);
        let rest = s.remove(i);
        lemma_largest_first_members(rest);
        let all = largest_first(s);
        assert forall|j: int| 0 <= j < s.len() implies s.contains(#[trigger] all[j]) by {
            if j == 0 {
                assert(all[0] == s[i]);
            } else {
                assert(all[j] == largest_first(rest)[j - 1]);
                assert(rest.contains(largest_first(rest)[j - 1]));
                let k0 = choose|k: int| 0 <= k < rest.len() && rest[k] == largest_first(rest)[j - 1];
                if k0 < i {
                    assert(rest[k0] == s[k0]);
                } else {
                    assert(rest[k0] == s[k0 + 1]);
                }
            }
        }
    }
}

/// The position `first_largest` names lies in the list, and no delegation is larger than
/// the one it names.
pub proof fn lemma_first_largest_in_range(s: Seq<DelegationView>)
    requires
        s.len() > 0,
    ensures
        0 <= first_largest(s) < s.len(),
        forall|k: int| 0 <= k < s.len() ==> (#[trigger] s[k]).amount.amount <= s[first_largest(s)].amount.amount,
        forall|k: int| 0 <= k < first_largest(s) ==> (#[trigger] s[k]).amount.amount < s[first_largest(s)].amount.amount,
    decreases s.len(),
{
    if s.len() <= 1 {
    } else {
        lemma_first_largest_in_range(s.drop_last());
        let i = first_largest(s.drop_last());
        assert forall|k: int| 0 <= k < s.len() - 1 implies s[k] == s.drop_last()[k] by {}
        assert(s[i] == s.drop_last()[i]);
        assert forall|k: int| 0 <= k < s.len() implies (#[trigger] s[k]).amount.amount <= s[first_largest(s)].amount.amount by {
            if k < s.len() - 1 {
                assert(s[k] == s.drop_last()[k]);
            }
        }
        assert forall|k: int| 0 <= k < first_largest(s) implies (#[trigger] s[k]).amount.amount < s[first_largest(s)].amount.amount by {
            if k < s.len() - 1 {
                assert(s[k] == s.drop_last()[k]);
            }
        }
    }
}

/// The delegations of `dv` at the positions `idx`, in the order of `idx`.
pub open spec fn picked(dv: Seq<DelegationView>, idx: Seq<usize>) -> Seq<DelegationView> {
    Seq::new(idx.len(), |k: int| dv[idx[k] as int])
}

/// The positions of `delegations` in the order from the largest delegation to the smallest.
fn largest_first_order(delegations: &Vec<Delegation>) -> (order: Vec<usize>)
    ensures
        order.len() == delegations.len(),
        forall|k: int| 0 <= k < order.len() ==> (#[trigger] order[k]) < delegations.len(),
        picked(delegations.deep_view(), order@) == largest_first(delegations.deep_view()),
{
    let n = delegations.len();
    let ghost dv = delegations.deep_view();
    let mut rest: Vec<usize> = Vec::new();
    let mut k: usize = 0;
    while k < n
        invariant
            0 <= k <= n,
            n == delegations.len(),
            rest.len() == k,
            forall|j: int| 0 <= j < k ==> rest[j] == j,
        decreases n - k,
    {
        rest.push(k);
        k += 1;
    }
    let mut order: Vec<usize> = Vec::new();
    proof {
        assert(picked(dv, rest@) =~= dv);
        assert(picked(dv, order@) =~= Seq::<DelegationView>::empty());
        assert(picked(dv, order@) + largest_first(picked(dv, rest@)) =~= largest_first(dv));
    }
    while rest.len() > 0
        invariant
            n == delegations.len(),
            dv == delegations.deep_view(),
            order.len() + rest.len() == n,
            forall|j: int| 0 <= j < rest.len() ==> (#[trigger] rest[j]) < n,
            forall|j: int| 0 <= j < order.len() ==> (#[trigger] order[j]) < n,
            picked(dv, order@) + largest_first(picked(dv, rest@)) == largest_first(dv),
        decreases rest.len(),
    {
        let ghost open_list = picked(dv, rest@);
        let mut best: usize = 0;
        let mut j: usize = 1;
        proof {
            assert(open_list.subrange(0, 1).len() == 1);
        }
        while j < rest.len()
            invariant
                1 <= j <= rest.len(),
                0 <= best < j,
                n == delegations.len(),
                dv == delegations.deep_view(),
                open_list == picked(dv, rest@),
                forall|j: int| 0 <= j < rest.len() ==> (#[trigger] rest[j]) < n,
                best == first_largest(open_list.subrange(0, j as int)),
            decreases rest.len() - j,
        {
            let ghost sofar = open_list.subrange(0, j as int);
            let ghost next = open_list.subrange(0, j + 1);
            proof {
                assert(next.drop_last() =~= sofar);
                assert(next.last() == dv[rest[j as int] as int]);
                assert(next[best as int] == dv[rest[best as int] as int]);
            }
            if delegations[rest[j]].amount.amount > delegations[rest[best]].amount.amount {
                best = j;
            }
            j += 1;
        }
        proof {
            assert(open_list.subrange(0, rest.len() as int) =~= open_list);
            lemma_first_largest_in_range(open_list);
        }
        let ghost before = picked(dv, order@);
        let idx = rest.remove(best);
        order.push(idx);
        proof {
            assert(picked(dv, rest@) =~= open_list.remove(best as int));
            assert(picked(dv, order@) =~= before.push(open_list[best as int]));
            assert(largest_first(open_list) == seq![open_list[best as int]] + largest_first(
                open_list.remove(best as int),
            ));
            assert(before.push(open_list[best as int]) + largest_first(
                open_list.remove(best as int),
            ) =~= before + largest_first(open_list));
        }
    }
    proof {
        assert(picked(dv, rest@) =~= Seq::<DelegationView>::empty());
        assert(picked(dv, order@) + Seq::<DelegationView>::empty() =~= picked(dv, order@));
    }
    order
}

/// An unbonding dispatched at `t` is still in flight at `now`.
fn is_in_flight(t: u64, now: u64, period: u64) -> (b: bool)
    ensures
        b == in_flight(t, now, period),
{
    (now as u128) < (t as u128) + (period as u128)
}

/// The times of `times` whose unbonding is still in flight at `now`.
fn keep_live_times(times: &Vec<u64>, now: u64, period: u64) -> (r: Vec<u64>)
    ensures
        r@ == live_times(times@, now, period),
{
    let mut r: Vec<u64> = Vec::new();
    let mut i: usize = 0;
    let ghost keep = |t: u64| in_flight(t, now, period);
    proof {
        assert(times@.subrange(0, 0) =~= Seq::<u64>::empty());
    }
    while i < times.len()
        invariant
            0 <= i <= times.len(),
            keep == |t: u64| in_flight(t, now, period),
            r@ == times@.subrange(0, i as int).filter(keep),
        decreases times.len() - i,
    {
        let ghost sofar = times@.subrange(0, i as int);
        let ghost next = times@.subrange(0, i + 1);
        proof {
            assert(next.drop_last() =~= sofar);
            assert(next.last() == times@[i as int]);
            reveal(Seq::filter);
        }
        if is_in_flight(times[i], now, period) {
            r.push(times[i]);
        }
        i += 1;
    }
    proof {
        assert(times@.subrange(0, times.len() as int) =~= times@);
    }
    r
}

/// Whether unbonding of `delegator` from `validator` is held back.
fn is_throttled(
    times: &Table<(String, String), Vec<u64>>,
    delegator: &String,
    validator: &String,
    now: u64,
    period: u64,
) -> (b: bool)
    ensures
        b == throttled(times@, delegator@, validator@, now, period),
{
    match times.get(&(delegator.clone(), validator.clone())) {
        Some(list) => {
            assert(list.deep_view() =~= list@);
            keep_live_times(list, now, period).len() >= UNBOND_TIMES_LIMIT
        },
        None => false,
    }
}

/// Some delegation of a list is free whenever some delegation of its order is.
proof fn lemma_free_in_order(
    s: Seq<DelegationView>,
    validator: Seq<char>,
    times: UnbondTimes,
    now: u64,
    period: u64,
)
    requires
        has_free_delegation(largest_first(s), validator, times, now, period),
    ensures
        has_free_delegation(s, validator, times, now, period),
{
    let order = largest_first(s);
    let j = choose|j: int| free_at(order, validator, times, now, period, j);
    lemma_largest_first_members(s);
    assert(s.contains(order[j]));
    let k = choose|k: int| 0 <= k < s.len() && s[k] == order[j];
    assert(free_at(s, validator, times, now, period, k));
}

/// Distributes `unbond_amount` over the validators to which `delegations` are made.
///
/// The validators are taken from the largest delegation to the smallest, equal ones in
/// the order given. A validator from which seven or more unbondings are in flight is
/// passed over; any other gives what is delegated to it, up to what remains. The
/// allocations sum to `unbond_amount` exactly: where the validators cannot give that
/// much, the distribution is refused as a whole.
pub fn allocate_unbond_amount(
    times: &Table<(String, String), Vec<u64>>,
    current_time: u64,
    delegations: &Vec<Delegation>,
    unbond_amount: u128,
    unbonding_period_seconds: u64,
) -> (r: Result<Vec<ValidatorUnbondInfo>, ContractError>)
    ensures
        has_outcome(
            r,
            allocate_unbond_amount_spec(
                delegations.deep_view(),
                unbond_amount,
                times@,
                current_time,
                unbonding_period_seconds,
            ),
        ),
        r is Ok ==> allocated_sum(r->Ok_0.deep_view()) == unbond_amount,
        r is Ok ==> forall|i: int|
            0 <= i < r->Ok_0.len() ==> has_free_delegation(
                delegations.deep_view(),
                (#[trigger] r->Ok_0[i]).validator@,
                times@,
                current_time,
                unbonding_period_seconds,
            ),
{
    let order = largest_first_order(delegations);
    let ghost dv = delegations.deep_view();
    let ghost sorted = largest_first(dv);
    let n = order.len();
    let mut infos: Vec<ValidatorUnbondInfo> = Vec::new();
    let mut remaining = unbond_amount;
    let mut i: usize = 0;
    proof {
        assert(sorted.subrange(0, n as int) =~= sorted);
        assert(infos.deep_view() =~= Seq::<ValidatorUnbondInfoView>::empty());
        assert(infos.deep_view() + allocations(
            sorted,
            unbond_amount,
            times@,
            current_time,
            unbonding_period_seconds,
        ) =~= allocations(sorted, unbond_amount, times@, current_time, unbonding_period_seconds));
    }
    while i < n && remaining != 0
        invariant
            0 <= i <= n,
            n == order.len(),
            n == delegations.len(),
            dv == delegations.deep_view(),
            sorted == largest_first(dv),
            sorted == picked(dv, order@),
            forall|k: int| 0 <= k < order.len() ==> (#[trigger] order[k]) < delegations.len(),
            allocations(sorted, unbond_amount, times@, current_time, unbonding_period_seconds)
                == infos.deep_view() + allocations(
                sorted.subrange(i as int, n as int),
                remaining,
                times@,
                current_time,
                unbonding_period_seconds,
            ),
            unallocated(sorted, unbond_amount, times@, current_time, unbonding_period_seconds)
                == unallocated(
                sorted.subrange(i as int, n as int),
                remaining,
                times@,
                current_time,
                unbonding_period_seconds,
            ),
        decreases n - i,
    {
        let d = &delegations[order[i]];
        let ghost open_list = sorted.subrange(i as int, n as int);
        let ghost done = infos.deep_view();
        proof {
            assert(open_list[0] == d.deep_view());
            assert(open_list.drop_first() =~= sorted.subrange(i + 1, n as int));
        }
        if !is_throttled(times, &d.delegator, &d.validator, current_time, unbonding_period_seconds) {
            let mut current_unbond = remaining;
            if d.amount.amount < remaining {
                current_unbond = d.amount.amount;
            }
            remaining -= current_unbond;
            infos.push(
                ValidatorUnbondInfo { validator: d.validator.clone(), unbond_amount: current_unbond },
            );
            proof {
                let first = ValidatorUnbondInfoView {
                    validator: d.validator@,
                    unbond_amount: current_unbond,
                };
                assert(infos.deep_view() =~= done.push(first));
                let tail_allocs = allocations(
                    sorted.subrange(i + 1, n as int),
                    remaining,
                    times@,
                    current_time,
                    unbonding_period_seconds,
                );
                assert(done + (seq![first] + tail_allocs) =~= done.push(first) + tail_allocs);
            }
        }
        i += 1;
    }
    proof {
        let open_list = sorted.subrange(i as int, n as int);
        if remaining != 0 {
            assert(open_list.len() == 0);
        }
        assert(allocations(
            open_list,
            remaining,
            times@,
            current_time,
            unbonding_period_seconds,
        ) =~= Seq::<ValidatorUnbondInfoView>::empty());
        assert(infos.deep_view() + Seq::<ValidatorUnbondInfoView>::empty() =~= infos.deep_view());
        lemma_allocations_sum(sorted, unbond_amount, times@, current_time, unbonding_period_seconds);
        lemma_allocations_not_throttled(
            sorted,
            unbond_amount,
            times@,
            current_time,
            unbonding_period_seconds,
        );
    }
    if remaining != 0 {
        return Err(ContractError::ValidatorForUnbondNotEnough);
    }
    proof {
        assert forall|k: int| 0 <= k < infos.len() implies has_free_delegation(
            dv,
            (#[trigger] infos[k]).validator@,
            times@,
            current_time,
            unbonding_period_seconds,
        ) by {
            assert(infos.deep_view()[k].validator == infos[k].validator@);
            lemma_free_in_order(
                dv,
                infos[k].validator@,
                times@,
                current_time,
                unbonding_period_seconds,
            );
        }
    }
    Ok(infos)
}

/// Drops the expired times from the record of each delegation that the distribution of
/// `unbond_amount` comes to.
pub fn prune_unbond_times(
    times: &mut Table<(String, String), Vec<u64>>,
    current_time: u64,
    delegations: &Vec<Delegation>,
    unbond_amount: u128,
    unbonding_period_seconds: u64,
)
    ensures
        final(times)@ == pruned_times(
            largest_first(delegations.deep_view()),
            unbond_amount,
            old(times)@,
            current_time,
            unbonding_period_seconds,
        ),
{
    let order = largest_first_order(delegations);
    let ghost dv = delegations.deep_view();
    let ghost sorted = largest_first(dv);
    let ghost start = times@;
    let n = order.len();
    let mut remaining = unbond_amount;
    let mut i: usize = 0;
    proof {
        assert(sorted.subrange(0, n as int) =~= sorted);
    }
    while i < n && remaining != 0
        invariant
            0 <= i <= n,
            n == order.len(),
            n == delegations.len(),
            dv == delegations.deep_view(),
            sorted == largest_first(dv),
            sorted == picked(dv, order@),
            forall|k: int| 0 <= k < order.len() ==> (#[trigger] order[k]) < delegations.len(),
            pruned_times(sorted, unbond_amount, start, current_time, unbonding_period_seconds)
                == pruned_times(
                sorted.subrange(i as int, n as int),
                remaining,
                times@,
                current_time,
                unbonding_period_seconds,
            ),
        decreases n - i,
    {
        let d = &delegations[order[i]];
        let ghost open_list = sorted.subrange(i as int, n as int);
        let ghost now_times = times@;
        proof {
            assert(open_list[0] == d.deep_view());
            assert(open_list.drop_first() =~= sorted.subrange(i + 1, n as int));
        }
        let held = is_throttled(
            times,
            &d.delegator,
            &d.validator,
            current_time,
            unbonding_period_seconds,
        );
        let key = (d.delegator.clone(), d.validator.clone());
        let live = match times.get(&key) {
            Some(list) => {
                assert(list.deep_view() =~= list@);
                Some(keep_live_times(list, current_time, unbonding_period_seconds))
            },
            None => None,
        };
        match live {
            Some(list) => {
                assert(list.deep_view() =~= list@);
                times.save(key, list);
            },
            None => {},
        }
        if !held {
            let mut current_unbond = remaining;
            if d.amount.amount < remaining {
                current_unbond = d.amount.amount;
            }
            remaining -= current_unbond;
        }
        i += 1;
    }
    proof {
        let open_list = sorted.subrange(i as int, n as int);
        if remaining != 0 {
            assert(open_list.len() == 0);
        }
    }
}

/// The validators that a list of allocations names, in their order.
pub open spec fn allocation_validators(infos: Seq<ValidatorUnbondInfoView>) -> Seq<Seq<char>> {
    Seq::new(infos.len(), |i: int| infos[i].validator)
}

/// The instructions that unbond what `infos` allocates.
pub open spec fn undelegate_msgs(
    pool_addr: Seq<char>,
    denom: Seq<char>,
    infos: Seq<ValidatorUnbondInfoView>,
) -> Seq<ProtobufAnyView> {
    Seq::new(
        infos.len(),
        |i: int| undelegate_tx(pool_addr, infos[i].validator, denom, infos[i].unbond_amount),
    )
}

/// The validators of `delegations` that are not among `touched`, each once, in the order
/// in which the delegations first name them.
pub open spec fn untouched(delegations: Seq<DelegationView>, touched: Seq<Seq<char>>) -> Seq<Seq<char>>
    decreases delegations.len(),
{
    if delegations.len() == 0 {
        Seq::empty()
    } else {
        let before = untouched(delegations.drop_last(), touched);
        let v = delegations.last().validator;
        if touched.contains(v) || before.contains(v) {
            before
        } else {
            before.push(v)
        }
    }
}

/// The instructions that withdraw the reward of the pool from each of `validators`.
pub open spec fn reward_msgs(pool_addr: Seq<char>, validators: Seq<Seq<char>>) -> Seq<ProtobufAnyView> {
    Seq::new(validators.len(), |i: int| withdraw_reward_tx(pool_addr, validators[i]))
}

/// What the validator at position `i` of `n` gets of `amount` when it is split evenly:
/// the `n`-th part, and the first validator the remainder as well.
pub open spec fn split_share(amount: u128, n: int, i: int) -> u128 {
    let per = amount as int / n;
    if i == 0 {
        (per + (amount - per * n)) as u128
    } else {
        per as u128
    }
}

/// The instructions that delegate `amount` evenly to `validators`.
pub open spec fn even_delegate_msgs(
    pool_addr: Seq<char>,
    denom: Seq<char>,
    validators: Seq<Seq<char>>,
    amount: u128,
) -> Seq<ProtobufAnyView> {
    Seq::new(
        validators.len(),
        |i: int|
            delegation_tx(
                pool_addr,
                validators[i],
                denom,
                split_share(amount, validators.len() as int, i),
            ),
    )
}

/// The instructions that delegate the small amount `amount`: all of it to the first of
/// `validators`, and a withdrawal of the reward from each of the others.
pub open spec fn single_delegate_msgs(
    pool_addr: Seq<char>,
    denom: Seq<char>,
    validators: Seq<Seq<char>>,
    amount: u128,
) -> Seq<ProtobufAnyView> {
    Seq::new(
        validators.len(),
        |i: int|
            if i == 0 {
                delegation_tx(pool_addr, validators[0], denom, amount)
            } else {
                withdraw_reward_tx(pool_addr, validators[i])
            },
    )
}

/// The instructions that delegate `amount` to `validators`: to the first alone below the
/// split threshold, evenly from the threshold on.
pub open spec fn delegate_msgs(
    pool_addr: Seq<char>,
    denom: Seq<char>,
    validators: Seq<Seq<char>>,
    amount: u128,
) -> Seq<ProtobufAnyView> {
    if amount < STAKE_SPLIT_THRESHOLD {
        single_delegate_msgs(pool_addr, denom, validators, amount)
    } else {
        even_delegate_msgs(pool_addr, denom, validators, amount)
    }
}

/// What an era stake sets out to do.
pub struct StakePlan {
    /// The instructions for the remote chain.
    pub msgs: Seq<ProtobufAnyView>,
    /// The validators from which it unbonds, joined by `_`.
    pub message: Seq<char>,
    /// The recorded times of unbonding dispatches, pruned where the allocation came by.
    pub times: UnbondTimes,
}

/// What the era stake of `pool` sets out to do at the time `now`, given the delegations
/// observed, or why it is refused.
///
/// Where no more was deposited than was requested back, the difference is unbonded: it is
/// allocated to the validators, and the reward is withdrawn from each validator that the
/// allocation does not touch. Else the difference is delegated.
pub open spec fn era_stake_plan(
    pool: PoolInfoView,
    pool_addr: Seq<char>,
    now: u64,
    delegations: Result<DelegatorDelegationsResponseView, ContractErrorView>,
    times: UnbondTimes,
) -> Result<StakePlan, ContractErrorView> {
    let snap = pool.era_snapshot;
    if snap.unbond >= snap.bond {
        let unbond_amount = (snap.unbond - snap.bond) as u128;
        match delegations {
            Err(e) => Err(e),
            Ok(resp) => if resp.last_submitted_local_height <= snap.last_step_height {
                Err(ContractErrorView::DelegationSubmissionHeight)
            } else if unbond_amount == 0 {
                Ok(
                    StakePlan {
                        msgs: reward_msgs(pool_addr, untouched(resp.delegations, Seq::empty())),
                        message: Seq::empty(),
                        times,
                    },
                )
            } else if pool.unbonding_period * pool.era_seconds > u64::MAX {
                Err(ContractErrorView::Overflow)
            } else {
                let period = (pool.unbonding_period * pool.era_seconds) as u64;
                match allocate_unbond_amount_spec(resp.delegations, unbond_amount, times, now, period) {
                    Err(e) => Err(e),
                    Ok(infos) => Ok(
                        StakePlan {
                            msgs: undelegate_msgs(pool_addr, pool.remote_denom, infos) + reward_msgs(
                                pool_addr,
                                untouched(resp.delegations, allocation_validators(infos)),
                            ),
                            message: join_spec(allocation_validators(infos), "_"@),
                            times: pruned_times(
                                largest_first(resp.delegations),
                                unbond_amount,
                                times,
                                now,
                                period,
                            ),
                        },
                    ),
                }
            },
        }
    } else if pool.validator_addrs.len() == 0 {
        Err(ContractErrorView::ValidatorsEmpty)
    } else {
        Ok(
            StakePlan {
                msgs: delegate_msgs(
                    pool_addr,
                    pool.remote_denom,
                    pool.validator_addrs,
                    (snap.bond - snap.unbond) as u128,
                ),
                message: Seq::empty(),
                times,
            },
        )
    }
}

/// What the era stake of the pool `pool_addr` does.
///
/// It is refused unless the pool has ended its era update. A plan without instructions
/// completes the step at once. Any other plan is dispatched to the account of the pool,
/// provided the funds sent pay the fee: the pool waits in `EraStakeStarted` for the
/// resolution, and the correlation record names the validators from which it unbonds.
pub open spec fn execute_era_stake_spec(
    pre: StoreView,
    env: EnvView,
    info: MessageInfoView,
    pool_addr: Seq<char>,
    delegations: Result<DelegatorDelegationsResponseView, Seq<char>>,
    min_ibc_fee: Result<IbcFeeView, Seq<char>>,
) -> Result<(StoreView, ResponseView), ContractErrorView> {
    if !pre.pools.contains_key(pool_addr) {
        Err(ContractErrorView::NotFound)
    } else {
        let pool = pre.pools[pool_addr];
        if pool.status != EraStatus::EraUpdateEnded {
            Err(ContractErrorView::StatusNotAllow)
        } else {
            match era_stake_plan(
                pool,
                pool_addr,
                (env.block_time_nanos / 1_000_000_000) as u64,
                observed(pre, pool_addr, QueryKind::Delegations, delegations),
                pre.validators_unbonds_time,
            ) {
                Err(e) => Err(e),
                Ok(plan) => if plan.msgs.len() == 0 {
                    Ok(
                        (
                            StoreView {
                                pools: pre.pools.insert(
                                    pool_addr,
                                    PoolInfoView { status: EraStatus::EraStakeEnded, ..pool },
                                ),
                                validators_unbonds_time: plan.times,
                                ..pre
                            },
                            empty_response(),
                        ),
                    )
                } else if !pre.info_of_ica_id.contains_key(pool.ica_id) {
                    Err(ContractErrorView::NotFound)
                } else {
                    match check_ibc_fee_spec(min_ibc_fee, info) {
                        Err(e) => Err(e),
                        Ok(fee) => {
                            let ica = pre.info_of_ica_id[pool.ica_id].pool_address_ica_info;
                            let payload = SudoPayloadView {
                                port_id: ica.ctrl_port_id,
                                message: plan.message,
                                pool_addr,
                                tx_type: TxType::EraBond,
                            };
                            let kept = registered(
                                StoreView { validators_unbonds_time: plan.times, ..pre },
                                payload,
                            );
                            Ok(
                                (
                                    StoreView {
                                        pools: pre.pools.insert(
                                            pool_addr,
                                            PoolInfoView { status: EraStatus::EraStakeStarted, ..pool },
                                        ),
                                        ..kept
                                    },
                                    dispatch_response(
                                        submit_tx_spec(ica.ctrl_connection_id, pool.ica_id, plan.msgs, fee),
                                        next_id(pre.latest_reply_id, REPLY_ID_RANGE_START),
                                    ),
                                ),
                            )
                        },
                    }
                },
            }
        }
    }
}

fn validators_of(infos: &Vec<ValidatorUnbondInfo>) -> (r: Vec<String>)
    ensures
        r.deep_view() == allocation_validators(infos.deep_view()),
{
    let mut r: Vec<String> = Vec::new();
    let mut i: usize = 0;
    while i < infos.len()
        invariant
            0 <= i <= infos.len(),
            r.len() == i,
            forall|k: int| 0 <= k < i ==> (#[trigger] r[k])@ == infos[k].validator@,
        decreases infos.len() - i,
    {
        r.push(infos[i].validator.clone());
        i += 1;
    }
    assert(r.deep_view() =~= allocation_validators(infos.deep_view()));
    r
}

fn undelegate_msgs_of(pool_addr: &String, denom: &String, infos: &Vec<ValidatorUnbondInfo>) -> (r: Vec<
    ProtobufAny,
>)
    ensures
        r.deep_view() == undelegate_msgs(pool_addr@, denom@, infos.deep_view()),
{
    let mut r: Vec<ProtobufAny> = Vec::new();
    let mut i: usize = 0;
    while i < infos.len()
        invariant
            0 <= i <= infos.len(),
            r.len() == i,
            forall|k: int|
                0 <= k < i ==> (#[trigger] r[k])@ == undelegate_tx(
                    pool_addr@,
                    infos[k].validator@,
                    denom@,
                    infos[k].unbond_amount,
                ),
        decreases infos.len() - i,
    {
        r.push(
            gen_undelegate_tx(
                pool_addr.clone(),
                infos[i].validator.clone(),
                denom.clone(),
                infos[i].unbond_amount,
            ),
        );
        i += 1;
    }
    assert(r.deep_view() =~= undelegate_msgs(pool_addr@, denom@, infos.deep_view()));
    r
}

fn untouched_validators(delegations: &Vec<Delegation>, touched: &Vec<String>) -> (r: Vec<String>)
    ensures
        r.deep_view() == untouched(delegations.deep_view(), touched.deep_view()),
{
    let mut r: Vec<String> = Vec::new();
    let mut i: usize = 0;
    let ghost dv = delegations.deep_view();
    proof {
        assert(dv.subrange(0, 0) =~= Seq::<DelegationView>::empty());
        assert(r.deep_view() =~= Seq::<Seq<char>>::empty());
    }
    while i < delegations.len()
        invariant
            0 <= i <= delegations.len(),
            dv == delegations.deep_view(),
            r.deep_view() == untouched(dv.subrange(0, i as int), touched.deep_view()),
        decreases delegations.len() - i,
    {
        let ghost before = r.deep_view();
        proof {
            let next = dv.subrange(0, i + 1);
            assert(next.drop_last() =~= dv.subrange(0, i as int));
            assert(next.last() == dv[i as int]);
        }
        let v = &delegations[i].validator;
        if !list_contains(touched, v) && !list_contains(&r, v) {
            r.push(v.clone());
            proof {
                assert(r.deep_view() =~= before.push(v@));
            }
        }
        i += 1;
    }
    proof {
        assert(dv.subrange(0, delegations.len() as int) =~= dv);
    }
    r
}

fn reward_msgs_of(pool_addr: &String, validators: &Vec<String>) -> (r: Vec<ProtobufAny>)
    ensures
        r.deep_view() == reward_msgs(pool_addr@, validators.deep_view()),
{
    let mut r: Vec<ProtobufAny> = Vec::new();
    let mut i: usize = 0;
    while i < validators.len()
        invariant
            0 <= i <= validators.len(),
            r.len() == i,
            forall|k: int|
                0 <= k < i ==> (#[trigger] r[k])@ == withdraw_reward_tx(pool_addr@, validators[k]@),
        decreases validators.len() - i,
    {
        r.push(gen_withdraw_reward_tx(pool_addr.clone(), validators[i].clone()));
        i += 1;
    }
    assert(r.deep_view() =~= reward_msgs(pool_addr@, validators.deep_view()));
    r
}

/// What the validator at position `i` of `n` gets of `amount` when it is split evenly.
fn split_share_of(amount: u128, n: usize, i: usize) -> (r: u128)
    requires
        n > 0,
    ensures
        r == split_share(amount, n as int, i as int),
{
    let count = n as u128;
    let per = amount / count;
    assert(per * count <= amount && per <= per * count) by (nonlinear_arith)
        requires
            per == amount / count,
            count > 0,
    ;
    if i == 0 {
        per + (amount - per * count)
    } else {
        per
    }
}

/// Builds the instructions that delegate `amount` evenly to `validators`.
pub fn even_delegate_msgs_of(
    pool_addr: &String,
    denom: &String,
    validators: &Vec<String>,
    amount: u128,
) -> (r: Vec<ProtobufAny>)
    ensures
        r.deep_view() == even_delegate_msgs(pool_addr@, denom@, validators.deep_view(), amount),
{
    let mut r: Vec<ProtobufAny> = Vec::new();
    let mut i: usize = 0;
    let n = validators.len();
    while i < n
        invariant
            0 <= i <= n,
            n == validators.len(),
            r.len() == i,
            forall|k: int|
                0 <= k < i ==> (#[trigger] r[k])@ == delegation_tx(
                    pool_addr@,
                    validators[k]@,
                    denom@,
                    split_share(amount, n as int, k),
                ),
        decreases n - i,
    {
        r.push(
            gen_delegation_txs(
                pool_addr.clone(),
                validators[i].clone(),
                denom.clone(),
                split_share_of(amount, n, i),
            ),
        );
        i += 1;
    }
    assert(r.deep_view() =~= even_delegate_msgs(pool_addr@, denom@, validators.deep_view(), amount));
    r
}

fn single_delegate_msgs_of(pool_addr: &String, denom: &String, validators: &Vec<String>, amount: u128) -> (r:
    Vec<ProtobufAny>)
    ensures
        r.deep_view() == single_delegate_msgs(pool_addr@, denom@, validators.deep_view(), amount),
{
    let mut r: Vec<ProtobufAny> = Vec::new();
    let mut i: usize = 0;
    let n = validators.len();
    while i < n
        invariant
            0 <= i <= n,
            n == validators.len(),
            r.len() == i,
            forall|k: int|
                0 <= k < i ==> (#[trigger] r[k])@ == (if k == 0 {
                    delegation_tx(pool_addr@, validators[0]@, denom@, amount)
                } else {
                    withdraw_reward_tx(pool_addr@, validators[k]@)
                }),
        decreases n - i,
    {
        if i == 0 {
            r.push(
                gen_delegation_txs(pool_addr.clone(), validators[i].clone(), denom.clone(), amount),
            );
        } else {
            r.push(gen_withdraw_reward_tx(pool_addr.clone(), validators[i].clone()));
        }
        i += 1;
    }
    assert(r.deep_view() =~= single_delegate_msgs(pool_addr@, denom@, validators.deep_view(), amount));
    r
}

/// Appends the instructions `more` to `msgs`.
fn append_msgs(msgs: &mut Vec<ProtobufAny>, more: Vec<ProtobufAny>)
    ensures
        final(msgs).deep_view() == old(msgs).deep_view() + more.deep_view(),
{
    let mut more = more;
    let ghost a = msgs.deep_view();
    let ghost b = more.deep_view();
    msgs.append(&mut more);
    assert(msgs.deep_view() =~= a + b);
}

/// Runs the second step of the era of the pool `pool_addr`: the net of the deposits and
/// the unstake requests of the era is delegated or unbonded.
///
/// `delegations` is what the chain answered to the delegations query of the pool, and
/// `min_ibc_fee` what it reported as its minimal fee.
pub fn execute_era_stake(
    store: &mut Store,
    env: &Env,
    info: &MessageInfo,
    pool_addr: String,
    delegations: &Result<DelegatorDelegationsResponse, String>,
    min_ibc_fee: &Result<IbcFee, String>,
) -> (r: Result<Response, ContractError>)
    ensures
        agrees(
            r,
            old(store)@,
            final(store)@,
            execute_era_stake_spec(
                old(store)@,
                env@,
                info@,
                pool_addr@,
                answer_view(*delegations),
                answer_view(*min_ibc_fee),
            ),
        ),
{
    let ghost pre = store@;
    let pool_info = match store.pools.get(&pool_addr) {
        Some(p) => p,
        None => {
            return Err(ContractError::NotFound);
        },
    };
    let ghost pool = pool_info@;
    if pool_info.status != EraStatus::EraUpdateEnded {
        return Err(ContractError::StatusNotAllow);
    }
    let snap = pool_info.era_snapshot;
    let now = env.seconds();
    let remote_denom = pool_info.remote_denom.clone();
    let ica_id = pool_info.ica_id.clone();
    let mut msgs: Vec<ProtobufAny> = Vec::new();
    let mut msg_str = String::new();
    let mut prune: Option<(u128, u64)> = None;
    proof {
        assert(msgs.deep_view() =~= Seq::<ProtobufAnyView>::empty());
    }
    if snap.unbond >= snap.bond {
        let unbond_amount = snap.unbond - snap.bond;
        let resp = query_delegation_by_addr(store, pool_addr.clone(), delegations)?;
        if resp.last_submitted_local_height <= snap.last_step_height {
            return Err(ContractError::DelegationSubmissionHeight);
        }
        let mut op_validators: Vec<String> = Vec::new();
        proof {
            assert(op_validators.deep_view() =~= Seq::<Seq<char>>::empty());
        }
        if unbond_amount > 0 {
            let period = match pool_info.unbonding_period.checked_mul(pool_info.era_seconds) {
                Some(p) => p,
                None => {
                    return Err(ContractError::Overflow);
                },
            };
            let unbond_infos = allocate_unbond_amount(
                &store.validators_unbonds_time,
                now,
                &resp.delegations,
                unbond_amount,
                period,
            )?;
            op_validators = validators_of(&unbond_infos);
            msg_str = join(&op_validators, "_");
            let undelegations = undelegate_msgs_of(&pool_addr, &remote_denom, &unbond_infos);
            append_msgs(&mut msgs, undelegations);
            prune = Some((unbond_amount, period));
        }
        let others = untouched_validators(&resp.delegations, &op_validators);
        let rewards = reward_msgs_of(&pool_addr, &others);
        append_msgs(&mut msgs, rewards);
    } else {
        let stake_amount = snap.bond - snap.unbond;
        if pool_info.validator_addrs.len() == 0 {
            return Err(ContractError::ValidatorsEmpty);
        }
        let delegations_out = if stake_amount < STAKE_SPLIT_THRESHOLD {
            single_delegate_msgs_of(&pool_addr, &remote_denom, &pool_info.validator_addrs, stake_amount)
        } else {
            even_delegate_msgs_of(&pool_addr, &remote_denom, &pool_info.validator_addrs, stake_amount)
        };
        append_msgs(&mut msgs, delegations_out);
    }
    let ghost plan = era_stake_plan(
        pool,
        pool_addr@,
        now,
        observed(pre, pool_addr@, QueryKind::Delegations, answer_view(*delegations)),
        pre.validators_unbonds_time,
    )->Ok_0;
    proof {
        assert(msgs.deep_view() =~= plan.msgs);
        assert(msg_str@ =~= plan.message);
    }
    if msgs.len() == 0 {
        let mut pool_new = store.pools.take(&pool_addr);
        pool_new.status = EraStatus::EraStakeEnded;
        proof {
            assert(prune is None) by {
                if prune is Some {
                    let infos = allocate_unbond_amount_spec(
                        delegations->Ok_0.delegations.deep_view(),
                        prune->Some_0.0,
                        pre.validators_unbonds_time,
                        now,
                        prune->Some_0.1,
                    )->Ok_0;
                    assert(undelegate_msgs(pool_addr@, remote_denom@, infos).len() == infos.len());
                    assert(infos.len() == 0);
                }
            }
        }
        store.pools.save(pool_addr, pool_new);
        proof {
            assert(store@.pools =~= pre.pools.insert(
                pool_addr@,
                PoolInfoView { status: EraStatus::EraStakeEnded, ..pool },
            ));
        }
        return Ok(Response::new());
    }
    let (ctrl_connection_id, ctrl_port_id) = match store.info_of_ica_id.get(&ica_id) {
        Some(infos) => (
            infos.pool_address_ica_info.ctrl_connection_id.clone(),
            infos.pool_address_ica_info.ctrl_port_id.clone(),
        ),
        None => {
            return Err(ContractError::NotFound);
        },
    };
    let ibc_fee = check_ibc_fee(min_ibc_fee, info)?;
    match prune {
        Some((unbond_amount, period)) => {
            match delegations {
                Ok(resp) => {
                    prune_unbond_times(
                        &mut store.validators_unbonds_time,
                        now,
                        &resp.delegations,
                        unbond_amount,
                        period,
                    );
                },
                Err(_) => {},
            }
        },
        None => {},
    }
    let cosmos_msg = submit_tx(ctrl_connection_id, ica_id, msgs, ibc_fee);
    let submsg = msg_with_sudo_callback(
        store,
        cosmos_msg,
        SudoPayload {
            port_id: ctrl_port_id,
            message: msg_str,
            pool_addr: pool_addr.clone(),
            tx_type: TxType::EraBond,
        },
    );
    let mut pool_new = store.pools.take(&pool_addr);
    pool_new.status = EraStatus::EraStakeStarted;
    store.pools.save(pool_addr, pool_new);
    proof {
        assert(store@.pools =~= pre.pools.insert(
            pool_addr@,
            PoolInfoView { status: EraStatus::EraStakeStarted, ..pool },
        ));
    }
    let mut resp = Response::new();
    resp.messages.push(submsg);
    proof {
        assert(resp@.messages =~= seq![submsg@]);
        assert(resp@.attributes =~= Seq::empty());
    }
    Ok(resp)
}

/// The recorded times once an unbonding of the pool `pool_addr` from each of
/// `validators` was dispatched at the time `t`.
pub open spec fn recorded_times(
    times: UnbondTimes,
    pool_addr: Seq<char>,
    validators: Seq<Seq<char>>,
    t: u64,
) -> UnbondTimes
    decreases validators.len(),
{
    if validators.len() == 0 {
        times
    } else {
        let before = recorded_times(times, pool_addr, validators.drop_last(), t);
        let key = (pool_addr, validators.last());
        if before.contains_key(key) {
            before.insert(key, before[key].push(t))
        } else {
            before.insert(key, seq![t])
        }
    }
}

/// Records the time `t` for an unbonding of the pool `pool_addr` from each of `validators`.
pub fn record_unbond_times(
    times: &mut Table<(String, String), Vec<u64>>,
    pool_addr: &String,
    validators: &Vec<String>,
    t: u64,
)
    ensures
        final(times)@ == recorded_times(old(times)@, pool_addr@, validators.deep_view(), t),
{
    let ghost start = times@;
    let ghost vals = validators.deep_view();
    let mut i: usize = 0;
    proof {
        assert(vals.subrange(0, 0) =~= Seq::<Seq<char>>::empty());
    }
    while i < validators.len()
        invariant
            0 <= i <= validators.len(),
            vals == validators.deep_view(),
            times@ == recorded_times(start, pool_addr@, vals.subrange(0, i as int), t),
        decreases validators.len() - i,
    {
        proof {
            assert(vals.subrange(0, i + 1).drop_last() =~= vals.subrange(0, i as int));
            assert(vals.subrange(0, i + 1).last() == validators[i as int]@);
        }
        let key = (pool_addr.clone(), validators[i].clone());
        let ghost before = times@;
        let list = match times.remove(&key) {
            Some(mut list) => {
                let ghost had = list.deep_view();
                list.push(t);
                proof {
                    assert(list.deep_view() =~= had.push(t));
                }
                list
            },
            None => {
                let mut list: Vec<u64> = Vec::new();
                list.push(t);
                proof {
                    assert(list.deep_view() =~= seq![t]);
                }
                list
            },
        };
        times.save(key, list);
        proof {
            assert(times@ =~= before.insert(key.deep_view(), list.deep_view()));
        }
        i += 1;
    }
    proof {
        assert(vals.subrange(0, validators.len() as int) =~= vals);
    }
}

/// The state after the instructions of an era stake were acknowledged at the time
/// `seconds` and the height `height`: the time is recorded for each validator that the
/// context `message` names, and the pool has ended its era stake.
pub open spec fn sudo_era_bond_callback_spec(
    pre: StoreView,
    seconds: u64,
    height: u64,
    pool_addr: Seq<char>,
    message: Seq<char>,
) -> Result<(StoreView, ResponseView), ContractErrorView> {
    if !pre.pools.contains_key(pool_addr) {
        Err(ContractErrorView::NotFound)
    } else {
        let pool = pre.pools[pool_addr];
        Ok(
            (
                StoreView {
                    pools: pre.pools.insert(
                        pool_addr,
                        PoolInfoView {
                            status: EraStatus::EraStakeEnded,
                            era_snapshot: crate::state::EraSnapshot {
                                last_step_height: height,
                                ..pool.era_snapshot
                            },
                            ..pool
                        },
                    ),
                    validators_unbonds_time: if message.len() > 0 {
                        recorded_times(
                            pre.validators_unbonds_time,
                            pool_addr,
                            crate::text::split_spec(message, '_'),
                            seconds,
                        )
                    } else {
                        pre.validators_unbonds_time
                    },
                    ..pre
                },
                empty_response(),
            ),
        )
    }
}

/// Completes the era stake of a pool whose instructions were acknowledged. Only now does
/// an unbonding count against the validators it was dispatched to.
pub fn sudo_era_bond_callback(store: &mut Store, env: &Env, payload: SudoPayload) -> (r: Result<
    Response,
    ContractError,
>)
    ensures
        agrees(
            r,
            old(store)@,
            final(store)@,
            sudo_era_bond_callback_spec(
                old(store)@,
                env.seconds_spec(),
                env.block_height,
                payload.pool_addr@,
                payload.message@,
            ),
        ),
{
    let ghost pre = store@;
    if !store.pools.has(&payload.pool_addr) {
        return Err(ContractError::NotFound);
    }
    if payload.message.as_str().unicode_len() > 0 {
        let unbond_validators = crate::text::split(payload.message.as_str(), '_');
        record_unbond_times(
            &mut store.validators_unbonds_time,
            &payload.pool_addr,
            &unbond_validators,
            env.seconds(),
        );
    }
    let mut pool_info = store.pools.take(&payload.pool_addr);
    let ghost pool = pool_info@;
    pool_info.status = EraStatus::EraStakeEnded;
    pool_info.era_snapshot.last_step_height = env.block_height;
    store.pools.save(payload.pool_addr, pool_info);
    proof {
        assert(store@.pools =~= pre.pools.insert(
            payload.pool_addr@,
            PoolInfoView {
                status: EraStatus::EraStakeEnded,
                era_snapshot: crate::state::EraSnapshot {
                    last_step_height: env.block_height,
                    ..pool.era_snapshot
                },
                ..pool
            },
        ));
    }
    Ok(Response::new())
}

/// Rolls back the era stake of a pool whose instructions failed or timed out: the pool is
/// back where its era update ended, and no unbonding counts against a validator.
pub fn sudo_era_bond_failed_callback(store: &mut Store, payload: SudoPayload) -> (r: Result<
    Response,
    ContractError,
>)
    ensures
        agrees(
            r,
            old(store)@,
            final(store)@,
            crate::execute_era_collect_withdraw::step_resolved(
                old(store)@,
                payload.pool_addr@,
                EraStatus::EraUpdateEnded,
                None,
            ),
        ),
{
    crate::execute_era_collect_withdraw::resolve_step(
        store,
        payload.pool_addr,
        EraStatus::EraUpdateEnded,
        None,
    )
}

} // verus!
