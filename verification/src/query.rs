//! What the contract reports of its state, and what it reads of the remote chain through
//! the observational queries it registered.
use vstd::prelude::*;
use crate::chain::{BalanceResponse, DelegatorDelegationsResponse, ValidatorResponse};
use crate::error_conversion::{ContractError, ContractErrorView};
use crate::helper::{get_query_id, has_outcome, query_id_spec, answer_view};
use crate::state::{
    EraSnapshot,
    IcaInfos,
    PoolInfo,
    QueryIds,
    QueryKind,
    Stack,
    StackView,
    Store,
    StoreView,
    UnstakeInfo,
    UnstakeInfoView,
};
use crate::text::copy_list;

verus! {

/// What a registered query of kind `kind` on `addr` reports: a refusal where no such
/// query is registered or the chain could not answer, else the answer.
pub open spec fn observed<V>(
    pre: StoreView,
    addr: Seq<char>,
    kind: QueryKind,
    answer: Result<V, Seq<char>>,
) -> Result<V, ContractErrorView> {
    match query_id_spec(pre, addr, kind) {
        Err(e) => Err(e),
        Ok(_) => match answer {
            Err(t) => Err(ContractErrorView::QueryFailed(t)),
            Ok(v) => Ok(v),
        },
    }
}

/// The balance last observed for the account `addr`, given what the chain answered to
/// the balance query registered for it.
pub fn query_balance_by_addr<'a>(
    store: &Store,
    addr: String,
    answer: &'a Result<BalanceResponse, String>,
) -> (r: Result<&'a BalanceResponse, ContractError>)
    ensures
        has_outcome(r, observed(store@, addr@, QueryKind::Balances, answer_view(*answer))),
{
    let _ = get_query_id(store, addr, QueryKind::Balances)?;
    match answer {
        Ok(v) => Ok(v),
        Err(t) => Err(ContractError::QueryFailed(t.clone())),
    }
}

/// The delegations last observed for the account `addr`, given what the chain answered to
/// the delegations query registered for it.
pub fn query_delegation_by_addr<'a>(
    store: &Store,
    addr: String,
    answer: &'a Result<DelegatorDelegationsResponse, String>,
) -> (r: Result<&'a DelegatorDelegationsResponse, ContractError>)
    ensures
        has_outcome(r, observed(store@, addr@, QueryKind::Delegations, answer_view(*answer))),
{
    let _ = get_query_id(store, addr, QueryKind::Delegations)?;
    match answer {
        Ok(v) => Ok(v),
        Err(t) => Err(ContractError::QueryFailed(t.clone())),
    }
}

/// The validators last observed for the pool `addr`, given what the chain answered to the
/// validators query registered for it.
pub fn query_validator_by_addr<'a>(
    store: &Store,
    addr: String,
    answer: &'a Result<ValidatorResponse, String>,
) -> (r: Result<&'a ValidatorResponse, ContractError>)
    ensures
        has_outcome(r, observed(store@, addr@, QueryKind::Validators, answer_view(*answer))),
{
    let _ = get_query_id(store, addr, QueryKind::Validators)?;
    match answer {
        Ok(v) => Ok(v),
        Err(t) => Err(ContractError::QueryFailed(t.clone())),
    }
}

/// The value that `table` holds under `key`, refused where it holds none.
pub open spec fn found<K, V>(table: Map<K, V>, key: K) -> Result<V, ContractErrorView> {
    if table.contains_key(key) {
        Ok(table[key])
    } else {
        Err(ContractErrorView::NotFound)
    }
}

/// The requests that `user` has outstanding with the pool `pool_addr`, in the order in
/// which they were made; refused where one of them is not recorded.
pub open spec fn user_unstakes(pre: StoreView, pool_addr: Seq<char>, user: Seq<char>) -> Result<
    Seq<UnstakeInfoView>,
    ContractErrorView,
> {
    let indices = crate::execute_unstake::user_indices(pre, user, pool_addr);
    if crate::execute_withdraw::all_recorded(pre.unstakes_of_index, pool_addr, indices) {
        Ok(Seq::new(indices.len(), |i: int| pre.unstakes_of_index[(pool_addr, indices[i])]))
    } else {
        Err(ContractErrorView::NotFound)
    }
}

/// The unstake requests that the user `user_neutron_addr` has outstanding with the pool
/// `pool_addr`.
pub fn query_user_unstake<'a>(store: &'a Store, pool_addr: String, user_neutron_addr: String) -> (r:
    Result<Vec<&'a UnstakeInfo>, ContractError>)
    ensures
        has_outcome(r, user_unstakes(store@, pool_addr@, user_neutron_addr@)),
{
    let mut results: Vec<&'a UnstakeInfo> = Vec::new();
    match store.unstakes_index_for_user.get(&(user_neutron_addr, pool_addr.clone())) {
        Some(unstakes) => {
            let mut i: usize = 0;
            let ghost indices = crate::execute_unstake::user_indices(
                store@,
                user_neutron_addr@,
                pool_addr@,
            );
            proof {
                assert(unstakes.deep_view() =~= unstakes@);
                assert(indices == unstakes@);
            }
            while i < unstakes.len()
                invariant
                    0 <= i <= unstakes.len(),
                    results.len() == i,
                    indices == unstakes@,
                    indices == crate::execute_unstake::user_indices(
                        store@,
                        user_neutron_addr@,
                        pool_addr@,
                    ),
                    forall|k: int|
                        0 <= k < i ==> store@.unstakes_of_index.contains_key(
                            (pool_addr@, #[trigger] unstakes[k]),
                        ),
                    forall|k: int|
                        0 <= k < i ==> (#[trigger] results[k])@ == store@.unstakes_of_index[(
                            pool_addr@,
                            unstakes[k],
                        )],
                decreases unstakes.len() - i,
            {
                match store.unstakes_of_index.get(&(pool_addr.clone(), unstakes[i])) {
                    Some(unstake_info) => {
                        results.push(unstake_info);
                    },
                    None => {
                        proof {
                            assert(!store@.unstakes_of_index.contains_key((pool_addr@, indices[i as int])));
                        }
                        return Err(ContractError::NotFound);
                    },
                }
                i += 1;
            }
            proof {
                assert(crate::execute_withdraw::all_recorded(
                    store@.unstakes_of_index,
                    pool_addr@,
                    indices,
                ));
                assert(results.deep_view() =~= user_unstakes(
                    store@,
                    pool_addr@,
                    user_neutron_addr@,
                )->Ok_0);
            }
        },
        None => {
            proof {
                let indices = crate::execute_unstake::user_indices(
                    store@,
                    user_neutron_addr@,
                    pool_addr@,
                );
                assert(indices.len() == 0);
                assert(crate::execute_withdraw::all_recorded(
                    store@.unstakes_of_index,
                    pool_addr@,
                    indices,
                ));
                assert(results.deep_view() =~= user_unstakes(
                    store@,
                    pool_addr@,
                    user_neutron_addr@,
                )->Ok_0);
            }
        },
    }
    Ok(results)
}

/// The indices of the unstake requests that the user `user_neutron_addr` has outstanding
/// with the pool `pool_addr`, where any were recorded.
pub fn query_user_unstake_index<'a>(store: &'a Store, pool_addr: String, user_neutron_addr: String) -> (r:
    Option<&'a Vec<u64>>)
    ensures
        match r {
            Some(list) => store@.unstakes_index_for_user.contains_key((user_neutron_addr@, pool_addr@))
                && list@ == store@.unstakes_index_for_user[(user_neutron_addr@, pool_addr@)],
            None => !store@.unstakes_index_for_user.contains_key((user_neutron_addr@, pool_addr@)),
        },
{
    match store.unstakes_index_for_user.get(&(user_neutron_addr, pool_addr)) {
        Some(list) => {
            assert(list.deep_view() =~= list@);
            Some(list)
        },
        None => None,
    }
}

/// The rate of the pool `pool_addr` at the end of the era `era`, where it was recorded.
pub fn query_era_rate(store: &Store, pool_addr: String, era: u64) -> (r: Option<u128>)
    ensures
        match r {
            Some(rate) => store@.era_rate.contains_key((pool_addr@, era)) && rate
                == store@.era_rate[(pool_addr@, era)],
            None => !store@.era_rate.contains_key((pool_addr@, era)),
        },
{
    match store.era_rate.get(&(pool_addr, era)) {
        Some(rate) => Some(*rate),
        None => None,
    }
}

/// The identifiers of the four queries of the pool `pool_addr`.
pub open spec fn query_ids_spec(pre: StoreView, pool_addr: Seq<char>) -> Result<QueryIds, ContractErrorView> {
    if !pre.pools.contains_key(pool_addr) {
        Err(ContractErrorView::NotFound)
    } else if !pre.info_of_ica_id.contains_key(pre.pools[pool_addr].ica_id) {
        Err(ContractErrorView::NotFound)
    } else {
        match query_id_spec(
            pre,
            pre.info_of_ica_id[pre.pools[pool_addr].ica_id].withdraw_address_ica_info.ica_addr,
            QueryKind::Balances,
        ) {
            Err(e) => Err(e),
            Ok(withdraw_balance_query_id) => match query_id_spec(pre, pool_addr, QueryKind::Balances) {
                Err(e) => Err(e),
                Ok(pool_balance_query_id) => match query_id_spec(pre, pool_addr, QueryKind::Delegations) {
                    Err(e) => Err(e),
                    Ok(pool_delegations_query_id) => match query_id_spec(
                        pre,
                        pool_addr,
                        QueryKind::Validators,
                    ) {
                        Err(e) => Err(e),
                        Ok(pool_validators_query_id) => Ok(
                            QueryIds {
                                withdraw_balance_query_id,
                                pool_balance_query_id,
                                pool_delegations_query_id,
                                pool_validators_query_id,
                            },
                        ),
                    },
                },
            },
        }
    }
}

/// The identifiers under which the chain knows the four queries of the pool `pool_addr`.
pub fn query_ids(store: &Store, pool_addr: String) -> (r: Result<QueryIds, ContractError>)
    ensures
        crate::amount::is_outcome(r, query_ids_spec(store@, pool_addr@)),
{
    let pool_info = match store.pools.get(&pool_addr) {
        Some(p) => p,
        None => {
            return Err(ContractError::NotFound);
        },
    };
    let withdraw_addr = match store.info_of_ica_id.get(&pool_info.ica_id) {
        Some(infos) => infos.withdraw_address_ica_info.ica_addr.clone(),
        None => {
            return Err(ContractError::NotFound);
        },
    };
    let withdraw_balance_query_id = get_query_id(store, withdraw_addr, QueryKind::Balances)?;
    let pool_balance_query_id = get_query_id(store, pool_addr.clone(), QueryKind::Balances)?;
    let pool_delegations_query_id = get_query_id(store, pool_addr.clone(), QueryKind::Delegations)?;
    let pool_validators_query_id = get_query_id(store, pool_addr, QueryKind::Validators)?;
    Ok(
        QueryIds {
            withdraw_balance_query_id,
            pool_balance_query_id,
            pool_delegations_query_id,
            pool_validators_query_id,
        },
    )
}

/// The unbonding time, in seconds, of the denomination `remote_denom`.
pub fn query_unbonding_seconds(store: &Store, remote_denom: String) -> (r: Result<u64, ContractError>)
    ensures
        crate::amount::is_outcome(r, found(store@.unbonding_seconds, remote_denom@)),
{
    match store.unbonding_seconds.get(&remote_denom) {
        Some(s) => Ok(*s),
        None => Err(ContractError::NotFound),
    }
}

/// The decimals of the denomination `remote_denom`.
pub fn query_decimals(store: &Store, remote_denom: String) -> (r: Result<u8, ContractError>)
    ensures
        crate::amount::is_outcome(r, found(store@.decimals, remote_denom@)),
{
    match store.decimals.get(&remote_denom) {
        Some(d) => Ok(*d),
        None => Err(ContractError::NotFound),
    }
}

/// The pool `pool_addr`.
pub fn query_pool_info<'a>(store: &'a Store, pool_addr: String) -> (r: Result<&'a PoolInfo, ContractError>)
    ensures
        has_outcome(r, found(store@.pools, pool_addr@)),
{
    match store.pools.get(&pool_addr) {
        Some(p) => Ok(p),
        None => Err(ContractError::NotFound),
    }
}

/// The configuration of the contract, where it was set up.
pub open spec fn stack_spec(pre: StoreView) -> Result<StackView, ContractErrorView> {
    match pre.stack {
        Some(stack) => Ok(stack),
        None => Err(ContractErrorView::NotFound),
    }
}

/// The configuration of the contract.
pub fn query_stack_info<'a>(store: &'a Store) -> (r: Result<&'a Stack, ContractError>)
    ensures
        has_outcome(r, stack_spec(store@)),
{
    match &store.stack {
        Some(s) => Ok(s),
        None => Err(ContractError::NotFound),
    }
}

/// The protocol fee minted so far for the pool `pool_addr`.
pub fn query_total_stack_fee(store: &Store, pool_addr: String) -> (r: Result<u128, ContractError>)
    ensures
        crate::amount::is_outcome(r, found(store@.total_stack_fee, pool_addr@)),
{
    match store.total_stack_fee.get(&pool_addr) {
        Some(v) => Ok(*v),
        None => Err(ContractError::NotFound),
    }
}

/// The snapshot of the current era of the pool `pool_addr`.
pub open spec fn era_snapshot_spec(pre: StoreView, pool_addr: Seq<char>) -> Result<
    EraSnapshot,
    ContractErrorView,
> {
    if pre.pools.contains_key(pool_addr) {
        Ok(pre.pools[pool_addr].era_snapshot)
    } else {
        Err(ContractErrorView::NotFound)
    }
}

/// The snapshot of the current era of the pool `pool_addr`.
pub fn query_era_snapshot(store: &Store, pool_addr: String) -> (r: Result<EraSnapshot, ContractError>)
    ensures
        crate::amount::is_outcome(r, era_snapshot_spec(store@, pool_addr@)),
{
    match store.pools.get(&pool_addr) {
        Some(p) => Ok(p.era_snapshot),
        None => Err(ContractError::NotFound),
    }
}

/// The pair of accounts registered as `interchain_account_id`, as the contract knows it.
pub fn query_interchain_address_contract<'a>(store: &'a Store, interchain_account_id: String) -> (r:
    Result<&'a IcaInfos, ContractError>)
    ensures
        has_outcome(r, found(store@.info_of_ica_id, interchain_account_id@)),
{
    match store.info_of_ica_id.get(&interchain_account_id) {
        Some(i) => Ok(i),
        None => Err(ContractError::NotFound),
    }
}

/// The identifiers of the account pairs that `addr` registered; none where none are
/// recorded.
pub open spec fn ica_ids_of_creator(pre: StoreView, addr: Seq<char>) -> Seq<Seq<char>> {
    if pre.ica_id_of_creator.contains_key(addr) {
        pre.ica_id_of_creator[addr]
    } else {
        Seq::empty()
    }
}

/// The identifiers of the account pairs that `addr` registered.
pub fn interchain_account_id_from_creator(store: &Store, addr: String) -> (r: Vec<String>)
    ensures
        r.deep_view() == ica_ids_of_creator(store@, addr@),
{
    match store.ica_id_of_creator.get(&addr) {
        Some(list) => copy_list(list),
        None => {
            let r: Vec<String> = Vec::new();
            assert(r.deep_view() =~= Seq::<Seq<char>>::empty());
            r
        },
    }
}

} // verus!
