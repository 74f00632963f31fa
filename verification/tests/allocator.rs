//! The distribution of an unbonding over the validators of a pool.
use stake_manager::chain::{Coin, Delegation};
use stake_manager::error_conversion::ContractError;
use stake_manager::execute_era_stake::{
    allocate_unbond_amount, prune_unbond_times, record_unbond_times, ValidatorUnbondInfo,
};
use stake_manager::table::Table;

const POOL: &str = "pool";

fn d(validator: &str, amount: u128) -> Delegation {
    Delegation {
        delegator: POOL.to_string(),
        validator: validator.to_string(),
        amount: Coin { denom: "uatom".to_string(), amount },
    }
}

fn a(validator: &str, amount: u128) -> ValidatorUnbondInfo {
    ValidatorUnbondInfo { validator: validator.to_string(), unbond_amount: amount }
}

fn key(validator: &str) -> (String, String) {
    (POOL.to_string(), validator.to_string())
}

fn no_times() -> Table<(String, String), Vec<u64>> {
    Table::new()
}

#[test]
fn the_largest_delegation_gives_first() {
    let delegations = vec![d("a", 100), d("b", 300), d("c", 200)];
    assert_eq!(
        allocate_unbond_amount(&no_times(), 1000, &delegations, 450, 500),
        Ok(vec![a("b", 300), a("c", 150)])
    );
    assert_eq!(allocate_unbond_amount(&no_times(), 1000, &delegations, 300, 500), Ok(vec![a("b", 300)]));
    assert_eq!(allocate_unbond_amount(&no_times(), 1000, &delegations, 1, 500), Ok(vec![a("b", 1)]));
    assert_eq!(
        allocate_unbond_amount(&no_times(), 1000, &delegations, 600, 500),
        Ok(vec![a("b", 300), a("c", 200), a("a", 100)])
    );
}

#[test]
fn equal_delegations_give_in_the_order_given() {
    let delegations = vec![d("a", 200), d("b", 300), d("c", 200), d("e", 300)];
    assert_eq!(
        allocate_unbond_amount(&no_times(), 1000, &delegations, 1000, 500),
        Ok(vec![a("b", 300), a("e", 300), a("a", 200), a("c", 200)])
    );
}

#[test]
fn the_allocations_sum_to_the_amount_or_the_whole_is_refused() {
    let delegations = vec![d("a", 100), d("b", 300), d("c", 200)];
    for amount in [1u128, 99, 100, 101, 299, 300, 301, 450, 599, 600] {
        let infos = allocate_unbond_amount(&no_times(), 1000, &delegations, amount, 500).unwrap();
        assert_eq!(infos.iter().map(|i| i.unbond_amount).sum::<u128>(), amount);
    }
    assert_eq!(
        allocate_unbond_amount(&no_times(), 1000, &delegations, 601, 500),
        Err(ContractError::ValidatorForUnbondNotEnough)
    );
    assert_eq!(
        allocate_unbond_amount(&no_times(), 1000, &vec![], 1, 500),
        Err(ContractError::ValidatorForUnbondNotEnough)
    );
    assert_eq!(allocate_unbond_amount(&no_times(), 1000, &delegations, 0, 500), Ok(vec![]));
}

#[test]
fn a_validator_with_seven_unbondings_in_flight_is_passed_over() {
    let delegations = vec![d("a", 100), d("b", 300), d("c", 200)];
    let mut times = no_times();
    // seven unbondings from b in flight at the time 1000, the unbonding taking 500 seconds
    times.save(key("b"), vec![600, 700, 800, 900, 950, 990, 999]);
    assert_eq!(
        allocate_unbond_amount(&times, 1000, &delegations, 250, 500),
        Ok(vec![a("c", 200), a("a", 50)])
    );
    // b cannot give, so 300 is the most that can be unbonded
    assert_eq!(allocate_unbond_amount(&times, 1000, &delegations, 300, 500), Ok(vec![a("c", 200), a("a", 100)]));
    assert_eq!(
        allocate_unbond_amount(&times, 1000, &delegations, 301, 500),
        Err(ContractError::ValidatorForUnbondNotEnough)
    );
    // the same in any order of the delegations
    let reordered = vec![d("b", 300), d("c", 200), d("a", 100)];
    let infos = allocate_unbond_amount(&times, 1000, &reordered, 300, 500).unwrap();
    assert!(infos.iter().all(|i| i.validator != "b"));
    // eight in flight
    times.save(key("b"), vec![600, 700, 800, 900, 950, 990, 999, 1000]);
    let infos = allocate_unbond_amount(&times, 1000, &delegations, 300, 500).unwrap();
    assert!(infos.iter().all(|i| i.validator != "b"));
}

#[test]
fn an_unbonding_is_in_flight_until_the_period_has_passed() {
    let delegations = vec![d("b", 300)];
    let mut times = no_times();
    // the first of seven was dispatched at 500: at 1000 it has just expired
    times.save(key("b"), vec![500, 700, 800, 900, 950, 990, 999]);
    assert_eq!(allocate_unbond_amount(&times, 1000, &delegations, 10, 500), Ok(vec![a("b", 10)]));
    // one second earlier it is still in flight
    assert_eq!(
        allocate_unbond_amount(&times, 999, &delegations, 10, 500),
        Err(ContractError::ValidatorForUnbondNotEnough)
    );
    // six in flight do not hold back
    times.save(key("b"), vec![700, 800, 900, 950, 990, 999]);
    assert_eq!(allocate_unbond_amount(&times, 999, &delegations, 10, 500), Ok(vec![a("b", 10)]));
    // times of another delegator do not count
    let mut other = no_times();
    other.save(("other".to_string(), "b".to_string()), vec![990, 991, 992, 993, 994, 995, 996]);
    assert_eq!(allocate_unbond_amount(&other, 999, &delegations, 10, 500), Ok(vec![a("b", 10)]));
    // a time so late that adding the period leaves 64 bits is in flight
    times.save(key("b"), vec![u64::MAX; 7]);
    assert_eq!(
        allocate_unbond_amount(&times, 1000, &delegations, 10, u64::MAX),
        Err(ContractError::ValidatorForUnbondNotEnough)
    );
}

#[test]
fn pruning_drops_expired_times_where_the_allocation_came_by() {
    let delegations = vec![d("a", 100), d("b", 300), d("c", 200)];
    let mut times = no_times();
    times.save(key("b"), vec![100, 400, 600, 999]);
    times.save(key("c"), vec![1, 2, 3]);
    times.save(key("a"), vec![1, 999]);
    // 350 are taken from b and c; the walk does not come to a
    prune_unbond_times(&mut times, 1000, &delegations, 350, 500);
    assert_eq!(times.get(&key("b")), Some(&vec![600, 999]));
    assert_eq!(times.get(&key("c")), Some(&vec![]));
    assert_eq!(times.get(&key("a")), Some(&vec![1, 999]));
    assert_eq!(times.get(&key("z")), None);
}

#[test]
fn dispatch_times_are_recorded_per_validator() {
    let mut times = no_times();
    times.save(key("b"), vec![5]);
    record_unbond_times(&mut times, &POOL.to_string(), &vec!["b".to_string(), "c".to_string()], 77);
    assert_eq!(times.get(&key("b")), Some(&vec![5, 77]));
    assert_eq!(times.get(&key("c")), Some(&vec![77]));
    assert_eq!(times.len(), 2);
}
