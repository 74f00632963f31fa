//! Eras, offsets, and the small rules of the state.
use stake_manager::error_conversion::ContractError;
use stake_manager::execute_config_pool::{era_offset, unbonding_period};
use stake_manager::execute_era_update::current_era;
use stake_manager::helper::get_withdraw_ica_id;
use stake_manager::state::{
    EraStatus, IcaInfo, PoolInfo, QueryKind, Stack, Store, ValidatorUpdateStatus,
};
use stake_manager::table::Table;

#[test]
fn test_update_era_logic() {
    // init
    let mut pool = PoolInfo::default();
    pool.era_seconds = 24 * 3600;
    let current_timestamp = 1707188243 as u64; // 2024-02-06 02:57:23 UTC
    pool.offset = era_offset(0, current_timestamp, pool.era_seconds).unwrap();

    // time flies
    let current_timestamp = 1707274643 as u64; // 2024-02-07 02:57:23 UTC
    let era = current_era(current_timestamp, pool.era_seconds, pool.offset).unwrap();
    assert_eq!(1, era);

    {
        // change era seconds to 8h
        let current_timestamp = 1707274643 as u64; // 2024-02-07 02:57:23 UTC
        let old_current_era = current_era(current_timestamp, pool.era_seconds, pool.offset).unwrap();
        pool.era_seconds = 8 * 3600;
        pool.offset = era_offset(old_current_era, current_timestamp, pool.era_seconds).unwrap();
        let era = current_era(current_timestamp, pool.era_seconds, pool.offset).unwrap();
        assert_eq!(1, era);

        let current_timestamp = 1707274643 as u64 + 8 * 3600; // 2024-02-07 10:57:23 UTC
        let era = current_era(current_timestamp, pool.era_seconds, pool.offset).unwrap();
        assert_eq!(2, era);
    }
}

#[test]
fn the_era_is_held_within_sixty_four_bits() {
    assert_eq!(current_era(100, 10, -3), Ok(7));
    assert_eq!(current_era(100, 10, -10), Ok(0));
    assert_eq!(current_era(100, 10, -11), Ok(0));
    assert_eq!(current_era(100, 10, i64::MIN), Ok(0));
    assert_eq!(current_era(u64::MAX, 1, 1), Ok(u64::MAX));
    assert_eq!(current_era(u64::MAX, 1, 0), Ok(u64::MAX));
    assert_eq!(current_era(109, 10, 0), Ok(10));
    assert_eq!(current_era(100, 0, 0), Err(ContractError::DivideByZero));
    assert_eq!(era_offset(5, 100, 10), Ok(-5));
    assert_eq!(era_offset(0, 1_707_188_243, 86400), Ok(-19759));
    assert_eq!(era_offset(5, 100, 0), Err(ContractError::DivideByZero));
    assert_eq!(era_offset(u64::MAX, 0, 1), Err(ContractError::Overflow));
    assert_eq!(era_offset(0, u64::MAX, 1), Err(ContractError::Overflow));
}

#[test]
fn the_unbonding_period_is_the_unbonding_time_in_eras_and_one_more() {
    // 21 days in eras of a day
    assert_eq!(unbonding_period(1_814_400, 86400), Ok(22));
    // in eras of eight hours
    assert_eq!(unbonding_period(1_814_400, 28800), Ok(64));
    // a second more needs an era more
    assert_eq!(unbonding_period(1_814_401, 86400), Ok(23));
    assert_eq!(unbonding_period(0, 86400), Ok(1));
    assert_eq!(unbonding_period(1, 86400), Ok(2));
    assert_eq!(unbonding_period(10, 0), Err(ContractError::DivideByZero));
    assert_eq!(unbonding_period(u64::MAX, 1), Err(ContractError::Overflow));
}

#[test]
fn only_the_administrator_is_authorized() {
    let stack = Stack {
        admin: "admin".to_string(),
        stack_fee_receiver: "fee".to_string(),
        stack_fee_commission: 0,
        entrusted_pools: vec![],
        lsd_token_code_id: 1,
    };
    assert_eq!(stack.authorize(&"admin".to_string()), Ok(()));
    assert_eq!(stack.authorize(&"Admin".to_string()), Err(ContractError::Unauthorized));
    let mut pool = PoolInfo::default();
    pool.admin = "creator".to_string();
    assert_eq!(pool.authorize(&"creator".to_string()), Ok(()));
    assert_eq!(pool.authorize(&"admin".to_string()), Err(ContractError::Unauthorized));
    assert_eq!(pool.authorize(&"".to_string()), Err(ContractError::Unauthorized));
}

#[test]
fn a_pool_is_at_rest_only_between_eras() {
    let mut pool = PoolInfo::default();
    assert_eq!(pool.status, EraStatus::RegisterEnded);
    assert_eq!(pool.require_era_ended(), Err(ContractError::EraProcessNotEnd));
    pool.status = EraStatus::ActiveEnded;
    assert_eq!(pool.require_era_ended(), Ok(()));
    pool.status = EraStatus::EraUpdateStarted;
    assert_eq!(pool.require_era_ended(), Err(ContractError::EraProcessNotEnd));
    assert_eq!(pool.require_update_validator_ended(), Ok(()));
    pool.validator_update_status = ValidatorUpdateStatus::Start;
    assert_eq!(pool.require_update_validator_ended(), Err(ContractError::StatusNotAllow));
    pool.validator_update_status = ValidatorUpdateStatus::WaitQueryUpdate;
    assert_eq!(pool.require_update_validator_ended(), Err(ContractError::StatusNotAllow));
}

#[test]
fn defaults_are_empty() {
    let pool = PoolInfo::default();
    assert_eq!(pool.rate, 0);
    assert_eq!(pool.era, 0);
    assert!(pool.validator_addrs.is_empty());
    assert!(pool.ica_id.is_empty());
    assert!(!pool.paused);
    assert_eq!(pool.validator_update_status, ValidatorUpdateStatus::End);
    let ica = IcaInfo::default();
    assert!(ica.ica_addr.is_empty() && ica.ctrl_port_id.is_empty() && ica.ctrl_channel_id.is_empty());
    let store = Store::new();
    assert!(store.stack.is_none());
    assert_eq!(store.pools.len(), 0);
    assert_eq!(store.latest_reply_id, None);
}

#[test]
fn names_of_query_kinds_and_withdrawal_accounts() {
    assert_eq!(QueryKind::Balances.to_string(), "balances");
    assert_eq!(QueryKind::Delegations.to_string(), "delegations");
    assert_eq!(QueryKind::Validators.to_string(), "validators");
    assert_eq!(get_withdraw_ica_id("pool1".to_string()), "pool1-withdraw_addr");
    assert_eq!(get_withdraw_ica_id("".to_string()), "-withdraw_addr");
}

#[test]
fn a_table_is_a_map() {
    let mut t: Table<(String, u64), u128> = Table::new();
    let k = |a: &str, n: u64| (a.to_string(), n);
    assert_eq!(t.len(), 0);
    assert!(!t.has(&k("a", 1)));
    t.save(k("a", 1), 10);
    t.save(k("a", 2), 20);
    t.save(k("b", 1), 30);
    assert_eq!(t.len(), 3);
    assert_eq!(t.get(&k("a", 2)), Some(&20));
    assert_eq!(t.get(&k("b", 2)), None);
    t.save(k("a", 2), 21);
    assert_eq!(t.len(), 3);
    assert_eq!(t.get(&k("a", 2)), Some(&21));
    assert_eq!(t.remove(&k("a", 1)), Some(10));
    assert_eq!(t.remove(&k("a", 1)), None);
    assert_eq!(t.len(), 2);
    assert_eq!(t.take(&k("b", 1)), 30);
    assert_eq!(t.len(), 1);
    let (key, value) = t.entry(0);
    assert_eq!((key.clone(), *value), (k("a", 2), 21));
}
