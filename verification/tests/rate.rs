//! The rate of the receipt token and the fees of an era.
use stake_manager::amount::{minus, mul_div, plus, times};
use stake_manager::chain::{Coin, Delegation};
use stake_manager::error_conversion::ContractError;
use stake_manager::execute_era_active::{compute_fees, compute_rate_update, total_delegated, RateUpdate};
use stake_manager::execute_stake::lsd_for;

#[test]
fn amounts_are_refused_where_they_leave_128_bits() {
    assert_eq!(plus(1, 2), Ok(3));
    assert_eq!(plus(u128::MAX, 0), Ok(u128::MAX));
    assert_eq!(plus(u128::MAX, 1), Err(ContractError::Overflow));
    assert_eq!(minus(5, 5), Ok(0));
    assert_eq!(minus(5, 6), Err(ContractError::Overflow));
    assert_eq!(times(1 << 64, 1 << 63), Ok(1 << 127));
    assert_eq!(times(1 << 64, 1 << 64), Err(ContractError::Overflow));
    assert_eq!(mul_div(7, 3, 2), Ok(10));
    assert_eq!(mul_div(7, 3, 0), Err(ContractError::DivideByZero));
    assert_eq!(mul_div(u128::MAX, 2, 0), Err(ContractError::Overflow));
    assert_eq!(mul_div(u128::MAX, 2, 4), Err(ContractError::Overflow));
}

#[test]
fn fees_of_a_reward_of_fifty_thousand() {
    // 1,050,000 observed against 1,000,000 in the snapshot; both commissions ten percent
    assert_eq!(compute_fees(1_050_000, 1_000_000, 1_000_000, 100_000, 100_000), Ok((4_500, 500)));
    // no reward, no fee
    assert_eq!(compute_fees(1_000_000, 1_000_000, 1_000_000, 100_000, 100_000), Ok((0, 0)));
    assert_eq!(compute_fees(900_000, 1_000_000, 1_000_000, 100_000, 100_000), Ok((0, 0)));
    // the fee is in receipt tokens: at the rate two it halves
    assert_eq!(compute_fees(1_050_000, 1_000_000, 2_000_000, 100_000, 100_000), Ok((2_250, 250)));
    // rounding is down at each step: 33 * 100000 / 1000000 = 3, 3 * 100000 / 1000000 = 0
    assert_eq!(compute_fees(1_000_033, 1_000_000, 1_000_000, 100_000, 100_000), Ok((3, 0)));
    assert_eq!(compute_fees(2, 1, 0, 100_000, 100_000), Err(ContractError::RateIsZero));
    assert_eq!(compute_fees(u128::MAX, 0, 1_000_000, 2, 1), Err(ContractError::Overflow));
    // a protocol commission above the whole
    assert_eq!(compute_fees(1_050_000, 1_000_000, 1_000_000, 100_000, 2_000_000), Err(ContractError::Overflow));
}

#[test]
fn the_rate_is_the_active_amount_per_receipt_token() {
    let update = compute_rate_update(1_000_000, 1_000_000, 1_000_000, 1_000_000, 100_000, 100_000, 0, 1_050_000);
    assert_eq!(
        update,
        Ok(RateUpdate {
            platform_fee: 4_500,
            stack_fee: 500,
            total_lsd_token_amount: 1_005_000,
            new_active: 1_050_000,
            new_rate: 1_044_776,
        })
    );
    // without supply the rate is the base
    assert_eq!(
        compute_rate_update(0, 0, 0, 1_000_000, 0, 0, 0, 0),
        Ok(RateUpdate { platform_fee: 0, stack_fee: 0, total_lsd_token_amount: 0, new_active: 0, new_rate: 1_000_000 })
    );
    // a loss lowers the rate
    assert_eq!(
        compute_rate_update(2_000_000, 2_000_000, 1_000_000, 2_000_000, 100_000, 100_000, 0, 1_900_000),
        Ok(RateUpdate {
            platform_fee: 0,
            stack_fee: 0,
            total_lsd_token_amount: 1_000_000,
            new_active: 1_900_000,
            new_rate: 1_900_000,
        })
    );
    // the active amount does not go below zero
    assert_eq!(
        compute_rate_update(100, 1_000, 0, 2_000_000, 0, 0, 0, 500),
        Ok(RateUpdate { platform_fee: 0, stack_fee: 0, total_lsd_token_amount: 0, new_active: 0, new_rate: 1_000_000 })
    );
}

#[test]
fn a_rate_of_zero_is_refused() {
    // nothing active and nothing delegated for 1000 receipt tokens, with no limit set
    assert_eq!(compute_rate_update(0, 0, 1_000, 2_000_000, 0, 0, 0, 0), Err(ContractError::RateIsZero));
    // less at work than a millionth of the supply
    assert_eq!(
        compute_rate_update(1_000_000, 1_000_000, 2_000_000, 500_000, 0, 0, 0, 1),
        Err(ContractError::RateIsZero)
    );
    assert_eq!(
        compute_rate_update(1_000_000, 1_000_000, 2_000_000, 500_000, 0, 0, 0, 2).map(|u| u.new_rate),
        Ok(1)
    );
    assert_eq!(
        compute_rate_update(100, 1_000, 1_000_000, 2_000_000, 0, 0, 0, 500),
        Err(ContractError::RateIsZero)
    );
    // a limit refuses the move before that
    assert_eq!(
        compute_rate_update(0, 0, 1_000, 2_000_000, 0, 0, 50_000, 0),
        Err(ContractError::RateChangeOverLimit)
    );
    // unless it allows a move of the whole rate
    assert_eq!(
        compute_rate_update(0, 0, 1_000, 2_000_000, 0, 0, 1_000_000, 0),
        Err(ContractError::RateIsZero)
    );
    // at the default rate a small pool that lost all is put down to rounding
    assert_eq!(
        compute_rate_update(500, 500, 500, 1_000_000, 0, 0, 0, 0),
        Ok(RateUpdate { platform_fee: 0, stack_fee: 0, total_lsd_token_amount: 500, new_active: 500, new_rate: 1_000_000 })
    );
    // a larger one is not
    assert_eq!(compute_rate_update(1_000, 1_000, 1_000, 1_000_000, 0, 0, 0, 0), Err(ContractError::RateIsZero));
}

#[test]
fn the_rate_may_not_move_by_more_than_the_limit() {
    // five percent allowed, six percent computed
    assert_eq!(
        compute_rate_update(1_000_000, 1_000_000, 1_000_000, 1_000_000, 0, 0, 50_000, 1_060_000),
        Err(ContractError::RateChangeOverLimit)
    );
    // five percent computed
    assert_eq!(
        compute_rate_update(1_000_000, 1_000_000, 1_000_000, 1_000_000, 0, 0, 50_000, 1_050_000).map(|u| u.new_rate),
        Ok(1_050_000)
    );
    // downwards as well
    assert_eq!(
        compute_rate_update(2_000_000, 2_000_000, 1_000_000, 2_000_000, 0, 0, 50_000, 1_880_000),
        Err(ContractError::RateChangeOverLimit)
    );
    assert_eq!(
        compute_rate_update(2_000_000, 2_000_000, 1_000_000, 2_000_000, 0, 0, 50_000, 1_900_000).map(|u| u.new_rate),
        Ok(1_900_000)
    );
    // no limit
    assert_eq!(
        compute_rate_update(1_000_000, 1_000_000, 1_000_000, 1_000_000, 0, 0, 0, 9_000_000).map(|u| u.new_rate),
        Ok(9_000_000)
    );
}

#[test]
fn a_first_rate_just_below_the_default_is_put_down_to_rounding() {
    // at the default rate, 999,999 observed for 1,000,000 receipt tokens
    assert_eq!(
        compute_rate_update(1_000_000, 1_000_000, 1_000_000, 1_000_000, 0, 0, 0, 999_999),
        Ok(RateUpdate {
            platform_fee: 0,
            stack_fee: 0,
            total_lsd_token_amount: 1_000_000,
            new_active: 1_000_000,
            new_rate: 1_000_000,
        })
    );
    // a thousand or more below is a loss
    assert_eq!(
        compute_rate_update(1_000_000, 1_000_000, 1_000_000, 1_000_000, 0, 0, 0, 999_000),
        Ok(RateUpdate {
            platform_fee: 0,
            stack_fee: 0,
            total_lsd_token_amount: 1_000_000,
            new_active: 999_000,
            new_rate: 999_000,
        })
    );
    assert_eq!(
        compute_rate_update(1_000_000, 1_000_000, 1_000_000, 1_000_000, 0, 0, 0, 999_001).map(|u| u.new_rate),
        Ok(1_000_000)
    );
    // not at another rate
    assert_eq!(
        compute_rate_update(1_000_000, 1_000_000, 2_000_000, 500_000, 0, 0, 0, 999_999).map(|u| u.new_rate),
        Ok(499_999)
    );
}

#[test]
fn delegations_are_added_up() {
    let d = |a: u128| Delegation {
        delegator: "p".to_string(),
        validator: "v".to_string(),
        amount: Coin { denom: "uatom".to_string(), amount: a },
    };
    assert_eq!(total_delegated(&vec![]), Ok(0));
    assert_eq!(total_delegated(&vec![d(1), d(2), d(3)]), Ok(6));
    assert_eq!(total_delegated(&vec![d(u128::MAX), d(0)]), Ok(u128::MAX));
    assert_eq!(total_delegated(&vec![d(u128::MAX), d(1)]), Err(ContractError::Overflow));
}

#[test]
fn receipt_tokens_for_a_deposit() {
    assert_eq!(lsd_for(1_000_000, 1_000_000), Ok(1_000_000));
    assert_eq!(lsd_for(1_000_000, 1_044_776), Ok(957_142));
    assert_eq!(lsd_for(1, 3_000_000), Ok(0));
    assert_eq!(lsd_for(1, 0), Err(ContractError::RateIsZero));
    assert_eq!(lsd_for(u128::MAX, 1_000_000), Err(ContractError::Overflow));
}
