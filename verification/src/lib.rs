//! The accounting and orchestration core of a liquid-staking manager that works across
//! chains.
//!
//! A pool holds deposits in the staking asset of a remote chain and issues a receipt
//! token for them. In recurring eras the pool brings what was deposited and what was
//! requested back in line with its delegations on the remote chain, by instructions that
//! are dispatched to the remote chain and resolve later, in a call of their own.
//!
//! The library is a state machine over an explicit state, [`state::Store`]. Each entry
//! point takes the state, the call, and what the chain reports at the time of the call,
//! and hands back the messages to dispatch; a refused call leaves the state as it was.
//! The contract of an entry point names its outcome by a specification function over the
//! mathematical model of the state.
pub mod amount;
pub mod chain;
pub mod contract;
pub mod error_conversion;
pub mod execute_config_decimals;
pub mod execute_config_pool;
pub mod execute_config_pool_stack_fee;
pub mod execute_config_stack;
pub mod execute_config_unbonding_seconds;
pub mod execute_era_active;
pub mod execute_era_collect_withdraw;
pub mod execute_era_restake;
pub mod execute_era_stake;
pub mod execute_era_update;
pub mod execute_icq_update_period;
pub mod execute_init_pool;
pub mod execute_open_channel;
pub mod execute_pool_add_validator;
pub mod execute_pool_rm_validator;
pub mod execute_pool_update_validator;
pub mod execute_redeem_token_for_share;
pub mod execute_register_pool;
pub mod execute_stake;
pub mod execute_stake_lsm;
pub mod execute_unstake;
pub mod execute_update_validators_icq;
pub mod execute_withdraw;
pub mod helper;
pub mod msg;
pub mod query;
pub mod query_callback;
pub mod state;
pub mod table;
pub mod text;
pub mod tx_callback;
