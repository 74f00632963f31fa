//! The parameters of the calls that configure the contract and its pools.
use vstd::prelude::*;
use crate::chain::{
    BalanceResponse,
    Coin,
    DelegatorDelegationsResponse,
    IbcFee,
    ValidatorResponse,
};
use crate::helper::QueryDenomTraceResponse;

verus! {

/// The parameters with which the contract is set up.
#[derive(Clone, Debug, PartialEq, Eq)]
pub struct InstantiateMsg {
    pub lsd_token_code_id: u64,
    pub stack_fee_receiver: String,
}

/// The parameters with which a registered pool is initialised.
#[derive(Clone, Debug, PartialEq, Eq)]
pub struct InitPoolParams {
    pub interchain_account_id: String,
    pub ibc_denom: String,
    pub channel_id_of_ibc_denom: String,
    pub remote_denom: String,
    pub validator_addrs: Vec<String>,
    pub platform_fee_receiver: String,
    pub lsd_token_code_id: Option<u64>,
    pub lsd_token_name: String,
    pub lsd_token_symbol: String,
    pub minimal_stake: u128,
    pub platform_fee_commission: Option<u128>,
}

/// What to change in the configuration of the contract: a field that is `None` stays.
#[derive(Clone, Debug, PartialEq, Eq)]
pub struct ConfigStackParams {
    pub stack_fee_receiver: Option<String>,
    pub new_admin: Option<String>,
    pub stack_fee_commission: Option<u128>,
    pub lsd_token_code_id: Option<u64>,
    pub add_entrusted_pool: Option<String>,
    pub remove_entrusted_pool: Option<String>,
}

/// The protocol commission to set for a pool.
#[derive(Clone, Debug, PartialEq, Eq)]
pub struct ConfigPoolStackFeeParams {
    pub pool_addr: String,
    pub stack_fee_commission: u128,
}

/// What to change in the configuration of a pool: a field that is `None` stays.
#[derive(Clone, Debug, PartialEq, Eq)]
pub struct ConfigPoolParams {
    pub pool_addr: String,
    pub platform_fee_receiver: Option<String>,
    pub minimal_stake: Option<u128>,
    pub unstake_times_limit: Option<u64>,
    pub unbond_commission: Option<u128>,
    pub platform_fee_commission: Option<u128>,
    pub era_seconds: Option<u64>,
    pub paused: Option<bool>,
    pub lsm_support: Option<bool>,
    pub lsm_pending_limit: Option<u64>,
    pub rate_change_limit: Option<u128>,
    pub new_admin: Option<String>,
}

/// A call of the contract.
#[derive(Clone, Debug, PartialEq, Eq)]
pub enum ExecuteMsg {
    RegisterPool { connection_id: String, interchain_account_id: String },
    InitPool(InitPoolParams),
    ConfigPool(ConfigPoolParams),
    ConfigStack(ConfigStackParams),
    ConfigPoolStackFee(ConfigPoolStackFeeParams),
    ConfigUnbondingSeconds { remote_denom: String, unbonding_seconds: Option<u64> },
    ConfigDecimals { remote_denom: String, decimals: Option<u8> },
    OpenChannel { pool_addr: String, closed_channel_id: String },
    RedeemTokenForShare { pool_addr: String, tokens: Vec<Coin> },
    Stake { neutron_address: String, pool_addr: String },
    Unstake { amount: u128, pool_addr: String },
    Withdraw { pool_addr: String, receiver: String, unstake_index_list: Vec<u64> },
    PoolRmValidator { pool_addr: String, validator_addr: String },
    PoolAddValidator { pool_addr: String, validator_addr: String },
    PoolUpdateValidator { pool_addr: String, old_validator: String, new_validator: String },
    PoolUpdateValidatorsIcq { pool_addr: String },
    EraUpdate { pool_addr: String },
    EraStake { pool_addr: String },
    EraCollectWithdraw { pool_addr: String },
    EraRestake { pool_addr: String },
    EraActive { pool_addr: String },
    StakeLsm { neutron_address: String, pool_addr: String },
    UpdateIcqUpdatePeriod { pool_addr: String },
}

/// What the chain reports at the time of a call, as far as the call may depend on it.
/// Each answer is the value reported or the text of the failure to report it; a call
/// reads only the answers that its course comes to.
#[derive(Debug, PartialEq, Eq)]
pub struct ChainData {
    /// The minimal fee of a remote instruction.
    pub min_ibc_fee: Result<IbcFee, String>,
    /// The deposit for the registration of one query.
    pub icq_register_fee: Result<Vec<Coin>, String>,
    /// The balances of the contract.
    pub contract_balances: Result<Vec<Coin>, String>,
    /// The result of the delegations query of the pool that the call names.
    pub delegations: Result<DelegatorDelegationsResponse, String>,
    /// The result of the balance query of the withdrawal account of that pool.
    pub withdraw_balance: Result<BalanceResponse, String>,
    /// The result of the validators query of that pool.
    pub validators: Result<ValidatorResponse, String>,
    /// What the denomination stands for that the call is about: the denomination of the
    /// pool for an initialisation, that of the funds for a deposit of liquid-share tokens.
    pub denom_trace: Result<QueryDenomTraceResponse, String>,
    /// The address derived for the receipt-token contract of the pool to initialise.
    pub lsd_token_addr: Result<String, String>,
}

/// The parameters of a migration: there are none.
#[derive(Clone, Copy, Debug, PartialEq, Eq)]
pub struct MigrateMsg {}

} // verus!
