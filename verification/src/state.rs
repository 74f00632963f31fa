//! The data the contract keeps, and the correlation ledger that ties a dispatched
//! remote instruction to the record of what to do when it resolves.
use vstd::prelude::*;
use crate::chain::{Coin, CoinView};
use crate::error_conversion::ContractError;
use crate::table::Table;

verus! {

/// First identifier of the range from which replies to dispatched instructions are numbered.
pub const REPLY_ID_RANGE_START: u64 = 1_000_000_000;

/// Size of that range.
pub const REPLY_ID_RANGE_SIZE: u64 = 1_000_000;

/// Last identifier of that range.
pub const REPLY_ID_RANGE_END: u64 = 1_001_000_000;

/// First identifier of the range from which replies to query registrations are numbered.
pub const QUERY_REPLY_ID_RANGE_START: u64 = 2_000_000_000;

/// Size of that range.
pub const QUERY_REPLY_ID_RANGE_SIZE: u64 = 1_000_000;

/// Last identifier of that range.
pub const QUERY_REPLY_ID_RANGE_END: u64 = 2_001_000_000;

/// Where a pool stands in its era cycle.
/// 
/// A pool is registered, initialised, and then goes round the cycle era update, era stake,
/// collect withdraw, era restake, era active. A step that dispatches a remote instruction is
/// `..Started` until the instruction resolves.
#[derive(Clone, Copy, Debug, PartialEq, Eq, Structural)]
pub enum EraStatus {
    RegisterEnded,
    InitStarted,
    InitFailed,
    EraUpdateStarted,
    EraUpdateEnded,
    EraStakeStarted,
    EraStakeEnded,
    WithdrawStarted,
    WithdrawEnded,
    EraRestakeStarted,
    EraRestakeEnded,
    ActiveEnded,
}

impl DeepView for EraStatus {
    type V = EraStatus;

    open spec fn deep_view(&self) -> EraStatus {
        *self
    }
}

/// Where a change of a pool's validator set stands.
#[derive(Clone, Copy, Debug, PartialEq, Eq, Structural)]
pub enum ValidatorUpdateStatus {
    /// A redelegation was dispatched and has not resolved.
    Start,
    /// The set has changed; the observational queries still watch the old set.
    WaitQueryUpdate,
    /// At rest.
    End,
}

impl DeepView for ValidatorUpdateStatus {
    type V = ValidatorUpdateStatus;

    open spec fn deep_view(&self) -> ValidatorUpdateStatus {
        *self
    }
}

/// Whether an unstake request is part of a withdrawal that was dispatched.
#[derive(Clone, Copy, Debug, PartialEq, Eq, Structural)]
pub enum WithdrawStatus {
    Default,
    Pending,
}

impl DeepView for WithdrawStatus {
    type V = WithdrawStatus;

    open spec fn deep_view(&self) -> WithdrawStatus {
        *self
    }
}

/// The kinds of observational query the contract registers.
#[derive(Clone, Copy, Debug, PartialEq, Eq, Structural)]
pub enum QueryKind {
    Balances,
    Delegations,
    Validators,
}

impl DeepView for QueryKind {
    type V = QueryKind;

    open spec fn deep_view(&self) -> QueryKind {
        *self
    }
}

/// What a dispatched remote instruction was for; it selects the handler of its resolution.
#[derive(Clone, Copy, Debug, PartialEq, Eq, Structural)]
pub enum TxType {
    SetWithdrawAddr,
    UpdateValidator,
    RmValidator,
    UserWithdraw,
    EraUpdate,
    EraBond,
    EraCollectWithdraw,
    EraRebond,
    RedeemTokenForShare,
    StakeLsm,
}

impl DeepView for TxType {
    type V = TxType;

    open spec fn deep_view(&self) -> TxType {
        *self
    }
}

/// The configuration of the whole contract.
#[derive(Clone, Debug, PartialEq, Eq)]
pub struct Stack {
    pub admin: String,
    pub stack_fee_receiver: String,
    pub stack_fee_commission: u128,
    pub entrusted_pools: Vec<String>,
    pub lsd_token_code_id: u64,
}

/// The mathematical model of [`Stack`]: texts are sequences of characters, lists are sequences.
pub struct StackView {
    pub admin: Seq<char>,
    pub stack_fee_receiver: Seq<char>,
    pub stack_fee_commission: u128,
    pub entrusted_pools: Seq<Seq<char>>,
    pub lsd_token_code_id: u64,
}

impl DeepView for Stack {
    type V = StackView;

    open spec fn deep_view(&self) -> StackView {
        StackView {
            admin: self.admin.deep_view(),
            stack_fee_receiver: self.stack_fee_receiver.deep_view(),
            stack_fee_commission: self.stack_fee_commission.deep_view(),
            entrusted_pools: self.entrusted_pools.deep_view(),
            lsd_token_code_id: self.lsd_token_code_id.deep_view(),
        }
    }
}

impl View for Stack {
    type V = StackView;

    open spec fn view(&self) -> StackView {
        self.deep_view()
    }
}

/// What a pool held when its current era began, the amount collected from the withdrawal
/// account in this era, and the height at which the last step of the era completed.
#[derive(Clone, Copy, Debug, PartialEq, Eq, Structural)]
pub struct EraSnapshot {
    pub era: u64,
    pub bond: u128,
    pub unbond: u128,
    pub active: u128,
    pub restake_amount: u128,
    pub last_step_height: u64,
}

impl DeepView for EraSnapshot {
    type V = EraSnapshot;

    open spec fn deep_view(&self) -> EraSnapshot {
        *self
    }
}

/// One managed staking account of the remote chain and its receipt-token economy.
#[derive(Clone, Debug, PartialEq, Eq)]
pub struct PoolInfo {
    /// Deposited in this era, not yet delegated.
    pub bond: u128,
    /// Requested back in this era, not yet undelegated.
    pub unbond: u128,
    /// What the pool has at work, in the remote denomination.
    pub active: u128,
    pub lsd_token: String,
    pub ica_id: String,
    pub ibc_denom: String,
    pub channel_id_of_ibc_denom: String,
    pub remote_denom: String,
    pub validator_addrs: Vec<String>,
    pub era: u64,
    /// Value of one receipt token, in millionths of the remote denomination.
    pub rate: u128,
    pub era_seconds: u64,
    pub offset: i64,
    pub minimal_stake: u128,
    pub unstake_times_limit: u64,
    pub next_unstake_index: u64,
    /// Eras that an unstake request waits.
    pub unbonding_period: u64,
    pub status: EraStatus,
    pub validator_update_status: ValidatorUpdateStatus,
    pub unbond_commission: u128,
    pub platform_fee_commission: u128,
    pub stack_fee_commission: u128,
    pub total_platform_fee: u128,
    /// Receipt tokens outstanding.
    pub total_lsd_token_amount: u128,
    pub platform_fee_receiver: String,
    pub admin: String,
    /// Liquid-share tokens received and not yet redeemed.
    pub share_tokens: Vec<Coin>,
    pub redeemming_share_token_denom: Vec<String>,
    pub era_snapshot: EraSnapshot,
    pub paused: bool,
    pub lsm_support: bool,
    pub lsm_pending_limit: u64,
    /// Largest change of the rate in one era, in millionths of the rate; zero for no limit.
    pub rate_change_limit: u128,
}

/// The mathematical model of [`PoolInfo`]: texts are sequences of characters, lists are sequences.
pub struct PoolInfoView {
    pub bond: u128,
    pub unbond: u128,
    pub active: u128,
    pub lsd_token: Seq<char>,
    pub ica_id: Seq<char>,
    pub ibc_denom: Seq<char>,
    pub channel_id_of_ibc_denom: Seq<char>,
    pub remote_denom: Seq<char>,
    pub validator_addrs: Seq<Seq<char>>,
    pub era: u64,
    pub rate: u128,
    pub era_seconds: u64,
    pub offset: i64,
    pub minimal_stake: u128,
    pub unstake_times_limit: u64,
    pub next_unstake_index: u64,
    pub unbonding_period: u64,
    pub status: EraStatus,
    pub validator_update_status: ValidatorUpdateStatus,
    pub unbond_commission: u128,
    pub platform_fee_commission: u128,
    pub stack_fee_commission: u128,
    pub total_platform_fee: u128,
    pub total_lsd_token_amount: u128,
    pub platform_fee_receiver: Seq<char>,
    pub admin: Seq<char>,
    pub share_tokens: Seq<CoinView>,
    pub redeemming_share_token_denom: Seq<Seq<char>>,
    pub era_snapshot: EraSnapshot,
    pub paused: bool,
    pub lsm_support: bool,
    pub lsm_pending_limit: u64,
    pub rate_change_limit: u128,
}

impl DeepView for PoolInfo {
    type V = PoolInfoView;

    open spec fn deep_view(&self) -> PoolInfoView {
        PoolInfoView {
            bond: self.bond.deep_view(),
            unbond: self.unbond.deep_view(),
            active: self.active.deep_view(),
            lsd_token: self.lsd_token.deep_view(),
            ica_id: self.ica_id.deep_view(),
            ibc_denom: self.ibc_denom.deep_view(),
            channel_id_of_ibc_denom: self.channel_id_of_ibc_denom.deep_view(),
            remote_denom: self.remote_denom.deep_view(),
            validator_addrs: self.validator_addrs.deep_view(),
            era: self.era.deep_view(),
            rate: self.rate.deep_view(),
            era_seconds: self.era_seconds.deep_view(),
            offset: self.offset.deep_view(),
            minimal_stake: self.minimal_stake.deep_view(),
            unstake_times_limit: self.unstake_times_limit.deep_view(),
            next_unstake_index: self.next_unstake_index.deep_view(),
            unbonding_period: self.unbonding_period.deep_view(),
            status: self.status.deep_view(),
            validator_update_status: self.validator_update_status.deep_view(),
            unbond_commission: self.unbond_commission.deep_view(),
            platform_fee_commission: self.platform_fee_commission.deep_view(),
            stack_fee_commission: self.stack_fee_commission.deep_view(),
            total_platform_fee: self.total_platform_fee.deep_view(),
            total_lsd_token_amount: self.total_lsd_token_amount.deep_view(),
            platform_fee_receiver: self.platform_fee_receiver.deep_view(),
            admin: self.admin.deep_view(),
            share_tokens: self.share_tokens.deep_view(),
            redeemming_share_token_denom: self.redeemming_share_token_denom.deep_view(),
            era_snapshot: self.era_snapshot.deep_view(),
            paused: self.paused.deep_view(),
            lsm_support: self.lsm_support.deep_view(),
            lsm_pending_limit: self.lsm_pending_limit.deep_view(),
            rate_change_limit: self.rate_change_limit.deep_view(),
        }
    }
}

impl View for PoolInfo {
    type V = PoolInfoView;

    open spec fn view(&self) -> PoolInfoView {
        self.deep_view()
    }
}

/// One request to take the underlying asset out of a pool.
#[derive(Clone, Debug, PartialEq, Eq)]
pub struct UnstakeInfo {
    pub era: u64,
    pub pool_addr: String,
    pub unstaker: String,
    pub amount: u128,
    pub status: WithdrawStatus,
    pub index: u64,
}

/// The mathematical model of [`UnstakeInfo`]: texts are sequences of characters, lists are sequences.
pub struct UnstakeInfoView {
    pub era: u64,
    pub pool_addr: Seq<char>,
    pub unstaker: Seq<char>,
    pub amount: u128,
    pub status: WithdrawStatus,
    pub index: u64,
}

impl DeepView for UnstakeInfo {
    type V = UnstakeInfoView;

    open spec fn deep_view(&self) -> UnstakeInfoView {
        UnstakeInfoView {
            era: self.era.deep_view(),
            pool_addr: self.pool_addr.deep_view(),
            unstaker: self.unstaker.deep_view(),
            amount: self.amount.deep_view(),
            status: self.status.deep_view(),
            index: self.index.deep_view(),
        }
    }
}

impl View for UnstakeInfo {
    type V = UnstakeInfoView;

    open spec fn view(&self) -> UnstakeInfoView {
        self.deep_view()
    }
}

/// How one interchain account is addressed.
#[derive(Clone, Debug, PartialEq, Eq)]
pub struct IcaInfo {
    pub ctrl_connection_id: String,
    pub host_connection_id: String,
    pub ctrl_channel_id: String,
    pub host_channel_id: String,
    pub ctrl_port_id: String,
    pub ica_addr: String,
}

/// The mathematical model of [`IcaInfo`]: texts are sequences of characters, lists are sequences.
pub struct IcaInfoView {
    pub ctrl_connection_id: Seq<char>,
    pub host_connection_id: Seq<char>,
    pub ctrl_channel_id: Seq<char>,
    pub host_channel_id: Seq<char>,
    pub ctrl_port_id: Seq<char>,
    pub ica_addr: Seq<char>,
}

impl DeepView for IcaInfo {
    type V = IcaInfoView;

    open spec fn deep_view(&self) -> IcaInfoView {
        IcaInfoView {
            ctrl_connection_id: self.ctrl_connection_id.deep_view(),
            host_connection_id: self.host_connection_id.deep_view(),
            ctrl_channel_id: self.ctrl_channel_id.deep_view(),
            host_channel_id: self.host_channel_id.deep_view(),
            ctrl_port_id: self.ctrl_port_id.deep_view(),
            ica_addr: self.ica_addr.deep_view(),
        }
    }
}

impl View for IcaInfo {
    type V = IcaInfoView;

    open spec fn view(&self) -> IcaInfoView {
        self.deep_view()
    }
}

/// The account of a pool, the withdrawal account paired with it, and who registered them.
#[derive(Clone, Debug, PartialEq, Eq)]
pub struct IcaInfos {
    pub pool_address_ica_info: IcaInfo,
    pub withdraw_address_ica_info: IcaInfo,
    pub admin: String,
}

/// The mathematical model of [`IcaInfos`]: texts are sequences of characters, lists are sequences.
pub struct IcaInfosView {
    pub pool_address_ica_info: IcaInfoView,
    pub withdraw_address_ica_info: IcaInfoView,
    pub admin: Seq<char>,
}

impl DeepView for IcaInfos {
    type V = IcaInfosView;

    open spec fn deep_view(&self) -> IcaInfosView {
        IcaInfosView {
            pool_address_ica_info: self.pool_address_ica_info.deep_view(),
            withdraw_address_ica_info: self.withdraw_address_ica_info.deep_view(),
            admin: self.admin.deep_view(),
        }
    }
}

impl View for IcaInfos {
    type V = IcaInfosView;

    open spec fn view(&self) -> IcaInfosView {
        self.deep_view()
    }
}

/// The identifiers of the four observational queries of a pool.
#[derive(Clone, Copy, Debug, PartialEq, Eq, Structural)]
pub struct QueryIds {
    pub withdraw_balance_query_id: u64,
    pub pool_balance_query_id: u64,
    pub pool_delegations_query_id: u64,
    pub pool_validators_query_id: u64,
}

/// What to do when a dispatched remote instruction resolves.
#[derive(Clone, Debug, PartialEq, Eq)]
pub struct SudoPayload {
    /// Context of the operation, in the form its handler reads.
    pub message: String,
    pub pool_addr: String,
    pub port_id: String,
    pub tx_type: TxType,
}

/// The mathematical model of [`SudoPayload`]: texts are sequences of characters, lists are sequences.
pub struct SudoPayloadView {
    pub message: Seq<char>,
    pub pool_addr: Seq<char>,
    pub port_id: Seq<char>,
    pub tx_type: TxType,
}

impl DeepView for SudoPayload {
    type V = SudoPayloadView;

    open spec fn deep_view(&self) -> SudoPayloadView {
        SudoPayloadView {
            message: self.message.deep_view(),
            pool_addr: self.pool_addr.deep_view(),
            port_id: self.port_id.deep_view(),
            tx_type: self.tx_type.deep_view(),
        }
    }
}

impl View for SudoPayload {
    type V = SudoPayloadView;

    open spec fn view(&self) -> SudoPayloadView {
        self.deep_view()
    }
}

/// The persistent state of the contract: one field for each named collection.
#[derive(Debug)]
pub struct Store {
    pub stack: Option<Stack>,
    /// Protocol fee minted so far, by pool.
    pub total_stack_fee: Table<String, u128>,
    /// Pools, by the address of their remote account.
    pub pools: Table<String, PoolInfo>,
    /// Unstake requests, by pool and index.
    pub unstakes_of_index: Table<(String, u64), UnstakeInfo>,
    /// Registered account pairs, by identifier.
    pub info_of_ica_id: Table<String, IcaInfos>,
    /// Indices of the outstanding requests, by user and pool.
    pub unstakes_index_for_user: Table<(String, String), Vec<u64>>,
    pub latest_reply_id: Option<u64>,
    pub latest_query_reply_id: Option<u64>,
    /// Correlation records of instructions handed to the chain, by reply identifier.
    pub reply_id_to_payload: Table<u64, SudoPayload>,
    /// Correlation records of dispatched instructions, by channel and sequence number.
    pub sudo_payload: Table<(String, u64), SudoPayload>,
    /// Reply identifier of a query registration, by account and kind of query.
    pub address_to_reply_id: Table<(String, String), u64>,
    pub reply_id_to_query_id: Table<u64, u64>,
    pub reply_id_to_need_update: Table<u64, bool>,
    pub query_id_to_reply_id: Table<u64, u64>,
    /// Times of the recent unbonding dispatches, by pool and validator.
    pub validators_unbonds_time: Table<(String, String), Vec<u64>>,
    /// Rate of a pool at the end of an era.
    pub era_rate: Table<(String, u64), u128>,
    /// Unbonding time of the remote chain, by denomination.
    pub unbonding_seconds: Table<String, u64>,
    pub decimals: Table<String, u8>,
    pub ica_id_of_creator: Table<String, Vec<String>>,
}

/// The mathematical model of [`Store`]: texts are sequences of characters, lists are sequences.
pub struct StoreView {
    pub stack: Option<StackView>,
    pub total_stack_fee: Map<Seq<char>, u128>,
    pub pools: Map<Seq<char>, PoolInfoView>,
    pub unstakes_of_index: Map<(Seq<char>, u64), UnstakeInfoView>,
    pub info_of_ica_id: Map<Seq<char>, IcaInfosView>,
    pub unstakes_index_for_user: Map<(Seq<char>, Seq<char>), Seq<u64>>,
    pub latest_reply_id: Option<u64>,
    pub latest_query_reply_id: Option<u64>,
    pub reply_id_to_payload: Map<u64, SudoPayloadView>,
    pub sudo_payload: Map<(Seq<char>, u64), SudoPayloadView>,
    pub address_to_reply_id: Map<(Seq<char>, Seq<char>), u64>,
    pub reply_id_to_query_id: Map<u64, u64>,
    pub reply_id_to_need_update: Map<u64, bool>,
    pub query_id_to_reply_id: Map<u64, u64>,
    pub validators_unbonds_time: Map<(Seq<char>, Seq<char>), Seq<u64>>,
    pub era_rate: Map<(Seq<char>, u64), u128>,
    pub unbonding_seconds: Map<Seq<char>, u64>,
    pub decimals: Map<Seq<char>, u8>,
    pub ica_id_of_creator: Map<Seq<char>, Seq<Seq<char>>>,
}

impl DeepView for Store {
    type V = StoreView;

    open spec fn deep_view(&self) -> StoreView {
        StoreView {
            stack: self.stack.deep_view(),
            total_stack_fee: self.total_stack_fee.deep_view(),
            pools: self.pools.deep_view(),
            unstakes_of_index: self.unstakes_of_index.deep_view(),
            info_of_ica_id: self.info_of_ica_id.deep_view(),
            unstakes_index_for_user: self.unstakes_index_for_user.deep_view(),
            latest_reply_id: self.latest_reply_id.deep_view(),
            latest_query_reply_id: self.latest_query_reply_id.deep_view(),
            reply_id_to_payload: self.reply_id_to_payload.deep_view(),
            sudo_payload: self.sudo_payload.deep_view(),
            address_to_reply_id: self.address_to_reply_id.deep_view(),
            reply_id_to_query_id: self.reply_id_to_query_id.deep_view(),
            reply_id_to_need_update: self.reply_id_to_need_update.deep_view(),
            query_id_to_reply_id: self.query_id_to_reply_id.deep_view(),
            validators_unbonds_time: self.validators_unbonds_time.deep_view(),
            era_rate: self.era_rate.deep_view(),
            unbonding_seconds: self.unbonding_seconds.deep_view(),
            decimals: self.decimals.deep_view(),
            ica_id_of_creator: self.ica_id_of_creator.deep_view(),
        }
    }
}

impl View for Store {
    type V = StoreView;

    open spec fn view(&self) -> StoreView {
        self.deep_view()
    }
}
impl Stack {
    /// Passes only the administrator of the contract.
    pub fn authorize(&self, addr: &String) -> (r: Result<(), ContractError>)
        ensures
            r == (if addr@ == self.admin@ {
                Ok::<(), ContractError>(())
            } else {
                Err(ContractError::Unauthorized)
            }),
    {
        if *addr == self.admin {
            return Ok(());
        }
        Err(ContractError::Unauthorized)
    }
}

impl EraSnapshot {
    /// The snapshot of a pool that is in no era.
    pub open spec fn empty() -> EraSnapshot {
        EraSnapshot { era: 0, bond: 0, unbond: 0, active: 0, restake_amount: 0, last_step_height: 0 }
    }
}

impl PoolInfoView {
    /// The model of a pool that was registered and not yet initialised: no amounts, no
    /// validators, empty texts.
    pub open spec fn initial() -> PoolInfoView {
        PoolInfoView {
            bond: 0,
            unbond: 0,
            active: 0,
            lsd_token: Seq::empty(),
            ica_id: Seq::empty(),
            ibc_denom: Seq::empty(),
            channel_id_of_ibc_denom: Seq::empty(),
            remote_denom: Seq::empty(),
            validator_addrs: Seq::empty(),
            era: 0,
            rate: 0,
            era_seconds: 0,
            offset: 0,
            minimal_stake: 0,
            unstake_times_limit: 0,
            next_unstake_index: 0,
            unbonding_period: 0,
            status: EraStatus::RegisterEnded,
            validator_update_status: ValidatorUpdateStatus::End,
            unbond_commission: 0,
            platform_fee_commission: 0,
            stack_fee_commission: 0,
            total_platform_fee: 0,
            total_lsd_token_amount: 0,
            platform_fee_receiver: Seq::empty(),
            admin: Seq::empty(),
            share_tokens: Seq::empty(),
            redeemming_share_token_denom: Seq::empty(),
            era_snapshot: EraSnapshot::empty(),
            paused: false,
            lsm_support: false,
            lsm_pending_limit: 0,
            rate_change_limit: 0,
        }
    }
}

impl Default for PoolInfo {
    fn default() -> (p: Self)
        ensures
            p@ == PoolInfoView::initial(),
    {
        let p = PoolInfo {
            bond: 0,
            unbond: 0,
            active: 0,
            lsd_token: String::new(),
            ica_id: String::new(),
            ibc_denom: String::new(),
            channel_id_of_ibc_denom: String::new(),
            remote_denom: String::new(),
            validator_addrs: Vec::new(),
            era: 0,
            rate: 0,
            era_seconds: 0,
            offset: 0,
            minimal_stake: 0,
            unstake_times_limit: 0,
            next_unstake_index: 0,
            unbonding_period: 0,
            status: EraStatus::RegisterEnded,
            validator_update_status: ValidatorUpdateStatus::End,
            unbond_commission: 0,
            platform_fee_commission: 0,
            stack_fee_commission: 0,
            total_platform_fee: 0,
            total_lsd_token_amount: 0,
            platform_fee_receiver: String::new(),
            admin: String::new(),
            share_tokens: Vec::new(),
            redeemming_share_token_denom: Vec::new(),
            era_snapshot: EraSnapshot {
                era: 0,
                bond: 0,
                unbond: 0,
                active: 0,
                restake_amount: 0,
                last_step_height: 0,
            },
            paused: false,
            lsm_support: false,
            lsm_pending_limit: 0,
            rate_change_limit: 0,
        };
        assert(p@.validator_addrs =~= Seq::empty());
        assert(p@.share_tokens =~= Seq::empty());
        assert(p@.redeemming_share_token_denom =~= Seq::empty());
        p
    }
}

impl PoolInfo {
    /// Passes only the administrator of the pool.
    pub fn authorize(&self, addr: &String) -> (r: Result<(), ContractError>)
        ensures
            r == (if addr@ == self.admin@ {
                Ok::<(), ContractError>(())
            } else {
                Err(ContractError::Unauthorized)
            }),
    {
        if *addr == self.admin {
            return Ok(());
        }
        Err(ContractError::Unauthorized)
    }

    /// Passes only a pool that is at rest between two eras.
    pub fn require_era_ended(&self) -> (r: Result<(), ContractError>)
        ensures
            r == (if self.status == EraStatus::ActiveEnded {
                Ok::<(), ContractError>(())
            } else {
                Err(ContractError::EraProcessNotEnd)
            }),
    {
        if self.status != EraStatus::ActiveEnded {
            return Err(ContractError::EraProcessNotEnd);
        }
        Ok(())
    }

    /// Passes only a pool whose validator set is not being changed.
    pub fn require_update_validator_ended(&self) -> (r: Result<(), ContractError>)
        ensures
            r == (if self.validator_update_status == ValidatorUpdateStatus::End {
                Ok::<(), ContractError>(())
            } else {
                Err(ContractError::StatusNotAllow)
            }),
    {
        if self.validator_update_status != ValidatorUpdateStatus::End {
            return Err(ContractError::StatusNotAllow);
        }
        Ok(())
    }
}

impl IcaInfoView {
    /// The model of an account of which nothing is known yet.
    pub open spec fn initial() -> IcaInfoView {
        IcaInfoView {
            ctrl_connection_id: Seq::empty(),
            host_connection_id: Seq::empty(),
            ctrl_channel_id: Seq::empty(),
            host_channel_id: Seq::empty(),
            ctrl_port_id: Seq::empty(),
            ica_addr: Seq::empty(),
        }
    }
}

impl Default for IcaInfo {
    fn default() -> (i: Self)
        ensures
            i@ == IcaInfoView::initial(),
    {
        IcaInfo {
            ctrl_connection_id: String::new(),
            host_connection_id: String::new(),
            ctrl_channel_id: String::new(),
            host_channel_id: String::new(),
            ctrl_port_id: String::new(),
            ica_addr: String::new(),
        }
    }
}

impl IcaInfo {
    /// A copy of this record.
    pub fn dup(&self) -> (r: IcaInfo)
        ensures
            r@ == self@,
    {
        IcaInfo {
            ctrl_connection_id: self.ctrl_connection_id.clone(),
            host_connection_id: self.host_connection_id.clone(),
            ctrl_channel_id: self.ctrl_channel_id.clone(),
            host_channel_id: self.host_channel_id.clone(),
            ctrl_port_id: self.ctrl_port_id.clone(),
            ica_addr: self.ica_addr.clone(),
        }
    }
}

impl QueryKind {
    /// The name of this kind of query.
    pub open spec fn name(self) -> Seq<char> {
        match self {
            QueryKind::Balances => "balances"@,
            QueryKind::Delegations => "delegations"@,
            QueryKind::Validators => "validators"@,
        }
    }

    /// The name of this kind of query, as the state keys it.
    pub fn to_string(self) -> (s: String)
        ensures
            s@ == self.name(),
    {
        match self {
            QueryKind::Balances => String::from_str("balances"),
            QueryKind::Delegations => String::from_str("delegations"),
            QueryKind::Validators => String::from_str("validators"),
        }
    }
}

impl SudoPayload {
    /// A copy of this record.
    pub fn dup(&self) -> (r: SudoPayload)
        ensures
            r@ == self@,
    {
        SudoPayload {
            message: self.message.clone(),
            pool_addr: self.pool_addr.clone(),
            port_id: self.port_id.clone(),
            tx_type: self.tx_type,
        }
    }
}

impl StoreView {
    /// The model of the state before the contract is set up: every collection empty.
    pub open spec fn empty() -> StoreView {
        StoreView {
            stack: None,
            total_stack_fee: Map::empty(),
            pools: Map::empty(),
            unstakes_of_index: Map::empty(),
            info_of_ica_id: Map::empty(),
            unstakes_index_for_user: Map::empty(),
            latest_reply_id: None,
            latest_query_reply_id: None,
            reply_id_to_payload: Map::empty(),
            sudo_payload: Map::empty(),
            address_to_reply_id: Map::empty(),
            reply_id_to_query_id: Map::empty(),
            reply_id_to_need_update: Map::empty(),
            query_id_to_reply_id: Map::empty(),
            validators_unbonds_time: Map::empty(),
            era_rate: Map::empty(),
            unbonding_seconds: Map::empty(),
            decimals: Map::empty(),
            ica_id_of_creator: Map::empty(),
        }
    }
}

impl Store {
    /// The state before the contract is set up.
    pub fn new() -> (s: Store)
        ensures
            s@ == StoreView::empty(),
    {
        Store {
            stack: None,
            total_stack_fee: Table::new(),
            pools: Table::new(),
            unstakes_of_index: Table::new(),
            info_of_ica_id: Table::new(),
            unstakes_index_for_user: Table::new(),
            latest_reply_id: None,
            latest_query_reply_id: None,
            reply_id_to_payload: Table::new(),
            sudo_payload: Table::new(),
            address_to_reply_id: Table::new(),
            reply_id_to_query_id: Table::new(),
            reply_id_to_need_update: Table::new(),
            query_id_to_reply_id: Table::new(),
            validators_unbonds_time: Table::new(),
            era_rate: Table::new(),
            unbonding_seconds: Table::new(),
            decimals: Table::new(),
            ica_id_of_creator: Table::new(),
        }
    }
}

/// The state `pre` with `pool` as the pool `pool_addr`.
pub open spec fn with_pool(pre: StoreView, pool_addr: Seq<char>, pool: PoolInfoView) -> StoreView {
    StoreView { pools: pre.pools.insert(pool_addr, pool), ..pre }
}

/// The identifier that is handed out next, given the one that was stored last.
pub open spec fn next_id(latest: Option<u64>, start: u64) -> u64 {
    match latest {
        Some(id) => id,
        None => start,
    }
}

/// The identifier that follows `id` in the range that ends with `end`: the range wraps
/// round to `start`.
pub open spec fn id_after(id: u64, start: u64, end: u64) -> u64 {
    if id + 1 > end {
        start
    } else {
        (id + 1) as u64
    }
}

/// Identifiers stay in their range, and the two ranges do not meet.
///
/// Where the identifier stored last lies in a range, or none is stored yet, the
/// identifier handed out next and the one stored after it lie in that range. No
/// identifier for a dispatched instruction is an identifier for a query registration.
pub proof fn lemma_ids_stay_in_range(latest: Option<u64>, start: u64, end: u64)
    requires
        start <= end,
        latest is Some ==> start <= latest->Some_0 <= end,
    ensures
        start <= next_id(latest, start) <= end,
        start <= id_after(next_id(latest, start), start, end) <= end,
        REPLY_ID_RANGE_START + REPLY_ID_RANGE_SIZE == REPLY_ID_RANGE_END,
        QUERY_REPLY_ID_RANGE_START + QUERY_REPLY_ID_RANGE_SIZE == QUERY_REPLY_ID_RANGE_END,
        REPLY_ID_RANGE_END < QUERY_REPLY_ID_RANGE_START,
{
}

/// Hands out the next identifier for the reply to a dispatched instruction.
pub fn get_next_reply_id(store: &mut Store) -> (id: u64)
    ensures
        id == next_id(old(store)@.latest_reply_id, REPLY_ID_RANGE_START),
        final(store)@ == (StoreView {
            latest_reply_id: Some(id_after(id, REPLY_ID_RANGE_START, REPLY_ID_RANGE_END)),
            ..old(store)@
        }),
{
    let id = match store.latest_reply_id {
        Some(id) => id,
        None => REPLY_ID_RANGE_START,
    };
    let save_id = if id >= REPLY_ID_RANGE_END {
        REPLY_ID_RANGE_START
    } else {
        id + 1
    };
    store.latest_reply_id = Some(save_id);
    id
}

/// Hands out the next identifier for the reply to a query registration.
pub fn get_next_query_reply_id(store: &mut Store) -> (id: u64)
    ensures
        id == next_id(old(store)@.latest_query_reply_id, QUERY_REPLY_ID_RANGE_START),
        final(store)@ == (StoreView {
            latest_query_reply_id: Some(
                id_after(id, QUERY_REPLY_ID_RANGE_START, QUERY_REPLY_ID_RANGE_END),
            ),
            ..old(store)@
        }),
{
    let id = match store.latest_query_reply_id {
        Some(id) => id,
        None => QUERY_REPLY_ID_RANGE_START,
    };
    let save_id = if id >= QUERY_REPLY_ID_RANGE_END {
        QUERY_REPLY_ID_RANGE_START
    } else {
        id + 1
    };
    store.latest_query_reply_id = Some(save_id);
    id
}

/// The state after `payload` was registered under the next reply identifier.
pub open spec fn registered(pre: StoreView, payload: SudoPayloadView) -> StoreView {
    let id = next_id(pre.latest_reply_id, REPLY_ID_RANGE_START);
    StoreView {
        latest_reply_id: Some(id_after(id, REPLY_ID_RANGE_START, REPLY_ID_RANGE_END)),
        reply_id_to_payload: pre.reply_id_to_payload.insert(id, payload),
        ..pre
    }
}

/// Registers `payload` for an instruction that is about to be handed to the chain, and
/// returns the reply identifier under which it is kept.
pub fn save_reply_payload(store: &mut Store, payload: SudoPayload) -> (id: u64)
    ensures
        id == next_id(old(store)@.latest_reply_id, REPLY_ID_RANGE_START),
        final(store)@ == registered(old(store)@, payload@),
{
    let id = get_next_reply_id(store);
    store.reply_id_to_payload.save(id, payload);
    id
}

/// The record kept under the reply identifier `id`.
pub fn read_reply_payload(store: &Store, id: u64) -> (r: Result<SudoPayload, ContractError>)
    ensures
        match r {
            Ok(payload) => store@.reply_id_to_payload.contains_key(id) && payload@
                == store@.reply_id_to_payload[id],
            Err(e) => !store@.reply_id_to_payload.contains_key(id) && e == ContractError::NotFound,
        },
{
    match store.reply_id_to_payload.get(&id) {
        Some(payload) => Ok(payload.dup()),
        None => Err(ContractError::NotFound),
    }
}

/// Keeps `payload` under the channel and sequence number on which its instruction was
/// dispatched: its resolution will be addressed by them.
pub fn save_sudo_payload(store: &mut Store, channel_id: String, seq_id: u64, payload: SudoPayload)
    ensures
        final(store)@ == (StoreView {
            sudo_payload: old(store)@.sudo_payload.insert((channel_id@, seq_id), payload@),
            ..old(store)@
        }),
{
    store.sudo_payload.save((channel_id, seq_id), payload);
}

/// The record kept for the instruction dispatched on `channel_id` under `seq_id`.
pub fn read_sudo_payload(store: &Store, channel_id: String, seq_id: u64) -> (r: Result<
    SudoPayload,
    ContractError,
>)
    ensures
        match r {
            Ok(payload) => store@.sudo_payload.contains_key((channel_id@, seq_id)) && payload@
                == store@.sudo_payload[(channel_id@, seq_id)],
            Err(e) => !store@.sudo_payload.contains_key((channel_id@, seq_id)) && e
                == ContractError::NotFound,
        },
{
    match store.sudo_payload.get(&(channel_id, seq_id)) {
        Some(payload) => Ok(payload.dup()),
        None => Err(ContractError::NotFound),
    }
}

/// Takes out the record kept for the instruction dispatched on `channel_id` under `seq_id`.
/// The record is consumed: a second resolution of the same instruction finds none.
pub fn take_sudo_payload(store: &mut Store, channel_id: String, seq_id: u64) -> (r: Result<
    SudoPayload,
    ContractError,
>)
    ensures
        match r {
            Ok(payload) => old(store)@.sudo_payload.contains_key((channel_id@, seq_id))
                && payload@ == old(store)@.sudo_payload[(channel_id@, seq_id)] && final(store)@
                == (StoreView {
                sudo_payload: old(store)@.sudo_payload.remove((channel_id@, seq_id)),
                ..old(store)@
            }),
            Err(e) => !old(store)@.sudo_payload.contains_key((channel_id@, seq_id)) && e
                == ContractError::NotFound && final(store)@ == old(store)@,
        },
{
    match store.sudo_payload.remove(&(channel_id, seq_id)) {
        Some(payload) => Ok(payload),
        None => {
            assert(store@.sudo_payload =~= old(store)@.sudo_payload);
            Err(ContractError::NotFound)
        },
    }
}

} // verus!
