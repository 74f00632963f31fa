//! The ways in which a call is refused.
use vstd::prelude::*;

verus! {

/// Why a call was refused. A refused call leaves the state as it was.
#[derive(Clone, Debug, PartialEq, Eq)]
pub enum ContractError {
    Unauthorized,
    StatusNotAllow,
    PendingShareNotEmpty,
    DelegationsNotExist,
    RateChangeOverLimit,
    EncodeError(String),
    ValidatorForUnbondNotEnough,
    DelegationSubmissionHeight,
    WithdrawAddrBalanceSubmissionHeight,
    RebondHeight,
    PoolIsPaused,
    AlreadyLatestEra,
    ValidatorAddressesListSize,
    RateIsZero,
    Instantiate2AddressFailed(String),
    RateNotMatch,
    ClosedChannelIdUnmatch,
    EraProcessNotEnd,
    ValidatorAlreadyExit,
    ValidatorsEmpty,
    OldValidatorNotExist,
    NewValidatorAlreadyExist,
    TokensLenNotMatch,
    ShareTokenNotExist,
    DuplicateToken,
    InvalidInterchainAccountId,
    InterchainAccountIdAlreadyExist,
    CounterpartyVersionNotMatch,
    CantParseCounterpartyVersion,
    LsmStakeNotSupport,
    LsmPendingStakeOverLimit,
    PoolIcqNotUpdated,
    ParamsErrorFundsNotMatch,
    LessThanMinimalStake,
    LessThanMinimalEraSeconds,
    ExceedMaxEraSeconds,
    DenomNotMatch,
    DenomPathNotMatch,
    DenomTraceNotMatch,
    ValidatorNotSupport,
    TokenAmountZero,
    NoValidatorInfo,
    UnsupportedMessage(String),
    UnsupportedReplyId(u64),
    EncodeErrLsdTokenAmountZero,
    EncodeErrUnstakeTimesLimitReached,
    EncodeErrZeroWithdrawAmount,
    BurnLsdTokenAmountIsZero,
    EmptyUnstakeList,
    UnstakeIndexPoolNotMatch(u64),
    UnstakeIndexUnstakerNotMatch(u64),
    UnstakeIndexStatusNotMatch(u64),
    UnstakeIndexNotWithdrawable(u64),
    ICQErrReplyNoResult,
    ICQErrFailedParse(String),
    ICQNewKeyBuildFailed,
    CallBackErrSequenceNotFound,
    CallBackErrChannelIDNotFound,
    CallBackErrErrorMsg,
    PeriodTooSmall,
    /// The state holds no record under the key that was looked up.
    NotFound,
    /// The chain reported a failure, of a query that the call depends on or of a message
    /// that was dispatched; the text says why.
    QueryFailed(String),
    /// An amount left the range of the 128-bit (or 64-bit) integers that hold it.
    Overflow,
    /// A division by zero.
    DivideByZero,
}

/// The mathematical model of [`ContractError`]: a text that a refusal carries is a sequence
/// of characters.
pub enum ContractErrorView {
    Unauthorized,
    StatusNotAllow,
    PendingShareNotEmpty,
    DelegationsNotExist,
    RateChangeOverLimit,
    EncodeError(Seq<char>),
    ValidatorForUnbondNotEnough,
    DelegationSubmissionHeight,
    WithdrawAddrBalanceSubmissionHeight,
    RebondHeight,
    PoolIsPaused,
    AlreadyLatestEra,
    ValidatorAddressesListSize,
    RateIsZero,
    Instantiate2AddressFailed(Seq<char>),
    RateNotMatch,
    ClosedChannelIdUnmatch,
    EraProcessNotEnd,
    ValidatorAlreadyExit,
    ValidatorsEmpty,
    OldValidatorNotExist,
    NewValidatorAlreadyExist,
    TokensLenNotMatch,
    ShareTokenNotExist,
    DuplicateToken,
    InvalidInterchainAccountId,
    InterchainAccountIdAlreadyExist,
    CounterpartyVersionNotMatch,
    CantParseCounterpartyVersion,
    LsmStakeNotSupport,
    LsmPendingStakeOverLimit,
    PoolIcqNotUpdated,
    ParamsErrorFundsNotMatch,
    LessThanMinimalStake,
    LessThanMinimalEraSeconds,
    ExceedMaxEraSeconds,
    DenomNotMatch,
    DenomPathNotMatch,
    DenomTraceNotMatch,
    ValidatorNotSupport,
    TokenAmountZero,
    NoValidatorInfo,
    UnsupportedMessage(Seq<char>),
    UnsupportedReplyId(u64),
    EncodeErrLsdTokenAmountZero,
    EncodeErrUnstakeTimesLimitReached,
    EncodeErrZeroWithdrawAmount,
    BurnLsdTokenAmountIsZero,
    EmptyUnstakeList,
    UnstakeIndexPoolNotMatch(u64),
    UnstakeIndexUnstakerNotMatch(u64),
    UnstakeIndexStatusNotMatch(u64),
    UnstakeIndexNotWithdrawable(u64),
    ICQErrReplyNoResult,
    ICQErrFailedParse(Seq<char>),
    ICQNewKeyBuildFailed,
    CallBackErrSequenceNotFound,
    CallBackErrChannelIDNotFound,
    CallBackErrErrorMsg,
    PeriodTooSmall,
    NotFound,
    QueryFailed(Seq<char>),
    Overflow,
    DivideByZero,
}

impl DeepView for ContractError {
    type V = ContractErrorView;

    open spec fn deep_view(&self) -> ContractErrorView {
        match self {
            ContractError::Unauthorized => ContractErrorView::Unauthorized,
            ContractError::StatusNotAllow => ContractErrorView::StatusNotAllow,
            ContractError::PendingShareNotEmpty => ContractErrorView::PendingShareNotEmpty,
            ContractError::DelegationsNotExist => ContractErrorView::DelegationsNotExist,
            ContractError::RateChangeOverLimit => ContractErrorView::RateChangeOverLimit,
            ContractError::EncodeError(t) => ContractErrorView::EncodeError(t@),
            ContractError::ValidatorForUnbondNotEnough => ContractErrorView::ValidatorForUnbondNotEnough,
            ContractError::DelegationSubmissionHeight => ContractErrorView::DelegationSubmissionHeight,
            ContractError::WithdrawAddrBalanceSubmissionHeight => ContractErrorView::WithdrawAddrBalanceSubmissionHeight,
            ContractError::RebondHeight => ContractErrorView::RebondHeight,
            ContractError::PoolIsPaused => ContractErrorView::PoolIsPaused,
            ContractError::AlreadyLatestEra => ContractErrorView::AlreadyLatestEra,
            ContractError::ValidatorAddressesListSize => ContractErrorView::ValidatorAddressesListSize,
            ContractError::RateIsZero => ContractErrorView::RateIsZero,
            ContractError::Instantiate2AddressFailed(t) => ContractErrorView::Instantiate2AddressFailed(t@),
            ContractError::RateNotMatch => ContractErrorView::RateNotMatch,
            ContractError::ClosedChannelIdUnmatch => ContractErrorView::ClosedChannelIdUnmatch,
            ContractError::EraProcessNotEnd => ContractErrorView::EraProcessNotEnd,
            ContractError::ValidatorAlreadyExit => ContractErrorView::ValidatorAlreadyExit,
            ContractError::ValidatorsEmpty => ContractErrorView::ValidatorsEmpty,
            ContractError::OldValidatorNotExist => ContractErrorView::OldValidatorNotExist,
            ContractError::NewValidatorAlreadyExist => ContractErrorView::NewValidatorAlreadyExist,
            ContractError::TokensLenNotMatch => ContractErrorView::TokensLenNotMatch,
            ContractError::ShareTokenNotExist => ContractErrorView::ShareTokenNotExist,
            ContractError::DuplicateToken => ContractErrorView::DuplicateToken,
            ContractError::InvalidInterchainAccountId => ContractErrorView::InvalidInterchainAccountId,
            ContractError::InterchainAccountIdAlreadyExist => ContractErrorView::InterchainAccountIdAlreadyExist,
            ContractError::CounterpartyVersionNotMatch => ContractErrorView::CounterpartyVersionNotMatch,
            ContractError::CantParseCounterpartyVersion => ContractErrorView::CantParseCounterpartyVersion,
            ContractError::LsmStakeNotSupport => ContractErrorView::LsmStakeNotSupport,
            ContractError::LsmPendingStakeOverLimit => ContractErrorView::LsmPendingStakeOverLimit,
            ContractError::PoolIcqNotUpdated => ContractErrorView::PoolIcqNotUpdated,
            ContractError::ParamsErrorFundsNotMatch => ContractErrorView::ParamsErrorFundsNotMatch,
            ContractError::LessThanMinimalStake => ContractErrorView::LessThanMinimalStake,
            ContractError::LessThanMinimalEraSeconds => ContractErrorView::LessThanMinimalEraSeconds,
            ContractError::ExceedMaxEraSeconds => ContractErrorView::ExceedMaxEraSeconds,
            ContractError::DenomNotMatch => ContractErrorView::DenomNotMatch,
            ContractError::DenomPathNotMatch => ContractErrorView::DenomPathNotMatch,
            ContractError::DenomTraceNotMatch => ContractErrorView::DenomTraceNotMatch,
            ContractError::ValidatorNotSupport => ContractErrorView::ValidatorNotSupport,
            ContractError::TokenAmountZero => ContractErrorView::TokenAmountZero,
            ContractError::NoValidatorInfo => ContractErrorView::NoValidatorInfo,
            ContractError::UnsupportedMessage(t) => ContractErrorView::UnsupportedMessage(t@),
            ContractError::UnsupportedReplyId(n) => ContractErrorView::UnsupportedReplyId(*n),
            ContractError::EncodeErrLsdTokenAmountZero => ContractErrorView::EncodeErrLsdTokenAmountZero,
            ContractError::EncodeErrUnstakeTimesLimitReached => ContractErrorView::EncodeErrUnstakeTimesLimitReached,
            ContractError::EncodeErrZeroWithdrawAmount => ContractErrorView::EncodeErrZeroWithdrawAmount,
            ContractError::BurnLsdTokenAmountIsZero => ContractErrorView::BurnLsdTokenAmountIsZero,
            ContractError::EmptyUnstakeList => ContractErrorView::EmptyUnstakeList,
            ContractError::UnstakeIndexPoolNotMatch(n) => ContractErrorView::UnstakeIndexPoolNotMatch(*n),
            ContractError::UnstakeIndexUnstakerNotMatch(n) => ContractErrorView::UnstakeIndexUnstakerNotMatch(*n),
            ContractError::UnstakeIndexStatusNotMatch(n) => ContractErrorView::UnstakeIndexStatusNotMatch(*n),
            ContractError::UnstakeIndexNotWithdrawable(n) => ContractErrorView::UnstakeIndexNotWithdrawable(*n),
            ContractError::ICQErrReplyNoResult => ContractErrorView::ICQErrReplyNoResult,
            ContractError::ICQErrFailedParse(t) => ContractErrorView::ICQErrFailedParse(t@),
            ContractError::ICQNewKeyBuildFailed => ContractErrorView::ICQNewKeyBuildFailed,
            ContractError::CallBackErrSequenceNotFound => ContractErrorView::CallBackErrSequenceNotFound,
            ContractError::CallBackErrChannelIDNotFound => ContractErrorView::CallBackErrChannelIDNotFound,
            ContractError::CallBackErrErrorMsg => ContractErrorView::CallBackErrErrorMsg,
            ContractError::PeriodTooSmall => ContractErrorView::PeriodTooSmall,
            ContractError::NotFound => ContractErrorView::NotFound,
            ContractError::QueryFailed(t) => ContractErrorView::QueryFailed(t@),
            ContractError::Overflow => ContractErrorView::Overflow,
            ContractError::DivideByZero => ContractErrorView::DivideByZero,
        }
    }
}

impl View for ContractError {
    type V = ContractErrorView;

    open spec fn view(&self) -> ContractErrorView {
        self.deep_view()
    }
}

} // verus!
