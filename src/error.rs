use vstd::prelude::*;

verus! {

/// Every way an operation of this library can fail.
#[derive(Debug, Clone, Copy, PartialEq, Eq, Structural)]
pub enum ErrorCode {
    InvalidQuoteMint,
    BaseFeeDetected,
    CooldownNotElapsed,
    DailyCapExceeded,
    PayoutBelowMinimum,
    InvalidPaginationCursor,
    ArithmeticOverflow,
    StreamflowValidationFailed,
    InvalidPda,
    InvalidStreamMint,
    StreamClosed,
    InvalidStreamTimeParameters,
    StreamflowDataParsingFailed,
    InvalidPoolConfiguration,
    PositionOwnerMismatch,
    InvalidTickRange,
    InvalidTreasuryAta,
    InvalidCreatorAta,
    InsufficientFunds,
    InvalidInvestorFeeShare,
    DayAlreadyComplete,
    DayNotComplete,
    InvalidY0TotalAllocation,
    PoolTokenOrderValidationFailed,
    CpiCallFailed,
    AccountInitializationFailed,
    InvalidFeeShareBasisPoints,
    InvalidMinPayoutThreshold,
    InvalidTotalAllocation,
    InvalidDailyCap,
    FeeClaimingFailed,
    TreasuryTransferFailed,
    PositionFeeDataExtractionFailed,
    InvalidVaultAccount,
}

} // verus!
