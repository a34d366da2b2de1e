use vstd::prelude::*;

verus! {

/// Every way in which an escrow operation can be refused.
#[derive(Debug, Clone, Copy, PartialEq, Eq, Structural)]
pub enum ContractError {
    AmountCannotBeZero,
    AmountsToBeTransferredShouldBePositive,
    ApproverOrReceiverFundsLessThanZero,
    CantReleaseAMilestoneInDispute,
    DisputeResolverCannotDisputeTheMilestone,
    DivisionError,
    EmptyMilestoneStatus,
    EscrowAlreadyInitialized,
    EscrowAlreadyResolved,
    EscrowBalanceMustBeZeroOnInitialization,
    EscrowBalanceNotEnoughToSendEarnings,
    EscrowHasFunds,
    EscrowNotFound,
    EscrowNotFullyProcessed,
    EscrowPropertiesMismatch,
    FlagsMustBeFalse,
    InsufficientApproverFundsForCommissions,
    InsufficientEscrowFundsToMakeTheRefund,
    InsufficientFundsForEscrowFunding,
    InsufficientFundsForRefund,
    InsufficientFundsForResolution,
    InsufficientServiceProviderFundsForCommissions,
    InvalidMileStoneIndex,
    MilestoneAlreadyInDispute,
    MilestoneAlreadyReleased,
    MilestoneAlreadyResolved,
    MilestoneApprovedCantChangeEscrowProperties,
    MilestoneHasAlreadyBeenApproved,
    MilestoneNotCompleted,
    MilestoneNotFound,
    MilestoneNotInDispute,
    MilestoneOpenedForDisputeResolution,
    MilestoneToApproveDoesNotExist,
    MilestoneToUpdateDoesNotExist,
    NoMileStoneDefined,
    OnlyApproverChangeMilstoneFlag,
    OnlyDisputeResolverCanExecuteThisFunction,
    OnlyPlatformAddressExecuteThisFunction,
    OnlyReleaseSignerCanReleaseEarnings,
    OnlyServiceProviderChangeMilstoneStatus,
    Overflow,
    PlatformAddressCannotBeChanged,
    PlatformFeeTooHigh,
    TooManyEscrowsRequested,
    TooManyMilestones,
    TooManyDistributions,
    TotalAmountCannotBeZero,
    TotalDisputeFundsMustNotExceedTheMilestoneAmount,
    UnauthorizedToChangeDisputeFlag,
    Underflow,
}

} // verus!
