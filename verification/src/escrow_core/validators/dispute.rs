use vstd::prelude::*;

use crate::error::ContractError;
use crate::storage::types::{Address, Escrow, EscrowView, Milestone, MilestoneView};

verus! {

/// The most entries a distribution may hold.
pub const MAX_DISTRIBUTIONS: usize = 50;

/// When the dispute resolver may pay out `total` for the disputed
/// `milestone` while the contract holds `current_balance`.
pub open spec fn resolution_check(
    escrow: EscrowView,
    milestone: MilestoneView,
    dispute_resolver: Seq<u8>,
    current_balance: int,
    total: int,
) -> Result<(), ContractError> {
    if dispute_resolver != escrow.roles.dispute_resolver {
        Err(ContractError::OnlyDisputeResolverCanExecuteThisFunction)
    } else if milestone.flags.released {
        Err(ContractError::MilestoneAlreadyReleased)
    } else if milestone.flags.resolved {
        Err(ContractError::MilestoneAlreadyResolved)
    } else if !milestone.flags.disputed {
        Err(ContractError::MilestoneNotInDispute)
    } else if total > milestone.amount {
        Err(ContractError::TotalDisputeFundsMustNotExceedTheMilestoneAmount)
    } else if current_balance < total {
        Err(ContractError::InsufficientFundsForResolution)
    } else if total <= 0 {
        Err(ContractError::TotalAmountCannotBeZero)
    } else {
        Ok(())
    }
}

/// When the dispute resolver may pay out `total` of what remains in the
/// contract.
pub open spec fn withdraw_check(
    escrow: EscrowView,
    dispute_resolver: Seq<u8>,
    all_processed: bool,
    current_balance: int,
    total: int,
) -> Result<(), ContractError> {
    if dispute_resolver != escrow.roles.dispute_resolver {
        Err(ContractError::OnlyDisputeResolverCanExecuteThisFunction)
    } else if !all_processed {
        Err(ContractError::EscrowNotFullyProcessed)
    } else if total <= 0 {
        Err(ContractError::TotalAmountCannotBeZero)
    } else if current_balance < total {
        Err(ContractError::InsufficientFundsForResolution)
    } else {
        Ok(())
    }
}

/// Whether `signer` is one of the parties of the escrow or the receiver of
/// the milestone.
pub open spec fn is_party(escrow: EscrowView, milestone: MilestoneView, signer: Seq<u8>) -> bool {
    ||| signer == escrow.roles.approver
    ||| signer == escrow.roles.service_provider
    ||| signer == escrow.roles.platform
    ||| signer == escrow.roles.release_signer
    ||| signer == escrow.roles.dispute_resolver
    ||| signer == milestone.receiver
}

/// When `signer` may open a dispute on the milestone at `milestone_index`.
pub open spec fn dispute_check(escrow: EscrowView, milestone_index: int, signer: Seq<u8>) -> Result<
    (),
    ContractError,
> {
    if escrow.milestones.len() == 0 {
        Err(ContractError::NoMileStoneDefined)
    } else if !(0 <= milestone_index < escrow.milestones.len()) {
        Err(ContractError::InvalidMileStoneIndex)
    } else {
        let m = escrow.milestones[milestone_index];
        if m.flags.released {
            Err(ContractError::MilestoneAlreadyReleased)
        } else if m.flags.resolved {
            Err(ContractError::MilestoneAlreadyResolved)
        } else if m.flags.disputed {
            Err(ContractError::MilestoneAlreadyInDispute)
        } else if !is_party(escrow, m, signer) {
            Err(ContractError::UnauthorizedToChangeDisputeFlag)
        } else if signer == escrow.roles.dispute_resolver {
            Err(ContractError::DisputeResolverCannotDisputeTheMilestone)
        } else {
            Ok(())
        }
    }
}

/// Refuses a distribution with more than fifty entries.
pub fn validate_distributions_size(distributions: &Vec<(Address, i128)>) -> (r: Result<
    (),
    ContractError,
>)
    ensures
        r == (if distributions@.len() > MAX_DISTRIBUTIONS {
            Err(ContractError::TooManyDistributions)
        } else {
            Ok(())
        }),
{
    if distributions.len() > MAX_DISTRIBUTIONS {
        return Err(ContractError::TooManyDistributions);
    }
    Ok(())
}

/// Checks that the dispute resolver may pay out `total` for `milestone`.
pub fn validate_dispute_resolution_conditions(
    escrow: &Escrow,
    milestone: &Milestone,
    dispute_resolver: &Address,
    current_balance: i128,
    total: i128,
) -> (r: Result<(), ContractError>)
    ensures
        r == resolution_check(
            escrow@,
            milestone@,
            dispute_resolver@,
            current_balance as int,
            total as int,
        ),
{
    if !dispute_resolver.same_as(&escrow.roles.dispute_resolver) {
        return Err(ContractError::OnlyDisputeResolverCanExecuteThisFunction);
    }
    if milestone.flags.released {
        return Err(ContractError::MilestoneAlreadyReleased);
    }
    if milestone.flags.resolved {
        return Err(ContractError::MilestoneAlreadyResolved);
    }
    if !milestone.flags.disputed {
        return Err(ContractError::MilestoneNotInDispute);
    }
    if total > milestone.amount {
        return Err(ContractError::TotalDisputeFundsMustNotExceedTheMilestoneAmount);
    }
    if current_balance < total {
        return Err(ContractError::InsufficientFundsForResolution);
    }
    if total <= 0 {
        return Err(ContractError::TotalAmountCannotBeZero);
    }
    Ok(())
}

/// Checks that the dispute resolver may pay out `total` of the funds left
/// once every milestone is processed.
pub fn validate_withdraw_remaining_funds_conditions(
    escrow: &Escrow,
    dispute_resolver: &Address,
    all_processed: bool,
    current_balance: i128,
    total: i128,
) -> (r: Result<(), ContractError>)
    ensures
        r == withdraw_check(
            escrow@,
            dispute_resolver@,
            all_processed,
            current_balance as int,
            total as int,
        ),
{
    if !dispute_resolver.same_as(&escrow.roles.dispute_resolver) {
        return Err(ContractError::OnlyDisputeResolverCanExecuteThisFunction);
    }
    if !all_processed {
        return Err(ContractError::EscrowNotFullyProcessed);
    }
    if total <= 0 {
        return Err(ContractError::TotalAmountCannotBeZero);
    }
    if current_balance < total {
        return Err(ContractError::InsufficientFundsForResolution);
    }
    Ok(())
}

/// Checks that `signer` may open a dispute on the milestone at
/// `milestone_index`: the milestone exists and is neither released,
/// resolved nor disputed, and the signer is a party other than the
/// dispute resolver.
pub fn validate_dispute_flag_change_conditions(
    escrow: &Escrow,
    milestone_index: u32,
    signer: &Address,
) -> (r: Result<(), ContractError>)
    requires
        escrow.milestones.len() <= u32::MAX,
    ensures
        r == dispute_check(escrow@, milestone_index as int, signer@),
{
    if escrow.milestones.len() == 0 {
        return Err(ContractError::NoMileStoneDefined);
    }
    let idx = crate::escrow_core::validators::milestone::validate_and_convert_milestone_index(
        milestone_index,
        escrow.milestones.len() as u32,
    )?;
    let milestone = &escrow.milestones[idx as usize];
    assert(escrow@.milestones[idx as int] == milestone@);
    if milestone.flags.released {
        return Err(ContractError::MilestoneAlreadyReleased);
    }
    if milestone.flags.resolved {
        return Err(ContractError::MilestoneAlreadyResolved);
    }
    if milestone.flags.disputed {
        return Err(ContractError::MilestoneAlreadyInDispute);
    }
    let roles = &escrow.roles;
    let is_authorized = signer.same_as(&roles.approver) || signer.same_as(&roles.service_provider)
        || signer.same_as(&roles.platform) || signer.same_as(&roles.release_signer)
        || signer.same_as(&roles.dispute_resolver) || signer.same_as(&milestone.receiver);
    if !is_authorized {
        return Err(ContractError::UnauthorizedToChangeDisputeFlag);
    }
    if signer.same_as(&roles.dispute_resolver) {
        return Err(ContractError::DisputeResolverCannotDisputeTheMilestone);
    }
    Ok(())
}

} // verus!
