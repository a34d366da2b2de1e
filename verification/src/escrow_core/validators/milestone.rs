use vstd::prelude::*;

use crate::error::ContractError;
use crate::storage::types::{Escrow, EscrowView, MilestoneUpdate, MilestoneUpdateView, MilestoneView};

verus! {

/// A milestone index is valid when it addresses an existing milestone.
pub open spec fn index_outcome(milestone_index: u32, milestones_len: u32) -> Result<u32, ContractError> {
    if milestone_index >= milestones_len {
        Err(ContractError::InvalidMileStoneIndex)
    } else {
        Ok(milestone_index)
    }
}

/// The abstract values of a list of milestone updates.
pub open spec fn updates_view(updates: Seq<MilestoneUpdate>) -> Seq<MilestoneUpdateView> {
    updates.map_values(|u: MilestoneUpdate| u@)
}

/// The updates from position `i` on, checked in order: the first update
/// with an empty status or an index past the last milestone decides the
/// error.
pub open spec fn status_updates_from(
    updates: Seq<MilestoneUpdateView>,
    milestones_len: nat,
    i: int,
) -> Result<(), ContractError>
    decreases updates.len() - i,
{
    if i < 0 || i >= updates.len() {
        Ok(())
    } else if updates[i].status.len() == 0 {
        Err(ContractError::EmptyMilestoneStatus)
    } else if updates[i].index >= milestones_len {
        Err(ContractError::InvalidMileStoneIndex)
    } else {
        status_updates_from(updates, milestones_len, i + 1)
    }
}

/// When the service provider may apply a batch of status updates.
pub open spec fn status_change_outcome(
    escrow: EscrowView,
    updates: Seq<MilestoneUpdateView>,
    service_provider: Seq<u8>,
) -> Result<(), ContractError> {
    if service_provider != escrow.roles.service_provider {
        Err(ContractError::OnlyServiceProviderChangeMilstoneStatus)
    } else if escrow.milestones.len() == 0 {
        Err(ContractError::NoMileStoneDefined)
    } else {
        status_updates_from(updates, escrow.milestones.len(), 0)
    }
}

/// The indexes from position `i` on, checked in order: the first index
/// past the last milestone, of an approved milestone or of a milestone with
/// an empty status decides the error.
pub open spec fn approvals_from(indexes: Seq<u32>, milestones: Seq<MilestoneView>, i: int) -> Result<
    (),
    ContractError,
>
    decreases indexes.len() - i,
{
    if i < 0 || i >= indexes.len() {
        Ok(())
    } else if indexes[i] >= milestones.len() {
        Err(ContractError::InvalidMileStoneIndex)
    } else if milestones[indexes[i] as int].flags.approved {
        Err(ContractError::MilestoneHasAlreadyBeenApproved)
    } else if milestones[indexes[i] as int].status.len() == 0 {
        Err(ContractError::EmptyMilestoneStatus)
    } else {
        approvals_from(indexes, milestones, i + 1)
    }
}

/// When the approver may approve a batch of milestones.
pub open spec fn approval_outcome(escrow: EscrowView, indexes: Seq<u32>, approver: Seq<u8>) -> Result<
    (),
    ContractError,
> {
    if approver != escrow.roles.approver {
        Err(ContractError::OnlyApproverChangeMilstoneFlag)
    } else if escrow.milestones.len() == 0 {
        Err(ContractError::NoMileStoneDefined)
    } else {
        approvals_from(indexes, escrow.milestones, 0)
    }
}

/// Checks that the service provider may set the status of the given
/// milestones.
pub fn validate_milestone_status_change_conditions(
    escrow: &Escrow,
    milestone_updates: &Vec<MilestoneUpdate>,
    service_provider: &crate::storage::types::Address,
) -> (r: Result<(), ContractError>)
    requires
        escrow.milestones.len() <= u32::MAX,
    ensures
        r == status_change_outcome(escrow@, updates_view(milestone_updates@), service_provider@),
{
    if !service_provider.same_as(&escrow.roles.service_provider) {
        return Err(ContractError::OnlyServiceProviderChangeMilstoneStatus);
    }
    if escrow.milestones.len() == 0 {
        return Err(ContractError::NoMileStoneDefined);
    }
    let ghost ups = updates_view(milestone_updates@);
    let ghost mlen = escrow@.milestones.len();
    let len = escrow.milestones.len() as u32;
    let n = milestone_updates.len();
    let mut i: usize = 0;
    while i < n
        invariant
            n == milestone_updates.len(),
            ups == updates_view(milestone_updates@),
            mlen == escrow@.milestones.len(),
            len == mlen,
            mlen > 0,
            service_provider@ == escrow@.roles.service_provider,
            i <= n,
            status_updates_from(ups, mlen, 0) == status_updates_from(ups, mlen, i as int),
        decreases n - i,
    {
        let update = &milestone_updates[i];
        assert(ups[i as int] == milestone_updates@[i as int]@);
        if update.status.len() == 0 {
            return Err(ContractError::EmptyMilestoneStatus);
        }
        let _idx = validate_and_convert_milestone_index(update.index, len)?;
        i = i + 1;
    }
    Ok(())
}

/// Accepts a milestone index exactly when it addresses one of the
/// `milestones_len` milestones.
pub fn validate_and_convert_milestone_index(milestone_index: u32, milestones_len: u32) -> (r: Result<
    u32,
    ContractError,
>)
    ensures
        r == index_outcome(milestone_index, milestones_len),
{
    if milestone_index >= milestones_len {
        return Err(ContractError::InvalidMileStoneIndex);
    }
    Ok(milestone_index)
}

/// Checks that the approver may approve the given milestones.
pub fn validate_milestone_flag_change_conditions(
    escrow: &Escrow,
    milestone_indexes: &Vec<u32>,
    approver: &crate::storage::types::Address,
) -> (r: Result<(), ContractError>)
    requires
        escrow.milestones.len() <= u32::MAX,
    ensures
        r == approval_outcome(escrow@, milestone_indexes@, approver@),
{
    if !approver.same_as(&escrow.roles.approver) {
        return Err(ContractError::OnlyApproverChangeMilstoneFlag);
    }
    if escrow.milestones.len() == 0 {
        return Err(ContractError::NoMileStoneDefined);
    }
    let ghost ms = escrow@.milestones;
    let len = escrow.milestones.len() as u32;
    let n = milestone_indexes.len();
    let mut i: usize = 0;
    while i < n
        invariant
            n == milestone_indexes.len(),
            ms == escrow@.milestones,
            len == ms.len(),
            len > 0,
            approver@ == escrow@.roles.approver,
            len == escrow.milestones.len(),
            i <= n,
            approvals_from(milestone_indexes@, ms, 0) == approvals_from(
                milestone_indexes@,
                ms,
                i as int,
            ),
        decreases n - i,
    {
        let idx = validate_and_convert_milestone_index(milestone_indexes[i], len)?;
        let milestone = &escrow.milestones[idx as usize];
        assert(ms[idx as int] == escrow.milestones@[idx as int]@);
        if milestone.flags.approved {
            return Err(ContractError::MilestoneHasAlreadyBeenApproved);
        }
        if milestone.status.len() == 0 {
            return Err(ContractError::EmptyMilestoneStatus);
        }
        i = i + 1;
    }
    Ok(())
}

/// Every update of an accepted batch has a non-empty status and names an
/// existing milestone.
pub proof fn lemma_accepted_updates(updates: Seq<MilestoneUpdateView>, milestones_len: nat, i: int)
    requires
        0 <= i,
        status_updates_from(updates, milestones_len, i) is Ok,
    ensures
        forall|j: int|
            i <= j < updates.len() ==> (#[trigger] updates[j]).index < milestones_len
                && updates[j].status.len() > 0,
    decreases updates.len() - i,
{
    if i < updates.len() {
        lemma_accepted_updates(updates, milestones_len, i + 1);
    }
}

/// Every index of an accepted batch of approvals names an existing
/// milestone that was not approved and has a non-empty status.
pub proof fn lemma_accepted_approvals(indexes: Seq<u32>, milestones: Seq<MilestoneView>, i: int)
    requires
        0 <= i,
        approvals_from(indexes, milestones, i) is Ok,
    ensures
        forall|j: int|
            i <= j < indexes.len() ==> (#[trigger] indexes[j]) < milestones.len()
                && !milestones[indexes[j] as int].flags.approved
                && milestones[indexes[j] as int].status.len() > 0,
    decreases indexes.len() - i,
{
    if i < indexes.len() {
        lemma_accepted_approvals(indexes, milestones, i + 1);
    }
}

} // verus!
