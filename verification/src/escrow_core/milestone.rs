use vstd::prelude::*;

use crate::error::ContractError;
use crate::escrow_core::dispute::escrow_result_view;
use crate::escrow_core::escrow::with_flags;
use crate::escrow_core::validators::milestone::{
    approval_outcome, lemma_accepted_approvals, lemma_accepted_updates, status_change_outcome,
    updates_view,
    validate_milestone_flag_change_conditions, validate_milestone_status_change_conditions,
};
use crate::storage::types::{
    Address, Escrow, EscrowView, Flags, MilestoneUpdate, MilestoneUpdateView, MilestoneView,
};

verus! {

/// The escrow once the first `k` status updates are applied in order: each
/// sets the status of its milestone, and its evidence when it carries one.
pub open spec fn apply_status_updates(e: EscrowView, updates: Seq<MilestoneUpdateView>, k: int) -> EscrowView
    decreases k,
{
    if k <= 0 {
        e
    } else {
        let before = apply_status_updates(e, updates, k - 1);
        let u = updates[k - 1];
        let m = before.milestones[u.index as int];
        EscrowView {
            milestones: before.milestones.update(
                u.index as int,
                MilestoneView {
                    status: u.status,
                    evidence: match u.evidence {
                        Some(ev) => ev,
                        None => m.evidence,
                    },
                    ..m
                },
            ),
            ..before
        }
    }
}

/// The escrow once the milestones at the first `k` indexes are approved.
pub open spec fn apply_approvals(e: EscrowView, indexes: Seq<u32>, k: int) -> EscrowView
    decreases k,
{
    if k <= 0 {
        e
    } else {
        let before = apply_approvals(e, indexes, k - 1);
        with_flags(
            before,
            indexes[k - 1] as int,
            Flags { approved: true, ..before.milestones[indexes[k - 1] as int].flags },
        )
    }
}

/// Namespace for the operations of the service provider and the approver
/// on milestones.
pub struct MilestoneManager;

impl MilestoneManager {
    /// Sets the status, and the evidence where one is given, of each
    /// milestone named in `milestone_updates`, at the request of the
    /// service provider; a batch with any invalid update changes nothing.
    pub fn change_milestone_status(
        escrow: Escrow,
        milestone_updates: &Vec<MilestoneUpdate>,
        service_provider: &Address,
    ) -> (r: Result<Escrow, ContractError>)
        requires
            escrow.milestones.len() <= u32::MAX,
        ensures
            escrow_result_view(r) == (match status_change_outcome(
                escrow@,
                updates_view(milestone_updates@),
                service_provider@,
            ) {
                Err(x) => Err(x),
                Ok(_) => Ok(
                    apply_status_updates(
                        escrow@,
                        updates_view(milestone_updates@),
                        milestone_updates@.len() as int,
                    ),
                ),
            }),
    {
        validate_milestone_status_change_conditions(&escrow, milestone_updates, service_provider)?;
        let mut escrow = escrow;
        let ghost e0 = escrow@;
        let ghost ups = updates_view(milestone_updates@);
        proof {
            lemma_accepted_updates(ups, e0.milestones.len(), 0);
        }
        let n = milestone_updates.len();
        let mut i: usize = 0;
        while i < n
            invariant
                n == milestone_updates.len(),
                ups == updates_view(milestone_updates@),
                i <= n,
                escrow@ == apply_status_updates(e0, ups, i as int),
                escrow.milestones.len() == e0.milestones.len(),
                forall|j: int| 0 <= j < n ==> (#[trigger] ups[j]).index < e0.milestones.len(),
            decreases n - i,
        {
            let update = &milestone_updates[i];
            assert(ups[i as int] == update@);
            let idx = update.index as usize;
            let mut target = escrow.milestones[idx].clone_milestone();
            target.status = update.status.clone();
            match &update.evidence {
                Some(ev) => {
                    target.evidence = ev.clone();
                },
                None => {},
            }
            escrow.milestones.set(idx, target);
            assert(escrow@.milestones =~= apply_status_updates(e0, ups, i + 1).milestones);
            i = i + 1;
        }
        Ok(escrow)
    }

    /// Approves each milestone named in `milestone_indexes`, at the request
    /// of the approver; a batch with any invalid index changes nothing.
    pub fn approve_milestones(escrow: Escrow, milestone_indexes: &Vec<u32>, approver: &Address) -> (r:
        Result<Escrow, ContractError>)
        requires
            escrow.milestones.len() <= u32::MAX,
        ensures
            escrow_result_view(r) == (match approval_outcome(
                escrow@,
                milestone_indexes@,
                approver@,
            ) {
                Err(x) => Err(x),
                Ok(_) => Ok(apply_approvals(escrow@, milestone_indexes@, milestone_indexes@.len() as int)),
            }),
    {
        validate_milestone_flag_change_conditions(&escrow, milestone_indexes, approver)?;
        let mut escrow = escrow;
        let ghost e0 = escrow@;
        proof {
            lemma_accepted_approvals(milestone_indexes@, e0.milestones, 0);
        }
        let n = milestone_indexes.len();
        let mut i: usize = 0;
        while i < n
            invariant
                n == milestone_indexes.len(),
                i <= n,
                escrow@ == apply_approvals(e0, milestone_indexes@, i as int),
                escrow.milestones.len() == e0.milestones.len(),
                forall|j: int| 0 <= j < n ==> #[trigger] milestone_indexes@[j] < e0.milestones.len(),
            decreases n - i,
        {
            let idx = milestone_indexes[i] as usize;
            let mut target = escrow.milestones[idx].clone_milestone();
            target.flags.approved = true;
            escrow.milestones.set(idx, target);
            assert(escrow@.milestones =~= apply_approvals(e0, milestone_indexes@, i + 1).milestones);
            i = i + 1;
        }
        Ok(escrow)
    }
}

} // verus!
