use vstd::prelude::*;

use crate::error::ContractError;
use crate::modules::fee::calculator::total_fees_outcome;
use crate::escrow_core::dispute::{
    distribution_total,
    dispute_outcome, mark_disputed, mark_resolved, resolve_outcome, withdraw_outcome,
};
use crate::escrow_core::escrow::{mark_released, release_outcome};
use crate::escrow_core::validators::escrow::{
    change_outcome, escrow_conditions_outcome, has_raised_flags, initialize_outcome,
    milestones_changed, properties_outcome, terms_differ,
};
use crate::escrow_core::milestone::{apply_approvals, apply_status_updates};
use crate::escrow_core::validators::milestone::{
    approval_outcome, lemma_accepted_approvals, lemma_accepted_updates, status_change_outcome,
};
use crate::storage::types::{EscrowView, Flags, MilestoneUpdateView, PaymentView};

verus! {

/// At most one of released, resolved and disputed is raised.
pub open spec fn settled_once(f: Flags) -> bool {
    &&& !(f.released && f.resolved)
    &&& !(f.released && f.disputed)
    &&& !(f.resolved && f.disputed)
}

/// What holds of every stored escrow: its properties pass the checks, and
/// no milestone is in more than one of the states released, resolved and
/// disputed.
pub open spec fn escrow_invariant(e: EscrowView) -> bool {
    &&& properties_outcome(e) is Ok
    &&& forall|i: int| 0 <= i < e.milestones.len() ==> settled_once(#[trigger] e.milestones[i].flags)
}

/// The milestones other than the one at `index` are the same in both
/// escrows, and so is everything but the milestones.
pub open spec fn only_milestone_changed(before: EscrowView, after: EscrowView, index: int) -> bool {
    &&& after.milestones.len() == before.milestones.len()
    &&& forall|j: int|
        0 <= j < before.milestones.len() && j != index ==> #[trigger] after.milestones[j]
            == before.milestones[j]
    &&& after.engagement_id == before.engagement_id
    &&& after.title == before.title
    &&& after.description == before.description
    &&& after.roles == before.roles
    &&& after.platform_fee == before.platform_fee
    &&& after.trustline == before.trustline
    &&& after.receiver_memo == before.receiver_memo
}

/// The amount of the milestone at `index` is the same in both escrows.
pub open spec fn same_amount(before: EscrowView, after: EscrowView, index: int) -> bool {
    after.milestones[index].amount == before.milestones[index].amount
}

/// A newly created escrow satisfies the invariant.
pub proof fn initialize_establishes_invariant(escrow_exists: bool, e: EscrowView, balance: int)
    requires
        initialize_outcome(escrow_exists, e, balance) is Ok,
    ensures
        escrow_invariant(e),
        forall|i: int| 0 <= i < e.milestones.len() ==> !(#[trigger] e.milestones[i].flags).any(),
{
    assert forall|i: int| 0 <= i < e.milestones.len() implies !(#[trigger] e.milestones[i].flags).any() by {
        if e.milestones[i].flags.any() {
            assert(has_raised_flags(e.milestones, 0, e.milestones.len() as int));
        }
    }
}

/// Releasing a milestone touches that milestone only, keeps its amount,
/// marks it released, and keeps the invariant.
pub proof fn release_keeps_invariant(
    e: EscrowView,
    signer: Seq<u8>,
    trustless_work: Seq<u8>,
    index: int,
    balance: int,
    after: EscrowView,
    payments: Seq<PaymentView>,
)
    requires
        escrow_invariant(e),
        release_outcome(e, signer, trustless_work, index, balance) == Ok::<
            (EscrowView, Seq<PaymentView>),
            ContractError,
        >((after, payments)),
    ensures
        escrow_invariant(after),
        only_milestone_changed(e, after, index),
        same_amount(e, after, index),
        after.milestones[index].flags.released,
{
    assert(after == mark_released(e, index));
    assert forall|i: int| 0 <= i < after.milestones.len() implies settled_once(
        #[trigger] after.milestones[i].flags,
    ) by {
        if i != index {
            assert(settled_once(e.milestones[i].flags));
        }
    }
}

/// Resolving a dispute touches that milestone only, keeps its amount,
/// marks it resolved and no longer disputed, and keeps the invariant.
pub proof fn resolve_keeps_invariant(
    e: EscrowView,
    resolver: Seq<u8>,
    index: int,
    trustless_work: Seq<u8>,
    d: Seq<(Seq<u8>, i128)>,
    balance: int,
    after: EscrowView,
    payments: Seq<PaymentView>,
)
    requires
        escrow_invariant(e),
        resolve_outcome(e, resolver, index, trustless_work, d, balance) == Ok::<
            (EscrowView, Seq<PaymentView>),
            ContractError,
        >((after, payments)),
    ensures
        escrow_invariant(after),
        only_milestone_changed(e, after, index),
        same_amount(e, after, index),
        after.milestones[index].flags.resolved,
        !after.milestones[index].flags.disputed,
{
    assert(after == mark_resolved(e, index));
    assert forall|i: int| 0 <= i < after.milestones.len() implies settled_once(
        #[trigger] after.milestones[i].flags,
    ) by {
        if i != index {
            assert(settled_once(e.milestones[i].flags));
        }
    }
}

/// Opening a dispute touches that milestone only, keeps its amount, puts
/// it in dispute, and keeps the invariant.
pub proof fn dispute_keeps_invariant(e: EscrowView, index: int, signer: Seq<u8>, after: EscrowView)
    requires
        escrow_invariant(e),
        dispute_outcome(e, index, signer) == Ok::<EscrowView, ContractError>(after),
    ensures
        escrow_invariant(after),
        only_milestone_changed(e, after, index),
        same_amount(e, after, index),
        after.milestones[index].flags.disputed,
{
    assert(after == mark_disputed(e, index));
    assert forall|i: int| 0 <= i < after.milestones.len() implies settled_once(
        #[trigger] after.milestones[i].flags,
    ) by {
        if i != index {
            assert(settled_once(e.milestones[i].flags));
        }
    }
}

/// Paying out the remaining funds leaves the escrow as it was.
pub proof fn withdraw_keeps_escrow(
    e: EscrowView,
    resolver: Seq<u8>,
    trustless_work: Seq<u8>,
    d: Seq<(Seq<u8>, i128)>,
    balance: int,
    after: EscrowView,
    payments: Seq<PaymentView>,
)
    requires
        withdraw_outcome(e, resolver, trustless_work, d, balance) == Ok::<
            (EscrowView, Seq<PaymentView>),
            ContractError,
        >((after, payments)),
    ensures
        after == e,
{
}

/// An accepted update keeps the platform, keeps the flags of every
/// milestone that was already there, adds milestones with every flag down,
/// keeps the invariant, and, while the contract holds funds, keeps the
/// terms and every existing milestone as they were.
pub proof fn update_keeps_invariant(old: EscrowView, new: EscrowView, caller: Seq<u8>, balance: int)
    requires
        escrow_invariant(old),
        escrow_conditions_outcome(Some(old), new, Some(caller), Some(balance), false) is Ok,
    ensures
        escrow_invariant(new),
        caller == old.roles.platform,
        new.roles.platform == old.roles.platform,
        forall|i: int|
            0 <= i < old.milestones.len() && i < new.milestones.len() ==> (
            #[trigger] new.milestones[i]).flags == old.milestones[i].flags,
        forall|i: int|
            old.milestones.len() <= i < new.milestones.len() ==> !(
            #[trigger] new.milestones[i]).flags.any(),
        balance > 0 ==> !terms_differ(old, new),
        balance > 0 ==> new.milestones.len() >= old.milestones.len(),
        balance > 0 ==> forall|i: int|
            0 <= i < old.milestones.len() ==> #[trigger] new.milestones[i] == old.milestones[i],
{
    assert(change_outcome(old, new, caller, balance) is Ok);
    assert forall|i: int|
        old.milestones.len() <= i < new.milestones.len() implies !(
        #[trigger] new.milestones[i]).flags.any() by {
        if new.milestones[i].flags.any() {
            assert(has_raised_flags(
                new.milestones,
                old.milestones.len() as int,
                new.milestones.len() as int,
            ));
        }
    }
    assert forall|i: int| 0 <= i < new.milestones.len() implies settled_once(
        #[trigger] new.milestones[i].flags,
    ) by {
        if i < old.milestones.len() {
            assert(settled_once(old.milestones[i].flags));
        }
    }
    if balance > 0 {
        assert(!milestones_changed(old.milestones, new.milestones));
    }
}

/// The platform may always resubmit an escrow unchanged.
pub proof fn unchanged_update_is_accepted(e: EscrowView, balance: int)
    requires
        escrow_invariant(e),
    ensures
        escrow_conditions_outcome(Some(e), e, Some(e.roles.platform), Some(balance), false)
            == Ok::<(), ContractError>(()),
{
}

/// A released milestone can be neither released again, nor resolved, nor
/// disputed.
pub proof fn released_milestone_is_final(
    e: EscrowView,
    index: int,
    signer: Seq<u8>,
    trustless_work: Seq<u8>,
    balance: int,
    resolver: Seq<u8>,
    d: Seq<(Seq<u8>, i128)>,
)
    requires
        0 <= index < e.milestones.len(),
        e.milestones[index].flags.released,
    ensures
        release_outcome(e, signer, trustless_work, index, balance) == Err::<
            (EscrowView, Seq<PaymentView>),
            ContractError,
        >(ContractError::MilestoneAlreadyReleased),
        resolve_outcome(e, resolver, index, trustless_work, d, balance) is Err,
        dispute_outcome(e, index, signer) == Err::<EscrowView, ContractError>(
            ContractError::MilestoneAlreadyReleased,
        ),
{
}

/// A milestone whose dispute was resolved can be neither released, nor
/// resolved again, nor disputed again.
pub proof fn resolved_milestone_is_final(
    e: EscrowView,
    index: int,
    signer: Seq<u8>,
    trustless_work: Seq<u8>,
    balance: int,
    resolver: Seq<u8>,
    d: Seq<(Seq<u8>, i128)>,
)
    requires
        0 <= index < e.milestones.len(),
        e.milestones[index].flags.resolved,
        settled_once(e.milestones[index].flags),
    ensures
        release_outcome(e, signer, trustless_work, index, balance) == Err::<
            (EscrowView, Seq<PaymentView>),
            ContractError,
        >(ContractError::EscrowAlreadyResolved),
        resolve_outcome(e, resolver, index, trustless_work, d, balance) is Err,
        dispute_outcome(e, index, signer) == Err::<EscrowView, ContractError>(
            ContractError::MilestoneAlreadyResolved,
        ),
{
}

/// A milestone in dispute can be neither released nor disputed again until
/// its dispute is resolved.
pub proof fn disputed_milestone_waits_for_resolution(
    e: EscrowView,
    index: int,
    signer: Seq<u8>,
    trustless_work: Seq<u8>,
    balance: int,
)
    requires
        0 <= index < e.milestones.len(),
        e.milestones[index].flags.disputed,
        settled_once(e.milestones[index].flags),
    ensures
        release_outcome(e, signer, trustless_work, index, balance) is Err,
        dispute_outcome(e, index, signer) == Err::<EscrowView, ContractError>(
            ContractError::MilestoneAlreadyInDispute,
        ),
{
}

/// A milestone that was never disputed cannot have a dispute resolved.
pub proof fn undisputed_milestone_cannot_be_resolved(
    e: EscrowView,
    index: int,
    resolver: Seq<u8>,
    trustless_work: Seq<u8>,
    d: Seq<(Seq<u8>, i128)>,
    balance: int,
)
    requires
        0 <= index < e.milestones.len(),
        !e.milestones[index].flags.disputed,
    ensures
        resolve_outcome(e, resolver, index, trustless_work, d, balance) is Err,
{
}

/// Funds left over can only be paid out once every milestone is released
/// or has had its dispute resolved: one that is neither, including one
/// whose dispute is still open, blocks it.
pub proof fn withdraw_needs_every_milestone_processed(
    e: EscrowView,
    resolver: Seq<u8>,
    trustless_work: Seq<u8>,
    d: Seq<(Seq<u8>, i128)>,
    balance: int,
    index: int,
)
    requires
        0 <= index < e.milestones.len(),
        !e.milestones[index].flags.released,
        !e.milestones[index].flags.resolved,
    ensures
        withdraw_outcome(e, resolver, trustless_work, d, balance) is Err,
        resolver == e.roles.dispute_resolver && d.len() <= 50 && (distribution_total(
            d,
            d.len() as int,
        ) matches Ok(t) && total_fees_outcome(t as int, e.platform_fee as int) is Ok)
            ==> withdraw_outcome(e, resolver, trustless_work, d, balance) == Err::<
            (EscrowView, Seq<PaymentView>),
            ContractError,
        >(ContractError::EscrowNotFullyProcessed),
{
    assert(!crate::escrow_core::dispute::all_processed(e.milestones));
}

/// The two escrows agree on everything but the statuses, evidence and
/// approval flags of their milestones.
pub open spec fn same_but_progress(before: EscrowView, after: EscrowView) -> bool {
    &&& after.milestones.len() == before.milestones.len()
    &&& forall|j: int|
        0 <= j < before.milestones.len() ==> {
            &&& (#[trigger] after.milestones[j]).amount == before.milestones[j].amount
            &&& after.milestones[j].description == before.milestones[j].description
            &&& after.milestones[j].receiver == before.milestones[j].receiver
            &&& after.milestones[j].flags.released == before.milestones[j].flags.released
            &&& after.milestones[j].flags.resolved == before.milestones[j].flags.resolved
            &&& after.milestones[j].flags.disputed == before.milestones[j].flags.disputed
        }
    &&& after.engagement_id == before.engagement_id
    &&& after.title == before.title
    &&& after.description == before.description
    &&& after.roles == before.roles
    &&& after.platform_fee == before.platform_fee
    &&& after.trustline == before.trustline
    &&& after.receiver_memo == before.receiver_memo
}

proof fn lemma_same_but_progress_keeps_invariant(before: EscrowView, after: EscrowView)
    requires
        escrow_invariant(before),
        same_but_progress(before, after),
    ensures
        escrow_invariant(after),
{
    assert forall|i: int| 0 <= i < after.milestones.len() implies settled_once(
        #[trigger] after.milestones[i].flags,
    ) by {
        assert(settled_once(before.milestones[i].flags));
    }
    if crate::escrow_core::validators::escrow::has_nonpositive_amount(after.milestones) {
        let i = choose|i: int|
            0 <= i < after.milestones.len() && #[trigger] after.milestones[i].amount <= 0;
        assert(before.milestones[i].amount <= 0);
    }
}

proof fn lemma_approvals_progress(e: EscrowView, indexes: Seq<u32>, k: int)
    requires
        0 <= k <= indexes.len(),
        forall|j: int| 0 <= j < k ==> #[trigger] indexes[j] < e.milestones.len(),
    ensures
        same_but_progress(e, apply_approvals(e, indexes, k)),
        forall|j: int|
            0 <= j < k ==> apply_approvals(e, indexes, k).milestones[#[trigger] indexes[j] as int].flags.approved,
        forall|m: int|
            0 <= m < e.milestones.len() && (forall|j: int| 0 <= j < k ==> indexes[j] != m)
                ==> #[trigger] apply_approvals(e, indexes, k).milestones[m] == e.milestones[m],
    decreases k,
{
    if k > 0 {
        lemma_approvals_progress(e, indexes, k - 1);
        let before = apply_approvals(e, indexes, k - 1);
        let after = apply_approvals(e, indexes, k);
        assert forall|j: int| 0 <= j < k implies after.milestones[#[trigger] indexes[j] as int].flags.approved by {
            if indexes[j] != indexes[k - 1] {
                assert(before.milestones[indexes[j] as int].flags.approved);
            }
        }
        assert forall|m: int|
            0 <= m < e.milestones.len() && (forall|j: int| 0 <= j < k ==> indexes[j] != m)
                implies #[trigger] after.milestones[m] == e.milestones[m] by {
            assert(indexes[k - 1] != m);
            assert(forall|j: int| 0 <= j < k - 1 ==> indexes[j] != m);
        }
    }
}

proof fn lemma_status_updates_progress(e: EscrowView, updates: Seq<MilestoneUpdateView>, k: int)
    requires
        0 <= k <= updates.len(),
        forall|j: int| 0 <= j < k ==> (#[trigger] updates[j]).index < e.milestones.len(),
    ensures
        same_but_progress(e, apply_status_updates(e, updates, k)),
        forall|m: int|
            0 <= m < e.milestones.len() ==> (#[trigger] apply_status_updates(e, updates, k).milestones[m]).flags
                == e.milestones[m].flags,
    decreases k,
{
    if k > 0 {
        lemma_status_updates_progress(e, updates, k - 1);
    }
}

/// Approving milestones raises the approval flag of each milestone named,
/// leaves every other milestone as it was, changes nothing else, and keeps
/// the invariant.
pub proof fn approval_keeps_invariant(e: EscrowView, indexes: Seq<u32>, approver: Seq<u8>)
    requires
        escrow_invariant(e),
        approval_outcome(e, indexes, approver) is Ok,
    ensures
        escrow_invariant(apply_approvals(e, indexes, indexes.len() as int)),
        same_but_progress(e, apply_approvals(e, indexes, indexes.len() as int)),
        forall|j: int|
            0 <= j < indexes.len() ==> apply_approvals(
                e,
                indexes,
                indexes.len() as int,
            ).milestones[#[trigger] indexes[j] as int].flags.approved,
        forall|m: int|
            0 <= m < e.milestones.len() && (forall|j: int| 0 <= j < indexes.len() ==> indexes[j] != m)
                ==> #[trigger] apply_approvals(e, indexes, indexes.len() as int).milestones[m]
                == e.milestones[m],
{
    lemma_accepted_approvals(indexes, e.milestones, 0);
    lemma_approvals_progress(e, indexes, indexes.len() as int);
    lemma_same_but_progress_keeps_invariant(e, apply_approvals(e, indexes, indexes.len() as int));
}

/// Status updates change only statuses and evidence: every flag, amount
/// and term stays as it was, and so does the invariant.
pub proof fn status_change_keeps_invariant(
    e: EscrowView,
    updates: Seq<MilestoneUpdateView>,
    service_provider: Seq<u8>,
)
    requires
        escrow_invariant(e),
        status_change_outcome(e, updates, service_provider) is Ok,
    ensures
        escrow_invariant(apply_status_updates(e, updates, updates.len() as int)),
        same_but_progress(e, apply_status_updates(e, updates, updates.len() as int)),
        forall|m: int|
            0 <= m < e.milestones.len() ==> (#[trigger] apply_status_updates(
                e,
                updates,
                updates.len() as int,
            ).milestones[m]).flags == e.milestones[m].flags,
{
    lemma_accepted_updates(updates, e.milestones.len(), 0);
    lemma_status_updates_progress(e, updates, updates.len() as int);
    lemma_same_but_progress_keeps_invariant(e, apply_status_updates(e, updates, updates.len() as int));
}

/// Funds are only released for a milestone that was approved and is not
/// in dispute.
pub proof fn release_needs_approval(
    e: EscrowView,
    signer: Seq<u8>,
    trustless_work: Seq<u8>,
    index: int,
    balance: int,
)
    requires
        release_outcome(e, signer, trustless_work, index, balance) is Ok,
    ensures
        e.milestones[index].flags.approved,
        !e.milestones[index].flags.disputed,
        signer == e.roles.release_signer,
        balance >= e.milestones[index].amount,
{
}

} // verus!
