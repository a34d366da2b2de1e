use vstd::prelude::*;

use crate::error::ContractError;
use crate::escrow_core::escrow::{payment_if_positive, settlement_view, with_flags};
use crate::escrow_core::validators::dispute::{
    dispute_check, resolution_check, validate_dispute_flag_change_conditions,
    validate_dispute_resolution_conditions, validate_distributions_size,
    validate_withdraw_remaining_funds_conditions, withdraw_check, MAX_DISTRIBUTIONS,
};
use crate::modules::fee::calculator::total_fees_outcome;
use crate::modules::fee::{FeeCalculator, FeeCalculatorTrait};
use crate::modules::math::basic::{
    add_outcome, div_outcome, mul_outcome, sub_outcome, BasicArithmetic, BasicMath,
};
use crate::storage::types::{
    distribution_view, payments_view, Address, Escrow, EscrowView, Flags, MilestoneView, Payment,
    PaymentView,
};

verus! {

/// The sum of the first `n` amounts of a distribution; a zero or negative
/// amount is refused, and a sum out of range overflows.
pub open spec fn distribution_total(d: Seq<(Seq<u8>, i128)>, n: int) -> Result<i128, ContractError>
    decreases n,
{
    if n <= 0 {
        Ok(0)
    } else {
        match distribution_total(d, n - 1) {
            Err(x) => Err(x),
            Ok(t) => if d[n - 1].1 <= 0 {
                Err(ContractError::AmountsToBeTransferredShouldBePositive)
            } else {
                add_outcome(t as int, d[n - 1].1 as int)
            },
        }
    }
}

/// The sum of the first `k` amounts of a distribution.
pub open spec fn amounts_sum(d: Seq<(Seq<u8>, i128)>, k: int) -> int
    decreases k,
{
    if k <= 0 {
        0
    } else {
        amounts_sum(d, k - 1) + d[k - 1].1
    }
}

/// A distribution names each recipient once, as the contract's map of
/// recipients to amounts does.
pub open spec fn distinct_recipients(d: Seq<(Seq<u8>, i128)>) -> bool {
    forall|i: int, j: int| 0 <= i < j < d.len() ==> #[trigger] d[i].0 != #[trigger] d[j].0
}

/// The net payments of the first `n` entries of a distribution, in order:
/// each positive entry bears `amount * fees / total` of the fees, rounded
/// toward zero, and is paid the rest, when the rest is positive.
pub open spec fn distribution_payouts(d: Seq<(Seq<u8>, i128)>, fees: int, total: int, n: int) -> Result<
    Seq<PaymentView>,
    ContractError,
>
    decreases n,
{
    if n <= 0 {
        Ok(Seq::empty())
    } else {
        match distribution_payouts(d, fees, total, n - 1) {
            Err(x) => Err(x),
            Ok(ps) => {
                let amount = d[n - 1].1 as int;
                if amount <= 0 {
                    Ok(ps)
                } else {
                    match mul_outcome(amount, fees) {
                        Err(x) => Err(x),
                        Ok(p) => match div_outcome(p as int, total) {
                            Err(x) => Err(x),
                            Ok(share) => match sub_outcome(amount, share as int) {
                                Err(x) => Err(x),
                                Ok(net) => Ok(ps + payment_if_positive(d[n - 1].0, net as int)),
                            },
                        },
                    }
                }
            },
        }
    }
}

/// Whether every milestone is released or has had its dispute resolved; a
/// milestone still in dispute is not processed.
pub open spec fn all_processed(ms: Seq<MilestoneView>) -> bool {
    forall|i: int|
        0 <= i < ms.len() ==> #[trigger] ms[i].flags.released || ms[i].flags.resolved
}

/// The fees on `total` paid to Trustless Work and to the platform, followed
/// by the net payments of the distribution.
pub open spec fn fees_and_payouts(
    e: EscrowView,
    trustless_work_address: Seq<u8>,
    d: Seq<(Seq<u8>, i128)>,
    total: int,
) -> Result<Seq<PaymentView>, ContractError> {
    match total_fees_outcome(total, e.platform_fee as int) {
        Err(x) => Err(x),
        Ok((tw, pf, fees)) => match distribution_payouts(d, fees as int, total, d.len() as int) {
            Err(x) => Err(x),
            Ok(ps) => Ok(
                payment_if_positive(trustless_work_address, tw as int) + payment_if_positive(
                    e.roles.platform,
                    pf as int,
                ) + ps,
            ),
        },
    }
}

/// What paying out the funds left in a fully processed escrow does: the
/// escrow is unchanged, and the distribution is paid net of fees.
pub open spec fn withdraw_outcome(
    e: EscrowView,
    dispute_resolver: Seq<u8>,
    trustless_work_address: Seq<u8>,
    d: Seq<(Seq<u8>, i128)>,
    current_balance: int,
) -> Result<(EscrowView, Seq<PaymentView>), ContractError> {
    if d.len() > MAX_DISTRIBUTIONS {
        Err(ContractError::TooManyDistributions)
    } else {
        match distribution_total(d, d.len() as int) {
            Err(x) => Err(x),
            Ok(total) => match total_fees_outcome(total as int, e.platform_fee as int) {
                Err(x) => Err(x),
                Ok(_) => match withdraw_check(
                    e,
                    dispute_resolver,
                    all_processed(e.milestones),
                    current_balance,
                    total as int,
                ) {
                    Err(x) => Err(x),
                    Ok(_) => match fees_and_payouts(e, trustless_work_address, d, total as int) {
                        Err(x) => Err(x),
                        Ok(ps) => Ok((e, ps)),
                    },
                },
            },
        }
    }
}

/// The status given to a milestone once its dispute is resolved.
pub open spec fn resolved_status() -> Seq<u8> {
    seq![114u8, 101u8, 115u8, 111u8, 108u8, 118u8, 101u8, 100u8]
}

/// The escrow once the dispute on the milestone at `index` is resolved:
/// its status reads "resolved", it is marked resolved and no longer
/// disputed.
pub open spec fn mark_resolved(e: EscrowView, index: int) -> EscrowView {
    let m = e.milestones[index];
    EscrowView {
        milestones: e.milestones.update(
            index,
            MilestoneView {
                status: resolved_status(),
                flags: Flags { resolved: true, disputed: false, ..m.flags },
                ..m
            },
        ),
        ..e
    }
}

/// What resolving the dispute on the milestone at `index` does: the
/// distribution is paid net of fees and the milestone is marked resolved.
pub open spec fn resolve_outcome(
    e: EscrowView,
    dispute_resolver: Seq<u8>,
    index: int,
    trustless_work_address: Seq<u8>,
    d: Seq<(Seq<u8>, i128)>,
    current_balance: int,
) -> Result<(EscrowView, Seq<PaymentView>), ContractError> {
    if d.len() > MAX_DISTRIBUTIONS {
        Err(ContractError::TooManyDistributions)
    } else if !(0 <= index < e.milestones.len()) {
        Err(ContractError::InvalidMileStoneIndex)
    } else {
        match distribution_total(d, d.len() as int) {
            Err(x) => Err(x),
            Ok(total) => match resolution_check(
                e,
                e.milestones[index],
                dispute_resolver,
                current_balance,
                total as int,
            ) {
                Err(x) => Err(x),
                Ok(_) => match fees_and_payouts(e, trustless_work_address, d, total as int) {
                    Err(x) => Err(x),
                    Ok(ps) => Ok((mark_resolved(e, index), ps)),
                },
            },
        }
    }
}

/// The escrow with the milestone at `index` put in dispute.
pub open spec fn mark_disputed(e: EscrowView, index: int) -> EscrowView {
    with_flags(e, index, Flags { disputed: true, ..e.milestones[index].flags })
}

/// What opening a dispute on the milestone at `index` does.
pub open spec fn dispute_outcome(e: EscrowView, index: int, signer: Seq<u8>) -> Result<
    EscrowView,
    ContractError,
> {
    match dispute_check(e, index, signer) {
        Err(x) => Err(x),
        Ok(_) => Ok(mark_disputed(e, index)),
    }
}

/// The abstract value of an outcome that yields an escrow.
pub open spec fn escrow_result_view(r: Result<Escrow, ContractError>) -> Result<
    EscrowView,
    ContractError,
> {
    match r {
        Ok(e) => Ok(e@),
        Err(x) => Err(x),
    }
}

proof fn lemma_total_error_persists(d: Seq<(Seq<u8>, i128)>, k: int, m: int)
    requires
        0 <= k <= m,
        distribution_total(d, k) is Err,
    ensures
        distribution_total(d, m) == distribution_total(d, k),
    decreases m - k,
{
    if m > k {
        lemma_total_error_persists(d, k, m - 1);
    }
}

proof fn lemma_payouts_error_persists(
    d: Seq<(Seq<u8>, i128)>,
    fees: int,
    total: int,
    k: int,
    m: int,
)
    requires
        0 <= k <= m,
        distribution_payouts(d, fees, total, k) is Err,
    ensures
        distribution_payouts(d, fees, total, m) == distribution_payouts(d, fees, total, k),
    decreases m - k,
{
    if m > k {
        lemma_payouts_error_persists(d, fees, total, k, m - 1);
    }
}

fn sum_distribution(distributions: &Vec<(Address, i128)>) -> (r: Result<i128, ContractError>)
    ensures
        r == distribution_total(
            distribution_view(distributions@),
            distributions@.len() as int,
        ),
{
    let ghost d = distribution_view(distributions@);
    let n = distributions.len();
    let mut total: i128 = 0;
    let mut i: usize = 0;
    while i < n
        invariant
            n == distributions.len(),
            d == distribution_view(distributions@),
            i <= n,
            distribution_total(d, i as int) == Ok::<i128, ContractError>(total),
        decreases n - i,
    {
        let amount = distributions[i].1;
        assert(d[i as int].1 == amount);
        if amount <= 0 {
            proof {
                lemma_total_error_persists(d, i + 1, n as int);
            }
            return Err(ContractError::AmountsToBeTransferredShouldBePositive);
        }
        total = match BasicMath::safe_add(total, amount) {
            Err(x) => {
                proof {
                    lemma_total_error_persists(d, i + 1, n as int);
                }
                return Err(x);
            },
            Ok(v) => v,
        };
        i = i + 1;
    }
    Ok(total)
}

/// A distribution whose total is accepted holds only positive amounts, and
/// the sum of any prefix of it lies between zero and its total.
pub proof fn lemma_total_is_sum(d: Seq<(Seq<u8>, i128)>, n: int)
    requires
        0 <= n <= d.len(),
        distribution_total(d, n) is Ok,
    ensures
        distribution_total(d, n) matches Ok(t) && t == amounts_sum(d, n),
        forall|i: int| 0 <= i < n ==> #[trigger] d[i].1 > 0,
        forall|k: int| 0 <= k <= n ==> 0 <= #[trigger] amounts_sum(d, k) <= amounts_sum(d, n),
    decreases n,
{
    if n > 0 {
        lemma_total_is_sum(d, n - 1);
        assert forall|k: int| 0 <= k <= n implies 0 <= #[trigger] amounts_sum(d, k) <= amounts_sum(
            d,
            n,
        ) by {
            if k < n {
                assert(amounts_sum(d, k) <= amounts_sum(d, n - 1));
            }
        }
    }
}

fn pay_distribution(
    distributions: &Vec<(Address, i128)>,
    total_fees: i128,
    total: i128,
    payments: &mut Vec<Payment>,
) -> (r: Result<(), ContractError>)
    ensures
        match distribution_payouts(
            distribution_view(distributions@),
            total_fees as int,
            total as int,
            distributions@.len() as int,
        ) {
            Ok(ps) => r is Ok && payments_view(final(payments)@) == payments_view(old(payments)@)
                + ps,
            Err(x) => r == Err::<(), ContractError>(x),
        },
{
    let ghost d = distribution_view(distributions@);
    let ghost start = payments_view(payments@);
    let n = distributions.len();
    let mut i: usize = 0;
    while i < n
        invariant
            n == distributions.len(),
            d == distribution_view(distributions@),
            i <= n,
            distribution_payouts(d, total_fees as int, total as int, i as int) matches Ok(ps)
                && payments_view(payments@) == start + ps,
        decreases n - i,
    {
        let ghost before = payments_view(payments@);
        let amount = distributions[i].1;
        assert(d[i as int] == (distributions@[i as int].0@, amount));
        if amount > 0 {
            let fee_share = match BasicMath::safe_mul(amount, total_fees) {
                Err(x) => {
                    proof {
                        lemma_payouts_error_persists(d, total_fees as int, total as int, i + 1, n as int);
                    }
                    return Err(x);
                },
                Ok(product) => match BasicMath::safe_div(product, total) {
                    Err(x) => {
                        proof {
                            lemma_payouts_error_persists(d, total_fees as int, total as int, i + 1, n as int);
                        }
                        return Err(x);
                    },
                    Ok(q) => q,
                },
            };
            let net_amount = match BasicMath::safe_sub(amount, fee_share) {
                Err(x) => {
                    proof {
                        lemma_payouts_error_persists(d, total_fees as int, total as int, i + 1, n as int);
                    }
                    return Err(x);
                },
                Ok(v) => v,
            };
            if net_amount > 0 {
                payments.push(Payment { to: distributions[i].0.clone_address(), amount: net_amount });
            }
            assert(payments_view(payments@) =~= before + payment_if_positive(
                d[i as int].0,
                net_amount as int,
            ));
        }
        i = i + 1;
    }
    Ok(())
}

/// Namespace for the operations on disputes and on the funds left over.
pub struct DisputeManager;

impl DisputeManager {
    /// Pays out, net of fees, a distribution of the funds left in an escrow
    /// whose milestones are all released or resolved; the escrow itself is
    /// unchanged.
    pub fn withdraw_remaining_funds(
        escrow: Escrow,
        dispute_resolver: &Address,
        trustless_work_address: &Address,
        distributions: &Vec<(Address, i128)>,
        current_balance: i128,
    ) -> (r: Result<(Escrow, Vec<Payment>), ContractError>)
        requires
            distinct_recipients(distribution_view(distributions@)),
        ensures
            settlement_view(r) == withdraw_outcome(
                escrow@,
                dispute_resolver@,
                trustless_work_address@,
                distribution_view(distributions@),
                current_balance as int,
            ),
    {
        validate_distributions_size(distributions)?;
        let ghost ms = escrow@.milestones;
        let mut processed = true;
        let n = escrow.milestones.len();
        let mut i: usize = 0;
        while i < n && processed
            invariant
                n == escrow.milestones.len(),
                ms == escrow@.milestones,
                i <= n,
                processed ==> forall|j: int| 0 <= j < i ==> #[trigger] ms[j].flags.released
                    || ms[j].flags.resolved,
                !processed ==> !all_processed(ms),
            decreases n - i,
        {
            let flags = escrow.milestones[i].flags;
            assert(ms[i as int].flags == flags);
            if !(flags.released || flags.resolved) {
                processed = false;
            }
            i = i + 1;
        }
        assert(processed == all_processed(ms));
        let total = sum_distribution(distributions)?;
        let (trustless_fee, platform_fee, total_fees) = FeeCalculator::calculate_total_fees(
            total,
            escrow.platform_fee,
        )?;
        validate_withdraw_remaining_funds_conditions(
            &escrow,
            dispute_resolver,
            processed,
            current_balance,
            total,
        )?;
        let mut payments: Vec<Payment> = Vec::new();
        if trustless_fee > 0 {
            payments.push(Payment { to: trustless_work_address.clone_address(), amount: trustless_fee });
        }
        if platform_fee > 0 {
            payments.push(Payment { to: escrow.roles.platform.clone_address(), amount: platform_fee });
        }
        assert(payments_view(payments@) =~= payment_if_positive(
            trustless_work_address@,
            trustless_fee as int,
        ) + payment_if_positive(escrow@.roles.platform, platform_fee as int));
        pay_distribution(distributions, total_fees, total, &mut payments)?;
        Ok((escrow, payments))
    }

    /// Settles the dispute on the milestone at `milestone_index`: pays out
    /// the distribution net of fees and marks the milestone resolved.
    pub fn resolve_milestone_dispute(
        escrow: Escrow,
        dispute_resolver: &Address,
        milestone_index: u32,
        trustless_work_address: &Address,
        distributions: &Vec<(Address, i128)>,
        current_balance: i128,
    ) -> (r: Result<(Escrow, Vec<Payment>), ContractError>)
        requires
            distinct_recipients(distribution_view(distributions@)),
        ensures
            settlement_view(r) == resolve_outcome(
                escrow@,
                dispute_resolver@,
                milestone_index as int,
                trustless_work_address@,
                distribution_view(distributions@),
                current_balance as int,
            ),
    {
        validate_distributions_size(distributions)?;
        let mut escrow = escrow;
        let ghost e0 = escrow@;
        if milestone_index as usize >= escrow.milestones.len() {
            return Err(ContractError::InvalidMileStoneIndex);
        }
        let idx = milestone_index as usize;
        let milestone = escrow.milestones[idx].clone_milestone();
        assert(e0.milestones[idx as int] == milestone@);
        let total = sum_distribution(distributions)?;
        validate_dispute_resolution_conditions(
            &escrow,
            &milestone,
            dispute_resolver,
            current_balance,
            total,
        )?;
        let (trustless_fee, platform_fee, total_fees) = FeeCalculator::calculate_total_fees(
            total,
            escrow.platform_fee,
        )?;
        let mut payments: Vec<Payment> = Vec::new();
        if trustless_fee > 0 {
            payments.push(Payment { to: trustless_work_address.clone_address(), amount: trustless_fee });
        }
        if platform_fee > 0 {
            payments.push(Payment { to: escrow.roles.platform.clone_address(), amount: platform_fee });
        }
        assert(payments_view(payments@) =~= payment_if_positive(
            trustless_work_address@,
            trustless_fee as int,
        ) + payment_if_positive(e0.roles.platform, platform_fee as int));
        pay_distribution(distributions, total_fees, total, &mut payments)?;
        let mut updated = milestone.clone_milestone();
        updated.status = vec![114u8, 101u8, 115u8, 111u8, 108u8, 118u8, 101u8, 100u8];
        updated.flags.resolved = true;
        updated.flags.disputed = false;
        assert(updated.status@ =~= resolved_status());
        escrow.milestones.set(idx, updated);
        assert(escrow@.milestones =~= mark_resolved(e0, idx as int).milestones);
        Ok((escrow, payments))
    }

    /// Puts the milestone at `milestone_index` in dispute at the request of
    /// `signer`.
    pub fn dispute_milestone(escrow: Escrow, milestone_index: i128, signer: &Address) -> (r:
        Result<Escrow, ContractError>)
        requires
            escrow.milestones.len() <= u32::MAX,
        ensures
            escrow_result_view(r) == dispute_outcome(escrow@, milestone_index as int, signer@),
    {
        let mut escrow = escrow;
        let ghost e0 = escrow@;
        if milestone_index < 0 || milestone_index > u32::MAX as i128 {
            if escrow.milestones.len() == 0 {
                return Err(ContractError::NoMileStoneDefined);
            }
            return Err(ContractError::InvalidMileStoneIndex);
        }
        let index = milestone_index as u32;
        validate_dispute_flag_change_conditions(&escrow, index, signer)?;
        let idx = index as usize;
        let mut target = escrow.milestones[idx].clone_milestone();
        target.flags.disputed = true;
        escrow.milestones.set(idx, target);
        assert(escrow@.milestones =~= mark_disputed(e0, idx as int).milestones);
        Ok(escrow)
    }
}

} // verus!
