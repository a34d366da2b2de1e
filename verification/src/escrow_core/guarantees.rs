use vstd::prelude::*;

use crate::error::ContractError;
use crate::escrow_core::dispute::{
    amounts_sum, dispute_outcome, distribution_payouts, distribution_total, lemma_total_is_sum,
    resolve_outcome, withdraw_outcome,
};
use crate::escrow_core::escrow::{payment_if_positive, release_outcome};
use crate::escrow_core::milestone::{apply_approvals, apply_status_updates};
use crate::escrow_core::settlement::lemma_fee_bounds;
use crate::modules::fee::calculator::{net_share_outcome, total_fees_outcome};
use crate::modules::math::basic::{div_outcome, mul_outcome, sub_outcome, trunc_div};
use crate::escrow_core::validators::escrow::{
    escrow_conditions_outcome, flags_differ, fund_outcome, has_nonpositive_amount,
    has_raised_flags, initialize_outcome, milestones_changed,
};
use crate::escrow_core::validators::milestone::{
    approval_outcome, approvals_from, lemma_accepted_approvals, lemma_accepted_updates,
    status_change_outcome, status_updates_from,
};
use crate::storage::types::{EscrowView, Flags, MilestoneUpdateView, MilestoneView, PaymentView};

verus! {

/// Any party of the escrow other than the dispute resolver (its approver,
/// service provider, platform or release signer) and the milestone's
/// receiver may open a dispute on a milestone that exists and is neither
/// released, resolved nor disputed; nobody else may, and no other
/// milestone may be disputed. The dispute raises the milestone's disputed
/// flag and changes nothing else.
pub proof fn dispute_is_open_to_every_party_but_the_resolver(
    e: EscrowView,
    index: int,
    signer: Seq<u8>,
)
    ensures
        dispute_outcome(e, index, signer) is Ok <==> {
            &&& 0 <= index < e.milestones.len()
            &&& !e.milestones[index].flags.released
            &&& !e.milestones[index].flags.resolved
            &&& !e.milestones[index].flags.disputed
            &&& signer != e.roles.dispute_resolver
            &&& (signer == e.roles.approver || signer == e.roles.service_provider || signer
                == e.roles.platform || signer == e.roles.release_signer || signer
                == e.milestones[index].receiver)
        },
        dispute_outcome(e, index, signer) matches Ok(after) ==> {
            &&& after.milestones.len() == e.milestones.len()
            &&& after.milestones[index] == MilestoneView {
                flags: Flags { disputed: true, ..e.milestones[index].flags },
                ..e.milestones[index]
            }
            &&& forall|j: int|
                0 <= j < e.milestones.len() && j != index ==> #[trigger] after.milestones[j]
                    == e.milestones[j]
            &&& after.engagement_id == e.engagement_id
            &&& after.title == e.title
            &&& after.description == e.description
            &&& after.roles == e.roles
            &&& after.platform_fee == e.platform_fee
            &&& after.trustline == e.trustline
            &&& after.receiver_memo == e.receiver_memo
        },
{
}

/// A deposit is accepted exactly when the amount is positive, the signer
/// holds at least that much, and the escrow the signer expects is the
/// stored escrow in every field, milestones included.
pub proof fn funding_needs_the_expected_escrow(
    amount: int,
    balance: int,
    stored: EscrowView,
    expected: EscrowView,
)
    ensures
        fund_outcome(amount, balance, stored, expected) is Ok <==> (amount > 0 && balance >= amount
            && stored == expected),
        fund_outcome(amount, balance, stored, expected) is Ok ==> stored.milestones
            == expected.milestones,
{
}

/// While the contract holds funds, an accepted update keeps the platform
/// fee, the engagement id, the title, the description, the five parties,
/// the trustline and the receiver memo exactly as stored, and keeps every
/// stored milestone in its place unchanged.
pub proof fn funded_update_keeps_the_terms(
    old: EscrowView,
    new: EscrowView,
    caller: Seq<u8>,
    balance: int,
)
    requires
        escrow_conditions_outcome(Some(old), new, Some(caller), Some(balance), false) is Ok,
        balance > 0,
    ensures
        new.platform_fee == old.platform_fee,
        new.engagement_id == old.engagement_id,
        new.title == old.title,
        new.description == old.description,
        new.roles.approver == old.roles.approver,
        new.roles.service_provider == old.roles.service_provider,
        new.roles.platform == old.roles.platform,
        new.roles.release_signer == old.roles.release_signer,
        new.roles.dispute_resolver == old.roles.dispute_resolver,
        new.trustline == old.trustline,
        new.receiver_memo == old.receiver_memo,
        new.milestones.len() >= old.milestones.len(),
        forall|i: int| 0 <= i < old.milestones.len() ==> #[trigger] new.milestones[i] == old.milestones[i],
{
    if new.milestones.len() >= old.milestones.len() {
        assert forall|i: int| 0 <= i < old.milestones.len() implies #[trigger] new.milestones[i]
            == old.milestones[i] by {
            if new.milestones[i] != old.milestones[i] {
                assert(milestones_changed(
                    old.milestones,
                    new.milestones,
                ));
            }
        }
    }
}

/// The release signer may release the funds of an approved milestone that
/// is neither released, resolved nor disputed, whatever the state of the
/// other milestones, when the contract holds the milestone's amount and the
/// fee arithmetic stays in range: the milestone is marked released, nothing
/// else changes, and its amount is paid out as the Trustless Work fee
/// (0.3%, rounded down), the platform fee (its basis points, rounded down)
/// and the rest to the milestone's receiver.
pub proof fn release_of_an_approved_milestone_succeeds(
    e: EscrowView,
    signer: Seq<u8>,
    trustless_work: Seq<u8>,
    index: u32,
    balance: int,
)
    requires
        signer == e.roles.release_signer,
        index < e.milestones.len(),
        e.milestones[index as int].flags.approved,
        !e.milestones[index as int].flags.released,
        !e.milestones[index as int].flags.resolved,
        !e.milestones[index as int].flags.disputed,
        e.milestones[index as int].amount > 0,
        balance >= e.milestones[index as int].amount,
        e.platform_fee <= 9900,
        e.milestones[index as int].amount * 10000 <= i128::MAX,
        e.milestones[index as int].amount * e.milestones[index as int].amount <= i128::MAX,
    ensures
        ({
            let m = e.milestones[index as int];
            let tw = (m.amount * 30) / 10000;
            let pf = (m.amount * e.platform_fee) / 10000;
            release_outcome(e, signer, trustless_work, index as int, balance) matches Ok((after, ps))
                && after.milestones.len() == e.milestones.len()
                && after.milestones[index as int] == MilestoneView {
                    flags: Flags { released: true, ..m.flags },
                    ..m
                }
                && after.engagement_id == e.engagement_id
                && after.title == e.title
                && after.description == e.description
                && after.roles == e.roles
                && after.platform_fee == e.platform_fee
                && after.trustline == e.trustline
                && after.receiver_memo == e.receiver_memo
                && ps == payment_if_positive(trustless_work, tw) + payment_if_positive(
                    e.roles.platform,
                    pf,
                ) + payment_if_positive(m.receiver, m.amount - tw - pf)
                && forall|j: int|
                    0 <= j < e.milestones.len() && j != index ==> #[trigger] after.milestones[j]
                        == e.milestones[j]
        }),
{
    let m = e.milestones[index as int];
    let a = m.amount as int;
    let bps = e.platform_fee as int;
    assert(a * 30 <= a * 10000 && a * bps <= a * 10000 && a * 30 >= 0 && a * bps >= 0)
        by (nonlinear_arith)
        requires
            a > 0,
            0 <= bps <= 9900,
    ;
    lemma_fee_bounds(a, bps);
    let (tw, pf, fees) = total_fees_outcome(a, bps)->Ok_0;
    let f = fees as int;
    let p = a * f;
    assert(p / a == f && 0 <= p <= a * a) by (nonlinear_arith)
        requires
            a > 0,
            0 <= f <= a,
            p == a * f,
    ;
    assert(trunc_div(p, a) == f);
    assert(tw == (a * 30) / 10000);
    assert(pf == (a * bps) / 10000);
}

/// With a platform fee of at most 99%, the fees on a positive total are
/// the two rounded-down fees, and they stay below the total.
proof fn lemma_fees_below_total(total: int, bps: int)
    requires
        total > 0,
        0 <= bps <= 9900,
        total * 10000 <= i128::MAX,
    ensures
        total_fees_outcome(total, bps) == Ok::<
            (i128, i128, i128),
            ContractError,
        >(
            (
                ((total * 30) / 10000) as i128,
                ((total * bps) / 10000) as i128,
                ((total * 30) / 10000 + (total * bps) / 10000) as i128,
            ),
        ),
        0 <= (total * 30) / 10000 + (total * bps) / 10000 < total,
        0 <= (total * 30) / 10000,
        0 <= (total * bps) / 10000,
{
    let a = total * 30;
    let b = total * bps;
    assert(0 <= a <= total * 10000 && 0 <= b <= total * 10000 && a + b <= total * 9930)
        by (nonlinear_arith)
        requires
            total > 0,
            0 <= bps <= 9900,
            a == total * 30,
            b == total * bps,
    ;
    let x = a / 10000;
    let y = b / 10000;
    assert(0 <= x && 0 <= y && x * 10000 <= a && y * 10000 <= b) by (nonlinear_arith)
        requires
            a >= 0,
            b >= 0,
            x == a / 10000,
            y == b / 10000,
    ;
    assert(trunc_div(a, 10000) == x);
    assert(trunc_div(b, 10000) == y);
}

proof fn lemma_positive_amounts_sum(d: Seq<(Seq<u8>, i128)>, n: int)
    requires
        0 <= n <= d.len(),
        forall|i: int| 0 <= i < d.len() ==> #[trigger] d[i].1 > 0,
        amounts_sum(d, n) <= i128::MAX,
    ensures
        distribution_total(d, n) == Ok::<i128, ContractError>(amounts_sum(d, n) as i128),
        forall|i: int| 0 <= i < n ==> #[trigger] d[i].1 <= amounts_sum(d, n),
        amounts_sum(d, n) >= 0,
    decreases n,
{
    if n > 0 {
        assert(d[n - 1].1 > 0);
        lemma_positive_amounts_sum(d, n - 1);
    }
}

/// The net payments of a distribution whose fees are below its total: each
/// entry, in order, is paid its amount less its share of the fees, rounded
/// down, which is always positive.
proof fn lemma_payouts_exact(d: Seq<(Seq<u8>, i128)>, fees: int, total: int, n: int)
    requires
        0 <= n <= d.len(),
        0 <= fees < total,
        total * total <= i128::MAX,
        forall|i: int| 0 <= i < n ==> 0 < #[trigger] d[i].1 <= total,
    ensures
        distribution_payouts(d, fees, total, n) == Ok::<Seq<PaymentView>, ContractError>(
            Seq::new(
                n as nat,
                |i: int| PaymentView { to: d[i].0, amount: (d[i].1 - (d[i].1 * fees) / total) as i128 },
            ),
        ),
    decreases n,
{
    if n > 0 {
        lemma_payouts_exact(d, fees, total, n - 1);
        let a = d[n - 1].1 as int;
        assert(0 < a <= total);
        let p = a * fees;
        assert(0 <= p < a * total && p <= total * total) by (nonlinear_arith)
            requires
                0 < a <= total,
                0 <= fees < total,
                p == a * fees,
        ;
        let q = p / total;
        assert(0 <= q < a) by (nonlinear_arith)
            requires
                0 <= p < a * total,
                total > 0,
                q == p / total,
        ;
        assert(trunc_div(p, total) == q);
        let prev = Seq::new(
            (n - 1) as nat,
            |i: int| PaymentView { to: d[i].0, amount: (d[i].1 - (d[i].1 * fees) / total) as i128 },
        );
        let all = Seq::new(
            n as nat,
            |i: int| PaymentView { to: d[i].0, amount: (d[i].1 - (d[i].1 * fees) / total) as i128 },
        );
        assert(prev + payment_if_positive(d[n - 1].0, a - q) =~= all);
        assert(mul_outcome(a, fees) == Ok::<i128, ContractError>(
            p as i128,
        ));
        assert(div_outcome(p, total) == Ok::<i128, ContractError>(
            q as i128,
        ));
        assert(sub_outcome(a, q) == Ok::<i128, ContractError>(
            (a - q) as i128,
        ));
    } else {
        assert(Seq::new(
            0,
            |i: int| PaymentView { to: d[i].0, amount: (d[i].1 - (d[i].1 * fees) / total) as i128 },
        ) =~= Seq::<PaymentView>::empty());
    }
}

/// The dispute resolver may resolve the dispute on a milestone that is in
/// dispute and neither released nor resolved, whatever the state of the
/// other milestones, with a distribution of at most fifty positive amounts
/// whose total is positive, at most the milestone's amount and at most
/// what the contract holds, when the fee arithmetic stays in range: the
/// milestone's status becomes "resolved", it is marked resolved and no
/// longer disputed, and nothing else changes.
pub proof fn resolution_of_a_disputed_milestone_succeeds(
    e: EscrowView,
    resolver: Seq<u8>,
    index: int,
    trustless_work: Seq<u8>,
    d: Seq<(Seq<u8>, i128)>,
    balance: int,
)
    requires
        resolver == e.roles.dispute_resolver,
        0 <= index < e.milestones.len(),
        e.milestones[index].flags.disputed,
        !e.milestones[index].flags.released,
        !e.milestones[index].flags.resolved,
        e.platform_fee <= 9900,
        d.len() <= 50,
        forall|i: int| 0 <= i < d.len() ==> #[trigger] d[i].1 > 0,
        0 < amounts_sum(d, d.len() as int) <= e.milestones[index].amount,
        amounts_sum(d, d.len() as int) <= balance,
        amounts_sum(d, d.len() as int) * 10000 <= i128::MAX,
        amounts_sum(d, d.len() as int) * amounts_sum(d, d.len() as int) <= i128::MAX,
    ensures
        ({
            let m = e.milestones[index];
            let t = amounts_sum(d, d.len() as int);
            let tw = (t * 30) / 10000;
            let pf = (t * e.platform_fee) / 10000;
            resolve_outcome(e, resolver, index, trustless_work, d, balance) matches Ok((after, ps))
                && ps == payment_if_positive(trustless_work, tw) + payment_if_positive(
                    e.roles.platform,
                    pf,
                ) + Seq::new(
                    d.len(),
                    |i: int| PaymentView { to: d[i].0, amount: (d[i].1 - (d[i].1 * (tw + pf)) / t) as i128 },
                )
                && after.milestones.len() == e.milestones.len()
                && after.milestones[index] == MilestoneView {
                    status: seq![114u8, 101u8, 115u8, 111u8, 108u8, 118u8, 101u8, 100u8],
                    flags: Flags { resolved: true, disputed: false, ..m.flags },
                    ..m
                }
                && after.engagement_id == e.engagement_id
                && after.title == e.title
                && after.description == e.description
                && after.roles == e.roles
                && after.platform_fee == e.platform_fee
                && after.trustline == e.trustline
                && after.receiver_memo == e.receiver_memo
                && forall|j: int|
                    0 <= j < e.milestones.len() && j != index ==> #[trigger] after.milestones[j]
                        == e.milestones[j]
        }),
{
    let n = d.len() as int;
    let t = amounts_sum(d, n);
    lemma_positive_amounts_sum(d, n);
    let bps = e.platform_fee as int;
    assert(t * 30 <= t * 10000 && t * bps <= t * 10000 && t * 30 >= 0 && t * bps >= 0)
        by (nonlinear_arith)
        requires
            t > 0,
            0 <= bps <= 9900,
    ;
    lemma_fees_below_total(t, bps);
    let (tw, pf, fees) = total_fees_outcome(t, bps)->Ok_0;
    lemma_payouts_exact(d, fees as int, t, n);
}

/// An escrow is created exactly when none is stored yet, the contract holds
/// no tokens, the platform fee is at most 99%, there are between one and
/// fifty milestones, and every milestone asks for a positive amount and has
/// all its flags down.
pub proof fn initialization_accepts_exactly_fresh_valid_escrows(
    escrow_exists: bool,
    e: EscrowView,
    balance: int,
)
    ensures
        initialize_outcome(escrow_exists, e, balance) is Ok <==> {
            &&& !escrow_exists
            &&& balance <= 0
            &&& e.platform_fee <= 9900
            &&& 1 <= e.milestones.len() <= 50
            &&& forall|i: int|
                0 <= i < e.milestones.len() ==> {
                    &&& #[trigger] e.milestones[i].amount > 0
                    &&& !e.milestones[i].flags.approved
                    &&& !e.milestones[i].flags.disputed
                    &&& !e.milestones[i].flags.released
                    &&& !e.milestones[i].flags.resolved
                }
        },
{
    let ms = e.milestones;
    let valid = forall|i: int|
        0 <= i < ms.len() ==> {
            &&& #[trigger] ms[i].amount > 0
            &&& !ms[i].flags.approved
            &&& !ms[i].flags.disputed
            &&& !ms[i].flags.released
            &&& !ms[i].flags.resolved
        };
    if valid {
        assert(!has_nonpositive_amount(ms));
        assert forall|i: int| 0 <= i < ms.len() implies !(#[trigger] ms[i].flags.any()) by {
            assert(ms[i].amount > 0);
        }
        assert(!has_raised_flags(ms, 0, ms.len() as int));
    }
    if initialize_outcome(escrow_exists, e, balance) is Ok {
        assert forall|i: int| 0 <= i < ms.len() implies {
            &&& #[trigger] ms[i].amount > 0
            &&& !ms[i].flags.approved
            &&& !ms[i].flags.disputed
            &&& !ms[i].flags.released
            &&& !ms[i].flags.resolved
        } by {
            if ms[i].amount <= 0 {
                assert(has_nonpositive_amount(ms));
            }
            if ms[i].flags.any() {
                assert(has_raised_flags(ms, 0, ms.len() as int));
            }
        }
    }
}

proof fn lemma_approvals_accepted(indexes: Seq<u32>, ms: Seq<MilestoneView>, i: int)
    requires
        0 <= i,
        forall|j: int|
            i <= j < indexes.len() ==> (#[trigger] indexes[j]) < ms.len()
                && !ms[indexes[j] as int].flags.approved && ms[indexes[j] as int].status.len() > 0,
    ensures
        approvals_from(indexes, ms, i) is Ok,
    decreases indexes.len() - i,
{
    if i < indexes.len() {
        assert(indexes[i] < ms.len());
        lemma_approvals_accepted(indexes, ms, i + 1);
    }
}

proof fn lemma_updates_accepted(updates: Seq<MilestoneUpdateView>, len: nat, i: int)
    requires
        0 <= i,
        forall|j: int|
            i <= j < updates.len() ==> (#[trigger] updates[j]).index < len
                && updates[j].status.len() > 0,
    ensures
        status_updates_from(updates, len, i) is Ok,
    decreases updates.len() - i,
{
    if i < updates.len() {
        assert(updates[i].index < len);
        lemma_updates_accepted(updates, len, i + 1);
    }
}

/// The approver may approve a batch of milestones exactly when the escrow
/// has milestones and every index names an existing milestone that is not
/// yet approved and has a status; each is checked against the escrow as
/// stored.
pub proof fn approval_accepts_exactly_pending_milestones(
    e: EscrowView,
    indexes: Seq<u32>,
    approver: Seq<u8>,
)
    ensures
        approval_outcome(e, indexes, approver) is Ok <==> {
            &&& approver == e.roles.approver
            &&& e.milestones.len() > 0
            &&& forall|j: int|
                0 <= j < indexes.len() ==> {
                    &&& (#[trigger] indexes[j]) < e.milestones.len()
                    &&& !e.milestones[indexes[j] as int].flags.approved
                    &&& e.milestones[indexes[j] as int].status.len() > 0
                }
        },
{
    if approval_outcome(e, indexes, approver) is Ok {
        lemma_accepted_approvals(indexes, e.milestones, 0);
    }
    if forall|j: int|
        0 <= j < indexes.len() ==> {
            &&& (#[trigger] indexes[j]) < e.milestones.len()
            &&& !e.milestones[indexes[j] as int].flags.approved
            &&& e.milestones[indexes[j] as int].status.len() > 0
        } {
        lemma_approvals_accepted(indexes, e.milestones, 0);
    }
}

/// The service provider may apply a batch of status updates exactly when
/// the escrow has milestones and every update names an existing milestone
/// and carries a non-empty status.
pub proof fn status_change_accepts_exactly_valid_updates(
    e: EscrowView,
    updates: Seq<MilestoneUpdateView>,
    service_provider: Seq<u8>,
)
    ensures
        status_change_outcome(e, updates, service_provider) is Ok <==> {
            &&& service_provider == e.roles.service_provider
            &&& e.milestones.len() > 0
            &&& forall|j: int|
                0 <= j < updates.len() ==> (#[trigger] updates[j]).index < e.milestones.len()
                    && updates[j].status.len() > 0
        },
{
    if status_change_outcome(e, updates, service_provider) is Ok {
        lemma_accepted_updates(updates, e.milestones.len(), 0);
    }
    if forall|j: int|
        0 <= j < updates.len() ==> (#[trigger] updates[j]).index < e.milestones.len()
            && updates[j].status.len() > 0 {
        lemma_updates_accepted(updates, e.milestones.len(), 0);
    }
}

/// Resolving a dispute succeeds only for the dispute resolver, on an
/// existing milestone in dispute that is neither released nor resolved,
/// with at most fifty positive amounts whose total is positive, at most
/// the milestone's amount and at most what the contract holds.
pub proof fn resolution_needs_a_covered_dispute(
    e: EscrowView,
    resolver: Seq<u8>,
    index: int,
    trustless_work: Seq<u8>,
    d: Seq<(Seq<u8>, i128)>,
    balance: int,
)
    requires
        resolve_outcome(e, resolver, index, trustless_work, d, balance) is Ok,
    ensures
        resolver == e.roles.dispute_resolver,
        0 <= index < e.milestones.len(),
        e.milestones[index].flags.disputed,
        !e.milestones[index].flags.released,
        !e.milestones[index].flags.resolved,
        d.len() <= 50,
        forall|i: int| 0 <= i < d.len() ==> #[trigger] d[i].1 > 0,
        0 < amounts_sum(d, d.len() as int) <= e.milestones[index].amount,
        amounts_sum(d, d.len() as int) <= balance,
{
    lemma_total_is_sum(d, d.len() as int);
}

/// The funds left in an escrow are paid out only at the request of the
/// dispute resolver, once every milestone is released or resolved, with at
/// most fifty positive amounts whose total is positive and at most what the
/// contract holds; the escrow is left as it was. When the fee arithmetic
/// stays in range, these conditions are also enough.
pub proof fn withdrawal_needs_every_milestone_settled(
    e: EscrowView,
    resolver: Seq<u8>,
    trustless_work: Seq<u8>,
    d: Seq<(Seq<u8>, i128)>,
    balance: int,
)
    ensures
        withdraw_outcome(e, resolver, trustless_work, d, balance) is Ok ==> {
            &&& resolver == e.roles.dispute_resolver
            &&& forall|i: int|
                0 <= i < e.milestones.len() ==> #[trigger] e.milestones[i].flags.released
                    || e.milestones[i].flags.resolved
            &&& d.len() <= 50
            &&& forall|i: int| 0 <= i < d.len() ==> #[trigger] d[i].1 > 0
            &&& 0 < amounts_sum(d, d.len() as int) <= balance
            &&& withdraw_outcome(e, resolver, trustless_work, d, balance) matches Ok((after, _))
                && after == e
        },
        ({
            &&& resolver == e.roles.dispute_resolver
            &&& forall|i: int|
                0 <= i < e.milestones.len() ==> #[trigger] e.milestones[i].flags.released
                    || e.milestones[i].flags.resolved
            &&& d.len() <= 50
            &&& forall|i: int| 0 <= i < d.len() ==> #[trigger] d[i].1 > 0
            &&& 0 < amounts_sum(d, d.len() as int) <= balance
            &&& e.platform_fee <= 9900
            &&& amounts_sum(d, d.len() as int) * 10000 <= i128::MAX
            &&& amounts_sum(d, d.len() as int) * amounts_sum(d, d.len() as int) <= i128::MAX
        }) ==> ({
            let t = amounts_sum(d, d.len() as int);
            let tw = (t * 30) / 10000;
            let pf = (t * e.platform_fee) / 10000;
            withdraw_outcome(e, resolver, trustless_work, d, balance) == Ok::<
                (EscrowView, Seq<PaymentView>),
                ContractError,
            >(
                (
                    e,
                    payment_if_positive(trustless_work, tw) + payment_if_positive(
                        e.roles.platform,
                        pf,
                    ) + Seq::new(
                        d.len(),
                        |i: int| PaymentView { to: d[i].0, amount: (d[i].1 - (d[i].1 * (tw + pf)) / t) as i128 },
                    ),
                ),
            )
        }),
{
    let n = d.len() as int;
    let t = amounts_sum(d, n);
    if withdraw_outcome(e, resolver, trustless_work, d, balance) is Ok {
        lemma_total_is_sum(d, n);
    }
    if resolver == e.roles.dispute_resolver && (forall|i: int|
        0 <= i < e.milestones.len() ==> #[trigger] e.milestones[i].flags.released
            || e.milestones[i].flags.resolved) && d.len() <= 50 && (forall|i: int|
        0 <= i < d.len() ==> #[trigger] d[i].1 > 0) && 0 < t <= balance && e.platform_fee <= 9900
        && t * 10000 <= i128::MAX && t * t <= i128::MAX {
        lemma_positive_amounts_sum(d, n);
        let bps = e.platform_fee as int;
        assert(t * 30 <= t * 10000 && t * bps <= t * 10000 && t * 30 >= 0 && t * bps >= 0)
            by (nonlinear_arith)
            requires
                t > 0,
                0 <= bps <= 9900,
        ;
        lemma_fees_below_total(t, bps);
        let (tw, pf, fees) = total_fees_outcome(t, bps)->Ok_0;
            lemma_payouts_exact(d, fees as int, t, n);
    }
}

/// The platform's update of an escrow is accepted exactly when: the new
/// escrow has a platform fee of at most 99%, between one and fifty
/// milestones, each for a positive amount; the caller and the new platform
/// are the stored platform; every stored milestone that the new escrow
/// still has keeps its flags, and every added milestone has all its flags
/// down; and, while the contract holds funds, the terms and the five
/// parties are unchanged and every stored milestone stays in its place
/// unchanged.
pub proof fn update_accepts_exactly_the_allowed_changes(
    old: EscrowView,
    new: EscrowView,
    caller: Seq<u8>,
    balance: int,
)
    ensures
        escrow_conditions_outcome(Some(old), new, Some(caller), Some(balance), false) is Ok <==> {
            &&& new.platform_fee <= 9900
            &&& 1 <= new.milestones.len() <= 50
            &&& forall|i: int| 0 <= i < new.milestones.len() ==> #[trigger] new.milestones[i].amount > 0
            &&& caller == old.roles.platform
            &&& new.roles.platform == old.roles.platform
            &&& forall|i: int|
                0 <= i < old.milestones.len() && i < new.milestones.len() ==> (
                #[trigger] new.milestones[i]).flags == old.milestones[i].flags
            &&& forall|i: int|
                old.milestones.len() <= i < new.milestones.len() ==> {
                    &&& !(#[trigger] new.milestones[i]).flags.approved
                    &&& !new.milestones[i].flags.disputed
                    &&& !new.milestones[i].flags.released
                    &&& !new.milestones[i].flags.resolved
                }
            &&& balance > 0 ==> {
                &&& new.engagement_id == old.engagement_id
                &&& new.title == old.title
                &&& new.description == old.description
                &&& new.roles.approver == old.roles.approver
                &&& new.roles.service_provider == old.roles.service_provider
                &&& new.roles.release_signer == old.roles.release_signer
                &&& new.roles.dispute_resolver == old.roles.dispute_resolver
                &&& new.platform_fee == old.platform_fee
                &&& new.trustline == old.trustline
                &&& new.receiver_memo == old.receiver_memo
                &&& new.milestones.len() >= old.milestones.len()
                &&& forall|i: int|
                    0 <= i < old.milestones.len() ==> #[trigger] new.milestones[i]
                        == old.milestones[i]
            }
        },
{
    let om = old.milestones;
    let nm = new.milestones;
    if escrow_conditions_outcome(Some(old), new, Some(caller), Some(balance), false) is Ok {
        assert forall|i: int| 0 <= i < nm.len() implies #[trigger] nm[i].amount > 0 by {
            if nm[i].amount <= 0 {
                assert(has_nonpositive_amount(nm));
            }
        }
        assert forall|i: int| 0 <= i < om.len() && i < nm.len() implies (
        #[trigger] nm[i]).flags == om[i].flags by {
            if nm[i].flags != om[i].flags {
                assert(flags_differ(om, nm));
            }
        }
        assert forall|i: int| om.len() <= i < nm.len() implies !(#[trigger] nm[i]).flags.any() by {
            if nm[i].flags.any() {
                assert(has_raised_flags(nm, om.len() as int, nm.len() as int));
            }
        }
        if balance > 0 {
            funded_update_keeps_the_terms(old, new, caller, balance);
        }
    }
    if {
        &&& new.platform_fee <= 9900
        &&& 1 <= nm.len() <= 50
        &&& forall|i: int| 0 <= i < nm.len() ==> #[trigger] nm[i].amount > 0
        &&& caller == old.roles.platform
        &&& new.roles.platform == old.roles.platform
        &&& forall|i: int|
            0 <= i < om.len() && i < nm.len() ==> (#[trigger] nm[i]).flags == om[i].flags
        &&& forall|i: int|
            om.len() <= i < nm.len() ==> {
                &&& !(#[trigger] nm[i]).flags.approved
                &&& !nm[i].flags.disputed
                &&& !nm[i].flags.released
                &&& !nm[i].flags.resolved
            }
        &&& balance > 0 ==> {
            &&& new.engagement_id == old.engagement_id
            &&& new.title == old.title
            &&& new.description == old.description
            &&& new.roles.approver == old.roles.approver
            &&& new.roles.service_provider == old.roles.service_provider
            &&& new.roles.release_signer == old.roles.release_signer
            &&& new.roles.dispute_resolver == old.roles.dispute_resolver
            &&& new.platform_fee == old.platform_fee
            &&& new.trustline == old.trustline
            &&& new.receiver_memo == old.receiver_memo
            &&& nm.len() >= om.len()
            &&& forall|i: int| 0 <= i < om.len() ==> #[trigger] nm[i] == om[i]
        }
    } {
        assert(!has_nonpositive_amount(nm));
        assert(!flags_differ(om, nm));
        assert forall|i: int| om.len() <= i < nm.len() implies !(#[trigger] nm[i]).flags.any() by {
            assert(!nm[i].flags.approved);
        }
        assert(!has_raised_flags(nm, om.len() as int, nm.len() as int));
        if balance > 0 {
            assert(!milestones_changed(om, nm));
        }
    }
}

/// Funds are released only at the request of the release signer, for an
/// existing milestone that is approved and neither released, resolved nor
/// disputed, when the contract holds at least the milestone's amount.
pub proof fn release_needs_an_approved_pending_milestone(
    e: EscrowView,
    signer: Seq<u8>,
    trustless_work: Seq<u8>,
    index: int,
    balance: int,
)
    requires
        release_outcome(e, signer, trustless_work, index, balance) is Ok,
    ensures
        0 <= index < e.milestones.len(),
        signer == e.roles.release_signer,
        e.milestones[index].flags.approved,
        !e.milestones[index].flags.released,
        !e.milestones[index].flags.resolved,
        !e.milestones[index].flags.disputed,
        balance >= e.milestones[index].amount,
{
}

/// The fees on a non-negative total, with a platform fee of at most 99%,
/// are 0.3% of it for Trustless Work and the platform's basis points of it
/// for the platform, each rounded down, and their sum.
pub proof fn fees_are_rounded_down_shares_of_the_total(total: int, bps: int)
    requires
        0 <= total,
        total * 10000 <= i128::MAX,
        0 <= bps <= 9900,
    ensures
        total_fees_outcome(total, bps) == Ok::<(i128, i128, i128), ContractError>(
            (
                ((total * 30) / 10000) as i128,
                ((total * bps) / 10000) as i128,
                ((total * 30) / 10000 + (total * bps) / 10000) as i128,
            ),
        ),
        (total * 30) / 10000 + (total * bps) / 10000 <= total,
{
    if total > 0 {
        lemma_fees_below_total(total, bps);
    }
}

/// A part of a positive total bears its proportional share of the fees on
/// the total, rounded down, and keeps the rest; the two fees on the total
/// come with it.
pub proof fn net_share_bears_its_part_of_the_fees(total: int, share: int, bps: int)
    requires
        0 < share <= total,
        total * 10000 <= i128::MAX,
        total * total <= i128::MAX,
        0 <= bps <= 9900,
    ensures
        ({
            let tw = (total * 30) / 10000;
            let pf = (total * bps) / 10000;
            net_share_outcome(total, share, bps) == Ok::<(i128, i128, i128), ContractError>(
                ((share - (share * (tw + pf)) / total) as i128, tw as i128, pf as i128),
            )
        }),
{
    lemma_fees_below_total(total, bps);
    let f = (total * 30) / 10000 + (total * bps) / 10000;
    let p = share * f;
    assert(0 <= p <= total * total && p < share * total) by (nonlinear_arith)
        requires
            0 < share <= total,
            0 <= f < total,
            p == share * f,
    ;
    let q = p / total;
    assert(0 <= q < share) by (nonlinear_arith)
        requires
            0 <= p < share * total,
            total > 0,
            q == p / total,
    ;
    assert(trunc_div(p, total) == q);
}

/// Whether some index of the first `k` of a batch names milestone `m`.
pub open spec fn names_milestone(indexes: Seq<u32>, k: int, m: int) -> bool {
    exists|j: int| 0 <= j < k && #[trigger] indexes[j] == m
}

proof fn lemma_approvals_effect(e: EscrowView, indexes: Seq<u32>, k: int)
    requires
        0 <= k <= indexes.len(),
        forall|j: int| 0 <= j < k ==> #[trigger] indexes[j] < e.milestones.len(),
    ensures
        apply_approvals(e, indexes, k).milestones.len() == e.milestones.len(),
        forall|m: int|
            0 <= m < e.milestones.len() ==> #[trigger] apply_approvals(e, indexes, k).milestones[m]
                == (MilestoneView {
                flags: (Flags {
                    approved: e.milestones[m].flags.approved || names_milestone(indexes, k, m),
                    ..e.milestones[m].flags
                }),
                ..e.milestones[m]
            }),
        apply_approvals(e, indexes, k).roles == e.roles,
        apply_approvals(e, indexes, k).platform_fee == e.platform_fee,
        apply_approvals(e, indexes, k).engagement_id == e.engagement_id,
        apply_approvals(e, indexes, k).title == e.title,
        apply_approvals(e, indexes, k).description == e.description,
        apply_approvals(e, indexes, k).trustline == e.trustline,
        apply_approvals(e, indexes, k).receiver_memo == e.receiver_memo,
    decreases k,
{
    if k > 0 {
        lemma_approvals_effect(e, indexes, k - 1);
        let before = apply_approvals(e, indexes, k - 1);
        let after = apply_approvals(e, indexes, k);
        assert forall|m: int| 0 <= m < e.milestones.len() implies #[trigger] after.milestones[m]
            == MilestoneView {
            flags: Flags {
                approved: e.milestones[m].flags.approved || names_milestone(indexes, k, m),
                ..e.milestones[m].flags
            },
            ..e.milestones[m]
        } by {
            assert(before.milestones[m] == MilestoneView {
                flags: Flags {
                    approved: e.milestones[m].flags.approved || names_milestone(indexes, k - 1, m),
                    ..e.milestones[m].flags
                },
                ..e.milestones[m]
            });
            if indexes[k - 1] == m {
                assert(names_milestone(indexes, k, m));
            } else {
                if names_milestone(indexes, k, m) {
                    let j = choose|j: int| 0 <= j < k && #[trigger] indexes[j] == m;
                    assert(j < k - 1);
                    assert(names_milestone(indexes, k - 1, m));
                }
                if names_milestone(indexes, k - 1, m) {
                    let j = choose|j: int| 0 <= j < k - 1 && #[trigger] indexes[j] == m;
                    assert(names_milestone(indexes, k, m));
                }
            }
        }
    }
}

/// An accepted batch of approvals raises the approval flag of exactly the
/// milestones it names and changes nothing else: no status, evidence,
/// amount, receiver or other flag, and none of the terms.
pub proof fn approval_raises_only_the_named_approval_flags(
    e: EscrowView,
    indexes: Seq<u32>,
    approver: Seq<u8>,
)
    requires
        approval_outcome(e, indexes, approver) is Ok,
    ensures
        ({
            let after = apply_approvals(e, indexes, indexes.len() as int);
            &&& after.milestones.len() == e.milestones.len()
            &&& forall|m: int|
                0 <= m < e.milestones.len() ==> #[trigger] after.milestones[m] == (MilestoneView {
                    flags: (Flags {
                        approved: e.milestones[m].flags.approved || names_milestone(
                            indexes,
                            indexes.len() as int,
                            m,
                        ),
                        ..e.milestones[m].flags
                    }),
                    ..e.milestones[m]
                })
            &&& after.roles == e.roles
            &&& after.platform_fee == e.platform_fee
            &&& after.engagement_id == e.engagement_id
            &&& after.title == e.title
            &&& after.description == e.description
            &&& after.trustline == e.trustline
            &&& after.receiver_memo == e.receiver_memo
        }),
{
    lemma_accepted_approvals(indexes, e.milestones, 0);
    lemma_approvals_effect(e, indexes, indexes.len() as int);
}

/// Whether no update after position `j`, among the first `k`, names the
/// milestone that update `j` names.
pub open spec fn last_update_of_its_milestone(updates: Seq<MilestoneUpdateView>, k: int, j: int) -> bool {
    forall|i: int| j < i < k ==> #[trigger] updates[i].index != updates[j].index
}

/// Whether some update among the first `k` names milestone `m`.
pub open spec fn updates_milestone(updates: Seq<MilestoneUpdateView>, k: int, m: int) -> bool {
    exists|j: int| 0 <= j < k && #[trigger] updates[j].index == m
}

proof fn lemma_status_updates_effect(e: EscrowView, updates: Seq<MilestoneUpdateView>, k: int)
    requires
        0 <= k <= updates.len(),
        forall|j: int| 0 <= j < k ==> (#[trigger] updates[j]).index < e.milestones.len(),
    ensures
        ({
            let after = apply_status_updates(e, updates, k);
            &&& after.milestones.len() == e.milestones.len()
            &&& forall|m: int|
                0 <= m < e.milestones.len() && !updates_milestone(updates, k, m)
                    ==> #[trigger] after.milestones[m] == e.milestones[m]
            &&& forall|m: int|
                0 <= m < e.milestones.len() ==> {
                    &&& (#[trigger] after.milestones[m]).amount == e.milestones[m].amount
                    &&& after.milestones[m].description == e.milestones[m].description
                    &&& after.milestones[m].receiver == e.milestones[m].receiver
                    &&& after.milestones[m].flags == e.milestones[m].flags
                }
            &&& forall|j: int|
                0 <= j < k && last_update_of_its_milestone(updates, k, j) ==> {
                    &&& after.milestones[(#[trigger] updates[j]).index as int].status
                        == updates[j].status
                    &&& (updates[j].evidence matches Some(ev) ==> after.milestones[updates[j].index as int].evidence == ev)
                }
            &&& after.roles == e.roles
            &&& after.platform_fee == e.platform_fee
            &&& after.engagement_id == e.engagement_id
            &&& after.title == e.title
            &&& after.description == e.description
            &&& after.trustline == e.trustline
            &&& after.receiver_memo == e.receiver_memo
        }),
    decreases k,
{
    if k > 0 {
        lemma_status_updates_effect(e, updates, k - 1);
        let before = apply_status_updates(e, updates, k - 1);
        let after = apply_status_updates(e, updates, k);
        let u = updates[k - 1];
        assert(u.index < e.milestones.len());
        assert forall|m: int|
            0 <= m < e.milestones.len() && !updates_milestone(updates, k, m) implies #[trigger] after.milestones[m]
                == e.milestones[m] by {
            if updates_milestone(updates, k - 1, m) {
                let j = choose|j: int| 0 <= j < k - 1 && #[trigger] updates[j].index == m;
                assert(updates_milestone(updates, k, m));
            }
            if u.index == m {
                assert(updates_milestone(updates, k, m));
            }
        }
        assert forall|m: int| 0 <= m < e.milestones.len() implies {
            &&& (#[trigger] after.milestones[m]).amount == e.milestones[m].amount
            &&& after.milestones[m].description == e.milestones[m].description
            &&& after.milestones[m].receiver == e.milestones[m].receiver
            &&& after.milestones[m].flags == e.milestones[m].flags
        } by {
            assert(before.milestones[m].amount == e.milestones[m].amount);
        }
        assert forall|j: int| 0 <= j < k && last_update_of_its_milestone(updates, k, j) implies {
            &&& after.milestones[(#[trigger] updates[j]).index as int].status == updates[j].status
            &&& (updates[j].evidence matches Some(ev) ==> after.milestones[updates[j].index as int].evidence == ev)
        } by {
            if j < k - 1 {
                assert(updates[k - 1].index != updates[j].index);
                assert(last_update_of_its_milestone(updates, k - 1, j));
                assert(before.milestones[updates[j].index as int].status == updates[j].status);
            }
        }
    }
}

/// An accepted batch of status updates sets the status of each milestone
/// it names to that of the last update naming it, and its evidence to
/// that update's evidence when it carries one; milestones not named are
/// left as they were, and no amount, description, receiver, flag or term
/// changes.
pub proof fn status_updates_change_only_status_and_evidence(
    e: EscrowView,
    updates: Seq<MilestoneUpdateView>,
    service_provider: Seq<u8>,
)
    requires
        status_change_outcome(e, updates, service_provider) is Ok,
    ensures
        ({
            let k = updates.len() as int;
            let after = apply_status_updates(e, updates, k);
            &&& after.milestones.len() == e.milestones.len()
            &&& forall|m: int|
                0 <= m < e.milestones.len() && !updates_milestone(updates, k, m)
                    ==> #[trigger] after.milestones[m] == e.milestones[m]
            &&& forall|m: int|
                0 <= m < e.milestones.len() ==> {
                    &&& (#[trigger] after.milestones[m]).amount == e.milestones[m].amount
                    &&& after.milestones[m].description == e.milestones[m].description
                    &&& after.milestones[m].receiver == e.milestones[m].receiver
                    &&& after.milestones[m].flags == e.milestones[m].flags
                }
            &&& forall|j: int|
                0 <= j < k && last_update_of_its_milestone(updates, k, j) ==> {
                    &&& after.milestones[(#[trigger] updates[j]).index as int].status
                        == updates[j].status
                    &&& (updates[j].evidence matches Some(ev) ==> after.milestones[updates[j].index as int].evidence == ev)
                }
            &&& after.roles == e.roles
            &&& after.platform_fee == e.platform_fee
            &&& after.engagement_id == e.engagement_id
            &&& after.title == e.title
            &&& after.description == e.description
            &&& after.trustline == e.trustline
            &&& after.receiver_memo == e.receiver_memo
        }),
{
    lemma_accepted_updates(updates, e.milestones.len(), 0);
    lemma_status_updates_effect(e, updates, updates.len() as int);
}

} // verus!
