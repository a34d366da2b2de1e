use vstd::prelude::*;

use crate::error::ContractError;
use crate::escrow_core::dispute::{
    amounts_sum, distribution_payouts, distribution_total, fees_and_payouts, lemma_total_is_sum,
    resolve_outcome, withdraw_outcome,
};
use crate::escrow_core::escrow::{payment_if_positive, release_outcome};
use crate::escrow_core::lifecycle::escrow_invariant;
use crate::modules::fee::calculator::{net_share_outcome, total_fees_outcome};
use crate::modules::math::basic::{in_i128, trunc_div};
use crate::storage::types::{EscrowView, PaymentView};

verus! {

/// The sum of the amounts of a list of payments.
pub open spec fn total_paid(ps: Seq<PaymentView>) -> int
    decreases ps.len(),
{
    if ps.len() == 0 {
        0
    } else {
        total_paid(ps.drop_last()) + ps.last().amount
    }
}

proof fn lemma_total_paid_concat(a: Seq<PaymentView>, b: Seq<PaymentView>)
    ensures
        total_paid(a + b) == total_paid(a) + total_paid(b),
    decreases b.len(),
{
    if b.len() == 0 {
        assert(a + b =~= a);
    } else {
        lemma_total_paid_concat(a, b.drop_last());
        assert((a + b).drop_last() =~= a + b.drop_last());
    }
}

proof fn lemma_paid_if_positive(to: Seq<u8>, x: int)
    requires
        in_i128(x),
    ensures
        total_paid(payment_if_positive(to, x)) == if x > 0 {
            x
        } else {
            0
        },
{
    let s = payment_if_positive(to, x);
    assert(total_paid(Seq::<PaymentView>::empty()) == 0);
    if x > 0 {
        assert(s.drop_last() =~= Seq::<PaymentView>::empty());
        assert(s.last().amount == x);
        assert(total_paid(s) == total_paid(s.drop_last()) + s.last().amount);
    } else {
        assert(s =~= Seq::<PaymentView>::empty());
    }
}

pub proof fn lemma_fee_bounds(total: int, bps: int)
    requires
        total > 0,
        0 <= bps <= 9970,
        total_fees_outcome(total, bps) is Ok,
    ensures
        total_fees_outcome(total, bps) matches Ok((tw, pf, fees)) && tw >= 0 && pf >= 0 && fees
            == tw + pf && fees <= total,
{
    let a = total * 30;
    let b = total * bps;
    assert(a >= 0 && b >= 0) by (nonlinear_arith)
        requires
            total > 0,
            bps >= 0,
            a == total * 30,
            b == total * bps,
    ;
    let tw = a / 10000;
    let pf = b / 10000;
    assert(tw * 10000 <= a && pf * 10000 <= b) by (nonlinear_arith)
        requires
            a >= 0,
            b >= 0,
            tw == a / 10000,
            pf == b / 10000,
    ;
    assert(a + b <= total * 10000) by (nonlinear_arith)
        requires
            a == total * 30,
            b == total * bps,
            bps <= 9970,
            total > 0,
    ;
    assert(tw >= 0 && pf >= 0);
}

/// The sum of the fee shares borne by the first `k` entries of a
/// distribution, each `amount * fees / total` rounded down.
pub open spec fn fee_shares(d: Seq<(Seq<u8>, i128)>, fees: int, total: int, k: int) -> int
    decreases k,
{
    if k <= 0 {
        0
    } else {
        fee_shares(d, fees, total, k - 1) + (d[k - 1].1 * fees) / total
    }
}

proof fn lemma_payouts_sum(d: Seq<(Seq<u8>, i128)>, fees: int, total: int, k: int)
    requires
        0 <= k <= d.len(),
        0 <= fees <= total,
        forall|i: int| 0 <= i < k ==> #[trigger] d[i].1 > 0,
        distribution_payouts(d, fees, total, k) is Ok,
    ensures
        distribution_payouts(d, fees, total, k) matches Ok(ps) && total_paid(ps) == amounts_sum(
            d,
            k,
        ) - fee_shares(d, fees, total, k),
        total * fee_shares(d, fees, total, k) <= amounts_sum(d, k) * fees,
        total * fee_shares(d, fees, total, k) + k * (total - 1) >= amounts_sum(d, k) * fees,
    decreases k,
{
    if k == 0 {
        assert(total_paid(Seq::<PaymentView>::empty()) == 0);
    } else {
        lemma_payouts_sum(d, fees, total, k - 1);
        let prev = distribution_payouts(d, fees, total, k - 1)->Ok_0;
        let a = d[k - 1].1 as int;
        assert(a > 0);
        let p = a * fees;
        assert(p >= 0 && p <= a * total) by (nonlinear_arith)
            requires
                a > 0,
                0 <= fees <= total,
                p == a * fees,
        ;
        assert(total > 0) by {
            if total == 0 {
                assert(distribution_payouts(d, fees, total, k) is Err);
            }
        }
        let q = p / total;
        assert(trunc_div(p, total) == q);
        assert(q * total <= p && q * total + (total - 1) >= p && q <= a) by (nonlinear_arith)
            requires
                p >= 0,
                total > 0,
                q == p / total,
                p <= a * total,
        ;
        let net = a - q;
        let step = payment_if_positive(d[k - 1].0, net);
        assert(distribution_payouts(d, fees, total, k) == Ok::<Seq<PaymentView>, ContractError>(
            prev + step,
        ));
        lemma_total_paid_concat(prev, step);
        lemma_paid_if_positive(d[k - 1].0, net);
        let s0 = fee_shares(d, fees, total, k - 1);
        let m0 = amounts_sum(d, k - 1);
        assert(total * (s0 + q) <= (m0 + a) * fees && total * (s0 + q) + k * (total - 1) >= (m0
            + a) * fees) by (nonlinear_arith)
            requires
                total * s0 <= m0 * fees,
                total * s0 + (k - 1) * (total - 1) >= m0 * fees,
                q * total <= a * fees,
                q * total + (total - 1) >= a * fees,
        ;
    }
}

/// The fees and the net payments of a distribution of `total`, with a
/// platform fee of at most 99.7%, add up to at least `total` and exceed it
/// by less than the number of entries: each entry's fee share is rounded
/// down, by less than one unit.
proof fn lemma_fees_and_payouts_bounds(
    e: EscrowView,
    trustless_work: Seq<u8>,
    d: Seq<(Seq<u8>, i128)>,
    total: int,
)
    requires
        e.platform_fee <= 9970,
        total > 0,
        distribution_total(d, d.len() as int) matches Ok(t) && t == total,
        fees_and_payouts(e, trustless_work, d, total) is Ok,
    ensures
        fees_and_payouts(e, trustless_work, d, total) matches Ok(ps) && total <= total_paid(ps)
            && total_paid(ps) < total + d.len(),
{
    lemma_total_is_sum(d, d.len() as int);
    lemma_fee_bounds(total, e.platform_fee as int);
    let (tw, pf, fees) = total_fees_outcome(total, e.platform_fee as int)->Ok_0;
    let n = d.len() as int;
    lemma_payouts_sum(d, fees as int, total, n);
    let ps = distribution_payouts(d, fees as int, total, n)->Ok_0;
    let head = payment_if_positive(trustless_work, tw as int) + payment_if_positive(
        e.roles.platform,
        pf as int,
    );
    lemma_total_paid_concat(
        payment_if_positive(trustless_work, tw as int),
        payment_if_positive(e.roles.platform, pf as int),
    );
    lemma_paid_if_positive(trustless_work, tw as int);
    lemma_paid_if_positive(e.roles.platform, pf as int);
    lemma_total_paid_concat(head, ps);
    let s = fee_shares(d, fees as int, total, n);
    let f = fees as int;
    assert(n >= 1) by {
        if n == 0 {
            assert(amounts_sum(d, 0) == 0);
        }
    }
    assert(s <= f) by (nonlinear_arith)
        requires
            total > 0,
            total * s <= total * f,
    ;
    assert(s > f - n) by (nonlinear_arith)
        requires
            total > 0,
            total * s + n * (total - 1) >= total * f,
            n >= 1,
    ;
}

/// Releasing a milestone of an escrow that satisfies the invariant pays
/// out exactly the milestone's amount, split between the Trustless Work
/// fee, the platform fee and the receiver, and no more than the contract
/// holds.
pub proof fn release_pays_exactly_the_milestone_amount(
    e: EscrowView,
    signer: Seq<u8>,
    trustless_work: Seq<u8>,
    index: int,
    balance: int,
    after: EscrowView,
    payments: Seq<PaymentView>,
)
    requires
        escrow_invariant(e),
        release_outcome(e, signer, trustless_work, index, balance) == Ok::<
            (EscrowView, Seq<PaymentView>),
            ContractError,
        >((after, payments)),
    ensures
        total_paid(payments) == e.milestones[index].amount,
        total_paid(payments) <= balance,
{
    let m = e.milestones[index];
    let a = m.amount as int;
    assert(a > 0) by {
        if a <= 0 {
            assert(crate::escrow_core::validators::escrow::has_nonpositive_amount(e.milestones));
        }
    }
    lemma_fee_bounds(a, e.platform_fee as int);
    let (tw, pf, fees) = total_fees_outcome(a, e.platform_fee as int)->Ok_0;
    let f = fees as int;
    let p = a * f;
    assert(p / a == f && p >= 0) by (nonlinear_arith)
        requires
            a > 0,
            f >= 0,
            p == a * f,
    ;
    assert(trunc_div(p, a) == f);
    let (net, tw2, pf2) = net_share_outcome(a, a, e.platform_fee as int)->Ok_0;
    assert(net == a - f);
    let s1 = payment_if_positive(trustless_work, tw as int);
    let s2 = payment_if_positive(e.roles.platform, pf as int);
    let s3 = payment_if_positive(m.receiver, net as int);
    assert(payments == s1 + s2 + s3);
    lemma_total_paid_concat(s1, s2);
    lemma_total_paid_concat(s1 + s2, s3);
    lemma_paid_if_positive(trustless_work, tw as int);
    lemma_paid_if_positive(e.roles.platform, pf as int);
    lemma_paid_if_positive(m.receiver, net as int);
}

/// Paying out the funds left in an escrow that satisfies the invariant
/// sends at least the distribution's total, and exceeds it by less than
/// the number of recipients: each recipient's fee share is rounded down.
pub proof fn withdraw_pays_the_distribution_total(
    e: EscrowView,
    resolver: Seq<u8>,
    trustless_work: Seq<u8>,
    d: Seq<(Seq<u8>, i128)>,
    balance: int,
    after: EscrowView,
    payments: Seq<PaymentView>,
)
    requires
        escrow_invariant(e),
        withdraw_outcome(e, resolver, trustless_work, d, balance) == Ok::<
            (EscrowView, Seq<PaymentView>),
            ContractError,
        >((after, payments)),
    ensures
        distribution_total(d, d.len() as int) matches Ok(total) && total <= balance && total
            <= total_paid(payments) && total_paid(payments) < total + d.len(),
{
    let total = distribution_total(d, d.len() as int)->Ok_0;
    lemma_fees_and_payouts_bounds(e, trustless_work, d, total as int);
}

/// Resolving a dispute on a milestone of an escrow that satisfies the
/// invariant sends at least the distribution's total, which is at most the
/// milestone's amount and the contract's balance, and exceeds it by less
/// than the number of recipients.
pub proof fn resolve_pays_the_distribution_total(
    e: EscrowView,
    resolver: Seq<u8>,
    index: int,
    trustless_work: Seq<u8>,
    d: Seq<(Seq<u8>, i128)>,
    balance: int,
    after: EscrowView,
    payments: Seq<PaymentView>,
)
    requires
        escrow_invariant(e),
        resolve_outcome(e, resolver, index, trustless_work, d, balance) == Ok::<
            (EscrowView, Seq<PaymentView>),
            ContractError,
        >((after, payments)),
    ensures
        distribution_total(d, d.len() as int) matches Ok(total) && total <= balance && total
            <= e.milestones[index].amount && total <= total_paid(payments) && total_paid(payments)
            < total + d.len(),
{
    let total = distribution_total(d, d.len() as int)->Ok_0;
    lemma_fees_and_payouts_bounds(e, trustless_work, d, total as int);
}

} // verus!
