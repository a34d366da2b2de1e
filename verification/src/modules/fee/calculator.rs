use vstd::prelude::*;

use crate::error::ContractError;
use crate::modules::math::basic::{in_i128, trunc_div, BasicArithmetic, BasicMath};

verus! {

/// The share of every paid-out amount that goes to Trustless Work, in basis
/// points.
pub const TRUSTLESS_WORK_FEE_BPS: u32 = 30;

/// The number of basis points in the whole.
pub const BASIS_POINTS: i128 = 10000;

/// The fees charged on `total`, as `(trustless_work_fee, platform_fee,
/// trustless_work_fee + platform_fee)`: each fee is `total * bps / 10000`
/// rounded toward zero; an intermediate product out of range overflows.
pub open spec fn total_fees_outcome(total: int, platform_bps: int) -> Result<
    (i128, i128, i128),
    ContractError,
> {
    if !in_i128(total * 30) || !in_i128(total * platform_bps) {
        Err(ContractError::Overflow)
    } else {
        let tw = trunc_div(total * 30, 10000);
        let pf = trunc_div(total * platform_bps, 10000);
        Ok((tw as i128, pf as i128, (tw + pf) as i128))
    }
}

/// The part of the fees on `total` that falls on `share`: the fees times
/// `share / total`, rounded toward zero.
pub open spec fn fee_share(share: int, fees: int, total: int) -> int {
    trunc_div(share * fees, total)
}

/// The outcome of charging `share`, a part of `total`, its proportional part
/// of the fees on `total`: `(net, trustless_work_fee, platform_fee)`.
pub open spec fn net_share_outcome(total: int, share: int, platform_bps: int) -> Result<
    (i128, i128, i128),
    ContractError,
> {
    match total_fees_outcome(total, platform_bps) {
        Err(e) => Err(e),
        Ok((tw, pf, fees)) => {
            if !in_i128(share * fees) {
                Err(ContractError::Overflow)
            } else if total == 0 {
                Err(ContractError::DivisionError)
            } else if !in_i128(fee_share(share, fees as int, total)) {
                Err(ContractError::Overflow)
            } else if !in_i128(share - fee_share(share, fees as int, total)) {
                Err(ContractError::Underflow)
            } else {
                Ok(((share - fee_share(share, fees as int, total)) as i128, tw, pf))
            }
        },
    }
}

proof fn lemma_bps_fee_bounds(total: int, bps: int)
    requires
        in_i128(total),
        0 <= bps <= 0xffff_ffff,
        in_i128(total * bps),
    ensures
        -(i128::MAX / 2) <= trunc_div(total * bps, 10000) <= i128::MAX / 2,
{
    let x = total * bps;
    if x >= 0 {
        assert(x / 10000 <= x) by (nonlinear_arith)
            requires
                x >= 0,
        ;
        assert(x / 10000 <= i128::MAX / 10000) by (nonlinear_arith)
            requires
                0 <= x <= i128::MAX,
        ;
    } else {
        assert((-x) / 10000 <= (i128::MAX + 1) / 10000) by (nonlinear_arith)
            requires
                0 < -x <= i128::MAX + 1,
        ;
    }
}

/// Namespace for the fee arithmetic.
pub struct FeeCalculator;

/// How fees are charged on amounts paid out of an escrow.
pub trait FeeCalculatorTrait {
    /// The Trustless Work fee, the platform fee and their sum on `total`.
    fn calculate_total_fees(total: i128, platform_fee: u32) -> (r: Result<
        (i128, i128, i128),
        ContractError,
    >)
        ensures
            r == total_fees_outcome(total as int, platform_fee as int),
    ;

    /// What is left of `share_amount` once it bears its proportional part of
    /// the fees on `total_amount`, with the two fees on `total_amount`.
    fn calculate_net_share(total_amount: i128, share_amount: i128, platform_fee: u32) -> (r:
        Result<(i128, i128, i128), ContractError>)
        ensures
            r == net_share_outcome(total_amount as int, share_amount as int, platform_fee as int),
    ;
}

impl FeeCalculatorTrait for FeeCalculator {
    fn calculate_total_fees(total: i128, platform_fee: u32) -> (r: Result<
        (i128, i128, i128),
        ContractError,
    >) {
        let tw_gross = BasicMath::safe_mul(total, TRUSTLESS_WORK_FEE_BPS as i128)?;
        let pf_gross = BasicMath::safe_mul(total, platform_fee as i128)?;
        let tw = BasicMath::safe_div(tw_gross, BASIS_POINTS)?;
        let pf = BasicMath::safe_div(pf_gross, BASIS_POINTS)?;
        proof {
            lemma_bps_fee_bounds(total as int, 30);
            lemma_bps_fee_bounds(total as int, platform_fee as int);
        }
        let fees = BasicMath::safe_add(tw, pf)?;
        Ok((tw, pf, fees))
    }

    fn calculate_net_share(total_amount: i128, share_amount: i128, platform_fee: u32) -> (r:
        Result<(i128, i128, i128), ContractError>) {
        let (tw, pf, fees) = Self::calculate_total_fees(total_amount, platform_fee)?;
        let share_fees = BasicMath::safe_mul(share_amount, fees)?;
        let fee_part = BasicMath::safe_div(share_fees, total_amount)?;
        let net = BasicMath::safe_sub(share_amount, fee_part)?;
        Ok((net, tw, pf))
    }
}

} // verus!
