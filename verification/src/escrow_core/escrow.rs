use vstd::prelude::*;

use crate::error::ContractError;
use crate::escrow_core::validators::escrow::{
    escrow_conditions_outcome, fund_outcome, initialize_outcome, release_check,
    validate_escrow_property_change_conditions, validate_fund_escrow_conditions,
    validate_initialize_escrow_conditions, validate_release_conditions,
};
use crate::modules::fee::calculator::net_share_outcome;
use crate::modules::fee::{FeeCalculator, FeeCalculatorTrait};
use crate::storage::types::{
    Address, AddressBalance, Escrow, EscrowView, Milestone, MilestoneView, Payment, PaymentView,
    payments_view,
};

verus! {

/// The most escrows whose balances one query may ask for.
pub const MAX_ESCROWS: usize = 20;

/// A payment of `amount` to `to`, or none when `amount` is not positive.
pub open spec fn payment_if_positive(to: Seq<u8>, amount: int) -> Seq<PaymentView> {
    if amount > 0 {
        seq![PaymentView { to, amount: amount as i128 }]
    } else {
        Seq::empty()
    }
}

/// The escrow with the flags of the milestone at `index` replaced.
pub open spec fn with_flags(e: EscrowView, index: int, flags: crate::storage::types::Flags) -> EscrowView {
    EscrowView {
        milestones: e.milestones.update(index, MilestoneView { flags, ..e.milestones[index] }),
        ..e
    }
}

/// The escrow with the milestone at `index` marked released.
pub open spec fn mark_released(e: EscrowView, index: int) -> EscrowView {
    with_flags(
        e,
        index,
        crate::storage::types::Flags { released: true, ..e.milestones[index].flags },
    )
}

/// The abstract value of an operation's outcome that yields an escrow and
/// the payments to make.
pub open spec fn settlement_view(r: Result<(Escrow, Vec<Payment>), ContractError>) -> Result<
    (EscrowView, Seq<PaymentView>),
    ContractError,
> {
    match r {
        Ok((e, ps)) => Ok((e@, payments_view(ps@))),
        Err(x) => Err(x),
    }
}

/// What releasing the milestone at `index` does: after the release checks
/// and a check that the contract holds the milestone's amount, the
/// milestone is marked released and its amount is paid out as the
/// Trustless Work fee, the platform fee and the net share of the receiver,
/// each only when positive.
pub open spec fn release_outcome(
    e: EscrowView,
    release_signer: Seq<u8>,
    trustless_work_address: Seq<u8>,
    index: int,
    contract_balance: int,
) -> Result<(EscrowView, Seq<PaymentView>), ContractError> {
    if !(0 <= index < e.milestones.len()) {
        Err(ContractError::MilestoneNotFound)
    } else {
        let m = e.milestones[index];
        match release_check(e, release_signer, m, index as u32) {
            Err(x) => Err(x),
            Ok(_) => if contract_balance < m.amount {
                Err(ContractError::EscrowBalanceNotEnoughToSendEarnings)
            } else {
                match net_share_outcome(m.amount as int, m.amount as int, e.platform_fee as int) {
                    Err(x) => Err(x),
                    Ok((net, tw_fee, platform_fee)) => Ok(
                        (
                            mark_released(e, index),
                            payment_if_positive(trustless_work_address, tw_fee as int)
                                + payment_if_positive(e.roles.platform, platform_fee as int)
                                + payment_if_positive(m.receiver, net as int),
                        ),
                    ),
                }
            },
        }
    }
}

/// The balances reported for the addresses queried, in order.
pub open spec fn balances_match(
    addresses: Seq<Address>,
    readings: Seq<(i128, u32)>,
    balances: Seq<AddressBalance>,
) -> bool {
    &&& balances.len() == addresses.len()
    &&& forall|i: int|
        0 <= i < balances.len() ==> {
            &&& (#[trigger] balances[i]).address@ == addresses[i]@
            &&& balances[i].balance == readings[i].0
            &&& balances[i].trustline_decimals == readings[i].1
        }
}

/// Namespace for the operations on the escrow itself.
pub struct EscrowManager;

impl EscrowManager {
    /// The address that receives the funds of a milestone.
    pub fn get_receiver(milestone: &Milestone) -> (r: Address)
        ensures
            r@ == milestone.receiver@,
    {
        milestone.receiver.clone_address()
    }

    /// Accepts the escrow properties when no escrow is stored yet, the
    /// contract holds no tokens and the properties pass the checks; the
    /// properties are then what is to be stored.
    pub fn initialize_escrow(
        escrow_exists: bool,
        escrow_properties: Escrow,
        escrow_balance: i128,
    ) -> (r: Result<Escrow, ContractError>)
        ensures
            r == (match initialize_outcome(escrow_exists, escrow_properties@, escrow_balance as int) {
                Ok(_) => Ok(escrow_properties),
                Err(x) => Err(x),
            }),
    {
        validate_initialize_escrow_conditions(escrow_exists, &escrow_properties, escrow_balance)?;
        Ok(escrow_properties)
    }

    /// Decides whether a signer holding `signer_balance` may deposit
    /// `amount` into the stored escrow, which it expects to be
    /// `expected_escrow`; on success the deposit is to be made.
    pub fn fund_escrow(
        stored_escrow: &Escrow,
        expected_escrow: &Escrow,
        amount: i128,
        signer_balance: i128,
    ) -> (r: Result<(), ContractError>)
        ensures
            r == fund_outcome(amount as int, signer_balance as int, stored_escrow@, expected_escrow@),
    {
        validate_fund_escrow_conditions(amount, signer_balance, stored_escrow, expected_escrow)
    }

    /// Releases the funds of the milestone at `milestone_index`: returns
    /// the escrow with that milestone marked released, and the payments to
    /// make out of the contract.
    pub fn release_milestone_funds(
        escrow: Escrow,
        release_signer: &Address,
        trustless_work_address: &Address,
        milestone_index: u32,
        contract_balance: i128,
    ) -> (r: Result<(Escrow, Vec<Payment>), ContractError>)
        ensures
            settlement_view(r) == release_outcome(
                escrow@,
                release_signer@,
                trustless_work_address@,
                milestone_index as int,
                contract_balance as int,
            ),
    {
        let mut escrow = escrow;
        let ghost e0 = escrow@;
        if milestone_index as usize >= escrow.milestones.len() {
            return Err(ContractError::MilestoneNotFound);
        }
        let idx = milestone_index as usize;
        let milestone = escrow.milestones[idx].clone_milestone();
        assert(e0.milestones[idx as int] == milestone@);
        validate_release_conditions(&escrow, release_signer, &milestone, milestone_index)?;
        let mut to_update = milestone.clone_milestone();
        to_update.flags.released = true;
        escrow.milestones.set(idx, to_update);
        assert(escrow@.milestones =~= mark_released(e0, idx as int).milestones);
        if contract_balance < milestone.amount {
            return Err(ContractError::EscrowBalanceNotEnoughToSendEarnings);
        }
        let (net_share, trustless_fee_share, platform_fee_share) =
            FeeCalculator::calculate_net_share(
            milestone.amount,
            milestone.amount,
            escrow.platform_fee,
        )?;
        let mut payments: Vec<Payment> = Vec::new();
        if trustless_fee_share > 0 {
            payments.push(
                Payment { to: trustless_work_address.clone_address(), amount: trustless_fee_share },
            );
        }
        if platform_fee_share > 0 {
            payments.push(
                Payment { to: escrow.roles.platform.clone_address(), amount: platform_fee_share },
            );
        }
        let receiver = Self::get_receiver(&milestone);
        if net_share > 0 {
            payments.push(Payment { to: receiver, amount: net_share });
        }
        assert(payments_view(payments@) =~= payment_if_positive(
            trustless_work_address@,
            trustless_fee_share as int,
        ) + payment_if_positive(e0.roles.platform, platform_fee_share as int)
            + payment_if_positive(milestone@.receiver, net_share as int));
        Ok((escrow, payments))
    }

    /// Accepts `escrow_properties` as the new state of the stored escrow
    /// when `platform_address` may make that change while the contract
    /// holds `contract_balance`.
    pub fn change_escrow_properties(
        existing: &Escrow,
        platform_address: &Address,
        escrow_properties: Escrow,
        contract_balance: i128,
    ) -> (r: Result<Escrow, ContractError>)
        ensures
            r == (match escrow_conditions_outcome(
                Some(existing@),
                escrow_properties@,
                Some(platform_address@),
                Some(contract_balance as int),
                false,
            ) {
                Ok(_) => Ok(escrow_properties),
                Err(x) => Err(x),
            }),
    {
        validate_escrow_property_change_conditions(
            existing,
            &escrow_properties,
            platform_address,
            contract_balance,
            Vec::new(),
        )?;
        Ok(escrow_properties)
    }

    /// Reports the balance and decimals read for each queried escrow;
    /// more than twenty addresses are refused.
    pub fn get_multiple_escrow_balances(
        addresses: &Vec<Address>,
        readings: &Vec<(i128, u32)>,
    ) -> (r: Result<Vec<AddressBalance>, ContractError>)
        requires
            addresses.len() <= MAX_ESCROWS ==> readings.len() == addresses.len(),
        ensures
            addresses.len() > MAX_ESCROWS ==> r == Err::<Vec<AddressBalance>, ContractError>(
                ContractError::TooManyEscrowsRequested,
            ),
            addresses.len() <= MAX_ESCROWS ==> (r matches Ok(b) && balances_match(
                addresses@,
                readings@,
                b@,
            )),
    {
        if addresses.len() > MAX_ESCROWS {
            return Err(ContractError::TooManyEscrowsRequested);
        }
        let mut balances: Vec<AddressBalance> = Vec::new();
        let n = addresses.len();
        let mut i: usize = 0;
        while i < n
            invariant
                n == addresses.len(),
                n == readings.len(),
                i <= n,
                balances.len() == i,
                forall|j: int|
                    0 <= j < i ==> {
                        &&& (#[trigger] balances@[j]).address@ == addresses@[j]@
                        &&& balances@[j].balance == readings@[j].0
                        &&& balances@[j].trustline_decimals == readings@[j].1
                    },
            decreases n - i,
        {
            let (balance, decimals) = readings[i];
            balances.push(
                AddressBalance {
                    address: addresses[i].clone_address(),
                    balance,
                    trustline_decimals: decimals,
                },
            );
            i = i + 1;
        }
        Ok(balances)
    }

    /// The stored escrow, or `EscrowNotFound` when storage holds none.
    pub fn get_escrow(stored: Option<Escrow>) -> (r: Result<Escrow, ContractError>)
        ensures
            r == (match stored {
                Some(e) => Ok(e),
                None => Err(ContractError::EscrowNotFound),
            }),
    {
        match stored {
            Some(e) => Ok(e),
            None => Err(ContractError::EscrowNotFound),
        }
    }
}

} // verus!
