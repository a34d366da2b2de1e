use vstd::prelude::*;

use crate::error::ContractError;
use crate::modules::helper::roles::{roles_equal_excluding_observers, same_parties};
use crate::storage::types::{Address, Escrow, EscrowView, Milestone, MilestoneView};

verus! {

/// The largest platform fee, in basis points.
pub const MAX_PLATFORM_FEE_BPS: u32 = 9900;

/// The most milestones an escrow may hold.
pub const MAX_MILESTONES: usize = 50;

/// When the release signer may release the funds of `milestone`, the
/// milestone at `milestone_index` of `escrow`.
pub open spec fn release_check(
    escrow: EscrowView,
    release_signer: Seq<u8>,
    milestone: MilestoneView,
    milestone_index: u32,
) -> Result<(), ContractError> {
    if milestone.flags.released {
        Err(ContractError::MilestoneAlreadyReleased)
    } else if milestone.flags.resolved {
        Err(ContractError::EscrowAlreadyResolved)
    } else if release_signer != escrow.roles.release_signer {
        Err(ContractError::OnlyReleaseSignerCanReleaseEarnings)
    } else if escrow.milestones.len() == 0 {
        Err(ContractError::NoMileStoneDefined)
    } else if !milestone.flags.approved {
        Err(ContractError::MilestoneNotCompleted)
    } else if milestone.flags.disputed {
        Err(ContractError::MilestoneOpenedForDisputeResolution)
    } else if milestone_index >= escrow.milestones.len() {
        Err(ContractError::InvalidMileStoneIndex)
    } else {
        Ok(())
    }
}

/// Some milestone asks for a zero or negative amount.
pub open spec fn has_nonpositive_amount(ms: Seq<MilestoneView>) -> bool {
    exists|i: int| 0 <= i < ms.len() && #[trigger] ms[i].amount <= 0
}

/// Some milestone in positions `from..to` has a flag raised.
pub open spec fn has_raised_flags(ms: Seq<MilestoneView>, from: int, to: int) -> bool {
    exists|i: int| from <= i < to && 0 <= i < ms.len() && #[trigger] ms[i].flags.any()
}

/// Some milestone present in both lists has different flags in each.
pub open spec fn flags_differ(old: Seq<MilestoneView>, new: Seq<MilestoneView>) -> bool {
    exists|i: int| 0 <= i < old.len() && i < new.len() && #[trigger] old[i].flags != new[i].flags
}

/// Some field of the escrow other than its milestones and observers differs.
pub open spec fn terms_differ(old: EscrowView, new: EscrowView) -> bool {
    ||| old.engagement_id != new.engagement_id
    ||| old.title != new.title
    ||| old.description != new.description
    ||| !same_parties(old.roles, new.roles)
    ||| old.platform_fee != new.platform_fee
    ||| old.trustline != new.trustline
    ||| old.receiver_memo != new.receiver_memo
}

/// Some milestone of `old` is not kept unchanged at its place in `new`.
pub open spec fn milestones_changed(old: Seq<MilestoneView>, new: Seq<MilestoneView>) -> bool {
    ||| new.len() < old.len()
    ||| exists|i: int| 0 <= i < old.len() && #[trigger] old[i] != new[i]
}

/// The properties that every escrow must have: an acceptable fee, between
/// one and fifty milestones, each for a positive amount.
pub open spec fn properties_outcome(new: EscrowView) -> Result<(), ContractError> {
    if new.platform_fee > MAX_PLATFORM_FEE_BPS || new.platform_fee + 30 > 10000 {
        Err(ContractError::PlatformFeeTooHigh)
    } else if new.milestones.len() == 0 {
        Err(ContractError::NoMileStoneDefined)
    } else if new.milestones.len() > MAX_MILESTONES {
        Err(ContractError::TooManyMilestones)
    } else if has_nonpositive_amount(new.milestones) {
        Err(ContractError::AmountCannotBeZero)
    } else {
        Ok(())
    }
}

/// When `new` may replace `existing`, at the request of `caller`, while
/// the contract holds `balance`.
pub open spec fn change_outcome(
    existing: EscrowView,
    new: EscrowView,
    caller: Seq<u8>,
    balance: int,
) -> Result<(), ContractError> {
    let old_len = existing.milestones.len() as int;
    let new_len = new.milestones.len() as int;
    if caller != existing.roles.platform {
        Err(ContractError::OnlyPlatformAddressExecuteThisFunction)
    } else if existing.roles.platform != new.roles.platform {
        Err(ContractError::PlatformAddressCannotBeChanged)
    } else if flags_differ(existing.milestones, new.milestones) {
        Err(ContractError::EscrowPropertiesMismatch)
    } else if has_raised_flags(new.milestones, old_len, new_len) {
        Err(ContractError::FlagsMustBeFalse)
    } else if balance > 0 && (terms_differ(existing, new) || milestones_changed(
        existing.milestones,
        new.milestones,
    )) {
        Err(ContractError::EscrowPropertiesMismatch)
    } else {
        Ok(())
    }
}

/// The checks shared by initialisation and updates.
pub open spec fn escrow_conditions_outcome(
    existing: Option<EscrowView>,
    new: EscrowView,
    platform_address: Option<Seq<u8>>,
    contract_balance: Option<int>,
    is_init: bool,
) -> Result<(), ContractError> {
    if properties_outcome(new) is Err {
        properties_outcome(new)
    } else if is_init {
        if has_raised_flags(new.milestones, 0, new.milestones.len() as int) {
            Err(ContractError::FlagsMustBeFalse)
        } else {
            Ok(())
        }
    } else {
        match existing {
            None => Err(ContractError::EscrowNotFound),
            Some(old) => match platform_address {
                None => Err(ContractError::OnlyPlatformAddressExecuteThisFunction),
                Some(caller) => change_outcome(
                    old,
                    new,
                    caller,
                    match contract_balance {
                        Some(b) => b,
                        None => 0,
                    },
                ),
            },
        }
    }
}

/// When an escrow may be created: storage holds none yet, the contract
/// holds no tokens, and the properties are acceptable with every flag down.
pub open spec fn initialize_outcome(escrow_exists: bool, new: EscrowView, balance: int) -> Result<
    (),
    ContractError,
> {
    if escrow_exists {
        Err(ContractError::EscrowAlreadyInitialized)
    } else if balance > 0 {
        Err(ContractError::EscrowBalanceMustBeZeroOnInitialization)
    } else {
        escrow_conditions_outcome(None, new, None, None, true)
    }
}

/// When a signer holding `balance` may deposit `amount` into the escrow it
/// expects to be `expected`.
pub open spec fn fund_outcome(amount: int, balance: int, stored: EscrowView, expected: EscrowView) -> Result<
    (),
    ContractError,
> {
    if amount <= 0 {
        Err(ContractError::AmountCannotBeZero)
    } else if stored != expected {
        Err(ContractError::EscrowPropertiesMismatch)
    } else if balance < amount {
        Err(ContractError::InsufficientFundsForEscrowFunding)
    } else {
        Ok(())
    }
}

/// Checks that the release signer may release the funds of a milestone.
pub fn validate_release_conditions(
    escrow: &Escrow,
    release_signer: &Address,
    milestone: &Milestone,
    milestone_index: u32,
) -> (r: Result<(), ContractError>)
    ensures
        r == release_check(escrow@, release_signer@, milestone@, milestone_index),
{
    if milestone.flags.released {
        return Err(ContractError::MilestoneAlreadyReleased);
    }
    if milestone.flags.resolved {
        return Err(ContractError::EscrowAlreadyResolved);
    }
    if !release_signer.same_as(&escrow.roles.release_signer) {
        return Err(ContractError::OnlyReleaseSignerCanReleaseEarnings);
    }
    if escrow.milestones.len() == 0 {
        return Err(ContractError::NoMileStoneDefined);
    }
    if !milestone.flags.approved {
        return Err(ContractError::MilestoneNotCompleted);
    }
    if milestone.flags.disputed {
        return Err(ContractError::MilestoneOpenedForDisputeResolution);
    }
    if milestone_index as usize >= escrow.milestones.len() {
        return Err(ContractError::InvalidMileStoneIndex);
    }
    Ok(())
}

#[verifier::loop_isolation(false)]
fn check_properties(new_escrow: &Escrow) -> (r: Result<(), ContractError>)
    ensures
        r == properties_outcome(new_escrow@),
{
    let max_bps_percentage: u32 = MAX_PLATFORM_FEE_BPS;
    if new_escrow.platform_fee > max_bps_percentage {
        return Err(ContractError::PlatformFeeTooHigh);
    }
    let trustless_work_fee_bps: u32 = 30;
    if new_escrow.platform_fee + trustless_work_fee_bps > 10_000 {
        return Err(ContractError::PlatformFeeTooHigh);
    }
    if new_escrow.milestones.len() == 0 {
        return Err(ContractError::NoMileStoneDefined);
    }
    if new_escrow.milestones.len() > MAX_MILESTONES {
        return Err(ContractError::TooManyMilestones);
    }
    let ghost ms = new_escrow@.milestones;
    let n = new_escrow.milestones.len();
    let mut i: usize = 0;
    while i < n
        invariant
            n == new_escrow.milestones.len(),
            ms == new_escrow@.milestones,
            i <= n,
            forall|j: int| 0 <= j < i ==> !(#[trigger] ms[j].amount <= 0),
        decreases n - i,
    {
        assert(ms[i as int] == new_escrow.milestones@[i as int]@);
        if new_escrow.milestones[i].amount <= 0 {
            assert(ms[i as int].amount <= 0);
            return Err(ContractError::AmountCannotBeZero);
        }
        i = i + 1;
    }
    Ok(())
}

fn any_flags_raised(ms_exec: &Vec<Milestone>, from: usize) -> (r: bool)
    ensures
        r == has_raised_flags(
            ms_exec@.map_values(|m: Milestone| m@),
            from as int,
            ms_exec@.len() as int,
        ),
{
    let ghost ms = ms_exec@.map_values(|m: Milestone| m@);
    let n = ms_exec.len();
    let mut i: usize = from;
    while i < n
        invariant
            n == ms_exec.len(),
            ms == ms_exec@.map_values(|m: Milestone| m@),
            from <= i,
            forall|j: int| from <= j < i && 0 <= j < ms.len() ==> !(#[trigger] ms[j].flags.any()),
        decreases n - i,
    {
        assert(ms[i as int] == ms_exec@[i as int]@);
        let f = ms_exec[i].flags;
        if f.disputed || f.released || f.resolved || f.approved {
            assert(ms[i as int].flags.any());
            return true;
        }
        i = i + 1;
    }
    false
}

#[verifier::loop_isolation(false)]
fn validate_escrow_conditions(
    existing_escrow: Option<&Escrow>,
    new_escrow: &Escrow,
    platform_address: Option<&Address>,
    contract_balance: Option<i128>,
    is_init: bool,
) -> (r: Result<(), ContractError>)
    ensures
        r == escrow_conditions_outcome(
            match existing_escrow {
                Some(e) => Some(e@),
                None => None,
            },
            new_escrow@,
            match platform_address {
                Some(a) => Some(a@),
                None => None,
            },
            match contract_balance {
                Some(b) => Some(b as int),
                None => None,
            },
            is_init,
        ),
{
    check_properties(new_escrow)?;
    if is_init {
        if any_flags_raised(&new_escrow.milestones, 0) {
            return Err(ContractError::FlagsMustBeFalse);
        }
        return Ok(());
    }
    let existing = match existing_escrow {
        Some(e) => e,
        None => {
            return Err(ContractError::EscrowNotFound);
        },
    };
    let caller = match platform_address {
        Some(a) => a,
        None => {
            return Err(ContractError::OnlyPlatformAddressExecuteThisFunction);
        },
    };
    if !caller.same_as(&existing.roles.platform) {
        return Err(ContractError::OnlyPlatformAddressExecuteThisFunction);
    }
    if !existing.roles.platform.same_as(&new_escrow.roles.platform) {
        return Err(ContractError::PlatformAddressCannotBeChanged);
    }
    let has_funds = match contract_balance {
        Some(b) => b > 0,
        None => false,
    };
    let ghost old_ms = existing@.milestones;
    let ghost new_ms = new_escrow@.milestones;
    let old_len = existing.milestones.len();
    let new_len = new_escrow.milestones.len();
    let overlap = if new_len < old_len {
        new_len
    } else {
        old_len
    };
    let mut i: usize = 0;
    while i < overlap
        invariant
            old_len == existing.milestones.len(),
            new_len == new_escrow.milestones.len(),
            old_ms == existing@.milestones,
            new_ms == new_escrow@.milestones,
            overlap <= old_len,
            overlap <= new_len,
            overlap == old_len || overlap == new_len,
            i <= overlap,
            forall|j: int| 0 <= j < i ==> #[trigger] old_ms[j].flags == new_ms[j].flags,
        decreases overlap - i,
    {
        assert(old_ms[i as int] == existing.milestones@[i as int]@);
        assert(new_ms[i as int] == new_escrow.milestones@[i as int]@);
        if existing.milestones[i].flags != new_escrow.milestones[i].flags {
            assert(old_ms[i as int].flags != new_ms[i as int].flags);
            return Err(ContractError::EscrowPropertiesMismatch);
        }
        i = i + 1;
    }
    assert(!flags_differ(old_ms, new_ms));
    if new_len > old_len {
        if any_flags_raised(&new_escrow.milestones, old_len) {
            return Err(ContractError::FlagsMustBeFalse);
        }
    }
    if has_funds {
        if !crate::storage::types::bytes_equal(&existing.engagement_id, &new_escrow.engagement_id)
            || !crate::storage::types::bytes_equal(&existing.title, &new_escrow.title)
            || !crate::storage::types::bytes_equal(&existing.description, &new_escrow.description)
            || !roles_equal_excluding_observers(&existing.roles, &new_escrow.roles)
            || existing.platform_fee != new_escrow.platform_fee
            || !existing.trustline.address.same_as(&new_escrow.trustline.address)
            || existing.receiver_memo != new_escrow.receiver_memo {
            return Err(ContractError::EscrowPropertiesMismatch);
        }
        if new_len < old_len {
            return Err(ContractError::EscrowPropertiesMismatch);
        }
        let mut k: usize = 0;
        while k < old_len
            invariant
                old_len == existing.milestones.len(),
                new_len == new_escrow.milestones.len(),
                old_len <= new_len,
                old_ms == existing@.milestones,
                new_ms == new_escrow@.milestones,
                k <= old_len,
                forall|j: int| 0 <= j < k ==> #[trigger] old_ms[j] == new_ms[j],
            decreases old_len - k,
        {
            assert(old_ms[k as int] == existing.milestones@[k as int]@);
            assert(new_ms[k as int] == new_escrow.milestones@[k as int]@);
            if !existing.milestones[k].same_as(&new_escrow.milestones[k]) {
                assert(old_ms[k as int] != new_ms[k as int]);
                return Err(ContractError::EscrowPropertiesMismatch);
            }
            k = k + 1;
        }
        assert(!milestones_changed(old_ms, new_ms));
    }
    Ok(())
}

/// Checks that `platform_address` may replace the stored escrow by
/// `new_escrow` while the contract holds `contract_balance`.
pub fn validate_escrow_property_change_conditions(
    existing_escrow: &Escrow,
    new_escrow: &Escrow,
    platform_address: &Address,
    contract_balance: i128,
    _milestones: Vec<Milestone>,
) -> (r: Result<(), ContractError>)
    ensures
        r == escrow_conditions_outcome(
            Some(existing_escrow@),
            new_escrow@,
            Some(platform_address@),
            Some(contract_balance as int),
            false,
        ),
{
    validate_escrow_conditions(
        Some(existing_escrow),
        new_escrow,
        Some(platform_address),
        Some(contract_balance),
        false,
    )
}

/// Checks that an escrow may be created, given whether one is stored
/// already and the contract's token balance.
pub fn validate_initialize_escrow_conditions(
    escrow_exists: bool,
    escrow_properties: &Escrow,
    escrow_balance: i128,
) -> (r: Result<(), ContractError>)
    ensures
        r == initialize_outcome(escrow_exists, escrow_properties@, escrow_balance as int),
{
    if escrow_exists {
        return Err(ContractError::EscrowAlreadyInitialized);
    }
    if escrow_balance > 0 {
        return Err(ContractError::EscrowBalanceMustBeZeroOnInitialization);
    }
    validate_escrow_conditions(None, escrow_properties, None, None, true)
}

/// Checks that a signer holding `balance` may deposit `amount` into the
/// stored escrow, which it expects to be `expected_escrow`.
pub fn validate_fund_escrow_conditions(
    amount: i128,
    balance: i128,
    stored_escrow: &Escrow,
    expected_escrow: &Escrow,
) -> (r: Result<(), ContractError>)
    ensures
        r == fund_outcome(amount as int, balance as int, stored_escrow@, expected_escrow@),
{
    if amount <= 0 {
        return Err(ContractError::AmountCannotBeZero);
    }
    if !stored_escrow.same_as(expected_escrow) {
        return Err(ContractError::EscrowPropertiesMismatch);
    }
    if balance < amount {
        return Err(ContractError::InsufficientFundsForEscrowFunding);
    }
    Ok(())
}

} // verus!
