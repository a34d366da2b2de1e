use escrow::error::ContractError;
use escrow::escrow_core::dispute::DisputeManager;
use escrow::escrow_core::escrow::EscrowManager;
use escrow::escrow_core::milestone::MilestoneManager;
use escrow::escrow_core::validators::dispute::{
    validate_dispute_flag_change_conditions, validate_dispute_resolution_conditions,
    validate_distributions_size, validate_withdraw_remaining_funds_conditions,
};
use escrow::escrow_core::validators::escrow::{
    validate_escrow_property_change_conditions, validate_fund_escrow_conditions,
    validate_initialize_escrow_conditions, validate_release_conditions,
};
use escrow::escrow_core::validators::milestone::{
    validate_and_convert_milestone_index, validate_milestone_flag_change_conditions,
    validate_milestone_status_change_conditions,
};
use escrow::modules::fee::{FeeCalculator, FeeCalculatorTrait};
use escrow::modules::helper::roles_equal_excluding_observers;
use escrow::modules::math::{BasicArithmetic, BasicMath};
use escrow::storage::types::{
    Address, Escrow, Flags, Milestone, MilestoneUpdate, Payment, Roles, Trustline,
};

fn addr(name: &str) -> Address {
    Address { strkey: name.as_bytes().to_vec() }
}

fn text(s: &str) -> Vec<u8> {
    s.as_bytes().to_vec()
}

fn flags(disputed: bool, released: bool, resolved: bool, approved: bool) -> Flags {
    Flags { disputed, released, resolved, approved }
}

fn ms(amount: i128, f: Flags) -> Milestone {
    Milestone {
        description: text("work"),
        status: text("Pending"),
        evidence: text("none"),
        amount,
        flags: f,
        receiver: addr("GRECEIVER"),
    }
}

fn roles() -> Roles {
    Roles {
        approver: addr("GAPPROVER"),
        service_provider: addr("GSP"),
        platform: addr("GPLATFORM"),
        release_signer: addr("GSIGNER"),
        dispute_resolver: addr("GRESOLVER"),
        observers: vec![addr("GOBSERVER")],
    }
}

fn escrow(fee: u32, milestones: Vec<Milestone>) -> Escrow {
    Escrow {
        engagement_id: text("eng"),
        title: text("title"),
        description: text("desc"),
        roles: roles(),
        platform_fee: fee,
        milestones,
        trustline: Trustline { address: addr("CTOKEN") },
        receiver_memo: 7,
    }
}

fn total(ps: &[Payment]) -> i128 {
    ps.iter().map(|p| p.amount).sum()
}

#[test]
fn checked_arithmetic_reports_overflow() {
    assert_eq!(BasicMath::safe_add(2, 3), Ok(5));
    assert_eq!(BasicMath::safe_add(i128::MAX, 1), Err(ContractError::Overflow));
    assert_eq!(BasicMath::safe_sub(2, 3), Ok(-1));
    assert_eq!(BasicMath::safe_sub(i128::MIN, 1), Err(ContractError::Underflow));
    assert_eq!(BasicMath::safe_mul(-4, 5), Ok(-20));
    assert_eq!(BasicMath::safe_mul(i128::MAX, 2), Err(ContractError::Overflow));
    assert_eq!(BasicMath::safe_div(7, 2), Ok(3));
    assert_eq!(BasicMath::safe_div(-7, 2), Ok(-3));
    assert_eq!(BasicMath::safe_div(7, 0), Err(ContractError::DivisionError));
    assert_eq!(BasicMath::safe_div(i128::MIN, -1), Err(ContractError::Overflow));
}

#[test]
fn fees_are_basis_points_rounded_down() {
    assert_eq!(FeeCalculator::calculate_total_fees(100_000, 300), Ok((300, 3_000, 3_300)));
    assert_eq!(FeeCalculator::calculate_total_fees(48_000, 300), Ok((144, 1_440, 1_584)));
    assert_eq!(FeeCalculator::calculate_total_fees(333, 300), Ok((0, 9, 9)));
    assert_eq!(FeeCalculator::calculate_total_fees(i128::MAX, 300), Err(ContractError::Overflow));
    assert_eq!(FeeCalculator::calculate_net_share(100_000, 100_000, 300), Ok((96_700, 300, 3_000)));
    assert_eq!(FeeCalculator::calculate_net_share(48_000, 10_000, 300), Ok((9_670, 144, 1_440)));
    assert_eq!(FeeCalculator::calculate_net_share(0, 0, 300), Err(ContractError::DivisionError));
}

#[test]
fn roles_comparison_ignores_observers() {
    let a = roles();
    let mut b = roles();
    b.observers = vec![];
    assert!(roles_equal_excluding_observers(&a, &b));
    b.dispute_resolver = addr("GOTHER");
    assert!(!roles_equal_excluding_observers(&a, &b));
}

#[test]
fn milestone_index_must_exist() {
    assert_eq!(validate_and_convert_milestone_index(1, 2), Ok(1));
    assert_eq!(validate_and_convert_milestone_index(2, 2), Err(ContractError::InvalidMileStoneIndex));
}

#[test]
fn initialization_errors() {
    let good = escrow(300, vec![ms(10, down())]);
    assert_eq!(validate_initialize_escrow_conditions(true, &good, 0), Err(ContractError::EscrowAlreadyInitialized));
    assert_eq!(validate_initialize_escrow_conditions(false, &good, 1), Err(ContractError::EscrowBalanceMustBeZeroOnInitialization));
    assert_eq!(validate_initialize_escrow_conditions(false, &good, 0), Ok(()));
    assert_eq!(validate_initialize_escrow_conditions(false, &escrow(9901, vec![ms(10, down())]), 0), Err(ContractError::PlatformFeeTooHigh));
    assert_eq!(validate_initialize_escrow_conditions(false, &escrow(9900, vec![ms(10, down())]), 0), Ok(()));
    assert_eq!(validate_initialize_escrow_conditions(false, &escrow(300, vec![]), 0), Err(ContractError::NoMileStoneDefined));
    let many: Vec<Milestone> = (0..51).map(|_| ms(10, down())).collect();
    assert_eq!(validate_initialize_escrow_conditions(false, &escrow(300, many), 0), Err(ContractError::TooManyMilestones));
    assert_eq!(validate_initialize_escrow_conditions(false, &escrow(300, vec![ms(10, down()), ms(0, down())]), 0), Err(ContractError::AmountCannotBeZero));
    assert_eq!(validate_initialize_escrow_conditions(false, &escrow(300, vec![ms(10, flags(false, false, false, true))]), 0), Err(ContractError::FlagsMustBeFalse));
}

fn down() -> Flags {
    flags(false, false, false, false)
}

#[test]
fn update_errors() {
    let old = escrow(300, vec![ms(10, flags(false, false, false, true)), ms(20, down())]);
    let platform = addr("GPLATFORM");
    let same = old.clone();
    assert_eq!(validate_escrow_property_change_conditions(&old, &same, &platform, 100, vec![]), Ok(()));
    assert_eq!(validate_escrow_property_change_conditions(&old, &same, &addr("GX"), 0, vec![]), Err(ContractError::OnlyPlatformAddressExecuteThisFunction));
    let mut moved = old.clone();
    moved.roles.platform = addr("GNEWPLATFORM");
    assert_eq!(validate_escrow_property_change_conditions(&old, &moved, &platform, 0, vec![]), Err(ContractError::PlatformAddressCannotBeChanged));
    let mut reflagged = old.clone();
    reflagged.milestones[0].flags.approved = false;
    assert_eq!(validate_escrow_property_change_conditions(&old, &reflagged, &platform, 0, vec![]), Err(ContractError::EscrowPropertiesMismatch));
    let mut appended = old.clone();
    appended.milestones.push(ms(5, flags(true, false, false, false)));
    assert_eq!(validate_escrow_property_change_conditions(&old, &appended, &platform, 0, vec![]), Err(ContractError::FlagsMustBeFalse));
    let mut retitled = old.clone();
    retitled.title = text("other");
    assert_eq!(validate_escrow_property_change_conditions(&old, &retitled, &platform, 0, vec![]), Ok(()));
    assert_eq!(validate_escrow_property_change_conditions(&old, &retitled, &platform, 1, vec![]), Err(ContractError::EscrowPropertiesMismatch));
    let mut shorter = old.clone();
    shorter.milestones.pop();
    assert_eq!(validate_escrow_property_change_conditions(&old, &shorter, &platform, 0, vec![]), Ok(()));
    assert_eq!(validate_escrow_property_change_conditions(&old, &shorter, &platform, 1, vec![]), Err(ContractError::EscrowPropertiesMismatch));
    let mut observed = old.clone();
    observed.roles.observers.push(addr("GNEWOBSERVER"));
    assert_eq!(validate_escrow_property_change_conditions(&old, &observed, &platform, 1, vec![]), Ok(()));
}

#[test]
fn funding_errors() {
    let e = escrow(300, vec![ms(10, down())]);
    let mut other = e.clone();
    other.receiver_memo = 8;
    assert_eq!(validate_fund_escrow_conditions(0, 100, &e, &e), Err(ContractError::AmountCannotBeZero));
    assert_eq!(validate_fund_escrow_conditions(10, 100, &e, &other), Err(ContractError::EscrowPropertiesMismatch));
    assert_eq!(validate_fund_escrow_conditions(101, 100, &e, &e), Err(ContractError::InsufficientFundsForEscrowFunding));
    assert_eq!(validate_fund_escrow_conditions(100, 100, &e, &e), Ok(()));
    assert_eq!(EscrowManager::fund_escrow(&e, &e, 100, 100), Ok(()));
}

#[test]
fn release_errors() {
    let signer = addr("GSIGNER");
    let e = escrow(300, vec![ms(10, flags(false, false, false, true))]);
    let m = |f: Flags| ms(10, f);
    assert_eq!(validate_release_conditions(&e, &signer, &m(flags(false, true, false, true)), 0), Err(ContractError::MilestoneAlreadyReleased));
    assert_eq!(validate_release_conditions(&e, &signer, &m(flags(false, false, true, true)), 0), Err(ContractError::EscrowAlreadyResolved));
    assert_eq!(validate_release_conditions(&e, &addr("GX"), &m(flags(false, false, false, true)), 0), Err(ContractError::OnlyReleaseSignerCanReleaseEarnings));
    assert_eq!(validate_release_conditions(&e, &signer, &m(flags(false, false, false, false)), 0), Err(ContractError::MilestoneNotCompleted));
    assert_eq!(validate_release_conditions(&e, &signer, &m(flags(true, false, false, true)), 0), Err(ContractError::MilestoneOpenedForDisputeResolution));
    assert_eq!(validate_release_conditions(&e, &signer, &m(flags(false, false, false, true)), 1), Err(ContractError::InvalidMileStoneIndex));
    assert_eq!(validate_release_conditions(&escrow(300, vec![]), &signer, &m(flags(false, false, false, true)), 0), Err(ContractError::NoMileStoneDefined));
    assert_eq!(
        EscrowManager::release_milestone_funds(e.clone(), &signer, &addr("GTW"), 3, 1_000),
        Err(ContractError::MilestoneNotFound)
    );
    assert_eq!(
        EscrowManager::release_milestone_funds(e.clone(), &signer, &addr("GTW"), 0, 9),
        Err(ContractError::EscrowBalanceNotEnoughToSendEarnings)
    );
}

#[test]
fn release_pays_the_whole_amount() {
    let signer = addr("GSIGNER");
    let e = escrow(300, vec![ms(100_000, flags(false, false, false, true)), ms(5, down())]);
    let (after, payments) = EscrowManager::release_milestone_funds(e.clone(), &signer, &addr("GTW"), 0, 100_000).unwrap();
    assert_eq!(
        payments,
        vec![
            Payment { to: addr("GTW"), amount: 300 },
            Payment { to: addr("GPLATFORM"), amount: 3_000 },
            Payment { to: addr("GRECEIVER"), amount: 96_700 },
        ]
    );
    assert_eq!(total(&payments), 100_000);
    assert!(after.milestones[0].flags.released);
    assert_eq!(after.milestones[1], e.milestones[1]);
    // a small amount leaves no fee at all
    let small = escrow(300, vec![ms(30, flags(false, false, false, true))]);
    let (_, payments) = EscrowManager::release_milestone_funds(small, &signer, &addr("GTW"), 0, 30).unwrap();
    assert_eq!(payments, vec![Payment { to: addr("GRECEIVER"), amount: 30 }]);
    assert_eq!(
        EscrowManager::release_milestone_funds(after, &signer, &addr("GTW"), 0, 100_000),
        Err(ContractError::MilestoneAlreadyReleased)
    );
}

#[test]
fn dispute_errors() {
    let resolver = addr("GRESOLVER");
    let e = escrow(300, vec![ms(100, down())]);
    let dm = |f: Flags| ms(100, f);
    assert_eq!(validate_dispute_resolution_conditions(&e, &dm(flags(true, false, false, false)), &addr("GX"), 100, 50), Err(ContractError::OnlyDisputeResolverCanExecuteThisFunction));
    assert_eq!(validate_dispute_resolution_conditions(&e, &dm(flags(true, true, false, false)), &resolver, 100, 50), Err(ContractError::MilestoneAlreadyReleased));
    assert_eq!(validate_dispute_resolution_conditions(&e, &dm(flags(true, false, true, false)), &resolver, 100, 50), Err(ContractError::MilestoneAlreadyResolved));
    assert_eq!(validate_dispute_resolution_conditions(&e, &dm(down()), &resolver, 100, 50), Err(ContractError::MilestoneNotInDispute));
    assert_eq!(validate_dispute_resolution_conditions(&e, &dm(flags(true, false, false, false)), &resolver, 1_000, 101), Err(ContractError::TotalDisputeFundsMustNotExceedTheMilestoneAmount));
    assert_eq!(validate_dispute_resolution_conditions(&e, &dm(flags(true, false, false, false)), &resolver, 49, 50), Err(ContractError::InsufficientFundsForResolution));
    assert_eq!(validate_dispute_resolution_conditions(&e, &dm(flags(true, false, false, false)), &resolver, 100, 0), Err(ContractError::TotalAmountCannotBeZero));
    assert_eq!(validate_withdraw_remaining_funds_conditions(&e, &addr("GX"), true, 10, 5), Err(ContractError::OnlyDisputeResolverCanExecuteThisFunction));
    assert_eq!(validate_withdraw_remaining_funds_conditions(&e, &resolver, false, 10, 5), Err(ContractError::EscrowNotFullyProcessed));
    assert_eq!(validate_withdraw_remaining_funds_conditions(&e, &resolver, true, 10, 0), Err(ContractError::TotalAmountCannotBeZero));
    assert_eq!(validate_withdraw_remaining_funds_conditions(&e, &resolver, true, 4, 5), Err(ContractError::InsufficientFundsForResolution));
    assert_eq!(validate_withdraw_remaining_funds_conditions(&e, &resolver, true, 5, 5), Ok(()));
    let big: Vec<(Address, i128)> = (0..51).map(|i| (addr(&format!("G{}", i)), 1)).collect();
    assert_eq!(validate_distributions_size(&big), Err(ContractError::TooManyDistributions));
    assert_eq!(validate_distributions_size(&big[..50].to_vec()), Ok(()));
}

#[test]
fn opening_disputes() {
    let e = escrow(300, vec![ms(100, down()), ms(100, flags(false, true, false, true))]);
    assert_eq!(validate_dispute_flag_change_conditions(&escrow(300, vec![]), 0, &addr("GAPPROVER")), Err(ContractError::NoMileStoneDefined));
    assert_eq!(validate_dispute_flag_change_conditions(&e, 2, &addr("GAPPROVER")), Err(ContractError::InvalidMileStoneIndex));
    assert_eq!(validate_dispute_flag_change_conditions(&e, 1, &addr("GAPPROVER")), Err(ContractError::MilestoneAlreadyReleased));
    assert_eq!(validate_dispute_flag_change_conditions(&e, 0, &addr("GX")), Err(ContractError::UnauthorizedToChangeDisputeFlag));
    assert_eq!(validate_dispute_flag_change_conditions(&e, 0, &addr("GRESOLVER")), Err(ContractError::DisputeResolverCannotDisputeTheMilestone));
    assert_eq!(validate_dispute_flag_change_conditions(&e, 0, &addr("GRECEIVER")), Ok(()));
    assert_eq!(DisputeManager::dispute_milestone(e.clone(), -1, &addr("GAPPROVER")), Err(ContractError::InvalidMileStoneIndex));
    assert_eq!(DisputeManager::dispute_milestone(escrow(300, vec![]), 1 << 40, &addr("GAPPROVER")), Err(ContractError::NoMileStoneDefined));
    let disputed = DisputeManager::dispute_milestone(e.clone(), 0, &addr("GSP")).unwrap();
    assert!(disputed.milestones[0].flags.disputed);
    assert_eq!(DisputeManager::dispute_milestone(disputed, 0, &addr("GSP")), Err(ContractError::MilestoneAlreadyInDispute));
    let resolved = escrow(300, vec![ms(100, flags(false, false, true, false))]);
    assert_eq!(DisputeManager::dispute_milestone(resolved, 0, &addr("GSP")), Err(ContractError::MilestoneAlreadyResolved));
}

#[test]
fn distribution_rounding_can_pay_more_than_the_total() {
    // with a 9900 bps platform fee the fees on 300 are 0 + 297
    let e = escrow(9900, vec![ms(300, flags(true, false, false, false))]);
    let dist = vec![(addr("GA"), 100), (addr("GB"), 100), (addr("GC"), 100)];
    let (after, payments) = DisputeManager::resolve_milestone_dispute(e, &addr("GRESOLVER"), 0, &addr("GTW"), &dist, 300).unwrap();
    assert_eq!(
        payments,
        vec![
            Payment { to: addr("GPLATFORM"), amount: 297 },
            Payment { to: addr("GA"), amount: 1 },
            Payment { to: addr("GB"), amount: 1 },
            Payment { to: addr("GC"), amount: 1 },
        ]
    );
    assert_eq!(total(&payments), 300);
    assert!(after.milestones[0].flags.resolved && !after.milestones[0].flags.disputed);
    assert_eq!(after.milestones[0].status, text("resolved"));

    // fees 3 + 30 = 33 on 1000; the shares bear 0 and 32, so one unit more than the total leaves
    let e2 = escrow(300, vec![ms(1_000, flags(true, false, false, false))]);
    let dist2 = vec![(addr("GA"), 1), (addr("GB"), 999)];
    let (_, payments) = DisputeManager::resolve_milestone_dispute(e2, &addr("GRESOLVER"), 0, &addr("GTW"), &dist2, 1_000).unwrap();
    assert_eq!(total(&payments), 1_001);

    // fees 30 + 300 on 10_000 spread over 1 and 9_999, in either order
    let done = escrow(300, vec![ms(10_000, flags(false, true, false, true))]);
    let dist3 = vec![(addr("GA"), 1), (addr("GB"), 9_999)];
    let (_, payments) = DisputeManager::withdraw_remaining_funds(done.clone(), &addr("GRESOLVER"), &addr("GTW"), &dist3, 10_000).unwrap();
    assert_eq!(payments[2], Payment { to: addr("GA"), amount: 1 });
    assert_eq!(payments[3], Payment { to: addr("GB"), amount: 9_670 });
    assert_eq!(total(&payments), 10_001);
    let dist4 = vec![(addr("GB"), 9_999), (addr("GA"), 1)];
    let (_, payments) = DisputeManager::withdraw_remaining_funds(done, &addr("GRESOLVER"), &addr("GTW"), &dist4, 10_000).unwrap();
    assert_eq!(payments[2], Payment { to: addr("GB"), amount: 9_670 });
    assert_eq!(payments[3], Payment { to: addr("GA"), amount: 1 });
}

#[test]
fn withdraw_waits_for_open_disputes() {
    let resolver = addr("GRESOLVER");
    let dist = vec![(addr("GA"), 100)];
    let open = escrow(300, vec![ms(1_000, flags(false, true, false, true)), ms(1_000, flags(true, false, false, false))]);
    assert_eq!(
        DisputeManager::withdraw_remaining_funds(open, &resolver, &addr("GTW"), &dist, 1_000),
        Err(ContractError::EscrowNotFullyProcessed)
    );
    let only_open = escrow(300, vec![ms(1_000, flags(true, false, false, false))]);
    assert_eq!(
        DisputeManager::withdraw_remaining_funds(only_open, &resolver, &addr("GTW"), &dist, 1_000),
        Err(ContractError::EscrowNotFullyProcessed)
    );
    let settled = escrow(300, vec![ms(1_000, flags(false, true, false, true)), ms(1_000, flags(false, false, true, false))]);
    assert!(DisputeManager::withdraw_remaining_funds(settled, &resolver, &addr("GTW"), &dist, 1_000).is_ok());
}

#[test]
fn distribution_errors() {
    let e = escrow(300, vec![ms(1_000, flags(true, false, false, false))]);
    let resolver = addr("GRESOLVER");
    assert_eq!(
        DisputeManager::resolve_milestone_dispute(e.clone(), &resolver, 1, &addr("GTW"), &vec![(addr("GA"), 1)], 10),
        Err(ContractError::InvalidMileStoneIndex)
    );
    assert_eq!(
        DisputeManager::resolve_milestone_dispute(e.clone(), &resolver, 0, &addr("GTW"), &vec![(addr("GA"), 1), (addr("GB"), 0)], 10),
        Err(ContractError::AmountsToBeTransferredShouldBePositive)
    );
    let huge = escrow(300, vec![ms(i128::MAX, flags(true, false, false, false))]);
    assert_eq!(
        DisputeManager::resolve_milestone_dispute(huge, &resolver, 0, &addr("GTW"), &vec![(addr("GA"), i128::MAX), (addr("GB"), 1)], 10),
        Err(ContractError::Overflow)
    );
    let done = escrow(300, vec![ms(1_000, flags(false, true, false, true))]);
    let (after, payments) = DisputeManager::withdraw_remaining_funds(done.clone(), &resolver, &addr("GTW"), &vec![(addr("GA"), 1_000)], 1_000).unwrap();
    assert_eq!(after, done);
    assert_eq!(total(&payments), 1_000);
}

#[test]
fn milestone_batches() {
    let e = escrow(300, vec![ms(10, down()), ms(10, down())]);
    let sp = addr("GSP");
    let upd = |index: u32, status: &str| MilestoneUpdate { index, status: text(status), evidence: None };
    assert_eq!(validate_milestone_status_change_conditions(&e, &vec![upd(0, "done")], &addr("GX")), Err(ContractError::OnlyServiceProviderChangeMilstoneStatus));
    assert_eq!(validate_milestone_status_change_conditions(&e, &vec![upd(0, "done"), upd(1, "")], &sp), Err(ContractError::EmptyMilestoneStatus));
    assert_eq!(validate_milestone_status_change_conditions(&e, &vec![upd(5, "done"), upd(1, "")], &sp), Err(ContractError::InvalidMileStoneIndex));
    assert_eq!(validate_milestone_status_change_conditions(&escrow(300, vec![]), &vec![], &sp), Err(ContractError::NoMileStoneDefined));
    let approver = addr("GAPPROVER");
    assert_eq!(validate_milestone_flag_change_conditions(&e, &vec![0], &addr("GX")), Err(ContractError::OnlyApproverChangeMilstoneFlag));
    let mut blank = e.clone();
    blank.milestones[1].status = vec![];
    assert_eq!(validate_milestone_flag_change_conditions(&blank, &vec![0, 1], &approver), Err(ContractError::EmptyMilestoneStatus));
    let approved = MilestoneManager::approve_milestones(e.clone(), &vec![1], &approver).unwrap();
    assert!(!approved.milestones[0].flags.approved && approved.milestones[1].flags.approved);
    assert_eq!(validate_milestone_flag_change_conditions(&approved, &vec![1], &approver), Err(ContractError::MilestoneHasAlreadyBeenApproved));
}

#[test]
fn balances_query() {
    let a = vec![addr("CA"), addr("CB")];
    let b = EscrowManager::get_multiple_escrow_balances(&a, &vec![(5, 7), (9, 6)]).unwrap();
    assert_eq!(b.len(), 2);
    assert_eq!((b[1].address.clone(), b[1].balance, b[1].trustline_decimals), (addr("CB"), 9, 6));
    let many: Vec<Address> = (0..21).map(|i| addr(&format!("C{}", i))).collect();
    assert_eq!(EscrowManager::get_multiple_escrow_balances(&many, &vec![]), Err(ContractError::TooManyEscrowsRequested));
    assert_eq!(EscrowManager::get_escrow(None), Err(ContractError::EscrowNotFound));
    assert_eq!(EscrowManager::get_receiver(&ms(1, down())), addr("GRECEIVER"));
}

#[test]
fn initialize_then_resubmit_unchanged() {
    let e = escrow(300, vec![ms(10, down())]);
    let stored = EscrowManager::initialize_escrow(false, e.clone(), 0).unwrap();
    let again = EscrowManager::change_escrow_properties(&stored, &addr("GPLATFORM"), stored.clone(), 55).unwrap();
    assert_eq!(again, e);
}

#[test]
fn milestone_states_stay_exclusive() {
    let sp = addr("GSP");
    let e = escrow(300, vec![ms(100, down()), ms(100, down()), ms(100, down())]);
    let e = MilestoneManager::approve_milestones(e, &vec![0, 1], &addr("GAPPROVER")).unwrap();
    let upd = vec![MilestoneUpdate { index: 2, status: text("started"), evidence: Some(text("log")) }];
    let e = MilestoneManager::change_milestone_status(e, &upd, &sp).unwrap();
    assert_eq!(e.milestones[2].flags, down());
    assert_eq!(e.milestones[2].evidence, text("log"));
    let (e, _) = EscrowManager::release_milestone_funds(e, &addr("GSIGNER"), &addr("GTW"), 0, 300).unwrap();
    let e = DisputeManager::dispute_milestone(e, 1, &sp).unwrap();
    let (e, _) = DisputeManager::resolve_milestone_dispute(e, &addr("GRESOLVER"), 1, &addr("GTW"), &vec![(sp.clone(), 100)], 200).unwrap();
    let e = DisputeManager::dispute_milestone(e, 2, &sp).unwrap();
    for m in &e.milestones {
        let f = m.flags;
        let raised = [f.released, f.resolved, f.disputed].iter().filter(|b| **b).count();
        assert_eq!(raised, 1);
        assert_eq!(m.amount, 100);
    }
    assert!(EscrowManager::release_milestone_funds(e.clone(), &addr("GSIGNER"), &addr("GTW"), 1, 300).is_err());
    assert!(EscrowManager::release_milestone_funds(e.clone(), &addr("GSIGNER"), &addr("GTW"), 2, 300).is_err());
    assert_eq!(DisputeManager::dispute_milestone(e, 0, &sp), Err(ContractError::MilestoneAlreadyReleased));
}
