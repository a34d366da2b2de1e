use vstd::prelude::*;

verus! {

/// Byte-wise equality of two byte strings.
pub fn bytes_equal(a: &Vec<u8>, b: &Vec<u8>) -> (r: bool)
    ensures
        r == (a@ == b@),
{
    if a.len() != b.len() {
        return false;
    }
    let n = a.len();
    let mut i: usize = 0;
    while i < n
        invariant
            n == a.len(),
            n == b.len(),
            i <= n,
            forall|j: int| 0 <= j < i ==> a@[j] == b@[j],
        decreases n - i,
    {
        if a[i] != b[i] {
            return false;
        }
        i = i + 1;
    }
    assert(a@ =~= b@);
    true
}

/// An account or contract on the ledger, identified by its strkey bytes.
#[derive(Clone, Debug, PartialEq, Eq)]
pub struct Address {
    pub strkey: Vec<u8>,
}

impl View for Address {
    type V = Seq<u8>;

    open spec fn view(&self) -> Seq<u8> {
        self.strkey@
    }
}

impl Address {
    /// Whether two addresses are the same account.
    pub fn same_as(&self, other: &Address) -> (r: bool)
        ensures
            r == (self@ == other@),
    {
        bytes_equal(&self.strkey, &other.strkey)
    }

    pub fn clone_address(&self) -> (r: Address)
        ensures
            r@ == self@,
    {
        Address { strkey: self.strkey.clone() }
    }
}

/// The state flags of a milestone.
#[derive(Clone, Copy, Debug, PartialEq, Eq, Structural)]
pub struct Flags {
    pub disputed: bool,
    pub released: bool,
    pub resolved: bool,
    pub approved: bool,
}

impl Flags {
    /// Whether any flag is raised.
    pub open spec fn any(self) -> bool {
        self.disputed || self.released || self.resolved || self.approved
    }
}

/// The abstract value of a milestone.
pub struct MilestoneView {
    pub description: Seq<u8>,
    pub status: Seq<u8>,
    pub evidence: Seq<u8>,
    pub amount: i128,
    pub flags: Flags,
    pub receiver: Seq<u8>,
}

/// One stage of the work, with the amount it pays and who receives it.
#[derive(Clone, Debug, PartialEq, Eq)]
pub struct Milestone {
    pub description: Vec<u8>,
    pub status: Vec<u8>,
    pub evidence: Vec<u8>,
    pub amount: i128,
    pub flags: Flags,
    pub receiver: Address,
}

impl View for Milestone {
    type V = MilestoneView;

    open spec fn view(&self) -> MilestoneView {
        MilestoneView {
            description: self.description@,
            status: self.status@,
            evidence: self.evidence@,
            amount: self.amount,
            flags: self.flags,
            receiver: self.receiver@,
        }
    }
}

impl Milestone {
    /// Whether two milestones hold the same values.
    pub fn same_as(&self, other: &Milestone) -> (r: bool)
        ensures
            r == (self@ == other@),
    {
        bytes_equal(&self.description, &other.description) && bytes_equal(
            &self.status,
            &other.status,
        ) && bytes_equal(&self.evidence, &other.evidence) && self.amount == other.amount
            && self.flags == other.flags && self.receiver.same_as(&other.receiver)
    }

    pub fn clone_milestone(&self) -> (r: Milestone)
        ensures
            r@ == self@,
    {
        Milestone {
            description: self.description.clone(),
            status: self.status.clone(),
            evidence: self.evidence.clone(),
            amount: self.amount,
            flags: self.flags,
            receiver: self.receiver.clone_address(),
        }
    }
}

/// The abstract value of a milestone update.
pub struct MilestoneUpdateView {
    pub index: u32,
    pub status: Seq<u8>,
    pub evidence: Option<Seq<u8>>,
}

/// A request to set the status (and possibly the evidence) of a milestone.
#[derive(Clone, Debug, PartialEq, Eq)]
pub struct MilestoneUpdate {
    pub index: u32,
    pub status: Vec<u8>,
    pub evidence: Option<Vec<u8>>,
}

impl View for MilestoneUpdate {
    type V = MilestoneUpdateView;

    open spec fn view(&self) -> MilestoneUpdateView {
        MilestoneUpdateView {
            index: self.index,
            status: self.status@,
            evidence: match self.evidence {
                Some(e) => Some(e@),
                None => None,
            },
        }
    }
}

/// The abstract value of the roles of an escrow.
pub struct RolesView {
    pub approver: Seq<u8>,
    pub service_provider: Seq<u8>,
    pub platform: Seq<u8>,
    pub release_signer: Seq<u8>,
    pub dispute_resolver: Seq<u8>,
    pub observers: Seq<Seq<u8>>,
}

/// The parties of an escrow.
#[derive(Clone, Debug, PartialEq, Eq)]
pub struct Roles {
    pub approver: Address,
    pub service_provider: Address,
    pub platform: Address,
    pub release_signer: Address,
    pub dispute_resolver: Address,
    pub observers: Vec<Address>,
}

impl View for Roles {
    type V = RolesView;

    open spec fn view(&self) -> RolesView {
        RolesView {
            approver: self.approver@,
            service_provider: self.service_provider@,
            platform: self.platform@,
            release_signer: self.release_signer@,
            dispute_resolver: self.dispute_resolver@,
            observers: self.observers@.map_values(|a: Address| a@),
        }
    }
}

/// Whether two address lists hold the same addresses in the same order.
pub fn addresses_equal(a: &Vec<Address>, b: &Vec<Address>) -> (r: bool)
    ensures
        r == (a@.map_values(|x: Address| x@) == b@.map_values(|x: Address| x@)),
{
    let ghost va = a@.map_values(|x: Address| x@);
    let ghost vb = b@.map_values(|x: Address| x@);
    if a.len() != b.len() {
        assert(va.len() != vb.len());
        return false;
    }
    let n = a.len();
    let mut i: usize = 0;
    while i < n
        invariant
            n == a.len(),
            n == b.len(),
            i <= n,
            va == a@.map_values(|x: Address| x@),
            vb == b@.map_values(|x: Address| x@),
            forall|j: int| 0 <= j < i ==> va[j] == vb[j],
        decreases n - i,
    {
        if !a[i].same_as(&b[i]) {
            assert(va[i as int] != vb[i as int]);
            return false;
        }
        i = i + 1;
    }
    assert(va =~= vb);
    true
}

/// Whether two milestone lists hold the same milestones in the same order.
pub fn milestones_equal(a: &Vec<Milestone>, b: &Vec<Milestone>) -> (r: bool)
    ensures
        r == (a@.map_values(|m: Milestone| m@) == b@.map_values(|m: Milestone| m@)),
{
    let ghost va = a@.map_values(|m: Milestone| m@);
    let ghost vb = b@.map_values(|m: Milestone| m@);
    if a.len() != b.len() {
        assert(va.len() != vb.len());
        return false;
    }
    let n = a.len();
    let mut i: usize = 0;
    while i < n
        invariant
            n == a.len(),
            n == b.len(),
            i <= n,
            va == a@.map_values(|m: Milestone| m@),
            vb == b@.map_values(|m: Milestone| m@),
            forall|j: int| 0 <= j < i ==> va[j] == vb[j],
        decreases n - i,
    {
        if !a[i].same_as(&b[i]) {
            assert(va[i as int] != vb[i as int]);
            return false;
        }
        i = i + 1;
    }
    assert(va =~= vb);
    true
}

impl Roles {
    /// Whether two role assignments are identical, observers included.
    pub fn same_as(&self, other: &Roles) -> (r: bool)
        ensures
            r == (self@ == other@),
    {
        self.approver.same_as(&other.approver) && self.service_provider.same_as(
            &other.service_provider,
        ) && self.platform.same_as(&other.platform) && self.release_signer.same_as(
            &other.release_signer,
        ) && self.dispute_resolver.same_as(&other.dispute_resolver) && addresses_equal(
            &self.observers,
            &other.observers,
        )
    }
}

/// The token in which an escrow is held.
#[derive(Clone, Debug, PartialEq, Eq)]
pub struct Trustline {
    pub address: Address,
}

/// The abstract value of an escrow.
pub struct EscrowView {
    pub engagement_id: Seq<u8>,
    pub title: Seq<u8>,
    pub description: Seq<u8>,
    pub roles: RolesView,
    pub platform_fee: u32,
    pub milestones: Seq<MilestoneView>,
    pub trustline: Seq<u8>,
    pub receiver_memo: u32,
}

/// An escrow agreement: its parties, its fee and its milestones.
#[derive(Clone, Debug, PartialEq, Eq)]
pub struct Escrow {
    pub engagement_id: Vec<u8>,
    pub title: Vec<u8>,
    pub description: Vec<u8>,
    pub roles: Roles,
    pub platform_fee: u32,
    pub milestones: Vec<Milestone>,
    pub trustline: Trustline,
    pub receiver_memo: u32,
}

impl View for Escrow {
    type V = EscrowView;

    open spec fn view(&self) -> EscrowView {
        EscrowView {
            engagement_id: self.engagement_id@,
            title: self.title@,
            description: self.description@,
            roles: self.roles@,
            platform_fee: self.platform_fee,
            milestones: self.milestones@.map_values(|m: Milestone| m@),
            trustline: self.trustline.address@,
            receiver_memo: self.receiver_memo,
        }
    }
}

impl Escrow {
    /// Whether two escrows hold the same values.
    pub fn same_as(&self, other: &Escrow) -> (r: bool)
        ensures
            r == (self@ == other@),
    {
        bytes_equal(&self.engagement_id, &other.engagement_id) && bytes_equal(
            &self.title,
            &other.title,
        ) && bytes_equal(&self.description, &other.description) && self.roles.same_as(
            &other.roles,
        ) && self.platform_fee == other.platform_fee && milestones_equal(
            &self.milestones,
            &other.milestones,
        ) && self.trustline.address.same_as(&other.trustline.address) && self.receiver_memo
            == other.receiver_memo
    }
}

/// The token balance held at an address.
#[derive(Clone, Debug, PartialEq, Eq)]
pub struct AddressBalance {
    pub address: Address,
    pub balance: i128,
    pub trustline_decimals: u32,
}

/// The abstract value of a payment.
pub struct PaymentView {
    pub to: Seq<u8>,
    pub amount: i128,
}

/// A transfer of `amount` tokens of the escrow's trustline out of the
/// contract to `to`.
#[derive(Clone, Debug, PartialEq, Eq)]
pub struct Payment {
    pub to: Address,
    pub amount: i128,
}

impl View for Payment {
    type V = PaymentView;

    open spec fn view(&self) -> PaymentView {
        PaymentView { to: self.to@, amount: self.amount }
    }
}

/// The abstract values of a list of payments.
pub open spec fn payments_view(payments: Seq<Payment>) -> Seq<PaymentView> {
    payments.map_values(|p: Payment| p@)
}

/// The abstract value of a distribution: who gets how much. A
/// distribution lists each recipient once (see `distinct_recipients`), in
/// the order in which the contract's map holds its keys; the payments
/// follow that order, and the amounts do not depend on it.
pub open spec fn distribution_view(d: Seq<(Address, i128)>) -> Seq<(Seq<u8>, i128)> {
    d.map_values(|e: (Address, i128)| (e.0@, e.1))
}

/// The storage key under which the escrow is kept.
#[derive(Clone, Copy, Debug, PartialEq, Eq, Structural)]
pub enum DataKey {
    Escrow,
}

} // verus!
