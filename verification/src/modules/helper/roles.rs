use vstd::prelude::*;

use crate::storage::types::{Roles, RolesView};

verus! {

/// Whether two role assignments name the same five parties; the observers
/// are not compared.
pub open spec fn same_parties(a: RolesView, b: RolesView) -> bool {
    &&& a.approver == b.approver
    &&& a.service_provider == b.service_provider
    &&& a.platform == b.platform
    &&& a.release_signer == b.release_signer
    &&& a.dispute_resolver == b.dispute_resolver
}

/// Compares the approver, service provider, platform, release signer and
/// dispute resolver of two role assignments, ignoring the observers.
pub fn roles_equal_excluding_observers(existing: &Roles, new: &Roles) -> (r: bool)
    ensures
        r == same_parties(existing@, new@),
{
    existing.approver.same_as(&new.approver) && existing.service_provider.same_as(
        &new.service_provider,
    ) && existing.platform.same_as(&new.platform) && existing.release_signer.same_as(
        &new.release_signer,
    ) && existing.dispute_resolver.same_as(&new.dispute_resolver)
}

} // verus!
