# escrow

The decision logic of a milestone-based escrow contract, verified with Verus.

An escrow names its parties (approver, service provider, platform, release
signer, dispute resolver, observers), a platform fee in basis points and a
list of milestones, each with an amount, a receiver and four flags
(approved, released, disputed, resolved). The library decides every
operation on it: creation, funding, updates by the platform, status
updates and approvals, releases, disputes, dispute resolutions and the
payout of funds left over. Each decision takes plain values (the stored
escrow, the balances read from the ledger) and returns the new escrow and
the token payments to make, or the error that refuses the operation.

Layout:

- `src/storage/types.rs`: the data types and their abstract views.
- `src/error.rs`: the errors.
- `src/modules/math`: checked arithmetic on amounts.
- `src/modules/fee`: the Trustless Work fee (0.3%) and the platform fee.
- `src/modules/helper`: comparison of role assignments.
- `src/escrow_core/validators`: the checks that guard each operation.
- `src/escrow_core/{escrow,milestone,dispute}.rs`: the operations.
- `src/escrow_core/lifecycle.rs`: what every operation keeps (the escrow
  invariant) and which operations a milestone's state still allows.
- `src/escrow_core/settlement.rs`: how much each payout sends.
- Distributions are lists of (recipient, amount) in the order of the
  contract's map, each recipient once. Each entry bears
  `amount * fees / total` of the fees, rounded down, so the payouts and fees
  add up to at least the distribution's total and exceed it by less than one
  unit per entry.
- `app/lib.rs`: the Soroban contract that authenticates callers, reads and
  writes the ledger and makes the transfers the library asks for.
