use vstd::prelude::*;

verus! {

/// An opaque account identity.  The host ledger addresses every record —
/// vendors, equipment, contracts, escrows, token accounts, mints — by a key
/// derived outside the core; the core only ever compares such keys for
/// equality, so it carries them as plain opaque values.
#[derive(Clone, Copy, Debug, PartialEq, Eq, Hash, Structural)]
pub struct AccountId {
    pub id: u64,
}

/// One invocation of the external value-transfer collaborator: move exactly
/// `amount` of the asset `mint` from `from` to `to`, or fail without any
/// partial transfer.  The core never executes a transfer itself; an
/// operation that needs one returns this request, and the host commits the
/// returned record states only after the transfer succeeds.
#[derive(Clone, Copy, Debug, PartialEq, Eq, Structural)]
pub struct TransferRequest {
    pub from: AccountId,
    pub to: AccountId,
    pub mint: AccountId,
    pub amount: u64,
}

} // verus!
