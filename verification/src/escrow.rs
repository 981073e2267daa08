use vstd::prelude::*;

use crate::ids::AccountId;

verus! {

/// A custodial holding of funds for one contract or funding reservation.
/// `funder` is the depositor: the buyer for a contract deposit, the funder
/// for a funding reservation.  The held amount is released exactly once,
/// in full, to the resolved payee; `is_released` is the terminal flag of
/// the `Held -> Released` state machine.
#[derive(Clone, Copy, Debug)]
pub struct Escrow {
    pub equipment: AccountId,
    pub funder: AccountId,
    pub vendor: AccountId,
    pub amount: u64,
    pub is_released: bool,
}

} // verus!
