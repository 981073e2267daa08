use vstd::prelude::*;

use crate::ids::AccountId;

verus! {

/// The cadence at which installments are expected.
#[derive(Clone, Copy, Debug, PartialEq, Eq, Structural)]
pub enum InstallmentFrequency {
    Daily,
    Weekly,
    Monthly,
    Custom { seconds: u64 },
}

impl InstallmentFrequency {
    /// The cadence in seconds.  `Monthly` uses a nominal thirty days for
    /// schedule sizing; the actual monthly due date advances by calendar
    /// month.  A custom cadence wider than `i64` wraps negative and is
    /// rejected by the positivity checks of every caller.
    pub open spec fn spec_as_seconds(&self) -> i64 {
        match *self {
            InstallmentFrequency::Daily => 86_400,
            InstallmentFrequency::Weekly => 604_800,
            InstallmentFrequency::Monthly => 2_592_000,
            InstallmentFrequency::Custom { seconds } => seconds as i64,
        }
    }

    pub fn as_seconds(&self) -> (r: i64)
        ensures
            r == self.spec_as_seconds(),
    {
        match *self {
            InstallmentFrequency::Daily => 86_400,
            InstallmentFrequency::Weekly => 604_800,
            InstallmentFrequency::Monthly => 2_592_000,
            InstallmentFrequency::Custom { seconds } => #[verifier::truncate] (seconds as i64),
        }
    }
}

/// An installment financing agreement covering one equipment unit.  The
/// payee was resolved once at origination (the vendor, or the matched
/// funder) and is stored; payment and delivery re-validate against it.
#[derive(Clone, Copy, Debug)]
pub struct BNPLContract {
    pub borrower: AccountId,
    pub payee: AccountId,
    pub equipment: AccountId,
    pub equipment_unit_index: u64,
    pub total_amount: u64,
    pub amount_paid: u64,
    pub deposit: u64,
    pub start_date: i64,
    pub end_date: i64,
    pub contract_unique_id: AccountId,
    pub last_payment_date: i64,
    pub installment_count: u8,
    pub paid_installments: u8,
    pub installment_frequency: InstallmentFrequency,
    pub is_completed: bool,
    pub insurance_premium: Option<u64>,
    pub is_insured: bool,
    pub credit_score_delta: i8,
    pub stablecoin_mint: AccountId,
    pub escrow: AccountId,
}

impl BNPLContract {
    /// Contract soundness: the amount paid never exceeds the amount owed,
    /// completion means exactly that the full amount has been paid, and
    /// the insured flag mirrors the premium.
    pub open spec fn wf(&self) -> bool {
        &&& self.amount_paid <= self.total_amount
        &&& self.is_completed == (self.amount_paid >= self.total_amount)
        &&& self.is_insured == self.insurance_premium is Some
    }

    /// Everything owed under the contract: the principal plus the
    /// insurance premium when the contract is insured.
    pub open spec fn total_due(&self) -> int {
        self.total_amount + if self.insurance_premium is Some {
            self.insurance_premium.unwrap() as int
        } else {
            0
        }
    }
}

/// A sound contract never holds more than it is owed, and is completed
/// exactly when the full principal has been paid: the paid amount is
/// bounded by the total due (premium included), and the completion flag
/// agrees with the principal comparison.
pub proof fn lemma_paid_within_due(c: BNPLContract)
    requires
        c.wf(),
    ensures
        c.amount_paid <= c.total_due(),
        c.is_completed == (c.amount_paid >= c.total_amount),
{
}

/// A read-only projection of a contract's progress at a given time.
#[derive(Clone, Copy, Debug)]
pub struct ContractStatus {
    pub progress: u8,
    pub total_due: u64,
    pub remaining_amount: u64,
    pub time_since_last_payment: i64,
    pub is_payment_overdue: bool,
    pub next_payment_due: i64,
    pub insurance_premium: Option<u64>,
}

} // verus!
