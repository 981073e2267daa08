use vstd::prelude::*;

use crate::credit_score::CreditScore;
use crate::ids::AccountId;

verus! {

/// A borrower's directory record, created once at onboarding and linked to
/// its credit-score record.
#[derive(Clone, Copy, Debug)]
pub struct Borrower {
    pub authority: AccountId,
    pub borrower_pubkey: AccountId,
    pub credit_score: AccountId,
    pub total_loans: u64,
    pub total_repayments: u64,
    pub last_repayment_date: i64,
}

/// Onboard a borrower: a fresh directory record with zeroed totals and a
/// fresh credit-score record with zeroed counters and score.
pub fn initialize_borrower(
    authority: AccountId,
    borrower_key: AccountId,
    credit_score_key: AccountId,
) -> (r: (Borrower, CreditScore))
    ensures
        r.0 == (Borrower {
            authority,
            borrower_pubkey: borrower_key,
            credit_score: credit_score_key,
            total_loans: 0u64,
            total_repayments: 0u64,
            last_repayment_date: 0i64,
        }),
        r.1 == (CreditScore {
            borrower: borrower_key,
            on_time_payments: 0u32,
            late_payments: 0u32,
            defaults: 0u32,
            score: 0u64,
        }),
{
    let borrower = Borrower {
        authority,
        borrower_pubkey: borrower_key,
        credit_score: credit_score_key,
        total_loans: 0,
        total_repayments: 0,
        last_repayment_date: 0,
    };
    let credit_score = CreditScore {
        borrower: borrower_key,
        on_time_payments: 0,
        late_payments: 0,
        defaults: 0,
        score: 0,
    };
    (borrower, credit_score)
}

} // verus!
