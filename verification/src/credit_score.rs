use vstd::prelude::*;

use crate::contract::BNPLContract;
use crate::errors::ErrorCode;
use crate::ids::AccountId;

verus! {

/// One credit point per this many base units of payment: the monetary
/// scale of the stablecoin the system settles in.
pub const CREDIT_POINT_SCALE: u64 = 1_000_000;

/// A borrower's creditworthiness record: monotonic event counters and a
/// scaled integer score that rises on on-time payments and falls, never
/// below zero, on late ones.
#[derive(Clone, Copy, Debug)]
pub struct CreditScore {
    pub borrower: AccountId,
    pub on_time_payments: u32,
    pub late_payments: u32,
    pub defaults: u32,
    pub score: u64,
}

/// Credit points earned or lost by a payment of `amount`: a fixed linear
/// scaling of the amount by the monetary unit.
pub open spec fn spec_scaled_credit_points(amount: u64) -> u64 {
    amount / CREDIT_POINT_SCALE
}

pub fn scaled_credit_points(amount: u64) -> (r: u64)
    ensures
        r == spec_scaled_credit_points(amount),
{
    amount / CREDIT_POINT_SCALE
}

impl CreditScore {
    /// The score is displayed with two decimal places; this is the divisor
    /// between the stored integer and the displayed value.
    pub const SCALE_FACTOR: u64 = 100;

    /// Apply one classified repayment event.  An on-time payment raises
    /// the score by the scaled points; a late one lowers it, saturating at
    /// zero — the score can never go negative.
    pub fn update_score(&mut self, is_on_time: bool, on_time_score: u32)
        requires
            is_on_time ==> old(self).on_time_payments < u32::MAX && old(self).score
                + on_time_score <= u64::MAX,
            !is_on_time ==> old(self).late_payments < u32::MAX,
        ensures
            is_on_time ==> *final(self) == (CreditScore {
                on_time_payments: (old(self).on_time_payments + 1) as u32,
                score: (old(self).score + on_time_score) as u64,
                ..*old(self)
            }),
            !is_on_time ==> *final(self) == (CreditScore {
                late_payments: (old(self).late_payments + 1) as u32,
                score: if old(self).score >= on_time_score {
                    (old(self).score - on_time_score) as u64
                } else {
                    0u64
                },
                ..*old(self)
            }),
    {
        if is_on_time {
            self.on_time_payments = self.on_time_payments + 1;
            self.score = self.score + on_time_score as u64;
        } else {
            self.late_payments = self.late_payments + 1;
            self.score = if self.score >= on_time_score as u64 {
                self.score - on_time_score as u64
            } else {
                0
            };
        }
    }
}

/// Split a stored score into its displayed integer and fractional parts.
/// Fails with `BorrowerMismatch` when the record does not belong to the
/// given borrower.
pub fn view_credit_score(credit_score: &CreditScore, borrower: AccountId) -> (r: Result<
    (u64, u64),
    ErrorCode,
>)
    ensures
        r is Ok <==> credit_score.borrower == borrower,
        r matches Ok(parts) ==> parts.0 == credit_score.score / CreditScore::SCALE_FACTOR
            && parts.1 == credit_score.score % CreditScore::SCALE_FACTOR,
        r is Err ==> r == Err::<(u64, u64), ErrorCode>(ErrorCode::BorrowerMismatch),
{
    if credit_score.borrower != borrower {
        return Err(ErrorCode::BorrowerMismatch);
    }
    Ok((credit_score.score / CreditScore::SCALE_FACTOR, credit_score.score
        % CreditScore::SCALE_FACTOR))
}

/// Record one repayment event against a contract: classify it as on time
/// or late, adjust the borrower's credit score by the scaled points for
/// the amount, and stamp the direction of the adjustment on the contract.
///
/// Fails with `BorrowerMismatch` when the caller is not the contract's
/// borrower, with `InvalidContract` when the contract id does not match,
/// and with `MathOverflow` when a counter or the score cannot take one
/// more on-time event.  On any failure neither record changes.
pub fn track_repayment(
    contract: &mut BNPLContract,
    credit_score: &mut CreditScore,
    authority: AccountId,
    amount: u64,
    on_time: bool,
    contract_unique_id: AccountId,
) -> (r: Result<(), ErrorCode>)
    ensures
        r is Err ==> *final(contract) == *old(contract) && *final(credit_score) == *old(
            credit_score,
        ),
        old(contract).borrower != authority ==> r == Err::<(), ErrorCode>(
            ErrorCode::BorrowerMismatch,
        ),
        old(contract).borrower == authority && old(contract).contract_unique_id
            != contract_unique_id ==> r == Err::<(), ErrorCode>(ErrorCode::InvalidContract),
        r is Ok <==> {
            &&& old(contract).borrower == authority
            &&& old(contract).contract_unique_id == contract_unique_id
            &&& (on_time ==> old(credit_score).on_time_payments < u32::MAX && old(
                credit_score,
            ).score + spec_scaled_credit_points(amount) <= u64::MAX)
            &&& (!on_time ==> old(credit_score).late_payments < u32::MAX)
        },
        r is Ok ==> *final(contract) == (BNPLContract {
            credit_score_delta: if on_time {
                10i8
            } else {
                -10i8
            },
            ..*old(contract)
        }),
        r is Ok && on_time ==> *final(credit_score) == (CreditScore {
            borrower: authority,
            on_time_payments: (old(credit_score).on_time_payments + 1) as u32,
            score: (old(credit_score).score + spec_scaled_credit_points(amount)) as u64,
            ..*old(credit_score)
        }),
        r is Ok && !on_time ==> *final(credit_score) == (CreditScore {
            borrower: authority,
            late_payments: (old(credit_score).late_payments + 1) as u32,
            score: if old(credit_score).score >= spec_scaled_credit_points(amount) {
                (old(credit_score).score - spec_scaled_credit_points(amount)) as u64
            } else {
                0u64
            },
            ..*old(credit_score)
        }),
{
    if contract.borrower != authority {
        return Err(ErrorCode::BorrowerMismatch);
    }
    if contract.contract_unique_id != contract_unique_id {
        return Err(ErrorCode::InvalidContract);
    }
    let points = scaled_credit_points(amount);
    if on_time {
        if credit_score.on_time_payments == u32::MAX {
            return Err(ErrorCode::MathOverflow);
        }
        if credit_score.score > u64::MAX - points {
            return Err(ErrorCode::MathOverflow);
        }
    } else {
        if credit_score.late_payments == u32::MAX {
            return Err(ErrorCode::MathOverflow);
        }
    }
    credit_score.borrower = authority;
    if on_time {
        credit_score.on_time_payments = credit_score.on_time_payments + 1;
        credit_score.score = credit_score.score + points;
    } else {
        credit_score.late_payments = credit_score.late_payments + 1;
        credit_score.score = if credit_score.score >= points {
            credit_score.score - points
        } else {
            0
        };
    }
    contract.credit_score_delta = if on_time {
        10
    } else {
        -10
    };
    Ok(())
}

} // verus!
