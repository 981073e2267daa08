use vstd::prelude::*;

use crate::calendar::keep_same_day_for_payment;
use crate::calendar::monthly_due_date;
use crate::contract::BNPLContract;
use crate::contract::ContractStatus;
use crate::contract::InstallmentFrequency;
use crate::equipment::Equipment;
use crate::equipment::matching_offer_exists;
use crate::errors::ErrorCode;
use crate::ids::AccountId;
use crate::ids::TransferRequest;

verus! {

/// A payment may be routed to the contract's stored payee only while that
/// payee is still the listing's vendor or a funder with a live offer on
/// the listing.
pub open spec fn payee_valid(c: BNPLContract, e: Equipment) -> bool {
    c.payee == e.vendor || matching_offer_exists(e.funders@, c.payee)
}

/// The payment date a successful payment advances `last_payment_date` to:
/// daily and weekly cadences stamp the payment time, a monthly cadence
/// advances by one calendar month, and a custom cadence adds its width.
pub open spec fn spec_advanced_due_date(c: BNPLContract, now: i64) -> int {
    match c.installment_frequency {
        InstallmentFrequency::Daily => now as int,
        InstallmentFrequency::Weekly => now as int,
        InstallmentFrequency::Monthly => monthly_due_date(c.last_payment_date),
        InstallmentFrequency::Custom { seconds } => c.last_payment_date + (seconds as i64),
    }
}

/// The error an installment payment fails with before the date advance,
/// or `None` when every such check passes: authorization, completion,
/// payee validity, amount positivity, the overpayment bound, the deposit
/// floor on a first payment, and the counter and delta capacity.
pub open spec fn spec_make_payment_error(
    c: BNPLContract,
    e: Equipment,
    buyer: AccountId,
    payment_amount: u64,
) -> Option<ErrorCode> {
    if c.borrower != buyer {
        Some(ErrorCode::UnauthorizedBuyer)
    } else if c.is_completed {
        Some(ErrorCode::ContractAlreadyCompleted)
    } else if !payee_valid(c, e) {
        Some(ErrorCode::InvalidPayee)
    } else if payment_amount == 0 {
        Some(ErrorCode::InvalidPaymentAmount)
    } else if payment_amount > c.total_amount - c.amount_paid {
        Some(ErrorCode::Overpayment)
    } else if c.paid_installments == 0 && payment_amount < c.deposit {
        Some(ErrorCode::FirstPaymentBelowDeposit)
    } else if c.paid_installments == u8::MAX {
        Some(ErrorCode::MathOverflow)
    } else if c.amount_paid + payment_amount >= c.total_amount && c.credit_score_delta > i8::MAX
        - 10 {
        Some(ErrorCode::MathOverflow)
    } else if c.installment_frequency matches InstallmentFrequency::Custom { seconds }
        && !(i64::MIN <= c.last_payment_date + (seconds as i64) <= i64::MAX) {
        Some(ErrorCode::MathOverflow)
    } else {
        None
    }
}

/// Apply one installment payment to a contract.
///
/// The amount must be positive and at most the remaining balance; on a
/// very first payment it must also meet the deposit.  The returned
/// transfer moves exactly the amount from the buyer to the stored payee;
/// the host executes it and commits the contract only when it succeeds.
/// The paid amount and installment counter step, the due date advances
/// per the cadence, and reaching the full amount completes the contract
/// and applies a positive credit delta.  On any failure the contract is
/// unchanged: the failing checks and their order are
/// `spec_make_payment_error`, then `InvalidTimestamp` for a monthly date
/// outside the supported calendar range.
pub fn make_payment(
    contract: &mut BNPLContract,
    equipment: &Equipment,
    buyer: AccountId,
    payment_amount: u64,
    now: i64,
) -> (r: Result<TransferRequest, ErrorCode>)
    requires
        old(contract).wf(),
    ensures
        final(contract).wf(),
        r is Err ==> *final(contract) == *old(contract),
        spec_make_payment_error(*old(contract), *equipment, buyer, payment_amount) matches Some(e)
            ==> r == Err::<TransferRequest, ErrorCode>(e),
        r is Err ==> spec_make_payment_error(*old(contract), *equipment, buyer, payment_amount)
            is Some || (old(contract).installment_frequency is Monthly && r == Err::<
            TransferRequest,
            ErrorCode,
        >(ErrorCode::InvalidTimestamp)),
        spec_make_payment_error(*old(contract), *equipment, buyer, payment_amount) is None && (old(
            contract,
        ).installment_frequency is Monthly ==> 0 <= old(contract).last_payment_date
            <= 253_402_300_799) ==> r is Ok,
        r is Ok && old(contract).installment_frequency is Monthly ==> final(contract).last_payment_date > old(contract).last_payment_date,
        r matches Ok(t) ==> {
            let completed = old(contract).amount_paid + payment_amount >= old(
                contract,
            ).total_amount;
            &&& t == (TransferRequest {
                from: buyer,
                to: old(contract).payee,
                mint: old(contract).stablecoin_mint,
                amount: payment_amount,
            })
            &&& *final(contract) == (BNPLContract {
                amount_paid: (old(contract).amount_paid + payment_amount) as u64,
                paid_installments: (old(contract).paid_installments + 1) as u8,
                last_payment_date: spec_advanced_due_date(*old(contract), now) as i64,
                is_completed: completed,
                credit_score_delta: if completed {
                    (old(contract).credit_score_delta + 10) as i8
                } else {
                    old(contract).credit_score_delta
                },
                ..*old(contract)
            })
        },
{
    if contract.borrower != buyer {
        return Err(ErrorCode::UnauthorizedBuyer);
    }
    if contract.is_completed {
        return Err(ErrorCode::ContractAlreadyCompleted);
    }
    let payee_live = contract.payee == equipment.vendor || equipment.find_matching_offer(
        contract.payee,
    ).is_some();
    if !payee_live {
        return Err(ErrorCode::InvalidPayee);
    }
    if payment_amount == 0 {
        return Err(ErrorCode::InvalidPaymentAmount);
    }
    let remaining_amount = contract.total_amount - contract.amount_paid;
    if payment_amount > remaining_amount {
        return Err(ErrorCode::Overpayment);
    }
    if contract.paid_installments == 0 && payment_amount < contract.deposit {
        return Err(ErrorCode::FirstPaymentBelowDeposit);
    }
    if contract.paid_installments == u8::MAX {
        return Err(ErrorCode::MathOverflow);
    }
    let completed = contract.amount_paid + payment_amount >= contract.total_amount;
    if completed && contract.credit_score_delta > i8::MAX - 10 {
        return Err(ErrorCode::MathOverflow);
    }
    let new_last_payment_date: i64 = match contract.installment_frequency {
        InstallmentFrequency::Daily => now,
        InstallmentFrequency::Weekly => now,
        InstallmentFrequency::Monthly => match keep_same_day_for_payment(
            contract.last_payment_date,
        ) {
            Ok(d) => d,
            Err(e) => {
                return Err(e);
            },
        },
        InstallmentFrequency::Custom { seconds } => {
            let step = #[verifier::truncate] (seconds as i64);
            if step >= 0 && contract.last_payment_date > i64::MAX - step {
                return Err(ErrorCode::MathOverflow);
            }
            if step < 0 && contract.last_payment_date < i64::MIN - step {
                return Err(ErrorCode::MathOverflow);
            }
            contract.last_payment_date + step
        },
    };
    let transfer = TransferRequest {
        from: buyer,
        to: contract.payee,
        mint: contract.stablecoin_mint,
        amount: payment_amount,
    };
    contract.amount_paid = contract.amount_paid + payment_amount;
    contract.paid_installments = contract.paid_installments + 1;
    contract.last_payment_date = new_last_payment_date;
    if completed {
        contract.is_completed = true;
        contract.credit_score_delta = contract.credit_score_delta + 10;
    }
    Ok(transfer)
}

/// Classify a repayment: it is on time when the payment timestamp is no
/// later than one cadence after the last payment date as it stood before
/// this payment advanced it.  Being later than that, strictly, makes the
/// payment late.
pub fn is_payment_on_time(
    last_payment_date: i64,
    frequency: &InstallmentFrequency,
    payment_time: i64,
) -> (r: bool)
    ensures
        r == (payment_time <= last_payment_date + frequency.spec_as_seconds()),
{
    let freq = frequency.as_seconds();
    (payment_time as i128) <= (last_payment_date as i128) + (freq as i128)
}

/// Overpayment is always rejected: when every prior check passes but the
/// amount exceeds the remaining balance, a payment fails with
/// `Overpayment` — and so, by `make_payment`'s contract, the contract
/// record is unchanged and no transfer is produced.
pub proof fn lemma_overpayment_rejected(
    c: BNPLContract,
    e: Equipment,
    buyer: AccountId,
    payment_amount: u64,
)
    requires
        c.wf(),
        c.borrower == buyer,
        !c.is_completed,
        payee_valid(c, e),
        payment_amount > c.total_amount - c.amount_paid,
    ensures
        spec_make_payment_error(c, e, buyer, payment_amount) == Some(ErrorCode::Overpayment),
{
}

/// How far `now` lies between `start` and `end`, as a whole percentage:
/// rounded by adding half the span before dividing, and clamped to
/// [0, 100].  Meaningful only when the span is positive.
pub open spec fn spec_progress(now: i64, start: i64, end: i64) -> int {
    let elapsed = now - start;
    let span = end - start;
    if elapsed <= 0 {
        0
    } else if (100 * elapsed + span / 2) / span >= 100 {
        100
    } else {
        (100 * elapsed + span / 2) / span
    }
}

/// Project a contract's read-only status at time `now`: progress through
/// the schedule, the total due including any insurance premium, the
/// remaining balance, the elapsed time since the last payment, the next
/// due date one cadence after the last payment, and whether `now` is
/// strictly past it.  Fails with `MathOverflow` exactly when a checked
/// step fails: a timestamp difference or the next due date overflows,
/// the contract's dates span no positive duration, or the premium does
/// not fit on top of the total.
pub fn get_contract_status(contract: &BNPLContract, now: i64) -> (r: Result<
    ContractStatus,
    ErrorCode,
>)
    requires
        contract.wf(),
    ensures
        r is Err <==> {
            let freq = contract.installment_frequency.spec_as_seconds();
            ||| !(i64::MIN <= now - contract.start_date <= i64::MAX)
            ||| !(i64::MIN <= contract.end_date - contract.start_date <= i64::MAX)
            ||| contract.end_date - contract.start_date <= 0
            ||| contract.total_due() > u64::MAX
            ||| !(i64::MIN <= now - contract.last_payment_date <= i64::MAX)
            ||| !(i64::MIN <= contract.last_payment_date + freq <= i64::MAX)
        },
        r is Err ==> r == Err::<ContractStatus, ErrorCode>(ErrorCode::MathOverflow),
        r matches Ok(s) ==> {
            let freq = contract.installment_frequency.spec_as_seconds();
            &&& s.progress == spec_progress(now, contract.start_date, contract.end_date)
            &&& s.total_due == contract.total_due()
            &&& s.remaining_amount == contract.total_due() - contract.amount_paid
            &&& s.time_since_last_payment == now - contract.last_payment_date
            &&& s.next_payment_due == contract.last_payment_date + freq
            &&& s.is_payment_overdue == (now > contract.last_payment_date + freq)
            &&& s.insurance_premium == contract.insurance_premium
        },
{
    let time_since_start = match now.checked_sub(contract.start_date) {
        Some(v) => v,
        None => {
            return Err(ErrorCode::MathOverflow);
        },
    };
    let total_duration = match contract.end_date.checked_sub(contract.start_date) {
        Some(v) => v,
        None => {
            return Err(ErrorCode::MathOverflow);
        },
    };
    if total_duration <= 0 {
        return Err(ErrorCode::MathOverflow);
    }
    let elapsed: i128 = time_since_start as i128;
    let span: i128 = total_duration as i128;
    let scaled: i128 = 100 * elapsed + span / 2;
    let ratio: i128 = scaled / span;
    let progress: u8 = if elapsed <= 0 {
        0
    } else if ratio >= 100 {
        100
    } else {
        ratio as u8
    };
    let total_due = if contract.is_insured {
        let premium = match contract.insurance_premium {
            Some(p) => p,
            None => 0,
        };
        match contract.total_amount.checked_add(premium) {
            Some(v) => v,
            None => {
                return Err(ErrorCode::MathOverflow);
            },
        }
    } else {
        contract.total_amount
    };
    let remaining_amount = total_due - contract.amount_paid;
    let time_since_last_payment = match now.checked_sub(contract.last_payment_date) {
        Some(v) => v,
        None => {
            return Err(ErrorCode::MathOverflow);
        },
    };
    let next_payment_due = match contract.last_payment_date.checked_add(
        contract.installment_frequency.as_seconds(),
    ) {
        Some(v) => v,
        None => {
            return Err(ErrorCode::MathOverflow);
        },
    };
    let is_payment_overdue = now > next_payment_due;
    Ok(
        ContractStatus {
            progress,
            total_due,
            remaining_amount,
            time_since_last_payment,
            is_payment_overdue,
            next_payment_due,
            insurance_premium: contract.insurance_premium,
        },
    )
}

} // verus!
