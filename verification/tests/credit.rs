use partpay::initialize_borrower;
use partpay::is_payment_on_time;
use partpay::scaled_credit_points;
use partpay::track_repayment;
use partpay::view_credit_score;
use partpay::AccountId;
use partpay::BNPLContract;
use partpay::CreditScore;
use partpay::ErrorCode;
use partpay::InstallmentFrequency;

fn acct(id: u64) -> AccountId {
    AccountId { id }
}

fn contract(borrower: AccountId) -> BNPLContract {
    BNPLContract {
        borrower,
        payee: acct(1),
        equipment: acct(10),
        equipment_unit_index: 0,
        total_amount: 1_000,
        amount_paid: 100,
        deposit: 100,
        start_date: 0,
        end_date: 2_592_000,
        contract_unique_id: acct(50),
        last_payment_date: 0,
        installment_count: 1,
        paid_installments: 1,
        installment_frequency: InstallmentFrequency::Daily,
        is_completed: false,
        insurance_premium: None,
        is_insured: false,
        credit_score_delta: 0,
        stablecoin_mint: acct(30),
        escrow: acct(40),
    }
}

fn fresh_score(borrower: AccountId) -> CreditScore {
    CreditScore {
        borrower,
        on_time_payments: 0,
        late_payments: 0,
        defaults: 0,
        score: 0,
    }
}

#[test]
fn borrower_onboarding_starts_at_zero() {
    let (b, cs) = initialize_borrower(acct(5), acct(6), acct(7));
    assert_eq!(b.authority, acct(5));
    assert_eq!(b.borrower_pubkey, acct(6));
    assert_eq!(b.credit_score, acct(7));
    assert_eq!(b.total_loans, 0);
    assert_eq!(b.total_repayments, 0);
    assert_eq!(b.last_repayment_date, 0);
    assert_eq!(cs.borrower, acct(6));
    assert_eq!(cs.score, 0);
    assert_eq!(cs.on_time_payments, 0);
    assert_eq!(cs.late_payments, 0);
    assert_eq!(cs.defaults, 0);
}

#[test]
fn credit_points_scale_with_the_monetary_unit() {
    assert_eq!(scaled_credit_points(5_500_000), 5);
    assert_eq!(scaled_credit_points(999_999), 0);
    assert_eq!(scaled_credit_points(1_000_000), 1);
}

#[test]
fn on_time_repayment_raises_the_score() {
    let borrower = acct(20);
    let mut c = contract(borrower);
    let mut cs = fresh_score(borrower);
    track_repayment(&mut c, &mut cs, borrower, 5_500_000, true, acct(50)).unwrap();
    assert_eq!(cs.score, 5);
    assert_eq!(cs.on_time_payments, 1);
    assert_eq!(cs.late_payments, 0);
    assert_eq!(c.credit_score_delta, 10);
}

#[test]
fn late_repayment_lowers_the_score() {
    let borrower = acct(20);
    let mut c = contract(borrower);
    let mut cs = fresh_score(borrower);
    cs.score = 7;
    track_repayment(&mut c, &mut cs, borrower, 5_000_000, false, acct(50)).unwrap();
    assert_eq!(cs.score, 2);
    assert_eq!(cs.late_payments, 1);
    assert_eq!(c.credit_score_delta, -10);
}

#[test]
fn repeated_late_repayments_saturate_at_zero() {
    let borrower = acct(20);
    let mut c = contract(borrower);
    let mut cs = fresh_score(borrower);
    cs.score = 3;
    for _ in 0..5 {
        track_repayment(&mut c, &mut cs, borrower, 2_000_000, false, acct(50)).unwrap();
        assert!(cs.score <= 3);
    }
    assert_eq!(cs.score, 0);
    assert_eq!(cs.late_payments, 5);
}

#[test]
fn timeliness_compares_against_one_cadence_strictly() {
    let f = InstallmentFrequency::Daily;
    assert!(is_payment_on_time(1_000, &f, 87_400));
    assert!(!is_payment_on_time(1_000, &f, 87_401));
    let c = InstallmentFrequency::Custom { seconds: 60 };
    assert!(is_payment_on_time(i64::MAX - 30, &c, i64::MAX));
}

#[test]
fn update_score_saturates_at_zero() {
    let mut cs = fresh_score(acct(20));
    cs.score = 4;
    cs.update_score(false, 10);
    assert_eq!(cs.score, 0);
    assert_eq!(cs.late_payments, 1);
    cs.update_score(false, 10);
    assert_eq!(cs.score, 0);
    assert_eq!(cs.late_payments, 2);
    cs.update_score(true, 7);
    assert_eq!(cs.score, 7);
    assert_eq!(cs.on_time_payments, 1);
}

#[test]
fn repayment_for_another_borrower_is_rejected() {
    let borrower = acct(20);
    let mut c = contract(borrower);
    let mut cs = fresh_score(borrower);
    let r = track_repayment(&mut c, &mut cs, acct(21), 1_000_000, true, acct(50));
    assert_eq!(r.unwrap_err(), ErrorCode::BorrowerMismatch);
    assert_eq!(cs.score, 0);
    assert_eq!(c.credit_score_delta, 0);
}

#[test]
fn repayment_against_the_wrong_contract_is_rejected() {
    let borrower = acct(20);
    let mut c = contract(borrower);
    let mut cs = fresh_score(borrower);
    let r = track_repayment(&mut c, &mut cs, borrower, 1_000_000, true, acct(51));
    assert_eq!(r.unwrap_err(), ErrorCode::InvalidContract);
    assert_eq!(cs.on_time_payments, 0);
}

#[test]
fn score_overflow_is_reported_and_nothing_changes() {
    let borrower = acct(20);
    let mut c = contract(borrower);
    let mut cs = fresh_score(borrower);
    cs.score = u64::MAX;
    let r = track_repayment(&mut c, &mut cs, borrower, 1_000_000, true, acct(50));
    assert_eq!(r.unwrap_err(), ErrorCode::MathOverflow);
    assert_eq!(cs.score, u64::MAX);
    assert_eq!(cs.on_time_payments, 0);
}

#[test]
fn score_splits_into_display_parts() {
    let borrower = acct(20);
    let mut cs = fresh_score(borrower);
    cs.score = 1_234;
    assert_eq!(view_credit_score(&cs, borrower), Ok((12, 34)));
}

#[test]
fn viewing_someone_elses_score_is_rejected() {
    let borrower = acct(20);
    let cs = fresh_score(borrower);
    let r = view_credit_score(&cs, acct(21));
    assert_eq!(r.unwrap_err(), ErrorCode::BorrowerMismatch);
}
