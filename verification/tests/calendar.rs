use partpay::keep_same_day_for_payment;
use partpay::ErrorCode;

#[test]
fn monthly_advance_clamps_to_28_when_next_month_is_shorter() {
    // 2025-01-31 is the 31st of a 31-day month; February 2025 has 28 days.
    let jan_31_2025 = 1_738_281_600i64;
    let feb_28_2025 = 1_740_700_800i64;
    assert_eq!(keep_same_day_for_payment(jan_31_2025), Ok(feb_28_2025));
}

#[test]
fn monthly_advance_keeps_same_day() {
    let may_15_2031 = 1_936_569_600i64;
    let jun_15_2031 = 1_939_248_000i64;
    assert_eq!(keep_same_day_for_payment(may_15_2031), Ok(jun_15_2031));
}

#[test]
fn monthly_advance_wraps_december_into_next_year() {
    let dec_15_2024 = 1_734_220_800i64;
    let jan_15_2025 = 1_736_899_200i64;
    assert_eq!(keep_same_day_for_payment(dec_15_2024), Ok(jan_15_2025));
}

#[test]
fn monthly_advance_uses_leap_day_when_it_exists() {
    // January 29th, 2024: February 2024 has a 29th, so no clamping.
    let jan_29_2024 = 1_706_486_400i64;
    let feb_29_2024 = 1_709_164_800i64;
    assert_eq!(keep_same_day_for_payment(jan_29_2024), Ok(feb_29_2024));
}

#[test]
fn monthly_advance_drops_the_time_of_day() {
    // 13:45 on 2025-01-31 still advances to midnight on 2025-02-28.
    let jan_31_2025_afternoon = 1_738_331_100i64;
    let feb_28_2025 = 1_740_700_800i64;
    assert_eq!(keep_same_day_for_payment(jan_31_2025_afternoon), Ok(feb_28_2025));
}

#[test]
fn monthly_advance_rejects_timestamps_outside_the_calendar() {
    assert_eq!(
        keep_same_day_for_payment(i64::MIN),
        Err(ErrorCode::InvalidTimestamp)
    );
}
