use partpay::create_contract;
use partpay::fund_equipment_for_borrower_no_payment;
use partpay::fund_equipment_for_listing;
use partpay::AccountId;
use partpay::DeliveryStatus;
use partpay::Equipment;
use partpay::EquipmentStatus;
use partpay::ErrorCode;
use partpay::InstallmentFrequency;
use partpay::PaymentPreference;

fn acct(id: u64) -> AccountId {
    AccountId { id }
}

fn listing(vendor: AccountId) -> Equipment {
    Equipment {
        vendor,
        asset: acct(90),
        unique_id: acct(91),
        name: String::from("drill press"),
        uri: String::from("https://example.com/drill.json"),
        price: 500,
        minimum_deposit: 50,
        max_duration_seconds: 2_592_000,
        payment_preference: PaymentPreference::Either { timeout: 3_600 },
        total_quantity: 10,
        funded_quantity: 0,
        sold_quantity: 0,
        funded_sold_quantity: 0,
        status: EquipmentStatus::Available,
        funders: Vec::new(),
        delivery_status: DeliveryStatus::Pending,
    }
}

#[test]
fn vendor_direct_contract_sells_one_unit() {
    let vendor = acct(1);
    let mut equipment = listing(vendor);
    let outcome = create_contract(
        &mut equipment,
        acct(10),
        acct(20),
        vendor,
        acct(30),
        acct(40),
        acct(50),
        1_000,
        InstallmentFrequency::Monthly,
        100,
        None,
        None,
        1_000_000,
    )
    .unwrap();
    assert_eq!(outcome.contract.installment_count, 1);
    assert_eq!(outcome.contract.paid_installments, 1);
    assert_eq!(outcome.contract.amount_paid, 100);
    assert_eq!(outcome.contract.deposit, 100);
    assert_eq!(outcome.contract.total_amount, 1_000);
    assert_eq!(outcome.contract.payee, vendor);
    assert_eq!(outcome.contract.borrower, acct(20));
    assert_eq!(outcome.contract.start_date, 1_000_000);
    assert_eq!(outcome.contract.end_date, 3_592_000);
    assert_eq!(outcome.contract.last_payment_date, 1_000_000);
    assert_eq!(outcome.contract.equipment_unit_index, 0);
    assert!(!outcome.contract.is_completed);
    assert!(!outcome.contract.is_insured);
    assert_eq!(equipment.sold_quantity, 1);
    assert_eq!(equipment.status, EquipmentStatus::Available);
    assert_eq!(outcome.transfer.amount, 100);
    assert_eq!(outcome.transfer.from, acct(20));
    assert_eq!(outcome.transfer.to, acct(40));
    assert_eq!(outcome.escrow.amount, 100);
    assert!(!outcome.escrow.is_released);
}

#[test]
fn deposit_below_funder_minimum_is_rejected_without_mutation() {
    let vendor = acct(1);
    let funder = acct(2);
    let mut equipment = listing(vendor);
    fund_equipment_for_listing(
        &mut equipment,
        acct(10),
        acct(11),
        funder,
        acct(30),
        acct(60),
        3,
        500,
        2_592_000,
    )
    .unwrap();
    assert_eq!(equipment.funded_quantity, 3);
    let before_sold = equipment.funded_sold_quantity;
    let r = create_contract(
        &mut equipment,
        acct(10),
        acct(20),
        funder,
        acct(30),
        acct(41),
        acct(51),
        1_000,
        InstallmentFrequency::Monthly,
        100,
        None,
        Some(funder),
        1_000_000,
    );
    assert_eq!(r.unwrap_err(), ErrorCode::DepositBelowMinimum);
    assert_eq!(equipment.funded_sold_quantity, before_sold);
    assert_eq!(equipment.funded_quantity, 3);
}

#[test]
fn funder_contract_takes_offer_terms() {
    let vendor = acct(1);
    let funder = acct(2);
    let mut equipment = listing(vendor);
    fund_equipment_for_listing(
        &mut equipment,
        acct(10),
        acct(11),
        funder,
        acct(30),
        acct(60),
        3,
        200,
        5_184_000,
    )
    .unwrap();
    let outcome = create_contract(
        &mut equipment,
        acct(10),
        acct(20),
        funder,
        acct(30),
        acct(41),
        acct(51),
        1_000,
        InstallmentFrequency::Monthly,
        250,
        None,
        Some(funder),
        1_000_000,
    )
    .unwrap();
    assert_eq!(outcome.contract.payee, funder);
    assert_eq!(outcome.contract.end_date, 1_000_000 + 5_184_000);
    assert_eq!(outcome.contract.installment_count, 2);
    assert_eq!(equipment.funded_sold_quantity, 1);
    assert_eq!(equipment.sold_quantity, 0);
}

#[test]
fn total_amount_must_exceed_deposit() {
    let vendor = acct(1);
    let mut equipment = listing(vendor);
    let r = create_contract(
        &mut equipment,
        acct(10),
        acct(20),
        vendor,
        acct(30),
        acct(40),
        acct(50),
        100,
        InstallmentFrequency::Daily,
        100,
        None,
        None,
        0,
    );
    assert_eq!(r.unwrap_err(), ErrorCode::InvalidAmount);
}

#[test]
fn zero_custom_frequency_is_rejected() {
    let vendor = acct(1);
    let mut equipment = listing(vendor);
    let r = create_contract(
        &mut equipment,
        acct(10),
        acct(20),
        vendor,
        acct(30),
        acct(40),
        acct(50),
        1_000,
        InstallmentFrequency::Custom { seconds: 0 },
        100,
        None,
        None,
        0,
    );
    assert_eq!(r.unwrap_err(), ErrorCode::InvalidFrequency);
}

#[test]
fn oversized_custom_frequency_wraps_negative_and_is_rejected() {
    let vendor = acct(1);
    let mut equipment = listing(vendor);
    let r = create_contract(
        &mut equipment,
        acct(10),
        acct(20),
        vendor,
        acct(30),
        acct(40),
        acct(50),
        1_000,
        InstallmentFrequency::Custom { seconds: u64::MAX },
        100,
        None,
        None,
        0,
    );
    assert_eq!(r.unwrap_err(), ErrorCode::InvalidFrequency);
}

#[test]
fn zero_insurance_premium_is_rejected() {
    let vendor = acct(1);
    let mut equipment = listing(vendor);
    let r = create_contract(
        &mut equipment,
        acct(10),
        acct(20),
        vendor,
        acct(30),
        acct(40),
        acct(50),
        1_000,
        InstallmentFrequency::Daily,
        100,
        Some(0),
        None,
        0,
    );
    assert_eq!(r.unwrap_err(), ErrorCode::InvalidInsurancePremium);
}

#[test]
fn vendor_path_runs_out_of_stock() {
    let vendor = acct(1);
    let mut equipment = listing(vendor);
    equipment.total_quantity = 1;
    equipment.sold_quantity = 1;
    let r = create_contract(
        &mut equipment,
        acct(10),
        acct(20),
        vendor,
        acct(30),
        acct(40),
        acct(50),
        1_000,
        InstallmentFrequency::Daily,
        100,
        None,
        None,
        0,
    );
    assert_eq!(r.unwrap_err(), ErrorCode::OutOfStock);
}

#[test]
fn funder_path_without_funded_units_is_rejected() {
    let vendor = acct(1);
    let mut equipment = listing(vendor);
    let r = create_contract(
        &mut equipment,
        acct(10),
        acct(20),
        acct(2),
        acct(30),
        acct(40),
        acct(50),
        1_000,
        InstallmentFrequency::Daily,
        100,
        None,
        Some(acct(2)),
        0,
    );
    assert_eq!(r.unwrap_err(), ErrorCode::NoFundedUnitsAvailable);
}

#[test]
fn unknown_funder_is_rejected() {
    let vendor = acct(1);
    let funder = acct(2);
    let mut equipment = listing(vendor);
    fund_equipment_for_listing(
        &mut equipment,
        acct(10),
        acct(11),
        funder,
        acct(30),
        acct(60),
        3,
        200,
        5_184_000,
    )
    .unwrap();
    let r = create_contract(
        &mut equipment,
        acct(10),
        acct(20),
        acct(3),
        acct(30),
        acct(40),
        acct(50),
        1_000,
        InstallmentFrequency::Daily,
        250,
        None,
        Some(acct(3)),
        0,
    );
    assert_eq!(r.unwrap_err(), ErrorCode::NoAvailableFunder);
}

#[test]
fn payee_must_match_resolved_payee() {
    let vendor = acct(1);
    let mut equipment = listing(vendor);
    let r = create_contract(
        &mut equipment,
        acct(10),
        acct(20),
        acct(99),
        acct(30),
        acct(40),
        acct(50),
        1_000,
        InstallmentFrequency::Daily,
        100,
        None,
        None,
        0,
    );
    assert_eq!(r.unwrap_err(), ErrorCode::InvalidPayee);
}

#[test]
fn offer_without_duration_is_rejected() {
    let vendor = acct(1);
    let funder = acct(2);
    let mut equipment = listing(vendor);
    fund_equipment_for_borrower_no_payment(
        &mut equipment,
        acct(10),
        acct(11),
        funder,
        acct(30),
        acct(60),
        2,
        acct(20),
    )
    .unwrap();
    let r = create_contract(
        &mut equipment,
        acct(10),
        acct(20),
        funder,
        acct(30),
        acct(40),
        acct(50),
        1_000,
        InstallmentFrequency::Daily,
        100,
        None,
        Some(funder),
        0,
    );
    assert_eq!(r.unwrap_err(), ErrorCode::InvalidDuration);
}

#[test]
fn schedule_wider_than_the_counter_is_rejected() {
    let vendor = acct(1);
    let mut equipment = listing(vendor);
    equipment.max_duration_seconds = 86_400 * 300;
    let r = create_contract(
        &mut equipment,
        acct(10),
        acct(20),
        vendor,
        acct(30),
        acct(40),
        acct(50),
        1_000,
        InstallmentFrequency::Daily,
        100,
        None,
        None,
        0,
    );
    assert_eq!(r.unwrap_err(), ErrorCode::TooManyInstallments);
}

#[test]
fn end_date_overflow_is_rejected() {
    let vendor = acct(1);
    let mut equipment = listing(vendor);
    let r = create_contract(
        &mut equipment,
        acct(10),
        acct(20),
        vendor,
        acct(30),
        acct(40),
        acct(50),
        1_000,
        InstallmentFrequency::Monthly,
        100,
        None,
        None,
        i64::MAX - 1,
    );
    assert_eq!(r.unwrap_err(), ErrorCode::MathOverflow);
}

#[test]
fn selling_every_unit_marks_the_listing_sold() {
    let vendor = acct(1);
    let mut equipment = listing(vendor);
    equipment.total_quantity = 1;
    create_contract(
        &mut equipment,
        acct(10),
        acct(20),
        vendor,
        acct(30),
        acct(40),
        acct(50),
        1_000,
        InstallmentFrequency::Daily,
        100,
        None,
        None,
        0,
    )
    .unwrap();
    assert_eq!(equipment.sold_quantity, 1);
    assert_eq!(equipment.status, EquipmentStatus::Sold);
}

#[test]
fn exhausting_vendor_capacity_marks_partially_sold() {
    let vendor = acct(1);
    let funder = acct(2);
    let mut equipment = listing(vendor);
    equipment.total_quantity = 2;
    fund_equipment_for_listing(
        &mut equipment,
        acct(10),
        acct(11),
        funder,
        acct(30),
        acct(60),
        1,
        200,
        5_184_000,
    )
    .unwrap();
    create_contract(
        &mut equipment,
        acct(10),
        acct(20),
        vendor,
        acct(30),
        acct(40),
        acct(50),
        1_000,
        InstallmentFrequency::Daily,
        100,
        None,
        None,
        0,
    )
    .unwrap();
    assert_eq!(equipment.sold_quantity, 1);
    assert_eq!(equipment.status, EquipmentStatus::PartiallySold);
}
