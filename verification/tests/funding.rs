use partpay::fund_equipment;
use partpay::fund_equipment_for_borrower_no_payment;
use partpay::fund_equipment_for_borrower_with_payment;
use partpay::fund_equipment_for_listing;
use partpay::AccountId;
use partpay::DeliveryStatus;
use partpay::Equipment;
use partpay::EquipmentStatus;
use partpay::ErrorCode;
use partpay::PaymentPreference;

fn acct(id: u64) -> AccountId {
    AccountId { id }
}

fn listing(vendor: AccountId) -> Equipment {
    Equipment {
        vendor,
        asset: acct(90),
        unique_id: acct(91),
        name: String::from("excavator"),
        uri: String::from("https://example.com/excavator.json"),
        price: 500,
        minimum_deposit: 50,
        max_duration_seconds: 2_592_000,
        payment_preference: PaymentPreference::Either { timeout: 3_600 },
        total_quantity: 10,
        funded_quantity: 0,
        sold_quantity: 0,
        funded_sold_quantity: 0,
        status: EquipmentStatus::Available,
        funders: Vec::new(),
        delivery_status: DeliveryStatus::Pending,
    }
}

#[test]
fn direct_funding_pays_the_vendor_and_closes_the_window() {
    let vendor = acct(1);
    let funder = acct(2);
    let mut equipment = listing(vendor);
    let t = fund_equipment(&mut equipment, funder, acct(30), 3, 200, 5_184_000, 600).unwrap();
    assert_eq!(t.amount, 1_500);
    assert_eq!(t.from, funder);
    assert_eq!(t.to, vendor);
    assert_eq!(equipment.funded_quantity, 3);
    assert_eq!(equipment.funders.len(), 1);
    assert_eq!(equipment.funders[0].funder, funder);
    assert_eq!(equipment.funders[0].quantity, 3);
    assert_eq!(equipment.funders[0].funder_price, 600);
    assert_eq!(equipment.funders[0].escrow, None);
    assert_eq!(equipment.status, EquipmentStatus::Funded);
    assert!(matches!(
        equipment.payment_preference,
        PaymentPreference::VendorOnly
    ));
}

#[test]
fn direct_funding_requires_an_open_window() {
    let vendor = acct(1);
    let mut equipment = listing(vendor);
    equipment.payment_preference = PaymentPreference::VendorOnly;
    let r = fund_equipment(&mut equipment, acct(2), acct(30), 3, 200, 5_184_000, 600);
    assert_eq!(r.unwrap_err(), ErrorCode::InvalidPaymentPreference);
}

#[test]
fn direct_funding_accepts_a_reserved_listing() {
    let vendor = acct(1);
    let mut equipment = listing(vendor);
    equipment.status = EquipmentStatus::Reserved;
    let t = fund_equipment(&mut equipment, acct(2), acct(30), 2, 200, 5_184_000, 600).unwrap();
    assert_eq!(t.amount, 1_000);
    assert_eq!(equipment.funded_quantity, 2);
    assert_eq!(equipment.status, EquipmentStatus::Funded);
}

#[test]
fn direct_funding_rejects_a_sold_listing() {
    let vendor = acct(1);
    let mut equipment = listing(vendor);
    equipment.status = EquipmentStatus::Sold;
    let r = fund_equipment(&mut equipment, acct(2), acct(30), 2, 200, 5_184_000, 600);
    assert_eq!(r.unwrap_err(), ErrorCode::EquipmentNotAvailable);
}

#[test]
fn direct_funding_rejects_an_already_funded_listing() {
    let vendor = acct(1);
    let mut equipment = listing(vendor);
    fund_equipment(&mut equipment, acct(2), acct(30), 1, 200, 5_184_000, 600).unwrap();
    let r = fund_equipment(&mut equipment, acct(3), acct(30), 1, 200, 5_184_000, 600);
    assert_eq!(r.unwrap_err(), ErrorCode::InvalidPaymentPreference);
}

#[test]
fn direct_funding_price_floor_must_reach_the_price() {
    let vendor = acct(1);
    let mut equipment = listing(vendor);
    let r = fund_equipment(&mut equipment, acct(2), acct(30), 3, 200, 5_184_000, 499);
    assert_eq!(r.unwrap_err(), ErrorCode::InvalidFunderPrice);
    assert_eq!(equipment.funded_quantity, 0);
}

#[test]
fn funding_more_than_the_capacity_is_rejected() {
    let vendor = acct(1);
    let mut equipment = listing(vendor);
    let r = fund_equipment_for_listing(
        &mut equipment,
        acct(10),
        acct(11),
        acct(2),
        acct(30),
        acct(60),
        11,
        200,
        5_184_000,
    );
    assert_eq!(r.unwrap_err(), ErrorCode::InsufficientQuantity);
}

#[test]
fn funding_a_sold_listing_is_rejected() {
    let vendor = acct(1);
    let mut equipment = listing(vendor);
    equipment.status = EquipmentStatus::Sold;
    let r = fund_equipment_for_listing(
        &mut equipment,
        acct(10),
        acct(11),
        acct(2),
        acct(30),
        acct(60),
        2,
        200,
        5_184_000,
    );
    assert_eq!(r.unwrap_err(), ErrorCode::EquipmentNotAvailable);
}

#[test]
fn funding_payment_overflow_is_rejected() {
    let vendor = acct(1);
    let mut equipment = listing(vendor);
    equipment.price = u64::MAX;
    let r = fund_equipment_for_listing(
        &mut equipment,
        acct(10),
        acct(11),
        acct(2),
        acct(30),
        acct(60),
        2,
        200,
        5_184_000,
    );
    assert_eq!(r.unwrap_err(), ErrorCode::MathOverflow);
    assert_eq!(equipment.funded_quantity, 0);
}

#[test]
fn listing_funding_escrows_the_full_payment() {
    let vendor = acct(1);
    let funder = acct(2);
    let mut equipment = listing(vendor);
    let o = fund_equipment_for_listing(
        &mut equipment,
        acct(10),
        acct(11),
        funder,
        acct(30),
        acct(60),
        3,
        200,
        5_184_000,
    )
    .unwrap();
    assert_eq!(o.escrow.amount, 1_500);
    assert_eq!(o.escrow.funder, funder);
    assert_eq!(o.escrow.vendor, acct(11));
    assert_eq!(o.escrow.equipment, acct(10));
    assert!(!o.escrow.is_released);
    assert_eq!(o.transfer.amount, 1_500);
    assert_eq!(o.transfer.from, funder);
    assert_eq!(o.transfer.to, acct(60));
    assert_eq!(equipment.status, EquipmentStatus::Funded);
    assert_eq!(equipment.funded_quantity, 3);
    assert_eq!(equipment.funders[0].minimum_deposit, 200);
    assert_eq!(equipment.funders[0].duration_seconds, 5_184_000);
    assert_eq!(equipment.funders[0].borrower, None);
    assert_eq!(equipment.funders[0].escrow, Some(acct(60)));
}

#[test]
fn borrower_reservation_without_payment_has_no_terms() {
    let vendor = acct(1);
    let funder = acct(2);
    let borrower = acct(20);
    let mut equipment = listing(vendor);
    let o = fund_equipment_for_borrower_no_payment(
        &mut equipment,
        acct(10),
        acct(11),
        funder,
        acct(30),
        acct(60),
        2,
        borrower,
    )
    .unwrap();
    assert_eq!(o.escrow.amount, 1_000);
    assert_eq!(equipment.status, EquipmentStatus::Reserved);
    assert_eq!(equipment.funders[0].minimum_deposit, 0);
    assert_eq!(equipment.funders[0].duration_seconds, 0);
    assert_eq!(equipment.funders[0].borrower, Some(borrower));
}

#[test]
fn borrower_reservation_with_payment_keeps_its_terms() {
    let vendor = acct(1);
    let funder = acct(2);
    let borrower = acct(20);
    let mut equipment = listing(vendor);
    let o = fund_equipment_for_borrower_with_payment(
        &mut equipment,
        acct(10),
        acct(11),
        funder,
        acct(30),
        acct(60),
        2,
        borrower,
        300,
        5_184_000,
    )
    .unwrap();
    assert_eq!(o.escrow.amount, 1_000);
    assert_eq!(equipment.status, EquipmentStatus::Reserved);
    assert!(matches!(
        equipment.payment_preference,
        PaymentPreference::VendorOnly
    ));
    assert_eq!(equipment.funders[0].minimum_deposit, 300);
    assert_eq!(equipment.funders[0].duration_seconds, 5_184_000);
    assert_eq!(equipment.funders[0].borrower, Some(borrower));
}

#[test]
fn repeated_reservations_never_oversell() {
    let vendor = acct(1);
    let mut equipment = listing(vendor);
    let mut committed = 0u64;
    for i in 0..6u64 {
        let r = fund_equipment_for_listing(
            &mut equipment,
            acct(10),
            acct(11),
            acct(100 + i),
            acct(30),
            acct(60 + i),
            2,
            200,
            5_184_000,
        );
        if r.is_ok() {
            committed += 2;
        }
        assert!(
            equipment.sold_quantity + equipment.funded_sold_quantity <= equipment.total_quantity
        );
        assert!(equipment.funded_quantity <= equipment.total_quantity);
    }
    assert_eq!(committed, 10);
    assert_eq!(equipment.funded_quantity, 10);
}
