use partpay::AccountId;
use partpay::DeliveryStatus;
use partpay::Equipment;
use partpay::EquipmentStatus;
use partpay::ErrorCode;
use partpay::FunderInfo;
use partpay::PaymentPreference;

fn acct(id: u64) -> AccountId {
    AccountId { id }
}

fn listing(vendor: AccountId) -> Equipment {
    Equipment {
        vendor,
        asset: acct(90),
        unique_id: acct(91),
        name: String::from("press brake"),
        uri: String::from("https://example.com/press.json"),
        price: 500,
        minimum_deposit: 50,
        max_duration_seconds: 2_592_000,
        payment_preference: PaymentPreference::VendorOnly,
        total_quantity: 3,
        funded_quantity: 2,
        sold_quantity: 0,
        funded_sold_quantity: 0,
        status: EquipmentStatus::Funded,
        funders: Vec::new(),
        delivery_status: DeliveryStatus::Pending,
    }
}

fn offer(funder: AccountId, quantity: u64) -> FunderInfo {
    FunderInfo {
        funder,
        quantity,
        minimum_deposit: 200,
        duration_seconds: 5_184_000,
        funder_price: 500,
        borrower: None,
        escrow: Some(acct(60)),
    }
}

#[test]
fn vendor_sales_stop_at_vendor_capacity() {
    let mut e = listing(acct(1));
    // total 3, funded 2: exactly one vendor-addressable unit.
    assert!(e.reserve_for_vendor_sale().is_ok());
    assert_eq!(e.sold_quantity, 1);
    let r = e.reserve_for_vendor_sale();
    assert_eq!(r.unwrap_err(), ErrorCode::OutOfStock);
    assert_eq!(e.sold_quantity, 1);
    assert!(e.sold_quantity + e.funded_sold_quantity <= e.total_quantity);
}

#[test]
fn funder_sales_stop_at_funded_capacity() {
    let funder = acct(2);
    let mut e = listing(acct(1));
    e.funders.push(offer(funder, 2));
    assert!(e.reserve_for_funder_sale(funder).is_ok());
    assert!(e.reserve_for_funder_sale(funder).is_ok());
    assert_eq!(e.funded_sold_quantity, 2);
    let r = e.reserve_for_funder_sale(funder);
    assert_eq!(r.unwrap_err(), ErrorCode::NoFundedUnitsAvailable);
    assert_eq!(e.funded_sold_quantity, 2);
    assert!(e.sold_quantity + e.funded_sold_quantity <= e.total_quantity);
}

#[test]
fn funder_sale_needs_a_live_offer() {
    let mut e = listing(acct(1));
    e.funders.push(offer(acct(2), 0));
    let r = e.reserve_for_funder_sale(acct(2));
    assert_eq!(r.unwrap_err(), ErrorCode::NoAvailableFunder);
}

#[test]
fn funder_sale_picks_the_first_live_offer() {
    let funder = acct(2);
    let mut e = listing(acct(1));
    e.funders.push(offer(funder, 0));
    e.funders.push(offer(funder, 2));
    e.funders.push(offer(funder, 1));
    let i = e.reserve_for_funder_sale(funder).unwrap();
    assert_eq!(i, 1);
}

#[test]
fn committing_more_than_the_free_capacity_fails() {
    let mut e = listing(acct(1));
    // total 3, funded 2, sold 0: one unit is still uncommitted.
    let r = e.commit_funding(offer(acct(2), 2));
    assert_eq!(r.unwrap_err(), ErrorCode::InsufficientQuantity);
    assert!(e.commit_funding(offer(acct(2), 1)).is_ok());
    assert_eq!(e.funded_quantity, 3);
    assert_eq!(e.funders.len(), 1);
}

#[test]
fn committing_to_a_sold_listing_fails() {
    let mut e = listing(acct(1));
    e.status = EquipmentStatus::Sold;
    let r = e.commit_funding(offer(acct(2), 1));
    assert_eq!(r.unwrap_err(), ErrorCode::EquipmentNotAvailable);
}

#[test]
fn mixed_reservations_respect_the_total() {
    let funder = acct(2);
    let mut e = listing(acct(1));
    e.funders.push(offer(funder, 2));
    assert!(e.reserve_for_vendor_sale().is_ok());
    assert!(e.reserve_for_funder_sale(funder).is_ok());
    assert!(e.reserve_for_funder_sale(funder).is_ok());
    assert_eq!(e.sold_quantity + e.funded_sold_quantity, e.total_quantity);
    assert_eq!(e.reserve_for_vendor_sale().unwrap_err(), ErrorCode::OutOfStock);
    assert_eq!(
        e.reserve_for_funder_sale(funder).unwrap_err(),
        ErrorCode::NoFundedUnitsAvailable
    );
    e.recompute_status_after_sale();
    assert_eq!(e.status, EquipmentStatus::Sold);
}
