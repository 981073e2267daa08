use vstd::prelude::*;

use crate::equipment::DeliveryStatus;
use crate::equipment::Equipment;
use crate::equipment::EquipmentStatus;
use crate::equipment::FunderInfo;
use crate::equipment::PaymentPreference;
use crate::equipment::unchanged_except_funding;
use crate::errors::ErrorCode;
use crate::escrow::Escrow;
use crate::ids::AccountId;
use crate::ids::TransferRequest;

verus! {

/// Everything a successful funding reservation produces: the escrow now
/// holding the funder's payment and the transfer moving that payment from
/// the funder into the escrow.  The host executes the transfer and
/// commits the records only when it succeeds.
#[derive(Clone, Copy, Debug)]
pub struct FundingOutcome {
    pub escrow: Escrow,
    pub transfer: TransferRequest,
}

/// The listing accepts third-party funding under this policy.
pub open spec fn funding_open(p: PaymentPreference) -> bool {
    p is FunderOnly || p is Either
}

/// Units of the listing not yet committed to a funder and not yet sold.
pub open spec fn uncommitted_capacity(e: Equipment) -> int {
    e.total_quantity - e.funded_quantity - e.sold_quantity
}

/// The error an escrow-backed funding reservation fails with, or `None`
/// when it succeeds: the quantity must fit the uncommitted capacity, the
/// listing must not be in a terminal status, and the full payment must
/// fit the monetary type.
pub open spec fn spec_fund_reservation_error(e: Equipment, quantity: u64) -> Option<ErrorCode> {
    if quantity > uncommitted_capacity(e) {
        Some(ErrorCode::InsufficientQuantity)
    } else if !(e.status is Available || e.status is Funded || e.status is Reserved) {
        Some(ErrorCode::EquipmentNotAvailable)
    } else if e.price * quantity > u64::MAX {
        Some(ErrorCode::MathOverflow)
    } else {
        None
    }
}

/// The error a direct (escrow-less) funding fails with, or `None` when it
/// succeeds: the listing must still be open to funders and not yet
/// funded, the quantity must fit, the status must not be terminal, the
/// funder's price floor must reach the vendor's price, and the full
/// payment must fit the monetary type.
pub open spec fn spec_fund_equipment_error(
    e: Equipment,
    quantity: u64,
    funder_price: u64,
) -> Option<ErrorCode> {
    if !(e.funded_quantity == 0 && funding_open(e.payment_preference)) {
        Some(ErrorCode::InvalidPaymentPreference)
    } else if quantity > uncommitted_capacity(e) {
        Some(ErrorCode::InsufficientQuantity)
    } else if !(e.status is Available || e.status is Funded || e.status is Reserved) {
        Some(ErrorCode::EquipmentNotAvailable)
    } else if funder_price < e.price {
        Some(ErrorCode::InvalidFunderPrice)
    } else if e.price * quantity > u64::MAX {
        Some(ErrorCode::MathOverflow)
    } else {
        None
    }
}

/// Fund a listing directly: the funder pays the vendor the full price of
/// the committed units at once, with no escrow, and the listing becomes
/// installment-only.  The returned transfer moves the payment from the
/// funder to the vendor; the host commits the listing only after it
/// succeeds.  On any failure the listing is unchanged.
pub fn fund_equipment(
    equipment: &mut Equipment,
    funder: AccountId,
    usdc_mint: AccountId,
    quantity_to_fund: u64,
    minimum_deposit: u64,
    duration_seconds: i64,
    funder_price: u64,
) -> (r: Result<TransferRequest, ErrorCode>)
    requires
        old(equipment).wf(),
    ensures
        final(equipment).wf(),
        r is Err ==> *final(equipment) == *old(equipment),
        r is Err <==> spec_fund_equipment_error(*old(equipment), quantity_to_fund, funder_price)
            is Some,
        r matches Err(e) ==> Some(e) == spec_fund_equipment_error(
            *old(equipment),
            quantity_to_fund,
            funder_price,
        ),
        r matches Ok(t) ==> {
            &&& t == (TransferRequest {
                from: funder,
                to: old(equipment).vendor,
                mint: usdc_mint,
                amount: (old(equipment).price * quantity_to_fund) as u64,
            })
            &&& final(equipment).funded_quantity == old(equipment).funded_quantity
                + quantity_to_fund
            &&& final(equipment).funders@ == old(equipment).funders@.push(
                FunderInfo {
                    funder,
                    quantity: quantity_to_fund,
                    minimum_deposit,
                    duration_seconds,
                    funder_price,
                    borrower: None,
                    escrow: None,
                },
            )
            &&& final(equipment).status is Funded
            &&& final(equipment).payment_preference is VendorOnly
            &&& final(equipment).delivery_status == old(equipment).delivery_status
            &&& final(equipment).vendor == old(equipment).vendor
            &&& final(equipment).price == old(equipment).price
            &&& final(equipment).total_quantity == old(equipment).total_quantity
            &&& final(equipment).sold_quantity == old(equipment).sold_quantity
            &&& final(equipment).funded_sold_quantity == old(equipment).funded_sold_quantity
        },
{
    let preference_open = match equipment.payment_preference {
        PaymentPreference::FunderOnly => true,
        PaymentPreference::Either { .. } => true,
        PaymentPreference::VendorOnly => false,
    };
    if !(equipment.funded_quantity == 0 && preference_open) {
        return Err(ErrorCode::InvalidPaymentPreference);
    }
    let available_to_fund = equipment.total_quantity - equipment.funded_quantity
        - equipment.sold_quantity;
    if quantity_to_fund > available_to_fund {
        return Err(ErrorCode::InsufficientQuantity);
    }
    let status_open = match equipment.status {
        EquipmentStatus::Available => true,
        EquipmentStatus::Funded => true,
        EquipmentStatus::Reserved => true,
        _ => false,
    };
    if !status_open {
        return Err(ErrorCode::EquipmentNotAvailable);
    }
    if funder_price < equipment.price {
        return Err(ErrorCode::InvalidFunderPrice);
    }
    let total_payment = match equipment.price.checked_mul(quantity_to_fund) {
        Some(v) => v,
        None => {
            return Err(ErrorCode::MathOverflow);
        },
    };
    let offer = FunderInfo {
        funder,
        quantity: quantity_to_fund,
        minimum_deposit,
        duration_seconds,
        funder_price,
        borrower: None,
        escrow: None,
    };
    equipment.commit_funding(offer).unwrap();
    equipment.status = EquipmentStatus::Funded;
    equipment.payment_preference = PaymentPreference::VendorOnly;
    Ok(
        TransferRequest {
            from: funder,
            to: equipment.vendor,
            mint: usdc_mint,
            amount: total_payment,
        },
    )
}

/// Shared core of the escrow-backed funding operations: validate, commit
/// the offer to the ledger, and build the escrow and the transfer of the
/// full payment from the funder into the escrow.
fn fund_with_escrow(
    equipment: &mut Equipment,
    equipment_key: AccountId,
    vendor_key: AccountId,
    funder: AccountId,
    usdc_mint: AccountId,
    escrow_key: AccountId,
    offer_terms: FunderInfo,
    new_status: EquipmentStatus,
) -> (r: Result<FundingOutcome, ErrorCode>)
    requires
        old(equipment).wf(),
        offer_terms.escrow == Some(escrow_key),
    ensures
        final(equipment).wf(),
        r is Err ==> *final(equipment) == *old(equipment),
        r is Err <==> spec_fund_reservation_error(*old(equipment), offer_terms.quantity) is Some,
        r matches Err(e) ==> Some(e) == spec_fund_reservation_error(
            *old(equipment),
            offer_terms.quantity,
        ),
        r matches Ok(o) ==> {
            &&& o.escrow == (Escrow {
                equipment: equipment_key,
                funder,
                vendor: vendor_key,
                amount: (old(equipment).price * offer_terms.quantity) as u64,
                is_released: false,
            })
            &&& o.transfer == (TransferRequest {
                from: funder,
                to: escrow_key,
                mint: usdc_mint,
                amount: (old(equipment).price * offer_terms.quantity) as u64,
            })
            &&& final(equipment).funded_quantity == old(equipment).funded_quantity
                + offer_terms.quantity
            &&& final(equipment).funders@ == old(equipment).funders@.push(offer_terms)
            &&& final(equipment).status == new_status
            &&& final(equipment).delivery_status is Pending
            &&& final(equipment).payment_preference == old(equipment).payment_preference
            &&& final(equipment).vendor == old(equipment).vendor
            &&& final(equipment).price == old(equipment).price
            &&& final(equipment).total_quantity == old(equipment).total_quantity
            &&& final(equipment).sold_quantity == old(equipment).sold_quantity
            &&& final(equipment).funded_sold_quantity == old(equipment).funded_sold_quantity
            &&& final(equipment).name == old(equipment).name
            &&& final(equipment).uri == old(equipment).uri
            &&& final(equipment).minimum_deposit == old(equipment).minimum_deposit
            &&& final(equipment).max_duration_seconds == old(equipment).max_duration_seconds
            &&& final(equipment).asset == old(equipment).asset
            &&& final(equipment).unique_id == old(equipment).unique_id
        },
{
    let available_to_fund = equipment.total_quantity - equipment.funded_quantity
        - equipment.sold_quantity;
    if offer_terms.quantity > available_to_fund {
        return Err(ErrorCode::InsufficientQuantity);
    }
    let status_open = match equipment.status {
        EquipmentStatus::Available => true,
        EquipmentStatus::Funded => true,
        EquipmentStatus::Reserved => true,
        _ => false,
    };
    if !status_open {
        return Err(ErrorCode::EquipmentNotAvailable);
    }
    let total_payment = match equipment.price.checked_mul(offer_terms.quantity) {
        Some(v) => v,
        None => {
            return Err(ErrorCode::MathOverflow);
        },
    };
    equipment.commit_funding(offer_terms).unwrap();
    equipment.status = new_status;
    equipment.delivery_status = DeliveryStatus::Pending;
    let escrow = Escrow {
        equipment: equipment_key,
        funder,
        vendor: vendor_key,
        amount: total_payment,
        is_released: false,
    };
    let transfer = TransferRequest {
        from: funder,
        to: escrow_key,
        mint: usdc_mint,
        amount: total_payment,
    };
    Ok(FundingOutcome { escrow, transfer })
}

/// Fund an open listing: the funder's full payment for the committed
/// units moves into a fresh escrow, the offer (under the funder's own
/// deposit floor and duration) joins the ledger, and the listing becomes
/// `Funded`.  On any failure the listing is unchanged; the failing
/// checks are `spec_fund_reservation_error`.
pub fn fund_equipment_for_listing(
    equipment: &mut Equipment,
    equipment_key: AccountId,
    vendor_key: AccountId,
    funder: AccountId,
    usdc_mint: AccountId,
    escrow_key: AccountId,
    quantity_to_fund: u64,
    minimum_deposit: u64,
    duration_seconds: i64,
) -> (r: Result<FundingOutcome, ErrorCode>)
    requires
        old(equipment).wf(),
    ensures
        final(equipment).wf(),
        r is Err ==> *final(equipment) == *old(equipment),
        r is Err <==> spec_fund_reservation_error(*old(equipment), quantity_to_fund) is Some,
        r matches Err(e) ==> Some(e) == spec_fund_reservation_error(
            *old(equipment),
            quantity_to_fund,
        ),
        r matches Ok(o) ==> {
            &&& o.escrow == (Escrow {
                equipment: equipment_key,
                funder,
                vendor: vendor_key,
                amount: (old(equipment).price * quantity_to_fund) as u64,
                is_released: false,
            })
            &&& o.transfer == (TransferRequest {
                from: funder,
                to: escrow_key,
                mint: usdc_mint,
                amount: (old(equipment).price * quantity_to_fund) as u64,
            })
            &&& final(equipment).funders@ == old(equipment).funders@.push(
                FunderInfo {
                    funder,
                    quantity: quantity_to_fund,
                    minimum_deposit,
                    duration_seconds,
                    funder_price: old(equipment).price,
                    borrower: None,
                    escrow: Some(escrow_key),
                },
            )
            &&& final(equipment).funded_quantity == old(equipment).funded_quantity
                + quantity_to_fund
            &&& final(equipment).status is Funded
            &&& final(equipment).delivery_status is Pending
        },
{
    let offer = FunderInfo {
        funder,
        quantity: quantity_to_fund,
        minimum_deposit,
        duration_seconds,
        funder_price: equipment.price,
        borrower: None,
        escrow: Some(escrow_key),
    };
    fund_with_escrow(
        equipment,
        equipment_key,
        vendor_key,
        funder,
        usdc_mint,
        escrow_key,
        offer,
        EquipmentStatus::Funded,
    )
}

/// Reserve units for a specific borrower without financing terms: the
/// funder pre-pays the full price into an escrow, the offer is bound to
/// the borrower with a zero deposit floor and zero duration, and the
/// listing becomes `Reserved`.  On any failure the listing is unchanged;
/// the failing checks are `spec_fund_reservation_error`.
pub fn fund_equipment_for_borrower_no_payment(
    equipment: &mut Equipment,
    equipment_key: AccountId,
    vendor_key: AccountId,
    funder: AccountId,
    usdc_mint: AccountId,
    escrow_key: AccountId,
    quantity_to_fund: u64,
    borrower: AccountId,
) -> (r: Result<FundingOutcome, ErrorCode>)
    requires
        old(equipment).wf(),
    ensures
        final(equipment).wf(),
        r is Err ==> *final(equipment) == *old(equipment),
        r is Err <==> spec_fund_reservation_error(*old(equipment), quantity_to_fund) is Some,
        r matches Err(e) ==> Some(e) == spec_fund_reservation_error(
            *old(equipment),
            quantity_to_fund,
        ),
        r matches Ok(o) ==> {
            &&& o.escrow == (Escrow {
                equipment: equipment_key,
                funder,
                vendor: vendor_key,
                amount: (old(equipment).price * quantity_to_fund) as u64,
                is_released: false,
            })
            &&& o.transfer == (TransferRequest {
                from: funder,
                to: escrow_key,
                mint: usdc_mint,
                amount: (old(equipment).price * quantity_to_fund) as u64,
            })
            &&& final(equipment).funders@ == old(equipment).funders@.push(
                FunderInfo {
                    funder,
                    quantity: quantity_to_fund,
                    minimum_deposit: 0u64,
                    duration_seconds: 0i64,
                    funder_price: old(equipment).price,
                    borrower: Some(borrower),
                    escrow: Some(escrow_key),
                },
            )
            &&& final(equipment).funded_quantity == old(equipment).funded_quantity
                + quantity_to_fund
            &&& final(equipment).status is Reserved
            &&& final(equipment).delivery_status is Pending
        },
{
    let offer = FunderInfo {
        funder,
        quantity: quantity_to_fund,
        minimum_deposit: 0,
        duration_seconds: 0,
        funder_price: equipment.price,
        borrower: Some(borrower),
        escrow: Some(escrow_key),
    };
    fund_with_escrow(
        equipment,
        equipment_key,
        vendor_key,
        funder,
        usdc_mint,
        escrow_key,
        offer,
        EquipmentStatus::Reserved,
    )
}

/// Reserve units for a specific borrower under financing terms: the
/// funder pre-pays the full price into an escrow, the offer is bound to
/// the borrower with the funder's deposit floor and duration, the
/// listing becomes `Reserved` and installment-only.  On any failure the
/// listing is unchanged; the failing checks are
/// `spec_fund_reservation_error`.
pub fn fund_equipment_for_borrower_with_payment(
    equipment: &mut Equipment,
    equipment_key: AccountId,
    vendor_key: AccountId,
    funder: AccountId,
    usdc_mint: AccountId,
    escrow_key: AccountId,
    quantity_to_fund: u64,
    borrower: AccountId,
    minimum_deposit: u64,
    duration_seconds: i64,
) -> (r: Result<FundingOutcome, ErrorCode>)
    requires
        old(equipment).wf(),
    ensures
        final(equipment).wf(),
        r is Err ==> *final(equipment) == *old(equipment),
        r is Err <==> spec_fund_reservation_error(*old(equipment), quantity_to_fund) is Some,
        r matches Err(e) ==> Some(e) == spec_fund_reservation_error(
            *old(equipment),
            quantity_to_fund,
        ),
        r matches Ok(o) ==> {
            &&& o.escrow == (Escrow {
                equipment: equipment_key,
                funder,
                vendor: vendor_key,
                amount: (old(equipment).price * quantity_to_fund) as u64,
                is_released: false,
            })
            &&& o.transfer == (TransferRequest {
                from: funder,
                to: escrow_key,
                mint: usdc_mint,
                amount: (old(equipment).price * quantity_to_fund) as u64,
            })
            &&& final(equipment).funders@ == old(equipment).funders@.push(
                FunderInfo {
                    funder,
                    quantity: quantity_to_fund,
                    minimum_deposit,
                    duration_seconds,
                    funder_price: old(equipment).price,
                    borrower: Some(borrower),
                    escrow: Some(escrow_key),
                },
            )
            &&& final(equipment).funded_quantity == old(equipment).funded_quantity
                + quantity_to_fund
            &&& final(equipment).status is Reserved
            &&& final(equipment).payment_preference is VendorOnly
            &&& final(equipment).delivery_status is Pending
        },
{
    let offer = FunderInfo {
        funder,
        quantity: quantity_to_fund,
        minimum_deposit,
        duration_seconds,
        funder_price: equipment.price,
        borrower: Some(borrower),
        escrow: Some(escrow_key),
    };
    let outcome = fund_with_escrow(
        equipment,
        equipment_key,
        vendor_key,
        funder,
        usdc_mint,
        escrow_key,
        offer,
        EquipmentStatus::Reserved,
    )?;
    equipment.payment_preference = PaymentPreference::VendorOnly;
    Ok(outcome)
}

} // verus!
