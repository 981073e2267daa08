use vstd::prelude::*;

use crate::contract::BNPLContract;
use crate::equipment::DeliveryStatus;
use crate::equipment::Equipment;
use crate::equipment::escrow_offer_exists;
use crate::equipment::first_escrow_offer;
use crate::equipment::is_first_escrow_offer;
use crate::equipment::offer_for_escrow;
use crate::errors::ErrorCode;
use crate::escrow::Escrow;
use crate::ids::AccountId;
use crate::ids::TransferRequest;

verus! {

/// The error a vendor-path delivery confirmation fails with, or `None`
/// when it succeeds: the confirming borrower must be the contract's
/// borrower, the escrow must still be held, the unit must still await
/// delivery, and the claimed payee must be the contract's stored payee.
pub open spec fn spec_confirm_delivery_error(
    e: Equipment,
    es: Escrow,
    c: BNPLContract,
    borrower: AccountId,
    payee: AccountId,
) -> Option<ErrorCode> {
    if c.borrower != borrower {
        Some(ErrorCode::Unauthorized)
    } else if es.is_released {
        Some(ErrorCode::FundsAlreadyReleased)
    } else if !(e.delivery_status is Pending) {
        Some(ErrorCode::InvalidDeliveryStatus)
    } else if c.payee != payee {
        Some(ErrorCode::InvalidPayee)
    } else {
        None
    }
}

/// Confirm delivery of a contract's unit and release its escrow to the
/// payee, exactly once.
///
/// Only the contract's borrower may confirm; the escrow must not have
/// been released before, the equipment must still be pending delivery,
/// and the payee must match the one resolved at origination.  On success
/// the returned transfer moves the full escrowed amount from the escrow
/// to the payee, the escrow becomes released — a terminal state — and
/// the equipment is marked delivered.  On any failure nothing changes
/// and no transfer is produced.
pub fn confirm_delivery(
    equipment: &mut Equipment,
    escrow: &mut Escrow,
    contract: &BNPLContract,
    escrow_key: AccountId,
    borrower: AccountId,
    payee: AccountId,
) -> (r: Result<TransferRequest, ErrorCode>)
    ensures
        r is Err ==> *final(equipment) == *old(equipment) && *final(escrow) == *old(escrow),
        r is Err <==> spec_confirm_delivery_error(
            *old(equipment),
            *old(escrow),
            *contract,
            borrower,
            payee,
        ) is Some,
        r matches Err(e) ==> Some(e) == spec_confirm_delivery_error(
            *old(equipment),
            *old(escrow),
            *contract,
            borrower,
            payee,
        ),
        r matches Ok(t) ==> {
            &&& t == (TransferRequest {
                from: escrow_key,
                to: payee,
                mint: contract.stablecoin_mint,
                amount: old(escrow).amount,
            })
            &&& *final(equipment) == (Equipment {
                delivery_status: DeliveryStatus::Delivered,
                ..*old(equipment)
            })
            &&& *final(escrow) == (Escrow { is_released: true, ..*old(escrow) })
        },
{
    if contract.borrower != borrower {
        return Err(ErrorCode::Unauthorized);
    }
    if escrow.is_released {
        return Err(ErrorCode::FundsAlreadyReleased);
    }
    if !matches!(equipment.delivery_status, DeliveryStatus::Pending) {
        return Err(ErrorCode::InvalidDeliveryStatus);
    }
    if contract.payee != payee {
        return Err(ErrorCode::InvalidPayee);
    }
    let transfer = TransferRequest {
        from: escrow_key,
        to: payee,
        mint: contract.stablecoin_mint,
        amount: escrow.amount,
    };
    equipment.delivery_status = DeliveryStatus::Delivered;
    escrow.is_released = true;
    Ok(transfer)
}

/// The payee a funded-path confirmation owes the escrow to: a funder
/// confirming receipt releases to the vendor; a bound borrower confirming
/// releases to the funder when the offer carries financing terms, and to
/// the vendor for a plain pre-paid reservation.
pub open spec fn spec_expected_funded_payee(es: Escrow, offer: crate::equipment::FunderInfo, confirmer: AccountId) -> AccountId {
    if es.funder == confirmer {
        es.vendor
    } else if offer.minimum_deposit > 0 || offer.duration_seconds > 0 {
        es.funder
    } else {
        es.vendor
    }
}

/// The error a funded-path delivery confirmation fails with, or `None`
/// when it succeeds: the escrow must be linked to an offer on the
/// listing, the confirmer must be the funder or the offer's bound
/// borrower, the escrow must still be held, the unit must still await
/// delivery, and the claimed payee must be the expected one.
pub open spec fn spec_confirm_funded_delivery_error(
    e: Equipment,
    es: Escrow,
    escrow_key: AccountId,
    confirmer: AccountId,
    payee: AccountId,
) -> Option<ErrorCode> {
    if !escrow_offer_exists(e.funders@, escrow_key) {
        Some(ErrorCode::InvalidEscrow)
    } else {
        let offer = first_escrow_offer(e.funders@, escrow_key);
        if !(confirmer == es.funder || offer.borrower == Some(confirmer)) {
            Some(ErrorCode::Unauthorized)
        } else if es.is_released {
            Some(ErrorCode::FundsAlreadyReleased)
        } else if !(e.delivery_status is Pending) {
            Some(ErrorCode::InvalidDeliveryStatus)
        } else if payee != spec_expected_funded_payee(es, offer, confirmer) {
            Some(ErrorCode::InvalidPayee)
        } else {
            None
        }
    }
}

/// Confirm delivery of funder-reserved units and release the funding
/// escrow, exactly once.
///
/// The escrow must be linked to a funding offer on the listing, and the
/// confirmer must be the funder or the offer's bound borrower.  The
/// payee mirrors origination's resolution: the vendor when the funder
/// confirms or the offer carries no financing terms, the funder when its
/// bound borrower confirms a financed offer.  On success the returned
/// transfer moves the full escrowed amount to the payee, the escrow
/// becomes released — a terminal state — and the equipment is marked
/// delivered.  On any failure nothing changes and no transfer is
/// produced.
pub fn confirm_funded_delivery(
    equipment: &mut Equipment,
    escrow: &mut Escrow,
    escrow_key: AccountId,
    usdc_mint: AccountId,
    confirmer: AccountId,
    payee: AccountId,
) -> (r: Result<TransferRequest, ErrorCode>)
    ensures
        r is Err ==> *final(equipment) == *old(equipment) && *final(escrow) == *old(escrow),
        r is Err <==> spec_confirm_funded_delivery_error(
            *old(equipment),
            *old(escrow),
            escrow_key,
            confirmer,
            payee,
        ) is Some,
        r matches Err(e) ==> Some(e) == spec_confirm_funded_delivery_error(
            *old(equipment),
            *old(escrow),
            escrow_key,
            confirmer,
            payee,
        ),
        r matches Ok(t) ==> {
            &&& t == (TransferRequest {
                from: escrow_key,
                to: payee,
                mint: usdc_mint,
                amount: old(escrow).amount,
            })
            &&& *final(equipment) == (Equipment {
                delivery_status: DeliveryStatus::Delivered,
                ..*old(equipment)
            })
            &&& *final(escrow) == (Escrow { is_released: true, ..*old(escrow) })
        },
{
    let offer_index = match equipment.find_offer_by_escrow(escrow_key) {
        Some(i) => i,
        None => {
            return Err(ErrorCode::InvalidEscrow);
        },
    };
    proof {
        assert(offer_for_escrow(equipment.funders@[offer_index as int], escrow_key));
        let j = choose|j: int| is_first_escrow_offer(equipment.funders@, escrow_key, j);
        assert(is_first_escrow_offer(equipment.funders@, escrow_key, j));
        assert(j == offer_index as int);
    }
    let offer = &equipment.funders[offer_index];
    let is_funder_confirmer = escrow.funder == confirmer;
    let borrower_bound = match offer.borrower {
        Some(b) => b == confirmer,
        None => false,
    };
    if !(is_funder_confirmer || borrower_bound) {
        return Err(ErrorCode::Unauthorized);
    }
    if escrow.is_released {
        return Err(ErrorCode::FundsAlreadyReleased);
    }
    if !matches!(equipment.delivery_status, DeliveryStatus::Pending) {
        return Err(ErrorCode::InvalidDeliveryStatus);
    }
    let expected_payee = if is_funder_confirmer {
        escrow.vendor
    } else if offer.minimum_deposit > 0 || offer.duration_seconds > 0 {
        escrow.funder
    } else {
        escrow.vendor
    };
    if payee != expected_payee {
        return Err(ErrorCode::InvalidPayee);
    }
    let transfer = TransferRequest {
        from: escrow_key,
        to: payee,
        mint: usdc_mint,
        amount: escrow.amount,
    };
    equipment.delivery_status = DeliveryStatus::Delivered;
    escrow.is_released = true;
    Ok(transfer)
}

/// Escrow release is idempotent-safe: once an escrow has been released, a
/// further vendor-path confirmation by the contract's borrower always
/// fails with `FundsAlreadyReleased` — and so, by `confirm_delivery`'s
/// contract, performs no transfer and changes nothing.
pub proof fn lemma_release_once(
    e: Equipment,
    es: Escrow,
    c: BNPLContract,
    borrower: AccountId,
    payee: AccountId,
)
    requires
        es.is_released,
        c.borrower == borrower,
    ensures
        spec_confirm_delivery_error(e, es, c, borrower, payee) == Some(
            ErrorCode::FundsAlreadyReleased,
        ),
{
}

/// Escrow release is idempotent-safe on the funded path: once released, a
/// further confirmation by the funder or the bound borrower of the
/// escrow's offer always fails with `FundsAlreadyReleased` — and so, by
/// `confirm_funded_delivery`'s contract, performs no transfer and changes
/// nothing.
pub proof fn lemma_funded_release_once(
    e: Equipment,
    es: Escrow,
    escrow_key: AccountId,
    confirmer: AccountId,
    payee: AccountId,
)
    requires
        es.is_released,
        escrow_offer_exists(e.funders@, escrow_key),
        confirmer == es.funder || first_escrow_offer(e.funders@, escrow_key).borrower == Some(
            confirmer,
        ),
    ensures
        spec_confirm_funded_delivery_error(e, es, escrow_key, confirmer, payee) == Some(
            ErrorCode::FundsAlreadyReleased,
        ),
{
}

} // verus!
