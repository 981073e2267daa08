use vstd::prelude::*;

use crate::contract::BNPLContract;
use crate::contract::InstallmentFrequency;
use crate::equipment::Equipment;
use crate::equipment::EquipmentStatus;
use crate::equipment::DeliveryStatus;
use crate::equipment::first_matching_offer;
use crate::equipment::is_first_matching_offer;
use crate::equipment::matching_offer_exists;
use crate::equipment::offer_matches;
use crate::equipment::status_after_sale;
use crate::errors::ErrorCode;
use crate::escrow::Escrow;
use crate::ids::AccountId;
use crate::ids::TransferRequest;

verus! {

/// Everything a successful origination produces: the new contract, the
/// escrow now owed the deposit, and the transfer moving the deposit from
/// the buyer into the escrow.  The host executes the transfer and commits
/// the records only when it succeeds.
#[derive(Clone, Copy, Debug)]
pub struct ContractCreation {
    pub contract: BNPLContract,
    pub escrow: Escrow,
    pub transfer: TransferRequest,
}

/// The payment terms a contract is originated under: the payee entitled
/// to be paid, the minimum deposit, and the financing duration in
/// seconds.  With a funder id the terms come from that funder's first
/// live offer; without one they come from the listing itself.
pub open spec fn spec_resolved_terms(e: Equipment, funder_unique_id: Option<AccountId>) -> (
    AccountId,
    u64,
    i64,
) {
    match funder_unique_id {
        Some(fid) => {
            let f = first_matching_offer(e.funders@, fid);
            (f.funder, f.minimum_deposit, f.duration_seconds)
        },
        None => (e.vendor, e.minimum_deposit, e.max_duration_seconds),
    }
}

/// The error an origination fails with, or `None` when it succeeds: the
/// first failing check in order — amount versus deposit, cadence
/// positivity, premium positivity, unit availability on the requested
/// tier, payee identity, deposit floor, duration positivity, schedule
/// size, and end-date overflow.
pub open spec fn spec_create_contract_error(
    e: Equipment,
    payee: AccountId,
    total_amount: u64,
    installment_frequency: InstallmentFrequency,
    deposit: u64,
    insurance_premium: Option<u64>,
    funder_unique_id: Option<AccountId>,
    now: i64,
) -> Option<ErrorCode> {
    let freq = installment_frequency.spec_as_seconds();
    if total_amount <= deposit {
        Some(ErrorCode::InvalidAmount)
    } else if freq <= 0 {
        Some(ErrorCode::InvalidFrequency)
    } else if insurance_premium matches Some(a) && a == 0 {
        Some(ErrorCode::InvalidInsurancePremium)
    } else if funder_unique_id is Some && e.funded_quantity <= e.funded_sold_quantity {
        Some(ErrorCode::NoFundedUnitsAvailable)
    } else if funder_unique_id matches Some(fid) && !matching_offer_exists(e.funders@, fid) {
        Some(ErrorCode::NoAvailableFunder)
    } else if funder_unique_id is None && e.sold_quantity >= e.vendor_capacity() {
        Some(ErrorCode::OutOfStock)
    } else {
        let terms = spec_resolved_terms(e, funder_unique_id);
        if payee != terms.0 {
            Some(ErrorCode::InvalidPayee)
        } else if deposit < terms.1 {
            Some(ErrorCode::DepositBelowMinimum)
        } else if terms.2 <= 0 {
            Some(ErrorCode::InvalidDuration)
        } else if terms.2 / freq > 255 {
            Some(ErrorCode::TooManyInstallments)
        } else if now > i64::MAX - terms.2 {
            Some(ErrorCode::MathOverflow)
        } else {
            None
        }
    }
}

/// The equipment record after one unit was reserved on the requested
/// tier: the funder-sold counter steps for a funder-backed sale, the
/// vendor-sold counter for a vendor-direct one.
pub open spec fn spec_equipment_after_reserve(
    e: Equipment,
    funder_unique_id: Option<AccountId>,
) -> Equipment {
    if funder_unique_id is Some {
        Equipment { funded_sold_quantity: (e.funded_sold_quantity + 1) as u64, ..e }
    } else {
        Equipment { sold_quantity: (e.sold_quantity + 1) as u64, ..e }
    }
}

/// Originate an installment contract for one equipment unit.
///
/// The payee is resolved once, here: a given funder id selects that
/// funder's first live offer, whose deposit floor and duration become the
/// authoritative terms and whose tier supplies the unit; otherwise the
/// vendor's own terms apply and a vendor-addressable unit is sold.  The
/// deposit is owed into a fresh escrow; the returned transfer moves it
/// from the buyer.  The contract starts with the deposit counted as the
/// first installment paid.  On any failure the equipment is unchanged and
/// the error is the first failing check, as `spec_create_contract_error`
/// lays them out.
#[verifier::rlimit(30)]
pub fn create_contract(
    equipment: &mut Equipment,
    equipment_key: AccountId,
    buyer: AccountId,
    payee: AccountId,
    usdc_mint: AccountId,
    escrow_key: AccountId,
    contract_unique_id: AccountId,
    total_amount: u64,
    installment_frequency: InstallmentFrequency,
    deposit: u64,
    insurance_premium: Option<u64>,
    funder_unique_id: Option<AccountId>,
    now: i64,
) -> (r: Result<ContractCreation, ErrorCode>)
    requires
        old(equipment).wf(),
    ensures
        final(equipment).wf(),
        r is Err <==> spec_create_contract_error(
            *old(equipment),
            payee,
            total_amount,
            installment_frequency,
            deposit,
            insurance_premium,
            funder_unique_id,
            now,
        ) is Some,
        r matches Err(e) ==> Some(e) == spec_create_contract_error(
            *old(equipment),
            payee,
            total_amount,
            installment_frequency,
            deposit,
            insurance_premium,
            funder_unique_id,
            now,
        ),
        r is Err ==> *final(equipment) == *old(equipment),
        r matches Ok(c) ==> {
            let terms = spec_resolved_terms(*old(equipment), funder_unique_id);
            let freq = installment_frequency.spec_as_seconds();
            let reserved = spec_equipment_after_reserve(*old(equipment), funder_unique_id);
            &&& c.contract == (BNPLContract {
                borrower: buyer,
                payee: terms.0,
                equipment: equipment_key,
                equipment_unit_index: (old(equipment).sold_quantity + old(
                    equipment,
                ).funded_sold_quantity) as u64,
                total_amount,
                amount_paid: deposit,
                deposit,
                start_date: now,
                end_date: (now + terms.2) as i64,
                contract_unique_id,
                last_payment_date: now,
                installment_count: (terms.2 / freq) as u8,
                paid_installments: 1u8,
                installment_frequency,
                is_completed: false,
                insurance_premium,
                is_insured: insurance_premium is Some,
                credit_score_delta: 0i8,
                stablecoin_mint: usdc_mint,
                escrow: escrow_key,
            })
            &&& c.contract.wf()
            &&& c.escrow == (Escrow {
                equipment: equipment_key,
                funder: buyer,
                vendor: old(equipment).vendor,
                amount: deposit,
                is_released: false,
            })
            &&& c.transfer == (TransferRequest {
                from: buyer,
                to: escrow_key,
                mint: usdc_mint,
                amount: deposit,
            })
            &&& *final(equipment) == (Equipment {
                status: status_after_sale(reserved),
                delivery_status: DeliveryStatus::Pending,
                ..reserved
            })
        },
{
    if total_amount <= deposit {
        return Err(ErrorCode::InvalidAmount);
    }
    let frequency_seconds = installment_frequency.as_seconds();
    if frequency_seconds <= 0 {
        return Err(ErrorCode::InvalidFrequency);
    }
    if let Some(premium) = insurance_premium {
        if premium == 0 {
            return Err(ErrorCode::InvalidInsurancePremium);
        }
    }
    let vendor_quantity = equipment.total_quantity - equipment.funded_quantity;

    let resolved_payee: AccountId;
    let min_deposit: u64;
    let duration: i64;
    match funder_unique_id {
        Some(funder_id) => {
            if equipment.funded_quantity <= equipment.funded_sold_quantity {
                return Err(ErrorCode::NoFundedUnitsAvailable);
            }
            match equipment.find_matching_offer(funder_id) {
                None => {
                    return Err(ErrorCode::NoAvailableFunder);
                },
                Some(i) => {
                    proof {
                        assert(offer_matches(equipment.funders@[i as int], funder_id));
                        let j = choose|j: int|
                            is_first_matching_offer(equipment.funders@, funder_id, j);
                        assert(is_first_matching_offer(equipment.funders@, funder_id, j));
                        assert(j == i as int);
                    }
                    let f = &equipment.funders[i];
                    resolved_payee = f.funder;
                    min_deposit = f.minimum_deposit;
                    duration = f.duration_seconds;
                },
            }
        },
        None => {
            if equipment.sold_quantity >= vendor_quantity {
                return Err(ErrorCode::OutOfStock);
            }
            resolved_payee = equipment.vendor;
            min_deposit = equipment.minimum_deposit;
            duration = equipment.max_duration_seconds;
        },
    }

    if payee != resolved_payee {
        return Err(ErrorCode::InvalidPayee);
    }
    if deposit < min_deposit {
        return Err(ErrorCode::DepositBelowMinimum);
    }
    if duration <= 0 {
        return Err(ErrorCode::InvalidDuration);
    }
    let installment_count = duration / frequency_seconds;
    if installment_count > 255 {
        return Err(ErrorCode::TooManyInstallments);
    }
    if now > i64::MAX - duration {
        return Err(ErrorCode::MathOverflow);
    }
    let end_date = now + duration;

    let unit_index = equipment.sold_quantity + equipment.funded_sold_quantity;
    match funder_unique_id {
        Some(funder_id) => {
            equipment.reserve_for_funder_sale(funder_id).unwrap();
        },
        None => {
            equipment.reserve_for_vendor_sale().unwrap();
        },
    }
    equipment.recompute_status_after_sale();

    let escrow = Escrow {
        equipment: equipment_key,
        funder: buyer,
        vendor: equipment.vendor,
        amount: deposit,
        is_released: false,
    };
    let transfer = TransferRequest { from: buyer, to: escrow_key, mint: usdc_mint, amount: deposit };
    let contract = BNPLContract {
        borrower: buyer,
        payee: resolved_payee,
        equipment: equipment_key,
        equipment_unit_index: unit_index,
        total_amount,
        amount_paid: deposit,
        deposit,
        start_date: now,
        end_date,
        contract_unique_id,
        last_payment_date: now,
        installment_count: installment_count as u8,
        paid_installments: 1,
        installment_frequency,
        is_completed: false,
        insurance_premium,
        is_insured: insurance_premium.is_some(),
        credit_score_delta: 0,
        stablecoin_mint: usdc_mint,
        escrow: escrow_key,
    };
    Ok(ContractCreation { contract, escrow, transfer })
}

/// A deposit below the matched funder's floor is always rejected: when
/// the opening validations pass, the funder tier has unsold units, and
/// the supplied payee is the funder of that funder's first live offer,
/// a deposit below the offer's minimum makes origination fail with
/// `DepositBelowMinimum` — and so, by `create_contract`'s contract, the
/// equipment is unchanged and no transfer or escrow is produced.
pub proof fn lemma_deposit_below_minimum_rejected(
    e: Equipment,
    payee: AccountId,
    total_amount: u64,
    installment_frequency: InstallmentFrequency,
    deposit: u64,
    insurance_premium: Option<u64>,
    funder_id: AccountId,
    now: i64,
    i: int,
)
    requires
        total_amount > deposit,
        installment_frequency.spec_as_seconds() > 0,
        insurance_premium matches Some(a) ==> a > 0,
        e.funded_quantity > e.funded_sold_quantity,
        is_first_matching_offer(e.funders@, funder_id, i),
        payee == e.funders@[i].funder,
        deposit < e.funders@[i].minimum_deposit,
    ensures
        spec_create_contract_error(
            e,
            payee,
            total_amount,
            installment_frequency,
            deposit,
            insurance_premium,
            Some(funder_id),
            now,
        ) == Some(ErrorCode::DepositBelowMinimum),
{
    assert(offer_matches(e.funders@[i], funder_id));
    let j = choose|j: int| is_first_matching_offer(e.funders@, funder_id, j);
    assert(is_first_matching_offer(e.funders@, funder_id, j));
    assert(j == i);
}

} // verus!
