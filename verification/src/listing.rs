use vstd::prelude::*;

use crate::equipment::DeliveryStatus;
use crate::equipment::Equipment;
use crate::equipment::EquipmentStatus;
use crate::equipment::PaymentPreference;
use crate::errors::ErrorCode;
use crate::ids::AccountId;
use crate::validation::spec_byte_len;
use crate::validation::validate_duration;
use crate::validation::validate_name;
use crate::validation::validate_price;
use crate::validation::validate_uri;
use crate::vendor::Vendor;

verus! {

/// The error a listing upload fails with, or `None` when it succeeds:
/// the price and the deposit floor must be positive, the maximum
/// financing duration must be positive, and the vendor's unit counter
/// must be able to take the new units.
pub open spec fn spec_upload_equipment_error(
    v: Vendor,
    price: u64,
    total_quantity: u64,
    minimum_deposit: u64,
    max_duration_seconds: i64,
) -> Option<ErrorCode> {
    if price == 0 {
        Some(ErrorCode::InvalidPrice)
    } else if minimum_deposit == 0 {
        Some(ErrorCode::InvalidPrice)
    } else if max_duration_seconds <= 0 {
        Some(ErrorCode::InvalidDuration)
    } else if v.equipment_count + total_quantity > u64::MAX {
        Some(ErrorCode::MathOverflow)
    } else {
        None
    }
}

/// List equipment for sale: validate the price, deposit floor and
/// duration, build a fresh record with empty inventory counters and no
/// funders, and register the listing on the vendor.  The asset identity
/// comes from the external registry; the host stores the returned record
/// under `equipment_key`.  On any failure the vendor is unchanged.
pub fn upload_equipment(
    vendor: &mut Vendor,
    equipment_key: AccountId,
    vendor_key: AccountId,
    asset: AccountId,
    name: String,
    uri: String,
    price: u64,
    total_quantity: u64,
    unique_id: AccountId,
    minimum_deposit: u64,
    max_duration_seconds: i64,
    payment_preference: PaymentPreference,
) -> (r: Result<Equipment, ErrorCode>)
    ensures
        r is Err ==> *final(vendor) == *old(vendor),
        r is Err <==> spec_upload_equipment_error(
            *old(vendor),
            price,
            total_quantity,
            minimum_deposit,
            max_duration_seconds,
        ) is Some,
        r matches Err(e) ==> Some(e) == spec_upload_equipment_error(
            *old(vendor),
            price,
            total_quantity,
            minimum_deposit,
            max_duration_seconds,
        ),
        r matches Ok(e) ==> {
            &&& e.vendor == vendor_key
            &&& e.asset == asset
            &&& e.unique_id == unique_id
            &&& e.name == name
            &&& e.uri == uri
            &&& e.price == price
            &&& e.minimum_deposit == minimum_deposit
            &&& e.max_duration_seconds == max_duration_seconds
            &&& e.payment_preference == payment_preference
            &&& e.total_quantity == total_quantity
            &&& e.funded_quantity == 0
            &&& e.sold_quantity == 0
            &&& e.funded_sold_quantity == 0
            &&& e.status is Available
            &&& e.funders@.len() == 0
            &&& e.delivery_status is Pending
            &&& e.wf()
            &&& final(vendor).equipments@ == old(vendor).equipments@.push(equipment_key)
            &&& final(vendor).equipment_count == old(vendor).equipment_count + total_quantity
            &&& final(vendor).authority == old(vendor).authority
            &&& final(vendor).collection == old(vendor).collection
            &&& final(vendor).name == old(vendor).name
            &&& final(vendor).uri == old(vendor).uri
            &&& final(vendor).marketplace == old(vendor).marketplace
            &&& final(vendor).status == old(vendor).status
            &&& final(vendor).unique_id == old(vendor).unique_id
            &&& final(vendor).collection_unique_id == old(vendor).collection_unique_id
        },
{
    validate_price(price)?;
    validate_price(minimum_deposit)?;
    validate_duration(max_duration_seconds)?;
    let new_count = match vendor.equipment_count.checked_add(total_quantity) {
        Some(v) => v,
        None => {
            return Err(ErrorCode::MathOverflow);
        },
    };
    let equipment = Equipment {
        vendor: vendor_key,
        asset,
        unique_id,
        name,
        uri,
        price,
        minimum_deposit,
        max_duration_seconds,
        payment_preference,
        total_quantity,
        funded_quantity: 0,
        sold_quantity: 0,
        funded_sold_quantity: 0,
        status: EquipmentStatus::Available,
        funders: Vec::new(),
        delivery_status: DeliveryStatus::Pending,
    };
    vendor.equipments.push(equipment_key);
    vendor.equipment_count = new_count;
    Ok(equipment)
}

/// The error a listing update fails with, or `None` when it succeeds:
/// the listing must belong to the vendor, the caller must be the
/// vendor's authority, and each supplied field must pass its validation
/// rule.  Absent fields are not touched and not validated.
pub open spec fn spec_update_equipment_error(
    e: Equipment,
    v: Vendor,
    vendor_key: AccountId,
    authority: AccountId,
    name: Option<String>,
    uri: Option<String>,
    price: Option<u64>,
) -> Option<ErrorCode> {
    if e.vendor != vendor_key {
        Some(ErrorCode::InvalidVendor)
    } else if authority != v.authority {
        Some(ErrorCode::InvalidMarketplaceAuthority)
    } else if name matches Some(n) && spec_byte_len(n@) == 0 {
        Some(ErrorCode::InvalidName)
    } else if name matches Some(n) && spec_byte_len(n@) > 32 {
        Some(ErrorCode::InvalidStringLength)
    } else if uri matches Some(u) && spec_byte_len(u@) == 0 {
        Some(ErrorCode::InvalidUri)
    } else if uri matches Some(u) && spec_byte_len(u@) > 200 {
        Some(ErrorCode::InvalidStringLength)
    } else if price matches Some(p) && p == 0 {
        Some(ErrorCode::InvalidPrice)
    } else {
        None
    }
}

/// Update a listing's name, URI or price, whichever are supplied.  Only
/// the vendor's authority may update its own listing, and every supplied
/// field is validated before anything changes: on any failure the
/// listing is unchanged.
pub fn update_equipment(
    equipment: &mut Equipment,
    vendor: &Vendor,
    vendor_key: AccountId,
    authority: AccountId,
    name: Option<String>,
    uri: Option<String>,
    price: Option<u64>,
) -> (r: Result<(), ErrorCode>)
    ensures
        r is Err ==> *final(equipment) == *old(equipment),
        r is Err <==> spec_update_equipment_error(
            *old(equipment),
            *vendor,
            vendor_key,
            authority,
            name,
            uri,
            price,
        ) is Some,
        r matches Err(e) ==> Some(e) == spec_update_equipment_error(
            *old(equipment),
            *vendor,
            vendor_key,
            authority,
            name,
            uri,
            price,
        ),
        r is Ok ==> *final(equipment) == (Equipment {
            name: match name {
                Some(n) => n,
                None => old(equipment).name,
            },
            uri: match uri {
                Some(u) => u,
                None => old(equipment).uri,
            },
            price: match price {
                Some(p) => p,
                None => old(equipment).price,
            },
            ..*old(equipment)
        }),
{
    if equipment.vendor != vendor_key {
        return Err(ErrorCode::InvalidVendor);
    }
    if authority != vendor.authority {
        return Err(ErrorCode::InvalidMarketplaceAuthority);
    }
    if let Some(new_name) = &name {
        validate_name(new_name.as_str())?;
    }
    if let Some(new_uri) = &uri {
        validate_uri(new_uri.as_str())?;
    }
    if let Some(new_price) = price {
        validate_price(new_price)?;
    }
    if let Some(new_name) = name {
        equipment.name = new_name;
    }
    if let Some(new_uri) = uri {
        equipment.uri = new_uri;
    }
    if let Some(new_price) = price {
        equipment.price = new_price;
    }
    Ok(())
}

} // verus!
