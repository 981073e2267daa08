use vstd::prelude::*;

use crate::equipment::Equipment;
use crate::equipment::FunderInfo;
use crate::equipment::first_offer_by;
use crate::equipment::is_first_offer_by;
use crate::equipment::offer_by;
use crate::equipment::offer_by_exists;
use crate::errors::ErrorCode;
use crate::funded::FunderEquipmentInfo;
use crate::funded::FunderEquipmentResponse;
use crate::ids::AccountId;
use crate::vendor::EquipmentInfo;
use crate::vendor::Vendor;
use crate::vendor::VendorEquipmentResponse;

verus! {

/// Return a listing to its caller, provided it belongs to the claimed
/// vendor.
pub fn get_equipment(equipment: Equipment, vendor_key: AccountId) -> (r: Result<
    Equipment,
    ErrorCode,
>)
    ensures
        r is Ok <==> equipment.vendor == vendor_key,
        r matches Ok(e) ==> e == equipment,
        r is Err ==> r == Err::<Equipment, ErrorCode>(ErrorCode::InvalidVendor),
{
    if equipment.vendor == vendor_key {
        Ok(equipment)
    } else {
        Err(ErrorCode::InvalidVendor)
    }
}

/// The directory entry for one loaded listing at position `index`.
pub open spec fn spec_equipment_info(e: Equipment, index: int) -> EquipmentInfo {
    EquipmentInfo { name: e.name, price: e.price, uri: e.uri, asset: e.asset, index: index as u64 }
}

/// The vendor directory built from a window of loaded listing slots: the
/// entries of the slots that loaded and belong to the vendor, in order,
/// and the positions of the slots that did not.
pub open spec fn spec_vendor_directory(
    accounts: Seq<Option<Equipment>>,
    vendor_key: AccountId,
) -> (Seq<EquipmentInfo>, Seq<u64>)
    decreases accounts.len(),
{
    if accounts.len() == 0 {
        (Seq::empty(), Seq::empty())
    } else {
        let prefix = spec_vendor_directory(accounts.drop_last(), vendor_key);
        let i = accounts.len() - 1;
        match accounts.last() {
            Some(e) => if e.vendor == vendor_key {
                (prefix.0.push(spec_equipment_info(e, i)), prefix.1)
            } else {
                (prefix.0, prefix.1.push(i as u64))
            },
            None => (prefix.0, prefix.1.push(i as u64)),
        }
    }
}

/// Collect a vendor's equipment directory from the listing records the
/// host loaded, one slot per stored listing key, `None` where a record
/// could not be decoded.  At most `vendor.equipment_count` slots are
/// read, each is kept when it loaded and belongs to `vendor_key`, and
/// its position is reported as a failed load otherwise.
pub fn get_all_vendor_equipment(
    vendor: &Vendor,
    vendor_key: AccountId,
    accounts: Vec<Option<Equipment>>,
) -> (r: VendorEquipmentResponse)
    ensures
        r.total_count == vendor.equipment_count,
        vendor.equipment_count == 0 ==> r.equipment@.len() == 0 && r.failed_loads@.len() == 0,
        vendor.equipment_count > 0 ==> {
            let window = accounts@.take(
                if vendor.equipment_count <= accounts@.len() {
                    vendor.equipment_count as int
                } else {
                    accounts@.len() as int
                },
            );
            (r.equipment@, r.failed_loads@) == spec_vendor_directory(window, vendor_key)
        },
{
    let count = vendor.equipment_count;
    let mut equipment_list: Vec<EquipmentInfo> = Vec::new();
    let mut failed_loads: Vec<u64> = Vec::new();
    if count == 0 {
        return VendorEquipmentResponse {
            total_count: count,
            equipment: equipment_list,
            failed_loads,
        };
    }
    let len = accounts.len();
    let window_len: usize = if count <= len as u64 {
        count as usize
    } else {
        len
    };
    let ghost full = accounts@;
    let mut remaining = accounts;
    let mut i: usize = 0;
    while i < window_len
        invariant
            window_len <= full.len(),
            i <= window_len,
            remaining@ == full.skip(i as int),
            (equipment_list@, failed_loads@) == spec_vendor_directory(
                full.take(i as int),
                vendor_key,
            ),
        decreases window_len - i,
    {
        proof {
            assert(remaining@.len() == full.len() - i);
            assert(full.take(i + 1).drop_last() =~= full.take(i as int));
            assert(full.take(i + 1).last() == full[i as int]);
            assert(remaining@[0] == full[i as int]);
        }
        let slot = remaining.remove(0);
        proof {
            assert(remaining@ =~= full.skip(i + 1));
        }
        match slot {
            Some(e) => {
                if e.vendor == vendor_key {
                    equipment_list.push(
                        EquipmentInfo {
                            name: e.name,
                            price: e.price,
                            uri: e.uri,
                            asset: e.asset,
                            index: i as u64,
                        },
                    );
                } else {
                    failed_loads.push(i as u64);
                }
            },
            None => {
                failed_loads.push(i as u64);
            },
        }
        i = i + 1;
    }
    VendorEquipmentResponse { total_count: count, equipment: equipment_list, failed_loads }
}

/// The directory entry a funder sees for one listing: the listing's
/// identity and fields with the funder's first offer's quantity and
/// terms.
pub open spec fn spec_funder_info(
    key: AccountId,
    e: Equipment,
    offer: FunderInfo,
) -> FunderEquipmentInfo {
    FunderEquipmentInfo {
        equipment_pda: key,
        name: e.name,
        price: e.price,
        uri: e.uri,
        asset: e.asset,
        funded_quantity: offer.quantity,
        total_quantity: e.total_quantity,
        minimum_deposit: offer.minimum_deposit,
        duration_seconds: offer.duration_seconds,
    }
}

/// The funder directory built from loaded listings: one entry per
/// listing that carries an offer by the funder, in order, under the
/// funder's first offer on it.
pub open spec fn spec_funder_directory(
    entries: Seq<(AccountId, Equipment)>,
    funder: AccountId,
) -> Seq<FunderEquipmentInfo>
    decreases entries.len(),
{
    if entries.len() == 0 {
        Seq::empty()
    } else {
        let prefix = spec_funder_directory(entries.drop_last(), funder);
        let last = entries.last();
        if offer_by_exists(last.1.funders@, funder) {
            prefix.push(spec_funder_info(last.0, last.1, first_offer_by(last.1.funders@, funder)))
        } else {
            prefix
        }
    }
}

/// Collect the listings a funder has offers on, from the listing records
/// the host loaded together with their keys.  Each listing with an offer
/// by `funder` contributes one entry carrying the terms of the funder's
/// first offer on it; the count is the number of entries.
pub fn get_funded_equipment(entries: Vec<(AccountId, Equipment)>, funder: AccountId) -> (r:
    FunderEquipmentResponse)
    ensures
        r.equipment@ == spec_funder_directory(entries@, funder),
        r.total_count == spec_funder_directory(entries@, funder).len(),
{
    let mut equipment_list: Vec<FunderEquipmentInfo> = Vec::new();
    let ghost full = entries@;
    let mut remaining = entries;
    let window_len = remaining.len();
    let mut i: usize = 0;
    while i < window_len
        invariant
            window_len == full.len(),
            i <= window_len,
            remaining@ == full.skip(i as int),
            equipment_list@ == spec_funder_directory(full.take(i as int), funder),
        decreases window_len - i,
    {
        proof {
            assert(full.take(i + 1).drop_last() =~= full.take(i as int));
            assert(full.take(i + 1).last() == full[i as int]);
            assert(remaining@[0] == full[i as int]);
        }
        let (key, e) = remaining.remove(0);
        proof {
            assert(remaining@ =~= full.skip(i + 1));
        }
        match e.find_offer_by_funder(funder) {
            Some(offer_index) => {
                proof {
                    assert(offer_by(e.funders@[offer_index as int], funder));
                    let j = choose|j: int| is_first_offer_by(e.funders@, funder, j);
                    assert(is_first_offer_by(e.funders@, funder, j));
                    assert(j == offer_index as int);
                }
                let quantity = e.funders[offer_index].quantity;
                let minimum_deposit = e.funders[offer_index].minimum_deposit;
                let duration_seconds = e.funders[offer_index].duration_seconds;
                equipment_list.push(
                    FunderEquipmentInfo {
                        equipment_pda: key,
                        name: e.name,
                        price: e.price,
                        uri: e.uri,
                        asset: e.asset,
                        funded_quantity: quantity,
                        total_quantity: e.total_quantity,
                        minimum_deposit,
                        duration_seconds,
                    },
                );
            },
            None => {},
        }
        i = i + 1;
    }
    proof {
        assert(full.take(window_len as int) =~= full);
    }
    FunderEquipmentResponse {
        total_count: equipment_list.len() as u64,
        equipment: equipment_list,
    }
}

} // verus!
