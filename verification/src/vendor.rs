use vstd::prelude::*;

use crate::errors::ErrorCode;
use crate::ids::AccountId;
use crate::validation::spec_byte_len;
use crate::validation::validate_name;
use crate::validation::validate_uri;

verus! {

#[derive(Clone, Copy, Debug, PartialEq, Eq, Structural)]
pub enum VendorStatus {
    Active,
    Suspended,
    Deactivated,
}

/// A vendor's directory record: its identity, its asset collection, and
/// the listings it has uploaded.
#[derive(Clone, Debug)]
pub struct Vendor {
    pub authority: AccountId,
    pub collection: AccountId,
    pub name: String,
    pub uri: String,
    pub marketplace: Option<AccountId>,
    pub equipments: Vec<AccountId>,
    pub status: VendorStatus,
    pub unique_id: AccountId,
    pub collection_unique_id: AccountId,
    pub equipment_count: u64,
}

/// One listing in a vendor's equipment directory response.
#[derive(Clone, Debug)]
pub struct EquipmentInfo {
    pub name: String,
    pub price: u64,
    pub uri: String,
    pub asset: AccountId,
    pub index: u64,
}

/// A vendor's equipment directory: the vendor's unit count, the listings
/// that loaded, and the positions of those that did not.
#[derive(Clone, Debug)]
pub struct VendorEquipmentResponse {
    pub total_count: u64,
    pub equipment: Vec<EquipmentInfo>,
    pub failed_loads: Vec<u64>,
}

/// Register a vendor: validate its name and URI and build a fresh record
/// with no marketplace link, no listings, and `Active` status.  The
/// collection identity comes from the external asset registry.
pub fn create_vendor(
    authority: AccountId,
    collection: AccountId,
    name: String,
    uri: String,
    unique_id: AccountId,
    collection_unique_id: AccountId,
) -> (r: Result<Vendor, ErrorCode>)
    ensures
        r is Ok <==> 1 <= spec_byte_len(name@) <= 32 && 1 <= spec_byte_len(uri@) <= 200,
        spec_byte_len(name@) == 0 ==> r == Err::<Vendor, ErrorCode>(ErrorCode::InvalidName),
        spec_byte_len(name@) > 32 ==> r == Err::<Vendor, ErrorCode>(ErrorCode::InvalidStringLength),
        1 <= spec_byte_len(name@) <= 32 && spec_byte_len(uri@) == 0 ==> r == Err::<
            Vendor,
            ErrorCode,
        >(ErrorCode::InvalidUri),
        1 <= spec_byte_len(name@) <= 32 && spec_byte_len(uri@) > 200 ==> r == Err::<
            Vendor,
            ErrorCode,
        >(ErrorCode::InvalidStringLength),
        r matches Ok(v) ==> {
            &&& v.authority == authority
            &&& v.collection == collection
            &&& v.name == name
            &&& v.uri == uri
            &&& v.marketplace is None
            &&& v.equipments@.len() == 0
            &&& v.status is Active
            &&& v.unique_id == unique_id
            &&& v.collection_unique_id == collection_unique_id
            &&& v.equipment_count == 0
        },
{
    validate_name(name.as_str())?;
    validate_uri(uri.as_str())?;
    Ok(
        Vendor {
            authority,
            collection,
            name,
            uri,
            marketplace: None,
            equipments: Vec::new(),
            status: VendorStatus::Active,
            unique_id,
            collection_unique_id,
            equipment_count: 0,
        },
    )
}

} // verus!
