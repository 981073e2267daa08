use vstd::prelude::*;

use crate::ids::AccountId;

verus! {

/// One listing in a funder's directory response: the listing's identity
/// and fields together with the funder's own committed quantity and
/// terms on it.
#[derive(Clone, Debug)]
pub struct FunderEquipmentInfo {
    pub equipment_pda: AccountId,
    pub name: String,
    pub price: u64,
    pub uri: String,
    pub asset: AccountId,
    pub funded_quantity: u64,
    pub total_quantity: u64,
    pub minimum_deposit: u64,
    pub duration_seconds: i64,
}

/// A funder's equipment directory: every listing the funder has an offer
/// on, and how many there are.
#[derive(Clone, Debug)]
pub struct FunderEquipmentResponse {
    pub total_count: u64,
    pub equipment: Vec<FunderEquipmentInfo>,
}

} // verus!
