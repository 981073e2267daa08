use vstd::prelude::*;

use crate::errors::ErrorCode;
use crate::ids::AccountId;
use crate::validation::spec_byte_len;
use crate::validation::validate_name;
use crate::validation::validate_uri;

verus! {

/// A marketplace's directory record: its authority and the asset
/// collection the external registry minted for it.
#[derive(Clone, Debug)]
pub struct Marketplace {
    pub authority: AccountId,
    pub collection: AccountId,
    pub name: String,
    pub uri: String,
}

/// Open a marketplace: validate its name and URI and build the record.
/// The collection identity comes from the external asset registry.
pub fn create_marketplace(
    authority: AccountId,
    collection: AccountId,
    name: String,
    uri: String,
) -> (r: Result<Marketplace, ErrorCode>)
    ensures
        r is Ok <==> 1 <= spec_byte_len(name@) <= 32 && 1 <= spec_byte_len(uri@) <= 200,
        spec_byte_len(name@) == 0 ==> r == Err::<Marketplace, ErrorCode>(ErrorCode::InvalidName),
        spec_byte_len(name@) > 32 ==> r == Err::<Marketplace, ErrorCode>(
            ErrorCode::InvalidStringLength,
        ),
        1 <= spec_byte_len(name@) <= 32 && spec_byte_len(uri@) == 0 ==> r == Err::<
            Marketplace,
            ErrorCode,
        >(ErrorCode::InvalidUri),
        1 <= spec_byte_len(name@) <= 32 && spec_byte_len(uri@) > 200 ==> r == Err::<
            Marketplace,
            ErrorCode,
        >(ErrorCode::InvalidStringLength),
        r matches Ok(m) ==> m.authority == authority && m.collection == collection && m.name == name
            && m.uri == uri,
{
    validate_name(name.as_str())?;
    validate_uri(uri.as_str())?;
    Ok(Marketplace { authority, collection, name, uri })
}

} // verus!
