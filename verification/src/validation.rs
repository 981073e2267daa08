use vstd::prelude::*;

use crate::errors::ErrorCode;

verus! {

use vstd::string::StringSliceAdditionalSpecFns;

/// Length of a sequence of characters in UTF-8 bytes, the measure the
/// host ledger bills for and the one every length bound below is stated
/// over.
pub open spec fn spec_byte_len(chars: Seq<char>) -> usize {
    vstd::utf8::encode_utf8(chars).len() as usize
}

/// Byte length of a string slice.
pub open spec fn byte_len(s: &str) -> usize {
    s.len()
}

/// A string is acceptable when its byte length lies within `[min, max]`.
pub fn validate_string_length(string: &str, min: usize, max: usize) -> (r: Result<
    (),
    ErrorCode,
>)
    ensures
        r is Ok <==> min <= byte_len(string) && byte_len(string) <= max,
        r is Err ==> r == Err::<(), ErrorCode>(ErrorCode::InvalidStringLength),
{
    if string.len() >= min && string.len() <= max {
        Ok(())
    } else {
        Err(ErrorCode::InvalidStringLength)
    }
}

/// A name must be non-empty and at most 32 bytes.
pub fn validate_name(name: &str) -> (r: Result<(), ErrorCode>)
    ensures
        r is Ok <==> 1 <= byte_len(name) && byte_len(name) <= 32,
        byte_len(name) == 0 ==> r == Err::<(), ErrorCode>(ErrorCode::InvalidName),
        byte_len(name) > 32 ==> r == Err::<(), ErrorCode>(ErrorCode::InvalidStringLength),
{
    if name.len() == 0 {
        return Err(ErrorCode::InvalidName);
    }
    validate_string_length(name, 1, 32)
}

/// A URI must be non-empty and at most 200 bytes.
pub fn validate_uri(uri: &str) -> (r: Result<(), ErrorCode>)
    ensures
        r is Ok <==> 1 <= byte_len(uri) && byte_len(uri) <= 200,
        byte_len(uri) == 0 ==> r == Err::<(), ErrorCode>(ErrorCode::InvalidUri),
        byte_len(uri) > 200 ==> r == Err::<(), ErrorCode>(ErrorCode::InvalidStringLength),
{
    if uri.len() == 0 {
        return Err(ErrorCode::InvalidUri);
    }
    validate_string_length(uri, 1, 200)
}

/// A price (or any monetary amount that stands for one) must be positive.
pub fn validate_price(price: u64) -> (r: Result<(), ErrorCode>)
    ensures
        r is Ok <==> price > 0,
        r is Err ==> r == Err::<(), ErrorCode>(ErrorCode::InvalidPrice),
{
    if price > 0 {
        Ok(())
    } else {
        Err(ErrorCode::InvalidPrice)
    }
}

/// A financing duration in seconds must be positive.
pub fn validate_duration(duration: i64) -> (r: Result<(), ErrorCode>)
    ensures
        r is Ok <==> duration > 0,
        r is Err ==> r == Err::<(), ErrorCode>(ErrorCode::InvalidDuration),
{
    if duration > 0 {
        Ok(())
    } else {
        Err(ErrorCode::InvalidDuration)
    }
}

/// An insurance premium is optional, but when present it must be positive:
/// zero is never used as a sentinel for "uninsured".
pub fn validate_insurance_premium(premium: Option<u64>) -> (r: Result<(), ErrorCode>)
    ensures
        r is Ok <==> (premium matches Some(a) ==> a > 0),
        r is Err ==> r == Err::<(), ErrorCode>(ErrorCode::InvalidInsurancePremium),
{
    if let Some(amount) = premium {
        if amount == 0 {
            return Err(ErrorCode::InvalidInsurancePremium);
        }
    }
    Ok(())
}

/// An installment cadence in seconds must be positive.
pub fn validate_installment_frequency(frequency: u64) -> (r: Result<(), ErrorCode>)
    ensures
        r is Ok <==> frequency > 0,
        r is Err ==> r == Err::<(), ErrorCode>(ErrorCode::InvalidInstallmentFrequency),
{
    if frequency > 0 {
        Ok(())
    } else {
        Err(ErrorCode::InvalidInstallmentFrequency)
    }
}

} // verus!
