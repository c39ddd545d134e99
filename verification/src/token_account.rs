use vstd::prelude::*;

use crate::bytes::{le_u32, read_u32_le, region_equals};
use crate::constants::{ACCOUNT_STATE_FROZEN, ACCOUNT_STATE_OFFSET, DELEGATE_OFFSET, DELEGATE_OPTION_OFFSET};
use crate::errors::SignitoError;

verus! {

/// Whether the raw data of a token account shows it frozen: it has a state byte,
/// and that byte is 2.
pub open spec fn account_frozen(data: Seq<u8>) -> bool {
    data.len() > ACCOUNT_STATE_OFFSET && data[ACCOUNT_STATE_OFFSET as int] == ACCOUNT_STATE_FROZEN
}

/// Reads the state byte of a token account's raw data.
pub fn is_frozen(data: &[u8]) -> (r: bool)
    ensures
        r == account_frozen(data@),
{
    data.len() > ACCOUNT_STATE_OFFSET && data[ACCOUNT_STATE_OFFSET] == ACCOUNT_STATE_FROZEN
}

/// Whether the raw data of a token account names `delegate` as its delegate:
/// the data reaches the state byte, the delegate tag (u32 LE) is 1, and the
/// 32 delegate bytes are `delegate`.
pub open spec fn delegate_is(data: Seq<u8>, delegate: Seq<u8>) -> bool {
    &&& data.len() >= ACCOUNT_STATE_OFFSET
    &&& le_u32(data, DELEGATE_OPTION_OFFSET as int) == 1
    &&& data.subrange(DELEGATE_OFFSET as int, ACCOUNT_STATE_OFFSET as int) == delegate
}

/// Checks that a token account has `delegate` as its delegate; fails with
/// `Unauthorized` otherwise.
pub fn check_delegate(data: &[u8], delegate: &[u8; 32]) -> (r: Result<(), SignitoError>)
    ensures
        r is Ok <==> delegate_is(data@, delegate@),
        r matches Err(e) ==> e == SignitoError::Unauthorized,
{
    if data.len() < ACCOUNT_STATE_OFFSET {
        return Err(SignitoError::Unauthorized);
    }
    let tag = read_u32_le(data, DELEGATE_OPTION_OFFSET);
    if tag != 1 {
        return Err(SignitoError::Unauthorized);
    }
    if !region_equals(data, DELEGATE_OFFSET, 32, delegate.as_slice()) {
        return Err(SignitoError::Unauthorized);
    }
    Ok(())
}

} // verus!
