use vstd::prelude::*;

verus! {

/// The SHA-256 digest of `data`, as computed by the Solana hashing routine.
pub uninterp spec fn sha256_digest(data: Seq<u8>) -> Seq<u8>;

/// SHA-256 of one 32-byte OTS chain element.
///
/// Calls `anchor_lang::solana_program::hash::hashv` (re-exported from
/// `solana_sha256_hasher::hashv`) on the single slice `preimage`. The contract
/// claims only that the 32 bytes returned are the SHA-256 digest of those 32
/// bytes, a function of the input alone; the digest itself is named, not stated.
#[verifier::external_body]
pub(crate) fn ots_hash(preimage: &[u8; 32]) -> (digest: [u8; 32])
    ensures
        digest@ == sha256_digest(preimage@),
{
    anchor_lang::solana_program::hash::hashv(&[preimage.as_ref()]).to_bytes()
}

} // verus!
