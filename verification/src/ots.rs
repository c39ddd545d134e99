use vstd::prelude::*;

use crate::bytes::keys_equal;
use crate::errors::SignitoError;
use crate::state::VaultState;

verus! {

/// The error with which a withdrawal of `amount` lamports from `vault` fails when
/// the revealed preimage hashes to `digest`, or `None` when it is authorised.
/// The checks run in this order: a zero amount, a digest that is not the chain
/// tip, an exhausted chain, an amount above the deposited balance.
pub open spec fn withdrawal_error(vault: VaultState, digest: Seq<u8>, amount: u64) -> Option<SignitoError> {
    if amount == 0 {
        Some(SignitoError::InvalidAmount)
    } else if digest != vault.current_ots_hash@ {
        Some(SignitoError::InvalidOtsPreimage)
    } else if vault.chain_depth == 0 {
        Some(SignitoError::VaultExhausted)
    } else if amount > vault.total_deposited {
        Some(SignitoError::InsufficientFunds)
    } else {
        None
    }
}

/// The vault after an authorised withdrawal: the revealed preimage becomes the
/// chain tip, one chain level is consumed, and the amount leaves the balance.
pub open spec fn after_withdrawal(vault: VaultState, preimage: [u8; 32], amount: u64) -> VaultState {
    VaultState {
        current_ots_hash: preimage,
        chain_depth: (vault.chain_depth - 1) as u8,
        total_deposited: (vault.total_deposited - amount) as u64,
        ..vault
    }
}

/// The outcome of a withdrawal whose revealed preimage hashes to `digest`.
pub open spec fn withdrawal_outcome(vault: VaultState, digest: Seq<u8>, preimage: [u8; 32], amount: u64) -> Result<VaultState, SignitoError> {
    match withdrawal_error(vault, digest, amount) {
        Some(e) => Err(e),
        None => Ok(after_withdrawal(vault, preimage, amount)),
    }
}

/// Checks an OTS-authorised withdrawal, given `digest`, the SHA-256 of the
/// revealed `preimage`, and returns the vault state after it.
pub fn apply_withdrawal(vault: &VaultState, digest: &[u8; 32], preimage: &[u8; 32], amount: u64) -> (r: Result<VaultState, SignitoError>)
    ensures
        r == withdrawal_outcome(*vault, digest@, *preimage, amount),
{
    if amount == 0 {
        return Err(SignitoError::InvalidAmount);
    }
    if !keys_equal(digest, &vault.current_ots_hash) {
        return Err(SignitoError::InvalidOtsPreimage);
    }
    if vault.chain_depth == 0 {
        return Err(SignitoError::VaultExhausted);
    }
    if amount > vault.total_deposited {
        return Err(SignitoError::InsufficientFunds);
    }
    Ok(VaultState {
        owner: vault.owner,
        current_ots_hash: *preimage,
        chain_depth: vault.chain_depth - 1,
        mint_stoken: vault.mint_stoken,
        total_deposited: vault.total_deposited - amount,
        bump: vault.bump,
    })
}

} // verus!
