use vstd::prelude::*;

use crate::errors::SignitoError;
use crate::state::VaultState;

verus! {

/// The accounts closing a vault reads.
#[derive(Clone, Copy, Debug, PartialEq, Eq)]
pub struct CloseVault {
    /// The vault owner, signer, and receiver of the account's rent.
    pub owner: [u8; 32],
    /// Address of the owner's vault.
    pub vault_pda: [u8; 32],
    /// Data of the owner's vault.
    pub vault_state: VaultState,
}

/// Closing a vault: allowed only when it holds no deposited lamports, and
/// refused with `VaultNotEmpty` otherwise. The account's rent then returns to
/// the owner.
pub fn handler(ctx: &CloseVault) -> (r: Result<(), SignitoError>)
    ensures
        r is Ok <==> ctx.vault_state.total_deposited == 0,
        r matches Err(e) ==> e == SignitoError::VaultNotEmpty,
{
    if ctx.vault_state.total_deposited != 0 {
        return Err(SignitoError::VaultNotEmpty);
    }
    Ok(())
}

} // verus!
