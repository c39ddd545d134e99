use vstd::prelude::*;

use crate::errors::SignitoError;
use crate::state::VaultState;

verus! {

/// The accounts an OTS chain refresh reads and writes.
#[derive(Clone, Copy, Debug, PartialEq, Eq)]
pub struct RefreshOts {
    /// The vault owner, who must sign.
    pub owner: [u8; 32],
    /// Address of the owner's vault.
    pub vault_pda: [u8; 32],
    /// Data of the owner's vault.
    pub vault_state: VaultState,
}

/// Arguments of an OTS chain refresh.
#[derive(Clone, Copy, Debug, PartialEq, Eq)]
pub struct RefreshOtsArgs {
    /// Tip of the new chain, derived from the same vault code with the next
    /// generation suffix.
    pub new_ots_tip: [u8; 32],
    /// Depth of the new chain.
    pub new_chain_depth: u8,
}

/// The accounts after a refresh: the vault's chain tip and depth replaced.
pub open spec fn refresh_result(ctx: RefreshOts, args: RefreshOtsArgs) -> RefreshOts {
    RefreshOts {
        vault_state: (VaultState {
            current_ots_hash: args.new_ots_tip,
            chain_depth: args.new_chain_depth,
            ..ctx.vault_state
        }),
        ..ctx
    }
}

/// Replaces the OTS chain of a vault by a new tip and depth, without moving
/// funds or changing anything else.
pub fn handler(ctx: &mut RefreshOts, args: &RefreshOtsArgs) -> (r: Result<(), SignitoError>)
    ensures
        r is Ok,
        *final(ctx) == refresh_result(*old(ctx), *args),
{
    ctx.vault_state.current_ots_hash = args.new_ots_tip;
    ctx.vault_state.chain_depth = args.new_chain_depth;
    Ok(())
}

} // verus!
