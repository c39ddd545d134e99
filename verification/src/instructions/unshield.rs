use vstd::prelude::*;

use crate::cpi::{refreeze, push_thaw_if_frozen, thaw_if_frozen, unsigned, vault_seeds, Action, Step, TokenProgram, VaultSeeds};
use crate::errors::SignitoError;
use crate::hash::{ots_hash, sha256_digest};
use crate::ots::{apply_withdrawal, withdrawal_outcome};
use crate::state::VaultState;

verus! {

/// Arguments of an owner-signed withdrawal.
#[derive(Clone, Copy, Debug, PartialEq, Eq)]
pub struct UnshieldArgs {
    /// `H(n-1)`: the revealed preimage of the current chain tip.
    pub ots_preimage: [u8; 32],
    /// Lamports to withdraw; at most the vault's deposited balance.
    pub amount: u64,
}

/// The accounts an owner-signed withdrawal reads and writes.
#[derive(Clone, Debug, PartialEq, Eq)]
pub struct Unshield {
    /// The vault owner, signer of the transaction.
    pub owner: [u8; 32],
    /// Address of the owner's vault.
    pub vault_pda: [u8; 32],
    /// Data of the owner's vault.
    pub vault_state: VaultState,
    /// The vault's receipt mint.
    pub mint_stoken: [u8; 32],
    /// The owner's receipt token account.
    pub owner_stoken_ata: [u8; 32],
    /// Raw data of the owner's receipt token account.
    pub owner_stoken_ata_data: Vec<u8>,
    /// Where the withdrawn lamports go.
    pub destination: [u8; 32],
}

/// Effects of an authorised withdrawal: thaw the receipt account if frozen,
/// burn `amount` receipt tokens with the owner's signature, freeze the account
/// again, and move `amount` lamports from the vault to the destination.
pub open spec fn unshield_steps(ctx: Unshield, amount: u64) -> Seq<Step> {
    let seeds = vault_seeds(ctx.owner, ctx.vault_state.bump);
    thaw_if_frozen(ctx.owner_stoken_ata_data@, ctx.owner_stoken_ata, ctx.mint_stoken, ctx.vault_pda, seeds) + seq![
        unsigned(Action::Burn {
            program: TokenProgram::Token2022,
            account: ctx.owner_stoken_ata,
            mint: ctx.mint_stoken,
            authority: ctx.owner,
            amount,
        }),
        refreeze(ctx.owner_stoken_ata, ctx.mint_stoken, ctx.vault_pda, seeds),
        unsigned(Action::MoveLamports { from: ctx.vault_pda, to: ctx.destination, amount }),
    ]
}

/// Outcome of an owner-signed withdrawal: the accounts after it and its effects.
pub open spec fn unshield_result(ctx: Unshield, args: UnshieldArgs) -> Result<(Unshield, Seq<Step>), SignitoError> {
    match withdrawal_outcome(ctx.vault_state, sha256_digest(args.ots_preimage@), args.ots_preimage, args.amount) {
        Err(e) => Err(e),
        Ok(v) => Ok(((Unshield { vault_state: v, ..ctx }), unshield_steps(ctx, args.amount))),
    }
}

/// Owner-signed withdrawal: verifies the OTS preimage against the chain tip,
/// advances the chain, and returns the effects that move the lamports out.
pub fn handler(ctx: &mut Unshield, args: &UnshieldArgs) -> (r: Result<Vec<Step>, SignitoError>)
    ensures
        match unshield_result(*old(ctx), *args) {
            Err(e) => r == Err::<Vec<Step>, SignitoError>(e) && *final(ctx) == *old(ctx),
            Ok((c, s)) => r matches Ok(steps) && steps@ == s && *final(ctx) == c,
        },
{
    let digest = ots_hash(&args.ots_preimage);
    let new_state = apply_withdrawal(&ctx.vault_state, &digest, &args.ots_preimage, args.amount)?;
    let seeds = VaultSeeds { owner: ctx.owner, bump: ctx.vault_state.bump };
    let mut steps: Vec<Step> = Vec::new();
    push_thaw_if_frozen(&mut steps, ctx.owner_stoken_ata_data.as_slice(), ctx.owner_stoken_ata, ctx.mint_stoken, ctx.vault_pda, seeds);
    steps.push(Step {
        action: Action::Burn {
            program: TokenProgram::Token2022,
            account: ctx.owner_stoken_ata,
            mint: ctx.mint_stoken,
            authority: ctx.owner,
            amount: args.amount,
        },
        signer: None,
    });
    steps.push(Step {
        action: Action::FreezeAccount {
            program: TokenProgram::Token2022,
            account: ctx.owner_stoken_ata,
            mint: ctx.mint_stoken,
            authority: ctx.vault_pda,
        },
        signer: Some(seeds),
    });
    steps.push(Step {
        action: Action::MoveLamports { from: ctx.vault_pda, to: ctx.destination, amount: args.amount },
        signer: None,
    });
    assert(steps@ =~= unshield_steps(*old(ctx), args.amount));
    ctx.vault_state = new_state;
    Ok(steps)
}

} // verus!
