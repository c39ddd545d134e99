use vstd::prelude::*;

use crate::cpi::{refreeze, push_thaw_if_frozen, signed, thaw_if_frozen, unsigned, vault_seeds, Action, Step, TokenProgram, VaultSeeds};
use crate::errors::SignitoError;
use crate::hash::{ots_hash, sha256_digest};
use crate::ots::{after_withdrawal, apply_withdrawal, withdrawal_error};
use crate::state::VaultState;
use crate::token_account::{check_delegate, delegate_is};

verus! {

/// Arguments of a relayer-mediated withdrawal.
#[derive(Clone, Copy, Debug, PartialEq, Eq)]
pub struct ZkUnshieldArgs {
    /// `H(n-1)`: the revealed preimage of the current chain tip.
    pub ots_preimage: [u8; 32],
    /// Lamports to withdraw; at most the vault's deposited balance.
    pub amount: u64,
}

/// The accounts a relayer-mediated withdrawal reads and writes. The owner does
/// not sign: the OTS preimage alone authorises the withdrawal, and the vault
/// address, approved as delegate of the receipt account, burns the receipts.
#[derive(Clone, Debug, PartialEq, Eq)]
pub struct ZkUnshield {
    /// The relayer that pays the fee and signs the transaction.
    pub relayer: [u8; 32],
    /// The vault owner (not a signer).
    pub owner: [u8; 32],
    /// Address of the owner's vault.
    pub vault_pda: [u8; 32],
    /// Data of the owner's vault.
    pub vault_state: VaultState,
    /// The vault's receipt mint.
    pub mint_stoken: [u8; 32],
    /// The owner's receipt token account.
    pub owner_stoken_ata: [u8; 32],
    /// Raw data of the owner's receipt token account.
    pub owner_stoken_ata_data: Vec<u8>,
    /// Where the withdrawn lamports go.
    pub destination: [u8; 32],
}

/// Why a relayer-mediated withdrawal is refused: first the withdrawal checks,
/// then that the vault is the delegate of the receipt account.
pub open spec fn zk_unshield_error(ctx: ZkUnshield, digest: Seq<u8>, amount: u64) -> Option<SignitoError> {
    match withdrawal_error(ctx.vault_state, digest, amount) {
        Some(e) => Some(e),
        None => if delegate_is(ctx.owner_stoken_ata_data@, ctx.vault_pda@) {
            None
        } else {
            Some(SignitoError::Unauthorized)
        },
    }
}

/// Effects of an authorised relayer-mediated withdrawal: thaw the receipt
/// account if frozen, burn `amount` receipts with the vault as delegate,
/// freeze the account again, and move `amount` lamports to the destination.
pub open spec fn zk_unshield_steps(ctx: ZkUnshield, amount: u64) -> Seq<Step> {
    let seeds = vault_seeds(ctx.owner, ctx.vault_state.bump);
    thaw_if_frozen(ctx.owner_stoken_ata_data@, ctx.owner_stoken_ata, ctx.mint_stoken, ctx.vault_pda, seeds) + seq![
        signed(Action::Burn {
            program: TokenProgram::Token2022,
            account: ctx.owner_stoken_ata,
            mint: ctx.mint_stoken,
            authority: ctx.vault_pda,
            amount,
        }, seeds),
        refreeze(ctx.owner_stoken_ata, ctx.mint_stoken, ctx.vault_pda, seeds),
        unsigned(Action::MoveLamports { from: ctx.vault_pda, to: ctx.destination, amount }),
    ]
}

/// Outcome of a relayer-mediated withdrawal: the accounts after it and its effects.
pub open spec fn zk_unshield_result(ctx: ZkUnshield, args: ZkUnshieldArgs) -> Result<(ZkUnshield, Seq<Step>), SignitoError> {
    match zk_unshield_error(ctx, sha256_digest(args.ots_preimage@), args.amount) {
        Some(e) => Err(e),
        None => Ok((
            (ZkUnshield { vault_state: after_withdrawal(ctx.vault_state, args.ots_preimage, args.amount), ..ctx }),
            zk_unshield_steps(ctx, args.amount),
        )),
    }
}

/// Relayer-mediated withdrawal: verifies the OTS preimage and the vault's
/// delegation over the receipt account, advances the chain, and returns the
/// effects that move the lamports out.
pub fn handler(ctx: &mut ZkUnshield, args: &ZkUnshieldArgs) -> (r: Result<Vec<Step>, SignitoError>)
    ensures
        match zk_unshield_result(*old(ctx), *args) {
            Err(e) => r == Err::<Vec<Step>, SignitoError>(e) && *final(ctx) == *old(ctx),
            Ok((c, s)) => r matches Ok(steps) && steps@ == s && *final(ctx) == c,
        },
{
    let digest = ots_hash(&args.ots_preimage);
    let new_state = apply_withdrawal(&ctx.vault_state, &digest, &args.ots_preimage, args.amount)?;
    check_delegate(ctx.owner_stoken_ata_data.as_slice(), &ctx.vault_pda)?;
    let seeds = VaultSeeds { owner: ctx.owner, bump: ctx.vault_state.bump };
    let mut steps: Vec<Step> = Vec::new();
    push_thaw_if_frozen(&mut steps, ctx.owner_stoken_ata_data.as_slice(), ctx.owner_stoken_ata, ctx.mint_stoken, ctx.vault_pda, seeds);
    steps.push(Step {
        action: Action::Burn {
            program: TokenProgram::Token2022,
            account: ctx.owner_stoken_ata,
            mint: ctx.mint_stoken,
            authority: ctx.vault_pda,
            amount: args.amount,
        },
        signer: Some(seeds),
    });
    steps.push(Step {
        action: Action::FreezeAccount {
            program: TokenProgram::Token2022,
            account: ctx.owner_stoken_ata,
            mint: ctx.mint_stoken,
            authority: ctx.vault_pda,
        },
        signer: Some(seeds),
    });
    steps.push(Step {
        action: Action::MoveLamports { from: ctx.vault_pda, to: ctx.destination, amount: args.amount },
        signer: None,
    });
    assert(steps@ =~= zk_unshield_steps(*old(ctx), args.amount));
    ctx.vault_state = new_state;
    Ok(steps)
}

} // verus!
