use vstd::prelude::*;

use crate::cpi::{refreeze, push_thaw_if_frozen, signed, thaw_if_frozen, unsigned, vault_seeds, Action, Step, TokenProgram, VaultSeeds};
use crate::errors::SignitoError;
use crate::state::VaultState;

verus! {

/// Arguments of a deposit.
#[derive(Clone, Copy, Debug, PartialEq, Eq)]
pub struct DepositArgs {
    /// Lamports to add to the vault.
    pub amount: u64,
}

/// The accounts a deposit reads and writes.
#[derive(Clone, Debug, PartialEq, Eq)]
pub struct Deposit {
    /// The vault owner, signer and payer.
    pub owner: [u8; 32],
    /// Address of the owner's vault.
    pub vault_pda: [u8; 32],
    /// Data of the owner's vault.
    pub vault_state: VaultState,
    /// The vault's receipt mint.
    pub mint_stoken: [u8; 32],
    /// The owner's receipt token account.
    pub owner_stoken_ata: [u8; 32],
    /// Raw data of the owner's receipt token account.
    pub owner_stoken_ata_data: Vec<u8>,
}

/// Why a deposit is refused: a zero amount, or a balance that would overflow.
pub open spec fn deposit_error(vault: VaultState, amount: u64) -> Option<SignitoError> {
    if amount == 0 {
        Some(SignitoError::InvalidAmount)
    } else if vault.total_deposited + amount > u64::MAX {
        Some(SignitoError::Overflow)
    } else {
        None
    }
}

/// Effects of a deposit: move `amount` lamports from the owner into the vault,
/// thaw the receipt account if frozen, mint `amount` receipts to it, re-approve
/// the vault as its delegate for the whole supply with the owner's signature,
/// and freeze it again.
pub open spec fn deposit_steps(ctx: Deposit, amount: u64) -> Seq<Step> {
    let seeds = vault_seeds(ctx.owner, ctx.vault_state.bump);
    seq![unsigned(Action::SystemTransfer { from: ctx.owner, to: ctx.vault_pda, lamports: amount })]
        + thaw_if_frozen(ctx.owner_stoken_ata_data@, ctx.owner_stoken_ata, ctx.mint_stoken, ctx.vault_pda, seeds)
        + seq![
        signed(Action::MintTo {
            program: TokenProgram::Token2022,
            mint: ctx.mint_stoken,
            account: ctx.owner_stoken_ata,
            authority: ctx.vault_pda,
            amount,
        }, seeds),
        unsigned(Action::Approve {
            program: TokenProgram::Token2022,
            source: ctx.owner_stoken_ata,
            delegate: ctx.vault_pda,
            owner: ctx.owner,
            amount: u64::MAX,
        }),
        refreeze(ctx.owner_stoken_ata, ctx.mint_stoken, ctx.vault_pda, seeds),
    ]
}

/// Outcome of a deposit: the accounts after it and its effects.
pub open spec fn deposit_result(ctx: Deposit, args: DepositArgs) -> Result<(Deposit, Seq<Step>), SignitoError> {
    match deposit_error(ctx.vault_state, args.amount) {
        Some(e) => Err(e),
        None => Ok((
            (Deposit {
                vault_state: (VaultState {
                    total_deposited: (ctx.vault_state.total_deposited + args.amount) as u64,
                    ..ctx.vault_state
                }),
                ..ctx
            }),
            deposit_steps(ctx, args.amount),
        )),
    }
}

/// Deposit into an existing vault: adds the amount to the tracked balance and
/// returns the effects that move the lamports in and mint the receipts.
pub fn handler(ctx: &mut Deposit, args: &DepositArgs) -> (r: Result<Vec<Step>, SignitoError>)
    ensures
        match deposit_result(*old(ctx), *args) {
            Err(e) => r == Err::<Vec<Step>, SignitoError>(e) && *final(ctx) == *old(ctx),
            Ok((c, s)) => r matches Ok(steps) && steps@ == s && *final(ctx) == c,
        },
{
    if args.amount == 0 {
        return Err(SignitoError::InvalidAmount);
    }
    let new_total = match ctx.vault_state.total_deposited.checked_add(args.amount) {
        Some(t) => t,
        None => return Err(SignitoError::Overflow),
    };
    let seeds = VaultSeeds { owner: ctx.owner, bump: ctx.vault_state.bump };
    let mut steps: Vec<Step> = Vec::new();
    steps.push(Step {
        action: Action::SystemTransfer { from: ctx.owner, to: ctx.vault_pda, lamports: args.amount },
        signer: None,
    });
    push_thaw_if_frozen(&mut steps, ctx.owner_stoken_ata_data.as_slice(), ctx.owner_stoken_ata, ctx.mint_stoken, ctx.vault_pda, seeds);
    steps.push(Step {
        action: Action::MintTo {
            program: TokenProgram::Token2022,
            mint: ctx.mint_stoken,
            account: ctx.owner_stoken_ata,
            authority: ctx.vault_pda,
            amount: args.amount,
        },
        signer: Some(seeds),
    });
    steps.push(Step {
        action: Action::Approve {
            program: TokenProgram::Token2022,
            source: ctx.owner_stoken_ata,
            delegate: ctx.vault_pda,
            owner: ctx.owner,
            amount: u64::MAX,
        },
        signer: None,
    });
    steps.push(Step {
        action: Action::FreezeAccount {
            program: TokenProgram::Token2022,
            account: ctx.owner_stoken_ata,
            mint: ctx.mint_stoken,
            authority: ctx.vault_pda,
        },
        signer: Some(seeds),
    });
    assert(steps@ =~= deposit_steps(*old(ctx), args.amount));
    ctx.vault_state.total_deposited = new_total;
    Ok(steps)
}

} // verus!
