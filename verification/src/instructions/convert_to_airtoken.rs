use vstd::prelude::*;

use crate::constants::{MINT_LEN, TOKEN_ACCOUNT_LEN, TOKEN_DECIMALS};
use crate::cpi::{push_thaw_if_frozen, refreeze, signed, thaw_if_frozen, unsigned, vault_seeds, Action, RentMinimums, Step, TokenProgram, VaultSeeds};
use crate::errors::SignitoError;
use crate::hash::{ots_hash, sha256_digest};
use crate::ots::{apply_withdrawal, withdrawal_outcome};
use crate::state::VaultState;

verus! {

/// Arguments of a conversion of receipts into voucher tokens.
#[derive(Clone, Copy, Debug, PartialEq, Eq)]
pub struct ConvertToAirtokenArgs {
    /// `H(n-1)`: the revealed preimage of the current chain tip.
    pub ots_preimage: [u8; 32],
    /// Lamports to convert from receipt tokens to voucher tokens.
    pub amount: u64,
}

/// The accounts a conversion reads and writes.
#[derive(Clone, Debug, PartialEq, Eq)]
pub struct ConvertToAirtoken {
    /// The vault owner, signer and payer.
    pub owner: [u8; 32],
    /// Address of the owner's vault.
    pub vault_pda: [u8; 32],
    /// Data of the owner's vault.
    pub vault_state: VaultState,
    /// The vault's receipt mint.
    pub mint_stoken: [u8; 32],
    /// The owner's receipt token account.
    pub owner_stoken_ata: [u8; 32],
    /// Raw data of the owner's receipt token account.
    pub owner_stoken_ata_data: Vec<u8>,
    /// Fresh keypair address for the transferable voucher-token mint.
    pub mint_atoken: [u8; 32],
    /// Fresh keypair address for the escrow account, owned by the vault, that
    /// holds the voucher tokens until a voucher is claimed.
    pub escrow_atoken_ata: [u8; 32],
}

/// Effects of an authorised conversion: thaw the receipt account if frozen,
/// burn `amount` receipts with the owner's signature, freeze the receipt
/// account again, move `amount` lamports from the vault to the owner, create a
/// classic SPL mint with the vault as mint authority, create and initialise an
/// escrow account owned by the vault, and mint `amount` voucher tokens into it.
pub open spec fn convert_steps(ctx: ConvertToAirtoken, amount: u64, rent: RentMinimums) -> Seq<Step> {
    let seeds = vault_seeds(ctx.owner, ctx.vault_state.bump);
    thaw_if_frozen(ctx.owner_stoken_ata_data@, ctx.owner_stoken_ata, ctx.mint_stoken, ctx.vault_pda, seeds) + seq![
        unsigned(Action::Burn {
            program: TokenProgram::Token2022,
            account: ctx.owner_stoken_ata,
            mint: ctx.mint_stoken,
            authority: ctx.owner,
            amount,
        }),
        refreeze(ctx.owner_stoken_ata, ctx.mint_stoken, ctx.vault_pda, seeds),
        unsigned(Action::MoveLamports { from: ctx.vault_pda, to: ctx.owner, amount }),
        unsigned(Action::CreateAccount {
            payer: ctx.owner,
            new_account: ctx.mint_atoken,
            lamports: rent.mint_account,
            space: MINT_LEN,
            program: TokenProgram::SplToken,
        }),
        signed(Action::InitializeMint {
            program: TokenProgram::SplToken,
            mint: ctx.mint_atoken,
            mint_authority: ctx.vault_pda,
            freeze_authority: None,
            decimals: TOKEN_DECIMALS,
        }, seeds),
        unsigned(Action::CreateAccount {
            payer: ctx.owner,
            new_account: ctx.escrow_atoken_ata,
            lamports: rent.token_account,
            space: TOKEN_ACCOUNT_LEN,
            program: TokenProgram::SplToken,
        }),
        signed(Action::InitializeAccount3 {
            program: TokenProgram::SplToken,
            account: ctx.escrow_atoken_ata,
            mint: ctx.mint_atoken,
            owner: ctx.vault_pda,
        }, seeds),
        signed(Action::MintTo {
            program: TokenProgram::SplToken,
            mint: ctx.mint_atoken,
            account: ctx.escrow_atoken_ata,
            authority: ctx.vault_pda,
            amount,
        }, seeds),
    ]
}

/// Outcome of a conversion: the accounts after it and its effects.
pub open spec fn convert_result(ctx: ConvertToAirtoken, args: ConvertToAirtokenArgs, rent: RentMinimums) -> Result<(ConvertToAirtoken, Seq<Step>), SignitoError> {
    match withdrawal_outcome(ctx.vault_state, sha256_digest(args.ots_preimage@), args.ots_preimage, args.amount) {
        Err(e) => Err(e),
        Ok(v) => Ok(((ConvertToAirtoken { vault_state: v, ..ctx }), convert_steps(ctx, args.amount, rent))),
    }
}

/// Conversion of receipts into escrowed voucher tokens: verifies the OTS
/// preimage exactly as a withdrawal does, advances the chain, and returns the
/// effects that burn the receipts and mint the voucher tokens.
pub fn handler(ctx: &mut ConvertToAirtoken, args: &ConvertToAirtokenArgs, rent: &RentMinimums) -> (r: Result<Vec<Step>, SignitoError>)
    ensures
        match convert_result(*old(ctx), *args, *rent) {
            Err(e) => r == Err::<Vec<Step>, SignitoError>(e) && *final(ctx) == *old(ctx),
            Ok((c, s)) => r matches Ok(steps) && steps@ == s && *final(ctx) == c,
        },
{
    let digest = ots_hash(&args.ots_preimage);
    let new_state = apply_withdrawal(&ctx.vault_state, &digest, &args.ots_preimage, args.amount)?;
    let seeds = VaultSeeds { owner: ctx.owner, bump: ctx.vault_state.bump };
    let mut steps: Vec<Step> = Vec::new();
    push_thaw_if_frozen(&mut steps, ctx.owner_stoken_ata_data.as_slice(), ctx.owner_stoken_ata, ctx.mint_stoken, ctx.vault_pda, seeds);
    steps.push(Step {
        action: Action::Burn {
            program: TokenProgram::Token2022,
            account: ctx.owner_stoken_ata,
            mint: ctx.mint_stoken,
            authority: ctx.owner,
            amount: args.amount,
        },
        signer: None,
    });
    steps.push(Step {
        action: Action::FreezeAccount {
            program: TokenProgram::Token2022,
            account: ctx.owner_stoken_ata,
            mint: ctx.mint_stoken,
            authority: ctx.vault_pda,
        },
        signer: Some(seeds),
    });
    steps.push(Step {
        action: Action::MoveLamports { from: ctx.vault_pda, to: ctx.owner, amount: args.amount },
        signer: None,
    });
    steps.push(Step {
        action: Action::CreateAccount {
            payer: ctx.owner,
            new_account: ctx.mint_atoken,
            lamports: rent.mint_account,
            space: MINT_LEN,
            program: TokenProgram::SplToken,
        },
        signer: None,
    });
    steps.push(Step {
        action: Action::InitializeMint {
            program: TokenProgram::SplToken,
            mint: ctx.mint_atoken,
            mint_authority: ctx.vault_pda,
            freeze_authority: None,
            decimals: TOKEN_DECIMALS,
        },
        signer: Some(seeds),
    });
    steps.push(Step {
        action: Action::CreateAccount {
            payer: ctx.owner,
            new_account: ctx.escrow_atoken_ata,
            lamports: rent.token_account,
            space: TOKEN_ACCOUNT_LEN,
            program: TokenProgram::SplToken,
        },
        signer: None,
    });
    steps.push(Step {
        action: Action::InitializeAccount3 {
            program: TokenProgram::SplToken,
            account: ctx.escrow_atoken_ata,
            mint: ctx.mint_atoken,
            owner: ctx.vault_pda,
        },
        signer: Some(seeds),
    });
    steps.push(Step {
        action: Action::MintTo {
            program: TokenProgram::SplToken,
            mint: ctx.mint_atoken,
            account: ctx.escrow_atoken_ata,
            authority: ctx.vault_pda,
            amount: args.amount,
        },
        signer: Some(seeds),
    });
    assert(steps@ =~= convert_steps(*old(ctx), args.amount, *rent));
    ctx.vault_state = new_state;
    Ok(steps)
}

} // verus!
