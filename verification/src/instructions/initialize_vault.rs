use vstd::prelude::*;

use crate::constants::{MAX_CHAIN_DEPTH, MINT_LEN, TOKEN_ACCOUNT_LEN, TOKEN_DECIMALS};
use crate::cpi::{refreeze, signed, unsigned, vault_seeds, Action, RentMinimums, Step, TokenProgram, VaultSeeds};
use crate::errors::SignitoError;
use crate::state::VaultState;

verus! {

/// Arguments of vault creation.
#[derive(Clone, Copy, Debug, PartialEq, Eq)]
pub struct InitializeVaultArgs {
    /// Tip `H(depth)` of the new OTS chain.
    pub ots_tip: [u8; 32],
    /// Number of withdrawals the chain allows, 1 to 64.
    pub chain_depth: u8,
    /// Lamports of the first deposit.
    pub amount: u64,
}

/// The accounts vault creation reads and writes.
#[derive(Clone, Debug, PartialEq, Eq)]
pub struct InitializeVault {
    /// The vault owner, signer and payer.
    pub owner: [u8; 32],
    /// Address of the new vault.
    pub vault_pda: [u8; 32],
    /// Bump of the vault address.
    pub vault_bump: u8,
    /// Data of the new vault.
    pub vault_state: VaultState,
    /// Fresh keypair address for the receipt mint.
    pub mint_stoken: [u8; 32],
    /// Fresh keypair address for the owner's receipt token account.
    pub owner_stoken_ata: [u8; 32],
}

/// Why vault creation is refused: a zero amount, or a chain depth outside 1..=64
/// (both reported as `InvalidAmount`).
pub open spec fn initialize_error(args: InitializeVaultArgs) -> Option<SignitoError> {
    if args.amount == 0 {
        Some(SignitoError::InvalidAmount)
    } else if !(args.chain_depth > 0 && args.chain_depth <= MAX_CHAIN_DEPTH) {
        Some(SignitoError::InvalidAmount)
    } else {
        None
    }
}

/// The state of a new vault.
pub open spec fn initial_vault(ctx: InitializeVault, args: InitializeVaultArgs) -> VaultState {
    VaultState {
        owner: ctx.owner,
        current_ots_hash: args.ots_tip,
        chain_depth: args.chain_depth,
        mint_stoken: ctx.mint_stoken,
        total_deposited: args.amount,
        bump: ctx.vault_bump,
    }
}

/// Effects of vault creation: create and initialise the receipt mint (vault as
/// mint and freeze authority), create and initialise the owner's receipt
/// account, mint `amount` receipts to it, approve the vault as its delegate for
/// the whole supply, freeze it, and move `amount` lamports from the owner into
/// the vault.
pub open spec fn initialize_steps(ctx: InitializeVault, args: InitializeVaultArgs, rent: RentMinimums) -> Seq<Step> {
    let seeds = vault_seeds(ctx.owner, ctx.vault_bump);
    seq![
        unsigned(Action::CreateAccount {
            payer: ctx.owner,
            new_account: ctx.mint_stoken,
            lamports: rent.mint_account,
            space: MINT_LEN,
            program: TokenProgram::Token2022,
        }),
        unsigned(Action::InitializeMint2 {
            program: TokenProgram::Token2022,
            mint: ctx.mint_stoken,
            mint_authority: ctx.vault_pda,
            freeze_authority: Some(ctx.vault_pda),
            decimals: TOKEN_DECIMALS,
        }),
        unsigned(Action::CreateAccount {
            payer: ctx.owner,
            new_account: ctx.owner_stoken_ata,
            lamports: rent.token_account,
            space: TOKEN_ACCOUNT_LEN,
            program: TokenProgram::Token2022,
        }),
        unsigned(Action::InitializeAccount3 {
            program: TokenProgram::Token2022,
            account: ctx.owner_stoken_ata,
            mint: ctx.mint_stoken,
            owner: ctx.owner,
        }),
        signed(Action::MintTo {
            program: TokenProgram::Token2022,
            mint: ctx.mint_stoken,
            account: ctx.owner_stoken_ata,
            authority: ctx.vault_pda,
            amount: args.amount,
        }, seeds),
        unsigned(Action::Approve {
            program: TokenProgram::Token2022,
            source: ctx.owner_stoken_ata,
            delegate: ctx.vault_pda,
            owner: ctx.owner,
            amount: u64::MAX,
        }),
        refreeze(ctx.owner_stoken_ata, ctx.mint_stoken, ctx.vault_pda, seeds),
        unsigned(Action::SystemTransfer { from: ctx.owner, to: ctx.vault_pda, lamports: args.amount }),
    ]
}

/// Outcome of vault creation: the accounts after it and its effects.
pub open spec fn initialize_result(ctx: InitializeVault, args: InitializeVaultArgs, rent: RentMinimums) -> Result<(InitializeVault, Seq<Step>), SignitoError> {
    match initialize_error(args) {
        Some(e) => Err(e),
        None => Ok(((InitializeVault { vault_state: initial_vault(ctx, args), ..ctx }), initialize_steps(ctx, args, rent))),
    }
}

/// Vault creation: records owner, chain tip, depth, receipt mint and first
/// deposit, and returns the effects that set up the receipt token and move the
/// deposit in.
pub fn handler(ctx: &mut InitializeVault, args: &InitializeVaultArgs, rent: &RentMinimums) -> (r: Result<Vec<Step>, SignitoError>)
    ensures
        match initialize_result(*old(ctx), *args, *rent) {
            Err(e) => r == Err::<Vec<Step>, SignitoError>(e) && *final(ctx) == *old(ctx),
            Ok((c, s)) => r matches Ok(steps) && steps@ == s && *final(ctx) == c,
        },
{
    if args.amount == 0 {
        return Err(SignitoError::InvalidAmount);
    }
    if !(args.chain_depth > 0 && args.chain_depth <= MAX_CHAIN_DEPTH) {
        return Err(SignitoError::InvalidAmount);
    }
    let seeds = VaultSeeds { owner: ctx.owner, bump: ctx.vault_bump };
    let mut steps: Vec<Step> = Vec::new();
    steps.push(Step {
        action: Action::CreateAccount {
            payer: ctx.owner,
            new_account: ctx.mint_stoken,
            lamports: rent.mint_account,
            space: MINT_LEN,
            program: TokenProgram::Token2022,
        },
        signer: None,
    });
    steps.push(Step {
        action: Action::InitializeMint2 {
            program: TokenProgram::Token2022,
            mint: ctx.mint_stoken,
            mint_authority: ctx.vault_pda,
            freeze_authority: Some(ctx.vault_pda),
            decimals: TOKEN_DECIMALS,
        },
        signer: None,
    });
    steps.push(Step {
        action: Action::CreateAccount {
            payer: ctx.owner,
            new_account: ctx.owner_stoken_ata,
            lamports: rent.token_account,
            space: TOKEN_ACCOUNT_LEN,
            program: TokenProgram::Token2022,
        },
        signer: None,
    });
    steps.push(Step {
        action: Action::InitializeAccount3 {
            program: TokenProgram::Token2022,
            account: ctx.owner_stoken_ata,
            mint: ctx.mint_stoken,
            owner: ctx.owner,
        },
        signer: None,
    });
    steps.push(Step {
        action: Action::MintTo {
            program: TokenProgram::Token2022,
            mint: ctx.mint_stoken,
            account: ctx.owner_stoken_ata,
            authority: ctx.vault_pda,
            amount: args.amount,
        },
        signer: Some(seeds),
    });
    steps.push(Step {
        action: Action::Approve {
            program: TokenProgram::Token2022,
            source: ctx.owner_stoken_ata,
            delegate: ctx.vault_pda,
            owner: ctx.owner,
            amount: u64::MAX,
        },
        signer: None,
    });
    steps.push(Step {
        action: Action::FreezeAccount {
            program: TokenProgram::Token2022,
            account: ctx.owner_stoken_ata,
            mint: ctx.mint_stoken,
            authority: ctx.vault_pda,
        },
        signer: Some(seeds),
    });
    steps.push(Step {
        action: Action::SystemTransfer { from: ctx.owner, to: ctx.vault_pda, lamports: args.amount },
        signer: None,
    });
    assert(steps@ =~= initialize_steps(*old(ctx), *args, *rent));
    ctx.vault_state = VaultState {
        owner: ctx.owner,
        current_ots_hash: args.ots_tip,
        chain_depth: args.chain_depth,
        mint_stoken: ctx.mint_stoken,
        total_deposited: args.amount,
        bump: ctx.vault_bump,
    };
    Ok(steps)
}

} // verus!
