use vstd::prelude::*;

verus! {

/// The token program that a call goes to.
#[derive(Clone, Copy, Debug, PartialEq, Eq)]
pub enum TokenProgram {
    /// The classic SPL Token program (transferable voucher tokens).
    SplToken,
    /// The Token-2022 program (receipt tokens).
    Token2022,
}

/// Seeds `["vault", owner, [bump]]` with which the vault address signs a call.
#[derive(Clone, Copy, Debug, PartialEq, Eq)]
pub struct VaultSeeds {
    pub owner: [u8; 32],
    pub bump: u8,
}

/// One effect that an instruction performs outside its own account data:
/// a cross-program call, or a direct move of lamports between two accounts.
#[derive(Clone, Copy, Debug, PartialEq, Eq)]
pub enum Action {
    /// System program `create_account`, the new account owned by `program`.
    CreateAccount { payer: [u8; 32], new_account: [u8; 32], lamports: u64, space: u64, program: TokenProgram },
    /// Token `initialize_mint` (reads the rent sysvar).
    InitializeMint { program: TokenProgram, mint: [u8; 32], mint_authority: [u8; 32], freeze_authority: Option<[u8; 32]>, decimals: u8 },
    /// Token `initialize_mint2`.
    InitializeMint2 { program: TokenProgram, mint: [u8; 32], mint_authority: [u8; 32], freeze_authority: Option<[u8; 32]>, decimals: u8 },
    /// Token `initialize_account3`.
    InitializeAccount3 { program: TokenProgram, account: [u8; 32], mint: [u8; 32], owner: [u8; 32] },
    /// Token `mint_to`.
    MintTo { program: TokenProgram, mint: [u8; 32], account: [u8; 32], authority: [u8; 32], amount: u64 },
    /// Token `approve`.
    Approve { program: TokenProgram, source: [u8; 32], delegate: [u8; 32], owner: [u8; 32], amount: u64 },
    /// Token `freeze_account`.
    FreezeAccount { program: TokenProgram, account: [u8; 32], mint: [u8; 32], authority: [u8; 32] },
    /// Token `thaw_account`.
    ThawAccount { program: TokenProgram, account: [u8; 32], mint: [u8; 32], authority: [u8; 32] },
    /// Token `burn`.
    Burn { program: TokenProgram, account: [u8; 32], mint: [u8; 32], authority: [u8; 32], amount: u64 },
    /// Token `transfer`.
    Transfer { program: TokenProgram, source: [u8; 32], destination: [u8; 32], authority: [u8; 32], amount: u64 },
    /// System program `transfer` of lamports.
    SystemTransfer { from: [u8; 32], to: [u8; 32], lamports: u64 },
    /// Direct debit of `from` and credit of `to` by `amount` lamports
    /// (`from` is owned by this program); see [`move_lamports`].
    MoveLamports { from: [u8; 32], to: [u8; 32], amount: u64 },
}

/// An action, and the vault seeds it is signed with (`None`: plain invoke).
#[derive(Clone, Copy, Debug, PartialEq, Eq)]
pub struct Step {
    pub action: Action,
    pub signer: Option<VaultSeeds>,
}

/// A step signed by the vault address.
pub open spec fn signed(action: Action, seeds: VaultSeeds) -> Step {
    Step { action, signer: Some(seeds) }
}

/// A step that needs no vault signature.
pub open spec fn unsigned(action: Action) -> Step {
    Step { action, signer: None }
}

/// The balances of the two accounts of a `MoveLamports`, after it.
pub open spec fn moved_balances(from_balance: u64, to_balance: u64, amount: u64) -> Result<(u64, u64), crate::errors::SignitoError> {
    if from_balance < amount {
        Err(crate::errors::SignitoError::Overflow)
    } else if to_balance + amount > u64::MAX {
        Err(crate::errors::SignitoError::Overflow)
    } else {
        Ok(((from_balance - amount) as u64, (to_balance + amount) as u64))
    }
}

/// Debits `from_balance` and credits `to_balance` by `amount` lamports; either
/// side leaving the range of `u64` is an `Overflow`.
pub fn move_lamports(from_balance: u64, to_balance: u64, amount: u64) -> (r: Result<(u64, u64), crate::errors::SignitoError>)
    ensures
        r == moved_balances(from_balance, to_balance, amount),
        r matches Ok((f, t)) ==> f + t == from_balance + to_balance,
{
    let new_from = match from_balance.checked_sub(amount) {
        Some(v) => v,
        None => return Err(crate::errors::SignitoError::Overflow),
    };
    let new_to = match to_balance.checked_add(amount) {
        Some(v) => v,
        None => return Err(crate::errors::SignitoError::Overflow),
    };
    Ok((new_from, new_to))
}

} // verus!

verus! {

/// The seeds with which the vault of `owner` signs.
pub open spec fn vault_seeds(owner: [u8; 32], bump: u8) -> VaultSeeds {
    VaultSeeds { owner, bump }
}

/// Thaw of the receipt account `account`, signed by the vault, when its data
/// shows it frozen; nothing otherwise.
pub open spec fn thaw_if_frozen(data: Seq<u8>, account: [u8; 32], mint: [u8; 32], vault: [u8; 32], seeds: VaultSeeds) -> Seq<Step> {
    if crate::token_account::account_frozen(data) {
        seq![signed(Action::ThawAccount { program: TokenProgram::Token2022, account, mint, authority: vault }, seeds)]
    } else {
        seq![]
    }
}

/// Freeze of the receipt account `account`, signed by the vault.
pub open spec fn refreeze(account: [u8; 32], mint: [u8; 32], vault: [u8; 32], seeds: VaultSeeds) -> Step {
    signed(Action::FreezeAccount { program: TokenProgram::Token2022, account, mint, authority: vault }, seeds)
}

/// Appends the thaw of [`thaw_if_frozen`] to `steps`.
pub fn push_thaw_if_frozen(steps: &mut Vec<Step>, data: &[u8], account: [u8; 32], mint: [u8; 32], vault: [u8; 32], seeds: VaultSeeds)
    ensures
        final(steps)@ == old(steps)@ + thaw_if_frozen(data@, account, mint, vault, seeds),
{
    if crate::token_account::is_frozen(data) {
        steps.push(Step {
            action: Action::ThawAccount { program: TokenProgram::Token2022, account, mint, authority: vault },
            signer: Some(seeds),
        });
    } else {
        assert(old(steps)@ + thaw_if_frozen(data@, account, mint, vault, seeds) =~= old(steps)@);
    }
}

} // verus!

verus! {

/// Rent-exempt minimum balances, in lamports, of the accounts an instruction
/// creates (read from the rent sysvar by the caller).
#[derive(Clone, Copy, Debug, PartialEq, Eq)]
pub struct RentMinimums {
    /// Minimum balance of a mint account (`MINT_LEN` bytes).
    pub mint_account: u64,
    /// Minimum balance of a token account (`TOKEN_ACCOUNT_LEN` bytes).
    pub token_account: u64,
}

} // verus!
