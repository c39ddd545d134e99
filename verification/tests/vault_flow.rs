use anchor_lang::solana_program::hash::hashv;
use signito_vault::cpi::{move_lamports, Action, RentMinimums, Step, TokenProgram, VaultSeeds};
use signito_vault::errors::SignitoError;
use signito_vault::instructions::close_vault::CloseVault;
use signito_vault::instructions::convert_to_airtoken::{ConvertToAirtoken, ConvertToAirtokenArgs};
use signito_vault::instructions::deposit::{Deposit, DepositArgs};
use signito_vault::instructions::initialize_vault::{InitializeVault, InitializeVaultArgs};
use signito_vault::instructions::refresh_ots::{RefreshOts, RefreshOtsArgs};
use signito_vault::instructions::unshield::{Unshield, UnshieldArgs};
use signito_vault::instructions::zk_unshield::{ZkUnshield, ZkUnshieldArgs};
use signito_vault::ots::apply_withdrawal;
use signito_vault::state::VaultState;
use signito_vault::{close_vault, convert_to_airtoken, deposit, initialize_vault, refresh_ots, unshield, zk_unshield};

const OWNER: [u8; 32] = [1; 32];
const VAULT: [u8; 32] = [2; 32];
const MINT: [u8; 32] = [3; 32];
const ATA: [u8; 32] = [4; 32];
const DEST: [u8; 32] = [5; 32];
const RELAYER: [u8; 32] = [6; 32];
const MINT_A: [u8; 32] = [7; 32];
const ESCROW: [u8; 32] = [8; 32];
const BUMP: u8 = 254;
const RENT: RentMinimums = RentMinimums { mint_account: 1_461_600, token_account: 2_039_280 };

fn sha(x: &[u8; 32]) -> [u8; 32] {
    hashv(&[x.as_ref()]).to_bytes()
}

/// H0 .. H(n): `chain[k + 1] = SHA-256(chain[k])`.
fn chain(seed: u8, n: usize) -> Vec<[u8; 32]> {
    let mut c = vec![[seed; 32]];
    for _ in 0..n {
        let next = sha(c.last().unwrap());
        c.push(next);
    }
    c
}

fn token_data(frozen: bool, delegate: Option<[u8; 32]>) -> Vec<u8> {
    let mut d = vec![0u8; 165];
    if let Some(k) = delegate {
        d[72] = 1;
        d[76..108].copy_from_slice(&k);
    }
    d[108] = if frozen { 2 } else { 1 };
    d
}

fn vault(tip: [u8; 32], depth: u8, total: u64) -> VaultState {
    VaultState { owner: OWNER, current_ots_hash: tip, chain_depth: depth, mint_stoken: MINT, total_deposited: total, bump: BUMP }
}

fn seeds() -> Option<VaultSeeds> {
    Some(VaultSeeds { owner: OWNER, bump: BUMP })
}

fn unshield_ctx(state: VaultState, frozen: bool) -> Unshield {
    Unshield {
        owner: OWNER,
        vault_pda: VAULT,
        vault_state: state,
        mint_stoken: MINT,
        owner_stoken_ata: ATA,
        owner_stoken_ata_data: token_data(frozen, Some(VAULT)),
        destination: DEST,
    }
}

fn zero_state() -> VaultState {
    VaultState { owner: [0; 32], current_ots_hash: [0; 32], chain_depth: 0, mint_stoken: [0; 32], total_deposited: 0, bump: 0 }
}

#[test]
fn unshield_checks_sha256_of_preimage() {
    let x = [42u8; 32];
    // The tip must be SHA-256 of the revealed preimage ...
    let mut ok = unshield_ctx(vault(sha(&x), 1, 10), false);
    assert!(unshield(&mut ok, &UnshieldArgs { ots_preimage: x, amount: 1 }).is_ok());
    // ... not the preimage itself.
    let mut same = unshield_ctx(vault(x, 1, 10), false);
    assert_eq!(unshield(&mut same, &UnshieldArgs { ots_preimage: x, amount: 1 }), Err(SignitoError::InvalidOtsPreimage));
    // SHA-256 of 32 zero bytes begins 66 68 7a ad.
    let z = sha(&[0u8; 32]);
    assert_eq!(z[0..4], [0x66, 0x68, 0x7a, 0xad]);
    let mut zero = unshield_ctx(vault(z, 1, 10), false);
    assert!(unshield(&mut zero, &UnshieldArgs { ots_preimage: [0u8; 32], amount: 10 }).is_ok());
}

#[test]
fn initialize_records_vault_and_plans_receipt_setup() {
    let mut ctx = InitializeVault {
        owner: OWNER,
        vault_pda: VAULT,
        vault_bump: BUMP,
        vault_state: zero_state(),
        mint_stoken: MINT,
        owner_stoken_ata: ATA,
    };
    let tip = [9u8; 32];
    let steps = initialize_vault(&mut ctx, &InitializeVaultArgs { ots_tip: tip, chain_depth: 32, amount: 1_000 }, &RENT).unwrap();
    assert_eq!(ctx.vault_state, vault(tip, 32, 1_000));
    assert_eq!(steps.len(), 8);
    assert_eq!(steps[0].action, Action::CreateAccount { payer: OWNER, new_account: MINT, lamports: RENT.mint_account, space: 82, program: TokenProgram::Token2022 });
    assert_eq!(steps[1].action, Action::InitializeMint2 { program: TokenProgram::Token2022, mint: MINT, mint_authority: VAULT, freeze_authority: Some(VAULT), decimals: 9 });
    assert_eq!(steps[4], Step { action: Action::MintTo { program: TokenProgram::Token2022, mint: MINT, account: ATA, authority: VAULT, amount: 1_000 }, signer: seeds() });
    assert_eq!(steps[5].action, Action::Approve { program: TokenProgram::Token2022, source: ATA, delegate: VAULT, owner: OWNER, amount: u64::MAX });
    assert_eq!(steps[6], Step { action: Action::FreezeAccount { program: TokenProgram::Token2022, account: ATA, mint: MINT, authority: VAULT }, signer: seeds() });
    assert_eq!(steps[7], Step { action: Action::SystemTransfer { from: OWNER, to: VAULT, lamports: 1_000 }, signer: None });
}

#[test]
fn initialize_rejects_bad_arguments() {
    let base = InitializeVault { owner: OWNER, vault_pda: VAULT, vault_bump: BUMP, vault_state: zero_state(), mint_stoken: MINT, owner_stoken_ata: ATA };
    for (depth, amount) in [(32u8, 0u64), (0, 10), (65, 10), (255, 10)] {
        let mut ctx = base.clone();
        let r = initialize_vault(&mut ctx, &InitializeVaultArgs { ots_tip: [1; 32], chain_depth: depth, amount }, &RENT);
        assert_eq!(r, Err(SignitoError::InvalidAmount));
        assert_eq!(ctx, base);
    }
    let mut ctx = base.clone();
    assert!(initialize_vault(&mut ctx, &InitializeVaultArgs { ots_tip: [1; 32], chain_depth: 64, amount: 1 }, &RENT).is_ok());
    assert_eq!(ctx.vault_state.chain_depth, 64);
}

#[test]
fn hash_chain_withdrawals_walk_down_to_exhaustion() {
    let c = chain(11, 3);
    let mut ctx = unshield_ctx(vault(c[3], 3, 900), true);

    let steps = unshield(&mut ctx, &UnshieldArgs { ots_preimage: c[2], amount: 100 }).unwrap();
    assert_eq!(ctx.vault_state, vault(c[2], 2, 800));
    assert_eq!(steps, vec![
        Step { action: Action::ThawAccount { program: TokenProgram::Token2022, account: ATA, mint: MINT, authority: VAULT }, signer: seeds() },
        Step { action: Action::Burn { program: TokenProgram::Token2022, account: ATA, mint: MINT, authority: OWNER, amount: 100 }, signer: None },
        Step { action: Action::FreezeAccount { program: TokenProgram::Token2022, account: ATA, mint: MINT, authority: VAULT }, signer: seeds() },
        Step { action: Action::MoveLamports { from: VAULT, to: DEST, amount: 100 }, signer: None },
    ]);

    // A revealed level cannot be used again.
    let before = ctx.clone();
    assert_eq!(unshield(&mut ctx, &UnshieldArgs { ots_preimage: c[2], amount: 1 }), Err(SignitoError::InvalidOtsPreimage));
    assert_eq!(ctx, before);
    // Skipping a level is refused too.
    assert_eq!(unshield(&mut ctx, &UnshieldArgs { ots_preimage: c[0], amount: 1 }), Err(SignitoError::InvalidOtsPreimage));

    unshield(&mut ctx, &UnshieldArgs { ots_preimage: c[1], amount: 300 }).unwrap();
    unshield(&mut ctx, &UnshieldArgs { ots_preimage: c[0], amount: 400 }).unwrap();
    assert_eq!(ctx.vault_state, vault(c[0], 0, 100));

    // A chain at depth 0 is exhausted even for a correct preimage.
    let p = [77u8; 32];
    let mut exhausted = unshield_ctx(vault(sha(&p), 0, 100), false);
    assert_eq!(unshield(&mut exhausted, &UnshieldArgs { ots_preimage: p, amount: 1 }), Err(SignitoError::VaultExhausted));
}

#[test]
fn unshield_error_order() {
    let c = chain(3, 1);
    let mut ctx = unshield_ctx(vault(c[1], 1, 50), false);
    assert_eq!(unshield(&mut ctx, &UnshieldArgs { ots_preimage: [0; 32], amount: 0 }), Err(SignitoError::InvalidAmount));
    assert_eq!(unshield(&mut ctx, &UnshieldArgs { ots_preimage: [0; 32], amount: 10 }), Err(SignitoError::InvalidOtsPreimage));
    assert_eq!(unshield(&mut ctx, &UnshieldArgs { ots_preimage: c[0], amount: 51 }), Err(SignitoError::InsufficientFunds));
    let steps = unshield(&mut ctx, &UnshieldArgs { ots_preimage: c[0], amount: 50 }).unwrap();
    // Not frozen: no thaw.
    assert_eq!(steps.len(), 3);
    assert_eq!(ctx.vault_state.total_deposited, 0);
}

#[test]
fn apply_withdrawal_uses_the_given_digest() {
    let v = vault([7; 32], 2, 100);
    let n = apply_withdrawal(&v, &[7; 32], &[9; 32], 40).unwrap();
    assert_eq!(n, vault([9; 32], 1, 60));
    assert_eq!(apply_withdrawal(&n, &[7; 32], &[8; 32], 10), Err(SignitoError::InvalidOtsPreimage));
    assert_eq!(apply_withdrawal(&vault([7; 32], 0, 100), &[7; 32], &[8; 32], 10), Err(SignitoError::VaultExhausted));
}

#[test]
fn deposit_adds_and_mints_receipts() {
    let mut ctx = Deposit { owner: OWNER, vault_pda: VAULT, vault_state: vault([1; 32], 5, 100), mint_stoken: MINT, owner_stoken_ata: ATA, owner_stoken_ata_data: token_data(true, None) };
    let steps = deposit(&mut ctx, &DepositArgs { amount: 25 }).unwrap();
    assert_eq!(ctx.vault_state.total_deposited, 125);
    assert_eq!(steps.len(), 5);
    assert_eq!(steps[0], Step { action: Action::SystemTransfer { from: OWNER, to: VAULT, lamports: 25 }, signer: None });
    assert!(matches!(steps[1].action, Action::ThawAccount { .. }));
    assert_eq!(steps[2].action, Action::MintTo { program: TokenProgram::Token2022, mint: MINT, account: ATA, authority: VAULT, amount: 25 });
    assert_eq!(steps[3], Step { action: Action::Approve { program: TokenProgram::Token2022, source: ATA, delegate: VAULT, owner: OWNER, amount: u64::MAX }, signer: None });
    assert!(matches!(steps[4].action, Action::FreezeAccount { .. }));

    assert_eq!(deposit(&mut ctx, &DepositArgs { amount: 0 }), Err(SignitoError::InvalidAmount));
    ctx.vault_state.total_deposited = u64::MAX - 1;
    assert_eq!(deposit(&mut ctx, &DepositArgs { amount: 2 }), Err(SignitoError::Overflow));
    assert_eq!(ctx.vault_state.total_deposited, u64::MAX - 1);
}

#[test]
fn zk_unshield_requires_vault_delegate() {
    let c = chain(5, 1);
    let base = ZkUnshield {
        relayer: RELAYER,
        owner: OWNER,
        vault_pda: VAULT,
        vault_state: vault(c[1], 1, 500),
        mint_stoken: MINT,
        owner_stoken_ata: ATA,
        owner_stoken_ata_data: token_data(true, Some(VAULT)),
        destination: DEST,
    };
    let args = ZkUnshieldArgs { ots_preimage: c[0], amount: 200 };

    let mut ok = base.clone();
    let steps = zk_unshield(&mut ok, &args).unwrap();
    assert_eq!(ok.vault_state, vault(c[0], 0, 300));
    assert_eq!(steps[1], Step { action: Action::Burn { program: TokenProgram::Token2022, account: ATA, mint: MINT, authority: VAULT, amount: 200 }, signer: seeds() });
    assert_eq!(steps.len(), 4);

    let mut no_delegate = ZkUnshield { owner_stoken_ata_data: token_data(true, None), ..base.clone() };
    assert_eq!(zk_unshield(&mut no_delegate, &args), Err(SignitoError::Unauthorized));
    let mut other = ZkUnshield { owner_stoken_ata_data: token_data(true, Some(RELAYER)), ..base.clone() };
    assert_eq!(zk_unshield(&mut other, &args), Err(SignitoError::Unauthorized));
    let mut short = ZkUnshield { owner_stoken_ata_data: vec![0u8; 107], ..base.clone() };
    assert_eq!(zk_unshield(&mut short, &args), Err(SignitoError::Unauthorized));
    // Exactly 108 bytes: delegate readable, no state byte, so no thaw.
    let mut d = token_data(false, Some(VAULT));
    d.truncate(108);
    let mut exact = ZkUnshield { owner_stoken_ata_data: d, ..base.clone() };
    assert_eq!(zk_unshield(&mut exact, &args).unwrap().len(), 3);
    // OTS checks come before the delegate check.
    let mut wrong = ZkUnshield { owner_stoken_ata_data: token_data(true, None), ..base.clone() };
    assert_eq!(zk_unshield(&mut wrong, &ZkUnshieldArgs { ots_preimage: c[1], amount: 1 }), Err(SignitoError::InvalidOtsPreimage));
}

#[test]
fn convert_burns_receipts_and_escrows_voucher_tokens() {
    let c = chain(8, 2);
    let mut ctx = ConvertToAirtoken {
        owner: OWNER,
        vault_pda: VAULT,
        vault_state: vault(c[2], 2, 1_000),
        mint_stoken: MINT,
        owner_stoken_ata: ATA,
        owner_stoken_ata_data: token_data(true, Some(VAULT)),
        mint_atoken: MINT_A,
        escrow_atoken_ata: ESCROW,
    };
    let steps = convert_to_airtoken(&mut ctx, &ConvertToAirtokenArgs { ots_preimage: c[1], amount: 600 }, &RENT).unwrap();
    assert_eq!(ctx.vault_state, vault(c[1], 1, 400));
    assert_eq!(steps.len(), 9);
    assert_eq!(steps[1].action, Action::Burn { program: TokenProgram::Token2022, account: ATA, mint: MINT, authority: OWNER, amount: 600 });
    // The receipt account is frozen again right after the burn.
    assert_eq!(steps[2], Step { action: Action::FreezeAccount { program: TokenProgram::Token2022, account: ATA, mint: MINT, authority: VAULT }, signer: seeds() });
    assert_eq!(steps[3].action, Action::MoveLamports { from: VAULT, to: OWNER, amount: 600 });
    assert_eq!(steps[5], Step { action: Action::InitializeMint { program: TokenProgram::SplToken, mint: MINT_A, mint_authority: VAULT, freeze_authority: None, decimals: 9 }, signer: seeds() });
    assert_eq!(steps[8], Step { action: Action::MintTo { program: TokenProgram::SplToken, mint: MINT_A, account: ESCROW, authority: VAULT, amount: 600 }, signer: seeds() });
    let last_freeze_or_thaw = steps.iter().rev().find(|s| matches!(s.action, Action::FreezeAccount { .. } | Action::ThawAccount { .. })).unwrap();
    assert!(matches!(last_freeze_or_thaw.action, Action::FreezeAccount { .. }));
    assert_eq!(convert_to_airtoken(&mut ctx, &ConvertToAirtokenArgs { ots_preimage: c[0], amount: 401 }, &RENT), Err(SignitoError::InsufficientFunds));
}

#[test]
fn close_requires_empty_vault() {
    let mut c = CloseVault { owner: OWNER, vault_pda: VAULT, vault_state: vault([0; 32], 0, 1) };
    assert_eq!(close_vault(&c), Err(SignitoError::VaultNotEmpty));
    c.vault_state.total_deposited = 0;
    assert_eq!(close_vault(&c), Ok(()));
}

#[test]
fn refresh_replaces_chain_only() {
    let mut ctx = RefreshOts { owner: OWNER, vault_pda: VAULT, vault_state: vault([1; 32], 0, 777) };
    let new_chain = chain(21, 4);
    assert_eq!(refresh_ots(&mut ctx, &RefreshOtsArgs { new_ots_tip: new_chain[4], new_chain_depth: 4 }), Ok(()));
    assert_eq!(ctx.vault_state, vault(new_chain[4], 4, 777));
    let mut u = unshield_ctx(ctx.vault_state, false);
    assert!(unshield(&mut u, &UnshieldArgs { ots_preimage: new_chain[3], amount: 7 }).is_ok());
}

#[test]
fn moving_lamports_conserves_and_checks_ranges() {
    assert_eq!(move_lamports(1_000, 5, 300), Ok((700, 305)));
    assert_eq!(move_lamports(10, 5, 11), Err(SignitoError::Overflow));
    assert_eq!(move_lamports(10, u64::MAX, 1), Err(SignitoError::Overflow));
}

#[test]
fn deposit_then_withdraw_restores_balance() {
    let c = chain(30, 1);
    let mut d = Deposit { owner: OWNER, vault_pda: VAULT, vault_state: vault(c[1], 1, 40), mint_stoken: MINT, owner_stoken_ata: ATA, owner_stoken_ata_data: token_data(true, None) };
    let dep = deposit(&mut d, &DepositArgs { amount: 60 }).unwrap();
    let minted: u64 = dep.iter().map(|s| if let Action::MintTo { amount, .. } = s.action { amount } else { 0 }).sum();
    assert_eq!(minted, 60);
    let mut u = unshield_ctx(d.vault_state, true);
    let out = unshield(&mut u, &UnshieldArgs { ots_preimage: c[0], amount: 60 }).unwrap();
    let burned: u64 = out.iter().map(|s| if let Action::Burn { amount, .. } = s.action { amount } else { 0 }).sum();
    assert_eq!(burned, 60);
    assert_eq!(u.vault_state.total_deposited, 40);
    assert!(matches!(out.last().unwrap().action, Action::MoveLamports { .. }));
    assert!(matches!(out[out.len() - 2].action, Action::FreezeAccount { .. }));
}
