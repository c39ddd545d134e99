use signito_vault::bytes::{read_i64_le, read_u16_le, read_u32_le, read_u64_le, region_equals};
use signito_vault::claim_voucher;
use signito_vault::constants::ED25519_PROGRAM_ID;
use signito_vault::cpi::{Action, RentMinimums, Step, TokenProgram, VaultSeeds};
use signito_vault::errors::SignitoError;
use signito_vault::instructions::claim_voucher::{verify_ed25519_ix, ClaimVoucher, ClaimVoucherArgs, LoadedInstruction, VoucherClaimed};
use signito_vault::state::NonceRecord;
use signito_vault::token_account::{check_delegate, is_frozen};

const CLAIMER: [u8; 32] = [10; 32];
const ISSUER: [u8; 32] = [11; 32];
const ISSUER_VAULT: [u8; 32] = [12; 32];
const MINT_A: [u8; 32] = [13; 32];
const ESCROW: [u8; 32] = [14; 32];
const CLAIMER_ATA: [u8; 32] = [15; 32];
const RENT: RentMinimums = RentMinimums { mint_account: 1, token_account: 2_039_280 };

fn voucher(amount: u64, recipient: [u8; 32], nonce: [u8; 16], expires_at: i64) -> [u8; 64] {
    let mut m = [0u8; 64];
    m[0..8].copy_from_slice(&amount.to_le_bytes());
    m[8..40].copy_from_slice(&recipient);
    m[40..56].copy_from_slice(&nonce);
    m[56..64].copy_from_slice(&expires_at.to_le_bytes());
    m
}

/// Ed25519 verification instruction data for one signature, laid out as the
/// native program expects: header, signature, public key, message.
fn ed25519_data(pubkey: &[u8], msg: &[u8], sig: &[u8]) -> Vec<u8> {
    let sig_offset: u16 = 16;
    let pubkey_offset: u16 = sig_offset + 64;
    let msg_offset: u16 = pubkey_offset + 32;
    let mut d = vec![1u8, 0];
    for v in [sig_offset, u16::MAX, pubkey_offset, u16::MAX, msg_offset, msg.len() as u16, u16::MAX] {
        d.extend_from_slice(&v.to_le_bytes());
    }
    d.extend_from_slice(sig);
    d.extend_from_slice(pubkey);
    d.extend_from_slice(msg);
    d
}

fn ctx(empty_ata: bool) -> ClaimVoucher {
    ClaimVoucher {
        claimer: CLAIMER,
        issuer: ISSUER,
        issuer_vault_pda: ISSUER_VAULT,
        issuer_vault_bump: 250,
        mint_atoken: MINT_A,
        escrow_atoken_ata: ESCROW,
        claimer_atoken_ata: CLAIMER_ATA,
        claimer_atoken_ata_is_empty: empty_ata,
        nonce_pda: NonceRecord { claimed_at: 0 },
    }
}

fn signed_ix(msg: &[u8; 64], sig: &[u8; 64]) -> Option<LoadedInstruction> {
    Some(LoadedInstruction { program_id: ED25519_PROGRAM_ID, data: ed25519_data(&ISSUER, msg, sig) })
}

#[test]
fn ed25519_program_id_matches_runtime() {
    assert_eq!(ED25519_PROGRAM_ID, anchor_lang::solana_program::ed25519_program::ID.to_bytes());
}

#[test]
fn claim_pays_claimer_and_stamps_nonce() {
    let msg = voucher(5_000, CLAIMER, [3; 16], 2_000_000_000);
    let sig = [0x5a; 64];
    let args = ClaimVoucherArgs { voucher_msg: msg, sig };
    let mut c = ctx(true);
    let (steps, event) = claim_voucher(&mut c, &args, 1_700_000_000, &signed_ix(&msg, &sig), &RENT).unwrap();
    assert_eq!(c.nonce_pda, NonceRecord { claimed_at: 1_700_000_000 });
    assert_eq!(event, VoucherClaimed { claimer: CLAIMER, issuer: ISSUER, mint_atoken: MINT_A, amount: 5_000, claimed_at: 1_700_000_000 });
    assert_eq!(steps, vec![
        Step { action: Action::CreateAccount { payer: CLAIMER, new_account: CLAIMER_ATA, lamports: RENT.token_account, space: 165, program: TokenProgram::SplToken }, signer: None },
        Step { action: Action::InitializeAccount3 { program: TokenProgram::SplToken, account: CLAIMER_ATA, mint: MINT_A, owner: CLAIMER }, signer: None },
        Step {
            action: Action::Transfer { program: TokenProgram::SplToken, source: ESCROW, destination: CLAIMER_ATA, authority: ISSUER_VAULT, amount: 5_000 },
            signer: Some(VaultSeeds { owner: ISSUER, bump: 250 }),
        },
    ]);
    let mut existing = ctx(false);
    let (steps, _) = claim_voucher(&mut existing, &args, 1_700_000_000, &signed_ix(&msg, &sig), &RENT).unwrap();
    assert_eq!(steps.len(), 1);
}

#[test]
fn claim_refusals_in_order() {
    let sig = [0x5a; 64];
    let now = 1_000;
    let run = |msg: [u8; 64], ix: Option<LoadedInstruction>| {
        let mut c = ctx(false);
        let r = claim_voucher(&mut c, &ClaimVoucherArgs { voucher_msg: msg, sig }, now, &ix, &RENT);
        if r.is_err() {
            assert_eq!(c, ctx(false));
        }
        r.map(|_| ())
    };
    let zero = voucher(0, [0; 32], [0; 16], 0);
    assert_eq!(run(zero, None), Err(SignitoError::InvalidAmount));
    let other = voucher(1, ISSUER, [0; 16], 0);
    assert_eq!(run(other, None), Err(SignitoError::RecipientMismatch));
    let expired = voucher(1, CLAIMER, [0; 16], now);
    assert_eq!(run(expired, signed_ix(&expired, &sig)), Err(SignitoError::VoucherExpired));
    let negative = voucher(1, CLAIMER, [0; 16], -5);
    assert_eq!(run(negative, signed_ix(&negative, &sig)), Err(SignitoError::VoucherExpired));
    let good = voucher(1, CLAIMER, [0; 16], now + 1);
    assert_eq!(run(good, None), Err(SignitoError::InvalidVoucherSig));
    let wrong_program = Some(LoadedInstruction { program_id: [0; 32], data: ed25519_data(&ISSUER, &good, &sig) });
    assert_eq!(run(good, wrong_program), Err(SignitoError::InvalidVoucherSig));
    let wrong_sig = signed_ix(&good, &[0x5b; 64]);
    assert_eq!(run(good, wrong_sig), Err(SignitoError::InvalidVoucherSig));
    let wrong_signer = Some(LoadedInstruction { program_id: ED25519_PROGRAM_ID, data: ed25519_data(&CLAIMER, &good, &sig) });
    assert_eq!(run(good, wrong_signer), Err(SignitoError::InvalidVoucherSig));
    let other_msg = voucher(2, CLAIMER, [0; 16], now + 1);
    assert_eq!(run(good, signed_ix(&other_msg, &sig)), Err(SignitoError::InvalidVoucherSig));
    assert_eq!(run(good, signed_ix(&good, &sig)), Ok(()));
}

#[test]
fn ed25519_layout_checks() {
    let msg = [7u8; 64];
    let sig = [8u8; 64];
    let pk = [9u8; 32];
    let ok = LoadedInstruction { program_id: ED25519_PROGRAM_ID, data: ed25519_data(&pk, &msg, &sig) };
    assert_eq!(verify_ed25519_ix(&ok, &pk, &msg, &sig), Ok(()));
    // Two signatures declared.
    let mut two = ok.clone();
    two.data[0] = 2;
    assert_eq!(verify_ed25519_ix(&two, &pk, &msg, &sig), Err(SignitoError::InvalidVoucherSig));
    // Too short for the header.
    let short = LoadedInstruction { program_id: ED25519_PROGRAM_ID, data: vec![1u8; 15] };
    assert_eq!(verify_ed25519_ix(&short, &pk, &msg, &sig), Err(SignitoError::InvalidVoucherSig));
    // Message offset pointing past the end.
    let mut past = ok.clone();
    past.data[10..12].copy_from_slice(&200u16.to_le_bytes());
    assert_eq!(verify_ed25519_ix(&past, &pk, &msg, &sig), Err(SignitoError::InvalidVoucherSig));
    // Declared size differs from the expected message.
    assert_eq!(verify_ed25519_ix(&ok, &pk, &msg[..63], &sig), Err(SignitoError::InvalidVoucherSig));
    // Padding byte must be 0.
    let mut padded = ok.clone();
    padded.data[1] = 1;
    assert_eq!(verify_ed25519_ix(&padded, &pk, &msg, &sig), Err(SignitoError::InvalidVoucherSig));
    // Each region must come from the verification instruction itself: index
    // u16::MAX ("this instruction") or its position 0; any other index refers
    // to another instruction's bytes.
    for at in [4usize, 8, 14] {
        for index in [1u16, 2, 0xfffe] {
            let mut elsewhere = ok.clone();
            elsewhere.data[at..at + 2].copy_from_slice(&index.to_le_bytes());
            assert_eq!(verify_ed25519_ix(&elsewhere, &pk, &msg, &sig), Err(SignitoError::InvalidVoucherSig));
        }
        let mut first = ok.clone();
        first.data[at..at + 2].copy_from_slice(&0u16.to_le_bytes());
        assert_eq!(verify_ed25519_ix(&first, &pk, &msg, &sig), Ok(()));
    }
    let mut all_zero = ok.clone();
    for at in [4usize, 8, 14] {
        all_zero.data[at..at + 2].copy_from_slice(&0u16.to_le_bytes());
    }
    assert_eq!(verify_ed25519_ix(&all_zero, &pk, &msg, &sig), Ok(()));
    // Expected signature of the wrong length.
    assert_eq!(verify_ed25519_ix(&ok, &pk, &msg, &sig[..63]), Err(SignitoError::InvalidVoucherSig));
}

#[test]
fn little_endian_readers() {
    let d = [0x01, 0x02, 0x03, 0x04, 0x05, 0x06, 0x07, 0x88];
    assert_eq!(read_u16_le(&d, 0), 0x0201);
    assert_eq!(read_u32_le(&d, 0), 0x0403_0201);
    assert_eq!(read_u64_le(&d, 0), 0x8807_0605_0403_0201);
    assert_eq!(read_i64_le(&d, 0), i64::from_le_bytes(d));
    assert_eq!(read_i64_le(&(-1i64).to_le_bytes(), 0), -1);
    assert_eq!(read_i64_le(&i64::MIN.to_le_bytes(), 0), i64::MIN);
    assert!(region_equals(&d, 2, 3, &[3, 4, 5]));
    assert!(!region_equals(&d, 2, 3, &[3, 4]));
    assert!(!region_equals(&d, 2, 3, &[3, 4, 6]));
}

#[test]
fn token_account_state_and_delegate() {
    let mut d = vec![0u8; 108];
    assert!(!is_frozen(&d));
    d.push(2);
    assert!(is_frozen(&d));
    d[108] = 1;
    assert!(!is_frozen(&d));
    let vault = [4u8; 32];
    assert_eq!(check_delegate(&d, &vault), Err(SignitoError::Unauthorized));
    d[72] = 1;
    d[76..108].copy_from_slice(&vault);
    assert_eq!(check_delegate(&d, &vault), Ok(()));
    d[73] = 1;
    assert_eq!(check_delegate(&d, &vault), Err(SignitoError::Unauthorized));
}
