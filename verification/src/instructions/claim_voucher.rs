use vstd::prelude::*;

use crate::bytes::{keys_equal, le_i64, le_u16, le_u64, read_i64_le, read_u16_le, read_u64_le, region_equals};
use crate::constants::{ED25519_PROGRAM_ID, PUBKEY_LEN, SIGNATURE_LEN, THIS_INSTRUCTION, TOKEN_ACCOUNT_LEN, VERIFY_INSTRUCTION_INDEX, VOUCHER_MSG_LEN};
use crate::cpi::{signed, unsigned, vault_seeds, Action, RentMinimums, Step, TokenProgram, VaultSeeds};
use crate::errors::SignitoError;
use crate::state::NonceRecord;

verus! {

/// Arguments of a voucher claim.
///
/// Binary voucher message (64 bytes, signed by the issuer's wallet):
/// `[0..8]` amount (u64 LE, lamports), `[8..40]` recipient key,
/// `[40..56]` nonce (also the seed of the nonce record), `[56..64]` expiry
/// (i64 LE, Unix seconds).
#[derive(Clone, Copy, Debug, PartialEq, Eq)]
pub struct ClaimVoucherArgs {
    /// The voucher message that the issuer signed.
    pub voucher_msg: [u8; VOUCHER_MSG_LEN],
    /// Ed25519 signature over `voucher_msg` by the issuer.
    pub sig: [u8; 64],
}

/// The accounts a voucher claim reads and writes.
#[derive(Clone, Copy, Debug, PartialEq, Eq)]
pub struct ClaimVoucher {
    /// The recipient claiming the voucher, signer and payer.
    pub claimer: [u8; 32],
    /// The wallet that issued the voucher.
    pub issuer: [u8; 32],
    /// The issuer's vault address, authority of the escrow account.
    pub issuer_vault_pda: [u8; 32],
    /// Bump of the issuer's vault address.
    pub issuer_vault_bump: u8,
    /// The voucher-token mint.
    pub mint_atoken: [u8; 32],
    /// The escrow account holding the voucher tokens.
    pub escrow_atoken_ata: [u8; 32],
    /// The claimer's voucher-token account.
    pub claimer_atoken_ata: [u8; 32],
    /// Whether the claimer's voucher-token account holds no data yet.
    pub claimer_atoken_ata_is_empty: bool,
    /// The nonce record, fresh for this voucher's nonce.
    pub nonce_pda: NonceRecord,
}

/// An instruction of the transaction, as read from the instructions sysvar.
#[derive(Clone, Debug, PartialEq, Eq)]
pub struct LoadedInstruction {
    /// The program the instruction is addressed to.
    pub program_id: [u8; 32],
    /// The instruction data.
    pub data: Vec<u8>,
}

/// Record of a claimed voucher.
#[derive(Clone, Copy, Debug, PartialEq, Eq)]
pub struct VoucherClaimed {
    pub claimer: [u8; 32],
    pub issuer: [u8; 32],
    pub mint_atoken: [u8; 32],
    pub amount: u64,
    pub claimed_at: i64,
}

/// Whether an instruction index in an Ed25519 verification header names the
/// verification instruction itself: `u16::MAX` ("this instruction"), or its
/// position in the transaction, index 0.
pub open spec fn names_verification_ix(index: int) -> bool {
    index == THIS_INSTRUCTION || index == VERIFY_INSTRUCTION_INDEX
}

/// Whether an instruction index names the verification instruction itself.
pub fn is_verification_ix_index(index: u16) -> (r: bool)
    ensures
        r == names_verification_ix(index as int),
{
    index == THIS_INSTRUCTION || index == VERIFY_INSTRUCTION_INDEX
}

/// Whether `ix` is an Ed25519 signature-verification instruction for `sig`
/// by `pubkey` over `msg`. Its data holds one signature (`data[0] == 1`) and a
/// zero padding byte; the header at offset 2 gives, as u16 LE, the signature
/// offset (bytes 2..4), the public-key offset (6..8), the message offset
/// (10..12) and the message size (12..14); each of the three instruction
/// indices (4..6, 8..10, 14..16) names this same instruction (see
/// [`names_verification_ix`]), so the native program read every region from
/// it; and each region lies inside the data and holds the expected bytes.
pub open spec fn ed25519_ix_matches(ix: LoadedInstruction, pubkey: Seq<u8>, msg: Seq<u8>, sig: Seq<u8>) -> bool {
    let d = ix.data@;
    let sig_offset = le_u16(d, 2);
    let pubkey_offset = le_u16(d, 6);
    let msg_offset = le_u16(d, 10);
    let msg_size = le_u16(d, 12);
    &&& ix.program_id@ == ED25519_PROGRAM_ID@
    &&& d.len() >= 16
    &&& d[0] == 1
    &&& d[1] == 0
    &&& names_verification_ix(le_u16(d, 4))
    &&& names_verification_ix(le_u16(d, 8))
    &&& names_verification_ix(le_u16(d, 14))
    &&& d.len() >= sig_offset + SIGNATURE_LEN
    &&& d.len() >= pubkey_offset + PUBKEY_LEN
    &&& d.len() >= msg_offset + msg_size
    &&& msg_size == msg.len()
    &&& d.subrange(sig_offset, sig_offset + SIGNATURE_LEN) == sig
    &&& d.subrange(pubkey_offset, pubkey_offset + PUBKEY_LEN) == pubkey
    &&& d.subrange(msg_offset, msg_offset + msg_size) == msg
}

/// Checks that `ix` verifies `expected_sig` by `expected_pubkey` over
/// `expected_msg` (see [`ed25519_ix_matches`]); fails with `InvalidVoucherSig`
/// otherwise.
pub fn verify_ed25519_ix(ix: &LoadedInstruction, expected_pubkey: &[u8], expected_msg: &[u8], expected_sig: &[u8]) -> (r: Result<(), SignitoError>)
    ensures
        r is Ok <==> ed25519_ix_matches(*ix, expected_pubkey@, expected_msg@, expected_sig@),
        r matches Err(e) ==> e == SignitoError::InvalidVoucherSig,
{
    if !keys_equal(&ix.program_id, &ED25519_PROGRAM_ID) {
        return Err(SignitoError::InvalidVoucherSig);
    }
    let data = ix.data.as_slice();
    if data.len() < 16 {
        return Err(SignitoError::InvalidVoucherSig);
    }
    if data[0] != 1 || data[1] != 0 {
        return Err(SignitoError::InvalidVoucherSig);
    }
    if !is_verification_ix_index(read_u16_le(data, 4)) || !is_verification_ix_index(read_u16_le(data, 8))
        || !is_verification_ix_index(read_u16_le(data, 14)) {
        return Err(SignitoError::InvalidVoucherSig);
    }
    let sig_offset = read_u16_le(data, 2) as usize;
    let pubkey_offset = read_u16_le(data, 6) as usize;
    let msg_offset = read_u16_le(data, 10) as usize;
    let msg_size = read_u16_le(data, 12) as usize;
    if data.len() < sig_offset + SIGNATURE_LEN {
        return Err(SignitoError::InvalidVoucherSig);
    }
    if data.len() < pubkey_offset + PUBKEY_LEN {
        return Err(SignitoError::InvalidVoucherSig);
    }
    if data.len() < msg_offset + msg_size {
        return Err(SignitoError::InvalidVoucherSig);
    }
    if msg_size != expected_msg.len() {
        return Err(SignitoError::InvalidVoucherSig);
    }
    if !region_equals(data, sig_offset, SIGNATURE_LEN, expected_sig) {
        return Err(SignitoError::InvalidVoucherSig);
    }
    if !region_equals(data, pubkey_offset, PUBKEY_LEN, expected_pubkey) {
        return Err(SignitoError::InvalidVoucherSig);
    }
    if !region_equals(data, msg_offset, msg_size, expected_msg) {
        return Err(SignitoError::InvalidVoucherSig);
    }
    Ok(())
}

/// The voucher amount, in lamports.
pub open spec fn voucher_amount(msg: Seq<u8>) -> int {
    le_u64(msg, 0)
}

/// The voucher expiry, in Unix seconds.
pub open spec fn voucher_expires_at(msg: Seq<u8>) -> int {
    le_i64(msg, 56)
}

/// Why a claim is refused, in the order of the checks: a zero amount, a
/// recipient other than the claimer, a voucher whose expiry is not after `now`,
/// no readable first instruction, or a first instruction that does not verify
/// the issuer's signature over the message.
pub open spec fn claim_error(ctx: ClaimVoucher, args: ClaimVoucherArgs, now: i64, first_ix: Option<LoadedInstruction>) -> Option<SignitoError> {
    let msg = args.voucher_msg@;
    if voucher_amount(msg) == 0 {
        Some(SignitoError::InvalidAmount)
    } else if msg.subrange(8, 40) != ctx.claimer@ {
        Some(SignitoError::RecipientMismatch)
    } else if !(now < voucher_expires_at(msg)) {
        Some(SignitoError::VoucherExpired)
    } else {
        match first_ix {
            None => Some(SignitoError::InvalidVoucherSig),
            Some(ix) => if ed25519_ix_matches(ix, ctx.issuer@, msg, args.sig@) {
                None
            } else {
                Some(SignitoError::InvalidVoucherSig)
            },
        }
    }
}

/// Effects of a valid claim: when the claimer's voucher-token account is
/// empty, create and initialise it for the claimer; then transfer the voucher
/// amount from the escrow to it, signed by the issuer's vault.
pub open spec fn claim_steps(ctx: ClaimVoucher, amount: u64, rent: RentMinimums) -> Seq<Step> {
    (if ctx.claimer_atoken_ata_is_empty {
        seq![
            unsigned(Action::CreateAccount {
                payer: ctx.claimer,
                new_account: ctx.claimer_atoken_ata,
                lamports: rent.token_account,
                space: TOKEN_ACCOUNT_LEN,
                program: TokenProgram::SplToken,
            }),
            unsigned(Action::InitializeAccount3 {
                program: TokenProgram::SplToken,
                account: ctx.claimer_atoken_ata,
                mint: ctx.mint_atoken,
                owner: ctx.claimer,
            }),
        ]
    } else {
        seq![]
    }) + seq![
        signed(Action::Transfer {
            program: TokenProgram::SplToken,
            source: ctx.escrow_atoken_ata,
            destination: ctx.claimer_atoken_ata,
            authority: ctx.issuer_vault_pda,
            amount,
        }, vault_seeds(ctx.issuer, ctx.issuer_vault_bump)),
    ]
}

/// Outcome of a claim: the accounts after it (the nonce record stamped with
/// `now`), its effects, and the record of the claim.
pub open spec fn claim_result(ctx: ClaimVoucher, args: ClaimVoucherArgs, now: i64, first_ix: Option<LoadedInstruction>, rent: RentMinimums) -> Result<(ClaimVoucher, Seq<Step>, VoucherClaimed), SignitoError> {
    let amount = voucher_amount(args.voucher_msg@) as u64;
    match claim_error(ctx, args, now, first_ix) {
        Some(e) => Err(e),
        None => Ok((
            (ClaimVoucher { nonce_pda: (NonceRecord { claimed_at: now }), ..ctx }),
            claim_steps(ctx, amount, rent),
            (VoucherClaimed {
                claimer: ctx.claimer,
                issuer: ctx.issuer,
                mint_atoken: ctx.mint_atoken,
                amount,
                claimed_at: now,
            }),
        )),
    }
}

/// Voucher claim: parses the voucher, checks amount, recipient, expiry against
/// `now` and the issuer's Ed25519 signature (`first_ix` is the transaction's
/// first instruction, `None` when it cannot be read), stamps the nonce record,
/// and returns the effects that pay the claimer from the escrow.
pub fn handler(ctx: &mut ClaimVoucher, args: &ClaimVoucherArgs, now: i64, first_ix: &Option<LoadedInstruction>, rent: &RentMinimums) -> (r: Result<(Vec<Step>, VoucherClaimed), SignitoError>)
    ensures
        match claim_result(*old(ctx), *args, now, *first_ix, *rent) {
            Err(e) => r == Err::<(Vec<Step>, VoucherClaimed), SignitoError>(e) && *final(ctx) == *old(ctx),
            Ok((c, s, ev)) => r matches Ok((steps, event)) && steps@ == s && event == ev && *final(ctx) == c,
        },
{
    let msg = args.voucher_msg.as_slice();
    let amount = read_u64_le(msg, 0);
    let expires_at = read_i64_le(msg, 56);
    if amount == 0 {
        return Err(SignitoError::InvalidAmount);
    }
    if !region_equals(msg, 8, 32, ctx.claimer.as_slice()) {
        return Err(SignitoError::RecipientMismatch);
    }
    if !(now < expires_at) {
        return Err(SignitoError::VoucherExpired);
    }
    match first_ix {
        None => {
            return Err(SignitoError::InvalidVoucherSig);
        },
        Some(ix) => {
            verify_ed25519_ix(ix, ctx.issuer.as_slice(), msg, args.sig.as_slice())?;
        },
    }
    let mut steps: Vec<Step> = Vec::new();
    if ctx.claimer_atoken_ata_is_empty {
        steps.push(Step {
            action: Action::CreateAccount {
                payer: ctx.claimer,
                new_account: ctx.claimer_atoken_ata,
                lamports: rent.token_account,
                space: TOKEN_ACCOUNT_LEN,
                program: TokenProgram::SplToken,
            },
            signer: None,
        });
        steps.push(Step {
            action: Action::InitializeAccount3 {
                program: TokenProgram::SplToken,
                account: ctx.claimer_atoken_ata,
                mint: ctx.mint_atoken,
                owner: ctx.claimer,
            },
            signer: None,
        });
    }
    steps.push(Step {
        action: Action::Transfer {
            program: TokenProgram::SplToken,
            source: ctx.escrow_atoken_ata,
            destination: ctx.claimer_atoken_ata,
            authority: ctx.issuer_vault_pda,
            amount,
        },
        signer: Some(VaultSeeds { owner: ctx.issuer, bump: ctx.issuer_vault_bump }),
    });
    assert(steps@ =~= claim_steps(*old(ctx), amount, *rent));
    ctx.nonce_pda.claimed_at = now;
    let event = VoucherClaimed {
        claimer: ctx.claimer,
        issuer: ctx.issuer,
        mint_atoken: ctx.mint_atoken,
        amount,
        claimed_at: now,
    };
    Ok((steps, event))
}

} // verus!
