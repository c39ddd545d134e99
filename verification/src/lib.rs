//! Verified core of the Signito vault: a shielded-SOL vault whose withdrawals are
//! authorised by a SHA-256 one-time-signature hash chain, plus offline vouchers
//! redeemed against an Ed25519 signature.
//!
//! Every instruction is a verified function from the accounts it reads and its
//! arguments to the new account state and the exact list of cross-program
//! calls and lamport moves that the on-chain program must perform.

pub mod bytes;
pub mod constants;
pub mod cpi;
pub mod errors;
pub mod hash;
pub mod instructions;
pub mod laws;
pub mod ots;
pub mod state;
pub mod token_account;

use vstd::prelude::*;

use crate::cpi::{RentMinimums, Step};
use crate::errors::SignitoError;
use crate::instructions::claim_voucher::{claim_result, ClaimVoucher, ClaimVoucherArgs, LoadedInstruction, VoucherClaimed};
use crate::instructions::close_vault::CloseVault;
use crate::instructions::convert_to_airtoken::{convert_result, ConvertToAirtoken, ConvertToAirtokenArgs};
use crate::instructions::deposit::{deposit_result, Deposit, DepositArgs};
use crate::instructions::initialize_vault::{initialize_result, InitializeVault, InitializeVaultArgs};
use crate::instructions::refresh_ots::{refresh_result, RefreshOts, RefreshOtsArgs};
use crate::instructions::unshield::{unshield_result, Unshield, UnshieldArgs};
use crate::instructions::zk_unshield::{zk_unshield_result, ZkUnshield, ZkUnshieldArgs};

verus! {

/// Creates a vault: records the OTS chain tip and the first deposit, and
/// returns the effects that set up the receipt token (kept frozen in the owner's account), mint
/// the receipts to the owner and move the deposit into the vault.
pub fn initialize_vault(ctx: &mut InitializeVault, args: &InitializeVaultArgs, rent: &RentMinimums) -> (r: Result<Vec<Step>, SignitoError>)
    ensures
        match initialize_result(*old(ctx), *args, *rent) {
            Err(e) => r == Err::<Vec<Step>, SignitoError>(e) && *final(ctx) == *old(ctx),
            Ok((c, s)) => r matches Ok(steps) && steps@ == s && *final(ctx) == c,
        },
{
    instructions::initialize_vault::handler(ctx, args, rent)
}

/// Withdraws with the owner's signature after verifying the OTS preimage
/// (SHA-256) against the chain tip; the effects burn the receipts and move the
/// lamports to the destination.
pub fn unshield(ctx: &mut Unshield, args: &UnshieldArgs) -> (r: Result<Vec<Step>, SignitoError>)
    ensures
        match unshield_result(*old(ctx), *args) {
            Err(e) => r == Err::<Vec<Step>, SignitoError>(e) && *final(ctx) == *old(ctx),
            Ok((c, s)) => r matches Ok(steps) && steps@ == s && *final(ctx) == c,
        },
{
    instructions::unshield::handler(ctx, args)
}

/// Deposits more lamports into an existing vault; the effects mint the
/// matching receipts.
pub fn deposit(ctx: &mut Deposit, args: &DepositArgs) -> (r: Result<Vec<Step>, SignitoError>)
    ensures
        match deposit_result(*old(ctx), *args) {
            Err(e) => r == Err::<Vec<Step>, SignitoError>(e) && *final(ctx) == *old(ctx),
            Ok((c, s)) => r matches Ok(steps) && steps@ == s && *final(ctx) == c,
        },
{
    instructions::deposit::handler(ctx, args)
}

/// Closes an empty vault; refused with `VaultNotEmpty` while it holds deposits.
pub fn close_vault(ctx: &CloseVault) -> (r: Result<(), SignitoError>)
    ensures
        r is Ok <==> ctx.vault_state.total_deposited == 0,
        r matches Err(e) ==> e == SignitoError::VaultNotEmpty,
{
    instructions::close_vault::handler(ctx)
}

/// Burns receipts (OTS-verified) and mints transferable voucher tokens into a
/// vault-owned escrow, for offline voucher use.
pub fn convert_to_airtoken(ctx: &mut ConvertToAirtoken, args: &ConvertToAirtokenArgs, rent: &RentMinimums) -> (r: Result<Vec<Step>, SignitoError>)
    ensures
        match convert_result(*old(ctx), *args, *rent) {
            Err(e) => r == Err::<Vec<Step>, SignitoError>(e) && *final(ctx) == *old(ctx),
            Ok((c, s)) => r matches Ok(steps) && steps@ == s && *final(ctx) == c,
        },
{
    instructions::convert_to_airtoken::handler(ctx, args, rent)
}

/// Redeems a voucher signed by the issuer (Ed25519, checked through the
/// transaction's first instruction) and pays the claimer from the escrow.
pub fn claim_voucher(ctx: &mut ClaimVoucher, args: &ClaimVoucherArgs, now: i64, first_ix: &Option<LoadedInstruction>, rent: &RentMinimums) -> (r: Result<(Vec<Step>, VoucherClaimed), SignitoError>)
    ensures
        match claim_result(*old(ctx), *args, now, *first_ix, *rent) {
            Err(e) => r == Err::<(Vec<Step>, VoucherClaimed), SignitoError>(e) && *final(ctx) == *old(ctx),
            Ok((c, s, ev)) => r matches Ok((steps, event)) && steps@ == s && event == ev && *final(ctx) == c,
        },
{
    instructions::claim_voucher::handler(ctx, args, now, first_ix, rent)
}

/// Resets the OTS chain of a vault to a new tip and depth, leaving funds and
/// everything else unchanged.
pub fn refresh_ots(ctx: &mut RefreshOts, args: &RefreshOtsArgs) -> (r: Result<(), SignitoError>)
    ensures
        r is Ok,
        *final(ctx) == refresh_result(*old(ctx), *args),
{
    instructions::refresh_ots::handler(ctx, args)
}

/// Withdraws through a relayer, without the owner's signature: the OTS
/// preimage authorises it, and the vault, as delegate of the receipt account,
/// burns the receipts.
pub fn zk_unshield(ctx: &mut ZkUnshield, args: &ZkUnshieldArgs) -> (r: Result<Vec<Step>, SignitoError>)
    ensures
        match zk_unshield_result(*old(ctx), *args) {
            Err(e) => r == Err::<Vec<Step>, SignitoError>(e) && *final(ctx) == *old(ctx),
            Ok((c, s)) => r matches Ok(steps) && steps@ == s && *final(ctx) == c,
        },
{
    instructions::zk_unshield::handler(ctx, args)
}

} // verus!
