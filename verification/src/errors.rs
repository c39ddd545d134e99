use vstd::prelude::*;

verus! {

/// Errors that the vault program reports.
#[derive(Debug, Clone, Copy, PartialEq, Eq, Structural)]
pub enum SignitoError {
    /// OTS preimage does not match. Vault code incorrect or wrong withdrawal step.
    InvalidOtsPreimage,
    /// Vault chain exhausted. All OTS levels consumed. Create a new vault.
    VaultExhausted,
    /// Requested amount exceeds vault balance.
    InsufficientFunds,
    /// Amount must be greater than zero.
    InvalidAmount,
    /// Ed25519 signature verification failed. Voucher is invalid.
    InvalidVoucherSig,
    /// This voucher has expired.
    VoucherExpired,
    /// This voucher has already been claimed.
    VoucherAlreadyClaimed,
    /// This voucher was issued to a different address.
    RecipientMismatch,
    /// Vault still holds funds. Withdraw all SOL before closing.
    VaultNotEmpty,
    /// Unauthorized. Only the designated admin can perform this action.
    Unauthorized,
    /// Arithmetic overflow.
    Overflow,
}

} // verus!
