use vstd::prelude::*;

verus! {

/// Vault state stored in the vault account, whose address is derived from the
/// seeds `["vault", owner]`.
///
/// OTS chain: `H0` is a secret derived from the vault code, `H(k+1) = SHA-256(H(k))`,
/// and the chain tip `H(depth)` is stored in `current_ots_hash`. Each withdrawal
/// reveals the preimage of the tip; the preimage becomes the new tip and
/// `chain_depth` drops by one, until the chain is exhausted at depth 0.
#[derive(Clone, Copy, Debug, PartialEq, Eq)]
pub struct VaultState {
    /// Wallet that owns and controls this vault.
    pub owner: [u8; 32],
    /// Current OTS chain tip. On each withdrawal this advances one step toward `H0`.
    pub current_ots_hash: [u8; 32],
    /// Remaining withdrawal count.
    pub chain_depth: u8,
    /// The receipt mint created for this vault (sSOL); receipts stay put because
    /// the holder's receipt account is kept frozen by the vault.
    pub mint_stoken: [u8; 32],
    /// Lamports deposited by the owner (account rent excluded).
    pub total_deposited: u64,
    /// Bump of the vault address.
    pub bump: u8,
}

/// Serialised size of a vault account: 8 discriminator + 32 owner + 32 ots hash
/// + 1 chain depth + 32 mint + 8 deposited + 1 bump.
pub const VAULT_STATE_LEN: usize = 8 + 32 + 32 + 1 + 32 + 8 + 1;

/// Record created per voucher nonce when a voucher is claimed; its existence
/// means that the nonce was used.
#[derive(Clone, Copy, Debug, PartialEq, Eq)]
pub struct NonceRecord {
    /// Unix time of the claim.
    pub claimed_at: i64,
}

/// Serialised size of a nonce record: 8 discriminator + 8 timestamp.
pub const NONCE_RECORD_LEN: usize = 8 + 8;

} // verus!
