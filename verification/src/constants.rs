use vstd::prelude::*;

verus! {

/// Largest OTS chain depth that a new vault accepts.
pub const MAX_CHAIN_DEPTH: u8 = 64;

/// Size in bytes of a Token-2022 / SPL Token mint account without extensions.
pub const MINT_LEN: u64 = 82;

/// Size in bytes of a classic SPL Token account without extensions.
pub const TOKEN_ACCOUNT_LEN: u64 = 165;

/// Decimals of the receipt (sSOL) and voucher (aSOL) mints: one token unit per lamport.
pub const TOKEN_DECIMALS: u8 = 9;

/// Offset of the `delegate` COption tag (u32 little endian) in a token account.
pub const DELEGATE_OPTION_OFFSET: usize = 72;

/// Offset of the 32-byte delegate key in a token account.
pub const DELEGATE_OFFSET: usize = 76;

/// Offset of the account-state byte in a token account
/// (0 = uninitialised, 1 = initialised, 2 = frozen).
pub const ACCOUNT_STATE_OFFSET: usize = 108;

/// Value of the account-state byte of a frozen token account.
pub const ACCOUNT_STATE_FROZEN: u8 = 2;

/// Length of a binary voucher message.
pub const VOUCHER_MSG_LEN: usize = 64;

/// Length of an Ed25519 signature.
pub const SIGNATURE_LEN: usize = 64;

/// Length of a public key.
pub const PUBKEY_LEN: usize = 32;

/// Instruction index that an Ed25519 verification header uses to say that a
/// region lies in the verification instruction itself.
pub const THIS_INSTRUCTION: u16 = 0xffff;

/// Position in the transaction of the Ed25519 verification instruction that a
/// voucher claim reads.
pub const VERIFY_INSTRUCTION_INDEX: u16 = 0;

/// Address of the native Ed25519 signature-verification program
/// (`Ed25519SigVerify111111111111111111111111111`).
pub const ED25519_PROGRAM_ID: [u8; 32] = [
    3, 125, 70, 214, 124, 147, 251, 190, 18, 249, 66, 143, 131, 141, 64, 255,
    5, 112, 116, 73, 39, 244, 138, 100, 252, 202, 112, 68, 128, 0, 0, 0,
];

} // verus!
