# signito-vault

A shielded-SOL vault for Solana whose withdrawals are authorised by a SHA-256
one-time-signature hash chain, with offline vouchers redeemed against an
Ed25519 signature.

- `src/` — the verified library. Each instruction (`instructions/*`) is a
  function from the accounts it reads and its arguments to the new account
  state and the exact list of cross-program calls and lamport moves to perform
  (`cpi::Step`). `ots` holds the hash-chain rule, `token_account` the reading
  of raw token-account data, `bytes` little-endian decoding, `hash` the SHA-256
  call, and `laws` the proved properties that span instructions.
- `app/` — the Anchor program: account validation and serialisation, runtime
  reads (clock, rent, instructions sysvar), and the execution of the steps.
- `tests/` — scenarios run against the library with the real SHA-256.
