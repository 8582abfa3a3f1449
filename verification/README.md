# solana-spl-swaps

Hash-time-locked atomic swaps of SPL tokens on Solana, and the unique deposit
addresses (UDAs) from which such swaps can be started, with the instruction
logic verified in Verus.

- `src/` is the verified library. For every instruction (`initiate`, `redeem`,
  `refund`, `instant_refund`, `create_uda_spl`, `initiate_uda`) it computes,
  from the stored account state, the instruction's accounts (as keys and token
  balances), its arguments and the current slot, the token transfer to make,
  the state to store and the event to emit, or the error. `src/laws.rs` states
  the properties the instructions keep together (hash lock, time lock, who is
  paid, solvency of the vaults, and that the program signs for the identity
  PDA and for a UDA with the seeds of `src/seeds.rs`, which `app/` uses to
  sign). SHA-256 comes from `anchor_lang`'s
  `solana_program::hash::hash`, behind one trusted wrapper in `src/hash.rs`.
- `app/` is the Anchor program around it: account validation, the clock, the
  token-program transfers and the events.
- `tests/` runs the library on concrete swaps.
