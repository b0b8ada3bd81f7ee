# lpfinance

The decision logic of the LP Finance Solana programs, verified with Verus:
the collateralised borrowing protocol, its liquidation auction, the swap
pool, LPFi staking, the lending pool, the LP and lending token mints and the
test-token faucet.

Each instruction is a function from the account data it reads to the
account data it writes and the movements (token transfers, mints, burns,
lamports) the caller must then carry out. Its contract states the outcome
exactly, including every refusal and the inputs on which it comes.

- `src/` — the verified library, one module per program, plus
  `solvency.rs` (what the borrowing protocol's operations keep of a
  position), `pubkey.rs`, `pda.rs` (the program-address derivation, the
  one call into an outside crate, behind a trusted wrapper), `oracle.rs`
  (what the programs read of a Pyth price account) and `value.rs`.
- `tests/` — concrete scenarios for each module.
- `app/` — the on-chain side: reading and writing accounts, token and
  lamport movements, calls into the sibling programs.
