//! Verified core of the LP Finance programs: the collateralised borrowing
//! protocol, its liquidation auction, the swap pool, the staking and lending
//! pools, the token mints and the test-token faucet.
//!
//! Each instruction is modelled as a function over the account data it reads
//! and writes. The chain itself (account loading, token transfers, lamport
//! moves, the clock) stays with the caller; every function returns what the
//! caller must then carry out.

pub mod pubkey;
pub mod pda;
pub mod oracle;
pub mod value;
pub mod cbs_protocol;
pub mod solvency;
pub mod lpfinance_staking;
pub mod solend;
pub mod lpusd_auction;
pub mod lpfinance_swap;
pub mod lpfinance_tokens;
pub mod lending_tokens;
pub mod faucet;
