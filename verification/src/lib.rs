//! Hash-time-locked atomic swaps of SPL tokens and the unique deposit
//! addresses (UDAs) that feed them.
//!
//! The library decides every instruction of the on-chain program: given the
//! stored account state, the accounts an instruction is handed (as plain keys
//! and token balances), its arguments and the current slot, it computes the
//! token transfer to perform, the account state to store and the event to
//! emit, or the error the instruction fails with.

pub mod pubkey;
pub mod hash;
pub mod error;
pub mod state;
pub mod events;
pub mod accounts;
pub mod swap;
pub mod uda;
pub mod seeds;
pub mod laws;
