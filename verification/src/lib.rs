//! A token-vesting ledger: per-beneficiary vesting agreements for fungible
//! tokens, advanced by block time, with register / claim / deregister
//! transitions and a per-denom aggregate kept consistent with the sum of
//! outstanding account balances.

pub mod contract;
pub mod error;
pub mod laws;
pub mod msg;
pub mod state;
pub mod text;
