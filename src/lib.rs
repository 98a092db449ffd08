//! An index-fund vault: deposits of an accepted asset are held in escrow,
//! released share by share to an exchange aggregator only when the same
//! transaction provably swaps exactly that share and books exactly the quoted
//! output, and the proceeds are credited to the depositor's ledger.

pub mod address;
pub mod bytes;
pub mod config;
pub mod create_index;
pub mod deposit;
pub mod deposit_account;
pub mod error;
pub mod finalize;
pub mod index;
pub mod index_profile;
pub mod swap;
pub mod threshold;
pub mod transaction;
