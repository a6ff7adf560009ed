//! Verified core of an on-ledger English auction for a single token, together
//! with the program-derived authority that mints the token and signs the
//! settlement.

pub mod auction;
pub mod authority;
pub mod clock;
pub mod error;
pub mod guarantees;
pub mod pubkey;
pub mod system;
pub mod token;
