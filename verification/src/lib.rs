//! A two-party wagering game: two players each stake a fixed amount and commit
//! a secret; once both are in, either may roll a die whose face is derived from
//! both secrets, and the pot goes to the winner.
//!
//! The game is an explicit state value. Every operation takes the state, the
//! caller's message and the ledger height, and returns the transfers that the
//! host ledger has to carry out together with the state write.

pub mod contract;
pub mod error;
pub mod laws;
pub mod ledger;
pub mod msg;
pub mod randomness;
pub mod state;
pub mod text;
