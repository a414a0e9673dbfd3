//! Core of a command-line inspector for ledger accounts on an account-based
//! blockchain: given the raw record fetched for an account identifier, decode
//! the owner-program-specific payload and compute the cells of the summary
//! table that is printed for the user.

pub mod account;
pub mod decode;
pub mod render;
pub mod laws;
