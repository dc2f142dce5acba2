//! Records stored in ledger accounts whose address is derived from a
//! namespace, a key and a bump, and a two-step escrow built on them.

pub mod error;
pub mod address;
pub mod account;
pub mod record;
pub mod mapping;
pub mod escrow;
pub mod shares;
pub mod laws;
pub mod instruction;
