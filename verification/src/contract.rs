//! The entry points of the contract.
//!
//! Each takes the storage as a value, the address validator as a function
//! and the authenticated sender, and leaves reading and writing the real
//! storage to its caller.

pub mod execute;
pub mod instantiate;
pub mod migrate;
pub mod query;
