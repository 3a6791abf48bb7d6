//! Data types of the contract and the owner state machine.

pub mod account;
pub mod object;
pub mod owner;
