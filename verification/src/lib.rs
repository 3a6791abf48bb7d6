//! A contract template whose core is a single-owner access-control state
//! machine: one persisted record names the current owner and an optional
//! status, and only that owner may change either.

pub mod contract;
pub mod error;
pub mod msg;
pub mod response;
pub mod state;
pub mod text;
pub mod types;
