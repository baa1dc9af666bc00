//! The FRC-0046 fungible token.
pub mod accounts;
pub mod error;
pub mod histories;
pub mod hook_promises;
pub mod laws;
pub mod promises;
pub mod receiver;
pub mod state;
pub mod state_promises;
pub mod token;
pub mod types;
