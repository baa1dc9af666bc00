//! A fungible token behind a helper that loads and saves its state with every operation.
pub mod errors;
pub mod helper;
pub mod histories;
pub mod promises;
pub mod receiver;
pub mod runtime;
pub mod state;
pub mod types;
