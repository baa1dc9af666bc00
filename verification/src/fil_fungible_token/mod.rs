//! A fungible token whose accounts are kept under the ids of their actors.
pub mod error;
pub mod histories;
pub mod hook_promises;
pub mod method;
pub mod promises;
pub mod receiver;
pub mod state;
pub mod state_promises;
pub mod token;
pub mod transaction;
pub mod transaction_promises;
pub mod types;
