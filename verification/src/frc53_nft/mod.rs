//! The FRC-0053 non-fungible token.
pub mod checks;
pub mod collection;
pub mod histories;
pub mod invariants;
pub mod laws;
pub mod pages;
pub mod promises;
pub mod receiver;
pub mod state;
pub mod types;
