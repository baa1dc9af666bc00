//! A token whose name, symbol and minter are given when it is made.
pub mod actor;
pub mod dispatch;
pub mod error;
pub mod invoke;
pub mod promises;
pub mod state;
