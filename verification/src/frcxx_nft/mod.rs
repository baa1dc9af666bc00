//! A collection of non-fungible tokens whose state checks who may do what.
pub mod batch;
pub mod batches;
pub mod handle;
pub mod handle_promises;
pub mod laws;
pub mod nft;
pub mod promises;
pub mod receiver;
pub mod state;
pub mod types;
