//! Libraries for native Filecoin actors: fungible and non-fungible token state kept in IPLD
//! trees, the runtime that an actor sees, and the messages that it sends.
pub mod accounting;
pub mod address;
pub mod amount;
pub mod arithmetic;
pub mod basics;
pub mod bits;
pub mod bytes;
pub mod exit;
pub mod fil_fungible_token;
pub mod fil_token;
pub mod frc46_factory_token;
pub mod frc46_token;
pub mod frc53_nft;
pub mod frcxx_nft;
pub mod fvm_actor_utils;
pub mod greeter;
pub mod id_store;
pub mod keys;
pub mod laws;
pub mod ledger;
pub mod nft_store;
pub mod store;
