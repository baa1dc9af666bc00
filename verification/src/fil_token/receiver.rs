//! The interface of a contract that receives tokens.
use vstd::prelude::*;

use crate::address::Address;
use crate::amount::TokenAmount;

verus! {

/// Why a contract did not take tokens: there is no such reason.
#[derive(Debug)]
pub enum ReceiverError {
    /// This cannot be.
    Never(std::convert::Infallible),
}

/// Standard interface for a contract that wishes to receive tokens
pub trait TokenReceiver {
    /// Invoked when tokens arrive
    fn token_received(from: Address, amount: TokenAmount, data: &[u8]) -> Result<u32, ReceiverError>;
}

} // verus!
