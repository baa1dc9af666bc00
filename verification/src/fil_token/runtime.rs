//! The runtime that an actor is executed in.
use vstd::prelude::*;

use crate::address::Address;
use crate::bytes::ActorID;
use crate::fil_token::errors::RuntimeError;

verus! {

/// Abstraction of the runtime that an actor is executed in, providing access to syscalls and
/// features of the FVM
pub trait Runtime {
    /// Get the direct-caller that invoked the current actor
    fn caller(&self) -> ActorID;

    /// Attempts to resolve an address to an ActorID
    fn resolve_address(&self, addr: &Address) -> Result<ActorID, RuntimeError>;
}

} // verus!
