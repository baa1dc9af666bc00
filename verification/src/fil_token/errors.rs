//! Why an operation on a token fails.
use fvm_ipld_hamt::Error as HamtError;
use vstd::prelude::*;

use crate::address::Address;
use crate::ledger::StateFault;

pub use crate::fil_fungible_token::state::StateError;

verus! {

/// What the runtime could not do.
#[derive(Debug)]
pub enum RuntimeError {
    /// An address stands for no actor.
    AddrNotFound(Address),
}

/// Why an operation on a token fails.
#[derive(Debug)]
pub enum ActorError {
    /// An address stands for no actor.
    AddrNotFound(Address),
    /// An amount is out of range.
    Arithmetic(String),
    /// The state refuses it.
    IpldState(StateError),
    /// A tree could not be read or written.
    IpldHamt(HamtError),
    /// The runtime failed.
    RuntimeError(RuntimeError),
}

/// Why an operation on a token fails, as a value.
pub enum ActorFault {
    /// An address stands for no actor.
    AddrNotFound,
    /// An amount is out of range.
    Arithmetic,
    /// The state refuses it.
    State(StateFault),
    /// A tree could not be read or written.
    Hamt,
    /// The runtime failed.
    Runtime,
}

impl View for ActorError {
    type V = ActorFault;

    open spec fn view(&self) -> ActorFault {
        match *self {
            ActorError::AddrNotFound(_) => ActorFault::AddrNotFound,
            ActorError::Arithmetic(_) => ActorFault::Arithmetic,
            ActorError::IpldState(e) => ActorFault::State(e@),
            ActorError::IpldHamt(_) => ActorFault::Hamt,
            ActorError::RuntimeError(_) => ActorFault::Runtime,
        }
    }
}

impl From<StateError> for ActorError {
    fn from(e: StateError) -> (r: Self) {
        ActorError::IpldState(e)
    }
}

impl vstd::std_specs::convert::FromSpecImpl<StateError> for ActorError {
    open spec fn obeys_from_spec() -> bool {
        true
    }

    open spec fn from_spec(e: StateError) -> Self {
        ActorError::IpldState(e)
    }
}

impl From<HamtError> for ActorError {
    fn from(e: HamtError) -> (r: Self) {
        ActorError::IpldHamt(e)
    }
}

impl vstd::std_specs::convert::FromSpecImpl<HamtError> for ActorError {
    open spec fn obeys_from_spec() -> bool {
        true
    }

    open spec fn from_spec(e: HamtError) -> Self {
        ActorError::IpldHamt(e)
    }
}

impl From<RuntimeError> for ActorError {
    fn from(e: RuntimeError) -> (r: Self) {
        ActorError::RuntimeError(e)
    }
}

impl vstd::std_specs::convert::FromSpecImpl<RuntimeError> for ActorError {
    open spec fn obeys_from_spec() -> bool {
        true
    }

    open spec fn from_spec(e: RuntimeError) -> Self {
        ActorError::RuntimeError(e)
    }
}

} // verus!
