//! Why an operation on a token fails.
use vstd::prelude::*;

use crate::address::{Address, AddressError, AddressView};
use crate::amount::TokenAmount;
use crate::bytes::{ActorID, EncodingError};
use crate::exit;
use crate::exit::ExitCode;
use crate::fil_fungible_token::state::{StateError, StateInvariantError};
use crate::frc46_token::error;
use crate::fvm_actor_utils::messaging::{MessagingError, MessagingFault};
use crate::ledger::StateFault;

verus! {

/// Why an operation on a token fails.
#[allow(inconsistent_fields)]
#[derive(Debug)]
pub enum TokenError {
    /// Error in underlying state
    TokenState(StateError),
    /// An amount is negative that may not be
    InvalidNegative {
        /// What the amount is for
        name: &'static str,
        /// The amount
        amount: TokenAmount,
    },
    /// An amount is not a multiple of the granularity
    InvalidGranularity {
        /// What the amount is for
        name: &'static str,
        /// The amount
        amount: TokenAmount,
        /// The granularity
        granularity: u64,
    },
    /// Error calling receiver hook
    Messaging(MessagingError),
    /// Receiver hook aborted
    ReceiverHook {
        /// Whose balance is being debited
        from: ActorID,
        /// Whose balance is being credited
        to: ActorID,
        /// Who initiated the transfer of funds
        operator: ActorID,
        /// How many tokens
        amount: TokenAmount,
        /// How the receiver ended
        exit_code: ExitCode,
    },
    /// Receiver hook was already called
    ReceiverHookAlreadyCalled,
    /// Expected the address to be a resolvable id address
    InvalidIdAddress {
        /// The address
        address: Address,
        /// What is wrong with it
        source: AddressError,
    },
    /// The operator cannot be the same as the debited address
    InvalidOperator(Address),
    /// Error during serialization
    Serialization(EncodingError),
    /// Error in state invariants
    StateInvariant(StateInvariantError),
}

/// Why an operation on a token fails, as a value.
#[allow(inconsistent_fields)]
pub enum TokenFault {
    /// The state refuses it.
    State(StateFault),
    /// An amount is negative that may not be.
    InvalidNegative {
        /// What the amount is for.
        name: Seq<char>,
        /// The amount.
        amount: int,
    },
    /// An amount is not a multiple of the granularity.
    InvalidGranularity {
        /// What the amount is for.
        name: Seq<char>,
        /// The amount.
        amount: int,
        /// The granularity.
        granularity: u64,
    },
    /// A message to another actor could not be sent.
    Messaging(MessagingFault),
    /// The receiver aborted.
    ReceiverHook {
        /// Whose balance is being debited.
        from: ActorID,
        /// Whose balance is being credited.
        to: ActorID,
        /// Who initiated the transfer of funds.
        operator: ActorID,
        /// How many tokens.
        amount: int,
        /// How the receiver ended.
        exit_code: ExitCode,
    },
    /// The hook was called before.
    ReceiverHookAlreadyCalled,
    /// An address should have been that of an id.
    InvalidIdAddress(AddressView),
    /// The operator cannot be the same as the debited address.
    InvalidOperator(AddressView),
    /// Something could not be encoded.
    Serialization,
    /// The state breaks a rule.
    StateInvariant,
}

impl View for TokenError {
    type V = TokenFault;

    open spec fn view(&self) -> TokenFault {
        match *self {
            TokenError::TokenState(e) => TokenFault::State(e@),
            TokenError::InvalidNegative { name, amount } => TokenFault::InvalidNegative {
                name: name@,
                amount: amount@,
            },
            TokenError::InvalidGranularity { name, amount, granularity } => {
                TokenFault::InvalidGranularity { name: name@, amount: amount@, granularity }
            },
            TokenError::Messaging(e) => TokenFault::Messaging(e@),
            TokenError::ReceiverHook { from, to, operator, amount, exit_code } => {
                TokenFault::ReceiverHook { from, to, operator, amount: amount@, exit_code }
            },
            TokenError::ReceiverHookAlreadyCalled => TokenFault::ReceiverHookAlreadyCalled,
            TokenError::InvalidIdAddress { address, .. } => TokenFault::InvalidIdAddress(address@),
            TokenError::InvalidOperator(address) => TokenFault::InvalidOperator(address@),
            TokenError::Serialization(_) => TokenFault::Serialization,
            TokenError::StateInvariant(_) => TokenFault::StateInvariant,
        }
    }
}

impl TokenFault {
    /// The exit code for an operation that fails: that of the receiver, where it aborted.
    pub open spec fn exit(self) -> ExitCode {
        match self {
            TokenFault::ReceiverHook { exit_code, .. } => exit_code,
            TokenFault::ReceiverHookAlreadyCalled => ExitCode { value: exit::USR_ASSERTION_FAILED },
            TokenFault::InvalidIdAddress(_) => ExitCode { value: exit::USR_NOT_FOUND },
            TokenFault::Serialization => ExitCode { value: exit::USR_SERIALIZATION },
            TokenFault::InvalidOperator(_) => ExitCode { value: exit::USR_ILLEGAL_ARGUMENT },
            TokenFault::InvalidGranularity { .. } => ExitCode { value: exit::USR_ILLEGAL_ARGUMENT },
            TokenFault::InvalidNegative { .. } => ExitCode { value: exit::USR_ILLEGAL_ARGUMENT },
            TokenFault::StateInvariant => ExitCode { value: exit::USR_ILLEGAL_STATE },
            TokenFault::State(e) => error::state_exit(e),
            TokenFault::Messaging(e) => e.exit(),
        }
    }
}

impl From<&TokenError> for ExitCode {
    fn from(error: &TokenError) -> (r: Self) {
        match error {
            // simply pass through the exit code from the receiver
            TokenError::ReceiverHook { exit_code, .. } => *exit_code,
            TokenError::ReceiverHookAlreadyCalled => ExitCode { value: exit::USR_ASSERTION_FAILED },
            TokenError::InvalidIdAddress { .. } => ExitCode { value: exit::USR_NOT_FOUND },
            TokenError::Serialization(_) => ExitCode { value: exit::USR_SERIALIZATION },
            TokenError::InvalidOperator(_)
            | TokenError::InvalidGranularity { .. }
            | TokenError::InvalidNegative { .. } => ExitCode { value: exit::USR_ILLEGAL_ARGUMENT },
            TokenError::StateInvariant(_) => ExitCode { value: exit::USR_ILLEGAL_STATE },
            TokenError::TokenState(e) => ExitCode::from(e),
            TokenError::Messaging(e) => ExitCode::from(e),
        }
    }
}

impl vstd::std_specs::convert::FromSpecImpl<&TokenError> for ExitCode {
    open spec fn obeys_from_spec() -> bool {
        true
    }

    open spec fn from_spec(error: &TokenError) -> Self {
        error@.exit()
    }
}

} // verus!
