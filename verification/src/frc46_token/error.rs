//! Why an operation on a token fails.
use vstd::prelude::*;

use crate::address::{Address, AddressError, AddressView};
use crate::amount::TokenAmount;
use crate::bytes::EncodingError;
use crate::exit;
use crate::exit::ExitCode;
use crate::frc46_token::state::{StateError, StateInvariantError};
use crate::fvm_actor_utils::messaging::{MessagingError, MessagingFault};
use crate::fvm_actor_utils::receiver::{HookFault, ReceiverHookError};
use crate::ledger::StateFault;

verus! {

/// Why an operation on a token fails.
#[derive(Debug)]
pub enum TokenError {
    /// The state refuses it.
    TokenState(StateError),
    /// An amount is negative that may not be.
    InvalidNegative {
        /// What the amount is for.
        name: &'static str,
        /// The amount.
        amount: TokenAmount,
    },
    /// An amount is not a multiple of the granularity.
    InvalidGranularity {
        /// What the amount is for.
        name: &'static str,
        /// The amount.
        amount: TokenAmount,
        /// The granularity.
        granularity: u64,
    },
    /// A message to another actor could not be sent.
    Messaging(MessagingError),
    /// The receiver hook failed.
    ReceiverHook(ReceiverHookError),
    /// An address should have been that of an id.
    InvalidIdAddress {
        /// The address.
        address: Address,
        /// What is wrong with it.
        source: AddressError,
    },
    /// The operator cannot be the same as the debited address.
    InvalidOperator(Address),
    /// Something could not be encoded.
    Serialization(EncodingError),
    /// The state breaks a rule.
    StateInvariant(StateInvariantError),
}

/// Why an operation on a token fails, as a value.
pub enum TokenFault {
    /// The state refuses it.
    State(StateFault),
    /// An amount is negative that may not be.
    InvalidNegative {
        /// What the amount is for.
        name: Seq<char>,
        /// The amount.
        amount: int,
    },
    /// An amount is not a multiple of the granularity.
    InvalidGranularity {
        /// What the amount is for.
        name: Seq<char>,
        /// The amount.
        amount: int,
        /// The granularity.
        granularity: u64,
    },
    /// A message to another actor could not be sent.
    Messaging(MessagingFault),
    /// The receiver hook failed.
    ReceiverHook(HookFault),
    /// An address should have been that of an id.
    InvalidIdAddress(AddressView),
    /// The operator cannot be the same as the debited address.
    InvalidOperator(AddressView),
    /// Something could not be encoded.
    Serialization,
    /// The state breaks a rule.
    StateInvariant,
}

impl View for TokenError {
    type V = TokenFault;

    open spec fn view(&self) -> TokenFault {
        match *self {
            TokenError::TokenState(e) => TokenFault::State(e@),
            TokenError::InvalidNegative { name, amount } => TokenFault::InvalidNegative {
                name: name@,
                amount: amount@,
            },
            TokenError::InvalidGranularity { name, amount, granularity } => {
                TokenFault::InvalidGranularity { name: name@, amount: amount@, granularity }
            },
            TokenError::Messaging(e) => TokenFault::Messaging(e@),
            TokenError::ReceiverHook(e) => TokenFault::ReceiverHook(e@),
            TokenError::InvalidIdAddress { address, .. } => TokenFault::InvalidIdAddress(address@),
            TokenError::InvalidOperator(address) => TokenFault::InvalidOperator(address@),
            TokenError::Serialization(_) => TokenFault::Serialization,
            TokenError::StateInvariant(_) => TokenFault::StateInvariant,
        }
    }
}

/// The exit code for an operation that the state refuses.
pub open spec fn state_exit(fault: StateFault) -> ExitCode {
    let value = match fault {
        StateFault::Storage => exit::USR_SERIALIZATION,
        StateFault::Serialization => exit::USR_SERIALIZATION,
        StateFault::MissingState(_) => exit::USR_ILLEGAL_STATE,
        StateFault::NegativeTotalSupply { .. } => exit::USR_ILLEGAL_STATE,
        StateFault::InsufficientBalance { .. } => exit::USR_INSUFFICIENT_FUNDS,
        StateFault::InsufficientAllowance { .. } => exit::USR_INSUFFICIENT_FUNDS,
        StateFault::NegativeAllowance { .. } => exit::USR_ILLEGAL_ARGUMENT,
        StateFault::NegativeBalance { .. } => exit::USR_ILLEGAL_ARGUMENT,
    };
    ExitCode { value }
}

impl TokenFault {
    /// The exit code for an operation that fails.
    pub open spec fn exit(self) -> ExitCode {
        match self {
            TokenFault::InvalidIdAddress(_) => ExitCode { value: exit::USR_NOT_FOUND },
            TokenFault::Serialization => ExitCode { value: exit::USR_SERIALIZATION },
            TokenFault::InvalidOperator(_) => ExitCode { value: exit::USR_ILLEGAL_ARGUMENT },
            TokenFault::InvalidGranularity { .. } => ExitCode { value: exit::USR_ILLEGAL_ARGUMENT },
            TokenFault::InvalidNegative { .. } => ExitCode { value: exit::USR_ILLEGAL_ARGUMENT },
            TokenFault::StateInvariant => ExitCode { value: exit::USR_ILLEGAL_STATE },
            TokenFault::State(e) => state_exit(e),
            TokenFault::ReceiverHook(e) => e.exit(),
            TokenFault::Messaging(e) => e.exit(),
        }
    }
}

impl From<&StateError> for ExitCode {
    fn from(error: &StateError) -> (r: Self) {
        let value: u32 = match error {
            StateError::IpldHamt(_) | StateError::Serialization(_) => exit::USR_SERIALIZATION,
            StateError::NegativeTotalSupply { .. } | StateError::MissingState(_) => {
                exit::USR_ILLEGAL_STATE
            },
            StateError::InsufficientBalance { .. } | StateError::InsufficientAllowance { .. } => {
                exit::USR_INSUFFICIENT_FUNDS
            },
            StateError::NegativeAllowance { .. } | StateError::NegativeBalance { .. } => {
                exit::USR_ILLEGAL_ARGUMENT
            },
        };
        ExitCode { value }
    }
}

impl vstd::std_specs::convert::FromSpecImpl<&StateError> for ExitCode {
    open spec fn obeys_from_spec() -> bool {
        true
    }

    open spec fn from_spec(error: &StateError) -> Self {
        state_exit(error@)
    }
}

impl From<&TokenError> for ExitCode {
    fn from(error: &TokenError) -> (r: Self) {
        match error {
            TokenError::InvalidIdAddress { .. } => ExitCode { value: exit::USR_NOT_FOUND },
            TokenError::Serialization(_) => ExitCode { value: exit::USR_SERIALIZATION },
            TokenError::InvalidOperator(_)
            | TokenError::InvalidGranularity { .. }
            | TokenError::InvalidNegative { .. } => ExitCode { value: exit::USR_ILLEGAL_ARGUMENT },
            TokenError::StateInvariant(_) => ExitCode { value: exit::USR_ILLEGAL_STATE },
            TokenError::TokenState(e) => ExitCode::from(e),
            TokenError::ReceiverHook(e) => ExitCode::from(e),
            TokenError::Messaging(e) => ExitCode::from(e),
        }
    }
}

impl vstd::std_specs::convert::FromSpecImpl<&TokenError> for ExitCode {
    open spec fn obeys_from_spec() -> bool {
        true
    }

    open spec fn from_spec(error: &TokenError) -> Self {
        error@.exit()
    }
}

} // verus!
