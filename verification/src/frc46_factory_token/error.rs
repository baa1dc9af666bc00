//! Why the factory token's actor fails.
use vstd::prelude::*;

use crate::bytes::EncodingError;
use crate::exit;
use crate::exit::{ErrorNumber, ExitCode};
use crate::frc46_token::error;
use crate::frc46_token::error::TokenError;
use crate::frc46_token::state::StateError;
use crate::fvm_actor_utils::messaging;
use crate::fvm_actor_utils::messaging::MessagingError;
use crate::fvm_actor_utils::receiver::ReceiverHookError;
use crate::fvm_actor_utils::syscalls::NoStateError;

verus! {

/// Errors that can occur during the execution of this actor
#[derive(Debug)]
pub enum RuntimeError {
    /// Error from the underlying token library
    Token(TokenError),
    /// Error from the underlying universal receiver hook library
    Receiver(ReceiverHookError),
    /// Error from serialising data to RawBytes
    Encoding(EncodingError),
    /// Error from the blockstore
    Blockstore(ErrorNumber),
    /// The actor has no state
    NoState(NoStateError),
    /// deserialisation error when loading state
    Deserialization(String),
    /// serialisation error when saving state
    Serialization(String),
    /// Error from the underlying state
    State(StateError),
    /// Error from messaging other actors
    Messaging(MessagingError),
    /// The caller may not do this
    AddressNotAuthorized,
    /// minting has been permanently disabled
    MintingDisabled,
}

impl RuntimeError {
    /// The exit code for a failure.
    pub open spec fn exit(&self) -> ExitCode {
        match *self {
            RuntimeError::Token(e) => e@.exit(),
            RuntimeError::Receiver(e) => e@.exit(),
            RuntimeError::Encoding(_) => ExitCode { value: exit::USR_SERIALIZATION },
            RuntimeError::Blockstore(e) => ExitCode { value: messaging::syscall_exit(e) },
            RuntimeError::NoState(_) => ExitCode { value: exit::USR_NOT_FOUND },
            RuntimeError::Deserialization(_) => ExitCode { value: exit::USR_SERIALIZATION },
            RuntimeError::Serialization(_) => ExitCode { value: exit::USR_SERIALIZATION },
            RuntimeError::State(e) => error::state_exit(e@),
            RuntimeError::Messaging(e) => e@.exit(),
            RuntimeError::AddressNotAuthorized => ExitCode { value: exit::USR_FORBIDDEN },
            RuntimeError::MintingDisabled => ExitCode { value: exit::USR_FORBIDDEN },
        }
    }
}

impl From<&RuntimeError> for ExitCode {
    fn from(error: &RuntimeError) -> (r: Self) {
        match error {
            RuntimeError::Token(e) => ExitCode::from(e),
            RuntimeError::Receiver(e) => ExitCode::from(e),
            RuntimeError::Encoding(_) => ExitCode { value: exit::USR_SERIALIZATION },
            RuntimeError::Blockstore(e) => ExitCode::from(&MessagingError::Syscall(*e)),
            RuntimeError::NoState(_) => ExitCode { value: exit::USR_NOT_FOUND },
            RuntimeError::Deserialization(_) | RuntimeError::Serialization(_) => ExitCode {
                value: exit::USR_SERIALIZATION,
            },
            RuntimeError::State(e) => ExitCode::from(e),
            RuntimeError::Messaging(e) => ExitCode::from(e),
            RuntimeError::AddressNotAuthorized | RuntimeError::MintingDisabled => ExitCode {
                value: exit::USR_FORBIDDEN,
            },
        }
    }
}

impl vstd::std_specs::convert::FromSpecImpl<&RuntimeError> for ExitCode {
    open spec fn obeys_from_spec() -> bool {
        true
    }

    open spec fn from_spec(error: &RuntimeError) -> Self {
        error.exit()
    }
}

} // verus!
