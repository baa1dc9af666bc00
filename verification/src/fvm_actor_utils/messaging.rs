//! Messages to other actors.
use vstd::prelude::*;

use crate::address::{Address, AddressView};
use crate::amount::TokenAmount;
use crate::bytes;
use crate::bytes::{EncodingError, IpldBlock};
use crate::exit;
use crate::exit::{ErrorNumber, ExitCode};
use crate::fvm_actor_utils::syscalls::{Message, Messages, MethodNum, Response};

verus! {

/// This method number comes from taking the name as "Receive" and applying
/// the transformation described in [FRC-0042](https://github.com/filecoin-project/FIPs/blob/master/FRCs/frc-0042.md)
pub const RECEIVER_HOOK_METHOD_NUM: u64 = 3726118371;

/// Why a message could not be sent.
#[derive(Debug, PartialEq, Eq)]
pub enum MessagingError {
    /// The system call failed.
    Syscall(ErrorNumber),
    /// The address does not stand for an actor.
    AddressNotResolved(Address),
    /// No account could be made at the address.
    AddressNotInitialized(Address),
    /// The parameters could not be encoded.
    Ipld(EncodingError),
}

/// Why a message could not be sent, as a value.
pub enum MessagingFault {
    /// The system call failed.
    Syscall(ErrorNumber),
    /// The address does not stand for an actor.
    AddressNotResolved(AddressView),
    /// No account could be made at the address.
    AddressNotInitialized(AddressView),
    /// The parameters could not be encoded.
    Ipld,
}

impl View for MessagingError {
    type V = MessagingFault;

    open spec fn view(&self) -> MessagingFault {
        match *self {
            MessagingError::Syscall(e) => MessagingFault::Syscall(e),
            MessagingError::AddressNotResolved(a) => MessagingFault::AddressNotResolved(a@),
            MessagingError::AddressNotInitialized(a) => MessagingFault::AddressNotInitialized(a@),
            MessagingError::Ipld(_) => MessagingFault::Ipld,
        }
    }
}

/// The exit code for a system call that failed.
pub open spec fn syscall_exit(e: ErrorNumber) -> u32 {
    match e {
        ErrorNumber::IllegalArgument => exit::USR_ILLEGAL_ARGUMENT,
        ErrorNumber::Forbidden => exit::USR_FORBIDDEN,
        ErrorNumber::IllegalOperation => exit::USR_FORBIDDEN,
        ErrorNumber::AssertionFailed => exit::USR_ASSERTION_FAILED,
        ErrorNumber::InsufficientFunds => exit::USR_INSUFFICIENT_FUNDS,
        ErrorNumber::IllegalCid => exit::USR_NOT_FOUND,
        ErrorNumber::NotFound => exit::USR_NOT_FOUND,
        ErrorNumber::InvalidHandle => exit::USR_NOT_FOUND,
        ErrorNumber::Serialization => exit::USR_SERIALIZATION,
        ErrorNumber::IllegalCodec => exit::USR_SERIALIZATION,
        _ => exit::USR_UNSPECIFIED,
    }
}

impl MessagingFault {
    /// The exit code for a message that could not be sent.
    pub open spec fn exit(self) -> ExitCode {
        let value = match self {
            MessagingFault::Syscall(e) => syscall_exit(e),
            MessagingFault::AddressNotResolved(_) => exit::USR_NOT_FOUND,
            MessagingFault::AddressNotInitialized(_) => exit::USR_NOT_FOUND,
            MessagingFault::Ipld => exit::USR_SERIALIZATION,
        };
        ExitCode { value }
    }
}

impl From<&MessagingError> for ExitCode {
    fn from(error: &MessagingError) -> (r: Self) {
        let value: u32 = match error {
            MessagingError::Syscall(e) => match e {
                ErrorNumber::IllegalArgument => exit::USR_ILLEGAL_ARGUMENT,
                ErrorNumber::Forbidden | ErrorNumber::IllegalOperation => exit::USR_FORBIDDEN,
                ErrorNumber::AssertionFailed => exit::USR_ASSERTION_FAILED,
                ErrorNumber::InsufficientFunds => exit::USR_INSUFFICIENT_FUNDS,
                ErrorNumber::IllegalCid | ErrorNumber::NotFound | ErrorNumber::InvalidHandle => {
                    exit::USR_NOT_FOUND
                },
                ErrorNumber::Serialization | ErrorNumber::IllegalCodec => exit::USR_SERIALIZATION,
                _ => exit::USR_UNSPECIFIED,
            },
            MessagingError::AddressNotResolved(_) | MessagingError::AddressNotInitialized(_) => {
                exit::USR_NOT_FOUND
            },
            MessagingError::Ipld(_) => exit::USR_SERIALIZATION,
        };
        ExitCode { value }
    }
}

impl vstd::std_specs::convert::FromSpecImpl<&MessagingError> for ExitCode {
    open spec fn obeys_from_spec() -> bool {
        true
    }

    open spec fn from_spec(error: &MessagingError) -> Self {
        error@.exit()
    }
}

/// An abstraction used to send messages to other actors
pub trait Messaging {
    /// The messages that were handed over so far, whatever became of them.
    spec fn handed_over(&self) -> Messages;

    /// Whether sending a message can turn an earlier value of the service into this one.
    spec fn follows(&self, before: &Self) -> bool;

    /// Sends a message to an actor
    fn send(
        &mut self,
        to: &Address,
        method: MethodNum,
        params: Option<IpldBlock>,
        value: TokenAmount,
    ) -> (r: Result<Response, MessagingError>)
        ensures
            final(self).handed_over() == old(self).handed_over().push(
                (Message { to: to@, method, params: bytes::block_view(params), value: value@ }),
            ),
            final(self).follows(old(self)),
    ;
}

} // verus!
