//! How a message or a system call ends.
use vstd::prelude::*;

verus! {

/// Success.
pub const OK: u32 = 0;

/// A condition of the system does not hold.
pub const SYS_ASSERTION_FAILED: u32 = 10;

/// The receiver of a message does not exist and cannot be made.
pub const SYS_INVALID_RECEIVER: u32 = 5;

/// The method was called with arguments that it does not take.
pub const USR_ILLEGAL_ARGUMENT: u32 = 16;

/// Something that was asked for is not there.
pub const USR_NOT_FOUND: u32 = 17;

/// The caller may not do this.
pub const USR_FORBIDDEN: u32 = 18;

/// There is not enough of what was to be spent.
pub const USR_INSUFFICIENT_FUNDS: u32 = 19;

/// The actor's state is not what it should be.
pub const USR_ILLEGAL_STATE: u32 = 20;

/// Something could not be encoded or decoded.
pub const USR_SERIALIZATION: u32 = 21;

/// The actor has no such method.
pub const USR_UNHANDLED_MESSAGE: u32 = 22;

/// The actor failed for a reason without a code of its own.
pub const USR_UNSPECIFIED: u32 = 23;

/// A condition that the actor relies on does not hold.
pub const USR_ASSERTION_FAILED: u32 = 24;

/// The code with which an actor's invocation ends.
#[derive(Debug, Clone, Copy, PartialEq, Eq, Structural)]
pub struct ExitCode {
    /// The code as a number: zero is success, the user codes start at sixteen.
    pub value: u32,
}

impl ExitCode {
    /// A code given as a number.
    pub fn new(value: u32) -> (r: Self)
        ensures
            r.value == value,
    {
        ExitCode { value }
    }

    /// Whether the code is that of success.
    pub fn is_success(&self) -> (r: bool)
        ensures
            r == (self.value == OK),
    {
        self.value == OK
    }
}

/// How a system call fails.
#[derive(Debug, Clone, Copy, PartialEq, Eq, Structural)]
pub enum ErrorNumber {
    /// A call with arguments that it does not take.
    IllegalArgument,
    /// A call that is not allowed in this state.
    IllegalOperation,
    /// A limit was passed.
    LimitExceeded,
    /// A condition of the system does not hold.
    AssertionFailed,
    /// There are not enough funds.
    InsufficientFunds,
    /// Something was not found.
    NotFound,
    /// A handle to a block is not open.
    InvalidHandle,
    /// An identifier of a block is malformed or of a kind that is not allowed.
    IllegalCid,
    /// A block is of a kind that is not allowed.
    IllegalCodec,
    /// A block is not what its kind says.
    Serialization,
    /// The caller may not do this.
    Forbidden,
    /// A result does not fit.
    BufferTooSmall,
    /// The actor may only read.
    ReadOnly,
}

} // verus!
