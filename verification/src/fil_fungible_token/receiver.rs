//! The hook by which an actor learns of tokens that it receives.
use vstd::prelude::*;

use crate::address::{Address, AddressView};
use crate::amount::TokenAmount;
use crate::bytes;
use crate::bytes::{IpldBlock, CBOR};
use crate::exit::OK;
use crate::fil_fungible_token::error::{TokenError, TokenFault};
use crate::fvm_actor_utils::messaging::{Messaging, MessagingError, RECEIVER_HOOK_METHOD_NUM};
use crate::fvm_actor_utils::receiver::{encode_received, Received};
use crate::fvm_actor_utils::syscalls::{Message, Response};
use crate::store;

pub use crate::fvm_actor_utils::receiver::FRC46TokenReceived as TokensReceivedParams;

verus! {

/// Standard interface for an actor that wishes to receive FRC-XXX tokens
pub trait FRC46TokenReceiver {
    /// Invoked by a token actor during pending transfer or mint to the receiver's address
    ///
    /// Within this hook, the token actor has optimistically persisted the new balance so
    /// the receiving actor can immediately utilise the received funds. If the receiver wishes to
    /// reject the incoming transfer, this function should abort which will cause the token actor
    /// to rollback the transaction.
    fn tokens_received(params: TokensReceivedParams);
}

/// Standard interface for a contract that wishes to receive tokens
pub trait TokenReceiver {
    /// Invoked when tokens arrive
    fn token_received(from: Address, amount: TokenAmount, data: &[u8]) -> Result<u32, String>;
}

/// Implements a guarded call to a token receiver hook
///
/// Mint and Transfer operations will return this so that state can be updated and saved
/// before making the call into the receiver hook.
///
/// This also tracks whether the call has been made or not.
#[derive(Debug)]
pub struct ReceiverHook {
    /// The receiver.
    pub address: Address,
    /// What the receiver is told.
    pub params: TokensReceivedParams,
    /// Whether the call was made.
    pub called: bool,
}

/// The message that tells a receiver of tokens.
pub open spec fn hook_message(address: AddressView, params: Received) -> Message {
    Message {
        to: address,
        method: RECEIVER_HOOK_METHOD_NUM,
        params: Some((CBOR, params.cbor())),
        value: 0,
    }
}

/// Why a receiver that aborted did not take tokens.
pub open spec fn aborted(params: Received, exit_code: crate::exit::ExitCode) -> TokenFault {
    TokenFault::ReceiverHook {
        from: params.from,
        to: params.to,
        operator: params.operator,
        amount: params.amount,
        exit_code,
    }
}

/// Whether a result is what calling a receiver returns for an answer to the message: nothing for a
/// success; a failure of the message or of the receiver is reported.
pub open spec fn told(
    params: Received,
    response: Result<Response, MessagingError>,
    r: Result<(), TokenError>,
) -> bool {
    match response {
        Ok(answer) => if answer.exit_code.value == OK {
            r is Ok
        } else {
            r is Err && r->Err_0@ == aborted(params, answer.exit_code)
        },
        Err(e) => r == Err::<(), TokenError>(TokenError::Messaging(e)),
    }
}

/// What calling a receiver returns for each answer to the message
pub fn hook_outcome(params: &TokensReceivedParams, response: Result<Response, MessagingError>) -> (r:
    Result<(), TokenError>)
    ensures
        told(params@, response, r),
{
    match response {
        Ok(answer) => if answer.exit_code.is_success() {
            Ok(())
        } else {
            Err(
                TokenError::ReceiverHook {
                    from: params.from,
                    to: params.to,
                    operator: params.operator,
                    amount: params.amount.clone(),
                    exit_code: answer.exit_code,
                },
            )
        },
        Err(e) => Err(TokenError::Messaging(e)),
    }
}

impl ReceiverHook {
    /// Construct a new ReceiverHook call
    pub fn new(address: Address, params: TokensReceivedParams) -> (r: Self)
        ensures
            r.address == address,
            r.params == params,
            !r.called,
    {
        ReceiverHook { address, params, called: false }
    }

    /// Call the receiver hook and return the result
    ///
    /// Returns an error if already called
    pub fn call<M: Messaging>(&mut self, msg: &mut M) -> (r: Result<(), TokenError>)
        ensures
            final(self).called,
            final(self).address == old(self).address,
            final(self).params == old(self).params,
            old(self).called ==> r is Err && r->Err_0 is ReceiverHookAlreadyCalled
                && *final(msg) == *old(msg),
            !old(self).called && !store::storable(old(self).params.amount@) ==> r is Err
                && r->Err_0 is Serialization && *final(msg) == *old(msg),
            !old(self).called && store::storable(old(self).params.amount@) ==> {
                &&& final(msg).handed_over() == old(msg).handed_over().push(
                    hook_message(old(self).address@, old(self).params@),
                )
            },
            !old(self).called && store::storable(old(self).params.amount@) ==> exists|
                m: &mut M,
                block: Option<IpldBlock>,
                value: TokenAmount,
                answer: Result<Response, MessagingError>,
            |
                {
                    &&& *m == *old(msg)
                    &&& *final(m) == *final(msg)
                    &&& bytes::block_view(block) == hook_message(
                        old(self).address@,
                        old(self).params@,
                    ).params
                    &&& value@ == 0
                    &&& #[trigger] call_ensures(
                        M::send,
                        (m, &old(self).address, RECEIVER_HOOK_METHOD_NUM, block, value),
                        answer,
                    )
                    &&& told(old(self).params@, answer, r)
                },
    {
        if self.called {
            return Err(TokenError::ReceiverHookAlreadyCalled);
        }
        self.called = true;
        let data = match encode_received(&self.params) {
            Ok(data) => data,
            Err(e) => return Err(TokenError::Serialization(e)),
        };
        let receipt = msg.send(
            &self.address,
            RECEIVER_HOOK_METHOD_NUM,
            Some(IpldBlock { codec: CBOR, data }),
            TokenAmount::zero(),
        );
        hook_outcome(&self.params, receipt)
    }

    /// Whether the hook may be dropped: one that was never called may not
    pub fn check_called(&self) -> (r: bool)
        ensures
            r == self.called,
    {
        self.called
    }
}

} // verus!
