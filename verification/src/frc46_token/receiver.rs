//! Hooks that tell the receiver of tokens, and watch the root of the actor's state meanwhile.
use vstd::prelude::*;

use crate::address::Address;
use crate::amount::TokenAmount;
use crate::bytes;
use crate::bytes::{ActorID, Bytes, Cid, EncodingError, IpldBlock, RawBytes, CBOR};
use crate::exit::{ErrorNumber, ExitCode, OK};
use crate::fvm_actor_utils::messaging::{MessagingError, RECEIVER_HOOK_METHOD_NUM};
use crate::fvm_actor_utils::receiver;
use crate::fvm_actor_utils::receiver::{
    encode_received, encode_universal, FRC46TokenReceived, ReceiverHookError, RecipientData,
    UniversalReceiverParams, FRC46_TOKEN_TYPE,
};
use crate::fvm_actor_utils::syscalls::{Message, Response, RootView, Syscalls};
use crate::fvm_actor_utils::util;
use crate::fvm_actor_utils::util::ActorRuntime;
use crate::store;

verus! {

/// Makes hooks for FRC-0046 tokens
pub trait FRC46ReceiverHook<T: RecipientData>: Sized {
    /// Whether this is a hook, not called yet, for the receiver at an address.
    spec fn tells(&self, address: Address, frc46_params: FRC46TokenReceived, result_data: T) -> bool;

    /// Construct a new FRC46 ReceiverHook call
    fn new_frc46(address: Address, frc46_params: FRC46TokenReceived, result_data: T) -> (r: Result<
        Self,
        ReceiverHookError,
    >)
        ensures
            r is Ok == store::storable(frc46_params.amount@),
            r is Err ==> r->Err_0 is IpldEncoding,
            r is Ok ==> r->Ok_0.tells(address, frc46_params, result_data),
    ;
}

impl<T: RecipientData> FRC46ReceiverHook<T> for receiver::ReceiverHook<T> {
    open spec fn tells(&self, address: Address, frc46_params: FRC46TokenReceived, result_data: T) -> bool {
        &&& self.address == address
        &&& self.token_type == FRC46_TOKEN_TYPE
        &&& self.token_params@ == frc46_params@.cbor()
        &&& !self.called
        &&& self.result_data == Some(result_data)
    }

    fn new_frc46(address: Address, frc46_params: FRC46TokenReceived, result_data: T) -> (r: Result<
        Self,
        ReceiverHookError,
    >) {
        receiver::ReceiverHook::new_frc46(address, frc46_params, result_data)
    }
}

/// What is returned to the sender of tokens, with the receiver's answer and the root of the state
pub trait ReceiverData: Sized {
    /// Whether a value is this one with the receiver's answer and the new root in it.
    spec fn completed_by(&self, data: Bytes, new_root: RootView, after: &Self) -> bool;

    /// Whether a value is this one with the receiver's answer in it.
    spec fn answered_by(&self, data: Bytes, after: &Self) -> bool;

    /// The new root that it has, if it has one.
    spec fn root_kept(&self) -> RootView;

    /// Puts the receiver's answer in
    fn set_recipient_data(&mut self, data: RawBytes)
        ensures
            old(self).answered_by(data@, final(self)),
    ;

    /// Puts the new root in
    fn set_new_root(&mut self, new_root: Option<Cid>)
        ensures
            forall|first: Self, data: Seq<u8>| #[trigger]
                first.answered_by(data, old(self)) ==> first.completed_by(
                    data,
                    root_view(new_root),
                    final(self),
                ),
    ;

    /// The new root, if the root changed
    fn new_root(&self) -> (r: Option<Cid>)
        ensures
            root_view(r) == self.root_kept(),
    ;
}

/// A root as a value.
pub open spec fn root_view(root: Option<Cid>) -> Option<Seq<u8>> {
    match root {
        Some(cid) => Some(cid@),
        None => None,
    }
}

/// Why a hook failed.
#[derive(Debug, PartialEq, Eq)]
pub enum HookError {
    /// The hook was called before.
    AlreadyCalled,
    /// The parameters could not be encoded.
    Serialization(EncodingError),
    /// The message could not be sent.
    Messaging(MessagingError),
    /// The receiver aborted.
    Aborted {
        /// Whose tokens.
        from: ActorID,
        /// The receiver.
        to: ActorID,
        /// Who initiated it.
        operator: ActorID,
        /// How many tokens.
        amount: TokenAmount,
        /// How the receiver ended.
        exit_code: ExitCode,
    },
}

/// Implements a guarded call to a token receiver hook
///
/// Mint and Transfer operations will return this so that state can be updated and saved
/// before making the call into the receiver hook.
///
/// This also tracks whether the call has been made or not.
#[derive(Debug)]
pub struct ReceiverHook<T: ReceiverData> {
    /// The receiver.
    pub address: Address,
    /// What the receiver is told.
    pub params: FRC46TokenReceived,
    /// Whether the call was made.
    pub called: bool,
    /// What to return when the receiver has answered.
    pub result_data: Option<T>,
}

/// The identifier that stands for no state.
pub open spec fn no_root() -> Seq<u8> {
    seq![1u8, 0u8, 0u8, 0u8]
}

/// The root of the actor's state, or the identifier that stands for none.
pub open spec fn root_of<S: Syscalls>(syscalls: S) -> Seq<u8> {
    match syscalls.state_root() {
        Some(root) => root,
        None => no_root(),
    }
}

/// The root of the actor's state, or the identifier that stands for none
fn get_root<S: Syscalls>(runtime: &ActorRuntime<S>) -> (r: Cid)
    ensures
        r@ == root_of(runtime.syscalls),
{
    match runtime.root_cid() {
        Ok(root) => root,
        Err(_) => Cid::default(),
    }
}

impl<T: ReceiverData> ReceiverHook<T> {
    /// A hook that was not called still has what to return.
    pub open spec fn ready(&self) -> bool {
        !self.called ==> self.result_data is Some
    }

    /// The message that calls the hook.
    pub open spec fn message(&self) -> Message {
        Message {
            to: self.address@,
            method: RECEIVER_HOOK_METHOD_NUM,
            params: Some((CBOR, receiver::universal_cbor(FRC46_TOKEN_TYPE, self.params@.cbor()))),
            value: 0,
        }
    }

    /// Construct a new ReceiverHook call
    pub fn new(address: Address, params: FRC46TokenReceived, result_data: T) -> (r: Self)
        ensures
            r.address == address,
            r.params == params,
            !r.called,
            r.result_data == Some(result_data),
            r.ready(),
    {
        ReceiverHook { address, params, called: false, result_data: Some(result_data) }
    }

    /// Call the receiver hook and return the result
    ///
    /// Returns
    /// - an error if already called
    /// - an error if the hook call aborted
    /// - any return data provided by the hook upon success
    pub fn call<S: Syscalls>(&mut self, runtime: &mut ActorRuntime<S>) -> (r: Result<T, HookError>)
        requires
            old(self).ready(),
        ensures
            final(self).called,
            final(self).address == old(self).address,
            final(self).params == old(self).params,
            final(runtime).blockstore == old(runtime).blockstore,
            old(self).called ==> r is Err && r->Err_0 is AlreadyCalled && *final(self) == *old(self)
                && *final(runtime) == *old(runtime),
            !old(self).called && !store::storable(old(self).params.amount@) ==> r is Err && r->Err_0
                is Serialization && *final(runtime) == *old(runtime),
            !old(self).called && store::storable(old(self).params.amount@) ==> {
                &&& final(runtime).syscalls.sent() == old(runtime).syscalls.sent().push(
                    old(self).message(),
                )
            },
            !old(self).called && store::storable(old(self).params.amount@) ==> exists|
                s: &mut S,
                block: Option<IpldBlock>,
                value: TokenAmount,
                answer: Result<Response, ErrorNumber>,
            |
                {
                    &&& *s == old(runtime).syscalls
                    &&& *final(s) == final(runtime).syscalls
                    &&& bytes::block_view(block) == old(self).message().params
                    &&& value@ == 0
                    &&& #[trigger] call_ensures(
                        S::send,
                        (s, &old(self).address, RECEIVER_HOOK_METHOD_NUM, block, value),
                        answer,
                    )
                    &&& old(self).settled(
                        util::passed_on(answer),
                        root_of(old(runtime).syscalls),
                        root_of(final(runtime).syscalls),
                        r,
                    )
                },
    {
        if self.called {
            return Err(HookError::AlreadyCalled);
        }
        self.called = true;
        let payload = match encode_received(&self.params) {
            Ok(payload) => RawBytes::new(payload),
            Err(e) => return Err(HookError::Serialization(e)),
        };
        let params = UniversalReceiverParams { type_: FRC46_TOKEN_TYPE, payload };
        let data = match encode_universal(&params) {
            Ok(data) => data,
            Err(e) => return Err(HookError::Serialization(e)),
        };
        let before_cid = get_root(runtime);
        let response = runtime.send(
            &self.address,
            RECEIVER_HOOK_METHOD_NUM,
            Some(IpldBlock { codec: CBOR, data }),
            TokenAmount::zero(),
        );
        let after_cid = get_root(runtime);
        let r = self.settle(response, before_cid, after_cid);
        assert(old(self).settled(
            response,
            root_of(old(runtime).syscalls),
            root_of(runtime.syscalls),
            r,
        ));
        r
    }

    /// Whether a result is what the call returns for an answer to the message and for the roots
    /// before and after it: a success is put into the result, with the root where it changed.
    pub open spec fn settled(
        &self,
        response: Result<Response, MessagingError>,
        before: Seq<u8>,
        after: Seq<u8>,
        r: Result<T, HookError>,
    ) -> bool {
        match response {
            Ok(answer) => if answer.exit_code.value == OK {
                r is Ok && self.result_data->0.completed_by(
                    answer.return_data@,
                    if before == after {
                        None
                    } else {
                        Some(after)
                    },
                    &r->Ok_0,
                )
            } else {
                r matches Err(HookError::Aborted { from, to, operator, amount, exit_code }) && from
                    == self.params.from && to == self.params.to && operator == self.params.operator
                    && amount@ == self.params.amount@ && exit_code == answer.exit_code
            },
            Err(e) => r == Err::<T, HookError>(HookError::Messaging(e)),
        }
    }

    /// What the call returns for each answer to the message
    pub fn settle(
        &mut self,
        response: Result<Response, MessagingError>,
        before_cid: Cid,
        after_cid: Cid,
    ) -> (r: Result<T, HookError>)
        requires
            old(self).result_data is Some,
        ensures
            final(self).called == old(self).called,
            final(self).address == old(self).address,
            final(self).params == old(self).params,
            old(self).settled(response, before_cid@, after_cid@, r),
            r is Ok ==> final(self).result_data is None,
            r is Err ==> final(self).result_data == old(self).result_data,
    {
        let answer = match response {
            Ok(answer) => answer,
            Err(e) => return Err(HookError::Messaging(e)),
        };
        if answer.exit_code.is_success() {
            let mut taken: Option<T> = None;
            std::mem::swap(&mut taken, &mut self.result_data);
            let mut result = taken.unwrap();
            result.set_recipient_data(answer.return_data);
            let new_root = if before_cid.same(&after_cid) {
                None
            } else {
                Some(after_cid)
            };
            result.set_new_root(new_root);
            Ok(result)
        } else {
            Err(
                HookError::Aborted {
                    from: self.params.from,
                    to: self.params.to,
                    operator: self.params.operator,
                    amount: self.params.amount.clone(),
                    exit_code: answer.exit_code,
                },
            )
        }
    }
}

} // verus!
