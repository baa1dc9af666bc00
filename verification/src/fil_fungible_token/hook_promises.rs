//! What receivers of tokens are told, and what becomes of their answers.
use vstd::prelude::*;

use crate::address::{Address, AddressView};
use crate::amount::TokenAmount;
use crate::bytes::{ActorID, CBOR};
use crate::exit;
use crate::exit::{ExitCode, OK};
use crate::fil_fungible_token::error::TokenError;
use crate::fil_fungible_token::method;
use crate::fil_fungible_token::method::{
    token_received_cbor, FakeMethodCaller, FvmMethodCaller, HookCall, MethodCallError, MethodCaller,
};
use crate::fil_fungible_token::receiver::{hook_outcome, ReceiverHook, TokensReceivedParams};
use crate::fil_fungible_token::state::StateError;
use crate::fil_fungible_token::token::Token;
use crate::fvm_actor_utils::messaging::{MessagingError, RECEIVER_HOOK_METHOD_NUM};
use crate::fvm_actor_utils::receiver::received_cbor;
use crate::fvm_actor_utils::syscalls::{Message, Response, Syscalls};
use crate::store;

verus! {

/// A hook has the address and what the receiver is told, and was not called yet.
pub proof fn a_hook_has_what_the_receiver_is_told(
    address: Address,
    params: TokensReceivedParams,
    r: ReceiverHook,
)
    requires
        call_ensures(ReceiverHook::new, (address, params), r),
    ensures
        r.address@ == address@,
        r.params == params,
        !r.called,
{
}

/// Telling a receiver hands one message over, to the receiver, without funds, with the six things that
/// the receiver is told, each in its place. The state and the store stay.
pub proof fn a_receiver_is_told<'st, S: Syscalls>(
    tok: &mut Token<'st, S>,
    receiver: &Address,
    params: TokensReceivedParams,
    r: Result<(), TokenError>,
)
    requires
        call_ensures(Token::<'st, S>::call_receiver_hook, (tok, receiver, params), r),
    ensures
        *final(tok).state == *old(tok).state,
        final(tok).runtime.blockstore == old(tok).runtime.blockstore,
        store::storable(params.amount@) ==> final(tok).runtime.syscalls.sent()
            == old(tok).runtime.syscalls.sent().push(
            Message {
                to: receiver@,
                method: RECEIVER_HOOK_METHOD_NUM,
                params: Some(
                    (
                        CBOR,
                        received_cbor(
                            params.from,
                            params.to,
                            params.operator,
                            params.amount@,
                            params.operator_data@,
                            params.token_data@,
                        ),
                    ),
                ),
                value: 0,
            },
        ),
        !store::storable(params.amount@) ==> r is Err && final(tok).runtime == old(tok).runtime,
{
}

/// What telling a receiver comes to is decided by the answer alone: a success is one, a failure of the
/// receiver gives whose tokens, how many and its exit code, and a message that was not sent gives its
/// error.
pub proof fn telling_ends_as_the_receiver_says(
    params: TokensReceivedParams,
    answer: Result<Response, MessagingError>,
    r: Result<(), TokenError>,
)
    requires
        call_ensures(hook_outcome, (&params, answer), r),
    ensures
        r is Ok == (answer is Ok && answer->Ok_0.exit_code.value == OK),
        answer is Err ==> r->Err_0 is Messaging && r->Err_0->Messaging_0 == answer->Err_0,
        answer is Ok && answer->Ok_0.exit_code.value != OK ==> {
            &&& r->Err_0 is ReceiverHook
            &&& r->Err_0->ReceiverHook_from == params.from
            &&& r->Err_0->ReceiverHook_to == params.to
            &&& r->Err_0->ReceiverHook_operator == params.operator
            &&& r->Err_0->ReceiverHook_amount@ == params.amount@
            &&& r->Err_0->ReceiverHook_exit_code == answer->Ok_0.exit_code
        },
{
}

/// The message that calls the hook of a receiver by its own number goes to the receiver, without funds,
/// and carries the sender, the amount and the data.
pub proof fn a_hook_call_is_for_the_receiver(
    caller: FvmMethodCaller,
    from: ActorID,
    to: ActorID,
    value: &TokenAmount,
    data: &Vec<u8>,
    r: Result<HookCall, MethodCallError>,
)
    requires
        call_ensures(FvmMethodCaller::hook_call, (&caller, from, to, value, data), r),
    ensures
        r is Ok == store::storable(value@),
        r is Ok ==> {
            &&& r->Ok_0.to@ == AddressView::ID(to)
            &&& r->Ok_0.method == method::METHOD_NUM
            &&& r->Ok_0.params.codec == CBOR
            &&& r->Ok_0.params.data@ == token_received_cbor(from, value@, data@)
            &&& r->Ok_0.value@ == 0
        },
{
}

/// The caller that only pretends succeeds where there is no data and fails where there is some, and hands
/// the data back.
pub proof fn a_pretended_call_fails_on_data(
    caller: FakeMethodCaller,
    from: ActorID,
    to: ActorID,
    value: &TokenAmount,
    data: &Vec<u8>,
    r: Result<Response, MethodCallError>,
)
    requires
        call_ensures(
            <FakeMethodCaller as MethodCaller>::call_receiver_hook,
            (&caller, from, to, value, data),
            r,
        ),
    ensures
        r is Ok,
        r->Ok_0.exit_code.value == OK <==> data@.len() == 0,
        r->Ok_0.return_data@ == data@,
{
}

/// No failure of a token ends as a success, unless a receiver itself said so, whose code is passed on.
/// Failures of the state end as they do on their own, as do those of messages. Who gives an amount or an
/// operator that cannot be is told that the argument is wrong.
pub proof fn a_failure_is_no_success(
    e: TokenError,
    state: StateError,
    message: MessagingError,
    r: ExitCode,
    a: ExitCode,
    b: ExitCode,
)
    requires
        call_ensures(<ExitCode as From<&TokenError>>::from, (&e,), r),
        call_ensures(<ExitCode as From<&StateError>>::from, (&state,), a),
        call_ensures(<ExitCode as From<&MessagingError>>::from, (&message,), b),
    ensures
        e is ReceiverHook ==> r == e->ReceiverHook_exit_code,
        !(e is ReceiverHook) ==> r.value >= exit::USR_ILLEGAL_ARGUMENT,
        e is TokenState && e->TokenState_0 == state ==> r == a,
        e is Messaging && e->Messaging_0 == message ==> r == b,
        e is InvalidNegative || e is InvalidGranularity || e is InvalidOperator ==> r.value
            == exit::USR_ILLEGAL_ARGUMENT,
        e is ReceiverHookAlreadyCalled ==> r.value == exit::USR_ASSERTION_FAILED,
        e is StateInvariant ==> r.value == exit::USR_ILLEGAL_STATE,
        e is Serialization ==> r.value == exit::USR_SERIALIZATION,
        e is InvalidIdAddress ==> r.value == exit::USR_NOT_FOUND,
{
}

} // verus!
