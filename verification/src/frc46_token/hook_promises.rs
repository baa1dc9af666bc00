//! What is told to receivers of tokens, what becomes of their answers, and how failures end.
use vstd::prelude::*;

use crate::address::Address;
use crate::bytes::{Cid, RawBytes, CBOR};
use crate::exit;
use crate::exit::{ExitCode, OK};
use crate::frc46_token::error::TokenError;
use crate::frc46_token::receiver::{HookError, ReceiverData, ReceiverHook};
use crate::frc46_token::state::StateError;
use crate::frc46_token::token;
use crate::frc46_token::token::Token;
use crate::frc46_token::types::{MintIntermediate, TransferFromIntermediate, TransferIntermediate};
use crate::fvm_actor_utils::messaging::{MessagingError, RECEIVER_HOOK_METHOD_NUM};
use crate::fvm_actor_utils::receiver::{
    received_cbor, universal_cbor, FRC46TokenReceived, ReceiverHookError, RecipientData,
    FRC46_TOKEN_TYPE,
};
use crate::fvm_actor_utils::syscalls::{Message, Response, Syscalls};
use crate::fvm_actor_utils::util::ActorRuntime;
use crate::store;

verus! {

/// What a receiver is told as bytes: whose the tokens were, whose they are, who moved them, how many
/// there are, and the data of the operator and of the token.
pub open spec fn told_bytes(params: FRC46TokenReceived) -> Seq<u8> {
    received_cbor(
        params.from,
        params.to,
        params.operator,
        params.amount@,
        params.operator_data@,
        params.token_data@,
    )
}

/// Calling a hook that watches the root hands one message over, to the receiver, without funds, with
/// what the receiver is told. A hook is called once: the second call sends nothing and says so.
pub proof fn a_hook_is_called_once<S: Syscalls, T: ReceiverData>(
    hook: &mut ReceiverHook<T>,
    runtime: &mut ActorRuntime<S>,
    r: Result<T, HookError>,
)
    requires
        old(hook).ready(),
        call_ensures(ReceiverHook::<T>::call::<S>, (hook, runtime), r),
    ensures
        final(hook).called,
        final(runtime).blockstore == old(runtime).blockstore,
        old(hook).called ==> r is Err && r->Err_0 is AlreadyCalled && *final(runtime)
            == *old(runtime),
        !old(hook).called && store::storable(old(hook).params.amount@) ==> final(runtime).syscalls.sent() == old(runtime).syscalls.sent().push(
            Message {
                to: old(hook).address@,
                method: RECEIVER_HOOK_METHOD_NUM,
                params: Some(
                    (CBOR, universal_cbor(FRC46_TOKEN_TYPE, told_bytes(old(hook).params))),
                ),
                value: 0,
            },
        ),
        !old(hook).called && !store::storable(old(hook).params.amount@) ==> r is Err
            && *final(runtime) == *old(runtime),
{
}

/// A hook settles by the answer and the roots: a success gives the result with the receiver's data in
/// it, and with the new root just where the root changed; a failure of the receiver gives whose tokens,
/// how many and its exit code; a message that was not sent gives its error.
pub proof fn a_hook_settles_by_the_answer<T: ReceiverData>(
    hook: &mut ReceiverHook<T>,
    response: Result<Response, MessagingError>,
    before: Cid,
    after: Cid,
    r: Result<T, HookError>,
)
    requires
        old(hook).result_data is Some,
        call_ensures(ReceiverHook::<T>::settle, (hook, response, before, after), r),
    ensures
        r is Ok == (response is Ok && response->Ok_0.exit_code.value == OK),
        r is Ok && before@ == after@ ==> old(hook).result_data->0.completed_by(
            response->Ok_0.return_data@,
            None,
            &r->Ok_0,
        ),
        r is Ok && before@ != after@ ==> old(hook).result_data->0.completed_by(
            response->Ok_0.return_data@,
            Some(after@),
            &r->Ok_0,
        ),
        response is Err ==> r->Err_0 is Messaging && r->Err_0->Messaging_0 == response->Err_0,
        response is Ok && response->Ok_0.exit_code.value != OK ==> {
            &&& r->Err_0 is Aborted
            &&& r->Err_0->Aborted_from == old(hook).params.from
            &&& r->Err_0->Aborted_to == old(hook).params.to
            &&& r->Err_0->Aborted_operator == old(hook).params.operator
            &&& r->Err_0->Aborted_amount@ == old(hook).params.amount@
            &&& r->Err_0->Aborted_exit_code == response->Ok_0.exit_code
        },
        r is Ok ==> final(hook).result_data is None,
        r is Err ==> final(hook).result_data == old(hook).result_data,
{
}

/// Telling a receiver hands one message over, to the receiver, without funds, with what the receiver is
/// told. The state and the store stay.
pub proof fn a_receiver_is_told<'st, S: Syscalls>(
    tok: &mut Token<'st, S>,
    receiver: &Address,
    params: FRC46TokenReceived,
    r: Result<(), TokenError>,
)
    requires
        call_ensures(Token::<'st, S>::call_receiver_hook, (tok, receiver, params), r),
    ensures
        *final(tok).state == *old(tok).state,
        final(tok).runtime.blockstore == old(tok).runtime.blockstore,
        store::storable(params.amount@) ==> final(tok).runtime.syscalls.sent() == old(tok).runtime.syscalls.sent().push(
            Message {
                to: receiver@,
                method: RECEIVER_HOOK_METHOD_NUM,
                params: Some((CBOR, told_bytes(params))),
                value: 0,
            },
        ),
        !store::storable(params.amount@) ==> r is Err && final(tok).runtime == old(tok).runtime,
{
}

/// What telling a receiver comes to is decided by the answer alone: a success is one, a failure of the
/// receiver gives its exit code, its data and what it was told, and a message that was not sent gives
/// its error.
pub proof fn telling_ends_as_the_receiver_says(
    receiver: &Address,
    payload: RawBytes,
    answer: Result<Response, MessagingError>,
    r: Result<(), TokenError>,
)
    requires
        call_ensures(token::receiver_outcome, (receiver, payload, answer), r),
    ensures
        r is Ok == (answer is Ok && answer->Ok_0.exit_code.value == OK),
        answer is Err ==> r->Err_0 is Messaging && r->Err_0->Messaging_0 == answer->Err_0,
        answer is Ok && answer->Ok_0.exit_code.value != OK ==> {
            let e = r->Err_0->ReceiverHook_0;
            &&& r->Err_0 is ReceiverHook
            &&& e is Receiver
            &&& e->Receiver_address@ == receiver@
            &&& e->Receiver_exit_code == answer->Ok_0.exit_code
            &&& e->Receiver_return_data@ == answer->Ok_0.return_data@
            &&& e->Receiver_receiver_params.type_ == FRC46_TOKEN_TYPE
            &&& e->Receiver_receiver_params.payload@ == payload@
        },
{
}

/// A receiver's answer goes into the result as its data, and leaves whom the result names.
pub proof fn answers_are_kept(
    minting: &mut MintIntermediate,
    sending: &mut TransferIntermediate,
    moving: &mut TransferFromIntermediate,
    data: RawBytes,
)
    requires
        call_ensures(
            <MintIntermediate as RecipientData>::set_recipient_data,
            (minting, data),
            (),
        ),
        call_ensures(
            <TransferIntermediate as RecipientData>::set_recipient_data,
            (sending, data),
            (),
        ),
        call_ensures(
            <TransferFromIntermediate as RecipientData>::set_recipient_data,
            (moving, data),
            (),
        ),
    ensures
        final(minting).recipient@ == old(minting).recipient@,
        final(minting).recipient_data@ == data@,
        final(sending).from@ == old(sending).from@,
        final(sending).to@ == old(sending).to@,
        final(sending).recipient_data@ == data@,
        final(moving).operator@ == old(moving).operator@,
        final(moving).from@ == old(moving).from@,
        final(moving).to@ == old(moving).to@,
        final(moving).recipient_data@ == data@,
{
}

/// No failure of a token ends as a success, unless a receiver itself said so. Failures of the state end
/// as they do on their own, as do those of messages and hooks. Who has not enough, of a balance or an
/// allowance, is told that funds are missing; who gives an amount or an operator that cannot be, that
/// the argument is wrong.
pub proof fn a_failure_is_no_success(
    e: TokenError,
    state: StateError,
    message: MessagingError,
    hook: ReceiverHookError,
    r: ExitCode,
    a: ExitCode,
    b: ExitCode,
    c: ExitCode,
)
    requires
        call_ensures(<ExitCode as From<&TokenError>>::from, (&e,), r),
        call_ensures(<ExitCode as From<&StateError>>::from, (&state,), a),
        call_ensures(<ExitCode as From<&MessagingError>>::from, (&message,), b),
        call_ensures(<ExitCode as From<&ReceiverHookError>>::from, (&hook,), c),
    ensures
        a.value >= exit::USR_ILLEGAL_ARGUMENT,
        !(e is ReceiverHook) ==> r.value >= exit::USR_ILLEGAL_ARGUMENT,
        e is TokenState && e->TokenState_0 == state ==> r == a,
        e is Messaging && e->Messaging_0 == message ==> r == b,
        e is ReceiverHook && e->ReceiverHook_0 == hook ==> r == c,
        state is InsufficientBalance || state is InsufficientAllowance ==> a.value
            == exit::USR_INSUFFICIENT_FUNDS,
        state is NegativeAllowance || state is NegativeBalance ==> a.value
            == exit::USR_ILLEGAL_ARGUMENT,
        state is NegativeTotalSupply || state is MissingState ==> a.value == exit::USR_ILLEGAL_STATE,
        state is IpldHamt || state is Serialization ==> a.value == exit::USR_SERIALIZATION,
        e is InvalidNegative || e is InvalidGranularity || e is InvalidOperator ==> r.value
            == exit::USR_ILLEGAL_ARGUMENT,
        e is StateInvariant ==> r.value == exit::USR_ILLEGAL_STATE,
        e is Serialization ==> r.value == exit::USR_SERIALIZATION,
        e is InvalidIdAddress ==> r.value == exit::USR_NOT_FOUND,
{
}

} // verus!
