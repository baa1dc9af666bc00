//! What resolving addresses and telling receivers are for, said of what goes in and what comes out.
use vstd::prelude::*;

use crate::address::{Address, AddressView};
use crate::amount::TokenAmount;
use crate::bytes::{ActorID, Cid, IpldBlock, CBOR};
use crate::exit;
use crate::exit::{ErrorNumber, ExitCode, OK};
use crate::fvm_actor_utils::fake_syscalls::FakeSyscalls;
use crate::fvm_actor_utils::messaging::{MessagingError, RECEIVER_HOOK_METHOD_NUM};
use crate::fvm_actor_utils::receiver::{
    received_cbor, universal_cbor, FRC46TokenReceived, ReceiverHook, ReceiverHookError,
    RecipientData, UniversalReceiverParams, FRC46_TOKEN_TYPE,
};
use crate::fvm_actor_utils::syscalls::{Message, Response, Syscalls};
use crate::fvm_actor_utils::util;
use crate::fvm_actor_utils::util::{remembers, ActorError, ActorRuntime};
use crate::store;

verus! {

/// An address that stands for an actor is resolved to it; another is not resolved, and named.
pub proof fn an_address_is_resolved<S: Syscalls>(
    runtime: ActorRuntime<S>,
    address: &Address,
    r: Result<ActorID, MessagingError>,
)
    requires
        call_ensures(ActorRuntime::<S>::resolve_id, (&runtime, address), r),
    ensures
        r is Ok == runtime.syscalls.resolves(address@) is Some,
        r is Ok ==> runtime.syscalls.resolves(address@) == Some(r->Ok_0),
        r is Err ==> r->Err_0 is AddressNotResolved && r->Err_0->AddressNotResolved_0@ == address@,
{
}

/// Resolving an address that stands for an actor gives the actor and sends nothing. For another, one
/// message goes to the address, without parameters and without funds. Where that fails, its error is
/// given back. Otherwise the actor that the address then stands for is given, or the address is named as
/// one without an account. What other addresses stand for stays, and nothing is stored.
pub proof fn an_account_is_made_where_there_is_none<S: Syscalls>(
    runtime: &mut ActorRuntime<S>,
    address: &Address,
    r: Result<ActorID, MessagingError>,
)
    requires
        call_ensures(ActorRuntime::<S>::resolve_or_init, (runtime, address), r),
    ensures
        final(runtime).blockstore == old(runtime).blockstore,
        remembers(old(runtime).syscalls, final(runtime).syscalls),
        old(runtime).syscalls.resolves(address@) is Some ==> {
            &&& r is Ok
            &&& Some(r->Ok_0) == old(runtime).syscalls.resolves(address@)
            &&& final(runtime).syscalls == old(runtime).syscalls
        },
        old(runtime).syscalls.resolves(address@) is None ==> {
            &&& final(runtime).syscalls.sent() == old(runtime).syscalls.sent().push(
                Message { to: address@, method: 0, params: None, value: 0 },
            )
            &&& r is Ok ==> final(runtime).syscalls.resolves(address@) == Some(r->Ok_0)
            &&& r is Err && !(r->Err_0 is Syscall) ==> r->Err_0 is AddressNotInitialized
                && r->Err_0->AddressNotInitialized_0@ == address@
                && final(runtime).syscalls.resolves(address@) is None
        },
{
    let (sooner, later) = (old(runtime).syscalls, final(runtime).syscalls);
    if sooner.resolves(address@) is None {
        let message = util::init_message(address@);
        let answer = choose|answer: Result<Response, ErrorNumber>|
            {
                &&& #[trigger] sooner.answers(message, answer, &later)
                &&& util::initialized(answer, address@, later.resolves(address@), r)
            };
        assert(util::initialized(answer, address@, later.resolves(address@), r));
    }
}

/// Two addresses of one kind are the same where they are equal. Of different kinds, they are the same
/// where they stand for one actor. That is symmetric, and an address is the same as itself.
pub proof fn addresses_are_the_same<S: Syscalls>(
    runtime: ActorRuntime<S>,
    a: &Address,
    b: &Address,
    ab: bool,
    ba: bool,
    aa: bool,
)
    requires
        call_ensures(ActorRuntime::<S>::same_address, (&runtime, a, b), ab),
        call_ensures(ActorRuntime::<S>::same_address, (&runtime, b, a), ba),
        call_ensures(ActorRuntime::<S>::same_address, (&runtime, a, a), aa),
    ensures
        aa,
        ab == ba,
        a@ == b@ ==> ab,
        a@.protocol() == b@.protocol() && a@ != b@ ==> !ab,
        a@.protocol() != b@.protocol() ==> ab == (runtime.syscalls.resolves(a@) is Some
            && runtime.syscalls.resolves(a@) == runtime.syscalls.resolves(b@)),
{
}

/// A hook for tokens has the six things that the receiver is told, each in its place.
pub proof fn a_hook_has_what_the_receiver_is_told<T: RecipientData>(
    address: Address,
    params: FRC46TokenReceived,
    result: T,
    r: Result<ReceiverHook<T>, ReceiverHookError>,
)
    requires
        call_ensures(ReceiverHook::<T>::new_frc46, (address, params, result), r),
    ensures
        r is Ok == store::storable(params.amount@),
        r is Ok ==> {
            &&& r->Ok_0.address == address
            &&& r->Ok_0.token_type == FRC46_TOKEN_TYPE
            &&& r->Ok_0.token_params@ == received_cbor(
                params.from,
                params.to,
                params.operator,
                params.amount@,
                params.operator_data@,
                params.token_data@,
            )
            &&& r->Ok_0.result_data == Some(result)
            &&& !r->Ok_0.called
        },
{
}

/// Calling a hook hands one message over, to the receiver, without funds, with the type and the payload.
/// A hook is called once: the second call sends nothing and says so. What comes back for the receiver's
/// success is the hook's result with the receiver's data in it; its failure is reported with its exit
/// code, its data, and what it was called with.
pub proof fn a_hook_is_called_once<S: Syscalls, T: RecipientData>(
    hook: &mut ReceiverHook<T>,
    runtime: &mut ActorRuntime<S>,
    r: Result<T, ReceiverHookError>,
)
    requires
        old(hook).ready(),
        call_ensures(ReceiverHook::<T>::call::<ActorRuntime<S>>, (hook, runtime), r),
    ensures
        final(hook).called,
        old(hook).called ==> r is Err && r->Err_0 is AlreadyCalled && *final(runtime)
            == *old(runtime),
        !old(hook).called ==> {
            &&& final(runtime).blockstore == old(runtime).blockstore
            &&& final(runtime).syscalls.sent() == old(runtime).syscalls.sent().push(
                Message {
                    to: old(hook).address@,
                    method: RECEIVER_HOOK_METHOD_NUM,
                    params: Some(
                        (CBOR, universal_cbor(old(hook).token_type, old(hook).token_params@)),
                    ),
                    value: 0,
                },
            )
            &&& r is Ok ==> exists|data: Seq<u8>| #[trigger]
                old(hook).result_data->0.completed_by(data, &r->Ok_0)
            &&& r is Err && !(r->Err_0 is Messaging) ==> {
                &&& r->Err_0 is Receiver
                &&& r->Err_0->Receiver_address@ == old(hook).address@
                &&& r->Err_0->Receiver_exit_code.value != OK
                &&& r->Err_0->Receiver_receiver_params.type_ == old(hook).token_type
                &&& r->Err_0->Receiver_receiver_params.payload@ == old(hook).token_params@
            }
        },
{
}

/// A hook settles by the answer alone: a success gives the result with the receiver's data in it, and
/// the hook has none left; a failure of the receiver gives its exit code and its data, and a message
/// that was not sent gives its error, and the hook keeps its result.
pub proof fn a_hook_settles_by_the_answer<T: RecipientData>(
    hook: &mut ReceiverHook<T>,
    params: UniversalReceiverParams,
    response: Result<Response, MessagingError>,
    r: Result<T, ReceiverHookError>,
)
    requires
        old(hook).result_data is Some,
        call_ensures(ReceiverHook::<T>::settle, (hook, params, response), r),
    ensures
        r is Ok == (response is Ok && response->Ok_0.exit_code.value == OK),
        r is Ok ==> old(hook).result_data->0.completed_by(response->Ok_0.return_data@, &r->Ok_0)
            && final(hook).result_data is None,
        r is Err ==> final(hook).result_data == old(hook).result_data,
        response is Err ==> r->Err_0 is Messaging && r->Err_0->Messaging_0 == response->Err_0,
        response is Ok && response->Ok_0.exit_code.value != OK ==> {
            &&& r->Err_0 is Receiver
            &&& r->Err_0->Receiver_address@ == old(hook).address@
            &&& r->Err_0->Receiver_exit_code == response->Ok_0.exit_code
            &&& r->Err_0->Receiver_return_data@ == response->Ok_0.return_data@
            &&& r->Err_0->Receiver_receiver_params.type_ == params.type_
            &&& r->Err_0->Receiver_receiver_params.payload@ == params.payload@
        },
{
}

/// A hook that was not called may not be dropped, and one that was may.
pub proof fn an_uncalled_hook_is_noticed<T: RecipientData>(
    hook: ReceiverHook<T>,
    r: Result<(), ReceiverHookError>,
)
    requires
        call_ensures(ReceiverHook::<T>::check_called, (&hook,), r),
    ensures
        r is Err == !hook.called,
        r is Err ==> r->Err_0 is NotCalled,
{
}

/// No failure of a message or a hook ends as a success, unless the receiver itself said so. A receiver's
/// code is passed on as it is, and so is that of a message that failed.
pub proof fn a_failure_is_no_success(
    message: MessagingError,
    hook: ReceiverHookError,
    a: ExitCode,
    b: ExitCode,
)
    requires
        call_ensures(<ExitCode as From<&MessagingError>>::from, (&message,), a),
        call_ensures(<ExitCode as From<&ReceiverHookError>>::from, (&hook,), b),
    ensures
        a.value != OK && a.value >= exit::USR_ILLEGAL_ARGUMENT,
        hook is Receiver ==> b == hook->Receiver_exit_code,
        !(hook is Receiver) ==> b.value != OK,
        hook is Messaging && hook->Messaging_0 == message ==> a == b,
        message is AddressNotResolved || message is AddressNotInitialized ==> a.value
            == exit::USR_NOT_FOUND,
        message is Ipld || hook is IpldEncoding ==> {
            &&& message is Ipld ==> a.value == exit::USR_SERIALIZATION
            &&& hook is IpldEncoding ==> b.value == exit::USR_SERIALIZATION
        },
        hook is NotCalled || hook is AlreadyCalled ==> b.value == exit::USR_ASSERTION_FAILED,
        message is Syscall ==> {
            let e = message->Syscall_0;
            &&& a.value == exit::USR_ILLEGAL_ARGUMENT <==> e is IllegalArgument
            &&& a.value == exit::USR_FORBIDDEN <==> e is Forbidden || e is IllegalOperation
            &&& a.value == exit::USR_INSUFFICIENT_FUNDS <==> e is InsufficientFunds
            &&& a.value == exit::USR_ASSERTION_FAILED <==> e is AssertionFailed
            &&& a.value == exit::USR_NOT_FOUND <==> e is NotFound || e is IllegalCid
                || e is InvalidHandle
            &&& a.value == exit::USR_SERIALIZATION <==> e is Serialization || e is IllegalCodec
            &&& a.value == exit::USR_UNSPECIFIED <==> e is LimitExceeded || e is BufferTooSmall
                || e is ReadOnly
        },
{
}

/// Making an account hands one message over, to the address, without parameters and without funds. The
/// actor that comes back is the one that the address then stands for. The root that is read is the
/// actor's, and its absence is said.
pub proof fn an_account_is_made<S: Syscalls>(
    runtime: &mut ActorRuntime<S>,
    other: ActorRuntime<S>,
    address: &Address,
    r: Result<ActorID, MessagingError>,
    root: Result<Cid, ActorError>,
)
    requires
        call_ensures(ActorRuntime::<S>::initialize_account, (runtime, address), r),
        call_ensures(ActorRuntime::<S>::root_cid, (&other,), root),
    ensures
        final(runtime).blockstore == old(runtime).blockstore,
        remembers(old(runtime).syscalls, final(runtime).syscalls),
        final(runtime).syscalls.sent() == old(runtime).syscalls.sent().push(
            Message { to: address@, method: 0, params: None, value: 0 },
        ),
        r is Ok ==> final(runtime).syscalls.resolves(address@) == Some(r->Ok_0),
        root is Ok == other.syscalls.state_root() is Some,
        root is Ok ==> other.syscalls.state_root() == Some(root->Ok_0@),
{
}

/// Two addresses are resolved each to the actor that it then stands for, the first as the first.
pub proof fn two_accounts_are_made_where_there_are_none<S: Syscalls>(
    runtime: &mut ActorRuntime<S>,
    a: &Address,
    b: &Address,
    r: Result<(ActorID, ActorID), MessagingError>,
)
    requires
        call_ensures(ActorRuntime::<S>::resolve_or_init_both, (runtime, a, b), r),
    ensures
        final(runtime).blockstore == old(runtime).blockstore,
        r is Ok ==> final(runtime).syscalls.resolves(a@) == Some(r->Ok_0.0)
            && final(runtime).syscalls.resolves(b@) == Some(r->Ok_0.1),
        r is Ok ==> remembers(old(runtime).syscalls, final(runtime).syscalls),
        old(runtime).syscalls.resolves(a@) is Some && old(runtime).syscalls.resolves(b@) is Some
            ==> r is Ok && final(runtime).syscalls == old(runtime).syscalls,
{
    if r is Ok {
        util::both_are_resolved(old(runtime).syscalls, final(runtime).syscalls, a@, b@, r->Ok_0);
    }
}

/// A message that is sent is handed over as it is: to whom, which method, with what and with how much.
pub proof fn a_message_is_handed_over<S: Syscalls>(
    runtime: &mut ActorRuntime<S>,
    to: &Address,
    method: u64,
    params: Option<IpldBlock>,
    value: TokenAmount,
    r: Result<Response, MessagingError>,
)
    requires
        call_ensures(ActorRuntime::<S>::send, (runtime, to, method, params, value), r),
    ensures
        final(runtime).blockstore == old(runtime).blockstore,
        final(runtime).syscalls.sent() == old(runtime).syscalls.sent().push(
            Message {
                to: to@,
                method,
                params: if params is Some {
                    Some((params->0.codec, params->0.data@))
                } else {
                    None
                },
                value: value@,
            },
        ),
        r is Err ==> r->Err_0 is Syscall,
{
}

/// Without a chain, a message is answered with its own parameters, and is the last one that was sent. A
/// public key that has no account gets the next id, and no other address is touched. A message that is
/// to fail fails once, makes no account and is not kept as the last.
pub proof fn a_pretended_message_is_echoed(
    syscalls: &mut FakeSyscalls,
    to: &Address,
    method: u64,
    params: Option<IpldBlock>,
    value: TokenAmount,
    r: Result<Response, ErrorNumber>,
)
    requires
        call_ensures(
            <FakeSyscalls as Syscalls>::send,
            (syscalls, to, method, params, value),
            r,
        ),
    ensures
        r is Err == old(syscalls).abort_next_send,
        !final(syscalls).abort_next_send,
        r is Err ==> final(syscalls).last_message == old(syscalls).last_message && forall|
            a: AddressView,
        | #[trigger]
            final(syscalls).resolves(a) == old(syscalls).resolves(a),
        r is Ok ==> {
            let last = final(syscalls).last_message;
            let made = (to@ is Secp256k1 || to@ is BLS) && old(syscalls).resolves(to@) is None;
            &&& r->Ok_0.exit_code.value == OK
            &&& params is Some ==> r->Ok_0.return_data@ == params->0.data@
            &&& params is None ==> r->Ok_0.return_data@.len() == 0
            &&& last is Some && last->0.method == method && last->0.value@ == value@
            &&& made ==> final(syscalls).resolves(to@) == Some(old(syscalls).next_actor_id)
            &&& forall|a: AddressView|
                a != to@ || !made ==> #[trigger] final(syscalls).resolves(a)
                    == old(syscalls).resolves(a)
        },
{
}

/// Without a chain, an id stands for itself.
pub proof fn an_id_stands_for_itself(
    syscalls: FakeSyscalls,
    id: ActorID,
    address: Address,
    r: Option<ActorID>,
)
    requires
        call_ensures(Address::new_id, (id,), address),
        call_ensures(<FakeSyscalls as Syscalls>::resolve_address, (&syscalls, &address), r),
    ensures
        r == Some(id),
{
}

} // verus!
