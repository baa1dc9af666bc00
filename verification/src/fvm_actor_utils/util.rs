//! The runtime of an actor: system calls and storage together.
use vstd::prelude::*;

use crate::address::{Address, AddressView};
use crate::amount::TokenAmount;
use crate::bytes;
use crate::bytes::{ActorID, Cid, IpldBlock};
use crate::exit::ErrorNumber;
use crate::fvm_actor_utils::fake_syscalls::FakeSyscalls;
use crate::fvm_actor_utils::messaging::{Messaging, MessagingError, MessagingFault};
use crate::fvm_actor_utils::syscalls::{
    Message, MethodNum, NoStateError, Response, Syscalls, METHOD_SEND,
};
use crate::store::{Blocks, Store};

verus! {

/// Why the actor's state could not be found.
#[derive(Debug, Clone, Copy, PartialEq, Eq, Structural)]
pub enum ActorError {
    /// The root state was not found.
    NoState(NoStateError),
}

/// ActorRuntime provides access to system resources via Syscalls and the Blockstore
///
/// It provides higher level utilities than raw syscalls for actors to use to interact with the
/// IPLD layer and the FVM runtime (e.g. messaging other actors)
#[derive(Clone)]
pub struct ActorRuntime<S: Syscalls> {
    /// The system calls.
    pub syscalls: S,
    /// The blocks of the actor's state.
    pub blockstore: Store,
}

/// The message that makes an account at an address: no value, no parameters.
pub open spec fn init_message(address: AddressView) -> Message {
    Message { to: address, method: METHOD_SEND, params: None, value: 0 }
}

/// Whether a result is what resolving an address leads to, with an account made for it where
/// there is none yet: at most one message is sent, and no address is forgotten. Where a message was
/// sent, its answer decides.
pub open spec fn resolved_or_made<S: Syscalls>(
    before: S,
    after: S,
    address: AddressView,
    r: Result<ActorID, MessagingError>,
) -> bool {
    &&& after.actor() == before.actor()
    &&& forall|a: AddressView| #[trigger]
        before.resolves(a) is Some ==> after.resolves(a) == before.resolves(a)
    &&& match before.resolves(address) {
        Some(id) => r is Ok && r->Ok_0 == id && after == before,
        None => {
            &&& after.sent() == before.sent().push(init_message(address))
            &&& exists|answer: Result<Response, ErrorNumber>|
                {
                    &&& #[trigger] before.answers(init_message(address), answer, &after)
                    &&& initialized(answer, address, after.resolves(address), r)
                }
        },
    }
}

/// Whether two addresses were resolved to these ids, one after the other, with accounts made where
/// there were none.
pub open spec fn resolved_both<S: Syscalls>(
    before: S,
    after: S,
    a: AddressView,
    b: AddressView,
    ids: (ActorID, ActorID),
) -> bool {
    exists|between: S|
        #![trigger resolved_or_made(before, between, a, Ok(ids.0))]
        resolved_or_made(before, between, a, Ok(ids.0)) && resolved_or_made(
            between,
            after,
            b,
            Ok(ids.1),
        )
}

/// Whether an account could not be made for the first of two addresses, or for the second after
/// the first was resolved.
pub open spec fn resolving_failed<S: Syscalls>(
    before: S,
    after: S,
    a: AddressView,
    b: AddressView,
    e: MessagingError,
) -> bool {
    resolved_or_made(before, after, a, Err(e)) || exists|between: S, id: ActorID|
        #![trigger resolved_or_made(before, between, a, Ok(id))]
        resolved_or_made(before, between, a, Ok(id)) && resolved_or_made(between, after, b, Err(e))
}

/// Whether every address that stood for an actor still stands for it.
pub open spec fn remembers<S: Syscalls>(before: S, after: S) -> bool {
    forall|a: AddressView| #[trigger]
        before.resolves(a) is Some ==> after.resolves(a) == before.resolves(a)
}

/// Whether an address stands for an actor, or does so after the message that makes an account for
/// it, which does not fail.
pub open spec fn can_have_account<S: Syscalls>(syscalls: S, address: AddressView) -> bool {
    syscalls.resolves(address) is Some || forall|answer: Result<Response, ErrorNumber>, after: S|
        #[trigger] syscalls.answers(init_message(address), answer, &after) ==> answer is Ok
            && after.resolves(address) is Some
}

/// Whether two addresses can have accounts, one after the other.
pub open spec fn can_have_accounts<S: Syscalls>(syscalls: S, a: AddressView, b: AddressView) -> bool {
    &&& can_have_account(syscalls, a)
    &&& forall|between: S, id: ActorID| #[trigger]
        resolved_or_made(syscalls, between, a, Ok(id)) ==> can_have_account(between, b)
}

/// Resolving an address that can have an account does not fail.
pub proof fn an_account_is_had<S: Syscalls>(
    before: S,
    after: S,
    address: AddressView,
    r: Result<ActorID, MessagingError>,
)
    requires
        can_have_account(before, address),
        resolved_or_made(before, after, address, r),
    ensures
        r is Ok,
        after.resolves(address) == Some(r->Ok_0),
{
}

/// Resolving two addresses that can have accounts does not fail.
pub proof fn accounts_are_had<S: Syscalls>(
    before: S,
    after: S,
    a: AddressView,
    b: AddressView,
    e: MessagingError,
)
    requires
        can_have_accounts(before, a, b),
    ensures
        !resolving_failed(before, after, a, b, e),
{
}

/// What two addresses stand for, once they were resolved.
pub proof fn both_are_resolved<S: Syscalls>(
    before: S,
    after: S,
    a: AddressView,
    b: AddressView,
    ids: (ActorID, ActorID),
)
    requires
        resolved_both(before, after, a, b, ids),
    ensures
        after.resolves(a) == Some(ids.0),
        after.resolves(b) == Some(ids.1),
        after.actor() == before.actor(),
        remembers(before, after),
{
    let between = choose|between: S|
        #![trigger resolved_or_made(before, between, a, Ok(ids.0))]
        resolved_or_made(before, between, a, Ok(ids.0)) && resolved_or_made(
            between,
            after,
            b,
            Ok(ids.1),
        );
    one_is_resolved(before, between, a, ids.0);
    one_is_resolved(between, after, b, ids.1);
}

/// What an address stands for, once it was resolved.
pub proof fn one_is_resolved<S: Syscalls>(before: S, after: S, a: AddressView, id: ActorID)
    requires
        resolved_or_made(before, after, a, Ok(id)),
    ensures
        after.resolves(a) == Some(id),
        after.actor() == before.actor(),
        remembers(before, after),
{
}

impl<S: Syscalls> ActorRuntime<S> {
    /// A runtime over system calls and a store.
    pub fn new(syscalls: S, blockstore: Store) -> (r: ActorRuntime<S>)
        ensures
            r.syscalls == syscalls,
            r.blockstore == blockstore,
    {
        ActorRuntime { syscalls, blockstore }
    }

    /// A runtime without a chain, over an empty store.
    pub fn new_test_runtime() -> (r: ActorRuntime<FakeSyscalls>)
        ensures
            r.blockstore@ == Blocks::empty(),
            r.syscalls.fresh(),
    {
        ActorRuntime { syscalls: FakeSyscalls::default(), blockstore: Store::new() }
    }

    /// Returns the address of the current actor as an ActorID
    pub fn actor_id(&self) -> (r: ActorID)
        ensures
            r == self.syscalls.actor(),
    {
        self.syscalls.receiver()
    }

    /// Sends a message to an actor
    pub fn send(
        &mut self,
        to: &Address,
        method: MethodNum,
        params: Option<IpldBlock>,
        value: TokenAmount,
    ) -> (r: Result<Response, MessagingError>)
        ensures
            final(self).blockstore == old(self).blockstore,
            final(self).syscalls.sent() == old(self).syscalls.sent().push(
                (Message { to: to@, method, params: bytes::block_view(params), value: value@ }),
            ),
            final(self).syscalls.actor() == old(self).syscalls.actor(),
            forall|a: AddressView| #[trigger]
                old(self).syscalls.resolves(a) is Some ==> final(self).syscalls.resolves(a) == old(self).syscalls.resolves(a),
            r is Err ==> r->Err_0 is Syscall,
            exists|s: &mut S, answer: Result<Response, ErrorNumber>|
                {
                    &&& *s == old(self).syscalls
                    &&& *final(s) == final(self).syscalls
                    &&& #[trigger] call_ensures(S::send, (s, to, method, params, value), answer)
                    &&& r == passed_on(answer)
                },
    {
        match self.syscalls.send(to, method, params, value) {
            Ok(response) => Ok(response),
            Err(e) => Err(MessagingError::Syscall(e)),
        }
    }

    /// Attempts to resolve the given address to its ID address form
    ///
    /// Returns MessagingError::AddressNotResolved if the address could not be resolved
    pub fn resolve_id(&self, address: &Address) -> (r: Result<ActorID, MessagingError>)
        ensures
            match self.syscalls.resolves(address@) {
                Some(id) => r is Ok && r->Ok_0 == id,
                None => r is Err && r->Err_0 is AddressNotResolved && r->Err_0@
                    == MessagingFault::AddressNotResolved(address@),
            },
    {
        match self.syscalls.resolve_address(address) {
            Some(id) => Ok(id),
            None => Err(MessagingError::AddressNotResolved(address.clone())),
        }
    }

    /// Resolves an address to an ID address, sending a message to initialize an account there if
    /// it doesn't exist
    ///
    /// If the account cannot be created, this function returns
    /// MessagingError::AddressNotInitialized
    pub fn resolve_or_init(&mut self, address: &Address) -> (r: Result<ActorID, MessagingError>)
        ensures
            final(self).blockstore == old(self).blockstore,
            resolved_or_made(old(self).syscalls, final(self).syscalls, address@, r),
            old(self).syscalls.resolves(address@) is None ==> exists|s: &mut S, value: TokenAmount, answer: Result<Response, ErrorNumber>|
                {
                    &&& *s == old(self).syscalls
                    &&& *final(s) == final(self).syscalls
                    &&& value@ == 0
                    &&& #[trigger] call_ensures(
                        S::send,
                        (s, address, METHOD_SEND, None, value),
                        answer,
                    )
                    &&& initialized(answer, address@, final(self).syscalls.resolves(address@), r)
                },
    {
        match self.resolve_id(address) {
            Ok(id) => Ok(id),
            Err(_) => self.initialize_account(address),
        }
    }

    /// Resolves two addresses in turn, making accounts where there are none
    pub fn resolve_or_init_both(&mut self, a: &Address, b: &Address) -> (r: Result<
        (ActorID, ActorID),
        MessagingError,
    >)
        ensures
            final(self).blockstore == old(self).blockstore,
            final(self).syscalls.actor() == old(self).syscalls.actor(),
            r is Ok ==> resolved_both(
                old(self).syscalls,
                final(self).syscalls,
                a@,
                b@,
                r->Ok_0,
            ) && final(self).syscalls.resolves(a@) == Some(r->Ok_0.0) && final(self).syscalls.resolves(b@) == Some(r->Ok_0.1),
            r is Err ==> resolving_failed(
                old(self).syscalls,
                final(self).syscalls,
                a@,
                b@,
                r->Err_0,
            ),
            old(self).syscalls.resolves(a@) is Some && old(self).syscalls.resolves(b@) is Some ==> r
                is Ok && final(self).syscalls == old(self).syscalls,
    {
        let id_a = match self.resolve_or_init(a) {
            Ok(id) => id,
            Err(e) => return Err(e),
        };
        assert(self.syscalls.resolves(a@) == Some(id_a));
        let ghost between = self.syscalls;
        match self.resolve_or_init(b) {
            Ok(id_b) => {
                proof {
                    assert(between.resolves(a@) is Some);
                    let ids = (id_a, id_b);
                    assert(resolved_or_made(old(self).syscalls, between, a@, Ok(ids.0)));
                    assert(resolved_or_made(between, self.syscalls, b@, Ok(ids.1)));
                }
                Ok((id_a, id_b))
            },
            Err(e) => Err(e),
        }
    }

    /// Sends a message that makes an account at an address, and gives the id of the account
    pub fn initialize_account(&mut self, address: &Address) -> (r: Result<ActorID, MessagingError>)
        ensures
            final(self).blockstore == old(self).blockstore,
            final(self).syscalls.sent() == old(self).syscalls.sent().push(init_message(address@)),
            final(self).syscalls.actor() == old(self).syscalls.actor(),
            forall|a: AddressView| #[trigger]
                old(self).syscalls.resolves(a) is Some ==> final(self).syscalls.resolves(a) == old(self).syscalls.resolves(a),
            r is Ok ==> final(self).syscalls.resolves(address@) == Some(r->Ok_0),
            r is Err ==> r->Err_0 is Syscall || (r->Err_0@ == MessagingFault::AddressNotInitialized(
                address@,
            ) && final(self).syscalls.resolves(address@) is None),
            exists|s: &mut S, value: TokenAmount, answer: Result<Response, ErrorNumber>|
                {
                    &&& *s == old(self).syscalls
                    &&& *final(s) == final(self).syscalls
                    &&& value@ == 0
                    &&& #[trigger] call_ensures(
                        S::send,
                        (s, address, METHOD_SEND, None, value),
                        answer,
                    )
                    &&& initialized(answer, address@, final(self).syscalls.resolves(address@), r)
                },
    {
        match self.send(address, METHOD_SEND, None, TokenAmount::zero()) {
            Ok(_) => {},
            Err(e) => return Err(e),
        }
        match self.resolve_id(address) {
            Ok(id) => Ok(id),
            // if we can't resolve after the send, then the account was not initialized
            Err(_) => Err(MessagingError::AddressNotInitialized(address.clone())),
        }
    }

    /// Get the root cid of the actor's state
    pub fn root_cid(&self) -> (r: Result<Cid, ActorError>)
        ensures
            r is Ok == self.syscalls.state_root() is Some,
            r is Ok ==> self.syscalls.state_root() == Some(r->Ok_0@),
            r is Err ==> r->Err_0 == ActorError::NoState(NoStateError),
    {
        match self.syscalls.root() {
            Ok(root) => Ok(root),
            Err(_) => Err(ActorError::NoState(NoStateError)),
        }
    }

    /// Attempts to compare two addresses, seeing if they would resolve to the same Actor without
    /// actually instantiating accounts for them
    ///
    /// If a and b are of the same type, simply do an equality check. Otherwise, attempt to resolve
    /// to an ActorID and compare
    pub fn same_address(&self, address_a: &Address, address_b: &Address) -> (r: bool)
        ensures
            r == same_actor(self.syscalls, address_a@, address_b@),
    {
        let protocol_a = address_a.protocol();
        let protocol_b = address_b.protocol();
        if protocol_a == protocol_b {
            address_a.same(address_b)
        } else {
            // attempt to resolve both to ActorID
            let id_a = match self.resolve_id(address_a) {
                Ok(id) => id,
                Err(_) => return false,
            };
            let id_b = match self.resolve_id(address_b) {
                Ok(id) => id,
                Err(_) => return false,
            };
            id_a == id_b
        }
    }

    /// The blocks of the actor's state.
    pub fn bs(&self) -> (r: &Store)
        ensures
            *r == self.blockstore,
    {
        &self.blockstore
    }
}

/// Whether a result is what making an account at an address returns for an answer to the message,
/// and for the actor that the address stands for after it.
pub open spec fn initialized(
    answer: Result<Response, ErrorNumber>,
    address: AddressView,
    now: Option<ActorID>,
    r: Result<ActorID, MessagingError>,
) -> bool {
    match (answer, now) {
        (Err(e), _) => r == Err::<ActorID, MessagingError>(MessagingError::Syscall(e)),
        (Ok(_), Some(id)) => r == Ok::<ActorID, MessagingError>(id),
        (Ok(_), None) => r is Err && r->Err_0@ == MessagingFault::AddressNotInitialized(address),
    }
}

/// Whether two addresses are found to stand for one actor. Addresses of one kind are compared as
/// they are, others by the ids that they resolve to.
pub open spec fn same_actor<S: Syscalls>(syscalls: S, a: AddressView, b: AddressView) -> bool {
    if a.protocol() == b.protocol() {
        a == b
    } else {
        syscalls.resolves(a) is Some && syscalls.resolves(a) == syscalls.resolves(b)
    }
}

/// The answer to a message as the runtime passes it on.
pub open spec fn passed_on(answer: Result<Response, ErrorNumber>) -> Result<Response, MessagingError> {
    match answer {
        Ok(response) => Ok(response),
        Err(e) => Err(MessagingError::Syscall(e)),
    }
}

impl<S: Syscalls> Messaging for ActorRuntime<S> {
    open spec fn handed_over(&self) -> Seq<Message> {
        self.syscalls.sent()
    }

    /// The store is as it was, and no address was forgotten.
    open spec fn follows(&self, before: &Self) -> bool {
        &&& self.blockstore == before.blockstore
        &&& self.syscalls.actor() == before.syscalls.actor()
        &&& forall|a: AddressView| #[trigger]
            before.syscalls.resolves(a) is Some ==> self.syscalls.resolves(a) == before.syscalls.resolves(a)
    }

    fn send(
        &mut self,
        to: &Address,
        method: MethodNum,
        params: Option<IpldBlock>,
        value: TokenAmount,
    ) -> (r: Result<Response, MessagingError>)
        ensures
            r is Err ==> r->Err_0 is Syscall,
            final(self).blockstore == old(self).blockstore,
            exists|s: &mut S, answer: Result<Response, ErrorNumber>|
                {
                    &&& *s == old(self).syscalls
                    &&& *final(s) == final(self).syscalls
                    &&& #[trigger] call_ensures(S::send, (s, to, method, params, value), answer)
                    &&& r == passed_on(answer)
                },
    {
        match self.syscalls.send(to, method, params, value) {
            Ok(response) => Ok(response),
            Err(e) => Err(MessagingError::Syscall(e)),
        }
    }
}

} // verus!
