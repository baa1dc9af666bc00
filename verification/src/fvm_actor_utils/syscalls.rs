//! The system calls that an actor can make.
use vstd::prelude::*;

use crate::address::{Address, AddressView};
use crate::amount::TokenAmount;
use crate::bytes;
use crate::bytes::{ActorID, Cid, IpldBlock, RawBytes};
use crate::exit::{ErrorNumber, ExitCode};

verus! {

/// The number of a method.
pub type MethodNum = u64;

/// The method that only transfers value.
pub const METHOD_SEND: MethodNum = 0;

/// The actor does not exist in the state-tree.
#[derive(Debug, Clone, Copy, PartialEq, Eq, Structural)]
pub struct NoStateError;

/// What a message came back with.
#[derive(Debug, PartialEq, Eq)]
pub struct Response {
    /// How the call ended.
    pub exit_code: ExitCode,
    /// What it returned.
    pub return_data: RawBytes,
}

/// A message as a value.
#[verifier::ext_equal]
pub struct Message {
    /// The receiver.
    pub to: AddressView,
    /// The method.
    pub method: MethodNum,
    /// The codec and the bytes of the parameters.
    pub params: Option<(u64, Seq<u8>)>,
    /// The funds that go with it.
    pub value: int,
}

/// The root of an actor's state as a value, if it has one.
pub type RootView = Option<Seq<u8>>;

/// Messages in the order in which they were handed over.
pub type Messages = Seq<Message>;

/// The Syscalls trait defines methods available to the actor from its execution environment.
pub trait Syscalls {
    /// The id that an address stands for at this time.
    spec fn resolves(&self, addr: AddressView) -> Option<ActorID>;

    /// The id of the actor.
    spec fn actor(&self) -> ActorID;

    /// The root of the actor's state, if it has one.
    spec fn state_root(&self) -> RootView;

    /// The messages that were handed over so far, whatever became of them.
    spec fn sent(&self) -> Messages;

    /// Whether a message may come back with this answer, and leave the environment like this.
    spec fn answers(
        &self,
        message: Message,
        answer: Result<Response, ErrorNumber>,
        after: &Self,
    ) -> bool;

    /// Get the IPLD root CID. Fails if the actor doesn't have state (before the first call to
    /// `set_root` and after actor deletion).
    fn root(&self) -> (r: Result<Cid, NoStateError>)
        ensures
            r is Ok == self.state_root() is Some,
            r is Ok ==> self.state_root() == Some(r->Ok_0@),
    ;

    /// Returns the ID address of the actor
    fn receiver(&self) -> (r: ActorID)
        ensures
            r == self.actor(),
    ;

    /// Sends a message to an actor
    ///
    /// An address that stands for an actor goes on to stand for it.
    fn send(
        &mut self,
        to: &Address,
        method: MethodNum,
        params: Option<IpldBlock>,
        value: TokenAmount,
    ) -> (r: Result<Response, ErrorNumber>)
        ensures
            final(self).sent() == old(self).sent().push(
                (Message { to: to@, method, params: bytes::block_view(params), value: value@ }),
            ),
            old(self).answers(
                (Message { to: to@, method, params: bytes::block_view(params), value: value@ }),
                r,
                final(self),
            ),
            final(self).actor() == old(self).actor(),
            forall|a: AddressView| #[trigger]
                old(self).resolves(a) is Some ==> final(self).resolves(a) == old(self).resolves(a),
    ;

    /// Resolves the ID address of an actor.
    ///
    /// Returns None if the address cannot be resolved. Successfully resolving an address doesn't
    /// necessarily mean the actor exists (e.g., if the addresss was already an actor ID).
    fn resolve_address(&self, addr: &Address) -> (r: Option<ActorID>)
        ensures
            r == self.resolves(addr@),
    ;
}

} // verus!
