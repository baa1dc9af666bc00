//! System calls without a chain: accounts are made on demand and messages are echoed.
use vstd::prelude::*;

use crate::address::{Address, AddressView, Payload};
use crate::amount::TokenAmount;
use crate::bytes;
use crate::bytes::{bytes_clone, ActorID, Cid, IpldBlock, RawBytes};
use crate::exit::{ErrorNumber, ExitCode, OK};
use crate::fvm_actor_utils::syscalls::{Message, MethodNum, NoStateError, Response, Syscalls};
use crate::fvm_actor_utils::util;

verus! {

/// A message that was sent.
#[derive(Debug, Clone, PartialEq, Eq)]
pub struct TestMessage {
    /// The method.
    pub method: u64,
    /// The parameters.
    pub params: Option<IpldBlock>,
    /// The funds that went with it.
    pub value: TokenAmount,
}

/// System calls without a chain.
#[derive(Clone)]
pub struct FakeSyscalls {
    /// The root of the calling actor
    pub root: Cid,
    /// The f0 ID of the calling actor
    pub actor_id: ActorID,
    /// The addresses that were instantiated in this runtime
    pub addresses: Vec<(Address, ActorID)>,
    /// The next-to-allocate f0 address
    pub next_actor_id: ActorID,
    /// The last message sent via this runtime
    pub last_message: Option<TestMessage>,
    /// Flag to control message success
    pub abort_next_send: bool,
    /// Every message handed over
    pub log: Ghost<Seq<Message>>,
}

/// The id that a list of accounts has for an address, by the first entry for it.
pub open spec fn listed(accounts: Seq<(Address, ActorID)>, addr: AddressView) -> Option<ActorID>
    decreases accounts.len(),
{
    if accounts.len() == 0 {
        None
    } else if accounts[0].0@ == addr {
        Some(accounts[0].1)
    } else {
        listed(accounts.drop_first(), addr)
    }
}

/// An account added at the end is found for its own address, unless there was one already.
proof fn lemma_listed_push(accounts: Seq<(Address, ActorID)>, entry: (Address, ActorID), addr: AddressView)
    ensures
        listed(accounts.push(entry), addr) == (if listed(accounts, addr) is Some {
            listed(accounts, addr)
        } else if entry.0@ == addr {
            Some(entry.1)
        } else {
            None
        }),
    decreases accounts.len(),
{
    reveal_with_fuel(listed, 2);
    if accounts.len() == 0 {
        assert(accounts.push(entry).drop_first() =~= Seq::empty());
    } else {
        assert(accounts.push(entry).drop_first() =~= accounts.drop_first().push(entry));
        lemma_listed_push(accounts.drop_first(), entry, addr);
    }
}

impl Default for FakeSyscalls {
    fn default() -> (r: Self)
        ensures
            r.fresh(),
    {
        FakeSyscalls {
            root: Cid::default(),
            actor_id: 0,
            addresses: Vec::new(),
            next_actor_id: 0,
            last_message: None,
            abort_next_send: false,
            log: Ghost(Seq::empty()),
        }
    }
}

impl FakeSyscalls {
    /// Nothing was done yet.
    pub open spec fn fresh(&self) -> bool {
        &&& self.root@ == seq![1u8, 0u8, 0u8, 0u8]
        &&& self.actor_id == 0
        &&& self.addresses@ == Seq::<(Address, ActorID)>::empty()
        &&& self.next_actor_id == 0
        &&& self.last_message is None
        &&& !self.abort_next_send
        &&& self.log@ == Seq::<Message>::empty()
    }

    /// Whether a message to an address makes an account for it: it is a public key that has none.
    pub open spec fn makes_account(&self, addr: AddressView) -> bool {
        (addr is Secp256k1 || addr is BLS) && listed(self.addresses@, addr) is None
    }

    /// Looks an address up among the accounts.
    fn find(&self, addr: &Address) -> (r: Option<ActorID>)
        ensures
            r == listed(self.addresses@, addr@),
    {
        let mut i: usize = 0;
        assert(self.addresses@.skip(0) =~= self.addresses@);
        while i < self.addresses.len()
            invariant
                i <= self.addresses.len(),
                listed(self.addresses@, addr@) == listed(self.addresses@.skip(i as int), addr@),
            decreases self.addresses.len() - i,
        {
            if self.addresses[i].0.same(addr) {
                return Some(self.addresses[i].1);
            }
            assert(self.addresses@.skip(i as int).drop_first() =~= self.addresses@.skip(
                i as int + 1,
            ));
            i += 1;
        }
        None
    }
}

/// Ids have accounts, and public keys can have them, unless the next message is to fail.
pub proof fn ids_and_keys_can_have_accounts(syscalls: FakeSyscalls, addr: AddressView)
    requires
        addr is ID || addr is Secp256k1 || addr is BLS,
        !syscalls.abort_next_send,
    ensures
        util::can_have_account(syscalls, addr),
{
}

/// Two addresses, each an id or a public key, can have accounts one after the other, unless the next
/// message is to fail.
pub proof fn two_ids_or_keys_can_have_accounts(
    syscalls: FakeSyscalls,
    a: AddressView,
    b: AddressView,
)
    requires
        a is ID || a is Secp256k1 || a is BLS,
        b is ID || b is Secp256k1 || b is BLS,
        !syscalls.abort_next_send,
    ensures
        util::can_have_accounts(syscalls, a, b),
{
    ids_and_keys_can_have_accounts(syscalls, a);
    assert forall|between: FakeSyscalls, id: ActorID| #[trigger]
        util::resolved_or_made(syscalls, between, a, Ok(id)) implies util::can_have_account(
        between,
        b,
    ) by {
        ids_and_keys_can_have_accounts(between, b);
    }
}

impl Syscalls for FakeSyscalls {
    open spec fn resolves(&self, addr: AddressView) -> Option<ActorID> {
        match addr {
            AddressView::ID(id) => Some(id),
            _ => listed(self.addresses@, addr),
        }
    }

    open spec fn actor(&self) -> ActorID {
        self.actor_id
    }

    open spec fn state_root(&self) -> Option<Seq<u8>> {
        Some(self.root@)
    }

    open spec fn sent(&self) -> Seq<Message> {
        self.log@
    }

    /// With the flag set, a message fails and changes nothing else. Otherwise it succeeds with its
    /// parameters as the answer, and a public key without an account gets one.
    open spec fn answers(
        &self,
        message: Message,
        answer: Result<Response, ErrorNumber>,
        after: &Self,
    ) -> bool {
        &&& !after.abort_next_send
        &&& after.root == self.root
        &&& after.actor_id == self.actor_id
        &&& after.log@ == self.log@.push(message)
        &&& if self.abort_next_send {
            &&& answer == Err::<Response, ErrorNumber>(ErrorNumber::AssertionFailed)
            &&& after.addresses == self.addresses
            &&& after.next_actor_id == self.next_actor_id
            &&& after.last_message == self.last_message
        } else {
            &&& answer is Ok
            &&& answer->Ok_0.exit_code.value == OK
            &&& answer->Ok_0.return_data@ == (match message.params {
                Some((_, data)) => data,
                None => Seq::empty(),
            })
            &&& after.last_message is Some
            &&& after.last_message->0.method == message.method
            &&& bytes::block_view(after.last_message->0.params) == message.params
            &&& after.last_message->0.value@ == message.value
            &&& if self.makes_account(message.to) {
                &&& after.next_actor_id == self.next_actor_id.wrapping_add(1)
                &&& forall|a: AddressView| #[trigger]
                    after.resolves(a) == if a == message.to {
                        Some(self.next_actor_id)
                    } else {
                        self.resolves(a)
                    }
            } else {
                after.addresses == self.addresses && after.next_actor_id == self.next_actor_id
            }
        }
    }

    fn root(&self) -> (r: Result<Cid, NoStateError>) {
        Ok(self.root.clone())
    }

    fn receiver(&self) -> (r: ActorID) {
        self.actor_id
    }

    /// Sends nothing: records the message, makes an account for a public key that has none, and
    /// answers with the parameters. With the flag set, fails once and records nothing.
    fn send(
        &mut self,
        to: &Address,
        method: MethodNum,
        params: Option<IpldBlock>,
        value: TokenAmount,
    ) -> (r: Result<Response, ErrorNumber>)
    {
        let ghost message = Message {
            to: to@,
            method,
            params: bytes::block_view(params),
            value: value@,
        };
        self.log = Ghost(self.log@.push(message));
        if self.abort_next_send {
            self.abort_next_send = false;
            return Err(ErrorNumber::AssertionFailed);
        }
        // sending to an address instantiates it if it isn't already
        match &to.payload {
            // Sending to actors should succeed if the actor exists but not instantiate it
            Payload::ID(_) | Payload::Actor(_) | Payload::Delegated { .. } => {},
            // Sending to public keys should instantiate the actor
            Payload::Secp256k1(_) | Payload::BLS(_) => {
                if self.find(to).is_none() {
                    let entry = (to.clone(), self.next_actor_id);
                    proof {
                        assert forall|a: AddressView|
                            #[trigger] listed(self.addresses@.push(entry), a) == (if listed(
                                self.addresses@,
                                a,
                            ) is Some {
                                listed(self.addresses@, a)
                            } else if entry.0@ == a {
                                Some(entry.1)
                            } else {
                                None
                            }) by {
                            lemma_listed_push(self.addresses@, entry, a);
                        }
                    }
                    self.next_actor_id = self.next_actor_id.wrapping_add(1);
                    self.addresses.push(entry);
                }
            },
        }
        // save the fake message as being sent, and echo the params as fake return data
        let return_data = match &params {
            Some(block) => RawBytes::new(bytes_clone(&block.data)),
            None => RawBytes::default(),
        };
        self.last_message = Some(TestMessage { method, params, value });
        Ok(Response { exit_code: ExitCode { value: OK }, return_data })
    }

    fn resolve_address(&self, addr: &Address) -> (r: Option<ActorID>) {
        // if it is already an ID-address, just return it
        if let Payload::ID(id) = &addr.payload {
            return Some(*id);
        }
        self.find(addr)
    }
}

} // verus!
