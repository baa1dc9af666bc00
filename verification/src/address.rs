//! Addresses of actors.
use vstd::prelude::*;

use crate::bytes::{bytes_clone, bytes_eq, ActorID};

verus! {

/// The kinds of addresses.
#[derive(Debug, Clone, Copy, PartialEq, Eq, Structural)]
pub enum Protocol {
    /// The actor's id.
    ID,
    /// The hash of a secp256k1 public key.
    Secp256k1,
    /// The hash of an actor's creation.
    Actor,
    /// A BLS public key.
    BLS,
    /// An address in the name space of another actor.
    Delegated,
}

/// What an address is made of.
#[derive(Debug, PartialEq, Eq)]
pub enum Payload {
    /// The actor's id.
    ID(ActorID),
    /// The hash of a secp256k1 public key.
    Secp256k1(Vec<u8>),
    /// The hash of an actor's creation.
    Actor(Vec<u8>),
    /// A BLS public key.
    BLS(Vec<u8>),
    /// An address in the name space of another actor.
    Delegated {
        /// The actor that owns the name space.
        namespace: ActorID,
        /// The address within it.
        subaddress: Vec<u8>,
    },
}

/// An address as a value: its kind and its bytes.
pub enum AddressView {
    /// The actor's id.
    ID(ActorID),
    /// The hash of a secp256k1 public key.
    Secp256k1(Seq<u8>),
    /// The hash of an actor's creation.
    Actor(Seq<u8>),
    /// A BLS public key.
    BLS(Seq<u8>),
    /// An address in the name space of another actor.
    Delegated(ActorID, Seq<u8>),
}

/// The address of an actor.
#[derive(Debug, PartialEq, Eq)]
pub struct Address {
    /// What the address is made of.
    pub payload: Payload,
}

/// Ways in which bytes or text fail to be an address.
#[derive(Debug, Clone, Copy, PartialEq, Eq, Structural)]
pub enum AddressError {
    /// The network is not known.
    UnknownNetwork,
    /// The protocol is not known.
    UnknownProtocol,
    /// The payload is malformed.
    InvalidPayload,
    /// The length is wrong.
    InvalidLength,
    /// The checksum does not match.
    InvalidChecksum,
    /// The address is not an id address.
    NonIDAddress,
}

impl View for Address {
    type V = AddressView;

    open spec fn view(&self) -> AddressView {
        match self.payload {
            Payload::ID(id) => AddressView::ID(id),
            Payload::Secp256k1(bytes) => AddressView::Secp256k1(bytes@),
            Payload::Actor(bytes) => AddressView::Actor(bytes@),
            Payload::BLS(bytes) => AddressView::BLS(bytes@),
            Payload::Delegated { namespace, subaddress } => AddressView::Delegated(
                namespace,
                subaddress@,
            ),
        }
    }
}

impl AddressView {
    /// The kind of the address.
    pub open spec fn protocol(self) -> Protocol {
        match self {
            AddressView::ID(_) => Protocol::ID,
            AddressView::Secp256k1(_) => Protocol::Secp256k1,
            AddressView::Actor(_) => Protocol::Actor,
            AddressView::BLS(_) => Protocol::BLS,
            AddressView::Delegated(_, _) => Protocol::Delegated,
        }
    }
}

impl Clone for Address {
    fn clone(&self) -> (r: Self)
        ensures
            r@ == self@,
    {
        let payload = match &self.payload {
            Payload::ID(id) => Payload::ID(*id),
            Payload::Secp256k1(bytes) => Payload::Secp256k1(bytes_clone(bytes)),
            Payload::Actor(bytes) => Payload::Actor(bytes_clone(bytes)),
            Payload::BLS(bytes) => Payload::BLS(bytes_clone(bytes)),
            Payload::Delegated { namespace, subaddress } => Payload::Delegated {
                namespace: *namespace,
                subaddress: bytes_clone(subaddress),
            },
        };
        Address { payload }
    }
}

impl Address {
    /// The address that names an actor by its id.
    pub fn new_id(id: ActorID) -> (r: Self)
        ensures
            r@ == AddressView::ID(id),
    {
        Address { payload: Payload::ID(id) }
    }

    /// The kind of the address.
    pub fn protocol(&self) -> (r: Protocol)
        ensures
            r == self@.protocol(),
    {
        match &self.payload {
            Payload::ID(_) => Protocol::ID,
            Payload::Secp256k1(_) => Protocol::Secp256k1,
            Payload::Actor(_) => Protocol::Actor,
            Payload::BLS(_) => Protocol::BLS,
            Payload::Delegated { .. } => Protocol::Delegated,
        }
    }

    /// The id in an id address.
    pub fn id(&self) -> (r: Result<ActorID, AddressError>)
        ensures
            r == match self@ {
                AddressView::ID(id) => Ok(id),
                _ => Err(AddressError::NonIDAddress),
            },
    {
        match &self.payload {
            Payload::ID(id) => Ok(*id),
            _ => Err(AddressError::NonIDAddress),
        }
    }

    /// Whether two addresses are the same text. Different addresses may name the same actor.
    pub fn same(&self, other: &Address) -> (r: bool)
        ensures
            r == (self@ == other@),
    {
        match (&self.payload, &other.payload) {
            (Payload::ID(a), Payload::ID(b)) => *a == *b,
            (Payload::Secp256k1(a), Payload::Secp256k1(b)) => bytes_eq(a, b),
            (Payload::Actor(a), Payload::Actor(b)) => bytes_eq(a, b),
            (Payload::BLS(a), Payload::BLS(b)) => bytes_eq(a, b),
            (
                Payload::Delegated { namespace: a, subaddress: x },
                Payload::Delegated { namespace: b, subaddress: y },
            ) => *a == *b && bytes_eq(x, y),
            _ => false,
        }
    }
}

} // verus!
