//! Keys of the hash trees: actor ids as variable-length integers.
use integer_encoding::VarInt;
use vstd::prelude::*;

use crate::bytes::ActorID;

verus! {

/// A key of a hash tree.
#[derive(Debug, PartialEq, Eq)]
pub struct BytesKey {
    /// The bytes of the key.
    pub bytes: Vec<u8>,
}

impl View for BytesKey {
    type V = Seq<u8>;

    open spec fn view(&self) -> Seq<u8> {
        self.bytes@
    }
}

/// A number in groups of seven bits, the lowest first; every byte but the last has its top bit
/// set.
pub open spec fn varint(n: nat) -> Seq<u8>
    decreases n,
{
    if n < 128 {
        seq![n as u8]
    } else {
        seq![(n % 128 + 128) as u8] + varint(n / 128)
    }
}

/// The number that the bytes from position `i` on begin with. It ends at the first byte without
/// its top bit; a tenth byte may only hold the one bit that is left of 64.
pub open spec fn varint_from(bytes: Seq<u8>, i: int) -> Option<nat>
    decreases 10 - i,
{
    if i < 0 || i > 9 || i >= bytes.len() {
        None
    } else if i == 9 {
        if bytes[i] < 2 {
            Some(bytes[i] as nat)
        } else {
            None
        }
    } else if bytes[i] < 128 {
        Some(bytes[i] as nat)
    } else {
        match varint_from(bytes, i + 1) {
            Some(rest) => Some((bytes[i] - 128 + 128 * rest) as nat),
            None => None,
        }
    }
}

/// The key of an actor.
pub open spec fn key_of(id: ActorID) -> Seq<u8> {
    varint(id as nat)
}

/// The actor that a key stands for, if it stands for any.
pub open spec fn id_of(key: Seq<u8>) -> Option<ActorID> {
    match varint_from(key, 0) {
        Some(n) => Some(n as u64),
        None => None,
    }
}

/// How many values a number may have from position `i` on.
spec fn room(i: int) -> nat
    decreases 9 - i,
{
    if i >= 9 {
        2
    } else {
        128 * room(i + 1)
    }
}

proof fn lemma_varint_from(prefix: Seq<u8>, n: nat)
    requires
        prefix.len() <= 9,
        n < room(prefix.len() as int),
    ensures
        varint_from(prefix + varint(n), prefix.len() as int) == Some(n),
    decreases n,
{
    let i = prefix.len() as int;
    let bytes = prefix + varint(n);
    assert(bytes[i] == varint(n)[0]);
    if n >= 128 {
        assert(i < 9);
        let head = (n % 128 + 128) as u8;
        let longer = prefix.push(head);
        assert(longer + varint(n / 128) =~= bytes);
        assert(n / 128 < room(i + 1)) by (nonlinear_arith)
            requires
                n < 128 * room(i + 1),
        ;
        lemma_varint_from(longer, n / 128);
    }
}

/// Reading a key gives back the actor that it was made of.
pub proof fn key_names_its_actor(id: ActorID)
    ensures
        id_of(key_of(id)) == Some(id),
{
    reveal_with_fuel(room, 10);
    lemma_varint_from(Seq::empty(), id as nat);
    assert(Seq::<u8>::empty() + varint(id as nat) =~= varint(id as nat));
}

/// No two actors have the same key.
pub proof fn keys_differ(a: ActorID, b: ActorID)
    ensures
        key_of(a) == key_of(b) ==> a == b,
{
    key_names_its_actor(a);
    key_names_its_actor(b);
}

/// `VarInt::encode_var_vec` of `integer_encoding` on a `u64`. It claims that the result is the
/// number in groups of seven bits.
#[verifier::external_body]
fn encode_var(n: u64) -> (r: Vec<u8>)
    ensures
        r@ == varint(n as nat),
{
    n.encode_var_vec()
}

/// `VarInt::decode_var` of `integer_encoding` for a `u64`, without the number of bytes read. It
/// claims that the result is the number that the bytes begin with, and `None` where there is none.
#[verifier::external_body]
fn decode_var(bytes: &Vec<u8>) -> (r: Option<u64>)
    ensures
        r == id_of(bytes@),
{
    u64::decode_var(bytes.as_slice()).map(|found| found.0)
}

/// The key under which an actor's entries are stored.
pub fn actor_id_key(a: ActorID) -> (r: BytesKey)
    ensures
        r@ == key_of(a),
{
    BytesKey { bytes: encode_var(a) }
}

/// The actor whose entries are stored under a key.
pub fn decode_actor_id(key: &BytesKey) -> (r: Option<ActorID>)
    ensures
        r == id_of(key@),
{
    decode_var(&key.bytes)
}

} // verus!
