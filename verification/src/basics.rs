//! What keys, addresses, identifiers and stores are for, said of what goes in and what comes out.
use vstd::prelude::*;

use crate::address::{Address, AddressError, Protocol};
use crate::bytes::{ActorID, Cid, RawBytes};
use crate::exit::{ExitCode, OK};
use crate::fvm_actor_utils::blockstore::{Blockstore, WrongCid};
use crate::greeter;
use crate::greeter::Outcome;
use crate::keys;
use crate::keys::{actor_id_key, decode_actor_id, BytesKey};
use crate::store::Store;

verus! {

/// The actor of a key is the actor that the key was made of, and two actors have two keys.
pub proof fn a_key_is_its_actors(
    a: ActorID,
    b: ActorID,
    x: BytesKey,
    y: BytesKey,
    back: Option<ActorID>,
)
    requires
        call_ensures(actor_id_key, (a,), x),
        call_ensures(actor_id_key, (b,), y),
        call_ensures(decode_actor_id, (&x,), back),
    ensures
        back == Some(a),
        a != b ==> x@ != y@,
{
    keys::key_names_its_actor(a);
    keys::keys_differ(a, b);
}

/// An address of an id is of that kind and gives the id back. An address of another kind gives none. Two
/// addresses are the same just where they are equal, so those of two ids are not.
pub proof fn an_id_address_gives_its_id(
    id: ActorID,
    n: ActorID,
    a: Address,
    b: Address,
    back: Result<ActorID, AddressError>,
    kind: Protocol,
    same: bool,
    other: Address,
    other_kind: Protocol,
    other_id: Result<ActorID, AddressError>,
)
    requires
        call_ensures(Address::new_id, (id,), a),
        call_ensures(Address::new_id, (n,), b),
        call_ensures(Address::id, (&a,), back),
        call_ensures(Address::protocol, (&a,), kind),
        call_ensures(Address::same, (&a, &b), same),
        call_ensures(Address::protocol, (&other,), other_kind),
        call_ensures(Address::id, (&other,), other_id),
    ensures
        back == Ok::<ActorID, AddressError>(id),
        kind == Protocol::ID,
        same == (id == n),
        other_id is Ok == (other_kind == Protocol::ID),
        other_id is Err ==> other_id->Err_0 is NonIDAddress,
{
}

/// A block that was put is found under the identifier that came back, and every other block that was
/// found is still found.
pub proof fn what_is_put_is_found(
    bs: &mut Store,
    block: Vec<u8>,
    cid: Cid,
    other: Cid,
    found: Option<Vec<u8>>,
    before: Option<Vec<u8>>,
    after: Option<Vec<u8>>,
)
    requires
        call_ensures(Store::put, (bs, block), cid),
        call_ensures(Store::get, (&*final(bs), &cid), found),
        call_ensures(Store::get, (&*old(bs), &other), before),
        call_ensures(Store::get, (&*final(bs), &other), after),
    ensures
        found is Some && found->0@ == block@,
        before is Some ==> after is Some && after->0@ == before->0@,
        after is Some ==> before is Some || other@ == cid@,
{
}

/// A new store has no blocks.
pub proof fn a_new_store_is_empty(bs: Store, cid: Cid, found: Option<Vec<u8>>)
    requires
        call_ensures(Store::new, (), bs),
        call_ensures(Store::get, (&bs, &cid), found),
    ensures
        found is None,
{
}

/// An identifier is read from its own bytes, and is the same as another just where their bytes are.
pub proof fn an_identifier_is_its_bytes(
    a: Cid,
    b: Cid,
    bytes: Vec<u8>,
    copy: Vec<u8>,
    back: Option<Cid>,
    same: bool,
)
    requires
        call_ensures(Cid::to_bytes, (&a,), bytes),
        copy@ == bytes@,
        call_ensures(Cid::from_bytes, (copy,), back),
        call_ensures(Cid::same, (&a, &b), same),
    ensures
        back is Some ==> back->0@ == a@,
        same == (a@ == b@),
{
}

/// Bytes are handed back as they were given.
pub proof fn raw_bytes_are_kept(bytes: Vec<u8>, raw: RawBytes, back: &Vec<u8>)
    requires
        call_ensures(RawBytes::new, (bytes,), raw),
        call_ensures(RawBytes::bytes, (&raw,), back),
    ensures
        back@ == bytes@,
{
}

/// A block was put as wanted just where both identifiers are the same; otherwise both are named, each in
/// its place.
pub proof fn a_wrong_identifier_is_noticed(
    bs: Blockstore,
    wanted: Cid,
    actual: Cid,
    r: Result<(), WrongCid>,
)
    requires
        call_ensures(Blockstore::put_keyed, (&bs, &wanted, &actual), r),
    ensures
        r is Ok == (wanted@ == actual@),
        r is Err ==> r->Err_0.wanted@ == wanted@ && r->Err_0.actual@ == actual@,
{
}

/// Zero alone is success.
pub proof fn zero_alone_is_success(value: u32, code: ExitCode, r: bool)
    requires
        call_ensures(ExitCode::new, (value,), code),
        call_ensures(ExitCode::is_success, (&code,), r),
    ensures
        r == (value == 0),
        OK == 0,
{
}

/// A greeting ends with the name and begins the same for every name. Who greets by message is greeted in
/// the same words, and only the two methods that there are return anything.
pub proof fn a_greeting_names_who_is_greeted(
    a: &str,
    b: &str,
    x: String,
    y: String,
    method: u64,
    params: Option<Vec<u8>>,
    r: Outcome,
)
    requires
        call_ensures(greeter::greet, (a,), x),
        call_ensures(greeter::greet, (b,), y),
        call_ensures(greeter::invoke, (method, params), r),
    ensures
        x@ == "Hello, "@ + a@,
        x@.skip(x@.len() - a@.len()) == a@,
        x@.len() - a@.len() == y@.len() - b@.len(),
        x@.take(x@.len() - a@.len()) == y@.take(y@.len() - b@.len()),
        r is Returned ==> method == greeter::CONSTRUCTOR || method == greeter::GREET,
        method == greeter::GREET && params is Some && greeter::text_of(params->0@) == Some(a@)
            ==> r is Returned && r->Returned_0 is Some && r->Returned_0->0@ == greeter::text_cbor(x@),
{
    let words = "Hello, "@;
    assert((words + a@).skip(words.len() as int) =~= a@);
    assert((words + a@).take(words.len() as int) =~= words);
    assert((words + b@).take(words.len() as int) =~= words);
}

} // verus!
