//! Trees of amounts and of identifiers with the ids of actors as their keys.
use cid::Cid as BlockCid;
use fvm_ipld_hamt::{Error as HamtError, Hamt};
use fvm_shared::bigint::{BigInt, BigUint, Sign};
use fvm_shared::econ::TokenAmount as Atto;
use vstd::prelude::*;

use crate::amount::TokenAmount;
use crate::bytes::{ActorID, Cid};
use crate::store;
use crate::store::{Blocks, Store};

verus! {

/// Amounts by actor.
pub type Amounts = Map<ActorID, int>;

/// Identifiers by actor.
pub type Links = Map<ActorID, Seq<u8>>;

/// What a hash tree of amounts by actor holds, read with the given width from its root in these
/// blocks. `None` where the root is not that of a complete tree of that width, as `set` and
/// `delete` build it, or the width is not one of 1 to 8.
pub uninterp spec fn amounts_at(blocks: Blocks, root: Seq<u8>, bit_width: u32) -> Option<Amounts>;

/// What a hash tree of identifiers by actor holds, as `amounts_at` has it for amounts.
pub uninterp spec fn links_at(blocks: Blocks, root: Seq<u8>, bit_width: u32) -> Option<Links>;

/// What a tree of trees holds: for each key, the amounts of the tree that is linked there.
pub open spec fn linked_amounts_at(blocks: Blocks, root: Seq<u8>, bit_width: u32) -> Option<
    Map<ActorID, Amounts>,
> {
    match links_at(blocks, root, bit_width) {
        Some(links) => if forall|k: ActorID| #[trigger]
            links.contains_key(k) ==> amounts_at(blocks, links[k], bit_width) is Some {
            Some(
                Map::new(
                    |k: ActorID| links.contains_key(k),
                    |k: ActorID| amounts_at(blocks, links[k], bit_width)->0,
                ),
            )
        } else {
            None
        },
        None => None,
    }
}

/// Actors and amounts as values.
pub open spec fn amount_pairs(entries: Seq<(ActorID, TokenAmount)>) -> Seq<(ActorID, int)> {
    Seq::new(entries.len(), |i: int| (entries[i].0, entries[i].1@))
}

/// Actors and identifiers as values.
pub open spec fn link_pairs(entries: Seq<(ActorID, Cid)>) -> Seq<(ActorID, Seq<u8>)> {
    Seq::new(entries.len(), |i: int| (entries[i].0, entries[i].1@))
}

/// Whether a lookup answers with what a map holds for an actor. What is stored could be stored.
pub open spec fn amount_found(found: Option<TokenAmount>, amounts: Amounts, key: ActorID) -> bool {
    match found {
        Some(a) => amounts.contains_key(key) && a@ == amounts[key] && store::storable(amounts[key]),
        None => !amounts.contains_key(key),
    }
}

/// Whether a lookup answers with the identifier that a map holds for an actor.
pub open spec fn link_found(found: Option<Cid>, links: Links, key: ActorID) -> bool {
    match found {
        Some(c) => links.contains_key(key) && c@ == links[key],
        None => !links.contains_key(key),
    }
}

/// `Hamt::load_with_bit_width` and `get` of `fvm_ipld_hamt`, for amounts by actor. It claims that in a
/// complete tree the result is the amount under the key, if there is one.
#[verifier::external_body]
pub(crate) fn amounts_get(
    store: &Store,
    root: &Cid,
    bit_width: u32,
    key: ActorID,
) -> (r: Result<Option<TokenAmount>, HamtError>)
    requires
        bit_width < 32,
    ensures
        amounts_at(store@, root@, bit_width) is Some ==> r is Ok && amount_found(
            r->Ok_0,
            amounts_at(store@, root@, bit_width)->0,
            key,
        ),
{
    let root = BlockCid::try_from(root.bytes.as_slice()).unwrap();
    let tree: Hamt<_, Atto, ActorID> = Hamt::load_with_bit_width(&root, &store.inner, bit_width)?;
    let found = tree.get(&key)?;
    Ok(found.map(|a| TokenAmount {
        negative: a.is_negative(),
        digits: a.atto().magnitude().to_u32_digits(),
    }))
}

/// `Hamt::load_with_bit_width`, `set` and `flush` of `fvm_ipld_hamt`, for amounts by actor, on a store in
/// memory. It claims that from a complete tree an amount that can be stored makes the tree with
/// that entry, that one that cannot is refused, and that older trees are left as they were.
#[verifier::external_body]
pub(crate) fn amounts_set(
    store: &mut Store,
    root: &Cid,
    bit_width: u32,
    key: ActorID,
    amount: &TokenAmount,
) -> (r: Result<Cid, HamtError>)
    requires
        bit_width < 32,
    ensures
        store::kept(old(store)@, final(store)@),
        amounts_at(old(store)@, root@, bit_width) is Some ==> r is Ok == store::storable(amount@),
        amounts_at(old(store)@, root@, bit_width) is Some && r is Ok ==> amounts_at(
            final(store)@,
            r->Ok_0@,
            bit_width,
        ) == Some(amounts_at(old(store)@, root@, bit_width)->0.insert(key, amount@)),
{
    let root = BlockCid::try_from(root.bytes.as_slice()).unwrap();
    let mut tree: Hamt<_, Atto, ActorID> = Hamt::load_with_bit_width(&root, &store.inner, bit_width)?;
    let sign = if amount.negative { Sign::Minus } else { Sign::Plus };
    let value = BigInt::from_biguint(sign, BigUint::new(amount.digits.clone()));
    tree.set(key, Atto::from_atto(value))?;
    Ok(Cid { bytes: tree.flush()?.to_bytes() })
}

/// `Hamt::load_with_bit_width`, `delete` and `flush` of `fvm_ipld_hamt`, for amounts by actor, on a store
/// in memory. It claims that from a complete tree it makes the tree without that entry and gives
/// the amount that was there, and that older trees are left as they were.
#[verifier::external_body]
pub(crate) fn amounts_delete(
    store: &mut Store,
    root: &Cid,
    bit_width: u32,
    key: ActorID,
) -> (r: Result<(Cid, Option<TokenAmount>), HamtError>)
    requires
        bit_width < 32,
    ensures
        store::kept(old(store)@, final(store)@),
        amounts_at(old(store)@, root@, bit_width) is Some ==> r is Ok && amount_found(
            r->Ok_0.1,
            amounts_at(old(store)@, root@, bit_width)->0,
            key,
        ),
        amounts_at(old(store)@, root@, bit_width) is Some ==> amounts_at(
            final(store)@,
            r->Ok_0.0@,
            bit_width,
        ) == Some(amounts_at(old(store)@, root@, bit_width)->0.remove(key)),
{
    let root = BlockCid::try_from(root.bytes.as_slice()).unwrap();
    let mut tree: Hamt<_, Atto, ActorID> = Hamt::load_with_bit_width(&root, &store.inner, bit_width)?;
    let gone = tree.delete(&key)?;
    let gone = gone.map(|(_, a)| TokenAmount {
        negative: a.is_negative(),
        digits: a.atto().magnitude().to_u32_digits(),
    });
    Ok((Cid { bytes: tree.flush()?.to_bytes() }, gone))
}

/// `Hamt::load_with_bit_width` and `is_empty` of `fvm_ipld_hamt`, for amounts by actor. It claims that of a
/// complete tree the result says whether it holds nothing.
#[verifier::external_body]
pub(crate) fn amounts_is_empty(store: &Store, root: &Cid, bit_width: u32) -> (r: Result<bool, HamtError>)
    requires
        bit_width < 32,
    ensures
        amounts_at(store@, root@, bit_width) is Some ==> r is Ok && r->Ok_0 == (amounts_at(
            store@,
            root@,
            bit_width,
        )->0 == Amounts::empty()),
{
    let root = BlockCid::try_from(root.bytes.as_slice()).unwrap();
    let tree: Hamt<_, Atto, ActorID> = Hamt::load_with_bit_width(&root, &store.inner, bit_width)?;
    Ok(tree.is_empty())
}

/// `Hamt::load_with_bit_width` and `for_each` of `fvm_ipld_hamt`, for amounts by actor. It claims that of a
/// complete tree the result holds every entry once, in no order that it promises.
#[verifier::external_body]
pub(crate) fn amounts_entries(
    store: &Store,
    root: &Cid,
    bit_width: u32,
) -> (r: Result<Vec<(ActorID, TokenAmount)>, HamtError>)
    requires
        bit_width < 32,
    ensures
        amounts_at(store@, root@, bit_width) is Some ==> r is Ok && store::lists(
            amount_pairs(r->Ok_0@),
            amounts_at(store@, root@, bit_width)->0,
        ),
{
    let root = BlockCid::try_from(root.bytes.as_slice()).unwrap();
    let tree: Hamt<_, Atto, ActorID> = Hamt::load_with_bit_width(&root, &store.inner, bit_width)?;
    let mut entries: Vec<(ActorID, TokenAmount)> = Vec::new();
    tree.for_each(|k, a| {
        let digits = a.atto().magnitude().to_u32_digits();
        entries.push((*k, TokenAmount { negative: a.is_negative(), digits }));
        Ok(())
    })?;
    Ok(entries)
}

/// `Hamt::load_with_bit_width` and `get` of `fvm_ipld_hamt`, for identifiers by actor. It claims that in a
/// complete tree the result is the identifier under the key, if there is one.
#[verifier::external_body]
pub(crate) fn links_get(
    store: &Store,
    root: &Cid,
    bit_width: u32,
    key: ActorID,
) -> (r: Result<Option<Cid>, HamtError>)
    requires
        bit_width < 32,
    ensures
        links_at(store@, root@, bit_width) is Some ==> r is Ok && link_found(
            r->Ok_0,
            links_at(store@, root@, bit_width)->0,
            key,
        ),
{
    let root = BlockCid::try_from(root.bytes.as_slice()).unwrap();
    let tree: Hamt<_, BlockCid, ActorID> = Hamt::load_with_bit_width(&root, &store.inner, bit_width)?;
    let found = tree.get(&key)?;
    Ok(found.map(|c| Cid { bytes: c.to_bytes() }))
}

/// `Hamt::load_with_bit_width`, `set` and `flush` of `fvm_ipld_hamt`, for identifiers by actor, on a store
/// in memory. It claims that from a complete tree it makes the tree with that entry, and that
/// older trees are left as they were.
#[verifier::external_body]
pub(crate) fn links_set(
    store: &mut Store,
    root: &Cid,
    bit_width: u32,
    key: ActorID,
    link: &Cid,
) -> (r: Result<Cid, HamtError>)
    requires
        bit_width < 32,
    ensures
        store::kept(old(store)@, final(store)@),
        links_at(old(store)@, root@, bit_width) is Some ==> r is Ok && links_at(final(store)@, r->Ok_0@, bit_width) == Some(
            links_at(old(store)@, root@, bit_width)->0.insert(key, link@),
        ),
{
    let root = BlockCid::try_from(root.bytes.as_slice()).unwrap();
    let link = BlockCid::try_from(link.bytes.as_slice()).unwrap();
    let mut tree: Hamt<_, BlockCid, ActorID> = Hamt::load_with_bit_width(&root, &store.inner, bit_width)?;
    tree.set(key, link)?;
    Ok(Cid { bytes: tree.flush()?.to_bytes() })
}

/// `Hamt::load_with_bit_width`, `delete` and `flush` of `fvm_ipld_hamt`, for identifiers by actor, on a
/// store in memory. It claims that from a complete tree it makes the tree without that entry, and
/// that older trees are left as they were.
#[verifier::external_body]
pub(crate) fn links_delete(
    store: &mut Store,
    root: &Cid,
    bit_width: u32,
    key: ActorID,
) -> (r: Result<Cid, HamtError>)
    requires
        bit_width < 32,
    ensures
        store::kept(old(store)@, final(store)@),
        links_at(old(store)@, root@, bit_width) is Some ==> r is Ok && links_at(
            final(store)@,
            r->Ok_0@,
            bit_width,
        ) == Some(links_at(old(store)@, root@, bit_width)->0.remove(key)),
{
    let root = BlockCid::try_from(root.bytes.as_slice()).unwrap();
    let mut tree: Hamt<_, BlockCid, ActorID> = Hamt::load_with_bit_width(&root, &store.inner, bit_width)?;
    tree.delete(&key)?;
    Ok(Cid { bytes: tree.flush()?.to_bytes() })
}

/// `Hamt::load_with_bit_width` and `for_each` of `fvm_ipld_hamt`, for identifiers by actor. It claims that
/// of a complete tree the result holds every entry once, in no order that it promises.
#[verifier::external_body]
pub(crate) fn links_entries(
    store: &Store,
    root: &Cid,
    bit_width: u32,
) -> (r: Result<Vec<(ActorID, Cid)>, HamtError>)
    requires
        bit_width < 32,
    ensures
        links_at(store@, root@, bit_width) is Some ==> r is Ok && store::lists(
            link_pairs(r->Ok_0@),
            links_at(store@, root@, bit_width)->0,
        ),
{
    let root = BlockCid::try_from(root.bytes.as_slice()).unwrap();
    let tree: Hamt<_, BlockCid, ActorID> = Hamt::load_with_bit_width(&root, &store.inner, bit_width)?;
    let mut entries: Vec<(ActorID, Cid)> = Vec::new();
    tree.for_each(|k, c| {
        entries.push((*k, Cid { bytes: c.to_bytes() }));
        Ok(())
    })?;
    Ok(entries)
}

/// A tree of trees that is kept reads the same.
pub proof fn lemma_linked_kept(earlier: Blocks, later: Blocks, root: Seq<u8>, bit_width: u32)
    requires
        store::kept(earlier, later),
        linked_amounts_at(earlier, root, bit_width) is Some,
    ensures
        linked_amounts_at(later, root, bit_width) == linked_amounts_at(earlier, root, bit_width),
{
    let links = links_at(earlier, root, bit_width)->0;
    assert(links_at(later, root, bit_width) == Some(links));
    assert forall|k: ActorID| #[trigger] links.contains_key(k) implies amounts_at(
        later,
        links[k],
        bit_width,
    ) == amounts_at(earlier, links[k], bit_width) && amounts_at(later, links[k], bit_width) is Some by {
        assert(amounts_at(earlier, links[k], bit_width) is Some);
    }
    assert(linked_amounts_at(later, root, bit_width)->0 =~= linked_amounts_at(
        earlier,
        root,
        bit_width,
    )->0);
}

} // verus!
