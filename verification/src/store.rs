//! The block store, and the trees that are kept in it.
//!
//! A block is found by the hash of its bytes, so a tree is known by the identifier of its root:
//! every change makes a new root and leaves the trees under the old ones as they were. That two
//! different blocks never have the same hash is taken for granted throughout.
use cid::Cid as BlockCid;
use fvm_ipld_blockstore::{Block, Blockstore, MemoryBlockstore};
use fvm_ipld_encoding::DAG_CBOR;
use fvm_ipld_hamt::{BytesKey as HamtKey, Error as HamtError, Hamt};
use fvm_shared::bigint::{BigInt, BigUint, Sign};
use fvm_shared::econ::TokenAmount as Atto;
use multihash_codetable::Code;
use vstd::prelude::*;

use crate::amount::TokenAmount;
use crate::bytes::Cid;
use crate::id_store;
use crate::keys::BytesKey;
use crate::nft_store;

verus! {

/// `MemoryBlockstore` of `fvm_ipld_blockstore`: a map from identifiers to blocks.
#[verifier::external_type_specification]
#[verifier::external_body]
pub struct ExMemoryBlockstore(MemoryBlockstore);

/// `Error` of `fvm_ipld_hamt`.
#[verifier::external_type_specification]
#[verifier::external_body]
pub struct ExHamtError(HamtError);

/// Blocks by their identifiers.
pub type Blocks = Map<Seq<u8>, Seq<u8>>;

/// Amounts by the keys of a hash tree.
pub type Amounts = Map<Seq<u8>, int>;

/// Identifiers by the keys of a hash tree.
pub type Links = Map<Seq<u8>, Seq<u8>>;

/// What a block store holds: the bytes of each block, by its identifier.
pub uninterp spec fn held_blocks(store: MemoryBlockstore) -> Blocks;

/// The identifier of a block of DAG-CBOR: its BLAKE2b-256 hash, with the codec.
pub uninterp spec fn dag_cbor_cid(block: Seq<u8>) -> Seq<u8>;

/// Whether an identifier is that of a block of CBOR, plain or with links.
pub uninterp spec fn cbor_codec(cid: Seq<u8>) -> bool;

/// What a hash tree of amounts holds, read with the given width from its root in these blocks.
/// `None` where the root is not that of a complete tree of that width, as `set` and `delete`
/// build it, or the width is not one of 1 to 8.
pub uninterp spec fn amounts_at(blocks: Blocks, root: Seq<u8>, bit_width: u32) -> Option<Amounts>;

/// What a hash tree of identifiers holds, as `amounts_at` has it for amounts.
pub uninterp spec fn links_at(blocks: Blocks, root: Seq<u8>, bit_width: u32) -> Option<Links>;

/// What a tree of trees holds: for each key, the amounts of the tree that is linked there.
pub open spec fn linked_amounts_at(blocks: Blocks, root: Seq<u8>, bit_width: u32) -> Option<
    Map<Seq<u8>, Amounts>,
> {
    match links_at(blocks, root, bit_width) {
        Some(links) => if forall|k: Seq<u8>| #[trigger]
            links.contains_key(k) ==> amounts_at(blocks, links[k], bit_width) is Some {
            Some(
                Map::new(
                    |k: Seq<u8>| links.contains_key(k),
                    |k: Seq<u8>| amounts_at(blocks, links[k], bit_width)->0,
                ),
            )
        } else {
            None
        },
        None => None,
    }
}

/// Whether an amount can be written to a block: its absolute value takes no more than 127 bytes.
pub open spec fn storable(amount: int) -> bool {
    -(vstd::arithmetic::power2::pow2(1016) as int) < amount < vstd::arithmetic::power2::pow2(1016)
}

/// Every block and every tree that could be read from the earlier blocks reads the same from the
/// later ones.
pub open spec fn kept(earlier: Blocks, later: Blocks) -> bool {
    &&& earlier.submap_of(later)
    &&& forall|root: Seq<u8>, w: u32|
        #![trigger amounts_at(earlier, root, w)]
        #![trigger amounts_at(later, root, w)]
        amounts_at(earlier, root, w) is Some ==> amounts_at(later, root, w) == amounts_at(
            earlier,
            root,
            w,
        )
    &&& forall|root: Seq<u8>, w: u32|
        #![trigger links_at(earlier, root, w)]
        #![trigger links_at(later, root, w)]
        links_at(earlier, root, w) is Some ==> links_at(later, root, w) == links_at(
            earlier,
            root,
            w,
        )
    &&& forall|root: Seq<u8>|
        #![trigger nft_store::tokens_at(earlier, root)]
        #![trigger nft_store::tokens_at(later, root)]
        nft_store::tokens_at(earlier, root) is Some ==> nft_store::tokens_at(later, root)
            == nft_store::tokens_at(earlier, root)
    &&& forall|root: Seq<u8>, w: u32|
        #![trigger nft_store::owners_at(earlier, root, w)]
        #![trigger nft_store::owners_at(later, root, w)]
        nft_store::owners_at(earlier, root, w) is Some ==> nft_store::owners_at(later, root, w)
            == nft_store::owners_at(earlier, root, w)
    &&& forall|root: Seq<u8>, w: u32|
        #![trigger id_store::amounts_at(earlier, root, w)]
        #![trigger id_store::amounts_at(later, root, w)]
        id_store::amounts_at(earlier, root, w) is Some ==> id_store::amounts_at(later, root, w)
            == id_store::amounts_at(earlier, root, w)
    &&& forall|root: Seq<u8>, w: u32|
        #![trigger id_store::links_at(earlier, root, w)]
        #![trigger id_store::links_at(later, root, w)]
        id_store::links_at(earlier, root, w) is Some ==> id_store::links_at(later, root, w)
            == id_store::links_at(earlier, root, w)
    &&& forall|root: Seq<u8>|
        #![trigger nft_store::actors_at(earlier, root)]
        #![trigger nft_store::actors_at(later, root)]
        nft_store::actors_at(earlier, root) is Some ==> nft_store::actors_at(later, root)
            == nft_store::actors_at(earlier, root)
}

/// Whether pairs are the entries of a map: each key once, with its value, and none left out.
pub open spec fn lists<K, V>(pairs: Seq<(K, V)>, map: Map<K, V>) -> bool {
    &&& map.dom().finite()
    &&& pairs.len() == map.dom().len()
    &&& forall|i: int|
        0 <= i < pairs.len() ==> map.contains_key((#[trigger] pairs[i]).0) && map[pairs[i].0]
            == pairs[i].1
    &&& forall|i: int, j: int|
        0 <= i < j < pairs.len() ==> (#[trigger] pairs[i]).0 != (#[trigger] pairs[j]).0
}

/// Keys and amounts as values.
pub open spec fn amount_pairs(entries: Seq<(BytesKey, TokenAmount)>) -> Seq<(Seq<u8>, int)> {
    Seq::new(entries.len(), |i: int| (entries[i].0@, entries[i].1@))
}

/// Keys and identifiers as values.
pub open spec fn link_pairs(entries: Seq<(BytesKey, Cid)>) -> Seq<(Seq<u8>, Seq<u8>)> {
    Seq::new(entries.len(), |i: int| (entries[i].0@, entries[i].1@))
}

/// Without its last entry, a list is that of the map without that key.
pub proof fn lemma_lists_drop_last<K, V>(pairs: Seq<(K, V)>, map: Map<K, V>)
    requires
        lists(pairs, map),
        pairs.len() > 0,
    ensures
        map.contains_key(pairs.last().0),
        lists(pairs.drop_last(), map.remove(pairs.last().0)),
{
    let rest = pairs.drop_last();
    let last = pairs.len() - 1;
    assert(pairs[last] == pairs.last());
    assert forall|i: int| 0 <= i < rest.len() implies map.remove(pairs.last().0).contains_key(
        (#[trigger] rest[i]).0,
    ) && map.remove(pairs.last().0)[rest[i].0] == rest[i].1 by {
        assert(rest[i] == pairs[i]);
        assert(pairs[i].0 != pairs[last].0);
    }
}

/// A list leaves out no key.
pub proof fn lemma_lists_all<K, V>(pairs: Seq<(K, V)>, map: Map<K, V>, key: K)
    requires
        lists(pairs, map),
        map.contains_key(key),
    ensures
        exists|i: int| 0 <= i < pairs.len() && (#[trigger] pairs[i]).0 == key,
    decreases pairs.len(),
{
    if pairs.len() == 0 {
        assert(map.dom().len() == 0);
        assert(false);
    } else {
        lemma_lists_drop_last(pairs, map);
        let last = pairs.len() - 1;
        if pairs[last].0 != key {
            lemma_lists_all(pairs.drop_last(), map.remove(pairs.last().0), key);
            let i = choose|i: int|
                0 <= i < pairs.drop_last().len() && (#[trigger] pairs.drop_last()[i]).0 == key;
            assert(pairs[i].0 == key);
        }
    }
}

/// Whether a lookup answers with what a map holds under a key. What is stored could be stored.
pub open spec fn amount_found(found: Option<TokenAmount>, amounts: Amounts, key: Seq<u8>) -> bool {
    match found {
        Some(a) => amounts.contains_key(key) && a@ == amounts[key] && storable(amounts[key]),
        None => !amounts.contains_key(key),
    }
}

/// Whether a lookup answers with the identifier that a map holds under a key.
pub open spec fn link_found(found: Option<Cid>, links: Links, key: Seq<u8>) -> bool {
    match found {
        Some(c) => links.contains_key(key) && c@ == links[key],
        None => !links.contains_key(key),
    }
}

/// A store of blocks in memory.
#[derive(Debug)]
pub struct Store {
    /// The blocks.
    pub(crate) inner: MemoryBlockstore,
}

impl View for Store {
    type V = Blocks;

    closed spec fn view(&self) -> Blocks {
        held_blocks(self.inner)
    }
}

/// `MemoryBlockstore::new` of `fvm_ipld_blockstore`. It claims that a new store holds no block.
#[verifier::external_body]
fn empty_blocks() -> (r: MemoryBlockstore)
    ensures
        held_blocks(r) == Blocks::empty(),
{
    MemoryBlockstore::new()
}

/// `MemoryBlockstore::clone` of `fvm_ipld_blockstore`. It claims that the copy holds the same
/// blocks.
#[verifier::external_body]
fn copied_blocks(store: &MemoryBlockstore) -> (r: MemoryBlockstore)
    ensures
        held_blocks(r) == held_blocks(*store),
{
    store.clone()
}

/// `Blockstore::get` of `fvm_ipld_blockstore` on a store in memory, which never fails. It claims
/// that the result is the block with that identifier, if the store holds one.
#[verifier::external_body]
fn get_block(store: &Store, cid: &Cid) -> (r: Option<Vec<u8>>)
    ensures
        r is Some == store@.contains_key(cid@),
        r is Some ==> r->0@ == store@[cid@],
{
    let cid = BlockCid::try_from(cid.bytes.as_slice()).unwrap();
    store.inner.get(&cid).unwrap()
}

/// `Blockstore::put` of `fvm_ipld_blockstore` on a store in memory, which never fails. It claims
/// that the block is then held under its identifier, and that nothing else changes.
#[verifier::external_body]
fn put_block(store: &mut Store, block: Vec<u8>) -> (r: Cid)
    ensures
        r@ == dag_cbor_cid(block@),
        cbor_codec(r@),
        final(store)@ == old(store)@.insert(r@, block@),
        kept(old(store)@, final(store)@),
{
    let cid = store.inner.put(Code::Blake2b256, &Block::new(DAG_CBOR, block)).unwrap();
    Cid { bytes: cid.to_bytes() }
}

/// `Hamt::new_with_bit_width` and `flush` of `fvm_ipld_hamt` on a store in memory. It claims that
/// the new root is that of an empty tree, whatever the tree is to hold.
#[verifier::external_body]
pub(crate) fn empty_tree(store: &mut Store, bit_width: u32) -> (r: Result<Cid, HamtError>)
    requires
        bit_width < 32,
    ensures
        kept(old(store)@, final(store)@),
        r is Ok,
        1 <= bit_width <= 8 ==> amounts_at(final(store)@, r->Ok_0@, bit_width) == Some(
            Amounts::empty(),
        ),
        1 <= bit_width <= 8 ==> links_at(final(store)@, r->Ok_0@, bit_width) == Some(
            Links::empty(),
        ),
        1 <= bit_width <= 8 ==> nft_store::owners_at(final(store)@, r->Ok_0@, bit_width) == Some(
            nft_store::Owners::empty(),
        ),
        1 <= bit_width <= 8 ==> id_store::amounts_at(final(store)@, r->Ok_0@, bit_width) == Some(
            id_store::Amounts::empty(),
        ),
        1 <= bit_width <= 8 ==> id_store::links_at(final(store)@, r->Ok_0@, bit_width) == Some(
            id_store::Links::empty(),
        ),
{
    let mut tree: Hamt<_, (), HamtKey> = Hamt::new_with_bit_width(&store.inner, bit_width);
    Ok(Cid { bytes: tree.flush()?.to_bytes() })
}

/// `Hamt::load_with_bit_width` and `get` of `fvm_ipld_hamt`, for amounts. It claims that in a
/// complete tree the result is the amount under the key, if there is one.
#[verifier::external_body]
pub(crate) fn amounts_get(
    store: &Store,
    root: &Cid,
    bit_width: u32,
    key: &BytesKey,
) -> (r: Result<Option<TokenAmount>, HamtError>)
    requires
        bit_width < 32,
    ensures
        amounts_at(store@, root@, bit_width) is Some ==> r is Ok && amount_found(
            r->Ok_0,
            amounts_at(store@, root@, bit_width)->0,
            key@,
        ),
{
    let root = BlockCid::try_from(root.bytes.as_slice()).unwrap();
    let tree: Hamt<_, Atto, HamtKey> = Hamt::load_with_bit_width(&root, &store.inner, bit_width)?;
    let found = tree.get(&HamtKey(key.bytes.clone()))?;
    Ok(found.map(|a| TokenAmount {
        negative: a.is_negative(),
        digits: a.atto().magnitude().to_u32_digits(),
    }))
}

/// `Hamt::load_with_bit_width`, `set` and `flush` of `fvm_ipld_hamt`, for amounts, on a store in
/// memory. It claims that from a complete tree an amount that can be stored makes the tree with
/// that entry, that one that cannot is refused, and that older trees are left as they were.
#[verifier::external_body]
pub(crate) fn amounts_set(
    store: &mut Store,
    root: &Cid,
    bit_width: u32,
    key: &BytesKey,
    amount: &TokenAmount,
) -> (r: Result<Cid, HamtError>)
    requires
        bit_width < 32,
    ensures
        kept(old(store)@, final(store)@),
        amounts_at(old(store)@, root@, bit_width) is Some ==> r is Ok == storable(amount@),
        amounts_at(old(store)@, root@, bit_width) is Some && r is Ok ==> amounts_at(
            final(store)@,
            r->Ok_0@,
            bit_width,
        ) == Some(amounts_at(old(store)@, root@, bit_width)->0.insert(key@, amount@)),
{
    let root = BlockCid::try_from(root.bytes.as_slice()).unwrap();
    let mut tree: Hamt<_, Atto, HamtKey> = Hamt::load_with_bit_width(&root, &store.inner, bit_width)?;
    let sign = if amount.negative { Sign::Minus } else { Sign::Plus };
    let value = BigInt::from_biguint(sign, BigUint::new(amount.digits.clone()));
    tree.set(HamtKey(key.bytes.clone()), Atto::from_atto(value))?;
    Ok(Cid { bytes: tree.flush()?.to_bytes() })
}

/// `Hamt::load_with_bit_width`, `delete` and `flush` of `fvm_ipld_hamt`, for amounts, on a store
/// in memory. It claims that from a complete tree it makes the tree without that entry and gives
/// the amount that was there, and that older trees are left as they were.
#[verifier::external_body]
pub(crate) fn amounts_delete(
    store: &mut Store,
    root: &Cid,
    bit_width: u32,
    key: &BytesKey,
) -> (r: Result<(Cid, Option<TokenAmount>), HamtError>)
    requires
        bit_width < 32,
    ensures
        kept(old(store)@, final(store)@),
        amounts_at(old(store)@, root@, bit_width) is Some ==> r is Ok && amount_found(
            r->Ok_0.1,
            amounts_at(old(store)@, root@, bit_width)->0,
            key@,
        ),
        amounts_at(old(store)@, root@, bit_width) is Some ==> amounts_at(
            final(store)@,
            r->Ok_0.0@,
            bit_width,
        ) == Some(amounts_at(old(store)@, root@, bit_width)->0.remove(key@)),
{
    let root = BlockCid::try_from(root.bytes.as_slice()).unwrap();
    let mut tree: Hamt<_, Atto, HamtKey> = Hamt::load_with_bit_width(&root, &store.inner, bit_width)?;
    let gone = tree.delete(&HamtKey(key.bytes.clone()))?;
    let gone = gone.map(|(_, a)| TokenAmount {
        negative: a.is_negative(),
        digits: a.atto().magnitude().to_u32_digits(),
    });
    Ok((Cid { bytes: tree.flush()?.to_bytes() }, gone))
}

/// `Hamt::load_with_bit_width` and `is_empty` of `fvm_ipld_hamt`, for amounts. It claims that of a
/// complete tree the result says whether it holds nothing.
#[verifier::external_body]
pub(crate) fn amounts_is_empty(store: &Store, root: &Cid, bit_width: u32) -> (r: Result<bool, HamtError>)
    requires
        bit_width < 32,
    ensures
        amounts_at(store@, root@, bit_width) is Some ==> r is Ok && r->Ok_0 == (amounts_at(
            store@,
            root@,
            bit_width,
        )->0 == Amounts::empty()),
{
    let root = BlockCid::try_from(root.bytes.as_slice()).unwrap();
    let tree: Hamt<_, Atto, HamtKey> = Hamt::load_with_bit_width(&root, &store.inner, bit_width)?;
    Ok(tree.is_empty())
}

/// `Hamt::load_with_bit_width` and `for_each` of `fvm_ipld_hamt`, for amounts. It claims that of a
/// complete tree the result holds every entry once, in no order that it promises.
#[verifier::external_body]
pub(crate) fn amounts_entries(
    store: &Store,
    root: &Cid,
    bit_width: u32,
) -> (r: Result<Vec<(BytesKey, TokenAmount)>, HamtError>)
    requires
        bit_width < 32,
    ensures
        amounts_at(store@, root@, bit_width) is Some ==> r is Ok && lists(
            amount_pairs(r->Ok_0@),
            amounts_at(store@, root@, bit_width)->0,
        ),
{
    let root = BlockCid::try_from(root.bytes.as_slice()).unwrap();
    let tree: Hamt<_, Atto, HamtKey> = Hamt::load_with_bit_width(&root, &store.inner, bit_width)?;
    let mut entries: Vec<(BytesKey, TokenAmount)> = Vec::new();
    tree.for_each(|k, a| {
        let digits = a.atto().magnitude().to_u32_digits();
        entries.push((BytesKey { bytes: k.0.clone() }, TokenAmount { negative: a.is_negative(), digits }));
        Ok(())
    })?;
    Ok(entries)
}

/// `Hamt::load_with_bit_width` and `get` of `fvm_ipld_hamt`, for identifiers. It claims that in a
/// complete tree the result is the identifier under the key, if there is one.
#[verifier::external_body]
pub(crate) fn links_get(
    store: &Store,
    root: &Cid,
    bit_width: u32,
    key: &BytesKey,
) -> (r: Result<Option<Cid>, HamtError>)
    requires
        bit_width < 32,
    ensures
        links_at(store@, root@, bit_width) is Some ==> r is Ok && link_found(
            r->Ok_0,
            links_at(store@, root@, bit_width)->0,
            key@,
        ),
{
    let root = BlockCid::try_from(root.bytes.as_slice()).unwrap();
    let tree: Hamt<_, BlockCid, HamtKey> = Hamt::load_with_bit_width(&root, &store.inner, bit_width)?;
    let found = tree.get(&HamtKey(key.bytes.clone()))?;
    Ok(found.map(|c| Cid { bytes: c.to_bytes() }))
}

/// `Hamt::load_with_bit_width`, `set` and `flush` of `fvm_ipld_hamt`, for identifiers, on a store
/// in memory. It claims that from a complete tree it makes the tree with that entry, and that
/// older trees are left as they were.
#[verifier::external_body]
pub(crate) fn links_set(
    store: &mut Store,
    root: &Cid,
    bit_width: u32,
    key: &BytesKey,
    link: &Cid,
) -> (r: Result<Cid, HamtError>)
    requires
        bit_width < 32,
    ensures
        kept(old(store)@, final(store)@),
        links_at(old(store)@, root@, bit_width) is Some ==> r is Ok && links_at(final(store)@, r->Ok_0@, bit_width) == Some(
            links_at(old(store)@, root@, bit_width)->0.insert(key@, link@),
        ),
{
    let root = BlockCid::try_from(root.bytes.as_slice()).unwrap();
    let link = BlockCid::try_from(link.bytes.as_slice()).unwrap();
    let mut tree: Hamt<_, BlockCid, HamtKey> = Hamt::load_with_bit_width(&root, &store.inner, bit_width)?;
    tree.set(HamtKey(key.bytes.clone()), link)?;
    Ok(Cid { bytes: tree.flush()?.to_bytes() })
}

/// `Hamt::load_with_bit_width`, `delete` and `flush` of `fvm_ipld_hamt`, for identifiers, on a
/// store in memory. It claims that from a complete tree it makes the tree without that entry, and
/// that older trees are left as they were.
#[verifier::external_body]
pub(crate) fn links_delete(
    store: &mut Store,
    root: &Cid,
    bit_width: u32,
    key: &BytesKey,
) -> (r: Result<Cid, HamtError>)
    requires
        bit_width < 32,
    ensures
        kept(old(store)@, final(store)@),
        links_at(old(store)@, root@, bit_width) is Some ==> r is Ok && links_at(
            final(store)@,
            r->Ok_0@,
            bit_width,
        ) == Some(links_at(old(store)@, root@, bit_width)->0.remove(key@)),
{
    let root = BlockCid::try_from(root.bytes.as_slice()).unwrap();
    let mut tree: Hamt<_, BlockCid, HamtKey> = Hamt::load_with_bit_width(&root, &store.inner, bit_width)?;
    tree.delete(&HamtKey(key.bytes.clone()))?;
    Ok(Cid { bytes: tree.flush()?.to_bytes() })
}

/// `Hamt::load_with_bit_width` and `is_empty` of `fvm_ipld_hamt`, for identifiers. It claims that
/// of a complete tree the result says whether it holds nothing.
#[verifier::external_body]
pub(crate) fn links_is_empty(store: &Store, root: &Cid, bit_width: u32) -> (r: Result<bool, HamtError>)
    requires
        bit_width < 32,
    ensures
        links_at(store@, root@, bit_width) is Some ==> r is Ok && r->Ok_0 == (links_at(
            store@,
            root@,
            bit_width,
        )->0 == Links::empty()),
{
    let root = BlockCid::try_from(root.bytes.as_slice()).unwrap();
    let tree: Hamt<_, BlockCid, HamtKey> = Hamt::load_with_bit_width(&root, &store.inner, bit_width)?;
    Ok(tree.is_empty())
}

/// `Hamt::load_with_bit_width` and `for_each` of `fvm_ipld_hamt`, for identifiers. It claims that
/// of a complete tree the result holds every entry once, in no order that it promises.
#[verifier::external_body]
pub(crate) fn links_entries(
    store: &Store,
    root: &Cid,
    bit_width: u32,
) -> (r: Result<Vec<(BytesKey, Cid)>, HamtError>)
    requires
        bit_width < 32,
    ensures
        links_at(store@, root@, bit_width) is Some ==> r is Ok && lists(
            link_pairs(r->Ok_0@),
            links_at(store@, root@, bit_width)->0,
        ),
{
    let root = BlockCid::try_from(root.bytes.as_slice()).unwrap();
    let tree: Hamt<_, BlockCid, HamtKey> = Hamt::load_with_bit_width(&root, &store.inner, bit_width)?;
    let mut entries: Vec<(BytesKey, Cid)> = Vec::new();
    tree.for_each(|k, c| {
        entries.push((BytesKey { bytes: k.0.clone() }, Cid { bytes: c.to_bytes() }));
        Ok(())
    })?;
    Ok(entries)
}

impl Clone for Store {
    fn clone(&self) -> (r: Self)
        ensures
            r@ == self@,
    {
        Store { inner: copied_blocks(&self.inner) }
    }
}

impl Store {
    /// A store without blocks.
    pub fn new() -> (r: Self)
        ensures
            r@ == Blocks::empty(),
    {
        Store { inner: empty_blocks() }
    }

    /// The block with an identifier.
    pub fn get(&self, cid: &Cid) -> (r: Option<Vec<u8>>)
        ensures
            r is Some == self@.contains_key(cid@),
            r is Some ==> r->0@ == self@[cid@],
    {
        get_block(self, cid)
    }

    /// Adds a block of DAG-CBOR and gives its identifier.
    pub fn put(&mut self, block: Vec<u8>) -> (r: Cid)
        ensures
            r@ == dag_cbor_cid(block@),
            cbor_codec(r@),
            final(self)@ == old(self)@.insert(r@, block@),
            kept(old(self)@, final(self)@),
    {
        put_block(self, block)
    }
}

/// A tree of trees that is kept reads the same.
pub proof fn lemma_linked_kept(earlier: Blocks, later: Blocks, root: Seq<u8>, bit_width: u32)
    requires
        kept(earlier, later),
        linked_amounts_at(earlier, root, bit_width) is Some,
    ensures
        linked_amounts_at(later, root, bit_width) == linked_amounts_at(earlier, root, bit_width),
{
    let links = links_at(earlier, root, bit_width)->0;
    assert(links_at(later, root, bit_width) == Some(links));
    assert forall|k: Seq<u8>| #[trigger] links.contains_key(k) implies amounts_at(
        later,
        links[k],
        bit_width,
    ) == amounts_at(earlier, links[k], bit_width) && amounts_at(later, links[k], bit_width) is Some by {
        assert(amounts_at(earlier, links[k], bit_width) is Some);
    }
    assert(linked_amounts_at(later, root, bit_width)->0 =~= linked_amounts_at(
        earlier,
        root,
        bit_width,
    )->0);
}

/// What is kept twice is kept.
pub proof fn lemma_kept_trans(a: Blocks, b: Blocks, c: Blocks)
    requires
        kept(a, b),
        kept(b, c),
    ensures
        kept(a, c),
{
    vstd::map_lib::lemma_submap_of_trans(a, b, c);
    assert forall|root: Seq<u8>, w: u32| #[trigger] amounts_at(a, root, w) is Some implies amounts_at(
        c,
        root,
        w,
    ) == amounts_at(a, root, w) by {
        assert(amounts_at(b, root, w) == amounts_at(a, root, w));
    }
    assert forall|root: Seq<u8>, w: u32| #[trigger] links_at(a, root, w) is Some implies links_at(
        c,
        root,
        w,
    ) == links_at(a, root, w) by {
        assert(links_at(b, root, w) == links_at(a, root, w));
    }
    assert forall|root: Seq<u8>| #[trigger]
        nft_store::tokens_at(a, root) is Some implies nft_store::tokens_at(c, root)
        == nft_store::tokens_at(a, root) by {
        assert(nft_store::tokens_at(b, root) == nft_store::tokens_at(a, root));
    }
    assert forall|root: Seq<u8>, w: u32| #[trigger]
        nft_store::owners_at(a, root, w) is Some implies nft_store::owners_at(c, root, w)
        == nft_store::owners_at(a, root, w) by {
        assert(nft_store::owners_at(b, root, w) == nft_store::owners_at(a, root, w));
    }
    assert forall|root: Seq<u8>, w: u32| #[trigger]
        id_store::amounts_at(a, root, w) is Some implies id_store::amounts_at(c, root, w)
        == id_store::amounts_at(a, root, w) by {
        assert(id_store::amounts_at(b, root, w) == id_store::amounts_at(a, root, w));
    }
    assert forall|root: Seq<u8>, w: u32| #[trigger]
        id_store::links_at(a, root, w) is Some implies id_store::links_at(c, root, w)
        == id_store::links_at(a, root, w) by {
        assert(id_store::links_at(b, root, w) == id_store::links_at(a, root, w));
    }
    assert forall|root: Seq<u8>| #[trigger]
        nft_store::actors_at(a, root) is Some implies nft_store::actors_at(c, root)
        == nft_store::actors_at(a, root) by {
        assert(nft_store::actors_at(b, root) == nft_store::actors_at(a, root));
    }
}

} // verus!
