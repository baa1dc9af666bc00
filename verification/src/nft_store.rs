//! The trees of a collection of non-fungible tokens: an array of tokens and a map of owners.
use cid::Cid as BlockCid;
use fvm_ipld_amt::{Amt, Error as AmtError};
use fvm_ipld_bitfield::BitField;
use fvm_ipld_hamt::{BytesKey as HamtKey, Error as HamtError, Hamt};
use vstd::prelude::*;

use crate::bits;
use crate::bits::copied_bits;
use crate::bytes::{ActorID, Cid};
use crate::keys::BytesKey;
use crate::store;
use crate::store::{Blocks, Store};

verus! {

/// The number of a token.
pub type TokenID = u64;

/// `Error` of `fvm_ipld_amt`.
#[verifier::external_type_specification]
#[verifier::external_body]
pub struct ExAmtError(AmtError);

/// Each token stores its owner, approved operators etc.
#[derive(Debug)]
pub struct TokenData {
    /// Who owns the token
    pub owner: ActorID,
    /// operators on this token
    pub operators: BitField,
    /// What the token stands for
    pub metadata: String,
}

/// Each owner stores their own balance and other indexed data.
#[derive(Debug)]
pub struct OwnerData {
    /// How many tokens they own
    pub balance: u64,
    /// account-level operators
    pub operators: BitField,
}

/// A token as a value: owner, operators and metadata.
pub type TokenInfo = (ActorID, Set<ActorID>, Seq<char>);

/// An owner as a value: balance and operators.
pub type OwnerInfo = (u64, Set<ActorID>);

/// Tokens by their numbers.
pub type Tokens = Map<TokenID, TokenInfo>;

/// Owners by the keys of the tree.
pub type Owners = Map<Seq<u8>, OwnerInfo>;

impl View for TokenData {
    type V = TokenInfo;

    open spec fn view(&self) -> TokenInfo {
        (self.owner, bits::held_bits(self.operators), self.metadata@)
    }
}

impl View for OwnerData {
    type V = OwnerInfo;

    open spec fn view(&self) -> OwnerInfo {
        (self.balance, bits::held_bits(self.operators))
    }
}

impl Clone for TokenData {
    fn clone(&self) -> (r: Self)
        ensures
            r@ == self@,
    {
        TokenData {
            owner: self.owner,
            operators: copied_bits(&self.operators),
            metadata: self.metadata.clone(),
        }
    }
}

impl Clone for OwnerData {
    fn clone(&self) -> (r: Self)
        ensures
            r@ == self@,
    {
        OwnerData { balance: self.balance, operators: copied_bits(&self.operators) }
    }
}

/// Whether a set of operators can be written to a block: as a bit field it takes no more than
/// 32 KiB.
pub uninterp spec fn bits_fit(members: Set<u64>) -> bool;

/// Whether there are so few operators that they can be written to a block, whoever they are.
pub open spec fn few(members: Set<u64>) -> bool {
    members.finite() && members.len() <= 3072
}

/// Whether a set of operators can be stored: a small one always can.
pub open spec fn operators_fit(members: Set<u64>) -> bool {
    few(members) || bits_fit(members)
}

/// What an array of tokens holds, read from its root in these blocks. `None` where the root is not
/// that of a complete array, as `set` and `delete` build it: with every node in its place, a right
/// count and a right height.
pub uninterp spec fn tokens_at(blocks: Blocks, root: Seq<u8>) -> Option<Tokens>;

/// Whether there is no block under the root, or a complete array of tokens. What else lies there
/// is no array, and reading it as one can panic.
pub open spec fn tokens_ready(blocks: Blocks, root: Seq<u8>) -> bool {
    tokens_at(blocks, root) is Some || !blocks.contains_key(root)
}

/// What a hash tree of owners holds, read with the given width from its root in these blocks.
/// `None` where the root is not that of a complete tree of that width, as `set` and `delete` build
/// it.
pub uninterp spec fn owners_at(blocks: Blocks, root: Seq<u8>, bit_width: u32) -> Option<Owners>;

/// Whether a lookup answers with what the tokens hold under a number. What is stored could be
/// stored.
pub open spec fn token_found(found: Option<TokenData>, tokens: Tokens, id: TokenID) -> bool {
    match found {
        Some(data) => tokens.contains_key(id) && data@ == tokens[id] && operators_fit(
            tokens[id].1,
        ),
        None => !tokens.contains_key(id),
    }
}

/// Whether a lookup answers with what the owners hold under a key. What is stored could be stored.
pub open spec fn owner_found(found: Option<OwnerData>, owners: Owners, key: Seq<u8>) -> bool {
    match found {
        Some(data) => owners.contains_key(key) && data@ == owners[key] && operators_fit(
            owners[key].1,
        ),
        None => !owners.contains_key(key),
    }
}

/// Numbers and tokens as values.
pub open spec fn token_pairs(entries: Seq<(TokenID, TokenData)>) -> Seq<(TokenID, TokenInfo)> {
    Seq::new(entries.len(), |i: int| (entries[i].0, entries[i].1@))
}

/// Keys and owners as values.
pub open spec fn owner_pairs(entries: Seq<(BytesKey, OwnerData)>) -> Seq<(Seq<u8>, OwnerInfo)> {
    Seq::new(entries.len(), |i: int| (entries[i].0@, entries[i].1@))
}

/// Whether entries are the first tokens from a number on, up to a limit, in rising order, and the
/// next number is that of the first token after them.
pub open spec fn token_page(
    entries: Seq<(TokenID, TokenData)>,
    next: Option<TokenID>,
    tokens: Tokens,
    start: TokenID,
    limit: u64,
) -> bool {
    &&& entries.len() <= limit
    &&& next is Some ==> entries.len() == limit && tokens.contains_key(next->0) && start <= next->0
    &&& forall|i: int|
        0 <= i < entries.len() ==> start <= (#[trigger] entries[i]).0 < u64::MAX && tokens.contains_key(
            entries[i].0,
        ) && entries[i].1@ == tokens[entries[i].0] && (next is Some ==> entries[i].0 < next->0)
    &&& forall|i: int, j: int|
        0 <= i < j < entries.len() ==> (#[trigger] entries[i]).0 < (#[trigger] entries[j]).0
    &&& forall|id: TokenID| #[trigger]
        tokens.contains_key(id) && start <= id && (next is Some ==> id < next->0) ==> exists|i: int|
            0 <= i < entries.len() && (#[trigger] entries[i]).0 == id
}

/// `Amt::new_with_bit_width` and `flush` of `fvm_ipld_amt` on a store in memory. It claims that the
/// new root is that of an array without entries, whatever the array is to hold.
#[verifier::external_body]
pub(crate) fn empty_array(store: &mut Store, bit_width: u32) -> (r: Result<Cid, AmtError>)
    requires
        1 <= bit_width <= 8,
    ensures
        store::kept(old(store)@, final(store)@),
        r is Ok,
        tokens_at(final(store)@, r->Ok_0@) == Some(Tokens::empty()),
        actors_at(final(store)@, r->Ok_0@) == Some(Actors::empty()),
{
    let mut array: Amt<(u64, BitField, String), _> = Amt::new_with_bit_width(&store.inner, bit_width);
    Ok(Cid { bytes: array.flush()?.to_bytes() })
}

/// `Amt::load` of `fvm_ipld_amt`. It claims that the root of a complete array can be read, and that
/// a block that is not there cannot. A block that holds anything else is left out: its width alone
/// can make the outside function panic.
#[verifier::external_body]
pub(crate) fn tokens_load(store: &Store, root: &Cid) -> (r: Result<(), AmtError>)
    requires
        tokens_ready(store@, root@),
    ensures
        r is Ok == tokens_at(store@, root@) is Some,
{
    let root = BlockCid::try_from(root.bytes.as_slice()).unwrap();
    Amt::<(u64, BitField, String), _>::load(&root, &store.inner)?;
    Ok(())
}

/// `Amt::load` and `get` of `fvm_ipld_amt`, for tokens. It claims that in a complete array the
/// result is the token with that number, if there is one; `u64::MAX` is out of range.
#[verifier::external_body]
pub(crate) fn tokens_get(store: &Store, root: &Cid, id: TokenID) -> (r: Result<Option<TokenData>, AmtError>)
    requires
        tokens_at(store@, root@) is Some,
    ensures
        id == u64::MAX ==> r is Err,
        id < u64::MAX ==> r is Ok && token_found(
            r->Ok_0,
            tokens_at(store@, root@)->0,
            id,
        ),
{
    let root = BlockCid::try_from(root.bytes.as_slice()).unwrap();
    let array: Amt<(u64, BitField, String), _> = Amt::load(&root, &store.inner)?;
    let found = array.get(id)?;
    Ok(found.map(|(owner, operators, metadata)| TokenData {
        owner: *owner,
        operators: operators.clone(),
        metadata: metadata.clone(),
    }))
}

/// `Amt::load`, `set` and `flush` of `fvm_ipld_amt`, for tokens, on a store in memory. It claims
/// that from a complete array it makes the array with that token, unless the operators cannot be
/// stored, which up to 3072 of them can; `u64::MAX` is out of range. Older trees are left as they
/// were.
#[verifier::external_body]
pub(crate) fn tokens_set(store: &mut Store, root: &Cid, id: TokenID, data: &TokenData) -> (r: Result<Cid, AmtError>)
    requires
        tokens_at(old(store)@, root@) is Some,
    ensures
        store::kept(old(store)@, final(store)@),
        id == u64::MAX ==> r is Err,
        id < u64::MAX ==> r is Ok == (few(data@.1) || bits_fit(data@.1)),
        r is Ok ==> tokens_at(final(store)@, r->Ok_0@)
            == Some(tokens_at(old(store)@, root@)->0.insert(id, data@)),
{
    let root = BlockCid::try_from(root.bytes.as_slice()).unwrap();
    let mut array: Amt<(u64, BitField, String), _> = Amt::load(&root, &store.inner)?;
    array.set(id, (data.owner, data.operators.clone(), data.metadata.clone()))?;
    Ok(Cid { bytes: array.flush()?.to_bytes() })
}

/// `Amt::load`, `delete` and `flush` of `fvm_ipld_amt`, for tokens, on a store in memory. It claims
/// that from a complete array it makes the array without that token and gives the token that was
/// there; `u64::MAX` is out of range. Older trees are left as they were.
#[verifier::external_body]
pub(crate) fn tokens_delete(store: &mut Store, root: &Cid, id: TokenID) -> (r: Result<(Cid, Option<TokenData>), AmtError>)
    requires
        tokens_at(old(store)@, root@) is Some,
    ensures
        store::kept(old(store)@, final(store)@),
        id == u64::MAX ==> r is Err,
        id < u64::MAX ==> r is Ok && token_found(
            r->Ok_0.1,
            tokens_at(old(store)@, root@)->0,
            id,
        ),
        r is Ok ==> tokens_at(final(store)@, r->Ok_0.0@)
            == Some(tokens_at(old(store)@, root@)->0.remove(id)),
{
    let root = BlockCid::try_from(root.bytes.as_slice()).unwrap();
    let mut array: Amt<(u64, BitField, String), _> = Amt::load(&root, &store.inner)?;
    let gone = array.delete(id)?;
    let gone = gone.map(|(owner, operators, metadata)| TokenData { owner, operators, metadata });
    Ok((Cid { bytes: array.flush()?.to_bytes() }, gone))
}

/// `Amt::load` and `count` of `fvm_ipld_amt`. It claims that of a complete array the result is the
/// number of tokens.
#[verifier::external_body]
pub(crate) fn tokens_count(store: &Store, root: &Cid) -> (r: Result<u64, AmtError>)
    requires
        tokens_at(store@, root@) is Some,
    ensures
        r is Ok && r->Ok_0 == tokens_at(store@, root@)->0.dom().len(),
{
    let root = BlockCid::try_from(root.bytes.as_slice()).unwrap();
    let array: Amt<(u64, BitField, String), _> = Amt::load(&root, &store.inner)?;
    Ok(array.count())
}

/// `Amt::load` and `for_each` of `fvm_ipld_amt`, for tokens. It claims that of a complete array the
/// result holds every token once, in rising order.
#[verifier::external_body]
pub(crate) fn tokens_entries(store: &Store, root: &Cid) -> (r: Result<Vec<(TokenID, TokenData)>, AmtError>)
    requires
        tokens_at(store@, root@) is Some,
    ensures
        r is Ok && store::lists(
            token_pairs(r->Ok_0@),
            tokens_at(store@, root@)->0,
        ) && rising(r->Ok_0@),
{
    let root = BlockCid::try_from(root.bytes.as_slice()).unwrap();
    let array: Amt<(u64, BitField, String), _> = Amt::load(&root, &store.inner)?;
    let mut entries: Vec<(TokenID, TokenData)> = Vec::new();
    array.for_each(|id, (owner, operators, metadata)| {
        let (operators, metadata) = (operators.clone(), metadata.clone());
        entries.push((id, TokenData { owner: *owner, operators, metadata }));
        Ok(())
    })?;
    Ok(entries)
}

/// Whether entries are in rising order of their numbers.
pub open spec fn rising(entries: Seq<(TokenID, TokenData)>) -> bool {
    forall|i: int, j: int|
        0 <= i < j < entries.len() ==> (#[trigger] entries[i]).0 < (#[trigger] entries[j]).0
}

/// `Amt::load` and `for_each_ranged` of `fvm_ipld_amt`, for tokens. It claims that of a complete
/// array the result is the page from the given number on. Nothing is claimed where there is no
/// token with that number: the numbers that the outside function then gives can be wrong.
#[verifier::external_body]
pub(crate) fn tokens_ranged(
    store: &Store,
    root: &Cid,
    start: TokenID,
    limit: u64,
) -> (r: Result<(Vec<(TokenID, TokenData)>, Option<TokenID>), AmtError>)
    requires
        tokens_at(store@, root@) is Some,
    ensures
        r is Ok ==> below_max(r->Ok_0.0@),
        (start == 0 || tokens_at(store@, root@)->0.contains_key(start)) ==> r is Ok && token_page(r->Ok_0.0@, r->Ok_0.1, tokens_at(store@, root@)->0, start, limit),
{
    let root = BlockCid::try_from(root.bytes.as_slice()).unwrap();
    let array: Amt<(u64, BitField, String), _> = Amt::load(&root, &store.inner)?;
    let mut entries: Vec<(TokenID, TokenData)> = Vec::new();
    let (_, next) = array.for_each_ranged(Some(start), Some(limit), |id, (owner, operators, metadata)| {
        let (operators, metadata) = (operators.clone(), metadata.clone());
        entries.push((id, TokenData { owner: *owner, operators, metadata }));
        Ok(())
    })?;
    Ok((entries, next))
}

/// Whether every number is below `u64::MAX`, as an array's are.
pub open spec fn below_max(entries: Seq<(TokenID, TokenData)>) -> bool {
    forall|i: int| 0 <= i < entries.len() ==> (#[trigger] entries[i]).0 < u64::MAX
}

/// `Hamt::load_with_bit_width` of `fvm_ipld_hamt`, for owners. It claims that the root of a
/// complete tree can be read, and that it fails where there is no block under the root.
#[verifier::external_body]
pub(crate) fn owners_load(store: &Store, root: &Cid, bit_width: u32) -> (r: Result<(), HamtError>)
    requires
        bit_width < 32,
    ensures
        owners_at(store@, root@, bit_width) is Some ==> r is Ok,
        !store@.contains_key(root@) ==> r is Err,
{
    let root = BlockCid::try_from(root.bytes.as_slice()).unwrap();
    Hamt::<_, (u64, BitField), HamtKey>::load_with_bit_width(&root, &store.inner, bit_width)?;
    Ok(())
}

/// `Hamt::load_with_bit_width` and `get` of `fvm_ipld_hamt`, for owners. It claims that in a
/// complete tree the result is the owner under the key, if there is one, and that it fails where
/// there is no block under the root.
#[verifier::external_body]
pub(crate) fn owners_get(store: &Store, root: &Cid, bit_width: u32, key: &BytesKey) -> (r: Result<Option<OwnerData>, HamtError>)
    requires
        bit_width < 32,
    ensures
        owners_at(store@, root@, bit_width) is Some ==> r is Ok && owner_found(
            r->Ok_0,
            owners_at(store@, root@, bit_width)->0,
            key@,
        ),
        !store@.contains_key(root@) ==> r is Err,
{
    let root = BlockCid::try_from(root.bytes.as_slice()).unwrap();
    let tree: Hamt<_, (u64, BitField), HamtKey> = Hamt::load_with_bit_width(&root, &store.inner, bit_width)?;
    let found = tree.get(&HamtKey(key.bytes.clone()))?;
    Ok(found.map(|(balance, operators)| OwnerData { balance: *balance, operators: operators.clone() }))
}

/// `Hamt::load_with_bit_width`, `set` and `flush` of `fvm_ipld_hamt`, for owners, on a store in
/// memory. It claims that from a complete tree it makes the tree with that entry, unless the
/// operators cannot be stored, which up to 3072 of them can. Older trees are left as they were.
#[verifier::external_body]
pub(crate) fn owners_set(
    store: &mut Store,
    root: &Cid,
    bit_width: u32,
    key: &BytesKey,
    data: &OwnerData,
) -> (r: Result<Cid, HamtError>)
    requires
        bit_width < 32,
    ensures
        store::kept(old(store)@, final(store)@),
        owners_at(old(store)@, root@, bit_width) is Some ==> r is Ok == (few(data@.1) || bits_fit(
            data@.1,
        )),
        owners_at(old(store)@, root@, bit_width) is Some && r is Ok ==> owners_at(
            final(store)@,
            r->Ok_0@,
            bit_width,
        ) == Some(owners_at(old(store)@, root@, bit_width)->0.insert(key@, data@)),
{
    let root = BlockCid::try_from(root.bytes.as_slice()).unwrap();
    let mut tree: Hamt<_, (u64, BitField), HamtKey> = Hamt::load_with_bit_width(&root, &store.inner, bit_width)?;
    tree.set(HamtKey(key.bytes.clone()), (data.balance, data.operators.clone()))?;
    Ok(Cid { bytes: tree.flush()?.to_bytes() })
}

/// `Hamt::load_with_bit_width`, `delete` and `flush` of `fvm_ipld_hamt`, for owners, on a store in
/// memory. It claims that from a complete tree it makes the tree without that entry, and that older
/// trees are left as they were.
#[verifier::external_body]
pub(crate) fn owners_delete(store: &mut Store, root: &Cid, bit_width: u32, key: &BytesKey) -> (r: Result<Cid, HamtError>)
    requires
        bit_width < 32,
    ensures
        store::kept(old(store)@, final(store)@),
        owners_at(old(store)@, root@, bit_width) is Some ==> r is Ok && owners_at(
            final(store)@,
            r->Ok_0@,
            bit_width,
        ) == Some(owners_at(old(store)@, root@, bit_width)->0.remove(key@)),
{
    let root = BlockCid::try_from(root.bytes.as_slice()).unwrap();
    let mut tree: Hamt<_, (u64, BitField), HamtKey> = Hamt::load_with_bit_width(&root, &store.inner, bit_width)?;
    tree.delete(&HamtKey(key.bytes.clone()))?;
    Ok(Cid { bytes: tree.flush()?.to_bytes() })
}

/// `Hamt::load_with_bit_width` and `for_each` of `fvm_ipld_hamt`, for owners. It claims that of a
/// complete tree the result holds every entry once, in no order that it promises.
#[verifier::external_body]
pub(crate) fn owners_entries(store: &Store, root: &Cid, bit_width: u32) -> (r: Result<Vec<(BytesKey, OwnerData)>, HamtError>)
    requires
        bit_width < 32,
    ensures
        owners_at(store@, root@, bit_width) is Some ==> r is Ok && store::lists(
            owner_pairs(r->Ok_0@),
            owners_at(store@, root@, bit_width)->0,
        ),
{
    let root = BlockCid::try_from(root.bytes.as_slice()).unwrap();
    let tree: Hamt<_, (u64, BitField), HamtKey> = Hamt::load_with_bit_width(&root, &store.inner, bit_width)?;
    let mut entries: Vec<(BytesKey, OwnerData)> = Vec::new();
    tree.for_each(|k, (balance, operators)| {
        let data = OwnerData { balance: *balance, operators: operators.clone() };
        entries.push((BytesKey { bytes: k.0.clone() }, data));
        Ok(())
    })?;
    Ok(entries)
}

/// Actors by number.
pub type Actors = Map<u64, ActorID>;

/// What an array of actors holds, read from its root in these blocks. `None` where the root is not
/// that of a complete array, as `set` builds it.
pub uninterp spec fn actors_at(blocks: Blocks, root: Seq<u8>) -> Option<Actors>;

/// Whether there is no block under the root, or a complete array of actors.
pub open spec fn actors_ready(blocks: Blocks, root: Seq<u8>) -> bool {
    actors_at(blocks, root) is Some || !blocks.contains_key(root)
}

/// `Amt::load` and `count` of `fvm_ipld_amt`, for actors. It claims that of a complete array the
/// result is the number of entries, and that a block that is not there cannot be read. A block that
/// holds anything else is left out.
#[verifier::external_body]
pub(crate) fn actors_count(store: &Store, root: &Cid) -> (r: Result<u64, AmtError>)
    requires
        actors_ready(store@, root@),
    ensures
        r is Ok == actors_at(store@, root@) is Some,
        r is Ok ==> r->Ok_0 == actors_at(store@, root@)->0.dom().len(),
{
    let root = BlockCid::try_from(root.bytes.as_slice()).unwrap();
    let array: Amt<ActorID, _> = Amt::load(&root, &store.inner)?;
    Ok(array.count())
}

/// `Amt::load`, `set` and `flush` of `fvm_ipld_amt`, for actors, on a store in memory. It claims
/// that from a complete array it makes the array with that entry; `u64::MAX` is out of range. Older
/// trees are left as they were.
#[verifier::external_body]
pub(crate) fn actors_set(store: &mut Store, root: &Cid, i: u64, actor: ActorID) -> (r: Result<Cid, AmtError>)
    requires
        actors_at(old(store)@, root@) is Some,
    ensures
        store::kept(old(store)@, final(store)@),
        i == u64::MAX ==> r is Err,
        i < u64::MAX ==> r is Ok,
        r is Ok ==> actors_at(final(store)@, r->Ok_0@)
            == Some(actors_at(old(store)@, root@)->0.insert(i, actor)),
{
    let root = BlockCid::try_from(root.bytes.as_slice()).unwrap();
    let mut array: Amt<ActorID, _> = Amt::load(&root, &store.inner)?;
    array.set(i, actor)?;
    Ok(Cid { bytes: array.flush()?.to_bytes() })
}

} // verus!
