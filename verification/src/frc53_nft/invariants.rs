//! Whether the two trees of a collection go together.
use std::collections::HashMap;

use vstd::prelude::*;

use crate::bits::bits_are_empty;
use crate::bytes::{bytes_clone, ActorID, Cid};
use crate::frc53_nft::collection;
use crate::frc53_nft::collection::{Collection, NftFault};
use crate::frc53_nft::state;
use crate::frc53_nft::state::{StateError, HAMT_BIT_WIDTH};
use crate::keys;
use crate::keys::{actor_id_key, decode_actor_id, BytesKey};
use crate::nft_store;
use crate::nft_store::{OwnerData, OwnerInfo, Owners, TokenData, TokenID, TokenInfo, Tokens};
use crate::store;
use crate::store::Store;

verus! {

/// What the trees hold, for checks of an application's own.
pub struct StateSummary {
    /// The recorded number of tokens
    pub total_supply: u64,
    /// The owners
    pub owner_data: Option<HashMap<ActorID, OwnerData>>,
    /// The tokens
    pub token_data: Option<HashMap<TokenID, TokenData>>,
}

/// What is wrong with a state.
#[derive(Debug)]
pub enum StateInvariantError {
    /// The total supply does not match the number of tokens recorded
    TotalSupplyMismatch {
        /// The recorded supply.
        total_supply: u64,
        /// How many tokens there are.
        token_count: u64,
    },
    /// The owner map records another number of tokens than the token array
    TokenBalanceMismatch {
        /// How many tokens the array has of the owner.
        token_count: u64,
        /// How many tokens the map says.
        owner_count: u64,
    },
    /// Invalid serialized owner key
    InvalidBytesKey(BytesKey),
    /// Actor ids stored in an operator array were not strictly increasing
    InvalidOperatorArray(Vec<ActorID>),
    /// Underlying state error
    State(StateError),
    /// An entry in the owner map had no tokens and no operators
    ExplicitEmptyOwner(u64),
}

/// What is wrong with a state, as a value.
pub enum InvariantFault {
    /// The supply is not the number of tokens.
    TotalSupplyMismatch {
        /// The recorded supply.
        total_supply: u64,
        /// How many tokens there are.
        token_count: u64,
    },
    /// An owner's balance is not the number of tokens that they own.
    TokenBalanceMismatch {
        /// How many tokens the array has of the owner.
        token_count: u64,
        /// How many tokens the map says.
        owner_count: u64,
    },
    /// A key is not that of an actor.
    InvalidBytesKey(Seq<u8>),
    /// Operators are not in order.
    InvalidOperatorArray(Seq<ActorID>),
    /// A tree cannot be read.
    State(NftFault),
    /// An owner has neither tokens nor operators.
    ExplicitEmptyOwner(u64),
}

impl View for StateInvariantError {
    type V = InvariantFault;

    open spec fn view(&self) -> InvariantFault {
        match *self {
            StateInvariantError::TotalSupplyMismatch { total_supply, token_count } => {
                InvariantFault::TotalSupplyMismatch { total_supply, token_count }
            },
            StateInvariantError::TokenBalanceMismatch { token_count, owner_count } => {
                InvariantFault::TokenBalanceMismatch { token_count, owner_count }
            },
            StateInvariantError::InvalidBytesKey(key) => InvariantFault::InvalidBytesKey(key@),
            StateInvariantError::InvalidOperatorArray(ids) => InvariantFault::InvalidOperatorArray(
                ids@,
            ),
            StateInvariantError::State(e) => InvariantFault::State(e@),
            StateInvariantError::ExplicitEmptyOwner(id) => InvariantFault::ExplicitEmptyOwner(id),
        }
    }
}

/// What errors say.
pub open spec fn seen(errors: Seq<StateInvariantError>) -> Seq<InvariantFault> {
    errors.map_values(|e: StateInvariantError| e@)
}

/// One fault, or none.
pub open spec fn fault_if(wrong: bool, fault: InvariantFault) -> Seq<InvariantFault> {
    if wrong {
        seq![fault]
    } else {
        Seq::empty()
    }
}

/// How many tokens an actor owns.
pub open spec fn owned(tokens: Tokens, owner: ActorID) -> nat {
    collection::owned_by(tokens, owner).len()
}

/// What is wrong with an entry of the owners' tree. A key that is not that of an actor is reported
/// twice.
pub open spec fn entry_faults(tokens: Tokens, key: Seq<u8>, info: OwnerInfo) -> Seq<InvariantFault> {
    match keys::id_of(key) {
        Some(id) => fault_if(
            owned(tokens, id) != info.0,
            InvariantFault::TokenBalanceMismatch {
                token_count: owned(tokens, id) as u64,
                owner_count: info.0,
            },
        ) + fault_if(
            info.0 == 0 && info.1 == Set::<ActorID>::empty(),
            InvariantFault::ExplicitEmptyOwner(id),
        ),
        None => seq![InvariantFault::InvalidBytesKey(key), InvariantFault::InvalidBytesKey(key)],
    }
}

/// What is wrong with entries of the owners' tree, one after the other.
pub open spec fn owner_faults(tokens: Tokens, entries: Seq<(Seq<u8>, OwnerInfo)>) -> Seq<InvariantFault>
    decreases entries.len(),
{
    if entries.len() == 0 {
        Seq::empty()
    } else {
        owner_faults(tokens, entries.drop_last()) + entry_faults(
            tokens,
            entries.last().0,
            entries.last().1,
        )
    }
}

/// Whether the last of some tokens is the first of its owner, and the owner has no entry.
pub open spec fn strays(list: Seq<(TokenID, TokenInfo)>, owners: Owners) -> bool {
    &&& !owners.contains_key(keys::key_of(list.last().1.0))
    &&& forall|i: int| 0 <= i < list.len() - 1 ==> (#[trigger] list[i]).1.0 != list.last().1.0
}

/// The owners of tokens who have no entry in the owners' tree, each at their first token.
pub open spec fn stray_faults(
    tokens: Tokens,
    list: Seq<(TokenID, TokenInfo)>,
    owners: Owners,
) -> Seq<InvariantFault>
    decreases list.len(),
{
    if list.len() == 0 {
        Seq::empty()
    } else {
        stray_faults(tokens, list.drop_last(), owners) + fault_if(
            strays(list, owners),
            InvariantFault::TokenBalanceMismatch {
                token_count: owned(tokens, list.last().1.0) as u64,
                owner_count: 0,
            },
        )
    }
}

/// Whether tokens are in rising order of their numbers.
pub open spec fn in_order(list: Seq<(TokenID, TokenInfo)>) -> bool {
    forall|i: int, j: int| 0 <= i < j < list.len() ==> (#[trigger] list[i]).0 < (#[trigger] list[j]).0
}

/// Everything that is wrong with a collection: the supply first, then the entries of the owners'
/// tree in the given order, then the owners without an entry in the order of their tokens.
pub open spec fn all_faults(
    whole: Collection,
    list: Seq<(TokenID, TokenInfo)>,
    entries: Seq<(Seq<u8>, OwnerInfo)>,
) -> Seq<InvariantFault> {
    fault_if(
        whole.supply != whole.held.tokens.dom().len(),
        InvariantFault::TotalSupplyMismatch {
            total_supply: whole.supply,
            token_count: whole.held.tokens.dom().len() as u64,
        },
    ) + owner_faults(whole.held.tokens, entries) + stray_faults(
        whole.held.tokens,
        list,
        whole.held.owners,
    )
}

/// Whether faults are those of a collection, its tokens taken in order and the entries of the
/// owners' tree in any.
pub open spec fn reports(faults: Seq<InvariantFault>, whole: Collection) -> bool {
    exists|list: Seq<(TokenID, TokenInfo)>, entries: Seq<(Seq<u8>, OwnerInfo)>|
        #![trigger all_faults(whole, list, entries)]
        store::lists(list, whole.held.tokens) && in_order(list) && store::lists(
            entries,
            whole.held.owners,
        ) && faults == all_faults(whole, list, entries)
}

/// Whether a summary holds the tokens and owners of a collection, an owner under each actor that a
/// key stands for.
pub open spec fn sums_up(summary: StateSummary, whole: Collection) -> bool {
    &&& summary.token_data is Some
    &&& summary.owner_data is Some
    &&& summary.token_data->0@.dom() == whole.held.tokens.dom()
    &&& forall|id: TokenID| #[trigger]
        whole.held.tokens.contains_key(id) ==> summary.token_data->0@[id]@ == whole.held.tokens[id]
    &&& forall|id: ActorID| #[trigger]
        summary.owner_data->0@.contains_key(id) ==> exists|k: Seq<u8>| #[trigger]
            whole.held.owners.contains_key(k) && keys::id_of(k) == Some(id)
                && summary.owner_data->0@[id]@ == whole.held.owners[k]
    &&& forall|k: Seq<u8>| #[trigger]
        whole.held.owners.contains_key(k) && keys::id_of(k) is Some
            ==> summary.owner_data->0@.contains_key(keys::id_of(k)->0)
}

proof fn lemma_owner_faults(tokens: Tokens, entries: Seq<(Seq<u8>, OwnerInfo)>)
    ensures
        (owner_faults(tokens, entries).len() == 0) == (forall|i: int|
            0 <= i < entries.len() ==> collection::owner_sound(
                tokens,
                (#[trigger] entries[i]).0,
                entries[i].1,
            )),
    decreases entries.len(),
{
    if entries.len() > 0 {
        let fewer = entries.drop_last();
        lemma_owner_faults(tokens, fewer);
        let last = entries.last();
        assert((entry_faults(tokens, last.0, last.1).len() == 0) == collection::owner_sound(
            tokens,
            last.0,
            last.1,
        ));
        if owner_faults(tokens, entries).len() == 0 {
            assert forall|i: int| 0 <= i < entries.len() implies collection::owner_sound(
                tokens,
                (#[trigger] entries[i]).0,
                entries[i].1,
            ) by {
                if i < fewer.len() {
                    assert(fewer[i] == entries[i]);
                }
            }
        } else if forall|i: int|
            0 <= i < entries.len() ==> collection::owner_sound(
                tokens,
                (#[trigger] entries[i]).0,
                entries[i].1,
            ) {
            assert forall|i: int| 0 <= i < fewer.len() implies collection::owner_sound(
                tokens,
                (#[trigger] fewer[i]).0,
                fewer[i].1,
            ) by {
                assert(fewer[i] == entries[i]);
            }
            assert(entries[entries.len() - 1] == last);
        }
    }
}

proof fn lemma_stray_faults(tokens: Tokens, list: Seq<(TokenID, TokenInfo)>, owners: Owners)
    ensures
        (stray_faults(tokens, list, owners).len() == 0) == (forall|i: int|
            0 <= i < list.len() ==> owners.contains_key(keys::key_of((#[trigger] list[i]).1.0))),
    decreases list.len(),
{
    if list.len() > 0 {
        let fewer = list.drop_last();
        lemma_stray_faults(tokens, fewer, owners);
        if stray_faults(tokens, list, owners).len() == 0 {
            assert forall|i: int| 0 <= i < list.len() implies owners.contains_key(
                keys::key_of((#[trigger] list[i]).1.0),
            ) by {
                if i < fewer.len() {
                    assert(fewer[i] == list[i]);
                } else if !owners.contains_key(keys::key_of(list.last().1.0)) {
                    let j = choose|j: int|
                        0 <= j < list.len() - 1 && (#[trigger] list[j]).1.0 == list.last().1.0;
                    assert(fewer[j] == list[j]);
                }
            }
        } else if forall|i: int|
            0 <= i < list.len() ==> owners.contains_key(keys::key_of((#[trigger] list[i]).1.0)) {
            assert forall|i: int| 0 <= i < fewer.len() implies owners.contains_key(
                keys::key_of((#[trigger] fewer[i]).1.0),
            ) by {
                assert(fewer[i] == list[i]);
            }
            assert(list[list.len() - 1] == list.last());
        }
    }
}

/// Nothing is wrong with a collection exactly where it keeps the rules.
pub proof fn no_faults_means_sound(
    whole: Collection,
    list: Seq<(TokenID, TokenInfo)>,
    entries: Seq<(Seq<u8>, OwnerInfo)>,
)
    requires
        store::lists(list, whole.held.tokens),
        store::lists(entries, whole.held.owners),
    ensures
        whole.held.tokens.dom().finite(),
        (all_faults(whole, list, entries).len() == 0) == whole.sound(),
{
    let tokens = whole.held.tokens;
    let owners = whole.held.owners;
    lemma_owner_faults(tokens, entries);
    lemma_stray_faults(tokens, list, owners);
    if all_faults(whole, list, entries).len() == 0 {
        assert forall|k: Seq<u8>| #[trigger] owners.contains_key(k) implies collection::owner_sound(
            tokens,
            k,
            owners[k],
        ) by {
            store::lemma_lists_all(entries, owners, k);
            let i = choose|i: int| 0 <= i < entries.len() && (#[trigger] entries[i]).0 == k;
            assert(entries[i].1 == owners[k]);
        }
        assert forall|id: TokenID| #[trigger] tokens.contains_key(id) implies owners.contains_key(
            keys::key_of(tokens[id].0),
        ) by {
            store::lemma_lists_all(list, tokens, id);
            let i = choose|i: int| 0 <= i < list.len() && (#[trigger] list[i]).0 == id;
            assert(list[i].1 == tokens[id]);
        }
    }
    if whole.sound() {
        assert forall|i: int| 0 <= i < entries.len() implies collection::owner_sound(
            tokens,
            (#[trigger] entries[i]).0,
            entries[i].1,
        ) by {
            assert(owners.contains_key(entries[i].0));
        }
        assert forall|i: int| 0 <= i < list.len() implies owners.contains_key(
            keys::key_of((#[trigger] list[i]).1.0),
        ) by {
            assert(tokens.contains_key(list[i].0));
        }
    }
}

/// How many of some tokens an actor owns.
pub open spec fn tallied(list: Seq<(TokenID, TokenInfo)>, owner: ActorID) -> nat
    decreases list.len(),
{
    if list.len() == 0 {
        0
    } else if list.last().1.0 == owner {
        tallied(list.drop_last(), owner) + 1
    } else {
        tallied(list.drop_last(), owner)
    }
}

proof fn lemma_tallied(list: Seq<(TokenID, TokenInfo)>, tokens: Tokens, owner: ActorID)
    requires
        store::lists(list, tokens),
    ensures
        tallied(list, owner) == owned(tokens, owner),
    decreases list.len(),
{
    let mine = collection::owned_by(tokens, owner);
    if list.len() == 0 {
        assert(tokens.dom() =~= Set::empty());
        assert(mine =~= Set::empty());
    } else {
        let id = list.last().0;
        store::lemma_lists_drop_last(list, tokens);
        lemma_tallied(list.drop_last(), tokens.remove(id), owner);
        assert(list[list.len() - 1] == list.last());
        assert(mine.remove(id) =~= collection::owned_by(tokens.remove(id), owner));
        assert(mine.contains(id) == (list.last().1.0 == owner));
        assert(mine.subset_of(tokens.dom()));
        vstd::set_lib::lemma_len_subset(mine, tokens.dom());
    }
}

/// Tallies the tokens of an owner
fn tally(tokens: &Vec<(TokenID, TokenData)>, owner: ActorID) -> (r: u64)
    ensures
        r == tallied(nft_store::token_pairs(tokens@), owner),
{
    let mut count: u64 = 0;
    let mut i: usize = 0;
    let ghost list = nft_store::token_pairs(tokens@);
    while i < tokens.len()
        invariant
            i <= tokens.len(),
            count <= i,
            list == nft_store::token_pairs(tokens@),
            count == tallied(list.take(i as int), owner),
        decreases tokens.len() - i,
    {
        proof {
            let more = list.take(i as int + 1);
            assert(more.drop_last() =~= list.take(i as int));
            assert(more.last() == list[i as int]);
        }
        if tokens[i].1.owner == owner {
            count += 1;
        }
        i += 1;
    }
    proof {
        assert(list.take(list.len() as int) =~= list);
    }
    count
}

/// Whether a token is the first of its owner
fn is_first(tokens: &Vec<(TokenID, TokenData)>, n: usize) -> (r: bool)
    requires
        n < tokens.len(),
    ensures
        r == (forall|i: int| 0 <= i < n ==> (#[trigger] tokens[i]).1.owner != tokens[n as int].1.owner),
{
    let mut i: usize = 0;
    while i < n
        invariant
            i <= n < tokens.len(),
            forall|j: int| 0 <= j < i ==> (#[trigger] tokens[j]).1.owner != tokens[n as int].1.owner,
        decreases n - i,
    {
        if tokens[i].1.owner == tokens[n].1.owner {
            return false;
        }
        i += 1;
    }
    true
}

/// Helper to decode keys from bytes, recording errors if they fail.
fn decode_key_addr(key: &BytesKey, errors: &mut Vec<StateInvariantError>) -> (r: Option<ActorID>)
    ensures
        r == keys::id_of(key@),
        seen(final(errors)@) == seen(old(errors)@) + fault_if(
            r is None,
            InvariantFault::InvalidBytesKey(key@),
        ),
{
    match decode_actor_id(key) {
        Some(actor_id) => {
            assert(seen(errors@) =~= seen(errors@) + Seq::<InvariantFault>::empty());
            Some(actor_id)
        },
        None => {
            let ghost before = errors@;
            errors.push(
                StateInvariantError::InvalidBytesKey(BytesKey { bytes: bytes_clone(&key.bytes) }),
            );
            assert(seen(errors@) =~= seen(before) + seq![InvariantFault::InvalidBytesKey(key@)]);
            None
        },
    }
}

/// Records an error
fn record(errors: &mut Vec<StateInvariantError>, error: StateInvariantError)
    ensures
        seen(final(errors)@) == seen(old(errors)@) + seq![error@],
{
    let ghost before = errors@;
    errors.push(error);
    assert(seen(errors@) =~= seen(before) + seq![error@]);
}

/// Records what is wrong with an entry of the owners' tree, and gives the actor that it is of
fn check_entry(
    tokens: &Vec<(TokenID, TokenData)>,
    key: &BytesKey,
    data: &OwnerData,
    errors: &mut Vec<StateInvariantError>,
) -> (r: Option<ActorID>)
    ensures
        r == keys::id_of(key@),
        forall|held: Tokens| #[trigger]
            store::lists(nft_store::token_pairs(tokens@), held) ==> seen(final(errors)@) == seen(
                old(errors)@,
            ) + entry_faults(held, key@, data@),
{
    let ghost before = seen(errors@);
    let found = decode_key_addr(key, errors);
    match found {
        Some(actor_id) => {
            // assert balance matches the balance derived from the token array
            let expected_balance = tally(tokens, actor_id);
            if expected_balance != data.balance {
                record(
                    errors,
                    StateInvariantError::TokenBalanceMismatch {
                        token_count: expected_balance,
                        owner_count: data.balance,
                    },
                );
            }
            // if balance is zero and there are no operators, there should be no entry in the owner
            // map
            if data.balance == 0 && bits_are_empty(&data.operators) {
                record(errors, StateInvariantError::ExplicitEmptyOwner(actor_id));
            }
            proof {
                assert forall|held: Tokens| #[trigger]
                    store::lists(nft_store::token_pairs(tokens@), held) implies seen(errors@)
                    == before + entry_faults(held, key@, data@) by {
                    lemma_tallied(nft_store::token_pairs(tokens@), held, actor_id);
                    assert(seen(errors@) =~= before + entry_faults(held, key@, data@));
                }
            }
        },
        None => {
            record(
                errors,
                StateInvariantError::InvalidBytesKey(BytesKey { bytes: bytes_clone(&key.bytes) }),
            );
            proof {
                assert(seen(errors@) =~= before + seq![
                    InvariantFault::InvalidBytesKey(key@),
                    InvariantFault::InvalidBytesKey(key@),
                ]);
            }
        },
    }
    found
}

/// Records what is wrong with the entries of the owners' tree, and gives the owners by their actors
fn check_owners(
    tokens: &Vec<(TokenID, TokenData)>,
    owners: &Vec<(BytesKey, OwnerData)>,
    errors: &mut Vec<StateInvariantError>,
) -> (r: HashMap<ActorID, OwnerData>)
    ensures
        forall|held: Tokens| #[trigger]
            store::lists(nft_store::token_pairs(tokens@), held) ==> seen(final(errors)@) == seen(
                old(errors)@,
            ) + owner_faults(held, nft_store::owner_pairs(owners@)),
        forall|id: ActorID| #[trigger]
            r@.contains_key(id) ==> exists|i: int|
                0 <= i < owners.len() && keys::id_of((#[trigger] owners[i]).0@) == Some(id)
                    && r@[id]@ == owners[i].1@,
        forall|i: int|
            0 <= i < owners.len() && keys::id_of((#[trigger] owners[i]).0@) is Some
                ==> r@.contains_key(keys::id_of(owners[i].0@)->0),
{
    broadcast use vstd::std_specs::hash::group_hash_axioms;

    let mut by_actor: HashMap<ActorID, OwnerData> = HashMap::new();
    let ghost before = seen(errors@);
    let ghost entries = nft_store::owner_pairs(owners@);
    let mut i: usize = 0;
    proof {
        assert(entries.take(0) =~= Seq::empty());
        assert(before =~= before + Seq::<InvariantFault>::empty());
    }
    while i < owners.len()
        invariant
            i <= owners.len(),
            entries == nft_store::owner_pairs(owners@),
            forall|held: Tokens| #[trigger]
                store::lists(nft_store::token_pairs(tokens@), held) ==> seen(errors@) == before
                    + owner_faults(held, entries.take(i as int)),
            forall|id: ActorID| #[trigger]
                by_actor@.contains_key(id) ==> exists|j: int|
                    0 <= j < i && keys::id_of((#[trigger] owners[j]).0@) == Some(id)
                        && by_actor@[id]@ == owners[j].1@,
            forall|j: int|
                0 <= j < i && keys::id_of((#[trigger] owners[j]).0@) is Some
                    ==> by_actor@.contains_key(keys::id_of(owners[j].0@)->0),
        decreases owners.len() - i,
    {
        let ghost so_far = seen(errors@);
        let (key, data) = (&owners[i].0, &owners[i].1);
        let found = check_entry(tokens, key, data, errors);
        let ghost earlier = by_actor@;
        if let Some(actor_id) = found {
            by_actor.insert(actor_id, data.clone());
        }
        proof {
            let more = entries.take(i as int + 1);
            assert(more.drop_last() =~= entries.take(i as int));
            assert(more.last() == (key@, data@));
            assert forall|held: Tokens| #[trigger]
                store::lists(nft_store::token_pairs(tokens@), held) implies seen(errors@) == before
                + owner_faults(held, more) by {
                assert(seen(errors@) =~= before + (owner_faults(held, entries.take(i as int))
                    + entry_faults(held, key@, data@)));
            }
            assert forall|id: ActorID| #[trigger] by_actor@.contains_key(id) implies exists|j: int|
                0 <= j < i + 1 && keys::id_of((#[trigger] owners[j]).0@) == Some(id)
                    && by_actor@[id]@ == owners[j].1@ by {
                if found == Some(id) {
                    assert(keys::id_of(owners[i as int].0@) == Some(id));
                } else {
                    assert(earlier.contains_key(id));
                }
            }
        }
        i += 1;
    }
    proof {
        assert(entries.take(entries.len() as int) =~= entries);
    }
    by_actor
}

/// Records the owners of tokens who have no entry in the owners' tree
fn check_strays(
    tokens: &Vec<(TokenID, TokenData)>,
    bs: &Store,
    owner_data: &Cid,
    errors: &mut Vec<StateInvariantError>,
)
    ensures
        nft_store::owners_at(bs@, owner_data@, HAMT_BIT_WIDTH) is Some ==> forall|held: Tokens|
         #[trigger]
            store::lists(nft_store::token_pairs(tokens@), held) ==> seen(final(errors)@) == seen(
                old(errors)@,
            ) + stray_faults(
                held,
                nft_store::token_pairs(tokens@),
                nft_store::owners_at(bs@, owner_data@, HAMT_BIT_WIDTH)->0,
            ),
{
    let ghost before = seen(errors@);
    let ghost list = nft_store::token_pairs(tokens@);
    let ghost whole = nft_store::owners_at(bs@, owner_data@, HAMT_BIT_WIDTH) is Some;
    let ghost owners = nft_store::owners_at(bs@, owner_data@, HAMT_BIT_WIDTH)->0;
    let mut i: usize = 0;
    proof {
        assert(list.take(0) =~= Seq::empty());
        assert(before =~= before + Seq::<InvariantFault>::empty());
    }
    while i < tokens.len()
        invariant
            i <= tokens.len(),
            list == nft_store::token_pairs(tokens@),
            whole == nft_store::owners_at(bs@, owner_data@, HAMT_BIT_WIDTH) is Some,
            owners == nft_store::owners_at(bs@, owner_data@, HAMT_BIT_WIDTH)->0,
            whole ==> forall|held: Tokens| #[trigger]
                store::lists(nft_store::token_pairs(tokens@), held) ==> seen(errors@) == before
                    + stray_faults(held, list.take(i as int), owners),
        decreases tokens.len() - i,
    {
        let ghost so_far = seen(errors@);
        let owner = tokens[i].1.owner;
        let mut stray = false;
        if is_first(tokens, i) {
            match nft_store::owners_get(bs, owner_data, HAMT_BIT_WIDTH, &actor_id_key(owner)) {
                Ok(Some(_)) => {},
                Ok(None) => {
                    stray = true;
                },
                Err(e) => record(errors, StateInvariantError::State(StateError::IpldHamt(e))),
            }
        }
        let ghost more = list.take(i as int + 1);
        proof {
            assert(more.drop_last() =~= list.take(i as int));
            assert(more.last() == (tokens[i as int].0, tokens[i as int].1@));
            assert forall|j: int| 0 <= j < i implies (#[trigger] more[j]).1.0
                == tokens[j].1.owner by {}
            if whole && !stray && strays(more, owners) {
                assert forall|j: int| 0 <= j < i implies (#[trigger] tokens[j]).1.owner
                    != tokens[i as int].1.owner by {
                    assert(more[j].1.0 != more.last().1.0);
                }
            }
        }
        if stray {
            let expected_balance = tally(tokens, owner);
            record(
                errors,
                StateInvariantError::TokenBalanceMismatch {
                    token_count: expected_balance,
                    owner_count: 0,
                },
            );
        }
        proof {
            if whole {
                assert forall|held: Tokens| #[trigger]
                    store::lists(nft_store::token_pairs(tokens@), held) implies seen(errors@)
                    == before + stray_faults(held, more, owners) by {
                    lemma_tallied(list, held, owner);
                    assert(seen(errors@) =~= before + (stray_faults(
                        held,
                        list.take(i as int),
                        owners,
                    ) + fault_if(
                        stray,
                        InvariantFault::TokenBalanceMismatch {
                            token_count: owned(held, owner) as u64,
                            owner_count: 0,
                        },
                    )));
                }
            }
        }
        i += 1;
    }
    proof {
        assert(list.take(list.len() as int) =~= list);
    }
}

/// The tokens by their numbers
fn by_number(tokens: &Vec<(TokenID, TokenData)>) -> (r: HashMap<TokenID, TokenData>)
    ensures
        forall|id: TokenID| #[trigger]
            r@.contains_key(id) <==> exists|i: int| 0 <= i < tokens.len() && (#[trigger] tokens[i]).0 == id,
        nft_store::rising(tokens@) ==> forall|i: int| 0 <= i < tokens.len() ==> r@[(#[trigger] tokens[i]).0]@ == tokens[i].1@,
{
    broadcast use vstd::std_specs::hash::group_hash_axioms;

    let mut token_map: HashMap<TokenID, TokenData> = HashMap::new();
    let mut i: usize = 0;
    while i < tokens.len()
        invariant
            i <= tokens.len(),
            forall|id: TokenID| #[trigger]
                token_map@.contains_key(id) <==> exists|j: int|
                    0 <= j < i && (#[trigger] tokens[j]).0 == id,
            nft_store::rising(tokens@) ==> forall|j: int| 0 <= j < i ==> token_map@[(#[trigger] tokens[j]).0]@ == tokens[j].1@,
        decreases tokens.len() - i,
    {
        let ghost earlier = token_map@;
        token_map.insert(tokens[i].0, tokens[i].1.clone());
        proof {
            assert forall|id: TokenID| #[trigger] token_map@.contains_key(id) <==> exists|j: int|
                0 <= j < i + 1 && (#[trigger] tokens[j]).0 == id by {
                if id == tokens[i as int].0 {
                    assert(0 <= i < i + 1);
                } else if earlier.contains_key(id) {
                    let j = choose|j: int| 0 <= j < i && (#[trigger] tokens[j]).0 == id;
                    assert(tokens[j].0 == id && j < i + 1);
                }
            }
        }
        i += 1;
    }
    token_map
}

/// Tokens by their numbers and owners by their actors sum a collection up.
proof fn lemma_sums_up(
    tokens: Seq<(TokenID, TokenData)>,
    owners: Seq<(BytesKey, OwnerData)>,
    summary: StateSummary,
    whole: Collection,
)
    requires
        summary.token_data is Some,
        summary.owner_data is Some,
        store::lists(nft_store::token_pairs(tokens), whole.held.tokens),
        store::lists(nft_store::owner_pairs(owners), whole.held.owners),
        forall|id: TokenID| #[trigger]
            summary.token_data->0@.contains_key(id) <==> exists|i: int|
                0 <= i < tokens.len() && (#[trigger] tokens[i]).0 == id,
        forall|i: int|
            0 <= i < tokens.len() ==> summary.token_data->0@[(#[trigger] tokens[i]).0]@
                == tokens[i].1@,
        forall|id: ActorID| #[trigger]
            summary.owner_data->0@.contains_key(id) ==> exists|i: int|
                0 <= i < owners.len() && keys::id_of((#[trigger] owners[i]).0@) == Some(id)
                    && summary.owner_data->0@[id]@ == owners[i].1@,
        forall|i: int|
            0 <= i < owners.len() && keys::id_of((#[trigger] owners[i]).0@) is Some
                ==> summary.owner_data->0@.contains_key(keys::id_of(owners[i].0@)->0),
    ensures
        sums_up(summary, whole),
{
    let list = nft_store::token_pairs(tokens);
    let entries = nft_store::owner_pairs(owners);
    assert forall|id: TokenID| #[trigger]
        whole.held.tokens.contains_key(id) implies summary.token_data->0@.contains_key(id)
        && summary.token_data->0@[id]@ == whole.held.tokens[id] by {
        store::lemma_lists_all(list, whole.held.tokens, id);
        let i = choose|i: int| 0 <= i < list.len() && (#[trigger] list[i]).0 == id;
        assert(tokens[i].0 == id);
    }
    assert forall|id: TokenID| #[trigger]
        summary.token_data->0@.contains_key(id) implies whole.held.tokens.contains_key(id) by {
        let i = choose|i: int| 0 <= i < tokens.len() && (#[trigger] tokens[i]).0 == id;
        assert(list[i].0 == id);
    }
    assert(summary.token_data->0@.dom() =~= whole.held.tokens.dom());
    assert forall|id: ActorID| #[trigger] summary.owner_data->0@.contains_key(id) implies exists|
        k: Seq<u8>,
    | #[trigger]
        whole.held.owners.contains_key(k) && keys::id_of(k) == Some(id)
            && summary.owner_data->0@[id]@ == whole.held.owners[k] by {
        let i = choose|i: int|
            0 <= i < owners.len() && keys::id_of((#[trigger] owners[i]).0@) == Some(id)
                && summary.owner_data->0@[id]@ == owners[i].1@;
        assert(entries[i].0 == owners[i].0@);
        assert(whole.held.owners.contains_key(entries[i].0));
    }
    assert forall|k: Seq<u8>| #[trigger]
        whole.held.owners.contains_key(k) && keys::id_of(
            k,
        ) is Some implies summary.owner_data->0@.contains_key(keys::id_of(k)->0) by {
        store::lemma_lists_all(entries, whole.held.owners, k);
        let i = choose|i: int| 0 <= i < entries.len() && (#[trigger] entries[i]).0 == k;
        assert(owners[i].0@ == k);
    }
}

impl state::NFTState {
    /// Checks that the state is internally consistent and obeys the specified invariants
    ///
    /// Checks that balances in the TokenArray and OwnerMap are consistent. Checks that the total
    /// supply is consistent with the number of tokens in the TokenArray. Checks that the OwnerHamt
    /// is clear of semantically empty entries. Checks that all bytes keys are valid actor ids.
    ///
    /// Returns a state summary that can be used to check application specific invariants and a list
    /// of errors that were found.
    pub fn check_invariants(&self, bs: &Store) -> (r: (StateSummary, Vec<StateInvariantError>))
        requires
            self.ready(bs@),
        ensures
            r.0.total_supply == self.total_supply,
            (r.0.token_data is None) == (r.0.owner_data is None),
            r.0.token_data is None ==> r.1.len() > 0,
            self.collection(bs@) is Some ==> {
                &&& sums_up(r.0, self.collection(bs@)->0)
                &&& reports(seen(r.1@), self.collection(bs@)->0)
                &&& (r.1.len() == 0) == self.collection(bs@)->0.sound()
            },
    {
        // accumulate errors encountered in the state
        let mut errors: Vec<StateInvariantError> = Vec::new();
        // get token data
        let (token_data, token_count) = match nft_store::tokens_load(bs, &self.token_data) {
            Ok(()) => (
                nft_store::tokens_entries(bs, &self.token_data),
                nft_store::tokens_count(bs, &self.token_data),
            ),
            Err(e) => (Err(e), Ok(0)),
        };
        // get owner data
        let owner_data = nft_store::owners_entries(bs, &self.owner_data, HAMT_BIT_WIDTH);
        // there's no point continuing if either are missing as something serious is wrong
        // we can't do meaningful state checks without the underlying data being loadable
        match (token_data, token_count, owner_data) {
            (Ok(tokens), Ok(token_count), Ok(owners)) => {
                // check the total supply matches the number of NFTs stored
                if self.total_supply != token_count {
                    record(
                        &mut errors,
                        StateInvariantError::TotalSupplyMismatch {
                            total_supply: self.total_supply,
                            token_count,
                        },
                    );
                }
                let ghost first = seen(errors@);
                // check owner data is consistent with token data
                let owner_map = check_owners(&tokens, &owners, &mut errors);
                check_strays(&tokens, bs, &self.owner_data, &mut errors);
                let token_map = by_number(&tokens);
                proof {
                    if self.collection(bs@) is Some {
                        let whole = self.collection(bs@)->0;
                        let list = nft_store::token_pairs(tokens@);
                        let entries = nft_store::owner_pairs(owners@);
                        assert(in_order(list));
                        assert(seen(errors@) =~= all_faults(whole, list, entries));
                        no_faults_means_sound(whole, list, entries);
                    }
                }
                let summary = StateSummary {
                    owner_data: Some(owner_map),
                    token_data: Some(token_map),
                    total_supply: self.total_supply,
                };
                proof {
                    if self.collection(bs@) is Some {
                        lemma_sums_up(tokens@, owners@, summary, self.collection(bs@)->0);
                    }
                }
                (summary, errors)
            },
            (token_data, token_count, owner_data) => {
                match (token_data, token_count) {
                    (Err(e), _) | (Ok(_), Err(e)) => {
                        errors.push(StateInvariantError::State(StateError::IpldAmt(e)));
                    },
                    (Ok(_), Ok(_)) => {},
                }
                match owner_data {
                    Err(e) => errors.push(StateInvariantError::State(StateError::IpldHamt(e))),
                    Ok(_) => {},
                }
                (
                    StateSummary {
                        owner_data: None,
                        token_data: None,
                        total_supply: self.total_supply,
                    },
                    errors,
                )
            },
        }
    }
}

} // verus!
