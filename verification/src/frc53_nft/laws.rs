//! Laws of collections: what every operation keeps, and how operations go together.
use vstd::prelude::*;

use crate::bytes::ActorID;
use crate::frc53_nft::collection;
use crate::frc53_nft::collection::{Collection, Holdings, NftFault};
use crate::frc53_nft::state;
use crate::keys;
use crate::nft_store::{TokenID, TokenInfo, Tokens};

verus! {

/// How many tokens an actor owns, after a token was put in.
proof fn lemma_owned_insert(tokens: Tokens, id: TokenID, info: TokenInfo, owner: ActorID)
    requires
        tokens.dom().finite(),
    ensures
        collection::owned_by(tokens, owner).finite(),
        collection::owned_by(tokens, owner).len() <= tokens.dom().len(),
        collection::owned_by(tokens.insert(id, info), owner).len() == collection::owned_by(
            tokens,
            owner,
        ).len() + (if info.0 == owner {
            1int
        } else {
            0
        }) - (if tokens.contains_key(id) && tokens[id].0 == owner {
            1int
        } else {
            0
        }),
{
    let before = collection::owned_by(tokens, owner);
    let after = collection::owned_by(tokens.insert(id, info), owner);
    vstd::set_lib::lemma_len_subset(before, tokens.dom());
    if info.0 == owner {
        assert(after =~= before.insert(id));
    } else {
        assert(after =~= before.remove(id));
    }
}

/// How many tokens an actor owns, after a token was taken out.
proof fn lemma_owned_remove(tokens: Tokens, id: TokenID, owner: ActorID)
    requires
        tokens.dom().finite(),
    ensures
        collection::owned_by(tokens.remove(id), owner).len() == collection::owned_by(
            tokens,
            owner,
        ).len() - (if tokens.contains_key(id) && tokens[id].0 == owner {
            1int
        } else {
            0
        }),
{
    let before = collection::owned_by(tokens, owner);
    vstd::set_lib::lemma_len_subset(before, tokens.dom());
    assert(collection::owned_by(tokens.remove(id), owner) =~= before.remove(id));
}

/// What the owners' tree says of an actor is right, entry or not.
pub(crate) proof fn lemma_right(held: Holdings, owner: ActorID)
    requires
        held.balanced(),
    ensures
        collection::owner_info(held.owners, keys::key_of(owner)).0 == collection::owned_by(
            held.tokens,
            owner,
        ).len(),
{
    let key = keys::key_of(owner);
    keys::key_names_its_actor(owner);
    if !held.owners.contains_key(key) {
        let mine = collection::owned_by(held.tokens, owner);
        assert forall|id: TokenID| !mine.contains(id) by {
            if mine.contains(id) {
                assert(held.tokens.contains_key(id));
            }
        }
        assert(mine =~= Set::empty());
    }
}

/// Balances that follow the tokens, for owners under the keys of actors: the tree is right again.
proof fn lemma_balanced_again(after: Holdings)
    requires
        after.tokens.dom().finite(),
        after.keyed(),
        forall|owner: ActorID| #[trigger]
            after.owners.contains_key(keys::key_of(owner)) ==> after.owners[keys::key_of(owner)].0
                == collection::owned_by(after.tokens, owner).len() && !(after.owners[keys::key_of(
                owner,
            )].0 == 0 && after.owners[keys::key_of(owner)].1 == Set::<ActorID>::empty()),
        forall|id: TokenID| #[trigger]
            after.tokens.contains_key(id) ==> after.owners.contains_key(
                keys::key_of(after.tokens[id].0),
            ),
    ensures
        after.balanced(),
{
    assert forall|k: Seq<u8>| #[trigger] after.owners.contains_key(k) implies collection::owner_sound(
        after.tokens,
        k,
        after.owners[k],
    ) by {
        let id = choose|id: ActorID| k == keys::key_of(id);
        keys::key_names_its_actor(id);
    }
}

/// In a collection that keeps the rules a token can be given to anyone. The rules are kept, the
/// number of tokens and all other tokens stay as they are, and the token has its new owner, no
/// operators, and its metadata.
pub proof fn hand_on_law(held: Holdings, id: TokenID, receiver: ActorID)
    requires
        held.balanced(),
        held.keyed(),
        held.tokens.contains_key(id),
        id < u64::MAX,
        held.tokens.dom().len() <= u64::MAX,
    ensures
        collection::handed_on(held, id, receiver) is Ok,
        ({
            let after = collection::handed_on(held, id, receiver)->Ok_0;
            &&& after.balanced()
            &&& after.keyed()
            &&& after.tokens == held.tokens.insert(
                id,
                (receiver, Set::empty(), held.tokens[id].2),
            )
            &&& after.tokens.dom() == held.tokens.dom()
            &&& forall|actor: ActorID| #[trigger]
                collection::owner_info(after.owners, keys::key_of(actor)).1
                    == collection::owner_info(held.owners, keys::key_of(actor)).1
        }),
{
    let token = held.tokens[id];
    let owner = token.0;
    let from = keys::key_of(owner);
    let to = keys::key_of(receiver);
    keys::keys_differ(owner, receiver);
    keys::key_names_its_actor(owner);
    lemma_right(held, owner);
    lemma_right(held, receiver);
    let info = (receiver, Set::<ActorID>::empty(), token.2);
    let tokens = held.tokens.insert(id, info);
    assert(tokens.dom() =~= held.tokens.dom());
    lemma_owned_insert(held.tokens, id, info, owner);
    lemma_owned_insert(held.tokens, id, info, receiver);
    assert(collection::owned_by(held.tokens, owner).contains(id));
    let mine = collection::owned_by(held.tokens, receiver);
    if owner != receiver {
        assert(mine.subset_of(held.tokens.dom().remove(id)));
        vstd::set_lib::lemma_len_subset(mine, held.tokens.dom().remove(id));
    }
    assert(collection::owned_by(held.tokens, owner).len() >= 1) by {
        if collection::owned_by(held.tokens, owner).len() == 0 {
            assert(collection::owned_by(held.tokens, owner) =~= Set::empty());
        }
    }
    let between = collection::debited(held.owners, from, 1)->Ok_0;
    let after = collection::handed_on(held, id, receiver)->Ok_0;
    assert(after.tokens == tokens);
    assert forall|k: Seq<u8>| #[trigger] after.owners.contains_key(k) implies exists|a: ActorID|
        k == keys::key_of(a) by {
        if k != to {
            assert(held.owners.contains_key(k));
        }
    }
    assert forall|actor: ActorID| #[trigger]
        after.owners.contains_key(keys::key_of(actor)) implies after.owners[keys::key_of(actor)].0
        == collection::owned_by(after.tokens, actor).len() && !(after.owners[keys::key_of(actor)].0
        == 0 && after.owners[keys::key_of(actor)].1 == Set::<ActorID>::empty()) by {
        keys::keys_differ(actor, owner);
        keys::keys_differ(actor, receiver);
        lemma_right(held, actor);
        lemma_owned_insert(held.tokens, id, info, actor);
        keys::key_names_its_actor(actor);
        if actor != owner && actor != receiver {
            assert(held.owners.contains_key(keys::key_of(actor)));
        }
    }
    assert forall|other: TokenID| #[trigger]
        after.tokens.contains_key(other) implies after.owners.contains_key(
        keys::key_of(after.tokens[other].0),
    ) by {
        if other != id {
            let actor = held.tokens[other].0;
            assert(held.tokens.contains_key(other));
            keys::keys_differ(actor, owner);
            if actor == owner && owner != receiver {
                let both = set![id, other];
                assert(both.len() == 2);
                assert(both.subset_of(collection::owned_by(held.tokens, owner)));
                vstd::set_lib::lemma_len_subset(both, collection::owned_by(held.tokens, owner));
            }
        }
    }
    lemma_balanced_again(after);
    assert forall|actor: ActorID| #[trigger]
        collection::owner_info(after.owners, keys::key_of(actor)).1 == collection::owner_info(
            held.owners,
            keys::key_of(actor),
        ).1 by {
        keys::keys_differ(actor, owner);
        keys::keys_differ(actor, receiver);
    }
}

/// Giving any number of tokens to a receiver succeeds where all of them are there. The rules are
/// kept, the supply and the next number stay as they are, the tokens have their new owner, no
/// operators and their metadata, and the other tokens stay as they are.
pub proof fn transfer_law(whole: Collection, ids: Seq<TokenID>, n: nat, receiver: ActorID)
    requires
        whole.regular(),
        n <= ids.len(),
        forall|i: int| 0 <= i < n ==> whole.held.tokens.contains_key(#[trigger] ids[i]),
    ensures
        state::handing_on(receiver).done(whole.held, ids, n) is Ok,
        ({
            let after = Collection {
                held: state::handing_on(receiver).done(whole.held, ids, n)->Ok_0,
                ..whole
            };
            &&& after.regular()
            &&& after.held.tokens.dom() == whole.held.tokens.dom()
            &&& forall|id: TokenID| #[trigger]
                whole.held.tokens.contains_key(id) ==> after.held.tokens[id] == if ids.take(
                    n as int,
                ).contains(id) {
                    (receiver, Set::empty(), whole.held.tokens[id].2)
                } else {
                    whole.held.tokens[id]
                }
            &&& forall|actor: ActorID| #[trigger]
                collection::owner_info(after.held.owners, keys::key_of(actor)).1
                    == collection::owner_info(whole.held.owners, keys::key_of(actor)).1
        }),
    decreases n,
{
    let work = state::handing_on(receiver);
    if n == 0 {
        assert(!exists|id: TokenID| ids.take(0).contains(id));
    } else {
        let m = (n - 1) as nat;
        let last = ids[n - 1];
        transfer_law(whole, ids, m, receiver);
        let between = work.done(whole.held, ids, m)->Ok_0;
        assert(whole.held.tokens.contains_key(last));
        hand_on_law(between, last, receiver);
        let after = Collection { held: work.done(whole.held, ids, n)->Ok_0, ..whole };
        assert forall|id: TokenID| #[trigger]
            whole.held.tokens.contains_key(id) implies after.held.tokens[id] == if ids.take(
            n as int,
        ).contains(id) {
            (receiver, Set::empty(), whole.held.tokens[id].2)
        } else {
            whole.held.tokens[id]
        } by {
            assert(ids.take(n as int) =~= ids.take(m as int).push(last));
            if ids.take(m as int).contains(id) {
                let i = choose|i: int| 0 <= i < m && ids.take(m as int)[i] == id;
                assert(ids.take(n as int)[i] == id);
            }
            if id == last {
                assert(ids.take(n as int)[m as int] == id);
            }
            if ids.take(n as int).contains(id) && id != last {
                let i = choose|i: int| 0 <= i < n && ids.take(n as int)[i] == id;
                assert(ids.take(m as int)[i] == id);
            }
            assert(between.tokens.contains_key(id));
        }
        assert forall|id: TokenID| #[trigger] after.held.tokens.contains_key(id) implies id
            < after.next by {
            assert(whole.held.tokens.contains_key(id));
        }
    }
}

/// The new tokens: those that were there stay, and each metadata makes one with the next number.
proof fn lemma_with_minted(
    tokens: Tokens,
    first: TokenID,
    owner: ActorID,
    metadatas: Seq<Seq<char>>,
)
    requires
        tokens.dom().finite(),
        first + metadatas.len() <= u64::MAX,
        forall|id: TokenID| #[trigger] tokens.contains_key(id) ==> id < first,
    ensures
        ({
            let after = collection::with_minted(tokens, first, owner, metadatas);
            &&& after.dom().finite()
            &&& after.dom().len() == tokens.dom().len() + metadatas.len()
            &&& forall|id: TokenID| #[trigger]
                after.contains_key(id) == (tokens.contains_key(id) || first <= id < first
                    + metadatas.len())
            &&& forall|id: TokenID| #[trigger]
                after.contains_key(id) ==> after[id] == (if id < first {
                    tokens[id]
                } else {
                    (owner, Set::empty(), metadatas[id - first])
                })
            &&& forall|actor: ActorID| #[trigger]
                collection::owned_by(after, actor).len() == collection::owned_by(tokens, actor).len()
                    + (if actor == owner {
                    metadatas.len()
                } else {
                    0
                })
        }),
    decreases metadatas.len(),
{
    if metadatas.len() > 0 {
        let fewer = metadatas.drop_last();
        lemma_with_minted(tokens, first, owner, fewer);
        let between = collection::with_minted(tokens, first, owner, fewer);
        let id = (first + metadatas.len() - 1) as u64;
        let info = (owner, Set::<ActorID>::empty(), metadatas.last());
        assert forall|actor: ActorID| #[trigger]
            collection::owned_by(between.insert(id, info), actor).len() == collection::owned_by(
                tokens,
                actor,
            ).len() + (if actor == owner {
                metadatas.len()
            } else {
                0
            }) by {
            lemma_owned_insert(between, id, info, actor);
        }
    }
}

/// Whether a token was not there and then is, with this owner and metadata and without operators.
pub open spec fn newly_there(
    before: Tokens,
    after: Tokens,
    id: TokenID,
    owner: ActorID,
    metadata: Seq<char>,
) -> bool {
    &&& !before.contains_key(id)
    &&& after.contains_key(id)
    &&& after[id] == (owner, Set::<ActorID>::empty(), metadata)
}

/// Minting succeeds. The rules are kept, the supply grows by the number of new tokens, none of
/// which has the number of another token, each has its owner, no operators and its metadata, and
/// the other tokens stay as they are.
pub proof fn mint_law(whole: Collection, owner: ActorID, metadatas: Seq<Seq<char>>)
    requires
        whole.regular(),
        whole.next + metadatas.len() <= u64::MAX,
        whole.supply + metadatas.len() <= u64::MAX,
    ensures
        collection::issued(whole, owner, metadatas) is Ok,
        ({
            let after = collection::issued(whole, owner, metadatas)->Ok_0;
            &&& after.regular()
            &&& after.next == whole.next + metadatas.len()
            &&& after.supply == whole.supply + metadatas.len()
            &&& forall|id: TokenID| #[trigger]
                whole.held.tokens.contains_key(id) ==> after.held.tokens.contains_key(id)
                    && after.held.tokens[id] == whole.held.tokens[id]
            &&& forall|i: int|
                0 <= i < metadatas.len() ==> newly_there(
                    whole.held.tokens,
                    after.held.tokens,
                    (whole.next + i) as u64,
                    owner,
                    #[trigger] metadatas[i],
                )
            &&& collection::owner_info(after.held.owners, keys::key_of(owner)).0
                == collection::owner_info(whole.held.owners, keys::key_of(owner)).0
                + metadatas.len()
            &&& forall|id: TokenID| #[trigger]
                after.held.tokens.contains_key(id) ==> whole.held.tokens.contains_key(id)
                    || whole.next <= id < whole.next + metadatas.len()
            &&& forall|actor: ActorID| #[trigger]
                collection::owner_info(after.held.owners, keys::key_of(actor)).1
                    == collection::owner_info(whole.held.owners, keys::key_of(actor)).1
        }),
{
    if metadatas.len() > 0 {
        lemma_mint_some(whole, owner, metadatas);
    }
}

proof fn lemma_mint_some(whole: Collection, owner: ActorID, metadatas: Seq<Seq<char>>)
    requires
        whole.regular(),
        whole.next + metadatas.len() <= u64::MAX,
        whole.supply + metadatas.len() <= u64::MAX,
        metadatas.len() > 0,
    ensures
        collection::credited(whole.held.owners, keys::key_of(owner), metadatas.len()) is Ok,
        ({
            let after = Collection {
                held: Holdings {
                    tokens: collection::with_minted(
                        whole.held.tokens,
                        whole.next,
                        owner,
                        metadatas,
                    ),
                    owners: collection::credited(
                        whole.held.owners,
                        keys::key_of(owner),
                        metadatas.len(),
                    )->Ok_0,
                },
                next: (whole.next + metadatas.len()) as u64,
                supply: (whole.supply + metadatas.len()) as u64,
            };
            &&& after.regular()
            &&& forall|id: TokenID| #[trigger]
                whole.held.tokens.contains_key(id) ==> after.held.tokens.contains_key(id)
                    && after.held.tokens[id] == whole.held.tokens[id]
            &&& forall|i: int|
                0 <= i < metadatas.len() ==> newly_there(
                    whole.held.tokens,
                    after.held.tokens,
                    (whole.next + i) as u64,
                    owner,
                    #[trigger] metadatas[i],
                )
            &&& collection::owner_info(after.held.owners, keys::key_of(owner)).0
                == collection::owner_info(whole.held.owners, keys::key_of(owner)).0
                + metadatas.len()
            &&& forall|id: TokenID| #[trigger]
                after.held.tokens.contains_key(id) ==> whole.held.tokens.contains_key(id)
                    || whole.next <= id < whole.next + metadatas.len()
            &&& forall|actor: ActorID| #[trigger]
                collection::owner_info(after.held.owners, keys::key_of(actor)).1
                    == collection::owner_info(whole.held.owners, keys::key_of(actor)).1
        }),
{
    let key = keys::key_of(owner);
    let tokens = collection::with_minted(whole.held.tokens, whole.next, owner, metadatas);
    lemma_right(whole.held, owner);
    lemma_owned_insert(
        whole.held.tokens,
        0,
        (owner, Set::empty(), Seq::empty()),
        owner,
    );
    lemma_with_minted(whole.held.tokens, whole.next, owner, metadatas);
    let owners = collection::credited(whole.held.owners, key, metadatas.len())->Ok_0;
    let held = Holdings { tokens, owners };
    assert forall|k: Seq<u8>| #[trigger] held.owners.contains_key(k) implies exists|a: ActorID|
        k == keys::key_of(a) by {
        if k != key {
            assert(whole.held.owners.contains_key(k));
        }
    }
    assert forall|actor: ActorID| #[trigger]
        held.owners.contains_key(keys::key_of(actor)) implies held.owners[keys::key_of(actor)].0
        == collection::owned_by(held.tokens, actor).len() && !(held.owners[keys::key_of(actor)].0
        == 0 && held.owners[keys::key_of(actor)].1 == Set::<ActorID>::empty()) by {
        keys::keys_differ(actor, owner);
        keys::key_names_its_actor(actor);
        lemma_right(whole.held, actor);
        if actor != owner {
            assert(whole.held.owners.contains_key(keys::key_of(actor)));
        }
        assert(collection::owned_by(tokens, actor).len() >= 0);
    }
    assert forall|id: TokenID| #[trigger]
        held.tokens.contains_key(id) implies held.owners.contains_key(
        keys::key_of(held.tokens[id].0),
    ) by {
        if id < whole.next {
            assert(whole.held.tokens.contains_key(id));
        }
    }
    lemma_balanced_again(held);
    assert forall|i: int| 0 <= i < metadatas.len() implies newly_there(
        whole.held.tokens,
        tokens,
        (whole.next + i) as u64,
        owner,
        #[trigger] metadatas[i],
    ) by {
        let id = (whole.next + i) as u64;
        assert(tokens.contains_key(id));
    }
    assert forall|actor: ActorID| #[trigger]
        collection::owner_info(held.owners, keys::key_of(actor)).1 == collection::owner_info(
            whole.held.owners,
            keys::key_of(actor),
        ).1 by {
        keys::keys_differ(actor, owner);
    }
}

/// The tokens without those of a list.
proof fn lemma_burned(tokens: Tokens, ids: Seq<TokenID>, n: nat, owner: ActorID)
    requires
        tokens.dom().finite(),
        n <= ids.len(),
        forall|i: int|
            0 <= i < n ==> tokens.contains_key(#[trigger] ids[i]) && tokens[ids[i]].0 == owner
                && ids[i] < u64::MAX,
        forall|i: int, j: int| 0 <= i < j < n ==> #[trigger] ids[i] != #[trigger] ids[j],
    ensures
        state::burning().done(tokens, ids, n) is Ok,
        ({
            let after = state::burning().done(tokens, ids, n)->Ok_0;
            &&& after.dom().finite()
            &&& after.dom().len() == tokens.dom().len() - n
            &&& forall|id: TokenID| #[trigger]
                after.contains_key(id) == (tokens.contains_key(id) && !ids.take(n as int).contains(
                    id,
                ))
            &&& forall|id: TokenID| #[trigger] after.contains_key(id) ==> after[id] == tokens[id]
            &&& forall|actor: ActorID| #[trigger]
                collection::owned_by(after, actor).len() == collection::owned_by(tokens, actor).len()
                    - (if actor == owner {
                    n as int
                } else {
                    0
                })
        }),
    decreases n,
{
    let work = state::burning();
    if n == 0 {
        assert(!exists|id: TokenID| ids.take(0).contains(id));
    } else {
        let m = (n - 1) as nat;
        let last = ids[n - 1];
        lemma_burned(tokens, ids, m, owner);
        let between = work.done(tokens, ids, m)->Ok_0;
        assert(!ids.take(m as int).contains(last));
        assert(between.contains_key(last));
        assert((work.step)(between, last) == Ok::<Tokens, NftFault>(between.remove(last)));
        let after = work.done(tokens, ids, n)->Ok_0;
        assert(after == between.remove(last));
        assert(ids.take(n as int) =~= ids.take(m as int).push(last));
        assert forall|id: TokenID| ids.take(n as int).contains(id) == (ids.take(m as int).contains(
            id,
        ) || id == last) by {
            if ids.take(m as int).contains(id) {
                let i = choose|i: int| 0 <= i < m && ids.take(m as int)[i] == id;
                assert(ids.take(n as int)[i] == id);
            }
            if id == last {
                assert(ids.take(n as int)[m as int] == id);
            }
            if ids.take(n as int).contains(id) && id != last {
                let i = choose|i: int| 0 <= i < n && ids.take(n as int)[i] == id;
                assert(ids.take(m as int)[i] == id);
            }
        }
        assert forall|actor: ActorID| #[trigger]
            collection::owned_by(after, actor).len() == collection::owned_by(tokens, actor).len()
                - (if actor == owner {
                n as int
            } else {
                0
            }) by {
            lemma_owned_remove(between, last, actor);
        }
    }
}

/// Burning different tokens of one owner succeeds. The rules are kept, the supply shrinks by their
/// number, they are gone, and the other tokens stay as they are. Nothing is said of burning no
/// tokens for an actor who is not in the owners' tree: that is refused.
pub proof fn burn_law(whole: Collection, owner: ActorID, ids: Seq<TokenID>)
    requires
        whole.regular(),
        forall|i: int|
            0 <= i < ids.len() ==> whole.held.tokens.contains_key(#[trigger] ids[i])
                && whole.held.tokens[ids[i]].0 == owner,
        forall|i: int, j: int| 0 <= i < j < ids.len() ==> #[trigger] ids[i] != #[trigger] ids[j],
        ids.len() > 0 || whole.held.owners.contains_key(keys::key_of(owner)),
    ensures
        state::burning().done(whole.held.tokens, ids, ids.len()) is Ok,
        collection::debited(whole.held.owners, keys::key_of(owner), ids.len()) is Ok,
        ids.len() <= whole.supply,
        ({
            let after = Collection {
                held: Holdings {
                    tokens: state::burning().done(whole.held.tokens, ids, ids.len())->Ok_0,
                    owners: collection::debited(
                        whole.held.owners,
                        keys::key_of(owner),
                        ids.len(),
                    )->Ok_0,
                },
                next: whole.next,
                supply: (whole.supply - ids.len()) as u64,
            };
            &&& after.regular()
            &&& forall|id: TokenID| #[trigger]
                after.held.tokens.contains_key(id) == (whole.held.tokens.contains_key(id)
                    && !ids.contains(id))
            &&& forall|id: TokenID| #[trigger]
                after.held.tokens.contains_key(id) ==> after.held.tokens[id]
                    == whole.held.tokens[id]
            &&& forall|actor: ActorID| #[trigger]
                collection::owner_info(after.held.owners, keys::key_of(actor)).1
                    == collection::owner_info(whole.held.owners, keys::key_of(actor)).1
        }),
{
    let key = keys::key_of(owner);
    keys::key_names_its_actor(owner);
    lemma_burned(whole.held.tokens, ids, ids.len(), owner);
    assert(ids.take(ids.len() as int) =~= ids);
    lemma_right(whole.held, owner);
    if ids.len() > 0 {
        assert(whole.held.tokens.contains_key(ids[0]));
    }
    let tokens = state::burning().done(whole.held.tokens, ids, ids.len())->Ok_0;
    assert(collection::owned_by(tokens, owner).len() >= 0);
    let owners = collection::debited(whole.held.owners, key, ids.len())->Ok_0;
    let held = Holdings { tokens, owners };
    assert forall|k: Seq<u8>| #[trigger] held.owners.contains_key(k) implies exists|a: ActorID|
        k == keys::key_of(a) by {
        assert(whole.held.owners.contains_key(k));
    }
    assert forall|actor: ActorID| #[trigger]
        held.owners.contains_key(keys::key_of(actor)) implies held.owners[keys::key_of(actor)].0
        == collection::owned_by(held.tokens, actor).len() && !(held.owners[keys::key_of(actor)].0
        == 0 && held.owners[keys::key_of(actor)].1 == Set::<ActorID>::empty()) by {
        keys::keys_differ(actor, owner);
        keys::key_names_its_actor(actor);
        lemma_right(whole.held, actor);
        assert(whole.held.owners.contains_key(keys::key_of(actor)));
        assert(collection::owned_by(tokens, actor).len() >= 0);
    }
    assert forall|id: TokenID| #[trigger]
        held.tokens.contains_key(id) implies held.owners.contains_key(
        keys::key_of(held.tokens[id].0),
    ) by {
        assert(whole.held.tokens.contains_key(id));
        let actor = whole.held.tokens[id].0;
        keys::keys_differ(actor, owner);
        if actor == owner {
            let mine = collection::owned_by(tokens, owner);
            assert(mine.contains(id));
            vstd::set_lib::lemma_len_subset(mine, tokens.dom());
            if mine.len() == 0 {
                assert(mine =~= Set::empty());
            }
        }
    }
    lemma_balanced_again(held);
    assert forall|id: TokenID| #[trigger] held.tokens.contains_key(id) implies id < whole.next by {
        assert(whole.held.tokens.contains_key(id));
    }
    assert forall|actor: ActorID| #[trigger]
        collection::owner_info(held.owners, keys::key_of(actor)).1 == collection::owner_info(
            whole.held.owners,
            keys::key_of(actor),
        ).1 by {
        keys::keys_differ(actor, owner);
    }
}

/// A burnt number is never given to a token again: minting, whatever came before it, makes no token
/// with a number below the next one, and the next number of a collection never falls.
pub proof fn burnt_numbers_stay_free(
    whole: Collection,
    id: TokenID,
    owner: ActorID,
    metadatas: Seq<Seq<char>>,
)
    requires
        id < whole.next,
        !whole.held.tokens.contains_key(id),
        whole.next + metadatas.len() <= u64::MAX,
    ensures
        !collection::with_minted(whole.held.tokens, whole.next, owner, metadatas).contains_key(id),
    decreases metadatas.len(),
{
    if metadatas.len() > 0 {
        burnt_numbers_stay_free(whole, id, owner, metadatas.drop_last());
    }
}

/// Changing the operators of a token keeps the rules, and everything but those operators.
pub proof fn operators_law(whole: Collection, id: TokenID, operators: Set<ActorID>)
    requires
        whole.regular(),
        whole.held.tokens.contains_key(id),
    ensures
        ({
            let tokens = collection::with_operators(whole.held.tokens, id, operators);
            let after = Collection { held: Holdings { tokens, ..whole.held }, ..whole };
            &&& after.regular()
            &&& tokens.dom() == whole.held.tokens.dom()
            &&& tokens[id].0 == whole.held.tokens[id].0
            &&& tokens[id].1 == operators
            &&& tokens[id].2 == whole.held.tokens[id].2
        }),
{
    let token = whole.held.tokens[id];
    let tokens = collection::with_operators(whole.held.tokens, id, operators);
    assert(tokens.dom() =~= whole.held.tokens.dom());
    let held = Holdings { tokens, ..whole.held };
    assert forall|k: Seq<u8>| #[trigger] held.owners.contains_key(k) implies collection::owner_sound(
        tokens,
        k,
        held.owners[k],
    ) by {
        assert(whole.held.owners.contains_key(k));
        assert(collection::owned_by(tokens, keys::id_of(k)->0) =~= collection::owned_by(
            whole.held.tokens,
            keys::id_of(k)->0,
        ));
    }
    assert forall|other: TokenID| #[trigger]
        held.tokens.contains_key(other) implies held.owners.contains_key(
        keys::key_of(held.tokens[other].0),
    ) by {
        assert(whole.held.tokens.contains_key(other));
    }
    assert forall|other: TokenID| #[trigger] tokens.contains_key(other) implies other
        < whole.next by {
        assert(whole.held.tokens.contains_key(other));
    }
}

/// Authorising an operator for an account keeps the rules, and taking the authorisation of a new
/// operator back restores the owners as they were.
pub proof fn account_operator_law(whole: Collection, owner: ActorID, operator: ActorID)
    requires
        whole.regular(),
    ensures
        ({
            let key = keys::key_of(owner);
            let info = collection::owner_info(whole.held.owners, key);
            let owners = whole.held.owners.insert(key, (info.0, info.1.insert(operator)));
            let after = Collection { held: Holdings { owners, ..whole.held }, ..whole };
            &&& after.regular()
            &&& !info.1.contains(operator) ==> collection::with_owner(
                owners,
                key,
                (owners[key].0, owners[key].1.remove(operator)),
            ) == whole.held.owners
        }),
{
    let key = keys::key_of(owner);
    let info = collection::owner_info(whole.held.owners, key);
    let owners = whole.held.owners.insert(key, (info.0, info.1.insert(operator)));
    lemma_right(whole.held, owner);
    keys::key_names_its_actor(owner);
    let held = Holdings { owners, ..whole.held };
    assert forall|k: Seq<u8>| #[trigger] held.owners.contains_key(k) implies collection::owner_sound(
        held.tokens,
        k,
        held.owners[k],
    ) by {
        if k == key {
            assert(info.1.insert(operator).contains(operator));
            assert(info.1.insert(operator) != Set::<ActorID>::empty());
        } else {
            assert(whole.held.owners.contains_key(k));
        }
    }
    assert forall|id: TokenID| #[trigger]
        held.tokens.contains_key(id) implies held.owners.contains_key(
        keys::key_of(held.tokens[id].0),
    ) by {
        assert(whole.held.tokens.contains_key(id));
    }
    assert forall|k: Seq<u8>| #[trigger] held.owners.contains_key(k) implies exists|a: ActorID|
        k == keys::key_of(a) by {
        if k != key {
            assert(whole.held.owners.contains_key(k));
        }
    }
    if !info.1.contains(operator) {
        assert(info.1.insert(operator).remove(operator) =~= info.1);
        let back = collection::with_owner(owners, key, (info.0, info.1));
        if whole.held.owners.contains_key(key) {
            assert(collection::owner_sound(whole.held.tokens, key, whole.held.owners[key]));
        }
        assert(back =~= whole.held.owners);
    }
}

/// Taking an operator's authorisation for an account back keeps the rules.
pub proof fn account_revoked_law(whole: Collection, owner: ActorID, operator: ActorID)
    requires
        whole.regular(),
        whole.held.owners.contains_key(keys::key_of(owner)),
    ensures
        ({
            let key = keys::key_of(owner);
            let info = whole.held.owners[key];
            let owners = collection::with_owner(
                whole.held.owners,
                key,
                (info.0, info.1.remove(operator)),
            );
            let after = Collection { held: Holdings { owners, ..whole.held }, ..whole };
            &&& after.regular()
            &&& !collection::owner_info(owners, key).1.contains(operator)
            &&& collection::owner_info(owners, key).0 == info.0
        }),
{
    let key = keys::key_of(owner);
    let info = whole.held.owners[key];
    let owners = collection::with_owner(whole.held.owners, key, (info.0, info.1.remove(operator)));
    lemma_right(whole.held, owner);
    keys::key_names_its_actor(owner);
    let held = Holdings { owners, ..whole.held };
    assert forall|k: Seq<u8>| #[trigger] held.owners.contains_key(k) implies collection::owner_sound(
        held.tokens,
        k,
        held.owners[k],
    ) by {
        assert(whole.held.owners.contains_key(k));
    }
    assert forall|id: TokenID| #[trigger]
        held.tokens.contains_key(id) implies held.owners.contains_key(
        keys::key_of(held.tokens[id].0),
    ) by {
        assert(whole.held.tokens.contains_key(id));
        if whole.held.tokens[id].0 == owner {
            let mine = collection::owned_by(whole.held.tokens, owner);
            assert(mine.contains(id));
            vstd::set_lib::lemma_len_subset(mine, whole.held.tokens.dom());
            if mine.len() == 0 {
                assert(mine =~= Set::empty());
            }
        } else {
            keys::keys_differ(whole.held.tokens[id].0, owner);
        }
    }
    assert forall|k: Seq<u8>| #[trigger] held.owners.contains_key(k) implies exists|a: ActorID|
        k == keys::key_of(a) by {
        assert(whole.held.owners.contains_key(k));
    }
}

/// A new collection keeps the rules.
pub proof fn new_collection_is_regular()
    ensures
        Collection::empty().regular(),
{
}

} // verus!
