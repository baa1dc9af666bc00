//! What the operations on a collection are for, said of what goes in and what comes out.
use vstd::prelude::*;

use crate::bits;
use crate::bytes::ActorID;
use crate::frc53_nft::collection;
use crate::frc53_nft::collection::Collection;
use crate::frc53_nft::laws;
use crate::frc53_nft::state;
use crate::frc53_nft::state::{NFTState, StateError, HAMT_BIT_WIDTH};
use crate::frc53_nft::types::{MintIntermediate, TransferIntermediate};
use crate::keys;
use crate::nft_store;
use crate::nft_store::{Owners, TokenData, TokenID, Tokens};
use crate::store::{Blocks, Store};

verus! {

/// The tokens that a state has in some blocks.
pub open spec fn tokens_of(state: NFTState, blocks: Blocks) -> Tokens {
    nft_store::tokens_at(blocks, state.token_data@)->0
}

/// The owners that a state has in some blocks.
pub open spec fn owners_of(state: NFTState, blocks: Blocks) -> Owners {
    nft_store::owners_at(blocks, state.owner_data@, HAMT_BIT_WIDTH)->0
}

/// Whether both trees of a state are complete in some blocks.
pub open spec fn complete(state: NFTState, blocks: Blocks) -> bool {
    &&& nft_store::tokens_at(blocks, state.token_data@) is Some
    &&& nft_store::owners_at(blocks, state.owner_data@, HAMT_BIT_WIDTH) is Some
}

/// How many tokens the owners' tree counts for an actor.
pub open spec fn counted(owners: Owners, actor: ActorID) -> int {
    if owners.contains_key(keys::key_of(actor)) {
        owners[keys::key_of(actor)].0 as int
    } else {
        0
    }
}

/// The actors that may act for an account.
pub open spec fn delegates(owners: Owners, actor: ActorID) -> Set<ActorID> {
    if owners.contains_key(keys::key_of(actor)) {
        owners[keys::key_of(actor)].1
    } else {
        Set::empty()
    }
}

/// How many of the tokens have this owner.
pub open spec fn tally(tokens: Tokens, actor: ActorID) -> nat {
    tokens.dom().filter(|id: TokenID| tokens[id].0 == actor).len()
}

/// Whether a check can only let tokens pass.
pub open spec fn lenient<F: Fn(&TokenData, TokenID) -> Result<(), StateError>>(check: F) -> bool {
    forall|data: TokenData, id: TokenID, q: Result<(), StateError>| #[trigger]
        check.ensures((&data, id), q) ==> q is Ok
}

/// Whether a check let a token pass as it was.
pub open spec fn let_pass<F: Fn(&TokenData, TokenID) -> Result<(), StateError>>(
    check: F,
    tokens: Tokens,
    id: TokenID,
) -> bool {
    exists|data: TokenData| #[trigger]
        check.ensures((&data, id), Ok(())) && data.owner == tokens[id].0 && bits::held_bits(
            data.operators,
        ) == tokens[id].1 && data.metadata@ == tokens[id].2
}

/// Membership in the first numbers of a list, with the last of them apart.
pub(crate) proof fn lemma_take_last(ids: Seq<TokenID>, n: int)
    requires
        0 < n <= ids.len(),
    ensures
        forall|id: TokenID| #[trigger]
            ids.take(n).contains(id) == (ids.take(n - 1).contains(id) || id == ids[n - 1]),
{
    let m = n - 1;
    let more = ids.take(n);
    let fewer = ids.take(m);
    assert(more =~= fewer.push(ids[m]));
    assert forall|id: TokenID| #[trigger] more.contains(id) == (fewer.contains(id) || id
        == ids[m]) by {
        if fewer.contains(id) {
            let i = choose|i: int| 0 <= i < fewer.len() && fewer[i] == id;
            assert(more[i] == id);
        }
        if id == ids[m] {
            assert(more[m] == id);
        }
        if more.contains(id) && id != ids[m] {
            let i = choose|i: int| 0 <= i < more.len() && more[i] == id;
            assert(fewer[i] == id);
        }
    }
}

/// Whether the tokens of a list have one more operator, and everything else is as it was.
pub open spec fn authorised(before: Tokens, after: Tokens, ids: Seq<TokenID>, operator: ActorID) -> bool {
    &&& forall|id: TokenID| #[trigger] after.contains_key(id) == before.contains_key(id)
    &&& forall|id: TokenID| #[trigger]
        after.contains_key(id) ==> after[id].0 == before[id].0 && after[id].2 == before[id].2
    &&& forall|id: TokenID, x: ActorID|
        after.contains_key(id) ==> (#[trigger] after[id].1.contains(x) <==> before[id].1.contains(x)
            || (ids.contains(id) && x == operator))
}

/// Whether the tokens of a list have lost an operator, and everything else is as it was.
pub open spec fn deprived(before: Tokens, after: Tokens, ids: Seq<TokenID>, operator: ActorID) -> bool {
    &&& forall|id: TokenID| #[trigger] after.contains_key(id) == before.contains_key(id)
    &&& forall|id: TokenID| #[trigger]
        after.contains_key(id) ==> after[id].0 == before[id].0 && after[id].2 == before[id].2
    &&& forall|id: TokenID, x: ActorID|
        after.contains_key(id) ==> (#[trigger] after[id].1.contains(x) <==> before[id].1.contains(x)
            && !(ids.contains(id) && x == operator))
}

proof fn lemma_authorised(tokens: Tokens, ids: Seq<TokenID>, n: nat, operator: ActorID)
    requires
        n <= ids.len(),
        state::approving(operator).done(tokens, ids, n) is Ok,
    ensures
        authorised(
            tokens,
            state::approving(operator).done(tokens, ids, n)->Ok_0,
            ids.take(n as int),
            operator,
        ),
        forall|i: int| 0 <= i < n ==> tokens.contains_key(#[trigger] ids[i]),
    decreases n,
{
    if n == 0 {
        assert(!exists|id: TokenID| ids.take(0).contains(id));
    } else {
        let m = (n - 1) as nat;
        lemma_authorised(tokens, ids, m, operator);
        lemma_take_last(ids, n as int);
        let between = state::approving(operator).done(tokens, ids, m)->Ok_0;
        let after = state::approving(operator).done(tokens, ids, n)->Ok_0;
        let last = ids[m as int];
        assert(between.contains_key(last));
        assert(after == between.insert(
            last,
            (between[last].0, between[last].1.insert(operator), between[last].2),
        ));
        assert forall|id: TokenID| #[trigger] after.contains_key(id) implies after[id].0
            == tokens[id].0 && after[id].2 == tokens[id].2 by {
            assert(between.contains_key(id));
        }
        assert forall|id: TokenID, x: ActorID|
            after.contains_key(id) implies (#[trigger] after[id].1.contains(x) <==> tokens[id].1.contains(x)
            || (ids.take(n as int).contains(id) && x == operator)) by {
            assert(between.contains_key(id));
            let was = between[id].1.contains(x);
            assert(ids.take(n as int).contains(id) == (ids.take(m as int).contains(id) || id
                == last));
            if id == last {
                assert(after[id].1 == between[last].1.insert(operator));
            } else {
                assert(after[id] == between[id]);
            }
        }
    }
}

proof fn lemma_deprived(tokens: Tokens, ids: Seq<TokenID>, n: nat, operator: ActorID)
    requires
        n <= ids.len(),
        state::revoking(operator).done(tokens, ids, n) is Ok,
    ensures
        deprived(
            tokens,
            state::revoking(operator).done(tokens, ids, n)->Ok_0,
            ids.take(n as int),
            operator,
        ),
        forall|i: int| 0 <= i < n ==> tokens.contains_key(#[trigger] ids[i]),
    decreases n,
{
    if n == 0 {
        assert(!exists|id: TokenID| ids.take(0).contains(id));
    } else {
        let m = (n - 1) as nat;
        lemma_deprived(tokens, ids, m, operator);
        lemma_take_last(ids, n as int);
        let between = state::revoking(operator).done(tokens, ids, m)->Ok_0;
        let after = state::revoking(operator).done(tokens, ids, n)->Ok_0;
        let last = ids[m as int];
        assert(between.contains_key(last));
        assert(after == between.insert(
            last,
            (between[last].0, between[last].1.remove(operator), between[last].2),
        ));
        assert forall|id: TokenID| #[trigger] after.contains_key(id) implies after[id].0
            == tokens[id].0 && after[id].2 == tokens[id].2 by {
            assert(between.contains_key(id));
        }
        assert forall|id: TokenID, x: ActorID|
            after.contains_key(id) implies (#[trigger] after[id].1.contains(x) <==> tokens[id].1.contains(x)
            && !(ids.take(n as int).contains(id) && x == operator)) by {
            assert(between.contains_key(id));
            let was = between[id].1.contains(x);
            assert(ids.take(n as int).contains(id) == (ids.take(m as int).contains(id) || id
                == last));
            if id == last {
                assert(after[id].1 == between[last].1.remove(operator));
            } else {
                assert(after[id] == between[id]);
            }
        }
    }
}

/// What a list of tokens led to halfway, where it led to something in the end.
proof fn lemma_done_before<X>(start: X, ids: Seq<TokenID>, m: nat, n: nat, work: state::Work<X>)
    requires
        m <= n,
        work.done(start, ids, n) is Ok,
    ensures
        work.done(start, ids, m) is Ok,
    decreases n,
{
    if m < n {
        lemma_done_before(start, ids, m, (n - 1) as nat, work);
    }
}

/// After an approval, each token of the list has exactly the operators that it had and the new one.
/// Owners, metadata, the other tokens, the supply and the accounts are as they were. Every token was
/// there, and the check let it pass. A refused approval changes nothing.
pub proof fn an_approval_adds_the_operator<F: Fn(&TokenData, TokenID) -> Result<(), StateError>>(
    s: &mut NFTState,
    bs: &mut Store,
    operator: ActorID,
    ids: &Vec<TokenID>,
    check: F,
    r: Result<(), StateError>,
)
    requires
        complete(*old(s), old(bs)@),
        call_ensures(NFTState::approve_for_tokens::<F>, (s, bs, operator, ids, check), r),
    ensures
        complete(*final(s), final(bs)@),
        owners_of(*final(s), final(bs)@) == owners_of(*old(s), old(bs)@),
        final(s).next_token == old(s).next_token,
        final(s).total_supply == old(s).total_supply,
        r is Ok ==> authorised(
            tokens_of(*old(s), old(bs)@),
            tokens_of(*final(s), final(bs)@),
            ids@,
            operator,
        ),
        r is Ok ==> forall|i: int|
            0 <= i < ids@.len() ==> tokens_of(*old(s), old(bs)@).contains_key(#[trigger] ids@[i]) && (
            !ids@.take(i).contains(ids@[i]) ==> let_pass(
                check,
                tokens_of(*old(s), old(bs)@),
                ids@[i],
            )),
        r is Err ==> *final(s) == *old(s) && tokens_of(*final(s), final(bs)@) == tokens_of(
            *old(s),
            old(bs)@,
        ),
        lenient(check) && operator < u64::MAX && (forall|i: int|
            0 <= i < ids@.len() ==> tokens_of(*old(s), old(bs)@).contains_key(#[trigger] ids@[i])
                && ids@[i] < u64::MAX && nft_store::few(
                tokens_of(*old(s), old(bs)@)[ids@[i]].1.insert(operator),
            )) ==> r is Ok,
{
    let before = tokens_of(*old(s), old(bs)@);
    let work = state::approving(operator);
    assert(nft_store::owners_at(old(bs)@, old(s).owner_data@, HAMT_BIT_WIDTH) is Some);
    assert(ids@.take(ids@.len() as int) =~= ids@);
    if r is Ok {
        lemma_authorised(before, ids@, ids@.len(), operator);
        assert forall|i: int| 0 <= i < ids@.len() && !ids@.take(i).contains(
            #[trigger] ids@[i],
        ) implies let_pass(check, before, ids@[i]) by {
            lemma_done_before(before, ids@, i as nat, ids@.len(), work);
            lemma_authorised(before, ids@, i as nat, operator);
            let between = work.done(before, ids@, i as nat)->Ok_0;
            assert(before.contains_key(ids@[i]));
            assert(between.contains_key(ids@[i]));
            assert(between[ids@[i]].1 =~= before[ids@[i]].1);
            assert(state::lets_pass(check, between, ids@[i]));
            let data = choose|data: TokenData| #[trigger]
                check.ensures((&data, ids@[i]), Ok(())) && data@ == between[ids@[i]];
            assert(data@ == (data.owner, bits::held_bits(data.operators), data.metadata@));
        }
    } else if lenient(check) && operator < u64::MAX && (forall|i: int|
        0 <= i < ids@.len() ==> before.contains_key(#[trigger] ids@[i]) && ids@[i] < u64::MAX
            && nft_store::few(before[ids@[i]].1.insert(operator))) {
        let e = r->Err_0;
        let n = choose|n: nat| #[trigger]
            state::refused_at(before, ids@, n, work, check, e);
        lemma_authorised(before, ids@, n, operator);
        let between = work.done(before, ids@, n)->Ok_0;
        let id = ids@[n as int];
        assert(between.contains_key(id));
        assert(between[id].1.insert(operator) =~= before[id].1.insert(operator));
        assert(false);
    }
}

/// After a revocation, no token of the list has the operator, and each has all its other operators.
/// Owners, metadata, the other tokens, the supply and the accounts are as they were. Every token was
/// there, and the check let it pass. A refused revocation changes nothing.
pub proof fn a_revocation_takes_the_operator_off<
    F: Fn(&TokenData, TokenID) -> Result<(), StateError>,
>(
    s: &mut NFTState,
    bs: &mut Store,
    operator: ActorID,
    ids: &Vec<TokenID>,
    check: F,
    r: Result<(), StateError>,
)
    requires
        complete(*old(s), old(bs)@),
        call_ensures(NFTState::revoke_for_tokens::<F>, (s, bs, operator, ids, check), r),
    ensures
        complete(*final(s), final(bs)@),
        owners_of(*final(s), final(bs)@) == owners_of(*old(s), old(bs)@),
        final(s).next_token == old(s).next_token,
        final(s).total_supply == old(s).total_supply,
        r is Ok ==> deprived(
            tokens_of(*old(s), old(bs)@),
            tokens_of(*final(s), final(bs)@),
            ids@,
            operator,
        ),
        r is Ok ==> forall|i: int|
            0 <= i < ids@.len() ==> tokens_of(*old(s), old(bs)@).contains_key(#[trigger] ids@[i]) && (
            !ids@.take(i).contains(ids@[i]) ==> let_pass(
                check,
                tokens_of(*old(s), old(bs)@),
                ids@[i],
            )),
        r is Err ==> *final(s) == *old(s) && tokens_of(*final(s), final(bs)@) == tokens_of(
            *old(s),
            old(bs)@,
        ),
        lenient(check) && (forall|i: int|
            0 <= i < ids@.len() ==> tokens_of(*old(s), old(bs)@).contains_key(#[trigger] ids@[i])
                && ids@[i] < u64::MAX && nft_store::few(
                tokens_of(*old(s), old(bs)@)[ids@[i]].1,
            )) ==> r is Ok,
{
    let before = tokens_of(*old(s), old(bs)@);
    let work = state::revoking(operator);
    assert(nft_store::owners_at(old(bs)@, old(s).owner_data@, HAMT_BIT_WIDTH) is Some);
    assert(ids@.take(ids@.len() as int) =~= ids@);
    if r is Ok {
        lemma_deprived(before, ids@, ids@.len(), operator);
        assert forall|i: int| 0 <= i < ids@.len() && !ids@.take(i).contains(
            #[trigger] ids@[i],
        ) implies let_pass(check, before, ids@[i]) by {
            lemma_done_before(before, ids@, i as nat, ids@.len(), work);
            lemma_deprived(before, ids@, i as nat, operator);
            let between = work.done(before, ids@, i as nat)->Ok_0;
            assert(before.contains_key(ids@[i]));
            assert(between.contains_key(ids@[i]));
            assert(between[ids@[i]].1 =~= before[ids@[i]].1);
            assert(state::lets_pass(check, between, ids@[i]));
            let data = choose|data: TokenData| #[trigger]
                check.ensures((&data, ids@[i]), Ok(())) && data@ == between[ids@[i]];
            assert(data@ == (data.owner, bits::held_bits(data.operators), data.metadata@));
        }
    } else if lenient(check) && (forall|i: int|
        0 <= i < ids@.len() ==> before.contains_key(#[trigger] ids@[i]) && ids@[i] < u64::MAX
            && nft_store::few(before[ids@[i]].1)) {
        let e = r->Err_0;
        let n = choose|n: nat| #[trigger]
            state::refused_at(before, ids@, n, work, check, e);
        lemma_deprived(before, ids@, n, operator);
        let between = work.done(before, ids@, n)->Ok_0;
        let id = ids@[n as int];
        assert(between.contains_key(id));
        assert(between[id].1.remove(operator) =~= before[id].1.remove(operator));
        vstd::set_lib::lemma_len_subset(before[id].1.remove(operator), before[id].1);
        assert(false);
    }
}

/// A new collection has no tokens and no owners, and begins to count at zero.
pub proof fn a_new_collection_is_empty(bs: &mut Store, r: Result<NFTState, StateError>)
    requires
        call_ensures(NFTState::new, (bs,), r),
    ensures
        r is Ok,
        complete(r->Ok_0, final(bs)@),
        forall|id: TokenID| !#[trigger] tokens_of(r->Ok_0, final(bs)@).contains_key(id),
        forall|actor: ActorID| #[trigger] counted(owners_of(r->Ok_0, final(bs)@), actor) == 0,
        forall|actor: ActorID, x: ActorID|
            !#[trigger] delegates(owners_of(r->Ok_0, final(bs)@), actor).contains(x),
        r->Ok_0.next_token == 0,
        r->Ok_0.total_supply == 0,
{
    let state = r->Ok_0;
    assert(state.collection(final(bs)@) is Some);
}

/// Minting gives the new tokens the numbers from the next one on, in the order of their metadata. Each
/// belongs to the owner, has its metadata and no operators. The tokens that were there stay as they
/// are, and there are no others. The owner's count and the supply grow by the number of tokens, all
/// other counts stay, and nobody may act for another account than before.
pub proof fn a_mint_makes_the_tokens(
    s: &mut NFTState,
    bs: &mut Store,
    owner: ActorID,
    metadatas: Vec<String>,
    r: Result<MintIntermediate, StateError>,
)
    requires
        complete(*old(s), old(bs)@),
        old(s).collection(old(bs)@)->0.regular(),
        old(s).next_token + metadatas@.len() <= u64::MAX,
        old(s).total_supply + metadatas@.len() <= u64::MAX,
        call_ensures(NFTState::mint_tokens, (s, bs, owner, metadatas), r),
    ensures
        r is Ok,
        complete(*final(s), final(bs)@),
        r->Ok_0.to == owner,
        r->Ok_0.token_ids@.len() == metadatas@.len(),
        final(s).next_token == old(s).next_token + metadatas@.len(),
        final(s).total_supply == old(s).total_supply + metadatas@.len(),
        forall|i: int|
            0 <= i < metadatas@.len() ==> {
                let id = #[trigger] r->Ok_0.token_ids@[i];
                let after = tokens_of(*final(s), final(bs)@);
                &&& id == old(s).next_token + i
                &&& !tokens_of(*old(s), old(bs)@).contains_key(id)
                &&& after.contains_key(id)
                &&& after[id].0 == owner
                &&& after[id].1 == Set::<ActorID>::empty()
                &&& after[id].2 == metadatas@[i]@
            },
        forall|id: TokenID| #[trigger]
            tokens_of(*old(s), old(bs)@).contains_key(id) ==> tokens_of(
                *final(s),
                final(bs)@,
            ).contains_key(id) && tokens_of(*final(s), final(bs)@)[id] == tokens_of(
                *old(s),
                old(bs)@,
            )[id],
        forall|id: TokenID| #[trigger]
            tokens_of(*final(s), final(bs)@).contains_key(id) ==> tokens_of(
                *old(s),
                old(bs)@,
            ).contains_key(id) || old(s).next_token <= id < old(s).next_token + metadatas@.len(),
        forall|actor: ActorID| #[trigger]
            counted(owners_of(*final(s), final(bs)@), actor) == counted(
                owners_of(*old(s), old(bs)@),
                actor,
            ) + (if actor == owner {
                metadatas@.len() as int
            } else {
                0
            }),
        forall|actor: ActorID| #[trigger]
            delegates(owners_of(*final(s), final(bs)@), actor) == delegates(
                owners_of(*old(s), old(bs)@),
                actor,
            ),
{
    let whole = old(s).collection(old(bs)@)->0;
    let texts = state::texts(metadatas@);
    laws::mint_law(whole, owner, texts);
    let after = collection::issued(whole, owner, texts)->Ok_0;
    assert(final(s).collection(final(bs)@) == Some(after));
    assert forall|actor: ActorID| #[trigger]
        counted(after.held.owners, actor) == counted(whole.held.owners, actor) + (if actor == owner {
            metadatas@.len() as int
        } else {
            0
        }) by {
        keys::keys_differ(actor, owner);
        assert(counted(after.held.owners, actor) == collection::owner_info(
            after.held.owners,
            keys::key_of(actor),
        ).0);
    }
    assert forall|actor: ActorID| #[trigger]
        delegates(after.held.owners, actor) == delegates(whole.held.owners, actor) by {
        assert(collection::owner_info(after.held.owners, keys::key_of(actor)).1
            == collection::owner_info(whole.held.owners, keys::key_of(actor)).1);
    }
    assert forall|i: int| 0 <= i < metadatas@.len() implies {
        let id = #[trigger] r->Ok_0.token_ids@[i];
        &&& id == old(s).next_token + i
        &&& !whole.held.tokens.contains_key(id)
        &&& after.held.tokens.contains_key(id)
        &&& after.held.tokens[id].0 == owner
        &&& after.held.tokens[id].1 == Set::<ActorID>::empty()
        &&& after.held.tokens[id].2 == metadatas@[i]@
    } by {
        assert(texts[i] == metadatas@[i]@);
    }
}

/// A balance is what the owners' tree counts for the actor, and in a regular collection the number of
/// tokens that have the actor as owner.
pub proof fn a_balance_is_the_number_of_tokens(
    s: NFTState,
    bs: Store,
    owner: ActorID,
    r: Result<u64, StateError>,
)
    requires
        complete(s, bs@),
        call_ensures(NFTState::get_balance, (&s, &bs, owner), r),
    ensures
        r is Ok,
        r->Ok_0 == counted(owners_of(s, bs@), owner),
        s.collection(bs@)->0.regular() ==> r->Ok_0 == tally(tokens_of(s, bs@), owner),
{
    let whole = s.collection(bs@)->0;
    if whole.regular() {
        laws::lemma_right(whole.held, owner);
        assert(collection::owned_by(whole.held.tokens, owner) =~= whole.held.tokens.dom().filter(
            |id: TokenID| whole.held.tokens[id].0 == owner,
        ));
    }
}

/// The owner and the metadata of a token are those that the collection has for its number. A number
/// that no token has is not found.
pub proof fn a_token_is_found_by_its_number(
    s: NFTState,
    bs: Store,
    id: TokenID,
    owner: Result<ActorID, StateError>,
    metadata: Result<String, StateError>,
)
    requires
        complete(s, bs@),
        id < u64::MAX,
        call_ensures(NFTState::get_owner, (&s, &bs, id), owner),
        call_ensures(NFTState::get_metadata, (&s, &bs, id), metadata),
    ensures
        owner is Ok == tokens_of(s, bs@).contains_key(id),
        metadata is Ok == tokens_of(s, bs@).contains_key(id),
        owner is Ok ==> owner->Ok_0 == tokens_of(s, bs@)[id].0,
        metadata is Ok ==> metadata->Ok_0@ == tokens_of(s, bs@)[id].2,
        owner is Err ==> owner->Err_0 is TokenNotFound && owner->Err_0->TokenNotFound_0 == id,
        metadata is Err ==> metadata->Err_0 is TokenNotFound && metadata->Err_0->TokenNotFound_0
            == id,
{
}

/// After an approval for an account, the account has exactly the delegates that it had and the new
/// one. Counts, other accounts, all tokens and the supply are as they were. A refused approval
/// changes nothing, and few delegates are never refused.
pub proof fn an_account_approval_adds_the_delegate(
    s: &mut NFTState,
    bs: &mut Store,
    owner: ActorID,
    operator: ActorID,
    r: Result<(), StateError>,
)
    requires
        complete(*old(s), old(bs)@),
        call_ensures(NFTState::approve_for_owner, (s, bs, owner, operator), r),
    ensures
        complete(*final(s), final(bs)@),
        tokens_of(*final(s), final(bs)@) == tokens_of(*old(s), old(bs)@),
        final(s).next_token == old(s).next_token,
        final(s).total_supply == old(s).total_supply,
        forall|actor: ActorID| #[trigger]
            counted(owners_of(*final(s), final(bs)@), actor) == counted(
                owners_of(*old(s), old(bs)@),
                actor,
            ),
        forall|actor: ActorID, x: ActorID| #[trigger]
            delegates(owners_of(*final(s), final(bs)@), actor).contains(x) <==> delegates(
                owners_of(*old(s), old(bs)@),
                actor,
            ).contains(x) || (r is Ok && actor == owner && x == operator),
        operator < u64::MAX && nft_store::few(
            delegates(owners_of(*old(s), old(bs)@), owner).insert(operator),
        ) ==> r is Ok,
        r is Err ==> *final(s) == *old(s),
{
    let before = owners_of(*old(s), old(bs)@);
    let after = owners_of(*final(s), final(bs)@);
    assert(nft_store::tokens_at(old(bs)@, old(s).token_data@) is Some);
    assert forall|actor: ActorID| #[trigger] counted(after, actor) == counted(before, actor) by {
        keys::keys_differ(actor, owner);
    }
    assert forall|actor: ActorID, x: ActorID| #[trigger]
        delegates(after, actor).contains(x) <==> delegates(before, actor).contains(x) || (r is Ok
            && actor == owner && x == operator) by {
        keys::keys_differ(actor, owner);
    }
}

/// After a revocation for an account, the account has exactly the delegates that it had but for the
/// one. Counts, other accounts, all tokens and the supply are as they were.
pub proof fn an_account_revocation_takes_the_delegate_off(
    s: &mut NFTState,
    bs: &mut Store,
    owner: ActorID,
    operator: ActorID,
    r: Result<(), StateError>,
)
    requires
        complete(*old(s), old(bs)@),
        call_ensures(NFTState::revoke_for_all, (s, bs, owner, operator), r),
    ensures
        complete(*final(s), final(bs)@),
        tokens_of(*final(s), final(bs)@) == tokens_of(*old(s), old(bs)@),
        final(s).next_token == old(s).next_token,
        final(s).total_supply == old(s).total_supply,
        forall|actor: ActorID| #[trigger]
            counted(owners_of(*final(s), final(bs)@), actor) == counted(
                owners_of(*old(s), old(bs)@),
                actor,
            ),
        forall|actor: ActorID, x: ActorID| #[trigger]
            delegates(owners_of(*final(s), final(bs)@), actor).contains(x) <==> delegates(
                owners_of(*old(s), old(bs)@),
                actor,
            ).contains(x) && !(r is Ok && actor == owner && x == operator),
        nft_store::few(delegates(owners_of(*old(s), old(bs)@), owner)) ==> r is Ok,
        r is Err ==> *final(s) == *old(s),
{
    let before = owners_of(*old(s), old(bs)@);
    let after = owners_of(*final(s), final(bs)@);
    assert(nft_store::tokens_at(old(bs)@, old(s).token_data@) is Some);
    let had = delegates(before, owner);
    if nft_store::few(had) {
        vstd::set_lib::lemma_len_subset(had.remove(operator), had);
    }
    assert forall|actor: ActorID| #[trigger] counted(after, actor) == counted(before, actor) by {
        keys::keys_differ(actor, owner);
    }
    assert forall|actor: ActorID, x: ActorID| #[trigger]
        delegates(after, actor).contains(x) <==> delegates(before, actor).contains(x) && !(r is Ok
            && actor == owner && x == operator) by {
        keys::keys_differ(actor, owner);
        if actor == owner && before.contains_key(keys::key_of(owner)) {
            assert(had.remove(operator).contains(x) == (had.contains(x) && x != operator));
        }
    }
}

pub(crate) proof fn lemma_burnt(tokens: Tokens, ids: Seq<TokenID>, n: nat)
    requires
        n <= ids.len(),
        state::burning().done(tokens, ids, n) is Ok,
    ensures
        ({
            let after = state::burning().done(tokens, ids, n)->Ok_0;
            &&& forall|id: TokenID| #[trigger]
                after.contains_key(id) <==> tokens.contains_key(id) && !ids.take(n as int).contains(
                    id,
                )
            &&& forall|id: TokenID| #[trigger] after.contains_key(id) ==> after[id] == tokens[id]
        }),
        forall|i: int| 0 <= i < n ==> tokens.contains_key(#[trigger] ids[i]),
        forall|i: int, j: int| 0 <= i < j < n ==> #[trigger] ids[i] != #[trigger] ids[j],
    decreases n,
{
    if n == 0 {
        assert(!exists|id: TokenID| ids.take(0).contains(id));
    } else {
        let m = (n - 1) as nat;
        lemma_burnt(tokens, ids, m);
        lemma_take_last(ids, n as int);
        let between = state::burning().done(tokens, ids, m)->Ok_0;
        let after = state::burning().done(tokens, ids, n)->Ok_0;
        assert(between.contains_key(ids[m as int]));
        assert(after == between.remove(ids[m as int]));
        assert forall|i: int, j: int| 0 <= i < j < n implies #[trigger] ids[i]
            != #[trigger] ids[j] by {
            if j == m {
                assert(ids.take(m as int)[i] == ids[i]);
                assert(ids.take(m as int).contains(ids[i]));
            }
        }
    }
}

/// A burn takes exactly the tokens of the list out, each of which was there and named once. The other
/// tokens stay as they are. The owner's count and the supply shrink by their number, and the new
/// count is returned. The other counts, the accounts and the next number stay as they are. The check
/// let every token pass. A refused burn changes nothing.
pub proof fn a_burn_takes_the_tokens_out<F: Fn(&TokenData, TokenID) -> Result<(), StateError>>(
    s: &mut NFTState,
    bs: &mut Store,
    owner: ActorID,
    ids: &Vec<TokenID>,
    check: F,
    r: Result<u64, StateError>,
)
    requires
        complete(*old(s), old(bs)@),
        call_ensures(NFTState::burn_tokens::<F>, (s, bs, owner, ids, check), r),
    ensures
        r is Err ==> *final(s) == *old(s),
        final(s).next_token == old(s).next_token,
        r is Ok ==> {
            let before = tokens_of(*old(s), old(bs)@);
            let after = tokens_of(*final(s), final(bs)@);
            let old_owners = owners_of(*old(s), old(bs)@);
            let owners = owners_of(*final(s), final(bs)@);
            &&& complete(*final(s), final(bs)@)
            &&& forall|id: TokenID| #[trigger]
                after.contains_key(id) <==> before.contains_key(id) && !ids@.contains(id)
            &&& forall|id: TokenID| #[trigger] after.contains_key(id) ==> after[id] == before[id]
            &&& forall|i: int|
                0 <= i < ids@.len() ==> before.contains_key(#[trigger] ids@[i]) && let_pass(
                    check,
                    before,
                    ids@[i],
                )
            &&& forall|i: int, j: int|
                0 <= i < j < ids@.len() ==> #[trigger] ids@[i] != #[trigger] ids@[j]
            &&& final(s).total_supply == old(s).total_supply - ids@.len()
            &&& r->Ok_0 == counted(owners, owner)
            &&& forall|actor: ActorID| #[trigger]
                counted(owners, actor) == counted(old_owners, actor) - (if actor == owner {
                    ids@.len() as int
                } else {
                    0
                })
            &&& forall|actor: ActorID| #[trigger]
                delegates(owners, actor) == delegates(old_owners, actor)
        },
        lenient(check) && old(s).collection(old(bs)@)->0.regular() && ids@.len() > 0 && (forall|
            i: int,
        |
            0 <= i < ids@.len() ==> tokens_of(*old(s), old(bs)@).contains_key(#[trigger] ids@[i])
                && tokens_of(*old(s), old(bs)@)[ids@[i]].0 == owner) && (forall|i: int, j: int|
            0 <= i < j < ids@.len() ==> #[trigger] ids@[i] != #[trigger] ids@[j]) ==> r is Ok,
{
    let whole = old(s).collection(old(bs)@)->0;
    let before = whole.held.tokens;
    let work = state::burning();
    assert(ids@.take(ids@.len() as int) =~= ids@);
    if r is Ok {
        let now = final(s).collection(final(bs)@)->0;
        lemma_burnt(before, ids@, ids@.len());
        let owners = owners_of(*final(s), final(bs)@);
        assert(now.held.owners == owners);
        assert(now.held.tokens == tokens_of(*final(s), final(bs)@));
        assert(final(s).total_supply == old(s).total_supply - ids@.len());
        keys::keys_differ(owner, owner);
        assert(r->Ok_0 == counted(owners, owner));
        assert forall|actor: ActorID| #[trigger]
            counted(now.held.owners, actor) == counted(whole.held.owners, actor) - (if actor
                == owner {
                ids@.len() as int
            } else {
                0
            }) by {
            keys::keys_differ(actor, owner);
        }
        assert forall|actor: ActorID| #[trigger]
            delegates(now.held.owners, actor) == delegates(whole.held.owners, actor) by {
            keys::keys_differ(actor, owner);
        }
        assert forall|i: int| 0 <= i < ids@.len() implies let_pass(
            check,
            before,
            #[trigger] ids@[i],
        ) by {
            lemma_done_before(before, ids@, i as nat, ids@.len(), work);
            lemma_burnt(before, ids@, i as nat);
            let between = work.done(before, ids@, i as nat)->Ok_0;
            lemma_done_before(before, ids@, (i + 1) as nat, ids@.len(), work);
            assert(between.contains_key(ids@[i]));
            assert(state::lets_pass(check, between, ids@[i]));
            let data = choose|data: TokenData| #[trigger]
                check.ensures((&data, ids@[i]), Ok(())) && data@ == between[ids@[i]];
            assert(data@ == (data.owner, bits::held_bits(data.operators), data.metadata@));
        }
    } else if lenient(check) && whole.regular() && ids@.len() > 0 && (forall|i: int|
        0 <= i < ids@.len() ==> before.contains_key(#[trigger] ids@[i]) && before[ids@[i]].0
            == owner) && (forall|i: int, j: int|
        0 <= i < j < ids@.len() ==> #[trigger] ids@[i] != #[trigger] ids@[j]) {
        laws::burn_law(whole, owner, ids@);
        let e = r->Err_0;
        let n = choose|n: nat| #[trigger]
            state::refused_at(before, ids@, n, work, check, e);
        lemma_burnt(before, ids@, n);
        let between = work.done(before, ids@, n)->Ok_0;
        lemma_done_before(before, ids@, n + 1, ids@.len(), work);
        assert(false);
    }
}

proof fn lemma_all_there(whole: Collection, ids: Seq<TokenID>, n: nat, receiver: ActorID)
    requires
        n <= ids.len(),
        state::handing_on(receiver).done(whole.held, ids, n) is Ok,
    ensures
        state::handing_on(receiver).done(whole.held, ids, n)->Ok_0.tokens.dom()
            == whole.held.tokens.dom(),
        forall|i: int| 0 <= i < n ==> whole.held.tokens.contains_key(#[trigger] ids[i]),
    decreases n,
{
    if n > 0 {
        let m = (n - 1) as nat;
        lemma_all_there(whole, ids, m, receiver);
        let between = state::handing_on(receiver).done(whole.held, ids, m)->Ok_0;
        let after = state::handing_on(receiver).done(whole.held, ids, n)->Ok_0;
        assert(between.tokens.contains_key(ids[m as int]));
        assert(after.tokens.dom() =~= between.tokens.dom());
    }
}

/// A transfer gives exactly the tokens of the list to the receiver: each has the receiver as owner,
/// no operators, and its metadata. All other tokens stay as they are. Every actor's count is then
/// the number of tokens they own, and nobody may act for another account than before. The supply and
/// the next number stay. The check let every token pass. It succeeds where all tokens are there and
/// the check stops none. A refused transfer changes nothing.
pub proof fn a_transfer_gives_the_tokens<F: Fn(&TokenData, TokenID) -> Result<(), StateError>>(
    s: &mut NFTState,
    bs: &mut Store,
    ids: &Vec<TokenID>,
    owner: ActorID,
    receiver: ActorID,
    check: &F,
    r: Result<TransferIntermediate, StateError>,
)
    requires
        complete(*old(s), old(bs)@),
        old(s).collection(old(bs)@)->0.regular(),
        call_ensures(NFTState::transfer::<F>, (s, bs, ids, owner, receiver, check), r),
    ensures
        complete(*final(s), final(bs)@),
        final(s).next_token == old(s).next_token,
        final(s).total_supply == old(s).total_supply,
        r is Err ==> *final(s) == *old(s) && tokens_of(*final(s), final(bs)@) == tokens_of(
            *old(s),
            old(bs)@,
        ),
        r is Ok ==> {
            let before = tokens_of(*old(s), old(bs)@);
            let after = tokens_of(*final(s), final(bs)@);
            let old_owners = owners_of(*old(s), old(bs)@);
            let owners = owners_of(*final(s), final(bs)@);
            &&& r->Ok_0.token_ids@ == ids@
            &&& r->Ok_0.from == owner
            &&& r->Ok_0.to == receiver
            &&& forall|id: TokenID| #[trigger] after.contains_key(id) == before.contains_key(id)
            &&& forall|id: TokenID| #[trigger]
                after.contains_key(id) ==> after[id].2 == before[id].2 && if ids@.contains(id) {
                    after[id].0 == receiver && after[id].1 == Set::<ActorID>::empty()
                } else {
                    after[id] == before[id]
                }
            &&& forall|actor: ActorID| #[trigger]
                counted(owners, actor) == tally(after, actor)
            &&& forall|actor: ActorID| #[trigger]
                delegates(owners, actor) == delegates(old_owners, actor)
            &&& forall|i: int|
                0 <= i < ids@.len() ==> before.contains_key(#[trigger] ids@[i]) && (!ids@.take(
                    i,
                ).contains(ids@[i]) ==> let_pass(*check, before, ids@[i]))
        },
        lenient(*check) && (forall|i: int|
            0 <= i < ids@.len() ==> tokens_of(*old(s), old(bs)@).contains_key(
                #[trigger] ids@[i],
            )) ==> r is Ok,
{
    let whole = old(s).collection(old(bs)@)->0;
    let before = whole.held.tokens;
    let work = state::handing_on(receiver);
    assert(ids@.take(ids@.len() as int) =~= ids@);
    if r is Ok {
        lemma_all_there(whole, ids@, ids@.len(), receiver);
        laws::transfer_law(whole, ids@, ids@.len(), receiver);
        let now = work.done(whole.held, ids@, ids@.len())->Ok_0;
        assert forall|actor: ActorID| #[trigger] counted(now.owners, actor) == tally(
            now.tokens,
            actor,
        ) by {
            laws::lemma_right(now, actor);
            assert(collection::owned_by(now.tokens, actor) =~= now.tokens.dom().filter(
                |id: TokenID| now.tokens[id].0 == actor,
            ));
        }
        assert forall|actor: ActorID| #[trigger]
            delegates(now.owners, actor) == delegates(whole.held.owners, actor) by {
            assert(collection::owner_info(now.owners, keys::key_of(actor)).1
                == collection::owner_info(whole.held.owners, keys::key_of(actor)).1);
        }
        assert forall|id: TokenID| #[trigger] now.tokens.contains_key(id) == before.contains_key(
            id,
        ) by {
            assert(now.tokens.dom().contains(id) == before.dom().contains(id));
        }
        assert forall|i: int| 0 <= i < ids@.len() && !ids@.take(i).contains(
            #[trigger] ids@[i],
        ) implies let_pass(*check, before, ids@[i]) by {
            laws::transfer_law(whole, ids@, i as nat, receiver);
            let between = work.done(whole.held, ids@, i as nat)->Ok_0;
            assert(before.contains_key(ids@[i]));
            assert((work.tokens)(between) == between.tokens);
            assert(state::lets_pass(*check, (work.tokens)(between), ids@[i]));
            let data = choose|data: TokenData| #[trigger]
                check.ensures((&data, ids@[i]), Ok(())) && data@ == between.tokens[ids@[i]];
            assert(data@ == (data.owner, bits::held_bits(data.operators), data.metadata@));
        }
    } else if lenient(*check) && (forall|i: int|
        0 <= i < ids@.len() ==> before.contains_key(#[trigger] ids@[i])) {
        let e = r->Err_0;
        let n = choose|n: nat| #[trigger]
            state::refused_at(whole.held, ids@, n, work, *check, e);
        laws::transfer_law(whole, ids@, n, receiver);
        laws::transfer_law(whole, ids@, n + 1, receiver);
        let between = work.done(whole.held, ids@, n)->Ok_0;
        assert((work.tokens)(between) == between.tokens);
        assert(between.tokens.dom().contains(ids@[n as int]));
        assert(before.contains_key(ids@[n as int]));
        assert(false);
    }
}

} // verus!
