//! What the operations on a collection that checks rights are for, said of what goes in and what
//! comes out.
use vstd::prelude::*;

use crate::address::{Address, AddressView};
use crate::bits;
use crate::bytes::{ActorID, Cid, RawBytes};
use crate::frc53_nft::checks;
use crate::frc53_nft::collection;
use crate::frc53_nft::collection::{Collection, Holdings};
use crate::frc53_nft::invariants;
use crate::frc53_nft::invariants::{StateInvariantError, StateSummary};
use crate::frc53_nft::laws as nft_laws;
use crate::frc53_nft::promises as nft_promises;
use crate::frc53_nft::promises::{authorised, counted, delegates, deprived, tally};
use crate::frc53_nft::receiver;
use crate::frc53_nft::state as nft_state;
use crate::frc53_nft::state::HAMT_BIT_WIDTH;
use crate::frc53_nft::types::{MintReturn, TransferReturn};
use crate::frcxx_nft::batch;
use crate::frcxx_nft::batch::{Action, Authority};
use crate::frcxx_nft::batches;
use crate::frcxx_nft::batches::{all_there, distinct, given, may_move, taken_out};
use crate::frcxx_nft::receiver::{FRCXXReceiverHook, FRCXXTokenReceived, FRCXX_TOKEN_TYPE};
use crate::frcxx_nft::state;
use crate::frcxx_nft::state::{MintIntermediate, NFTState, StateError, TransferIntermediate};
use crate::frcxx_nft::types::{TransferFromIntermediate, TransferFromReturn};
use crate::fvm_actor_utils::receiver::{ReceiverHook, ReceiverHookError, RecipientData};
use crate::keys;
use crate::nft_store;
use crate::nft_store::{TokenData, TokenID};
use crate::store::{Blocks, Store};

verus! {

/// The tokens and owners that a state has in some blocks.
pub open spec fn held_by(state: NFTState, blocks: Blocks) -> Holdings {
    Holdings {
        tokens: nft_store::tokens_at(blocks, state.token_data@)->0,
        owners: nft_store::owners_at(blocks, state.owner_data@, HAMT_BIT_WIDTH)->0,
    }
}

/// Whether both trees of a state are complete in some blocks.
pub open spec fn complete(state: NFTState, blocks: Blocks) -> bool {
    &&& nft_store::tokens_at(blocks, state.token_data@) is Some
    &&& nft_store::owners_at(blocks, state.owner_data@, HAMT_BIT_WIDTH) is Some
}

/// Whether a state keeps all rules.
pub open spec fn regular(state: NFTState, blocks: Blocks) -> bool {
    (Collection {
        held: held_by(state, blocks),
        next: state.next_token,
        supply: state.total_supply,
    }).regular()
}

/// Whether two states count the same.
pub open spec fn counts_same(before: NFTState, after: NFTState) -> bool {
    after.next_token == before.next_token && after.total_supply == before.total_supply
}

/// An approval by the owner gives each token of the list the operator beside those that it had. Owners,
/// metadata, accounts and all other tokens are as they were. All tokens were the caller's. A refused
/// approval changes nothing, and the owner of the tokens is not refused.
pub proof fn an_approval_adds_the_operator(
    s: &mut NFTState,
    bs: &mut Store,
    caller: ActorID,
    operator: ActorID,
    ids: &Vec<TokenID>,
    r: Result<(), StateError>,
)
    requires
        complete(*old(s), old(bs)@),
        call_ensures(NFTState::approve_for_tokens, (s, bs, caller, operator, ids), r),
    ensures
        complete(*final(s), final(bs)@),
        counts_same(*old(s), *final(s)),
        held_by(*final(s), final(bs)@).owners == held_by(*old(s), old(bs)@).owners,
        r is Ok ==> authorised(
            held_by(*old(s), old(bs)@).tokens,
            held_by(*final(s), final(bs)@).tokens,
            ids@,
            operator,
        ),
        r is Ok ==> forall|i: int|
            0 <= i < ids@.len() ==> held_by(*old(s), old(bs)@).tokens.contains_key(
                #[trigger] ids@[i],
            ) && held_by(*old(s), old(bs)@).tokens[ids@[i]].0 == caller,
        r is Err ==> held_by(*final(s), final(bs)@) == held_by(*old(s), old(bs)@),
        regular(*old(s), old(bs)@) && operator < u64::MAX && (forall|i: int|
            0 <= i < ids@.len() ==> held_by(*old(s), old(bs)@).tokens.contains_key(
                #[trigger] ids@[i],
            ) && held_by(*old(s), old(bs)@).tokens[ids@[i]].0 == caller && nft_store::few(
                held_by(*old(s), old(bs)@).tokens[ids@[i]].1.insert(operator),
            )) ==> r is Ok,
{
    let held = held_by(*old(s), old(bs)@);
    let whole = old(s).collection(old(bs)@)->0;
    let authority = Authority::Owner(caller);
    assert(whole.held == held);
    assert(ids@.take(ids@.len() as int) =~= ids@);
    assert(nft_store::tokens_at(old(bs)@, old(s).token_data@) is Some);
    assert(nft_store::owners_at(old(bs)@, old(s).owner_data@, HAMT_BIT_WIDTH) is Some);
    if r is Ok {
        batches::a_batch_of_approvals(held, ids@, ids@.len(), authority, operator);
        assert(final(s).collection(final(bs)@)->0.held == held_by(*final(s), final(bs)@));
        assert forall|i: int| 0 <= i < ids@.len() implies held.tokens.contains_key(
            #[trigger] ids@[i],
        ) && held.tokens[ids@[i]].0 == caller by {
            assert(batches::entitled(authority, held, ids@[i]));
        }
    } else if regular(*old(s), old(bs)@) && operator < u64::MAX && (forall|i: int|
        0 <= i < ids@.len() ==> held.tokens.contains_key(#[trigger] ids@[i])
            && held.tokens[ids@[i]].0 == caller && nft_store::few(
            held.tokens[ids@[i]].1.insert(operator),
        )) {
        assert(batches::all_entitled(authority, held, ids@));
        batches::the_entitled_change_operators(whole, ids@, ids@.len(), authority, operator);
        assert(false);
    }
}

/// After a revocation by the owner, no token of the list has the operator, and each has all its other
/// operators. Owners, metadata, accounts and all other tokens are as they were. All tokens were the
/// caller's. A refused revocation changes nothing, and the owner of the tokens is not refused.
pub proof fn a_revocation_takes_the_operator_off(
    s: &mut NFTState,
    bs: &mut Store,
    caller: ActorID,
    operator: ActorID,
    ids: &Vec<TokenID>,
    r: Result<(), StateError>,
)
    requires
        complete(*old(s), old(bs)@),
        call_ensures(NFTState::revoke_for_tokens, (s, bs, caller, operator, ids), r),
    ensures
        complete(*final(s), final(bs)@),
        counts_same(*old(s), *final(s)),
        held_by(*final(s), final(bs)@).owners == held_by(*old(s), old(bs)@).owners,
        r is Ok ==> deprived(
            held_by(*old(s), old(bs)@).tokens,
            held_by(*final(s), final(bs)@).tokens,
            ids@,
            operator,
        ),
        r is Ok ==> forall|i: int|
            0 <= i < ids@.len() ==> held_by(*old(s), old(bs)@).tokens.contains_key(
                #[trigger] ids@[i],
            ) && held_by(*old(s), old(bs)@).tokens[ids@[i]].0 == caller,
        r is Err ==> held_by(*final(s), final(bs)@) == held_by(*old(s), old(bs)@),
        regular(*old(s), old(bs)@) && operator < u64::MAX && (forall|i: int|
            0 <= i < ids@.len() ==> held_by(*old(s), old(bs)@).tokens.contains_key(
                #[trigger] ids@[i],
            ) && held_by(*old(s), old(bs)@).tokens[ids@[i]].0 == caller && nft_store::few(
                held_by(*old(s), old(bs)@).tokens[ids@[i]].1.insert(operator),
            )) ==> r is Ok,
{
    let held = held_by(*old(s), old(bs)@);
    let whole = old(s).collection(old(bs)@)->0;
    let authority = Authority::Owner(caller);
    assert(whole.held == held);
    assert(ids@.take(ids@.len() as int) =~= ids@);
    assert(nft_store::tokens_at(old(bs)@, old(s).token_data@) is Some);
    assert(nft_store::owners_at(old(bs)@, old(s).owner_data@, HAMT_BIT_WIDTH) is Some);
    if r is Ok {
        batches::a_batch_of_revocations(held, ids@, ids@.len(), authority, operator);
        assert(final(s).collection(final(bs)@)->0.held == held_by(*final(s), final(bs)@));
        assert forall|i: int| 0 <= i < ids@.len() implies held.tokens.contains_key(
            #[trigger] ids@[i],
        ) && held.tokens[ids@[i]].0 == caller by {
            assert(batches::entitled(authority, held, ids@[i]));
        }
    } else if regular(*old(s), old(bs)@) && operator < u64::MAX && (forall|i: int|
        0 <= i < ids@.len() ==> held.tokens.contains_key(#[trigger] ids@[i])
            && held.tokens[ids@[i]].0 == caller && nft_store::few(
            held.tokens[ids@[i]].1.insert(operator),
        )) {
        assert(batches::all_entitled(authority, held, ids@));
        batches::the_entitled_change_operators(whole, ids@, ids@.len(), authority, operator);
        assert(false);
    }
}

/// Whether an operator may move a token is whether the token has it among its operators, or it acts for
/// the account that owns the token.
pub proof fn an_approval_is_read_back(
    s: NFTState,
    bs: Store,
    operator: ActorID,
    id: TokenID,
    r: Result<bool, StateError>,
)
    requires
        complete(s, bs@),
        regular(s, bs@),
        call_ensures(NFTState::approved_for_token, (&s, &bs, operator, id), r),
    ensures
        r is Ok == held_by(s, bs@).tokens.contains_key(id),
        r is Ok ==> r->Ok_0 == (held_by(s, bs@).tokens[id].1.contains(operator) || delegates(
            held_by(s, bs@).owners,
            held_by(s, bs@).tokens[id].0,
        ).contains(operator)),
{
    let held = held_by(s, bs@);
    assert(s.collection(bs@)->0.held == held);
    if held.tokens.contains_key(id) {
        assert(held.owners.contains_key(keys::key_of(held.tokens[id].0)));
    }
}

/// An operator whose approval for some tokens was taken back is not approved for any of them, unless it
/// acts for the account that owns the token.
pub proof fn a_revoked_operator_is_not_approved(
    s: &mut NFTState,
    bs: &mut Store,
    caller: ActorID,
    operator: ActorID,
    ids: &Vec<TokenID>,
    r: Result<(), StateError>,
    i: int,
    read: Result<bool, StateError>,
)
    requires
        complete(*old(s), old(bs)@),
        regular(*old(s), old(bs)@),
        call_ensures(NFTState::revoke_for_tokens, (s, bs, caller, operator, ids), r),
        r is Ok,
        0 <= i < ids@.len(),
        !delegates(held_by(*old(s), old(bs)@).owners, caller).contains(operator),
        call_ensures(NFTState::approved_for_token, (&*final(s), &*final(bs), operator, ids@[i]), read),
    ensures
        read == Ok::<bool, StateError>(false),
{
    let held = held_by(*old(s), old(bs)@);
    let after = held_by(*final(s), final(bs)@);
    let id = ids@[i];
    a_revocation_takes_the_operator_off(s, bs, caller, operator, ids, r);
    assert(final(s).collection(final(bs)@)->0.held == after);
    assert(held.tokens.contains_key(id));
    assert(held.owners.contains_key(keys::key_of(caller)));
    assert(after.tokens.contains_key(id));
    assert(after.tokens[id].0 == caller);
    assert(ids@.contains(id));
    assert(!after.tokens[id].1.contains(operator));
}

/// After an approval for an account, the account has exactly the delegates that it had and the new one.
/// Counts, other accounts and all tokens are as they were.
pub proof fn an_account_approval_adds_the_delegate(
    s: &mut NFTState,
    bs: &mut Store,
    owner: ActorID,
    operator: ActorID,
    r: Result<(), StateError>,
)
    requires
        complete(*old(s), old(bs)@),
        call_ensures(NFTState::approve_for_owner, (s, bs, owner, operator), r),
    ensures
        complete(*final(s), final(bs)@),
        counts_same(*old(s), *final(s)),
        held_by(*final(s), final(bs)@).tokens == held_by(*old(s), old(bs)@).tokens,
        forall|actor: ActorID| #[trigger]
            counted(held_by(*final(s), final(bs)@).owners, actor) == counted(
                held_by(*old(s), old(bs)@).owners,
                actor,
            ),
        forall|actor: ActorID, x: ActorID| #[trigger]
            delegates(held_by(*final(s), final(bs)@).owners, actor).contains(x) <==> delegates(
                held_by(*old(s), old(bs)@).owners,
                actor,
            ).contains(x) || (r is Ok && actor == owner && x == operator),
        operator < u64::MAX && nft_store::few(
            delegates(held_by(*old(s), old(bs)@).owners, owner).insert(operator),
        ) ==> r is Ok,
        r is Err ==> held_by(*final(s), final(bs)@) == held_by(*old(s), old(bs)@),
{
    let before = held_by(*old(s), old(bs)@).owners;
    let after = held_by(*final(s), final(bs)@).owners;
    let had = delegates(before, owner);
    assert(old(s).collection(old(bs)@)->0.held.owners == before);
    assert(nft_store::tokens_at(old(bs)@, old(s).token_data@) is Some);
    assert(nft_store::owners_at(old(bs)@, old(s).owner_data@, HAMT_BIT_WIDTH) is Some);
    if nft_store::few(had) {
        vstd::set_lib::lemma_len_subset(had.remove(operator), had);
    }
    if r is Ok {
        assert(final(s).collection(final(bs)@)->0.held.owners == after);
    }
    assert forall|actor: ActorID| #[trigger] counted(after, actor) == counted(before, actor) by {
        keys::keys_differ(actor, owner);
    }
    assert forall|actor: ActorID, x: ActorID| #[trigger]
        delegates(after, actor).contains(x) <==> delegates(before, actor).contains(x) || (r is Ok
            && actor == owner && x == operator) by {
        keys::keys_differ(actor, owner);
        if actor == owner && before.contains_key(keys::key_of(owner)) {
            assert(had.remove(operator).contains(x) == (had.contains(x) && x != operator));
        }
    }
}

/// After a revocation for an account, the account has exactly the delegates that it had but for the one.
/// Counts, other accounts and all tokens are as they were.
pub proof fn an_account_revocation_takes_the_delegate_off(
    s: &mut NFTState,
    bs: &mut Store,
    owner: ActorID,
    operator: ActorID,
    r: Result<(), StateError>,
)
    requires
        complete(*old(s), old(bs)@),
        call_ensures(NFTState::revoke_for_all, (s, bs, owner, operator), r),
    ensures
        complete(*final(s), final(bs)@),
        counts_same(*old(s), *final(s)),
        held_by(*final(s), final(bs)@).tokens == held_by(*old(s), old(bs)@).tokens,
        forall|actor: ActorID| #[trigger]
            counted(held_by(*final(s), final(bs)@).owners, actor) == counted(
                held_by(*old(s), old(bs)@).owners,
                actor,
            ),
        forall|actor: ActorID, x: ActorID| #[trigger]
            delegates(held_by(*final(s), final(bs)@).owners, actor).contains(x) <==> delegates(
                held_by(*old(s), old(bs)@).owners,
                actor,
            ).contains(x) && !(r is Ok && actor == owner && x == operator),
        nft_store::few(delegates(held_by(*old(s), old(bs)@).owners, owner)) ==> r is Ok,
        r is Err ==> held_by(*final(s), final(bs)@) == held_by(*old(s), old(bs)@),
{
    let before = held_by(*old(s), old(bs)@).owners;
    let after = held_by(*final(s), final(bs)@).owners;
    let had = delegates(before, owner);
    assert(old(s).collection(old(bs)@)->0.held.owners == before);
    assert(nft_store::tokens_at(old(bs)@, old(s).token_data@) is Some);
    assert(nft_store::owners_at(old(bs)@, old(s).owner_data@, HAMT_BIT_WIDTH) is Some);
    if nft_store::few(had) {
        vstd::set_lib::lemma_len_subset(had.remove(operator), had);
    }
    if r is Ok {
        assert(final(s).collection(final(bs)@)->0.held.owners == after);
    }
    assert forall|actor: ActorID| #[trigger] counted(after, actor) == counted(before, actor) by {
        keys::keys_differ(actor, owner);
    }
    assert forall|actor: ActorID, x: ActorID| #[trigger]
        delegates(after, actor).contains(x) <==> delegates(before, actor).contains(x) && !(r is Ok
            && actor == owner && x == operator) by {
        keys::keys_differ(actor, owner);
        if actor == owner && before.contains_key(keys::key_of(owner)) {
            assert(had.remove(operator).contains(x) == (had.contains(x) && x != operator));
        }
    }
}

/// A burn by the owner takes exactly the tokens of the list out, each of which was there, named once and
/// the caller's. The caller's count, which is returned, and the supply shrink by their number. All else
/// stays as it was. A refused burn changes nothing, and the owner of the tokens is not refused.
pub proof fn a_burn_takes_the_tokens_out(
    s: &mut NFTState,
    bs: &mut Store,
    caller: ActorID,
    ids: &Vec<TokenID>,
    r: Result<u64, StateError>,
)
    requires
        complete(*old(s), old(bs)@),
        regular(*old(s), old(bs)@),
        call_ensures(NFTState::burn_tokens, (s, bs, caller, ids), r),
    ensures
        complete(*final(s), final(bs)@),
        r is Err ==> *final(s) == *old(s),
        r is Ok ==> taken_out(held_by(*old(s), old(bs)@), held_by(*final(s), final(bs)@), ids@),
        r is Ok ==> forall|i: int|
            0 <= i < ids@.len() ==> held_by(*old(s), old(bs)@).tokens[#[trigger] ids@[i]].0 == caller,
        r is Ok ==> r->Ok_0 == tally(held_by(*final(s), final(bs)@).tokens, caller),
        r is Ok ==> r->Ok_0 == tally(held_by(*old(s), old(bs)@).tokens, caller) - ids@.len(),
        r is Ok ==> final(s).total_supply == old(s).total_supply - ids@.len(),
        final(s).next_token == old(s).next_token,
        ids@.len() > 0 && distinct(ids@) && all_there(held_by(*old(s), old(bs)@), ids@) && (forall|
            i: int,
        |
            0 <= i < ids@.len() ==> held_by(*old(s), old(bs)@).tokens[#[trigger] ids@[i]].0
                == caller) ==> r is Ok,
{
    let held = held_by(*old(s), old(bs)@);
    let whole = old(s).collection(old(bs)@)->0;
    let authority = Authority::Owner(caller);
    assert(whole.held == held);
    assert(ids@.take(ids@.len() as int) =~= ids@);
    assert(nft_store::tokens_at(old(bs)@, old(s).token_data@) is Some);
    assert(nft_store::owners_at(old(bs)@, old(s).owner_data@, HAMT_BIT_WIDTH) is Some);
    if r is Ok {
        let after = held_by(*final(s), final(bs)@);
        assert(final(s).collection(final(bs)@)->0.held == after);
        lemma_burned(whole, caller, ids@, authority);
        batches::counts_are_right(held, caller);
        assert forall|i: int| 0 <= i < ids@.len() implies held.tokens[#[trigger] ids@[i]].0
            == caller by {
            assert(batches::entitled(authority, held, ids@[i]));
        }
    } else if ids@.len() > 0 && distinct(ids@) && all_there(held, ids@) && (forall|i: int|
        0 <= i < ids@.len() ==> held.tokens[#[trigger] ids@[i]].0 == caller) {
        assert(batches::all_entitled(authority, held, ids@));
        batches::the_entitled_remove(whole, ids@, ids@.len(), authority);
        batches::a_batch_of_removals(held, ids@, ids@.len(), authority);
        nft_laws::burn_law(whole, caller, ids@);
        assert(false);
    }
}

/// What burning tokens of one owner leaves, where all of them are the owner's.
pub(crate) proof fn lemma_burned(
    whole: Collection,
    owner: ActorID,
    ids: Seq<TokenID>,
    authority: Authority,
)
    requires
        whole.regular(),
        state::burned(whole, owner, ids, authority) is Ok,
        authority == Authority::Owner(owner) || forall|i: int|
            0 <= i < ids.len() ==> whole.held.tokens[#[trigger] ids[i]].0 == owner,
    ensures
        ({
            let after = state::burned(whole, owner, ids, authority)->Ok_0;
            &&& taken_out(whole.held, after.held, ids)
            &&& batches::all_entitled(authority, whole.held, ids)
            &&& counted(after.held.owners, owner) == counted(whole.held.owners, owner) - ids.len()
            &&& counted(after.held.owners, owner) == tally(after.held.tokens, owner)
            &&& whole.held.owners.contains_key(keys::key_of(owner))
        }),
{
    let held = whole.held;
    let after = state::burned(whole, owner, ids, authority)->Ok_0;
    assert(ids.take(ids.len() as int) =~= ids);
    batches::a_batch_of_removals(held, ids, ids.len(), authority);
    nft_promises::lemma_burnt(held.tokens, ids, ids.len());
    assert(nft_state::burning().done(held.tokens, ids, ids.len())->Ok_0 == after.held.tokens);
    assert forall|i: int| 0 <= i < ids.len() implies held.tokens.contains_key(#[trigger] ids[i])
        && held.tokens[ids[i]].0 == owner by {
        assert(batches::entitled(authority, held, ids[i]));
    }
    nft_laws::burn_law(whole, owner, ids);
    keys::keys_differ(owner, owner);
    batches::counts_are_right(after.held, owner);
    assert forall|actor: ActorID| #[trigger]
        counted(after.held.owners, actor) == tally(after.held.tokens, actor) by {
        batches::counts_are_right(after.held, actor);
    }
    assert forall|actor: ActorID| #[trigger]
        delegates(after.held.owners, actor) == delegates(held.owners, actor) by {
        assert(collection::owner_info(after.held.owners, keys::key_of(actor)).1
            == collection::owner_info(held.owners, keys::key_of(actor)).1);
    }
}

/// A burn by an operator takes exactly the tokens of the list out, each of which was there, named once
/// and open to the operator. The supply shrinks by their number, and each owner's count is the number of
/// tokens left to them. A refused burn changes nothing, and who may move the tokens is not refused.
pub proof fn an_operator_burn_takes_the_tokens_out(
    s: &mut NFTState,
    bs: &mut Store,
    caller: ActorID,
    ids: &Vec<TokenID>,
    r: Result<(), StateError>,
)
    requires
        complete(*old(s), old(bs)@),
        regular(*old(s), old(bs)@),
        call_ensures(NFTState::operator_burn_tokens, (s, bs, caller, ids), r),
    ensures
        complete(*final(s), final(bs)@),
        r is Err ==> *final(s) == *old(s),
        r is Ok ==> taken_out(held_by(*old(s), old(bs)@), held_by(*final(s), final(bs)@), ids@),
        r is Ok ==> forall|i: int|
            0 <= i < ids@.len() ==> may_move(
                held_by(*old(s), old(bs)@),
                #[trigger] ids@[i],
                caller,
            ),
        r is Ok ==> final(s).total_supply == old(s).total_supply - ids@.len(),
        final(s).next_token == old(s).next_token,
        distinct(ids@) && all_there(held_by(*old(s), old(bs)@), ids@) && (forall|i: int|
            0 <= i < ids@.len() ==> may_move(
                held_by(*old(s), old(bs)@),
                #[trigger] ids@[i],
                caller,
            )) ==> r is Ok,
{
    let held = held_by(*old(s), old(bs)@);
    let whole = old(s).collection(old(bs)@)->0;
    let authority = Authority::Operator(caller);
    assert(whole.held == held);
    assert(ids@.take(ids@.len() as int) =~= ids@);
    assert(nft_store::tokens_at(old(bs)@, old(s).token_data@) is Some);
    assert(nft_store::owners_at(old(bs)@, old(s).owner_data@, HAMT_BIT_WIDTH) is Some);
    if r is Ok {
        assert(final(s).collection(final(bs)@)->0.held == held_by(*final(s), final(bs)@));
        batches::a_batch_of_burns(whole, ids@, ids@.len(), caller);
        assert forall|i: int| 0 <= i < ids@.len() implies may_move(
            held,
            #[trigger] ids@[i],
            caller,
        ) by {
            assert(batches::entitled(authority, held, ids@[i]));
        }
    } else if distinct(ids@) && all_there(held, ids@) && (forall|i: int|
        0 <= i < ids@.len() ==> may_move(held, #[trigger] ids@[i], caller)) {
        assert(batches::all_entitled(authority, held, ids@));
        batches::the_entitled_burn(whole, ids@, ids@.len(), caller);
        assert(false);
    }
}

/// A transfer by the owner gives exactly the tokens of the list to the receiver, without operators. All else
/// stays as it was. The tokens were the caller's, or the transfer is refused. The receiver is told of the
/// tokens, of the caller, and of the data of operator and token, each in its place.
pub proof fn a_transfer_gives_the_tokens(
    s: &mut NFTState,
    bs: &mut Store,
    caller: ActorID,
    to: ActorID,
    ids: &Vec<TokenID>,
    operator_data: RawBytes,
    token_data: RawBytes,
    r: Result<ReceiverHook<TransferIntermediate>, StateError>,
)
    requires
        complete(*old(s), old(bs)@),
        regular(*old(s), old(bs)@),
        call_ensures(
            NFTState::transfer_tokens,
            (s, bs, caller, to, ids, operator_data, token_data),
            r,
        ),
    ensures
        complete(*final(s), final(bs)@),
        counts_same(*old(s), *final(s)),
        r is Err ==> held_by(*final(s), final(bs)@) == held_by(*old(s), old(bs)@),
        r is Ok ==> given(held_by(*old(s), old(bs)@), held_by(*final(s), final(bs)@), ids@, to),
        r is Ok ==> all_there(held_by(*old(s), old(bs)@), ids@),
        r is Ok && distinct(ids@) ==> forall|i: int|
            0 <= i < ids@.len() ==> held_by(*old(s), old(bs)@).tokens[#[trigger] ids@[i]].0 == caller,
        distinct(ids@) && all_there(held_by(*old(s), old(bs)@), ids@) && (forall|i: int|
            0 <= i < ids@.len() ==> held_by(*old(s), old(bs)@).tokens[#[trigger] ids@[i]].0 == caller) ==> r is Ok,
        ids@.len() > 0 && held_by(*old(s), old(bs)@).tokens.contains_key(ids@[0]) && !(held_by(*old(s), old(bs)@).tokens[ids@[0]].0 == caller)
            ==> r is Err && r->Err_0 is NotOwner && r->Err_0->NotOwner_actor == caller,
        r is Ok ==> {
            let hook = r->Ok_0;
            &&& hook.address@ == AddressView::ID(to)
            &&& hook.token_type == FRCXX_TOKEN_TYPE
            &&& hook.token_params@ == receiver::tokens_received_cbor(
                to,
                caller,
                ids@,
                operator_data@,
                token_data@,
            )
            &&& !hook.called
            &&& hook.result_data is Some
            &&& hook.result_data->0.token_ids@ == ids@
            &&& hook.result_data->0.to == to
            &&& hook.result_data->0.from == caller
        },
{
    let held = held_by(*old(s), old(bs)@);
    let whole = old(s).collection(old(bs)@)->0;
    let authority = Authority::Owner(caller);
    assert(whole.held == held);
    assert(ids@.take(ids@.len() as int) =~= ids@);
    assert(nft_store::tokens_at(old(bs)@, old(s).token_data@) is Some);
    assert(nft_store::owners_at(old(bs)@, old(s).owner_data@, HAMT_BIT_WIDTH) is Some);
    if ids@.len() > 0 && held.tokens.contains_key(ids@[0]) && !batches::entitled(
        authority,
        held,
        ids@[0],
    ) {
        batches::a_check_is_right(authority, held, ids@[0]);
        reveal_with_fuel(collection::in_turn, 2);
        batch::lemma_batch_refused(held, ids@, 1, ids@.len(), authority, Action::HandOn(to));
    }
    if r is Ok {
        assert(final(s).collection(final(bs)@)->0.held == held_by(*final(s), final(bs)@));
        batches::a_batch_of_transfers(whole, ids@, ids@.len(), authority, to);
        if distinct(ids@) {
            assert forall|i: int| 0 <= i < ids@.len() implies held.tokens[#[trigger] ids@[i]].0 == caller by {
                assert(batches::entitled(authority, held, ids@[i]));
            }
        }
    } else if distinct(ids@) && all_there(held, ids@) && (forall|i: int|
        0 <= i < ids@.len() ==> held.tokens[#[trigger] ids@[i]].0 == caller) {
        assert(batches::all_entitled(authority, held, ids@));
        batches::the_entitled_transfer(whole, ids@, ids@.len(), authority, to);
        assert(false);
    }
}

/// A transfer by an operator gives exactly the tokens of the list to the receiver, without operators. All
/// else stays as it was. The operator may move the tokens, or the transfer is refused. The receiver is
/// told of the tokens, of the operator, and of the data of operator and token, each in its place.
pub proof fn an_operator_transfer_gives_the_tokens(
    s: &mut NFTState,
    bs: &mut Store,
    caller: ActorID,
    to: ActorID,
    ids: &Vec<TokenID>,
    operator_data: RawBytes,
    token_data: RawBytes,
    r: Result<ReceiverHook<TransferFromIntermediate>, StateError>,
)
    requires
        complete(*old(s), old(bs)@),
        regular(*old(s), old(bs)@),
        call_ensures(
            NFTState::operator_transfer_tokens,
            (s, bs, caller, to, ids, operator_data, token_data),
            r,
        ),
    ensures
        complete(*final(s), final(bs)@),
        counts_same(*old(s), *final(s)),
        r is Err ==> held_by(*final(s), final(bs)@) == held_by(*old(s), old(bs)@),
        r is Ok ==> given(held_by(*old(s), old(bs)@), held_by(*final(s), final(bs)@), ids@, to),
        r is Ok ==> all_there(held_by(*old(s), old(bs)@), ids@),
        r is Ok && distinct(ids@) ==> forall|i: int|
            0 <= i < ids@.len() ==> may_move(held_by(*old(s), old(bs)@), #[trigger] ids@[i], caller),
        distinct(ids@) && all_there(held_by(*old(s), old(bs)@), ids@) && (forall|i: int|
            0 <= i < ids@.len() ==> may_move(held_by(*old(s), old(bs)@), #[trigger] ids@[i], caller)) ==> r is Ok,
        ids@.len() > 0 && held_by(*old(s), old(bs)@).tokens.contains_key(ids@[0]) && !(may_move(held_by(*old(s), old(bs)@), ids@[0], caller))
            ==> r is Err && r->Err_0 is NotAuthorized && r->Err_0->NotAuthorized_actor == caller,
        r is Ok ==> {
            let hook = r->Ok_0;
            &&& hook.address@ == AddressView::ID(to)
            &&& hook.token_type == FRCXX_TOKEN_TYPE
            &&& hook.token_params@ == receiver::tokens_received_cbor(
                to,
                caller,
                ids@,
                operator_data@,
                token_data@,
            )
            &&& !hook.called
            &&& hook.result_data is Some
            &&& hook.result_data->0.token_ids@ == ids@
            &&& hook.result_data->0.to == to
        },
{
    let held = held_by(*old(s), old(bs)@);
    let whole = old(s).collection(old(bs)@)->0;
    let authority = Authority::Operator(caller);
    assert(whole.held == held);
    assert(ids@.take(ids@.len() as int) =~= ids@);
    assert(nft_store::tokens_at(old(bs)@, old(s).token_data@) is Some);
    assert(nft_store::owners_at(old(bs)@, old(s).owner_data@, HAMT_BIT_WIDTH) is Some);
    if ids@.len() > 0 && held.tokens.contains_key(ids@[0]) && !batches::entitled(
        authority,
        held,
        ids@[0],
    ) {
        batches::a_check_is_right(authority, held, ids@[0]);
        reveal_with_fuel(collection::in_turn, 2);
        batch::lemma_batch_refused(held, ids@, 1, ids@.len(), authority, Action::HandOn(to));
    }
    if r is Ok {
        assert(final(s).collection(final(bs)@)->0.held == held_by(*final(s), final(bs)@));
        batches::a_batch_of_transfers(whole, ids@, ids@.len(), authority, to);
        if distinct(ids@) {
            assert forall|i: int| 0 <= i < ids@.len() implies may_move(held, #[trigger] ids@[i], caller) by {
                assert(batches::entitled(authority, held, ids@[i]));
            }
        }
    } else if distinct(ids@) && all_there(held, ids@) && (forall|i: int|
        0 <= i < ids@.len() ==> may_move(held, #[trigger] ids@[i], caller)) {
        assert(batches::all_entitled(authority, held, ids@));
        batches::the_entitled_transfer(whole, ids@, ids@.len(), authority, to);
        assert(false);
    }
}

/// Minting gives the new tokens the numbers from the next one on, in the order of their metadata, each
/// with the owner and no operators. Everything else stays as it was. The owner is told of the tokens, of
/// the caller, and of the data of operator and token, each in its place.
pub proof fn a_mint_makes_the_tokens(
    s: &mut NFTState,
    bs: &mut Store,
    caller: ActorID,
    owner: ActorID,
    metadatas: Vec<String>,
    operator_data: RawBytes,
    token_data: RawBytes,
    r: Result<ReceiverHook<MintIntermediate>, StateError>,
)
    requires
        complete(*old(s), old(bs)@),
        regular(*old(s), old(bs)@),
        old(s).next_token + metadatas@.len() <= u64::MAX,
        old(s).total_supply + metadatas@.len() <= u64::MAX,
        call_ensures(
            NFTState::mint_tokens,
            (s, bs, caller, owner, metadatas, operator_data, token_data),
            r,
        ),
    ensures
        r is Ok,
        complete(*final(s), final(bs)@),
        final(s).next_token == old(s).next_token + metadatas@.len(),
        final(s).total_supply == old(s).total_supply + metadatas@.len(),
        made(
            held_by(*old(s), old(bs)@),
            held_by(*final(s), final(bs)@),
            old(s).next_token,
            owner,
            metadatas@,
        ),
        ({
            let hook = r->Ok_0;
            &&& hook.address@ == AddressView::ID(owner)
            &&& hook.token_type == FRCXX_TOKEN_TYPE
            &&& hook.token_params@ == receiver::tokens_received_cbor(
                owner,
                caller,
                hook.result_data->0.token_ids@,
                operator_data@,
                token_data@,
            )
            &&& !hook.called
            &&& hook.result_data is Some
            &&& hook.result_data->0.to == owner
            &&& hook.result_data->0.token_ids@.len() == metadatas@.len()
            &&& forall|i: int|
                0 <= i < metadatas@.len() ==> #[trigger] hook.result_data->0.token_ids@[i]
                    == old(s).next_token + i
        }),
{
    let whole = old(s).collection(old(bs)@)->0;
    lemma_made(whole, owner, metadatas@);
    assert(final(s).collection(final(bs)@)->0.held == held_by(*final(s), final(bs)@));
}

/// Whether a token is new, with this owner and metadata and without operators.
pub open spec fn fresh(
    before: Holdings,
    after: Holdings,
    id: TokenID,
    owner: ActorID,
    metadata: Seq<char>,
) -> bool {
    &&& !before.tokens.contains_key(id)
    &&& after.tokens.contains_key(id)
    &&& after.tokens[id].0 == owner
    &&& after.tokens[id].1 == Set::<ActorID>::empty()
    &&& after.tokens[id].2 == metadata
}

/// Whether there are new tokens from a number on, one for each metadata in their order, each with the
/// owner and without operators, and everything else is as it was.
pub open spec fn made(
    before: Holdings,
    after: Holdings,
    first: TokenID,
    owner: ActorID,
    metadatas: Seq<String>,
) -> bool {
    &&& forall|i: int|
        0 <= i < metadatas.len() ==> fresh(
            before,
            after,
            (first + i) as u64,
            owner,
            (#[trigger] metadatas[i])@,
        )
    &&& forall|id: TokenID| #[trigger]
        before.tokens.contains_key(id) ==> after.tokens.contains_key(id) && after.tokens[id]
            == before.tokens[id]
    &&& forall|id: TokenID| #[trigger]
        after.tokens.contains_key(id) ==> before.tokens.contains_key(id) || first <= id < first
            + metadatas.len()
    &&& forall|actor: ActorID| #[trigger]
        counted(after.owners, actor) == counted(before.owners, actor) + (if actor == owner {
            metadatas.len() as int
        } else {
            0
        })
    &&& forall|actor: ActorID| #[trigger]
        delegates(after.owners, actor) == delegates(before.owners, actor)
}

/// What minting leaves.
pub(crate) proof fn lemma_made(whole: Collection, owner: ActorID, metadatas: Seq<String>)
    requires
        whole.regular(),
        whole.next + metadatas.len() <= u64::MAX,
        whole.supply + metadatas.len() <= u64::MAX,
    ensures
        collection::issued(whole, owner, nft_state::texts(metadatas)) is Ok,
        made(
            whole.held,
            collection::issued(whole, owner, nft_state::texts(metadatas))->Ok_0.held,
            whole.next,
            owner,
            metadatas,
        ),
        collection::issued(whole, owner, nft_state::texts(metadatas))->Ok_0.supply == whole.supply
            + metadatas.len(),
        collection::issued(whole, owner, nft_state::texts(metadatas))->Ok_0.next == whole.next
            + metadatas.len(),
{
    let texts = nft_state::texts(metadatas);
    nft_laws::mint_law(whole, owner, texts);
    let after = collection::issued(whole, owner, texts)->Ok_0;
    assert forall|actor: ActorID| #[trigger]
        counted(after.held.owners, actor) == counted(whole.held.owners, actor) + (if actor == owner {
            metadatas.len() as int
        } else {
            0
        }) by {
        keys::keys_differ(actor, owner);
        assert(counted(after.held.owners, actor) == collection::owner_info(
            after.held.owners,
            keys::key_of(actor),
        ).0);
    }
    assert forall|actor: ActorID| #[trigger]
        delegates(after.held.owners, actor) == delegates(whole.held.owners, actor) by {
        assert(collection::owner_info(after.held.owners, keys::key_of(actor)).1
            == collection::owner_info(whole.held.owners, keys::key_of(actor)).1);
    }
    assert forall|i: int| 0 <= i < metadatas.len() implies fresh(
        whole.held,
        after.held,
        (whole.next + i) as u64,
        owner,
        (#[trigger] metadatas[i])@,
    ) by {
        assert(texts[i] == metadatas[i]@);
    }
}

/// A balance is the number of tokens that the actor owns. Owner and metadata of a token are those that
/// the collection has for its number, and whoever is not the owner does not own it.
pub proof fn tokens_are_read_back(
    s: NFTState,
    bs: Store,
    actor: ActorID,
    id: TokenID,
    balance: Result<u64, StateError>,
    owner: Result<ActorID, StateError>,
    metadata: Result<String, StateError>,
    owned: Result<TokenData, StateError>,
    all: Result<Vec<TokenID>, StateError>,
)
    requires
        complete(s, bs@),
        regular(s, bs@),
        call_ensures(NFTState::get_balance, (&s, &bs, actor), balance),
        call_ensures(NFTState::get_owner, (&s, &bs, id), owner),
        call_ensures(NFTState::get_metadata, (&s, &bs, id), metadata),
        call_ensures(NFTState::owns_token, (&s, &bs, actor, id), owned),
        call_ensures(NFTState::list_tokens, (&s, &bs), all),
    ensures
        balance is Ok && balance->Ok_0 == tally(held_by(s, bs@).tokens, actor),
        owner is Ok == held_by(s, bs@).tokens.contains_key(id),
        owner is Ok ==> owner->Ok_0 == held_by(s, bs@).tokens[id].0,
        metadata is Ok == held_by(s, bs@).tokens.contains_key(id),
        metadata is Ok ==> metadata->Ok_0@ == held_by(s, bs@).tokens[id].2,
        owned is Ok == (held_by(s, bs@).tokens.contains_key(id) && held_by(s, bs@).tokens[id].0
            == actor),
        owned is Ok ==> owned->Ok_0.owner == actor && owned->Ok_0.metadata@ == held_by(
            s,
            bs@,
        ).tokens[id].2 && bits::held_bits(owned->Ok_0.operators) == held_by(s, bs@).tokens[id].1,
        all is Ok,
        forall|x: TokenID| #[trigger]
            all->Ok_0@.contains(x) <==> held_by(s, bs@).tokens.contains_key(x),
        forall|i: int, j: int|
            0 <= i < j < all->Ok_0@.len() ==> #[trigger] all->Ok_0@[i] < #[trigger] all->Ok_0@[j],
{
    let held = held_by(s, bs@);
    assert(s.collection(bs@)->0.held == held);
    batches::counts_are_right(held, actor);
    assert forall|x: TokenID| #[trigger] all->Ok_0@.contains(x) <==> held.tokens.contains_key(x) by {
        assert(all->Ok_0@.to_set().contains(x) == held.tokens.dom().contains(x));
    }
}

/// What a mint or a transfer returns in the end agrees with what is read from the state: the balances of
/// those it names, the supply, the tokens and the data that the receiver gave back.
pub proof fn returns_agree_with_the_state(
    s: NFTState,
    bs: Store,
    minting: MintIntermediate,
    transferring: TransferIntermediate,
    moving: TransferFromIntermediate,
    minted: Result<MintReturn, StateError>,
    transferred: Result<TransferReturn, StateError>,
    moved: Result<TransferFromReturn, StateError>,
)
    requires
        complete(s, bs@),
        regular(s, bs@),
        call_ensures(NFTState::mint_return, (&s, &bs, minting), minted),
        call_ensures(NFTState::transfer_return, (&s, &bs, transferring), transferred),
        call_ensures(NFTState::transfer_from_return, (&s, &bs, moving), moved),
    ensures
        minted is Ok,
        minted->Ok_0.balance == tally(held_by(s, bs@).tokens, minting.to),
        minted->Ok_0.supply == s.total_supply,
        minted->Ok_0.token_ids@ == minting.token_ids@,
        minted->Ok_0.recipient_data@ == minting.recipient_data@,
        transferred is Ok,
        transferred->Ok_0.from_balance == tally(held_by(s, bs@).tokens, transferring.from),
        transferred->Ok_0.to_balance == tally(held_by(s, bs@).tokens, transferring.to),
        transferred->Ok_0.token_ids@ == transferring.token_ids@,
        moved is Ok,
        moved->Ok_0.to_balance == tally(held_by(s, bs@).tokens, moving.to),
        moved->Ok_0.token_ids@ == moving.token_ids@,
{
    let held = held_by(s, bs@);
    assert(s.collection(bs@)->0.held == held);
    batches::counts_are_right(held, minting.to);
    batches::counts_are_right(held, transferring.from);
    batches::counts_are_right(held, transferring.to);
    batches::counts_are_right(held, moving.to);
}

/// A check of a state finds nothing just where the rules hold, and everything that it finds is wrong.
pub proof fn a_check_finds_what_is_wrong(
    s: NFTState,
    bs: Store,
    r: (StateSummary, Vec<StateInvariantError>),
)
    requires
        complete(s, bs@),
        call_ensures(NFTState::check_invariants, (&s, &bs), r),
    ensures
        r.1@.len() == 0 <==> checks::in_order(
            held_by(s, bs@).tokens,
            held_by(s, bs@).owners,
            s.total_supply,
        ),
        forall|i: int|
            0 <= i < r.1@.len() ==> checks::true_of(
                (#[trigger] r.1@[i])@,
                held_by(s, bs@).tokens,
                held_by(s, bs@).owners,
                s.total_supply,
            ),
        r.0.total_supply == s.total_supply,
{
    let whole = s.collection(bs@)->0;
    assert(whole.held == held_by(s, bs@));
    checks::lemma_rules(whole);
    let faults = invariants::seen(r.1@);
    checks::lemma_reported(whole, faults);
    assert forall|i: int| 0 <= i < r.1@.len() implies checks::true_of(
        (#[trigger] r.1@[i])@,
        whole.held.tokens,
        whole.held.owners,
        whole.supply,
    ) by {
        assert(faults[i] == r.1@[i]@);
    }
}

/// A state that was saved is the state that is loaded again, and a new one has no tokens and no owners.
pub proof fn what_is_saved_is_loaded(
    s: NFTState,
    bs: &mut Store,
    cs: &mut Store,
    saved: Result<Cid, StateError>,
    loaded: Result<NFTState, StateError>,
    new: Result<NFTState, StateError>,
)
    requires
        call_ensures(NFTState::save, (&s, bs), saved),
        call_ensures(NFTState::load, (&*final(bs), &saved->Ok_0), loaded),
        call_ensures(NFTState::new, (cs,), new),
    ensures
        saved is Ok && loaded is Ok && new is Ok,
        loaded->Ok_0.token_data@ == s.token_data@,
        loaded->Ok_0.owner_data@ == s.owner_data@,
        loaded->Ok_0.next_token == s.next_token,
        loaded->Ok_0.total_supply == s.total_supply,
        new->Ok_0.next_token == 0 && new->Ok_0.total_supply == 0,
        forall|id: TokenID| !#[trigger] held_by(new->Ok_0, final(cs)@).tokens.contains_key(id),
        forall|k: Seq<u8>| !#[trigger] held_by(new->Ok_0, final(cs)@).owners.contains_key(k),
{
    assert(new->Ok_0.collection(final(cs)@)->0.held == held_by(new->Ok_0, final(cs)@));
}

/// A hook for tokens has the five things that the receiver is told, each in its place.
pub proof fn a_hook_has_what_the_receiver_is_told<T: RecipientData>(
    address: Address,
    params: FRCXXTokenReceived,
    result: T,
    r: Result<ReceiverHook<T>, ReceiverHookError>,
)
    requires
        call_ensures(
            <ReceiverHook<T> as FRCXXReceiverHook<T>>::new_frcxx,
            (address, params, result),
            r,
        ),
    ensures
        r is Ok,
        r->Ok_0.address == address,
        r->Ok_0.token_type == FRCXX_TOKEN_TYPE,
        r->Ok_0.token_params@ == receiver::tokens_received_cbor(
            params.to,
            params.operator,
            params.token_ids@,
            params.operator_data@,
            params.token_data@,
        ),
        r->Ok_0.result_data == Some(result),
        !r->Ok_0.called,
{
}

/// A receiver's answer goes into the result as its data, and leaves whom and what the result names.
pub proof fn an_answer_is_kept(moving: &mut TransferFromIntermediate, data: RawBytes)
    requires
        call_ensures(
            <TransferFromIntermediate as RecipientData>::set_recipient_data,
            (moving, data),
            (),
        ),
    ensures
        final(moving).to == old(moving).to,
        final(moving).token_ids@ == old(moving).token_ids@,
        final(moving).recipient_data@ == data@,
{
}

/// A transfer that nothing is checked for gives the one token to the receiver, without operators. It is
/// refused where there is no such token.
pub proof fn a_made_transfer_gives_the_token(
    s: &mut NFTState,
    bs: &mut Store,
    id: TokenID,
    receiver: ActorID,
    r: Result<(), StateError>,
)
    requires
        complete(*old(s), old(bs)@),
        regular(*old(s), old(bs)@),
        call_ensures(NFTState::make_transfer, (s, bs, id, receiver), r),
    ensures
        r is Ok == held_by(*old(s), old(bs)@).tokens.contains_key(id),
        r is Err ==> *final(s) == *old(s),
        r is Ok ==> counts_same(*old(s), *final(s)) && given(
            held_by(*old(s), old(bs)@),
            held_by(*final(s), final(bs)@),
            seq![id],
            receiver,
        ),
{
    let held = held_by(*old(s), old(bs)@);
    let whole = old(s).collection(old(bs)@)->0;
    assert(whole.held == held);
    let ids = seq![id];
    assert(ids[0] == id);
    assert(ids.take(1) =~= ids);
    reveal_with_fuel(collection::in_turn, 2);
    if held.tokens.contains_key(id) {
        assert(all_there(held, ids));
        batches::the_entitled_transfer(whole, ids, 1, Authority::Granted, receiver);
        batches::a_batch_of_transfers(whole, ids, 1, Authority::Granted, receiver);
        assert(batch::batch(held, ids, 1, Authority::Granted, Action::HandOn(receiver))
            == collection::handed_on(held, id, receiver));
        assert(r is Ok);
        assert(final(s).collection(final(bs)@)->0.held == held_by(*final(s), final(bs)@));
    }
}

/// An operator whose approval for a token was taken back does not move it, unless it acts for the account
/// that owns it: its transfer is refused as not authorised.
pub proof fn a_revoked_operator_moves_nothing(
    s: &mut NFTState,
    bs: &mut Store,
    t: &mut NFTState,
    cs: &mut Store,
    caller: ActorID,
    operator: ActorID,
    to: ActorID,
    ids: &Vec<TokenID>,
    wanted: &Vec<TokenID>,
    operator_data: RawBytes,
    token_data: RawBytes,
    revoked: Result<(), StateError>,
    moved: Result<ReceiverHook<TransferFromIntermediate>, StateError>,
)
    requires
        complete(*old(s), old(bs)@),
        call_ensures(NFTState::revoke_for_tokens, (s, bs, caller, operator, ids), revoked),
        revoked is Ok,
        !delegates(held_by(*old(s), old(bs)@).owners, caller).contains(operator),
        *old(t) == *final(s) && old(cs)@ == final(bs)@,
        regular(*old(t), old(cs)@),
        wanted@.len() > 0 && ids@.contains(wanted@[0]),
        call_ensures(
            NFTState::operator_transfer_tokens,
            (t, cs, operator, to, wanted, operator_data, token_data),
            moved,
        ),
    ensures
        moved is Err,
        moved->Err_0 is NotAuthorized && moved->Err_0->NotAuthorized_actor == operator,
        held_by(*final(t), final(cs)@) == held_by(*old(t), old(cs)@),
{
    a_revocation_takes_the_operator_off(s, bs, caller, operator, ids, revoked);
    let before = held_by(*old(s), old(bs)@);
    let after = held_by(*final(s), final(bs)@);
    let id = wanted@[0];
    let i = choose|i: int| 0 <= i < ids@.len() && ids@[i] == id;
    assert(before.tokens.contains_key(ids@[i]));
    assert(after.tokens.contains_key(id));
    assert(after.tokens[id].0 == caller);
    assert(!after.tokens[id].1.contains(operator));
    assert(!may_move(after, id, operator));
    an_operator_transfer_gives_the_tokens(
        t,
        cs,
        operator,
        to,
        wanted,
        operator_data,
        token_data,
        moved,
    );
}

} // verus!
