//! Who may do what with tokens, what is returned in the end, and what a check of a state finds.
use fvm_ipld_amt::Error as AmtError;
use fvm_ipld_hamt::Error as HamtError;
use vstd::prelude::*;

use crate::address::Address;
use crate::bits;
use crate::bytes::{ActorID, Cid, RawBytes};
use crate::frc53_nft::collection;
use crate::frc53_nft::collection::Collection;
use crate::frc53_nft::invariants;
use crate::frc53_nft::invariants::{InvariantFault, StateInvariantError, StateSummary};
use crate::frc53_nft::promises::{complete, counted, delegates, owners_of, tally, tokens_of};
use crate::frc53_nft::receiver;
use crate::frc53_nft::receiver::{FRC53ReceiverHook, FRC53TokenReceived, FRC53_TOKEN_TYPE};
use crate::frc53_nft::state::{NFTState, OwnerMap, StateError, TokenArray};
use crate::frc53_nft::types::{MintIntermediate, MintReturn, TransferIntermediate, TransferReturn};
use crate::fvm_actor_utils::receiver::{ReceiverHook, ReceiverHookError, RecipientData};
use crate::keys;
use crate::keys::BytesKey;
use crate::nft_store::{OwnerData, OwnerInfo, Owners, TokenData, TokenID, TokenInfo, Tokens};
use crate::store;
use crate::store::Store;

verus! {

/// An actor owns a token where it is the owner that the token names, and is an operator of it where it is
/// among those that the token has. It may change who the operators are where it owns the token, or is
/// among those who act for the account that does. It is refused otherwise, by name.
pub proof fn rights_are_those_of_owners_and_operators(
    map: OwnerMap<'_>,
    data: TokenData,
    id: TokenID,
    actor: ActorID,
    owns: Result<(), StateError>,
    operates: Result<(), StateError>,
    manages: Result<(), StateError>,
    acts: Result<bool, StateError>,
)
    requires
        map@ is Some,
        call_ensures(NFTState::assert_owns_token, (&data, id, actor), owns),
        call_ensures(NFTState::assert_token_level_approval, (&data, id, actor), operates),
        call_ensures(NFTState::assert_can_approve_token, (&map, &data, actor, id), manages),
        call_ensures(NFTState::is_account_operator, (&map, data.owner, actor), acts),
    ensures
        owns is Ok == (data.owner == actor),
        owns is Err ==> owns->Err_0 is NotOwner && owns->Err_0->NotOwner_actor == actor
            && owns->Err_0->NotOwner_token_id == id,
        operates is Ok == bits::held_bits(data.operators).contains(actor),
        operates is Err ==> operates->Err_0 is NotAuthorized && operates->Err_0->NotAuthorized_actor
            == actor && operates->Err_0->NotAuthorized_token_id == id,
        manages is Ok == (data.owner == actor || delegates(map@->0, data.owner).contains(actor)),
        manages is Err ==> manages->Err_0 is NotOwner && manages->Err_0->NotOwner_actor == actor
            && manages->Err_0->NotOwner_token_id == id,
        acts is Ok ==> acts->Ok_0 == delegates(map@->0, data.owner).contains(actor),
        acts is Ok == map@->0.contains_key(keys::key_of(data.owner)),
{
}

/// What a mint or a transfer returns in the end agrees with what is read from the state: the balances of
/// those it names, the supply, the tokens and the data that the receiver gave back.
pub proof fn returns_agree_with_the_state(
    s: NFTState,
    bs: Store,
    minting: MintIntermediate,
    transferring: TransferIntermediate,
    minted: Result<MintReturn, StateError>,
    transferred: Result<TransferReturn, StateError>,
    owner: Result<u64, StateError>,
    from: Result<u64, StateError>,
    to: Result<u64, StateError>,
)
    requires
        complete(s, bs@),
        call_ensures(NFTState::mint_return, (&s, &bs, minting), minted),
        call_ensures(NFTState::transfer_return, (&s, &bs, transferring), transferred),
        call_ensures(NFTState::get_balance, (&s, &bs, minting.to), owner),
        call_ensures(NFTState::get_balance, (&s, &bs, transferring.from), from),
        call_ensures(NFTState::get_balance, (&s, &bs, transferring.to), to),
    ensures
        minted is Ok && owner is Ok && minted->Ok_0.balance == owner->Ok_0,
        minted->Ok_0.supply == s.total_supply,
        minted->Ok_0.token_ids@ == minting.token_ids@,
        minted->Ok_0.recipient_data@ == minting.recipient_data@,
        transferred is Ok && from is Ok && to is Ok,
        transferred->Ok_0.from_balance == from->Ok_0,
        transferred->Ok_0.to_balance == to->Ok_0,
        transferred->Ok_0.token_ids@ == transferring.token_ids@,
{
}

/// A state that was saved is the state that is loaded again.
pub proof fn what_is_saved_is_loaded(
    s: NFTState,
    bs: &mut Store,
    saved: Result<Cid, StateError>,
    loaded: Result<NFTState, StateError>,
)
    requires
        call_ensures(NFTState::save, (&s, bs), saved),
        call_ensures(NFTState::load, (&*final(bs), &saved->Ok_0), loaded),
    ensures
        saved is Ok,
        loaded is Ok,
        loaded->Ok_0.token_data@ == s.token_data@,
        loaded->Ok_0.owner_data@ == s.owner_data@,
        loaded->Ok_0.next_token == s.next_token,
        loaded->Ok_0.total_supply == s.total_supply,
{
}

/// A hook for tokens has the five things that the receiver is told, each in its place.
pub proof fn a_hook_has_what_the_receiver_is_told<T: RecipientData>(
    address: Address,
    params: FRC53TokenReceived,
    result: T,
    r: Result<ReceiverHook<T>, ReceiverHookError>,
)
    requires
        call_ensures(
            <ReceiverHook<T> as FRC53ReceiverHook<T>>::new_frc53,
            (address, params, result),
            r,
        ),
    ensures
        r is Ok,
        r->Ok_0.address == address,
        r->Ok_0.token_type == FRC53_TOKEN_TYPE,
        r->Ok_0.token_params@ == receiver::tokens_received_cbor(
            params.to,
            params.operator,
            params.token_ids@,
            params.operator_data@,
            params.token_data@,
        ),
        r->Ok_0.result_data == Some(result),
        !r->Ok_0.called,
{
}

/// A receiver's answer goes into the result as its data, and leaves whom and what the result names.
pub proof fn answers_are_kept(
    minting: &mut MintIntermediate,
    transferring: &mut TransferIntermediate,
    data: RawBytes,
)
    requires
        call_ensures(
            <MintIntermediate as RecipientData>::set_recipient_data,
            (minting, data),
            (),
        ),
        call_ensures(
            <TransferIntermediate as RecipientData>::set_recipient_data,
            (transferring, data),
            (),
        ),
    ensures
        final(minting).to == old(minting).to,
        final(minting).token_ids@ == old(minting).token_ids@,
        final(minting).recipient_data@ == data@,
        final(transferring).from == old(transferring).from,
        final(transferring).to == old(transferring).to,
        final(transferring).token_ids@ == old(transferring).token_ids@,
        final(transferring).recipient_data@ == data@,
{
}

/// The rules of a collection, entry by entry: the supply is the number of tokens, every entry of the
/// owners' tree is an actor's, counts the tokens that the actor owns and is not without tokens and
/// delegates, and every owner of a token has an entry.
pub open spec fn in_order(tokens: Tokens, owners: Owners, supply: u64) -> bool {
    &&& tokens.dom().finite()
    &&& supply == tokens.dom().len()
    &&& forall|k: Seq<u8>| #[trigger]
        owners.contains_key(k) ==> keys::id_of(k) is Some && owners[k].0 == tally(
            tokens,
            keys::id_of(k)->0,
        ) && !(owners[k].0 == 0 && owners[k].1 == Set::<ActorID>::empty())
    &&& forall|id: TokenID| #[trigger]
        tokens.contains_key(id) ==> owners.contains_key(keys::key_of(tokens[id].0))
}

/// Whether something that is said to be wrong with a collection is wrong with it.
pub open spec fn true_of(fault: InvariantFault, tokens: Tokens, owners: Owners, supply: u64) -> bool {
    match fault {
        InvariantFault::TotalSupplyMismatch { total_supply, token_count } => total_supply == supply
            && token_count == tokens.dom().len() as u64 && supply != tokens.dom().len(),
        InvariantFault::TokenBalanceMismatch { token_count, owner_count } => exists|actor: ActorID|
            token_count == #[trigger] tally(tokens, actor) as u64 && owner_count != tally(
                tokens,
                actor,
            ) && ((owner_count == 0 && !owners.contains_key(keys::key_of(actor))) || exists|
                k: Seq<u8>,
            | #[trigger]
                owners.contains_key(k) && keys::id_of(k) == Some(actor) && owners[k].0
                    == owner_count),
        InvariantFault::InvalidBytesKey(k) => owners.contains_key(k) && keys::id_of(k) is None,
        InvariantFault::ExplicitEmptyOwner(actor) => exists|k: Seq<u8>| #[trigger]
            owners.contains_key(k) && keys::id_of(k) == Some(actor) && owners[k].0 == 0
                && owners[k].1 == Set::<ActorID>::empty(),
        _ => false,
    }
}

/// Whether all of some faults are.
pub open spec fn all_true(
    faults: Seq<InvariantFault>,
    tokens: Tokens,
    owners: Owners,
    supply: u64,
) -> bool {
    forall|i: int| 0 <= i < faults.len() ==> true_of(#[trigger] faults[i], tokens, owners, supply)
}

proof fn lemma_all_true(
    a: Seq<InvariantFault>,
    b: Seq<InvariantFault>,
    tokens: Tokens,
    owners: Owners,
    supply: u64,
)
    requires
        all_true(a, tokens, owners, supply),
        all_true(b, tokens, owners, supply),
    ensures
        all_true(a + b, tokens, owners, supply),
{
    assert forall|i: int| 0 <= i < (a + b).len() implies true_of(
        #[trigger] (a + b)[i],
        tokens,
        owners,
        supply,
    ) by {
        if i < a.len() {
            assert((a + b)[i] == a[i]);
        } else {
            assert((a + b)[i] == b[i - a.len()]);
        }
    }
}

proof fn lemma_owned(tokens: Tokens, actor: ActorID)
    ensures
        invariants::owned(tokens, actor) == tally(tokens, actor),
{
    assert(collection::owned_by(tokens, actor) =~= tokens.dom().filter(
        |id: TokenID| tokens[id].0 == actor,
    ));
}

proof fn lemma_owner_faults_true(
    tokens: Tokens,
    owners: Owners,
    supply: u64,
    entries: Seq<(Seq<u8>, OwnerInfo)>,
)
    requires
        forall|i: int|
            0 <= i < entries.len() ==> owners.contains_key((#[trigger] entries[i]).0)
                && owners[entries[i].0] == entries[i].1,
    ensures
        all_true(invariants::owner_faults(tokens, entries), tokens, owners, supply),
    decreases entries.len(),
{
    if entries.len() > 0 {
        let fewer = entries.drop_last();
        assert forall|i: int| 0 <= i < fewer.len() implies owners.contains_key(
            (#[trigger] fewer[i]).0,
        ) && owners[fewer[i].0] == fewer[i].1 by {
            assert(fewer[i] == entries[i]);
        }
        lemma_owner_faults_true(tokens, owners, supply, fewer);
        let (key, info) = entries.last();
        assert(entries[entries.len() - 1] == entries.last());
        assert(owners.contains_key(key) && owners[key] == info);
        let faults = invariants::entry_faults(tokens, key, info);
        assert forall|i: int| 0 <= i < faults.len() implies true_of(
            #[trigger] faults[i],
            tokens,
            owners,
            supply,
        ) by {
            if keys::id_of(key) is Some {
                let actor = keys::id_of(key)->0;
                lemma_owned(tokens, actor);
                if faults[i] is TokenBalanceMismatch {
                    assert(faults[i]->TokenBalanceMismatch_token_count == tally(
                        tokens,
                        actor,
                    ) as u64);
                }
            }
        }
        lemma_all_true(
            invariants::owner_faults(tokens, fewer),
            faults,
            tokens,
            owners,
            supply,
        );
    }
}

proof fn lemma_stray_faults_true(
    tokens: Tokens,
    owners: Owners,
    supply: u64,
    list: Seq<(TokenID, TokenInfo)>,
)
    requires
        tokens.dom().finite(),
        forall|i: int|
            0 <= i < list.len() ==> tokens.contains_key((#[trigger] list[i]).0)
                && tokens[list[i].0] == list[i].1,
    ensures
        all_true(invariants::stray_faults(tokens, list, owners), tokens, owners, supply),
    decreases list.len(),
{
    if list.len() > 0 {
        let fewer = list.drop_last();
        assert forall|i: int| 0 <= i < fewer.len() implies tokens.contains_key(
            (#[trigger] fewer[i]).0,
        ) && tokens[fewer[i].0] == fewer[i].1 by {
            assert(fewer[i] == list[i]);
        }
        lemma_stray_faults_true(tokens, owners, supply, fewer);
        let (id, token) = list.last();
        assert(list[list.len() - 1] == list.last());
        assert(tokens.contains_key(id) && tokens[id] == token);
        let actor = token.0;
        lemma_owned(tokens, actor);
        let mine = collection::owned_by(tokens, actor);
        assert(mine.contains(id));
        assert(mine.len() > 0);
        let faults = invariants::fault_if(
            invariants::strays(list, owners),
            InvariantFault::TokenBalanceMismatch {
                token_count: invariants::owned(tokens, actor) as u64,
                owner_count: 0,
            },
        );
        assert forall|i: int| 0 <= i < faults.len() implies true_of(
            #[trigger] faults[i],
            tokens,
            owners,
            supply,
        ) by {
            assert(tally(tokens, actor) > 0);
            assert(faults[i]->TokenBalanceMismatch_token_count == tally(tokens, actor) as u64);
        }
        lemma_all_true(
            invariants::stray_faults(tokens, fewer, owners),
            faults,
            tokens,
            owners,
            supply,
        );
    }
}

/// A check of a state finds nothing just where the rules hold, and everything that it finds is wrong. Its
/// summary has the supply and the tokens of the state.
pub proof fn a_check_finds_what_is_wrong(
    s: NFTState,
    bs: Store,
    r: (StateSummary, Vec<StateInvariantError>),
)
    requires
        complete(s, bs@),
        call_ensures(NFTState::check_invariants, (&s, &bs), r),
    ensures
        r.1@.len() == 0 <==> in_order(tokens_of(s, bs@), owners_of(s, bs@), s.total_supply),
        forall|i: int|
            0 <= i < r.1@.len() ==> true_of(
                (#[trigger] r.1@[i])@,
                tokens_of(s, bs@),
                owners_of(s, bs@),
                s.total_supply,
            ),
        r.0.total_supply == s.total_supply,
        r.0.token_data is Some,
        r.0.token_data->0@.dom() == tokens_of(s, bs@).dom(),
        forall|id: TokenID| #[trigger]
            tokens_of(s, bs@).contains_key(id) ==> {
                let data = r.0.token_data->0@[id];
                &&& data.owner == tokens_of(s, bs@)[id].0
                &&& bits::held_bits(data.operators) == tokens_of(s, bs@)[id].1
                &&& data.metadata@ == tokens_of(s, bs@)[id].2
            },
{
    let whole = s.collection(bs@)->0;
    let tokens = tokens_of(s, bs@);
    let owners = owners_of(s, bs@);
    assert(whole.held.tokens == tokens && whole.held.owners == owners);
    lemma_rules(whole);
    let faults = invariants::seen(r.1@);
    lemma_reported(whole, faults);
    assert forall|i: int| 0 <= i < r.1@.len() implies true_of(
        (#[trigger] r.1@[i])@,
        tokens,
        owners,
        s.total_supply,
    ) by {
        assert(faults[i] == r.1@[i]@);
    }
    assert forall|id: TokenID| #[trigger] tokens.contains_key(id) implies {
        let data = r.0.token_data->0@[id];
        &&& data.owner == tokens[id].0
        &&& bits::held_bits(data.operators) == tokens[id].1
        &&& data.metadata@ == tokens[id].2
    } by {
        let data = r.0.token_data->0@[id];
        assert(data@ == (data.owner, bits::held_bits(data.operators), data.metadata@));
    }
}

/// What is reported of a collection is wrong with it.
pub(crate) proof fn lemma_reported(whole: Collection, faults: Seq<InvariantFault>)
    requires
        invariants::reports(faults, whole),
    ensures
        all_true(faults, whole.held.tokens, whole.held.owners, whole.supply),
{
    let tokens = whole.held.tokens;
    let owners = whole.held.owners;
    let (list, entries) = choose|list: Seq<(TokenID, TokenInfo)>, entries: Seq<(Seq<u8>, OwnerInfo)>|
        #![trigger invariants::all_faults(whole, list, entries)]
        store::lists(list, tokens) && invariants::in_order(list) && store::lists(entries, owners)
            && faults == invariants::all_faults(whole, list, entries);
    assert(faults == invariants::all_faults(whole, list, entries));
    let supply = invariants::fault_if(
        whole.supply != tokens.dom().len(),
        InvariantFault::TotalSupplyMismatch {
            total_supply: whole.supply,
            token_count: tokens.dom().len() as u64,
        },
    );
    lemma_owner_faults_true(tokens, owners, whole.supply, entries);
    lemma_stray_faults_true(tokens, owners, whole.supply, list);
    let first = supply + invariants::owner_faults(tokens, entries);
    assert(all_true(supply, tokens, owners, whole.supply));
    lemma_all_true(
        supply,
        invariants::owner_faults(tokens, entries),
        tokens,
        owners,
        whole.supply,
    );
    lemma_all_true(
        first,
        invariants::stray_faults(tokens, list, owners),
        tokens,
        owners,
        whole.supply,
    );
}

/// A collection is sound just where the rules hold.
pub(crate) proof fn lemma_rules(whole: Collection)
    ensures
        whole.sound() == in_order(whole.held.tokens, whole.held.owners, whole.supply),
{
    let tokens = whole.held.tokens;
    let owners = whole.held.owners;
    assert forall|k: Seq<u8>| #[trigger] owners.contains_key(k) implies collection::owner_sound(
        tokens,
        k,
        owners[k],
    ) == (keys::id_of(k) is Some && owners[k].0 == tally(tokens, keys::id_of(k)->0) && !(
    owners[k].0 == 0 && owners[k].1 == Set::<ActorID>::empty())) by {
        if keys::id_of(k) is Some {
            lemma_owned(tokens, keys::id_of(k)->0);
        }
    }
}

/// The array and the tree of a state hold its tokens and its owners: under a number the token, under an
/// actor's key what is counted and who acts for the account, and as many tokens as there are.
pub proof fn the_trees_hold_tokens_and_owners<'bs>(
    s: NFTState,
    bs: &'bs Store,
    id: TokenID,
    actor: ActorID,
    key: BytesKey,
    array: Result<TokenArray<'bs>, StateError>,
    map: Result<OwnerMap<'bs>, StateError>,
    token: Result<Option<TokenData>, AmtError>,
    count: Result<u64, AmtError>,
    owner: Result<Option<OwnerData>, HamtError>,
)
    requires
        complete(s, bs@),
        id < u64::MAX,
        key@ == keys::key_of(actor),
        call_ensures(NFTState::get_token_data_amt, (&s, bs), array),
        call_ensures(NFTState::get_owner_data_hamt, (&s, bs), map),
        call_ensures(TokenArray::get, (&array->Ok_0, id), token),
        call_ensures(TokenArray::count, (&array->Ok_0,), count),
        call_ensures(OwnerMap::get, (&map->Ok_0, &key), owner),
    ensures
        array is Ok && map is Ok && token is Ok && count is Ok && owner is Ok,
        token->Ok_0 is Some == tokens_of(s, bs@).contains_key(id),
        token->Ok_0 is Some ==> {
            let data = token->Ok_0->0;
            &&& data.owner == tokens_of(s, bs@)[id].0
            &&& bits::held_bits(data.operators) == tokens_of(s, bs@)[id].1
            &&& data.metadata@ == tokens_of(s, bs@)[id].2
        },
        count->Ok_0 == tokens_of(s, bs@).dom().len(),
        owner->Ok_0 is None ==> counted(owners_of(s, bs@), actor) == 0,
        owner->Ok_0 is Some ==> owner->Ok_0->0.balance == counted(owners_of(s, bs@), actor)
            && bits::held_bits(owner->Ok_0->0.operators) == delegates(owners_of(s, bs@), actor),
{
    if token->Ok_0 is Some {
        let data = token->Ok_0->0;
        assert(data@ == (data.owner, bits::held_bits(data.operators), data.metadata@));
    }
    if owner->Ok_0 is Some {
        let data = owner->Ok_0->0;
        assert(data@ == (data.balance, bits::held_bits(data.operators)));
    }
}

} // verus!
