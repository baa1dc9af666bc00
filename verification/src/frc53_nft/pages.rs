//! What the pages of a listing hold, and what they hold together.
use vstd::prelude::*;

use crate::bits;
use crate::bytes::ActorID;
use crate::frc53_nft::collection;
use crate::frc53_nft::histories;
use crate::frc53_nft::laws;
use crate::frc53_nft::promises::{complete, counted, delegates, owners_of, tally, tokens_of};
use crate::frc53_nft::state;
use crate::frc53_nft::state::{Filter, NFTState, StateError};
use crate::frc53_nft::types::{Cursor, TokenSet};
use crate::keys;
use crate::nft_store::TokenID;
use crate::store::Store;

verus! {

/// What a call of a listing came back with.
pub type Listed = Result<(TokenSet, Option<Cursor>), StateError>;

/// Whether a listing was followed: the first call from the start, each further one with the cursor
/// that the one before it gave back, until one gave none.
pub open spec fn followed(cursors: Seq<Option<Cursor>>, answers: Seq<Listed>) -> bool {
    &&& answers.len() > 0
    &&& cursors.len() == answers.len()
    &&& cursors[0] is None
    &&& forall|i: int|
        0 < i < answers.len() ==> answers[i - 1] is Ok && #[trigger] cursors[i]
            == answers[i - 1]->Ok_0.1 && cursors[i] is Some
    &&& answers.last() is Ok ==> answers.last()->Ok_0.1 is None
}

/// Whether a number is in one of the pages.
pub open spec fn listed(answers: Seq<Listed>, id: u64) -> bool {
    exists|i: int|
        0 <= i < answers.len() && (#[trigger] answers[i]) is Ok && bits::held_bits(
            answers[i]->Ok_0.0,
        ).contains(id)
}

/// Whether no number is in two of the pages.
pub open spec fn listed_once(answers: Seq<Listed>) -> bool {
    forall|i: int, j: int, id: u64|
        0 <= i < j < answers.len() && bits::held_bits(
            (#[trigger] answers[i])->Ok_0.0,
        ).contains(id) ==> !(#[trigger] bits::held_bits((#[trigger] answers[j])->Ok_0.0).contains(
            id,
        ))
}

/// Whether the numbers on earlier pages are smaller.
pub open spec fn listed_in_order(answers: Seq<Listed>) -> bool {
    forall|i: int, j: int, x: u64, y: u64|
        0 <= i < j < answers.len() && #[trigger] bits::held_bits(
            (#[trigger] answers[i])->Ok_0.0,
        ).contains(x) && #[trigger] bits::held_bits((#[trigger] answers[j])->Ok_0.0).contains(y)
            ==> x < y
}

/// Where a cursor stands.
pub open spec fn stands_at(cursor: Option<Cursor>) -> int {
    if cursor is Some {
        cursor->0.index as int
    } else {
        0
    }
}

/// Whether the page from a cursor to the next holds just the wanted numbers from the one to the
/// other.
pub open spec fn in_window(
    wanted: spec_fn(u64) -> bool,
    cursor: Option<Cursor>,
    answer: Listed,
) -> bool {
    &&& answer is Ok
    &&& answer->Ok_0.1 is Some ==> stands_at(cursor) <= answer->Ok_0.1->0.index
    &&& forall|id: u64| #[trigger]
        bits::held_bits(answer->Ok_0.0).contains(id) <==> wanted(id) && stands_at(cursor) <= id && (
        answer->Ok_0.1 is Some ==> id < answer->Ok_0.1->0.index)
}

/// The pages stand one after the other.
proof fn lemma_in_order(
    wanted: spec_fn(u64) -> bool,
    cursors: Seq<Option<Cursor>>,
    answers: Seq<Listed>,
    i: int,
    j: int,
)
    requires
        followed(cursors, answers),
        0 <= i < j < answers.len(),
        forall|k: int|
            0 <= k < answers.len() ==> in_window(wanted, #[trigger] cursors[k], answers[k]),
    ensures
        answers[i]->Ok_0.1 is Some,
        answers[i]->Ok_0.1->0.index <= stands_at(cursors[j]),
    decreases j,
{
    assert(cursors[j] == answers[j - 1]->Ok_0.1);
    if i < j - 1 {
        lemma_in_order(wanted, cursors, answers, i, j - 1);
        assert(in_window(wanted, cursors[j - 1], answers[j - 1]));
    }
}

/// A wanted number at or after where a page starts is in that page or in a later one.
proof fn lemma_comes(
    wanted: spec_fn(u64) -> bool,
    cursors: Seq<Option<Cursor>>,
    answers: Seq<Listed>,
    i: int,
    id: u64,
)
    requires
        followed(cursors, answers),
        0 <= i < answers.len(),
        forall|k: int|
            0 <= k < answers.len() ==> in_window(wanted, #[trigger] cursors[k], answers[k]),
        wanted(id),
        stands_at(cursors[i]) <= id,
    ensures
        listed(answers, id),
    decreases answers.len() - i,
{
    assert(in_window(wanted, cursors[i], answers[i]));
    let page = answers[i]->Ok_0;
    if !bits::held_bits(page.0).contains(id) {
        assert(i + 1 < answers.len()) by {
            if i + 1 == answers.len() {
                assert(answers.last() == answers[i]);
            }
        }
        assert(cursors[i + 1] == answers[(i + 1) - 1]->Ok_0.1);
        lemma_comes(wanted, cursors, answers, i + 1, id);
    }
}

/// Pages of which each holds the wanted numbers between two cursors hold each wanted number once, and
/// no other.
proof fn lemma_windows(
    wanted: spec_fn(u64) -> bool,
    cursors: Seq<Option<Cursor>>,
    answers: Seq<Listed>,
)
    requires
        followed(cursors, answers),
        forall|k: int|
            0 <= k < answers.len() ==> in_window(wanted, #[trigger] cursors[k], answers[k]),
    ensures
        forall|id: u64| #[trigger] listed(answers, id) <==> wanted(id),
        listed_once(answers),
        listed_in_order(answers),
{
    assert forall|id: u64| #[trigger] listed(answers, id) <==> wanted(id) by {
        if wanted(id) {
            lemma_comes(wanted, cursors, answers, 0, id);
        }
        if listed(answers, id) {
            let i = choose|i: int|
                0 <= i < answers.len() && (#[trigger] answers[i]) is Ok && bits::held_bits(
                    answers[i]->Ok_0.0,
                ).contains(id);
            assert(in_window(wanted, cursors[i], answers[i]));
        }
    }
    assert forall|i: int, j: int, id: u64|
        0 <= i < j < answers.len() && bits::held_bits(
            (#[trigger] answers[i])->Ok_0.0,
        ).contains(id) implies !(#[trigger] bits::held_bits(
        (#[trigger] answers[j])->Ok_0.0,
    ).contains(id)) by {
        lemma_in_order(wanted, cursors, answers, i, j);
        assert(in_window(wanted, cursors[i], answers[i]));
        assert(in_window(wanted, cursors[j], answers[j]));
    }
    assert forall|i: int, j: int, x: u64, y: u64|
        0 <= i < j < answers.len() && #[trigger] bits::held_bits(
            (#[trigger] answers[i])->Ok_0.0,
        ).contains(x) && #[trigger] bits::held_bits(
            (#[trigger] answers[j])->Ok_0.0,
        ).contains(y) implies x < y by {
        lemma_in_order(wanted, cursors, answers, i, j);
        assert(in_window(wanted, cursors[i], answers[i]));
        assert(in_window(wanted, cursors[j], answers[j]));
    }
}

/// A page of an owner's tokens holds just those that have that owner, from the cursor to the next one.
/// Between the two there are as many tokens as the limit says.
pub proof fn a_page_holds_the_owners_tokens(
    s: NFTState,
    bs: Store,
    owner: ActorID,
    cursor: Option<Cursor>,
    limit: u64,
    r: Listed,
)
    requires
        complete(s, bs@),
        cursor is Some ==> cursor->0.root@ == s.token_data@ && (cursor->0.index == 0 || tokens_of(
            s,
            bs@,
        ).contains_key(cursor->0.index)),
        call_ensures(NFTState::list_owned_tokens, (&s, &bs, owner, cursor, limit), r),
    ensures
        r is Ok,
        bits::held_bits(r->Ok_0.0).finite() && bits::held_bits(r->Ok_0.0).len() <= limit,
        forall|id: TokenID| #[trigger]
            bits::held_bits(r->Ok_0.0).contains(id) <==> {
                &&& tokens_of(s, bs@).contains_key(id)
                &&& tokens_of(s, bs@)[id].0 == owner
                &&& stands_at(cursor) <= id
                &&& r->Ok_0.1 is Some ==> id < r->Ok_0.1->0.index
            },
        r->Ok_0.1 is Some ==> {
            let next = r->Ok_0.1->0;
            &&& next.root@ == s.token_data@
            &&& tokens_of(s, bs@).contains_key(next.index)
            &&& stands_at(cursor) <= next.index
            &&& limit > 0 ==> stands_at(cursor) < next.index
            &&& tokens_of(s, bs@).dom().filter(
                |id: TokenID| stands_at(cursor) <= id < next.index,
            ).len() == limit
        },
{
    let tokens = tokens_of(s, bs@);
    assert(s.collection(bs@)->0.held.tokens == tokens);
    let ids = bits::held_bits(r->Ok_0.0);
    let start = stands_at(cursor) as u64;
    let next = state::next_of(r->Ok_0.1);
    let whole = choose|whole: Set<TokenID>| #[trigger]
        state::page(tokens, start, limit, whole, next) && ids == whole.filter(
            |id: TokenID| Filter::Owner(owner).keeps(tokens[id]),
        );
    vstd::set_lib::lemma_len_subset(ids, whole);
    if r->Ok_0.1 is Some {
        let last = r->Ok_0.1->0;
        let between = tokens.dom().filter(|id: TokenID| stands_at(cursor) <= id < last.index);
        assert(between =~= whole);
        if limit > 0 && start == last.index {
            assert(whole =~= Set::empty());
        }
    }
}

/// The pages of an owner's tokens, followed to the end, hold each token of the owner once and no other, the
/// smaller numbers first. In a regular collection they are as many as the owner's balance says.
pub proof fn the_pages_hold_all_tokens_of_the_owner(
    s: NFTState,
    bs: Store,
    owner: ActorID,
    limit: u64,
    cursors: Seq<Option<Cursor>>,
    answers: Seq<Listed>,
)
    requires
        complete(s, bs@),
        followed(cursors, answers),
        forall|i: int|
            0 <= i < answers.len() ==> call_ensures(
                NFTState::list_owned_tokens,
                (&s, &bs, owner, #[trigger] cursors[i], limit),
                answers[i],
            ),
    ensures
        forall|id: TokenID| #[trigger]
            listed(answers, id) <==> tokens_of(s, bs@).contains_key(id) && tokens_of(s, bs@)[id].0 == owner,
        listed_once(answers),
        listed_in_order(answers),
        forall|all: Set<TokenID>|
            s.collection(bs@)->0.regular() && (forall|id: TokenID| #[trigger]
                all.contains(id) == listed(answers, id)) ==> #[trigger] all.len() == counted(
                owners_of(s, bs@),
                owner,
            ) && all.len() == tally(tokens_of(s, bs@), owner),
{
    let tokens = tokens_of(s, bs@);
    let wanted = |id: u64| tokens.contains_key(id) && tokens[id].0 == owner;
    assert forall|k: int| 0 <= k < answers.len() implies in_window(
        wanted,
        #[trigger] cursors[k],
        answers[k],
    ) by {
        lemma_cursor_list_owned_tokens(s, bs, owner, limit, cursors, answers, k);
    }
    lemma_windows(wanted, cursors, answers);
    assert forall|all: Set<TokenID>|
        s.collection(bs@)->0.regular() && (forall|id: TokenID| #[trigger]
            all.contains(id) == listed(answers, id)) implies #[trigger] all.len() == counted(
        owners_of(s, bs@),
        owner,
    ) && all.len() == tally(tokens_of(s, bs@), owner) by {
        laws::lemma_right(s.collection(bs@)->0.held, owner);
        assert(all =~= collection::owned_by(tokens, owner));
        assert(all =~= tokens.dom().filter(|id: TokenID| tokens[id].0 == owner));
    }
}

proof fn lemma_cursor_list_owned_tokens(
    s: NFTState,
    bs: Store,
    owner: ActorID,
    limit: u64,
    cursors: Seq<Option<Cursor>>,
    answers: Seq<Listed>,
    k: int,
)
    requires
        complete(s, bs@),
        followed(cursors, answers),
        0 <= k < answers.len(),
        forall|i: int|
            0 <= i < answers.len() ==> call_ensures(
                NFTState::list_owned_tokens,
                (&s, &bs, owner, #[trigger] cursors[i], limit),
                answers[i],
            ),
    ensures
        in_window(
            |id: u64| tokens_of(s, bs@).contains_key(id) && tokens_of(s, bs@)[id].0 == owner,
            cursors[k],
            answers[k],
        ),
        answers[k]->Ok_0.1 is Some ==> answers[k]->Ok_0.1->0.root@ == s.token_data@ && tokens_of(
            s,
            bs@,
        ).contains_key(answers[k]->Ok_0.1->0.index),
    decreases k,
{
    if k > 0 {
        lemma_cursor_list_owned_tokens(s, bs, owner, limit, cursors, answers, k - 1);
        assert(cursors[k] == answers[k - 1]->Ok_0.1);
    }
    a_page_holds_the_owners_tokens(s, bs, owner, cursors[k], limit, answers[k]);
}

/// A page of an operator's tokens holds just those that have it among their operators, from the cursor to
/// the next one. Between the two there are as many tokens as the limit says.
pub proof fn a_page_holds_the_operators_tokens(
    s: NFTState,
    bs: Store,
    operator: ActorID,
    cursor: Option<Cursor>,
    limit: u64,
    r: Listed,
)
    requires
        complete(s, bs@),
        cursor is Some ==> cursor->0.root@ == s.token_data@ && (cursor->0.index == 0 || tokens_of(
            s,
            bs@,
        ).contains_key(cursor->0.index)),
        call_ensures(NFTState::list_operator_tokens, (&s, &bs, operator, cursor, limit), r),
    ensures
        r is Ok,
        bits::held_bits(r->Ok_0.0).finite() && bits::held_bits(r->Ok_0.0).len() <= limit,
        forall|id: TokenID| #[trigger]
            bits::held_bits(r->Ok_0.0).contains(id) <==> {
                &&& tokens_of(s, bs@).contains_key(id)
                &&& tokens_of(s, bs@)[id].1.contains(operator)
                &&& stands_at(cursor) <= id
                &&& r->Ok_0.1 is Some ==> id < r->Ok_0.1->0.index
            },
        r->Ok_0.1 is Some ==> {
            let next = r->Ok_0.1->0;
            &&& next.root@ == s.token_data@
            &&& tokens_of(s, bs@).contains_key(next.index)
            &&& stands_at(cursor) <= next.index
            &&& limit > 0 ==> stands_at(cursor) < next.index
            &&& tokens_of(s, bs@).dom().filter(
                |id: TokenID| stands_at(cursor) <= id < next.index,
            ).len() == limit
        },
{
    let tokens = tokens_of(s, bs@);
    assert(s.collection(bs@)->0.held.tokens == tokens);
    let ids = bits::held_bits(r->Ok_0.0);
    let start = stands_at(cursor) as u64;
    let next = state::next_of(r->Ok_0.1);
    let whole = choose|whole: Set<TokenID>| #[trigger]
        state::page(tokens, start, limit, whole, next) && ids == whole.filter(
            |id: TokenID| Filter::Operator(operator).keeps(tokens[id]),
        );
    vstd::set_lib::lemma_len_subset(ids, whole);
    if r->Ok_0.1 is Some {
        let last = r->Ok_0.1->0;
        let between = tokens.dom().filter(|id: TokenID| stands_at(cursor) <= id < last.index);
        assert(between =~= whole);
        if limit > 0 && start == last.index {
            assert(whole =~= Set::empty());
        }
    }
}

/// The pages of an operator's tokens, followed to the end, hold each token that has it among its operators
/// once and no other.
pub proof fn the_pages_hold_all_tokens_of_the_operator(
    s: NFTState,
    bs: Store,
    operator: ActorID,
    limit: u64,
    cursors: Seq<Option<Cursor>>,
    answers: Seq<Listed>,
)
    requires
        complete(s, bs@),
        followed(cursors, answers),
        forall|i: int|
            0 <= i < answers.len() ==> call_ensures(
                NFTState::list_operator_tokens,
                (&s, &bs, operator, #[trigger] cursors[i], limit),
                answers[i],
            ),
    ensures
        forall|id: TokenID| #[trigger]
            listed(answers, id) <==> tokens_of(s, bs@).contains_key(id) && tokens_of(s, bs@)[id].1.contains(operator),
        listed_once(answers),
        listed_in_order(answers),
{
    let tokens = tokens_of(s, bs@);
    let wanted = |id: u64| tokens.contains_key(id) && tokens[id].1.contains(operator);
    assert forall|k: int| 0 <= k < answers.len() implies in_window(
        wanted,
        #[trigger] cursors[k],
        answers[k],
    ) by {
        lemma_cursor_list_operator_tokens(s, bs, operator, limit, cursors, answers, k);
    }
    lemma_windows(wanted, cursors, answers);
}

proof fn lemma_cursor_list_operator_tokens(
    s: NFTState,
    bs: Store,
    operator: ActorID,
    limit: u64,
    cursors: Seq<Option<Cursor>>,
    answers: Seq<Listed>,
    k: int,
)
    requires
        complete(s, bs@),
        followed(cursors, answers),
        0 <= k < answers.len(),
        forall|i: int|
            0 <= i < answers.len() ==> call_ensures(
                NFTState::list_operator_tokens,
                (&s, &bs, operator, #[trigger] cursors[i], limit),
                answers[i],
            ),
    ensures
        in_window(
            |id: u64| tokens_of(s, bs@).contains_key(id) && tokens_of(s, bs@)[id].1.contains(operator),
            cursors[k],
            answers[k],
        ),
        answers[k]->Ok_0.1 is Some ==> answers[k]->Ok_0.1->0.root@ == s.token_data@ && tokens_of(
            s,
            bs@,
        ).contains_key(answers[k]->Ok_0.1->0.index),
    decreases k,
{
    if k > 0 {
        lemma_cursor_list_operator_tokens(s, bs, operator, limit, cursors, answers, k - 1);
        assert(cursors[k] == answers[k - 1]->Ok_0.1);
    }
    a_page_holds_the_operators_tokens(s, bs, operator, cursors[k], limit, answers[k]);
}

/// A page of the tokens holds just those from the cursor to the next one, as many as the limit says where
/// there are more.
pub proof fn a_page_holds_the_next_tokens(
    s: NFTState,
    bs: Store,
    cursor: Option<Cursor>,
    limit: u64,
    r: Listed,
)
    requires
        complete(s, bs@),
        cursor is Some ==> cursor->0.root@ == s.token_data@ && (cursor->0.index == 0 || tokens_of(
            s,
            bs@,
        ).contains_key(cursor->0.index)),
        call_ensures(NFTState::list_tokens, (&s, &bs, cursor, limit), r),
    ensures
        r is Ok,
        bits::held_bits(r->Ok_0.0).finite() && bits::held_bits(r->Ok_0.0).len() <= limit,
        forall|id: TokenID| #[trigger]
            bits::held_bits(r->Ok_0.0).contains(id) <==> {
                &&& tokens_of(s, bs@).contains_key(id)
                &&& stands_at(cursor) <= id
                &&& r->Ok_0.1 is Some ==> id < r->Ok_0.1->0.index
            },
        r->Ok_0.1 is Some ==> {
            let next = r->Ok_0.1->0;
            &&& next.root@ == s.token_data@
            &&& tokens_of(s, bs@).contains_key(next.index)
            &&& stands_at(cursor) <= next.index
            &&& limit > 0 ==> stands_at(cursor) < next.index
            &&& tokens_of(s, bs@).dom().filter(
                |id: TokenID| stands_at(cursor) <= id < next.index,
            ).len() == limit
        },
{
    let tokens = tokens_of(s, bs@);
    assert(s.collection(bs@)->0.held.tokens == tokens);
    let ids = bits::held_bits(r->Ok_0.0);
    let start = stands_at(cursor) as u64;
    let next = state::next_of(r->Ok_0.1);
    let whole = choose|whole: Set<TokenID>| #[trigger]
        state::page(tokens, start, limit, whole, next) && ids == whole.filter(
            |id: TokenID| Filter::All.keeps(tokens[id]),
        );
    vstd::set_lib::lemma_len_subset(ids, whole);
    if r->Ok_0.1 is Some {
        let last = r->Ok_0.1->0;
        let between = tokens.dom().filter(|id: TokenID| stands_at(cursor) <= id < last.index);
        assert(between =~= whole);
        if limit > 0 && start == last.index {
            assert(whole =~= Set::empty());
        }
    }
}

/// The pages of the tokens, followed to the end, hold each token once and no other number.
pub proof fn the_pages_hold_all_tokens(
    s: NFTState,
    bs: Store,
    limit: u64,
    cursors: Seq<Option<Cursor>>,
    answers: Seq<Listed>,
)
    requires
        complete(s, bs@),
        followed(cursors, answers),
        forall|i: int|
            0 <= i < answers.len() ==> call_ensures(
                NFTState::list_tokens,
                (&s, &bs, #[trigger] cursors[i], limit),
                answers[i],
            ),
    ensures
        forall|id: TokenID| #[trigger]
            listed(answers, id) <==> tokens_of(s, bs@).contains_key(id),
        listed_once(answers),
        listed_in_order(answers),
{
    let tokens = tokens_of(s, bs@);
    let wanted = |id: u64| tokens.contains_key(id);
    assert forall|k: int| 0 <= k < answers.len() implies in_window(
        wanted,
        #[trigger] cursors[k],
        answers[k],
    ) by {
        lemma_cursor_list_tokens(s, bs, limit, cursors, answers, k);
    }
    lemma_windows(wanted, cursors, answers);
}

proof fn lemma_cursor_list_tokens(
    s: NFTState,
    bs: Store,
    limit: u64,
    cursors: Seq<Option<Cursor>>,
    answers: Seq<Listed>,
    k: int,
)
    requires
        complete(s, bs@),
        followed(cursors, answers),
        0 <= k < answers.len(),
        forall|i: int|
            0 <= i < answers.len() ==> call_ensures(
                NFTState::list_tokens,
                (&s, &bs, #[trigger] cursors[i], limit),
                answers[i],
            ),
    ensures
        in_window(
            |id: u64| tokens_of(s, bs@).contains_key(id),
            cursors[k],
            answers[k],
        ),
        answers[k]->Ok_0.1 is Some ==> answers[k]->Ok_0.1->0.root@ == s.token_data@ && tokens_of(
            s,
            bs@,
        ).contains_key(answers[k]->Ok_0.1->0.index),
    decreases k,
{
    if k > 0 {
        lemma_cursor_list_tokens(s, bs, limit, cursors, answers, k - 1);
        assert(cursors[k] == answers[k - 1]->Ok_0.1);
    }
    a_page_holds_the_next_tokens(s, bs, cursors[k], limit, answers[k]);
}

/// A number is in a page of an owner's tokens only where its owner is read back as that actor.
pub proof fn a_listed_token_is_the_owners(
    s: NFTState,
    bs: Store,
    owner: ActorID,
    cursor: Option<Cursor>,
    limit: u64,
    r: Listed,
    id: TokenID,
    read: Result<ActorID, StateError>,
)
    requires
        complete(s, bs@),
        s.collection(bs@)->0.regular(),
        cursor is Some ==> cursor->0.root@ == s.token_data@ && (cursor->0.index == 0 || tokens_of(
            s,
            bs@,
        ).contains_key(cursor->0.index)),
        call_ensures(NFTState::list_owned_tokens, (&s, &bs, owner, cursor, limit), r),
        call_ensures(NFTState::get_owner, (&s, &bs, id), read),
        bits::held_bits(r->Ok_0.0).contains(id),
    ensures
        read is Ok,
        read->Ok_0 == owner,
{
    a_page_holds_the_owners_tokens(s, bs, owner, cursor, limit, r);
}

/// A cursor that was made for other tokens than those that are there now is refused by the listings.
pub proof fn a_stale_cursor_is_refused(
    s: NFTState,
    bs: Store,
    actor: ActorID,
    id: TokenID,
    cursor: Option<Cursor>,
    limit: u64,
    all: Listed,
    owned: Listed,
    operated: Listed,
    operators: Listed,
)
    requires
        cursor is Some && cursor->0.root@ != s.token_data@,
        call_ensures(NFTState::list_tokens, (&s, &bs, cursor, limit), all),
        call_ensures(NFTState::list_owned_tokens, (&s, &bs, actor, cursor, limit), owned),
        call_ensures(NFTState::list_operator_tokens, (&s, &bs, actor, cursor, limit), operated),
        call_ensures(NFTState::list_token_operators, (&s, &bs, id, cursor, limit), operators),
    ensures
        all is Err && all->Err_0 is InvalidCursor,
        owned is Err && owned->Err_0 is InvalidCursor,
        operated is Err && operated->Err_0 is InvalidCursor,
        operators is Err && operators->Err_0 is InvalidCursor,
{
}

/// Pages of which each shows members at the places between two cursors are pages of a list that was
/// read through.
proof fn lemma_read_through(
    members: Set<ActorID>,
    limit: u64,
    cursors: Seq<Option<Cursor>>,
    answers: Seq<Listed>,
)
    requires
        limit >= 1,
        followed(cursors, answers),
        forall|i: int|
            0 <= i < answers.len() ==> stands_at(#[trigger] cursors[i]) + limit <= u64::MAX
                && answers[i] is Ok && state::shows_members(
                members,
                state::start_of(cursors[i]),
                limit,
                bits::held_bits(answers[i]->Ok_0.0),
                state::next_of(answers[i]->Ok_0.1),
            ),
    ensures
        forall|x: ActorID| #[trigger] listed(answers, x) <==> members.contains(x),
        listed_once(answers),
        listed_in_order(answers),
        forall|i: int|
            0 <= i < answers.len() - 1 ==> bits::held_bits(
                (#[trigger] answers[i])->Ok_0.0,
            ).len() == limit,
{
    let starts = Seq::new(answers.len(), |i: int| state::start_of(cursors[i]));
    let pages = Seq::new(answers.len(), |i: int| bits::held_bits(answers[i]->Ok_0.0));
    assert forall|i: int| 0 <= i < pages.len() implies starts[i] + limit <= u64::MAX
        && state::shows_members(
        members,
        #[trigger] starts[i],
        limit,
        pages[i],
        if i + 1 < pages.len() {
            Some(starts[i + 1])
        } else {
            None
        },
    ) by {
        assert(stands_at(cursors[i]) + limit <= u64::MAX);
        if i + 1 < pages.len() {
            assert(cursors[i + 1] == answers[(i + 1) - 1]->Ok_0.1);
        } else {
            assert(answers.last() == answers[i]);
        }
    }
    histories::pages_show_everyone_once(members, limit, starts, pages);
    assert forall|x: ActorID| #[trigger] listed(answers, x) <==> members.contains(x) by {
        if members.contains(x) {
            let i = choose|i: int| 0 <= i < pages.len() && #[trigger] pages[i].contains(x);
            assert(answers[i] is Ok) by {
                assert(stands_at(cursors[i]) + limit <= u64::MAX);
            }
        }
        if listed(answers, x) {
            let i = choose|i: int|
                0 <= i < answers.len() && (#[trigger] answers[i]) is Ok && bits::held_bits(
                    answers[i]->Ok_0.0,
                ).contains(x);
            assert(pages[i].contains(x));
        }
    }
    assert forall|i: int, j: int, x: u64|
        0 <= i < j < answers.len() && bits::held_bits(
            (#[trigger] answers[i])->Ok_0.0,
        ).contains(x) implies !(#[trigger] bits::held_bits(
        (#[trigger] answers[j])->Ok_0.0,
    ).contains(x)) by {
        assert(pages[i].contains(x));
        assert(!pages[j].contains(x));
    }
    assert forall|i: int, j: int, x: u64, y: u64|
        0 <= i < j < answers.len() && #[trigger] bits::held_bits(
            (#[trigger] answers[i])->Ok_0.0,
        ).contains(x) && #[trigger] bits::held_bits(
            (#[trigger] answers[j])->Ok_0.0,
        ).contains(y) implies x < y by {
        assert(pages[i].contains(x));
        assert(pages[j].contains(y));
    }
    assert forall|i: int| 0 <= i < answers.len() - 1 implies bits::held_bits(
        (#[trigger] answers[i])->Ok_0.0,
    ).len() == limit by {
        assert(pages[i].len() == limit);
    }
}

/// The pages of a token's operators, followed to the end, hold each of them once and nobody else. All but
/// the last are full.
pub proof fn the_pages_hold_all_operators_of_the_token(
    s: NFTState,
    bs: Store,
    id: TokenID,
    limit: u64,
    cursors: Seq<Option<Cursor>>,
    answers: Seq<Listed>,
)
    requires
        complete(s, bs@),
        tokens_of(s, bs@).contains_key(id),
        id < u64::MAX,
        limit >= 1,
        followed(cursors, answers),
        forall|i: int|
            0 <= i < answers.len() ==> stands_at(#[trigger] cursors[i]) + limit <= u64::MAX
                && call_ensures(
                NFTState::list_token_operators,
                (&s, &bs, id, cursors[i], limit),
                answers[i],
            ),
    ensures
        forall|x: ActorID| #[trigger]
            listed(answers, x) <==> tokens_of(s, bs@)[id].1.contains(x),
        listed_once(answers),
        listed_in_order(answers),
        forall|i: int|
            0 <= i < answers.len() - 1 ==> bits::held_bits(
                (#[trigger] answers[i])->Ok_0.0,
            ).len() == limit,
{
    let members = tokens_of(s, bs@)[id].1;
    assert forall|i: int| 0 <= i < answers.len() implies stands_at(#[trigger] cursors[i]) + limit
        <= u64::MAX && answers[i] is Ok && state::shows_members(
        members,
        state::start_of(cursors[i]),
        limit,
        bits::held_bits(answers[i]->Ok_0.0),
        state::next_of(answers[i]->Ok_0.1),
    ) by {
        if i > 0 {
            assert(cursors[i] == answers[i - 1]->Ok_0.1);
            assert(stands_at(cursors[i - 1]) + limit <= u64::MAX);
        }
    }
    lemma_read_through(members, limit, cursors, answers);
}

/// The pages of an account's delegates, followed to the end, hold each of them once and nobody else. All
/// but the last are full.
pub proof fn the_pages_hold_all_delegates_of_the_account(
    s: NFTState,
    bs: Store,
    actor: ActorID,
    limit: u64,
    cursors: Seq<Option<Cursor>>,
    answers: Seq<Listed>,
)
    requires
        complete(s, bs@),
        limit >= 1,
        followed(cursors, answers),
        forall|i: int|
            0 <= i < answers.len() ==> stands_at(#[trigger] cursors[i]) + limit <= u64::MAX
                && call_ensures(
                NFTState::list_account_operators,
                (&s, &bs, actor, cursors[i], limit),
                answers[i],
            ),
    ensures
        forall|x: ActorID| #[trigger]
            listed(answers, x) <==> delegates(owners_of(s, bs@), actor).contains(x),
        listed_once(answers),
        listed_in_order(answers),
        forall|i: int|
            0 <= i < answers.len() - 1 ==> bits::held_bits(
                (#[trigger] answers[i])->Ok_0.0,
            ).len() == limit,
{
    let owners = owners_of(s, bs@);
    assert(s.collection(bs@)->0.held.owners == owners);
    if owners.contains_key(keys::key_of(actor)) {
        assert forall|i: int| 0 <= i < answers.len() implies stands_at(#[trigger] cursors[i])
            + limit <= u64::MAX && answers[i] is Ok && state::shows_members(
            delegates(owners, actor),
            state::start_of(cursors[i]),
            limit,
            bits::held_bits(answers[i]->Ok_0.0),
            state::next_of(answers[i]->Ok_0.1),
        ) by {}
        lemma_read_through(delegates(owners, actor), limit, cursors, answers);
    } else {
        assert(stands_at(cursors[0]) + limit <= u64::MAX);
        assert(answers.len() == 1) by {
            if answers.len() > 1 {
                assert(cursors[1] == answers[1 - 1]->Ok_0.1);
            }
        }
    }
}

} // verus!
