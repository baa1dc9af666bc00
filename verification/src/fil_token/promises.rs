//! What the operations of the helper are for, said of what goes in and what comes out.
use vstd::prelude::*;

use crate::accounting;
use crate::accounting::{
    added, allowed, holding, holds_same, spendable, spends_same,
};
use crate::address::AddressView;
use crate::amount::TokenAmount;
use crate::bytes::{ActorID, Cid};
use crate::fil_fungible_token::state::{Books, StateError};
use crate::fil_token::errors::{ActorError, ActorFault};
use crate::fil_token::helper;
use crate::fil_token::helper::TokenHelper;
use crate::fil_token::runtime::Runtime;
use crate::fil_token::state;
use crate::fil_token::state::TokenState;
use crate::ledger;
use crate::ledger::StateFault;
use crate::store;
use crate::store::Store;

verus! {

/// The books of a token.
pub open spec fn books_of<R: Runtime>(token: TokenHelper<R>) -> Books {
    token.books()->0
}

/// Spending from an allowance leaves so much less of it and reports what is left. It is refused where
/// the allowance does not cover the value.
proof fn lemma_spending(books: Books, operator: ActorID, target: ActorID, value: int)
    requires
        value >= 0,
    ensures
        match state::spending(books, operator, target, value) {
            Ok((n, left)) => {
                &&& holds_same(books, n)
                &&& allowed(books, n, target, operator, spendable(books, target, operator) - value)
                &&& left == spendable(n, target, operator)
                &&& spendable(books, target, operator) >= value
            },
            Err(fault) => {
                ||| spendable(books, target, operator) < value && fault == (
                StateFault::InsufficientAllowance {
                    owner: AddressView::ID(target),
                    operator: AddressView::ID(operator),
                    allowance: spendable(books, target, operator),
                    delta: value,
                })
                ||| fault == StateFault::Storage && !store::storable(
                    spendable(books, target, operator) - value,
                )
            },
        },
{
    accounting::books_are_read(books, target, operator);
    accounting::changing_an_allowance(books, target, operator, -value);
}

/// A mint adds the amount to the holder and to the supply. No other account and no allowance changes. A
/// negative amount is refused, and a refused mint changes nothing.
pub proof fn a_mint_adds<R: Runtime>(
    tok: &mut TokenHelper<R>,
    holder: ActorID,
    value: TokenAmount,
    r: Result<(), ActorError>,
)
    requires
        old(tok).books() is Some,
        call_ensures(TokenHelper::<R>::mint, (tok, holder, value), r),
    ensures
        value@ < 0 ==> r is Err && r->Err_0@ == ActorFault::Arithmetic,
        r is Ok ==> final(tok).books() is Some && value@ >= 0 && added(
            books_of(*old(tok)),
            books_of(*final(tok)),
            holder,
            value@,
        ),
        r is Err ==> final(tok).token_state == old(tok).token_state,
        value@ >= 0 && holding(books_of(*old(tok)), holder) >= 0 && store::storable(
            holding(books_of(*old(tok)), holder) + value@,
        ) && store::storable(books_of(*old(tok)).supply + value@) ==> r is Ok,
{
    let l = old(tok).books()->0;
    accounting::issuing(l, helper::account(holder), value@);
    accounting::books_are_read(l, holder, holder);
    let m = l.with_balance(holder, l.balance(holder) + value@);
    assert(value@ > 0 ==> m.supply == l.supply);
}

/// A burn takes the amount from the target and from the supply, and returns what the target is left
/// with. An operator other than the target spends as much of an allowance, which has to cover it. No
/// other account and no other allowance changes. A refused burn changes nothing.
pub proof fn a_burn_takes_away<R: Runtime>(
    tok: &mut TokenHelper<R>,
    operator: ActorID,
    target: ActorID,
    value: TokenAmount,
    r: Result<TokenAmount, ActorError>,
)
    requires
        old(tok).books() is Some,
        call_ensures(TokenHelper::<R>::burn, (tok, operator, target, value), r),
    ensures
        value@ < 0 ==> r is Err && r->Err_0@ == ActorFault::Arithmetic,
        r is Err ==> final(tok).token_state == old(tok).token_state,
        r is Ok ==> {
            let before = books_of(*old(tok));
            let after = books_of(*final(tok));
            &&& final(tok).books() is Some
            &&& value@ >= 0
            &&& value@ > 0 ==> holding(before, target) >= value@
            &&& after.supply == before.supply - value@
            &&& holding(after, target) == holding(before, target) - value@
            &&& forall|k: ActorID| k != target ==> #[trigger] holding(after, k) == holding(before, k)
            &&& operator == target ==> spends_same(before, after)
            &&& operator != target ==> spendable(before, target, operator) >= value@ && allowed(
                before,
                after,
                target,
                operator,
                spendable(before, target, operator) - value@,
            )
            &&& r->Ok_0@ == holding(after, target)
        },
        ({
            let books = books_of(*old(tok));
            let had = spendable(books, target, operator);
            let left = holding(books, target) - value@;
            value@ >= 0 && left >= 0 && books.supply >= value@ && store::storable(left)
                && store::storable(books.supply - value@) && (operator == target || (had >= value@
                && store::storable(had - value@))) ==> r is Ok
        }),
{
    let l = old(tok).books()->0;
    if value@ >= 0 {
        if operator == target {
            accounting::issuing(l, helper::account(target), -value@);
        } else {
            lemma_spending(l, operator, target, value@);
            let spent = state::spending(l, operator, target, value@);
            if spent is Ok {
                let m = spent->Ok_0.0;
                accounting::issuing(m, helper::account(target), -value@);
                assert(holding(m, target) == holding(l, target));
                if ledger::issue(m, helper::account(target), -value@) is Ok {
                    let n = ledger::issue(m, helper::account(target), -value@)->Ok_0.0;
                    assert(holding(m, target) == holding(l, target));
                    assert forall|k: ActorID| k != target implies #[trigger] holding(n, k)
                        == holding(l, k) by {
                        assert(holding(m, k) == holding(l, k));
                    }
                    assert forall|a: ActorID, b: ActorID| a != target || b != operator implies
                        #[trigger] spendable(n, a, b) == spendable(l, a, b) by {
                        assert(spendable(m, a, b) == spendable(l, a, b));
                    }
                    assert(spendable(n, target, operator) == spendable(m, target, operator));
                }
            }
        }
    }
}

/// Raising an allowance adds to it and returns the new one. No other allowance, no balance and not the
/// supply changes. A negative amount is refused, and a refused change changes nothing.
pub proof fn raising_an_allowance_adds_to_it<R: Runtime>(
    tok: &mut TokenHelper<R>,
    owner: ActorID,
    spender: ActorID,
    delta: TokenAmount,
    r: Result<TokenAmount, ActorError>,
)
    requires
        old(tok).books() is Some,
        call_ensures(TokenHelper::<R>::increase_allowance, (tok, owner, spender, delta), r),
    ensures
        delta@ < 0 ==> r is Err && r->Err_0@ == ActorFault::Arithmetic,
        r is Err ==> final(tok).token_state == old(tok).token_state,
        r is Ok ==> {
            let before = books_of(*old(tok));
            let after = books_of(*final(tok));
            let had = spendable(before, owner, spender);
            &&& final(tok).books() is Some
            &&& delta@ >= 0
            &&& holds_same(before, after)
            &&& had + delta@ >= 0 || delta@ == 0 ==> allowed(
                before,
                after,
                owner,
                spender,
                had + delta@,
            )
            &&& r->Ok_0@ == spendable(after, owner, spender)
        },
        ({
            let books = books_of(*old(tok));
            let new = spendable(books, owner, spender) + delta@;
            delta@ >= 0 && store::storable(books.supply) && store::storable(if new < 0 {
                0
            } else {
                new
            }) ==> r is Ok
        }),
{
    accounting::changing_an_allowance(old(tok).books()->0, owner, spender, delta@);
}

/// Lowering an allowance takes from it down to nothing and returns the new one. No other allowance, no
/// balance and not the supply changes. A negative amount is refused, and a refused change changes
/// nothing.
pub proof fn lowering_an_allowance_takes_from_it<R: Runtime>(
    tok: &mut TokenHelper<R>,
    owner: ActorID,
    spender: ActorID,
    delta: TokenAmount,
    r: Result<TokenAmount, ActorError>,
)
    requires
        old(tok).books() is Some,
        call_ensures(TokenHelper::<R>::decrease_allowance, (tok, owner, spender, delta), r),
    ensures
        delta@ < 0 ==> r is Err && r->Err_0@ == ActorFault::Arithmetic,
        r is Err ==> final(tok).token_state == old(tok).token_state,
        r is Ok ==> {
            let before = books_of(*old(tok));
            let after = books_of(*final(tok));
            let had = spendable(before, owner, spender);
            &&& final(tok).books() is Some
            &&& delta@ >= 0
            &&& holds_same(before, after)
            &&& allowed(before, after, owner, spender, if had < delta@ && delta@ > 0 {
                0
            } else {
                had - delta@
            })
            &&& r->Ok_0@ == spendable(after, owner, spender)
        },
        ({
            let books = books_of(*old(tok));
            let new = spendable(books, owner, spender) - delta@;
            delta@ >= 0 && store::storable(books.supply) && store::storable(if new < 0 {
                0
            } else {
                new
            }) ==> r is Ok
        }),
{
    accounting::changing_an_allowance(old(tok).books()->0, owner, spender, -delta@);
}

/// Taking an allowance back leaves none. No other allowance, no balance and not the supply changes.
pub proof fn revoking_leaves_no_allowance<R: Runtime>(
    tok: &mut TokenHelper<R>,
    owner: ActorID,
    spender: ActorID,
    r: Result<(), ActorError>,
)
    requires
        old(tok).books() is Some,
        call_ensures(TokenHelper::<R>::revoke_allowance, (tok, owner, spender), r),
    ensures
        r is Err ==> final(tok).token_state == old(tok).token_state,
        r is Ok == store::storable(books_of(*old(tok)).supply),
        r is Ok ==> final(tok).books() is Some && holds_same(
            books_of(*old(tok)),
            books_of(*final(tok)),
        ) && allowed(books_of(*old(tok)), books_of(*final(tok)), owner, spender, 0),
{
    accounting::revoking(old(tok).books()->0, owner, spender);
}

/// What is read is what the books hold: balance, allowance and supply.
pub proof fn the_books_are_read<R: Runtime>(
    tok: TokenHelper<R>,
    owner: ActorID,
    spender: ActorID,
    balance: Result<TokenAmount, ActorError>,
    allowance: Result<TokenAmount, ActorError>,
    supply: TokenAmount,
)
    requires
        tok.books() is Some,
        call_ensures(TokenHelper::<R>::balance_of, (&tok, owner), balance),
        call_ensures(TokenHelper::<R>::allowance, (&tok, owner, spender), allowance),
        call_ensures(TokenHelper::<R>::total_supply, (&tok,), supply),
    ensures
        balance is Ok && balance->Ok_0@ == holding(books_of(tok), owner),
        allowance is Ok && allowance->Ok_0@ == spendable(books_of(tok), owner, spender),
        supply@ == books_of(tok).supply,
{
    accounting::books_are_read(books_of(tok), owner, spender);
}

/// A new state has no tokens: nobody holds any, and nobody may spend any.
pub proof fn a_new_state_is_empty<R: Runtime>(tok: &mut TokenHelper<R>, r: Result<Cid, ActorError>)
    requires
        call_ensures(TokenHelper::<R>::init_state, (tok,), r),
    ensures
        r is Ok && r->Ok_0@ == final(tok).token_state@,
        final(tok).books() is Some,
        books_of(*final(tok)).supply == 0,
        forall|k: ActorID| #[trigger] holding(books_of(*final(tok)), k) == 0,
        forall|a: ActorID, b: ActorID| #[trigger] spendable(books_of(*final(tok)), a, b) == 0,
{
}

/// What an operation on the state itself does to its books.
pub open spec fn state_books(state: TokenState, bs: Store) -> Books {
    state.ledger(bs@)->0
}

/// Adding to a balance adds to it and returns the new one. The supply, the other balances and the
/// allowances stay.
pub proof fn a_balance_is_raised(
    s: &mut TokenState,
    bs: &mut Store,
    actor: ActorID,
    value: &TokenAmount,
    r: Result<TokenAmount, StateError>,
)
    requires
        old(s).ledger(old(bs)@) is Some,
        value@ >= 0,
        call_ensures(TokenState::increase_balance, (s, bs, actor, value), r),
    ensures
        r is Err ==> *final(s) == *old(s),
        r is Ok ==> {
            let before = state_books(*old(s), *old(bs));
            let after = state_books(*final(s), *final(bs));
            &&& final(s).ledger(final(bs)@) is Some
            &&& after.supply == before.supply
            &&& holding(after, actor) == holding(before, actor) + value@
            &&& forall|k: ActorID| k != actor ==> #[trigger] holding(after, k) == holding(before, k)
            &&& spends_same(before, after)
            &&& r->Ok_0@ == holding(after, actor)
        },
{
    let l = old(s).ledger(old(bs)@)->0;
    accounting::changing_a_balance(l, actor, actor, value@);
}

/// Burning takes from balance and supply alike and returns the new balance; spending takes from the
/// allowance, which has to cover it, and returns what is left. All else stays.
pub proof fn burning_and_spending_take_away(
    s: &mut TokenState,
    bs: &mut Store,
    t: &mut TokenState,
    cs: &mut Store,
    operator: ActorID,
    target: ActorID,
    value: &TokenAmount,
    burnt: Result<TokenAmount, StateError>,
    spent: Result<TokenAmount, StateError>,
)
    requires
        old(s).ledger(old(bs)@) is Some,
        old(t).ledger(old(cs)@) is Some,
        value@ >= 0,
        call_ensures(TokenState::attempt_burn, (s, bs, target, value), burnt),
        call_ensures(TokenState::attempt_use_allowance, (t, cs, operator, target, value), spent),
    ensures
        burnt is Err ==> *final(s) == *old(s),
        burnt is Ok ==> {
            let before = state_books(*old(s), *old(bs));
            let after = state_books(*final(s), *final(bs));
            &&& final(s).ledger(final(bs)@) is Some
            &&& added(before, after, target, -value@)
            &&& value@ > 0 ==> holding(before, target) >= value@
            &&& burnt->Ok_0@ == holding(after, target)
        },
        spent is Err ==> *final(t) == *old(t),
        spent is Ok ==> {
            let before = state_books(*old(t), *old(cs));
            let after = state_books(*final(t), *final(cs));
            let had = spendable(before, target, operator);
            &&& final(t).ledger(final(cs)@) is Some
            &&& had >= value@
            &&& holds_same(before, after)
            &&& allowed(before, after, target, operator, had - value@)
            &&& spent->Ok_0@ == spendable(after, target, operator)
        },
{
    let l = old(s).ledger(old(bs)@)->0;
    accounting::issuing(l, helper::account(target), -value@);
    lemma_spending(old(t).ledger(old(cs)@)->0, operator, target, value@);
}

/// Adding to an allowance adds to it and returns the new one. All else stays.
pub proof fn an_allowance_is_raised(
    s: &mut TokenState,
    bs: &mut Store,
    owner: ActorID,
    spender: ActorID,
    value: &TokenAmount,
    r: Result<TokenAmount, StateError>,
)
    requires
        old(s).ledger(old(bs)@) is Some,
        value@ >= 0,
        call_ensures(TokenState::increase_allowance, (s, bs, owner, spender, value), r),
    ensures
        r is Err ==> *final(s) == *old(s),
        r is Ok ==> {
            let before = state_books(*old(s), *old(bs));
            let after = state_books(*final(s), *final(bs));
            let had = spendable(before, owner, spender);
            &&& final(s).ledger(final(bs)@) is Some
            &&& holds_same(before, after)
            &&& had + value@ >= 0 || value@ == 0 ==> allowed(
                before,
                after,
                owner,
                spender,
                had + value@,
            )
            &&& r->Ok_0@ == spendable(after, owner, spender)
        },
{
    accounting::changing_an_allowance(old(s).ledger(old(bs)@)->0, owner, spender, value@);
}

/// Taking from an allowance takes from it down to nothing and returns the new one. All else stays.
pub proof fn an_allowance_is_lowered(
    s: &mut TokenState,
    bs: &mut Store,
    owner: ActorID,
    spender: ActorID,
    value: &TokenAmount,
    r: Result<TokenAmount, StateError>,
)
    requires
        old(s).ledger(old(bs)@) is Some,
        value@ >= 0,
        call_ensures(TokenState::decrease_allowance, (s, bs, owner, spender, value), r),
    ensures
        r is Err ==> *final(s) == *old(s),
        r is Ok ==> {
            let before = state_books(*old(s), *old(bs));
            let after = state_books(*final(s), *final(bs));
            let had = spendable(before, owner, spender);
            &&& final(s).ledger(final(bs)@) is Some
            &&& holds_same(before, after)
            &&& allowed(before, after, owner, spender, if had < value@ && value@ > 0 {
                0
            } else {
                had - value@
            })
            &&& r->Ok_0@ == spendable(after, owner, spender)
        },
{
    accounting::changing_an_allowance(old(s).ledger(old(bs)@)->0, owner, spender, -value@);
}

/// Taking an allowance back leaves none, and all else stays.
pub proof fn an_allowance_is_revoked(
    s: &mut TokenState,
    bs: &mut Store,
    owner: ActorID,
    spender: ActorID,
    r: Result<(), StateError>,
)
    requires
        old(s).ledger(old(bs)@) is Some,
        call_ensures(TokenState::revoke_allowance, (s, bs, owner, spender), r),
    ensures
        r is Ok,
        final(s).ledger(final(bs)@) is Some,
        holds_same(state_books(*old(s), *old(bs)), state_books(*final(s), *final(bs))),
        allowed(
            state_books(*old(s), *old(bs)),
            state_books(*final(s), *final(bs)),
            owner,
            spender,
            0,
        ),
{
    accounting::revoking(old(s).ledger(old(bs)@)->0, owner, spender);
}

/// A state that was saved is the state that is loaded again.
pub proof fn what_is_saved_is_loaded(
    s: TokenState,
    bs: &mut Store,
    saved: Result<Cid, StateError>,
    loaded: Result<TokenState, StateError>,
)
    requires
        call_ensures(TokenState::save, (&s, bs), saved),
        saved is Ok,
        call_ensures(TokenState::load, (&*final(bs), &saved->Ok_0), loaded),
    ensures
        loaded is Ok,
        loaded->Ok_0.supply@ == s.supply@,
        loaded->Ok_0.balances@ == s.balances@,
        loaded->Ok_0.allowances@ == s.allowances@,
{
}

/// Adding to the supply adds to it and returns the new one; the trees stay.
pub proof fn the_supply_is_raised(s: &mut TokenState, value: &TokenAmount, r: TokenAmount)
    requires
        value@ >= 0,
        call_ensures(TokenState::increase_supply, (s, value), r),
    ensures
        final(s).supply@ == old(s).supply@ + value@,
        r@ == final(s).supply@,
        final(s).balances == old(s).balances,
        final(s).allowances == old(s).allowances,
{
}

/// What is read of a state is what its books hold.
pub proof fn a_state_is_read(
    s: TokenState,
    bs: Store,
    owner: ActorID,
    spender: ActorID,
    balance: Result<TokenAmount, StateError>,
    allowance: Result<TokenAmount, StateError>,
)
    requires
        s.ledger(bs@) is Some,
        call_ensures(TokenState::get_balance, (&s, &bs, owner), balance),
        call_ensures(TokenState::get_allowance_between, (&s, &bs, owner, spender), allowance),
    ensures
        balance is Ok && balance->Ok_0@ == holding(state_books(s, bs), owner),
        allowance is Ok && allowance->Ok_0@ == spendable(state_books(s, bs), owner, spender),
{
    accounting::books_are_read(state_books(s, bs), owner, spender);
}

} // verus!
