//! What the operations on the state of a token are for, said of what goes in and what comes out.
use vstd::prelude::*;

use crate::accounting;
use crate::accounting::{allowed, holding, holds_same, spendable, spends_same};
use crate::address::AddressView;
use crate::amount::TokenAmount;
use crate::bytes::{ActorID, Cid};
use crate::fil_fungible_token::state;
use crate::fil_fungible_token::state::{Books, StateError, StateInvariantError, TokenState};
use crate::ledger;
use crate::ledger::Account;
use crate::store;
use crate::store::Store;

verus! {

/// The books of a state in a store.
pub open spec fn books_in(state: TokenState, bs: Store) -> Books {
    state.ledger(bs@)->0
}

/// Changing a balance adds to it and returns the new one. The supply, the other balances and the
/// allowances stay. It is refused where the balance would be negative, with who has how much and the
/// change asked for, or too large to be kept. A refused change changes nothing.
pub proof fn a_balance_is_changed(
    s: &mut TokenState,
    bs: &mut Store,
    owner: ActorID,
    delta: &TokenAmount,
    r: Result<TokenAmount, StateError>,
)
    requires
        old(s).ledger(old(bs)@) is Some,
        call_ensures(TokenState::change_balance_by, (s, bs, owner, delta), r),
    ensures
        final(s).ledger(final(bs)@) is Some,
        ({
            let before = books_in(*old(s), *old(bs));
            let after = books_in(*final(s), *final(bs));
            let key = owner;
            let sum = holding(before, key) + delta@;
            if r is Ok {
                &&& after.supply == before.supply
                &&& holding(after, key) == sum
                &&& forall|k: ActorID| k != key ==> #[trigger] holding(after, k) == holding(before, k)
                &&& spends_same(before, after)
                &&& r->Ok_0@ == sum
            } else {
                &&& *final(s) == *old(s) && after == before
                &&& delta@ != 0
                &&& sum < 0 ==> r->Err_0 is InsufficientBalance
                    && r->Err_0->InsufficientBalance_owner == owner
                    && r->Err_0->InsufficientBalance_balance@ == holding(before, key)
                    && r->Err_0->InsufficientBalance_delta@ == delta@
                &&& sum >= 0 ==> !store::storable(sum)
            }
        }),
{
    accounting::changing_a_balance(
        old(s).ledger(old(bs)@)->0,
        owner,
        owner,
        delta@,
    );
}

/// Changing the supply adds to it and returns the new one; the trees stay. It is refused where the supply
/// would be negative, and then changes nothing.
pub proof fn the_supply_is_changed(
    s: &mut TokenState,
    delta: &TokenAmount,
    r: Result<TokenAmount, StateError>,
)
    requires
        call_ensures(TokenState::change_supply_by, (s, delta), r),
    ensures
        r is Ok == (old(s).supply@ + delta@ >= 0),
        final(s).balances == old(s).balances,
        final(s).allowances == old(s).allowances,
        r is Ok ==> final(s).supply@ == old(s).supply@ + delta@ && r->Ok_0@ == final(s).supply@,
        r is Err ==> *final(s) == *old(s) && r->Err_0 is NegativeTotalSupply
            && r->Err_0->NegativeTotalSupply_supply@ == old(s).supply@
            && r->Err_0->NegativeTotalSupply_delta@ == delta@,
{
}

/// Changing an allowance adds to it and stops at nothing, and returns the new one. All else stays. It is
/// refused only where the new one is too large to be kept, and then changes nothing.
pub proof fn an_allowance_is_changed(
    s: &mut TokenState,
    bs: &mut Store,
    owner: ActorID,
    operator: ActorID,
    delta: &TokenAmount,
    r: Result<TokenAmount, StateError>,
)
    requires
        old(s).ledger(old(bs)@) is Some,
        call_ensures(TokenState::change_allowance_by, (s, bs, owner, operator, delta), r),
    ensures
        final(s).ledger(final(bs)@) is Some,
        ({
            let before = books_in(*old(s), *old(bs));
            let after = books_in(*final(s), *final(bs));
            let (a, b) = (owner, operator);
            let sum = spendable(before, a, b) + delta@;
            let wanted = if delta@ != 0 && sum < 0 {
                0
            } else {
                sum
            };
            if r is Ok {
                &&& holds_same(before, after)
                &&& allowed(before, after, a, b, wanted)
                &&& r->Ok_0@ == wanted
            } else {
                *final(s) == *old(s) && after == before && !store::storable(wanted)
            }
        }),
{
    accounting::changing_an_allowance(
        old(s).ledger(old(bs)@)->0,
        owner,
        operator,
        delta@,
    );
}

/// Taking an allowance back leaves none and returns the old one. All else stays. It is not refused.
pub proof fn an_allowance_is_revoked(
    s: &mut TokenState,
    bs: &mut Store,
    owner: ActorID,
    operator: ActorID,
    r: Result<TokenAmount, StateError>,
)
    requires
        old(s).ledger(old(bs)@) is Some,
        call_ensures(TokenState::revoke_allowance, (s, bs, owner, operator), r),
    ensures
        r is Ok,
        final(s).ledger(final(bs)@) is Some,
        ({
            let before = books_in(*old(s), *old(bs));
            let after = books_in(*final(s), *final(bs));
            let (a, b) = (owner, operator);
            &&& holds_same(before, after)
            &&& allowed(before, after, a, b, 0)
            &&& r->Ok_0@ == spendable(before, a, b)
        }),
{
    accounting::revoking(
        old(s).ledger(old(bs)@)->0,
        owner,
        operator,
    );
}

/// Spending takes from the allowance that the owner gave the operator and returns what is left. All else
/// stays. It is refused where the allowance does not cover the amount or there is none, with who has how
/// much of whose tokens and the amount asked for, and then changes nothing.
pub proof fn an_allowance_is_spent(
    s: &mut TokenState,
    bs: &mut Store,
    operator: ActorID,
    owner: ActorID,
    amount: &TokenAmount,
    r: Result<TokenAmount, StateError>,
)
    requires
        old(s).ledger(old(bs)@) is Some,
        amount@ >= 0,
        call_ensures(TokenState::attempt_use_allowance, (s, bs, operator, owner, amount), r),
    ensures
        final(s).ledger(final(bs)@) is Some,
        ({
            let before = books_in(*old(s), *old(bs));
            let after = books_in(*final(s), *final(bs));
            let (a, b) = (owner, operator);
            let had = spendable(before, a, b);
            if r is Ok {
                &&& holds_same(before, after)
                &&& allowed(before, after, a, b, had - amount@)
                &&& r->Ok_0@ == had - amount@
                &&& amount@ > 0 ==> had >= amount@
                &&& owner != operator ==> had != 0
            } else {
                &&& *final(s) == *old(s) && after == before
                &&& had == 0 || had < amount@
                &&& r->Err_0 is InsufficientAllowance
                &&& r->Err_0->InsufficientAllowance_owner@ == AddressView::ID(owner)
                &&& r->Err_0->InsufficientAllowance_operator@ == AddressView::ID(operator)
                &&& r->Err_0->InsufficientAllowance_allowance@ == had
                &&& r->Err_0->InsufficientAllowance_delta@ == amount@
            }
        }),
{
    accounting::spending(
        old(s).ledger(old(bs)@)->0,
        Account { id: operator, key: operator },
        Account { id: owner, key: owner },
        amount@,
    );
}

/// What is read is what the books hold.
pub proof fn the_books_are_read(
    s: TokenState,
    bs: Store,
    owner: ActorID,
    operator: ActorID,
    balance: Result<TokenAmount, StateError>,
    allowance: Result<TokenAmount, StateError>,
)
    requires
        s.ledger(bs@) is Some,
        call_ensures(TokenState::get_balance, (&s, &bs, owner), balance),
        call_ensures(TokenState::get_allowance_between, (&s, &bs, owner, operator), allowance),
    ensures
        balance is Ok && balance->Ok_0@ == holding(books_in(s, bs), owner),
        allowance is Ok && allowance->Ok_0@ == spendable(
            books_in(s, bs),
            owner,
            operator,
        ),
{
    accounting::books_are_read(
        books_in(s, bs),
        owner,
        operator,
    );
}

/// A new state has no tokens: nobody has any, and nobody may spend any.
pub proof fn a_new_state_is_empty(bs: &mut Store, r: Result<TokenState, StateError>)
    requires
        call_ensures(TokenState::new, (bs,), r),
    ensures
        r is Ok,
        r->Ok_0.ledger(final(bs)@) is Some,
        books_in(r->Ok_0, *final(bs)).supply == 0,
        forall|k: ActorID| #[trigger] holding(books_in(r->Ok_0, *final(bs)), k) == 0,
        forall|a: ActorID, b: ActorID| #[trigger]
            spendable(books_in(r->Ok_0, *final(bs)), a, b) == 0,
{
}

/// A state that was saved is the state that is loaded again.
pub proof fn what_is_saved_is_loaded(
    s: TokenState,
    bs: &mut Store,
    saved: Result<Cid, StateError>,
    loaded: Result<TokenState, StateError>,
)
    requires
        call_ensures(TokenState::save, (&s, bs), saved),
        saved is Ok,
        call_ensures(TokenState::load, (&*final(bs), &saved->Ok_0), loaded),
    ensures
        loaded is Ok,
        loaded->Ok_0.supply@ == s.supply@,
        loaded->Ok_0.balances@ == s.balances@,
        loaded->Ok_0.allowances@ == s.allowances@,
{
}

/// The rules of a token, entry by entry: nothing is negative and no zero is kept, balances add up to the
/// supply, and nobody has an allowance on their own tokens or an entry without allowances.
pub open spec fn in_order(books: Books) -> bool {
    &&& books.supply >= 0
    &&& books.balances.dom().finite()
    &&& forall|k: ActorID| #[trigger] books.balances.contains_key(k) ==> books.balances[k] > 0
    &&& ledger::total(books.balances) == books.supply
    &&& forall|k: ActorID| #[trigger]
        books.allowances.contains_key(k) ==> books.allowances[k].dom() != Set::<ActorID>::empty()
    &&& forall|k: ActorID, j: ActorID|
        books.allowances.contains_key(k) && #[trigger] books.allowances[k].contains_key(j) ==> j
            != k && books.allowances[k][j] > 0
}

/// Books are sound just where the rules hold, entry by entry.
pub proof fn rules_of_sound_books(books: Books)
    ensures
        state::sound_books(books) == in_order(books),
{
    let id_of = |id: ActorID| Some(id);
    assert forall|k: ActorID| #[trigger] books.allowances.contains_key(k) implies (
    books.allowances[k] == Map::<ActorID, int>::empty()) == (books.allowances[k].dom() == Set::<
        ActorID,
    >::empty()) by {
        if books.allowances[k].dom() == Set::<ActorID>::empty() {
            assert(books.allowances[k] =~= Map::<ActorID, int>::empty());
        }
    }
    if in_order(books) {
        assert(books.balances_sound(1, id_of));
        assert(books.allowances_sound(id_of));
        assert(state::sound_books(books));
    }
    if state::sound_books(books) {
        assert(in_order(books));
    }
}

/// A check of the rules succeeds just where they hold. Where it fails, it says what is wrong: an amount
/// that it names is that of an entry, and breaks the rule.
pub proof fn a_check_finds_what_is_wrong(
    s: TokenState,
    bs: Store,
    r: Result<(), StateInvariantError>,
)
    requires
        s.ledger(bs@) is Some,
        call_ensures(TokenState::check_invariants, (&s, &bs), r),
    ensures
        r is Ok == in_order(books_in(s, bs)),
        r is Err ==> match r->Err_0 {
            StateInvariantError::SupplyNegative(supply) => supply@ < 0 && supply@ == books_in(
                s,
                bs,
            ).supply,
            StateInvariantError::BalanceNegative { account, balance } => balance@ < 0 && books_in(
                s,
                bs,
            ).balances.contains_key(account) && books_in(s, bs).balances[account] == balance@,
            StateInvariantError::ExplicitZeroBalance(account) => books_in(
                s,
                bs,
            ).balances.contains_key(account) && books_in(s, bs).balances[account] == 0,
            StateInvariantError::BalanceSupplyMismatch { supply, balance_sum } => supply@
                == books_in(s, bs).supply && balance_sum@ == ledger::total(
                books_in(s, bs).balances,
            ) && supply@ != balance_sum@,
            _ => true,
        },
{
    rules_of_sound_books(books_in(s, bs));
}

} // verus!
