//! What the operations on the state of a token are for, said of what goes in and what comes out.
use fvm_ipld_hamt::Error as HamtError;
use vstd::prelude::*;

use crate::accounting;
use crate::accounting::{allowed, holding, holds_same, spendable, spends_same};
use crate::address::AddressView;
use crate::amount::TokenAmount;
use crate::bytes::{ActorID, Cid};
use crate::frc46_token::state;
use crate::frc46_token::state::{BalanceMap, Books, StateError, StateInvariantError, StateSummary, TokenState};
use crate::keys;
use crate::keys::BytesKey;
use crate::ledger;
use crate::ledger::Account;
use crate::store;
use crate::store::Store;

verus! {

/// The books of a state in a store.
pub open spec fn books_in(state: TokenState, bs: Store) -> Books {
    state.ledger(bs@)->0
}

/// Changing a balance adds to it and returns the new one. The supply, the other balances and the
/// allowances stay. It is refused where the balance would be negative, with who has how much and the
/// change asked for, or too large to be kept. A refused change changes nothing.
pub proof fn a_balance_is_changed(
    s: &mut TokenState,
    bs: &mut Store,
    owner: ActorID,
    delta: &TokenAmount,
    r: Result<TokenAmount, StateError>,
)
    requires
        old(s).ledger(old(bs)@) is Some,
        call_ensures(TokenState::change_balance_by, (s, bs, owner, delta), r),
    ensures
        final(s).ledger(final(bs)@) is Some,
        ({
            let before = books_in(*old(s), *old(bs));
            let after = books_in(*final(s), *final(bs));
            let key = keys::key_of(owner);
            let sum = holding(before, key) + delta@;
            if r is Ok {
                &&& after.supply == before.supply
                &&& holding(after, key) == sum
                &&& forall|k: Seq<u8>| k != key ==> #[trigger] holding(after, k) == holding(before, k)
                &&& spends_same(before, after)
                &&& r->Ok_0@ == sum
            } else {
                &&& *final(s) == *old(s) && after == before
                &&& delta@ != 0
                &&& sum < 0 ==> r->Err_0 is InsufficientBalance
                    && r->Err_0->InsufficientBalance_owner == owner
                    && r->Err_0->InsufficientBalance_balance@ == holding(before, key)
                    && r->Err_0->InsufficientBalance_delta@ == delta@
                &&& sum >= 0 ==> !store::storable(sum)
            }
        }),
{
    accounting::changing_a_balance(
        old(s).ledger(old(bs)@)->0,
        owner,
        keys::key_of(owner),
        delta@,
    );
}

/// Setting a balance sets it and returns the old one. The supply, the other balances and the allowances
/// stay. It is refused where it is negative or too large to be kept, and then changes nothing.
pub proof fn a_balance_is_set(
    s: &mut TokenState,
    bs: &mut Store,
    owner: ActorID,
    balance: &TokenAmount,
    r: Result<TokenAmount, StateError>,
)
    requires
        old(s).ledger(old(bs)@) is Some,
        call_ensures(TokenState::set_balance, (s, bs, owner, balance), r),
    ensures
        final(s).ledger(final(bs)@) is Some,
        r is Ok == (balance@ >= 0 && store::storable(balance@)),
        ({
            let before = books_in(*old(s), *old(bs));
            let after = books_in(*final(s), *final(bs));
            let key = keys::key_of(owner);
            if r is Ok {
                &&& after.supply == before.supply
                &&& holding(after, key) == balance@
                &&& forall|k: Seq<u8>| k != key ==> #[trigger] holding(after, k) == holding(before, k)
                &&& spends_same(before, after)
                &&& r->Ok_0@ == holding(before, key)
            } else {
                &&& *final(s) == *old(s) && after == before
                &&& balance@ < 0 ==> r->Err_0 is NegativeBalance
                    && r->Err_0->NegativeBalance_amount@ == balance@
                    && r->Err_0->NegativeBalance_owner == owner
            }
        }),
{
    accounting::putting_a_balance(
        old(s).ledger(old(bs)@)->0,
        owner,
        keys::key_of(owner),
        balance@,
    );
}

/// Setting an allowance sets it and returns the old one. All else stays. It is refused where it is
/// negative or too large to be kept, and then changes nothing.
pub proof fn an_allowance_is_set(
    s: &mut TokenState,
    bs: &mut Store,
    owner: ActorID,
    operator: ActorID,
    amount: &TokenAmount,
    r: Result<TokenAmount, StateError>,
)
    requires
        old(s).ledger(old(bs)@) is Some,
        call_ensures(TokenState::set_allowance, (s, bs, owner, operator, amount), r),
    ensures
        final(s).ledger(final(bs)@) is Some,
        r is Ok == (amount@ >= 0 && store::storable(amount@)),
        ({
            let before = books_in(*old(s), *old(bs));
            let after = books_in(*final(s), *final(bs));
            let (a, b) = (keys::key_of(owner), keys::key_of(operator));
            if r is Ok {
                &&& holds_same(before, after)
                &&& allowed(before, after, a, b, amount@)
                &&& r->Ok_0@ == spendable(before, a, b)
            } else {
                &&& *final(s) == *old(s) && after == before
                &&& amount@ < 0 ==> r->Err_0 is NegativeAllowance
                    && r->Err_0->NegativeAllowance_amount@ == amount@
                    && r->Err_0->NegativeAllowance_owner == owner
                    && r->Err_0->NegativeAllowance_operator == operator
            }
        }),
{
    accounting::setting_an_allowance(
        old(s).ledger(old(bs)@)->0,
        Account { id: owner, key: keys::key_of(owner) },
        Account { id: operator, key: keys::key_of(operator) },
        amount@,
    );
}

/// Changing the supply adds to it and returns the new one; the trees stay. It is refused where the supply
/// would be negative, and then changes nothing.
pub proof fn the_supply_is_changed(
    s: &mut TokenState,
    delta: &TokenAmount,
    r: Result<TokenAmount, StateError>,
)
    requires
        call_ensures(TokenState::change_supply_by, (s, delta), r),
    ensures
        r is Ok == (old(s).supply@ + delta@ >= 0),
        final(s).balances == old(s).balances,
        final(s).allowances == old(s).allowances,
        r is Ok ==> final(s).supply@ == old(s).supply@ + delta@ && r->Ok_0@ == final(s).supply@,
        r is Err ==> *final(s) == *old(s) && r->Err_0 is NegativeTotalSupply
            && r->Err_0->NegativeTotalSupply_supply@ == old(s).supply@
            && r->Err_0->NegativeTotalSupply_delta@ == delta@,
{
}

/// Changing an allowance adds to it and stops at nothing, and returns the new one. All else stays. It is
/// refused only where the new one is too large to be kept, and then changes nothing.
pub proof fn an_allowance_is_changed(
    s: &mut TokenState,
    bs: &mut Store,
    owner: ActorID,
    operator: ActorID,
    delta: &TokenAmount,
    r: Result<TokenAmount, StateError>,
)
    requires
        old(s).ledger(old(bs)@) is Some,
        call_ensures(TokenState::change_allowance_by, (s, bs, owner, operator, delta), r),
    ensures
        final(s).ledger(final(bs)@) is Some,
        ({
            let before = books_in(*old(s), *old(bs));
            let after = books_in(*final(s), *final(bs));
            let (a, b) = (keys::key_of(owner), keys::key_of(operator));
            let sum = spendable(before, a, b) + delta@;
            let wanted = if delta@ != 0 && sum < 0 {
                0
            } else {
                sum
            };
            if r is Ok {
                &&& holds_same(before, after)
                &&& allowed(before, after, a, b, wanted)
                &&& r->Ok_0@ == wanted
            } else {
                *final(s) == *old(s) && after == before && !store::storable(wanted)
            }
        }),
{
    accounting::changing_an_allowance(
        old(s).ledger(old(bs)@)->0,
        keys::key_of(owner),
        keys::key_of(operator),
        delta@,
    );
}

/// Taking an allowance back leaves none and returns the old one. All else stays. It is not refused.
pub proof fn an_allowance_is_revoked(
    s: &mut TokenState,
    bs: &mut Store,
    owner: ActorID,
    operator: ActorID,
    r: Result<TokenAmount, StateError>,
)
    requires
        old(s).ledger(old(bs)@) is Some,
        call_ensures(TokenState::revoke_allowance, (s, bs, owner, operator), r),
    ensures
        r is Ok,
        final(s).ledger(final(bs)@) is Some,
        ({
            let before = books_in(*old(s), *old(bs));
            let after = books_in(*final(s), *final(bs));
            let (a, b) = (keys::key_of(owner), keys::key_of(operator));
            &&& holds_same(before, after)
            &&& allowed(before, after, a, b, 0)
            &&& r->Ok_0@ == spendable(before, a, b)
        }),
{
    accounting::revoking(
        old(s).ledger(old(bs)@)->0,
        keys::key_of(owner),
        keys::key_of(operator),
    );
}

/// Spending takes from the allowance that the owner gave the operator and returns what is left. All else
/// stays. It is refused where the allowance does not cover the amount or there is none, with who has how
/// much of whose tokens and the amount asked for, and then changes nothing.
pub proof fn an_allowance_is_spent(
    s: &mut TokenState,
    bs: &mut Store,
    operator: ActorID,
    owner: ActorID,
    amount: &TokenAmount,
    r: Result<TokenAmount, StateError>,
)
    requires
        old(s).ledger(old(bs)@) is Some,
        amount@ >= 0,
        call_ensures(TokenState::attempt_use_allowance, (s, bs, operator, owner, amount), r),
    ensures
        final(s).ledger(final(bs)@) is Some,
        ({
            let before = books_in(*old(s), *old(bs));
            let after = books_in(*final(s), *final(bs));
            let (a, b) = (keys::key_of(owner), keys::key_of(operator));
            let had = spendable(before, a, b);
            if r is Ok {
                &&& holds_same(before, after)
                &&& allowed(before, after, a, b, had - amount@)
                &&& r->Ok_0@ == had - amount@
                &&& amount@ > 0 ==> had >= amount@
                &&& owner != operator ==> had != 0
            } else {
                &&& *final(s) == *old(s) && after == before
                &&& had == 0 || had < amount@
                &&& r->Err_0 is InsufficientAllowance
                &&& r->Err_0->InsufficientAllowance_owner@ == AddressView::ID(owner)
                &&& r->Err_0->InsufficientAllowance_operator@ == AddressView::ID(operator)
                &&& r->Err_0->InsufficientAllowance_allowance@ == had
                &&& r->Err_0->InsufficientAllowance_delta@ == amount@
            }
        }),
{
    keys::keys_differ(owner, operator);
    accounting::spending(
        old(s).ledger(old(bs)@)->0,
        Account { id: operator, key: keys::key_of(operator) },
        Account { id: owner, key: keys::key_of(owner) },
        amount@,
    );
}

/// What is read is what the books hold.
pub proof fn the_books_are_read(
    s: TokenState,
    bs: Store,
    owner: ActorID,
    operator: ActorID,
    balance: Result<TokenAmount, StateError>,
    allowance: Result<TokenAmount, StateError>,
)
    requires
        s.ledger(bs@) is Some,
        call_ensures(TokenState::get_balance, (&s, &bs, owner), balance),
        call_ensures(TokenState::get_allowance_between, (&s, &bs, owner, operator), allowance),
    ensures
        balance is Ok && balance->Ok_0@ == holding(books_in(s, bs), keys::key_of(owner)),
        allowance is Ok && allowance->Ok_0@ == spendable(
            books_in(s, bs),
            keys::key_of(owner),
            keys::key_of(operator),
        ),
{
    accounting::books_are_read(
        books_in(s, bs),
        keys::key_of(owner),
        keys::key_of(operator),
    );
}

/// A new state has no tokens: nobody has any, and nobody may spend any.
pub proof fn a_new_state_is_empty(bs: &mut Store, r: Result<TokenState, StateError>)
    requires
        call_ensures(TokenState::new, (bs,), r),
    ensures
        r is Ok,
        r->Ok_0.ledger(final(bs)@) is Some,
        books_in(r->Ok_0, *final(bs)).supply == 0,
        forall|k: Seq<u8>| #[trigger] holding(books_in(r->Ok_0, *final(bs)), k) == 0,
        forall|a: Seq<u8>, b: Seq<u8>| #[trigger]
            spendable(books_in(r->Ok_0, *final(bs)), a, b) == 0,
{
}

/// A state that was saved is the state that is loaded again.
pub proof fn what_is_saved_is_loaded(
    s: TokenState,
    bs: &mut Store,
    saved: Result<Cid, StateError>,
    loaded: Result<TokenState, StateError>,
)
    requires
        call_ensures(TokenState::save, (&s, bs), saved),
        saved is Ok,
        call_ensures(TokenState::load, (&*final(bs), &saved->Ok_0), loaded),
    ensures
        loaded is Ok,
        loaded->Ok_0.supply@ == s.supply@,
        loaded->Ok_0.balances@ == s.balances@,
        loaded->Ok_0.allowances@ == s.allowances@,
        loaded->Ok_0.hamt_bit_width == s.hamt_bit_width,
{
}

/// The rules of a token, entry by entry: nothing is negative and no zero is kept, every entry is an
/// actor's, balances are multiples of the granularity and add up to the supply, nobody has an allowance
/// on their own tokens or an entry without allowances, and every owner is found under their own key.
pub open spec fn in_order(books: Books, granularity: u64) -> bool {
    &&& books.supply >= 0
    &&& books.balances.dom().finite()
    &&& forall|k: Seq<u8>| #[trigger]
        books.balances.contains_key(k) ==> keys::id_of(k) is Some && books.balances[k] > 0
            && books.balances[k] % (granularity as int) == 0
    &&& ledger::total(books.balances) == books.supply
    &&& forall|k: Seq<u8>| #[trigger]
        books.allowances.contains_key(k) ==> keys::id_of(k) is Some && books.allowances[k].dom()
            != Set::<Seq<u8>>::empty() && books.allowances.contains_key(
            keys::key_of(keys::id_of(k)->0),
        )
    &&& forall|k: Seq<u8>, j: Seq<u8>|
        books.allowances.contains_key(k) && #[trigger] books.allowances[k].contains_key(j)
            ==> keys::id_of(j) is Some && keys::id_of(j) != keys::id_of(k)
            && books.allowances[k][j] > 0
}

/// Books are sound just where the rules hold, entry by entry.
pub proof fn rules_of_sound_books(books: Books, granularity: u64)
    ensures
        state::sound_books(books, granularity) == in_order(books, granularity),
{
    let id_of = |k: Seq<u8>| keys::id_of(k);
    assert forall|k: Seq<u8>| #[trigger] books.allowances.contains_key(k) implies (
    books.allowances[k] == Map::<Seq<u8>, int>::empty()) == (books.allowances[k].dom() == Set::<
        Seq<u8>,
    >::empty()) by {
        if books.allowances[k].dom() == Set::<Seq<u8>>::empty() {
            assert(books.allowances[k] =~= Map::<Seq<u8>, int>::empty());
        }
    }
    if in_order(books, granularity) {
        assert(books.balances_sound(granularity as int, id_of));
        assert(books.allowances_sound(id_of));
        assert(state::sound_books(books, granularity));
    }
    if state::sound_books(books, granularity) {
        assert(in_order(books, granularity));
    }
}

/// A check of the rules succeeds just where they hold, and shows the books. Where it fails, it says what
/// is wrong: an amount that it names is that of an entry, and breaks the rule.
pub proof fn a_check_finds_what_is_wrong(
    s: TokenState,
    bs: Store,
    granularity: u64,
    r: Result<StateSummary<'_>, StateInvariantError>,
)
    requires
        s.ledger(bs@) is Some,
        call_ensures(TokenState::check_invariants, (&s, &bs, granularity), r),
    ensures
        r is Ok == in_order(books_in(s, bs), granularity),
        r is Ok ==> r->Ok_0.total_supply@ == books_in(s, bs).supply && r->Ok_0.balance_map@ == Some(
            books_in(s, bs).balances,
        ),
        r is Err ==> match r->Err_0 {
            StateInvariantError::SupplyNegative(supply) => supply@ < 0 && supply@ == books_in(
                s,
                bs,
            ).supply,
            StateInvariantError::BalanceNegative { account, balance } => balance@ < 0 && exists|
                k: Seq<u8>,
            | #[trigger]
                books_in(s, bs).balances.contains_key(k) && keys::id_of(k) == Some(account)
                    && books_in(s, bs).balances[k] == balance@,
            StateInvariantError::ExplicitZeroBalance(account) => exists|k: Seq<u8>| #[trigger]
                books_in(s, bs).balances.contains_key(k) && keys::id_of(k) == Some(account)
                    && books_in(s, bs).balances[k] == 0,
            StateInvariantError::BalanceSupplyMismatch { supply, balance_sum } => supply@
                == books_in(s, bs).supply && balance_sum@ == ledger::total(
                books_in(s, bs).balances,
            ) && supply@ != balance_sum@,
            _ => true,
        },
{
    rules_of_sound_books(books_in(s, bs), granularity);
}

/// The maps of a state hold what the books hold: under a key the balance, for an owner the allowances that
/// they gave. There are as many holders as balances.
pub proof fn the_maps_hold_the_books<'bs>(
    s: TokenState,
    bs: &'bs Store,
    owner: ActorID,
    key: BytesKey,
    balances: Result<BalanceMap<'bs>, StateError>,
    found: Result<Option<TokenAmount>, HamtError>,
    there: Result<bool, HamtError>,
    given: Result<Option<BalanceMap<'bs>>, StateError>,
    allowance: Result<Option<TokenAmount>, HamtError>,
    count: Result<usize, StateError>,
)
    requires
        s.ledger(bs@) is Some,
        call_ensures(TokenState::get_balance_map, (&s, bs), balances),
        call_ensures(BalanceMap::get, (&balances->Ok_0, &key), found),
        call_ensures(BalanceMap::contains_key, (&balances->Ok_0, &key), there),
        call_ensures(TokenState::get_owner_allowance_map, (&s, bs, owner), given),
        given is Ok && given->Ok_0 is Some ==> call_ensures(
            BalanceMap::get,
            (&given->Ok_0->0, &key),
            allowance,
        ),
        call_ensures(TokenState::count_balances, (&s, bs), count),
    ensures
        balances is Ok && found is Ok && there is Ok,
        there->Ok_0 == books_in(s, *bs).balances.contains_key(key@),
        found->Ok_0 is Some == there->Ok_0,
        found->Ok_0 is Some ==> found->Ok_0->0@ == holding(books_in(s, *bs), key@),
        given is Ok,
        given->Ok_0 is None ==> spendable(books_in(s, *bs), keys::key_of(owner), key@) == 0,
        given->Ok_0 is Some ==> allowance is Ok && spendable(
            books_in(s, *bs),
            keys::key_of(owner),
            key@,
        ) == if allowance->Ok_0 is Some {
            allowance->Ok_0->0@
        } else {
            0
        },
        count is Ok && count->Ok_0 == books_in(s, *bs).balances.dom().len(),
{
}

} // verus!
