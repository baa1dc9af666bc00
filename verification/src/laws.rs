//! What holds of a token's books across operations.
use vstd::prelude::*;

use crate::bytes::ActorID;
use crate::ledger;
use crate::ledger::{Account, Ledger};
use crate::store;

verus! {

/// The sum of two multiples is a multiple.
pub(crate) proof fn lemma_multiples(a: int, b: int, g: int)
    requires
        g > 0,
        a % g == 0,
        b % g == 0,
    ensures
        (a + b) % g == 0,
        (a - b) % g == 0,
        (-b) % g == 0,
{
    vstd::arithmetic::div_mod::lemma_fundamental_div_mod(a, g);
    vstd::arithmetic::div_mod::lemma_fundamental_div_mod(b, g);
    let x = a / g;
    let y = b / g;
    assert(a + b == (x + y) * g) by (nonlinear_arith)
        requires
            a == g * x,
            b == g * y,
    ;
    assert(a - b == (x - y) * g) by (nonlinear_arith)
        requires
            a == g * x,
            b == g * y,
    ;
    assert(-b == (-y) * g) by (nonlinear_arith)
        requires
            b == g * y,
    ;
    vstd::arithmetic::div_mod::lemma_mod_multiples_basic(x + y, g);
    vstd::arithmetic::div_mod::lemma_mod_multiples_basic(x - y, g);
    vstd::arithmetic::div_mod::lemma_mod_multiples_basic(-y, g);
}

/// A balance in sound books is a multiple of the granularity and not negative.
pub(crate) proof fn lemma_balance<K>(
    l: Ledger<K>,
    key: K,
    granularity: int,
    id_of: spec_fn(K) -> Option<ActorID>,
)
    requires
        granularity > 0,
        l.balances_sound(granularity, id_of),
    ensures
        l.balance(key) >= 0,
        l.balance(key) % granularity == 0,
{
    assert(l.balances.contains_key(key) ==> l.balances[key] > 0);
    vstd::arithmetic::div_mod::lemma_small_mod(0, granularity as nat);
}

/// Changing one balance and the supply alike keeps the books sound.
proof fn lemma_sound_with_balance<K>(
    l: Ledger<K>,
    key: K,
    balance: int,
    granularity: int,
    id_of: spec_fn(K) -> Option<ActorID>,
)
    requires
        granularity > 0,
        l.balances.dom().finite(),
        l.balances_sound(granularity, id_of),
        id_of(key) is Some,
        balance >= 0,
        balance % granularity == 0,
    ensures
        l.with_balance(key, balance).balances.dom().finite(),
        l.with_balance(key, balance).balances_sound(granularity, id_of),
        ledger::total(l.with_balance(key, balance).balances) == ledger::total(l.balances)
            - l.balance(key) + balance,
{
    ledger::lemma_total_with_amount(l.balances, key, balance);
    let n = l.with_balance(key, balance);
    assert forall|k: K| #[trigger] n.balances.contains_key(k) implies {
        &&& id_of(k) is Some
        &&& n.balances[k] > 0
        &&& n.balances[k] % granularity == 0
    } by {
        if k != key {
            assert(l.balances.contains_key(k));
        }
    }
}

/// Making and burning tokens keeps the books adding up, whatever allowances there are, and sound
/// where they were. The balance and the supply change by the amount, and nothing else does.
pub proof fn issue_law<K>(
    l: Ledger<K>,
    owner: Account<K>,
    amount: int,
    granularity: int,
    id_of: spec_fn(K) -> Option<ActorID>,
)
    requires
        granularity > 0,
        l.adds_up(granularity, id_of),
        id_of(owner.key) is Some,
        amount % granularity == 0,
        ledger::issue(l, owner, amount) is Ok,
    ensures
        ({
            let (n, balance) = ledger::issue(l, owner, amount)->Ok_0;
            &&& n.adds_up(granularity, id_of)
            &&& n.allowances == l.allowances
            &&& l.sound(granularity, id_of) ==> n.sound(granularity, id_of)
            &&& n.supply == l.supply + amount
            &&& balance == n.balance(owner.key)
            &&& n.balance(owner.key) == l.balance(owner.key) + amount
            &&& forall|k: K| k != owner.key ==> #[trigger] n.balance(k) == l.balance(k)
        }),
{
    lemma_balance(l, owner.key, granularity, id_of);
    lemma_multiples(l.balance(owner.key), amount, granularity);
    if amount != 0 {
        lemma_sound_with_balance(
            l,
            owner.key,
            l.balance(owner.key) + amount,
            granularity,
            id_of,
        );
    }
}

/// Tokens can be burnt exactly where the owner has as many: then the supply covers them too.
pub proof fn burn_succeeds_when_covered<K>(
    l: Ledger<K>,
    owner: Account<K>,
    amount: int,
    granularity: int,
    id_of: spec_fn(K) -> Option<ActorID>,
)
    requires
        granularity > 0,
        l.adds_up(granularity, id_of),
        store::storable(l.supply),
        amount >= 0,
    ensures
        ledger::issue(l, owner, -amount) is Ok == (amount <= l.balance(owner.key)),
{
    lemma_balance(l, owner.key, granularity, id_of);
    lemma_two_balances(l, owner.key, owner.key, granularity, id_of);
}

/// No balance is more than the supply.
pub proof fn no_balance_exceeds_the_supply<K>(
    l: Ledger<K>,
    key: K,
    granularity: int,
    id_of: spec_fn(K) -> Option<ActorID>,
)
    requires
        granularity > 0,
        l.adds_up(granularity, id_of),
    ensures
        0 <= l.balance(key) <= l.supply,
{
    lemma_balance(l, key, granularity, id_of);
    lemma_two_balances(l, key, key, granularity, id_of);
}

/// Two balances are together no more than the supply, and one is no more either.
proof fn lemma_two_balances<K>(
    l: Ledger<K>,
    a: K,
    b: K,
    granularity: int,
    id_of: spec_fn(K) -> Option<ActorID>,
)
    requires
        granularity > 0,
        l.adds_up(granularity, id_of),
    ensures
        l.balance(a) <= l.supply,
        a != b ==> l.balance(a) + l.balance(b) <= l.supply,
{
    let rest = l.balances.remove(a);
    assert forall|k: K| #[trigger] rest.contains_key(k) implies rest[k] > 0 by {
        assert(l.balances.contains_key(k));
    }
    lemma_total_positive(rest);
    lemma_total_positive(rest.remove(b));
    if l.balances.contains_key(a) {
        ledger::lemma_total_remove(l.balances, a);
    } else {
        assert(rest =~= l.balances);
    }
    if rest.contains_key(b) {
        ledger::lemma_total_remove(rest, b);
    }
}

/// A sum of positive amounts is not negative.
proof fn lemma_total_positive<K>(amounts: Map<K, int>)
    requires
        amounts.dom().finite(),
        forall|k: K| #[trigger] amounts.contains_key(k) ==> amounts[k] > 0,
    ensures
        ledger::total(amounts) >= 0,
    decreases amounts.dom().len(),
{
    if amounts.dom().len() > 0 {
        let key = amounts.dom().choose();
        assert(amounts.contains_key(key));
        assert forall|k: K| #[trigger] amounts.remove(key).contains_key(k) implies amounts.remove(
            key,
        )[k] > 0 by {
            assert(amounts.contains_key(k));
        }
        lemma_total_positive(amounts.remove(key));
    }
}

/// Moving tokens keeps the books adding up, whatever allowances there are, and sound where they
/// were, and makes none: the sender's balance falls by the amount, the receiver's rises by it, and
/// nothing else changes. Moving them to oneself changes nothing.
pub proof fn move_law<K>(
    l: Ledger<K>,
    from: Account<K>,
    to: Account<K>,
    amount: int,
    granularity: int,
    id_of: spec_fn(K) -> Option<ActorID>,
)
    requires
        granularity > 0,
        l.adds_up(granularity, id_of),
        id_of(from.key) == Some(from.id),
        id_of(to.key) == Some(to.id),
        amount % granularity == 0,
        ledger::move_tokens(l, from, to, amount) is Ok,
    ensures
        ({
            let n = ledger::move_tokens(l, from, to, amount)->Ok_0.0;
            &&& n.adds_up(granularity, id_of)
            &&& n.allowances == l.allowances
            &&& l.sound(granularity, id_of) ==> n.sound(granularity, id_of)
            &&& n.supply == l.supply
            &&& from.id == to.id ==> n == l
            &&& from.id != to.id ==> {
                &&& n.balance(from.key) == l.balance(from.key) - amount
                &&& n.balance(to.key) == l.balance(to.key) + amount
                &&& forall|k: K|
                    k != from.key && k != to.key ==> #[trigger] n.balance(k) == l.balance(k)
            }
        }),
{
    if from.id != to.id && amount != 0 {
        lemma_balance(l, to.key, granularity, id_of);
        lemma_multiples(l.balance(to.key), amount, granularity);
        let m = l.with_balance(to.key, l.balance(to.key) + amount);
        lemma_sound_with_balance(l, to.key, l.balance(to.key) + amount, granularity, id_of);
        assert(m.balance(from.key) == l.balance(from.key));
        lemma_balance(m, from.key, granularity, id_of);
        lemma_multiples(m.balance(from.key), amount, granularity);
        lemma_sound_with_balance(m, from.key, m.balance(from.key) - amount, granularity, id_of);
        let n = m.with_balance(from.key, m.balance(from.key) - amount);
        assert forall|k: K| k != from.key && k != to.key implies #[trigger] n.balance(k)
            == l.balance(k) by {
            assert(m.balance(k) == l.balance(k));
        }
        assert(n.balance(to.key) == m.balance(to.key));
    }
}

/// A transfer of an amount that is not negative succeeds exactly where the sender's balance
/// covers it.
pub proof fn transfer_succeeds_when_covered<K>(
    l: Ledger<K>,
    from: Account<K>,
    to: Account<K>,
    amount: int,
    granularity: int,
    id_of: spec_fn(K) -> Option<ActorID>,
)
    requires
        granularity > 0,
        l.adds_up(granularity, id_of),
        store::storable(l.supply),
        id_of(from.key) == Some(from.id),
        id_of(to.key) == Some(to.id),
        amount >= 0,
    ensures
        ledger::move_tokens(l, from, to, amount) is Ok == (amount <= l.balance(from.key)),
{
    lemma_balance(l, from.key, granularity, id_of);
    lemma_balance(l, to.key, granularity, id_of);
    lemma_two_balances(l, from.key, to.key, granularity, id_of);
    if from.id != to.id && amount != 0 {
        let m = l.with_balance(to.key, l.balance(to.key) + amount);
        assert(m.balance(from.key) == l.balance(from.key));
    }
}

/// Changing what an operator may spend, between two different actors, keeps the books sound as
/// long as it is not set below zero. Only that allowance changes.
pub proof fn allowance_law<K>(
    l: Ledger<K>,
    owner: K,
    operator: K,
    allowance: int,
    granularity: int,
    id_of: spec_fn(K) -> Option<ActorID>,
)
    requires
        l.sound(granularity, id_of),
        id_of(owner) is Some,
        id_of(operator) is Some,
        id_of(owner) != id_of(operator),
        allowance >= 0,
    ensures
        ({
            let n = l.with_allowance(owner, operator, allowance);
            &&& n.sound(granularity, id_of)
            &&& n.supply == l.supply
            &&& n.balances == l.balances
            &&& n.allowance(owner, operator) == allowance
            &&& forall|a: K, b: K|
                a != owner || b != operator ==> #[trigger] n.allowance(a, b) == l.allowance(a, b)
        }),
{
    let n = l.with_allowance(owner, operator, allowance);
    let given = ledger::with_amount(l.given_by(owner), operator, allowance);
    assert forall|j: K| #[trigger] given.contains_key(j) implies {
        &&& id_of(j) is Some
        &&& id_of(j) != id_of(owner)
        &&& given[j] > 0
    } by {
        if j != operator {
            assert(l.given_by(owner).contains_key(j));
            assert(l.allowances.contains_key(owner));
        }
    }
    assert forall|k: K| #[trigger] n.allowances.contains_key(k) implies {
        &&& id_of(k) is Some
        &&& n.allowances[k] != Map::<K, int>::empty()
        &&& forall|j: K| #[trigger] n.allowances[k].contains_key(j) ==> {
            &&& id_of(j) is Some
            &&& id_of(j) != id_of(k)
            &&& n.allowances[k][j] > 0
        }
    } by {
        if k != owner {
            assert(l.allowances.contains_key(k));
        }
    }
    assert(n.given_by(owner) =~= given);
    assert forall|a: K, b: K| a != owner || b != operator implies #[trigger] n.allowance(a, b)
        == l.allowance(a, b) by {
        if a != owner {
            assert(n.given_by(a) == l.given_by(a));
        }
    }
}

/// An allowance in sound books is not negative.
pub proof fn allowances_are_not_negative<K>(
    l: Ledger<K>,
    owner: K,
    operator: K,
    granularity: int,
    id_of: spec_fn(K) -> Option<ActorID>,
)
    requires
        l.sound(granularity, id_of),
    ensures
        l.allowance(owner, operator) >= 0,
{
    if l.allowances.contains_key(owner) {
        assert(l.allowances[owner].contains_key(operator) ==> l.allowances[owner][operator] > 0);
    }
}

/// Spending from an allowance takes exactly the amount from it and touches nothing else; the books
/// stay sound, and an operator can spend no more than the allowance.
pub proof fn use_allowance_law<K>(
    l: Ledger<K>,
    operator: Account<K>,
    owner: Account<K>,
    amount: int,
    granularity: int,
    id_of: spec_fn(K) -> Option<ActorID>,
)
    requires
        l.sound(granularity, id_of),
        id_of(operator.key) == Some(operator.id),
        id_of(owner.key) == Some(owner.id),
        operator.id != owner.id,
        amount >= 0,
        ledger::use_allowance(
            l,
            operator.id,
            operator.key,
            owner.id,
            owner.key,
            amount,
        ) is Ok,
    ensures
        ({
            let (n, left) = ledger::use_allowance(
                l,
                operator.id,
                operator.key,
                owner.id,
                owner.key,
                amount,
            )->Ok_0;
            &&& n.sound(granularity, id_of)
            &&& n.supply == l.supply
            &&& n.balances == l.balances
            &&& 0 < l.allowance(owner.key, operator.key)
            &&& amount <= l.allowance(owner.key, operator.key)
            &&& left == l.allowance(owner.key, operator.key) - amount
            &&& n.allowance(owner.key, operator.key) == left
            &&& forall|a: K, b: K|
                a != owner.key || b != operator.key ==> #[trigger] n.allowance(a, b)
                    == l.allowance(a, b)
        }),
{
    allowances_are_not_negative(l, owner.key, operator.key, granularity, id_of);
    allowance_law(
        l,
        owner.key,
        operator.key,
        l.allowance(owner.key, operator.key) - amount,
        granularity,
        id_of,
    );
}

/// A delegated transfer keeps the books sound, makes no tokens, and costs the operator as much of
/// the allowance as it moves.
pub proof fn move_from_law<K>(
    l: Ledger<K>,
    operator: Account<K>,
    from: Account<K>,
    to: Account<K>,
    amount: int,
    granularity: int,
    id_of: spec_fn(K) -> Option<ActorID>,
)
    requires
        granularity > 0,
        l.sound(granularity, id_of),
        id_of(operator.key) == Some(operator.id),
        id_of(from.key) == Some(from.id),
        id_of(to.key) == Some(to.id),
        operator.id != from.id,
        amount >= 0,
        amount % granularity == 0,
        ledger::move_from(l, operator, from, to, amount) is Ok,
    ensures
        ({
            let (n, left) = ledger::move_from(l, operator, from, to, amount)->Ok_0;
            &&& n.sound(granularity, id_of)
            &&& n.supply == l.supply
            &&& left == l.allowance(from.key, operator.key) - amount
            &&& n.allowance(from.key, operator.key) == left
            &&& from.id == to.id ==> n.balances == l.balances
            &&& from.id != to.id ==> n.balance(from.key) == l.balance(from.key) - amount
                && n.balance(to.key) == l.balance(to.key) + amount
        }),
{
    use_allowance_law(l, operator, from, amount, granularity, id_of);
    let m = ledger::use_allowance(
        l,
        operator.id,
        operator.key,
        from.id,
        from.key,
        amount,
    )->Ok_0.0;
    move_law(m, from, to, amount, granularity, id_of);
    let n = ledger::move_from(l, operator, from, to, amount)->Ok_0.0;
    assert(n.given_by(from.key) == m.given_by(from.key));
}

/// A delegated burn keeps the books sound, and costs the operator as much of the allowance as it
/// takes from the owner and from the supply.
pub proof fn burn_from_law<K>(
    l: Ledger<K>,
    operator: Account<K>,
    owner: Account<K>,
    amount: int,
    granularity: int,
    id_of: spec_fn(K) -> Option<ActorID>,
)
    requires
        granularity > 0,
        l.sound(granularity, id_of),
        id_of(operator.key) == Some(operator.id),
        id_of(owner.key) == Some(owner.id),
        operator.id != owner.id,
        amount >= 0,
        amount % granularity == 0,
        ledger::burn_from(l, operator, owner, amount) is Ok,
    ensures
        ({
            let (n, balance, left) = ledger::burn_from(l, operator, owner, amount)->Ok_0;
            &&& n.sound(granularity, id_of)
            &&& n.supply == l.supply - amount
            &&& n.balance(owner.key) == l.balance(owner.key) - amount
            &&& balance == n.balance(owner.key)
            &&& left == l.allowance(owner.key, operator.key) - amount
            &&& n.allowance(owner.key, operator.key) == left
        }),
{
    use_allowance_law(l, operator, owner, amount, granularity, id_of);
    let m = ledger::use_allowance(
        l,
        operator.id,
        operator.key,
        owner.id,
        owner.key,
        amount,
    )->Ok_0.0;
    lemma_multiples(amount, amount, granularity);
    issue_law(m, owner, -amount, granularity, id_of);
    let n = ledger::burn_from(l, operator, owner, amount)->Ok_0.0;
    assert(n.given_by(owner.key) == m.given_by(owner.key));
}

/// Setting a balance together with the supply keeps the books adding up, whatever allowances there
/// are, and sound where they were.
pub proof fn reset_balance_law<K>(
    l: Ledger<K>,
    owner: Account<K>,
    balance: int,
    granularity: int,
    id_of: spec_fn(K) -> Option<ActorID>,
)
    requires
        granularity > 0,
        l.adds_up(granularity, id_of),
        id_of(owner.key) is Some,
        balance % granularity == 0,
        ledger::reset_balance(l, owner, balance) is Ok,
    ensures
        ({
            let (n, before) = ledger::reset_balance(l, owner, balance)->Ok_0;
            &&& n.adds_up(granularity, id_of)
            &&& n.allowances == l.allowances
            &&& l.sound(granularity, id_of) ==> n.sound(granularity, id_of)
            &&& before == l.balance(owner.key)
            &&& n.balance(owner.key) == balance
            &&& n.supply == l.supply + balance - before
            &&& forall|k: K| k != owner.key ==> #[trigger] n.balance(k) == l.balance(k)
        }),
{
    lemma_balance(l, owner.key, granularity, id_of);
    lemma_sound_with_balance(l, owner.key, balance, granularity, id_of);
    lemma_two_balances(l, owner.key, owner.key, granularity, id_of);
}

/// Burning what was just minted leaves the books as they were.
pub proof fn burn_undoes_mint<K>(
    l: Ledger<K>,
    owner: Account<K>,
    amount: int,
    granularity: int,
    id_of: spec_fn(K) -> Option<ActorID>,
)
    requires
        granularity > 0,
        l.adds_up(granularity, id_of),
        amount >= 0,
        ledger::issue(l, owner, amount) is Ok,
    ensures
        ledger::issue(ledger::issue(l, owner, amount)->Ok_0.0, owner, -amount) is Ok,
        ledger::issue(ledger::issue(l, owner, amount)->Ok_0.0, owner, -amount)->Ok_0.0 == l,
{
    lemma_balance(l, owner.key, granularity, id_of);
    let n = ledger::issue(l, owner, amount)->Ok_0.0;
    if amount != 0 {
        assert(n.balance(owner.key) == l.balance(owner.key) + amount);
        assert(ledger::issue(n, owner, -amount)->Ok_0.0.balances =~= l.balances);
    }
}

/// The books of a new token are sound.
pub proof fn new_books_are_sound<K>(granularity: int, id_of: spec_fn(K) -> Option<ActorID>)
    ensures
        Ledger::<K>::empty().sound(granularity, id_of),
{
}

} // verus!
