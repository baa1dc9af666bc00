//! What operations on the books come to, account by account.
use vstd::prelude::*;

use crate::address::AddressView;
use crate::bytes::ActorID;
use crate::ledger;
use crate::ledger::{Account, Ledger, StateFault};
use crate::store;

verus! {

/// What an account has: nothing where it has no entry.
pub open spec fn holding<K>(l: Ledger<K>, owner: K) -> int {
    if l.balances.contains_key(owner) {
        l.balances[owner]
    } else {
        0
    }
}

/// What an operator may spend of an owner's tokens: nothing where there is no entry.
pub open spec fn spendable<K>(l: Ledger<K>, owner: K, operator: K) -> int {
    if l.allowances.contains_key(owner) && l.allowances[owner].contains_key(operator) {
        l.allowances[owner][operator]
    } else {
        0
    }
}

/// Whether an amount can be moved or made: it is not negative, and a multiple of the granularity.
pub open spec fn divisible(amount: int, granularity: u64) -> bool {
    amount >= 0 && amount % (granularity as int) == 0
}

/// Whether everyone may spend what they could.
pub open spec fn spends_same<K>(before: Ledger<K>, after: Ledger<K>) -> bool {
    forall|a: K, b: K| #[trigger] spendable(after, a, b) == spendable(before, a, b)
}

/// Whether everyone has what they had, and there are as many tokens.
pub open spec fn holds_same<K>(before: Ledger<K>, after: Ledger<K>) -> bool {
    after.supply == before.supply && forall|k: K| #[trigger] holding(after, k) == holding(before, k)
}

/// Whether an account has so much more, and so many more tokens exist. All else is as it was.
pub open spec fn added<K>(before: Ledger<K>, after: Ledger<K>, owner: K, amount: int) -> bool {
    &&& after.supply == before.supply + amount
    &&& holding(after, owner) == holding(before, owner) + amount
    &&& forall|k: K| k != owner ==> #[trigger] holding(after, k) == holding(before, k)
    &&& spends_same(before, after)
}

/// Whether one account has so much less and another so much more. All else is as it was.
pub open spec fn moved<K>(before: Ledger<K>, after: Ledger<K>, from: K, to: K, amount: int) -> bool {
    &&& after.supply == before.supply
    &&& from != to ==> holding(after, from) == holding(before, from) - amount
    &&& from != to ==> holding(after, to) == holding(before, to) + amount
    &&& from == to ==> holding(after, to) == holding(before, to)
    &&& forall|k: K| k != from && k != to ==> #[trigger] holding(after, k) == holding(before, k)
}

/// Whether an operator may spend so much of an owner's tokens, and everyone else what they could.
pub open spec fn allowed<K>(before: Ledger<K>, after: Ledger<K>, owner: K, operator: K, amount: int) -> bool {
    &&& spendable(after, owner, operator) == amount
    &&& forall|a: K, b: K|
        a != owner || b != operator ==> #[trigger] spendable(after, a, b) == spendable(before, a, b)
}

/// What is read of the books is what they hold.
pub proof fn books_are_read<K>(l: Ledger<K>, a: K, b: K)
    ensures
        l.balance(a) == holding(l, a),
        l.allowance(a, b) == spendable(l, a, b),
{
}

proof fn lemma_balance_put<K>(l: Ledger<K>, owner: K, balance: int)
    ensures
        ({
            let n = l.with_balance(owner, balance);
            &&& n.supply == l.supply
            &&& holding(n, owner) == balance
            &&& forall|k: K| k != owner ==> #[trigger] holding(n, k) == holding(l, k)
            &&& spends_same(l, n)
        }),
{
}

proof fn lemma_allowance_put<K>(l: Ledger<K>, owner: K, operator: K, amount: int)
    ensures
        ({
            let n = l.with_allowance(owner, operator, amount);
            &&& holds_same(l, n)
            &&& allowed(l, n, owner, operator, amount)
        }),
{
    let n = l.with_allowance(owner, operator, amount);
    let given = ledger::with_amount(l.given_by(owner), operator, amount);
    assert forall|a: K, b: K| a != owner || b != operator implies #[trigger] spendable(n, a, b)
        == spendable(l, a, b) by {
        if a == owner {
            if given =~= Map::empty() {
                assert(!given.contains_key(b));
            }
        }
    }
    if given =~= Map::empty() {
        assert(!given.contains_key(operator));
    }
}

/// Changing a balance adds to it, reports the new one, and touches nothing else. It is refused where it
/// would be negative or too large to be kept.
pub proof fn changing_a_balance<K>(l: Ledger<K>, owner: ActorID, key: K, delta: int)
    ensures
        match ledger::change_balance(l, owner, key, delta) {
            Ok((n, balance)) => {
                &&& n.supply == l.supply
                &&& holding(n, key) == holding(l, key) + delta
                &&& forall|k: K| k != key ==> #[trigger] holding(n, k) == holding(l, k)
                &&& spends_same(l, n)
                &&& balance == holding(n, key)
                &&& delta != 0 ==> balance >= 0
            },
            Err(fault) => {
                let sum = holding(l, key) + delta;
                ||| delta != 0 && sum < 0 && fault == (StateFault::InsufficientBalance {
                    owner,
                    balance: holding(l, key),
                    delta,
                })
                ||| delta != 0 && sum >= 0 && !store::storable(sum) && fault == StateFault::Storage
            },
        },
{
    lemma_balance_put(l, key, l.balance(key) + delta);
}

/// Making tokens for an owner, or taking them away, changes the owner's holding and the supply alike,
/// and reports the new holding. It is refused for just three reasons.
pub proof fn issuing<K>(l: Ledger<K>, owner: Account<K>, amount: int)
    ensures
        match ledger::issue(l, owner, amount) {
            Ok((n, balance)) => {
                &&& added(l, n, owner.key, amount)
                &&& balance == holding(n, owner.key)
                &&& amount != 0 ==> balance >= 0
                &&& n.supply >= 0
            },
            Err(fault) => {
                let sum = holding(l, owner.key) + amount;
                ||| amount != 0 && sum < 0 && fault == (StateFault::InsufficientBalance {
                    owner: owner.id,
                    balance: holding(l, owner.key),
                    delta: amount,
                })
                ||| amount != 0 && sum >= 0 && !store::storable(sum) && fault == StateFault::Storage
                ||| l.supply + amount < 0 && fault == (StateFault::NegativeTotalSupply {
                    supply: l.supply,
                    delta: amount,
                })
            },
        },
{
    lemma_balance_put(l, owner.key, l.balance(owner.key) + amount);
}

/// Moving tokens takes them from one account and adds them to another. It is refused where they are not
/// there, or where the receiver's holding would be too large to be kept.
pub proof fn moving<K>(l: Ledger<K>, from: Account<K>, to: Account<K>, amount: int)
    requires
        from.id == to.id <==> from.key == to.key,
        amount >= 0,
    ensures
        match ledger::move_tokens(l, from, to, amount) {
            Ok((n, reported)) => {
                &&& moved(l, n, from.key, to.key, amount)
                &&& spends_same(l, n)
                &&& reported == amount
                &&& amount > 0 ==> holding(l, from.key) >= amount
            },
            Err(fault) => {
                let sum = holding(l, to.key) + amount;
                ||| holding(l, from.key) < amount && fault == (StateFault::InsufficientBalance {
                    owner: from.id,
                    balance: holding(l, from.key),
                    delta: -amount,
                })
                ||| from.key != to.key && sum < 0 && fault is InsufficientBalance
                ||| from.key != to.key && !store::storable(sum) && fault == StateFault::Storage
                ||| from.key != to.key && !store::storable(holding(l, from.key) - amount) && fault
                    == StateFault::Storage
            },
        },
{
    let m = l.with_balance(to.key, l.balance(to.key) + amount);
    lemma_balance_put(l, to.key, l.balance(to.key) + amount);
    lemma_balance_put(m, from.key, m.balance(from.key) - amount);
    assert(from.key != to.key ==> holding(m, from.key) == holding(l, from.key));
}

/// Spending from an allowance leaves so much less of it, reports what is left, and touches nothing
/// else. An operator spends no more than the allowance, and nothing where there is none.
pub proof fn spending<K>(l: Ledger<K>, operator: Account<K>, owner: Account<K>, amount: int)
    requires
        amount >= 0,
        operator.id == owner.id <==> operator.key == owner.key,
    ensures
        match ledger::use_allowance(l, operator.id, operator.key, owner.id, owner.key, amount) {
            Ok((n, left)) => {
                &&& holds_same(l, n)
                &&& allowed(
                    l,
                    n,
                    owner.key,
                    operator.key,
                    spendable(l, owner.key, operator.key) - amount,
                )
                &&& left == spendable(n, owner.key, operator.key)
                &&& operator.key != owner.key ==> spendable(l, owner.key, operator.key) != 0
                &&& amount > 0 ==> spendable(l, owner.key, operator.key) >= amount
            },
            Err(fault) => {
                ||| fault == (StateFault::InsufficientAllowance {
                    owner: AddressView::ID(owner.id),
                    operator: AddressView::ID(operator.id),
                    allowance: spendable(l, owner.key, operator.key),
                    delta: amount,
                }) && (spendable(l, owner.key, operator.key) == 0 || spendable(
                    l,
                    owner.key,
                    operator.key,
                ) < amount)
                ||| fault == StateFault::Storage && !store::storable(
                    spendable(l, owner.key, operator.key) - amount,
                )
            },
        },
{
    books_are_read(l, owner.key, operator.key);
    let allowance = l.allowance(owner.key, operator.key);
    lemma_allowance_put(l, owner.key, operator.key, allowance - amount);
}

/// Burning on behalf of an operator takes the amount from holding, supply and allowance alike, and
/// reports what is left of the holding and of the allowance.
pub proof fn burning_from<K>(l: Ledger<K>, operator: Account<K>, owner: Account<K>, amount: int)
    requires
        amount >= 0,
        operator.id == owner.id <==> operator.key == owner.key,
    ensures
        ledger::burn_from(l, operator, owner, amount) is Ok ==> {
            let (n, balance, left) = ledger::burn_from(l, operator, owner, amount)->Ok_0;
            &&& n.supply == l.supply - amount
            &&& holding(n, owner.key) == holding(l, owner.key) - amount
            &&& forall|k: K| k != owner.key ==> #[trigger] holding(n, k) == holding(l, k)
            &&& allowed(
                l,
                n,
                owner.key,
                operator.key,
                spendable(l, owner.key, operator.key) - amount,
            )
            &&& balance == holding(n, owner.key)
            &&& left == spendable(n, owner.key, operator.key)
            &&& operator.key != owner.key ==> spendable(l, owner.key, operator.key) != 0
            &&& amount > 0 ==> spendable(l, owner.key, operator.key) >= amount && holding(
                l,
                owner.key,
            ) >= amount
        },
        ledger::burn_from(l, operator, owner, amount) is Err ==> {
            let had = spendable(l, owner.key, operator.key);
            let left = holding(l, owner.key) - amount;
            ||| had == 0
            ||| had < amount
            ||| left < 0
            ||| l.supply < amount
            ||| ledger::burn_from(l, operator, owner, amount)->Err_0 == StateFault::Storage && (
            !store::storable(had - amount) || !store::storable(left))
        },
{
    spending(l, operator, owner, amount);
    let spent = ledger::use_allowance(
        l,
        operator.id,
        operator.key,
        owner.id,
        owner.key,
        amount,
    );
    if spent is Ok {
        let m = spent->Ok_0.0;
        issuing(m, owner, -amount);
        assert(holding(m, owner.key) == holding(l, owner.key));
        if ledger::issue(m, owner, -amount) is Ok {
            let n = ledger::issue(m, owner, -amount)->Ok_0.0;
            assert(spends_same(m, n));
            assert(holds_same(l, m));
            assert(holding(m, owner.key) == holding(l, owner.key));
            assert forall|k: K| k != owner.key implies #[trigger] holding(n, k) == holding(l, k) by {
                assert(holding(m, k) == holding(l, k));
            }
            assert forall|a: K, b: K| a != owner.key || b != operator.key implies
                #[trigger] spendable(n, a, b) == spendable(l, a, b) by {
                assert(spendable(m, a, b) == spendable(l, a, b));
            }
            assert(spendable(n, owner.key, operator.key) == spendable(m, owner.key, operator.key));
        }
    }
}

/// Moving tokens on behalf of an operator takes the amount from the holding and the allowance alike,
/// adds it to the receiver's holding, and reports what is left of the allowance.
pub proof fn moving_from<K>(
    l: Ledger<K>,
    operator: Account<K>,
    from: Account<K>,
    to: Account<K>,
    amount: int,
)
    requires
        amount >= 0,
        operator.id == from.id <==> operator.key == from.key,
        from.id == to.id <==> from.key == to.key,
    ensures
        ledger::move_from(l, operator, from, to, amount) is Ok ==> {
            let (n, left) = ledger::move_from(l, operator, from, to, amount)->Ok_0;
            &&& moved(l, n, from.key, to.key, amount)
            &&& allowed(
                l,
                n,
                from.key,
                operator.key,
                spendable(l, from.key, operator.key) - amount,
            )
            &&& left == spendable(n, from.key, operator.key)
            &&& operator.key != from.key ==> spendable(l, from.key, operator.key) != 0
            &&& amount > 0 ==> spendable(l, from.key, operator.key) >= amount && holding(
                l,
                from.key,
            ) >= amount
        },
        ledger::move_from(l, operator, from, to, amount) is Err ==> {
            let had = spendable(l, from.key, operator.key);
            let left = holding(l, from.key) - amount;
            let sum = holding(l, to.key) + amount;
            ||| had == 0
            ||| had < amount
            ||| left < 0
            ||| sum < 0
            ||| ledger::move_from(l, operator, from, to, amount)->Err_0 == StateFault::Storage && (
            !store::storable(had - amount) || !store::storable(left) || !store::storable(sum))
        },
{
    spending(l, operator, from, amount);
    let spent = ledger::use_allowance(l, operator.id, operator.key, from.id, from.key, amount);
    if spent is Ok {
        let m = spent->Ok_0.0;
        moving(m, from, to, amount);
        assert(holding(m, from.key) == holding(l, from.key));
        assert(holding(m, to.key) == holding(l, to.key));
        if ledger::move_tokens(m, from, to, amount) is Ok {
            let n = ledger::move_tokens(m, from, to, amount)->Ok_0.0;
            assert(spends_same(m, n));
            assert(holds_same(l, m));
            assert(holding(m, from.key) == holding(l, from.key));
            assert(holding(m, to.key) == holding(l, to.key));
            assert forall|k: K| k != from.key && k != to.key implies #[trigger] holding(n, k)
                == holding(l, k) by {
                assert(holding(m, k) == holding(l, k));
            }
            assert forall|a: K, b: K| a != from.key || b != operator.key implies
                #[trigger] spendable(n, a, b) == spendable(l, a, b) by {
                assert(spendable(m, a, b) == spendable(l, a, b));
            }
            assert(spendable(n, from.key, operator.key) == spendable(m, from.key, operator.key));
        }
    }
}

/// Changing an allowance adds to it and stops at zero, reports the new one, and touches nothing else. It
/// is refused only where the new one is too large to be kept.
pub proof fn changing_an_allowance<K>(l: Ledger<K>, owner: K, operator: K, delta: int)
    ensures
        ({
            let sum = spendable(l, owner, operator) + delta;
            let wanted = if delta != 0 && sum < 0 {
                0
            } else {
                sum
            };
            match ledger::change_allowance(l, owner, operator, delta) {
                Ok((n, new)) => {
                    &&& holds_same(l, n)
                    &&& allowed(l, n, owner, operator, wanted)
                    &&& new == wanted
                },
                Err(fault) => delta != 0 && !store::storable(wanted) && fault == StateFault::Storage,
            }
        }),
{
    books_are_read(l, owner, operator);
    let sum = l.allowance(owner, operator) + delta;
    lemma_allowance_put(l, owner, operator, if sum < 0 { 0 } else { sum });
}

/// Taking an allowance back leaves none, reports the old one, and touches nothing else.
pub proof fn revoking<K>(l: Ledger<K>, owner: K, operator: K)
    ensures
        ledger::revoke_allowance(l, owner, operator) is Ok,
        ({
            let (n, old_allowance) = ledger::revoke_allowance(l, owner, operator)->Ok_0;
            &&& holds_same(l, n)
            &&& allowed(l, n, owner, operator, 0)
            &&& old_allowance == spendable(l, owner, operator)
        }),
{
    lemma_allowance_put(l, owner, operator, 0);
}

/// Setting an allowance sets it, reports the old one, and touches nothing else. It is refused where it
/// is negative or too large to be kept.
pub proof fn setting_an_allowance<K>(
    l: Ledger<K>,
    owner: Account<K>,
    operator: Account<K>,
    amount: int,
)
    ensures
        match ledger::set_allowance(l, owner.id, owner.key, operator.id, operator.key, amount) {
            Ok((n, old_allowance)) => {
                &&& holds_same(l, n)
                &&& allowed(l, n, owner.key, operator.key, amount)
                &&& old_allowance == spendable(l, owner.key, operator.key)
                &&& amount >= 0
            },
            Err(fault) => {
                ||| amount < 0 && fault == (StateFault::NegativeAllowance {
                    amount,
                    owner: owner.id,
                    operator: operator.id,
                })
                ||| amount >= 0 && !store::storable(amount) && fault == StateFault::Storage
            },
        },
{
    lemma_allowance_put(l, owner.key, operator.key, amount);
}

/// Putting a balance puts it, reports the old one, and touches nothing else. It is refused where it is
/// negative or too large to be kept.
pub proof fn putting_a_balance<K>(l: Ledger<K>, owner: ActorID, key: K, amount: int)
    ensures
        match ledger::set_balance(l, owner, key, amount) {
            Ok((n, old_balance)) => {
                &&& n.supply == l.supply
                &&& holding(n, key) == amount
                &&& forall|k: K| k != key ==> #[trigger] holding(n, k) == holding(l, k)
                &&& spends_same(l, n)
                &&& old_balance == holding(l, key)
                &&& amount >= 0
            },
            Err(fault) => {
                ||| amount < 0 && fault == (StateFault::NegativeBalance { amount, owner })
                ||| amount >= 0 && !store::storable(amount) && fault == StateFault::Storage
            },
        },
        ledger::set_balance(l, owner, key, amount) is Ok == (amount >= 0 && store::storable(amount)),
{
    lemma_balance_put(l, key, amount);
}

/// Setting a balance sets it, changes the supply by the difference, and reports the old one. It is
/// refused where it is negative or too large to be kept.
pub proof fn setting_a_balance<K>(l: Ledger<K>, owner: Account<K>, amount: int)
    ensures
        match ledger::reset_balance(l, owner, amount) {
            Ok((n, old_balance)) => {
                &&& added(l, n, owner.key, amount - holding(l, owner.key))
                &&& holding(n, owner.key) == amount
                &&& old_balance == holding(l, owner.key)
                &&& amount >= 0
            },
            Err(fault) => {
                ||| amount < 0 && fault == (StateFault::NegativeBalance { amount, owner: owner.id })
                ||| amount >= 0 && !store::storable(amount) && fault == StateFault::Storage
            },
        },
{
    lemma_balance_put(l, owner.key, amount);
}

} // verus!
