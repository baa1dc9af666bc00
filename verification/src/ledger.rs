//! What a token keeps account of: supply, balances and allowances, as mathematical maps.
use vstd::prelude::*;

use crate::address::AddressView;
use crate::bytes::ActorID;
use crate::store;

verus! {

/// The amount that a map holds for a key: zero where it has no entry.
pub open spec fn amount_of<K>(amounts: Map<K, int>, key: K) -> int {
    if amounts.contains_key(key) {
        amounts[key]
    } else {
        0
    }
}

/// The map with another amount for a key. A zero is kept as no entry at all.
pub open spec fn with_amount<K>(amounts: Map<K, int>, key: K, amount: int) -> Map<K, int> {
    if amount == 0 {
        amounts.remove(key)
    } else {
        amounts.insert(key, amount)
    }
}

/// The sum of all amounts of a finite map.
pub open spec fn total<K>(amounts: Map<K, int>) -> int
    decreases amounts.dom().len(),
{
    if amounts.dom().finite() && amounts.dom().len() > 0 {
        let key = amounts.dom().choose();
        amounts[key] + total(amounts.remove(key))
    } else {
        0
    }
}

/// Any entry can be taken out of a sum.
pub proof fn lemma_total_remove<K>(amounts: Map<K, int>, key: K)
    requires
        amounts.dom().finite(),
        amounts.contains_key(key),
    ensures
        total(amounts) == amounts[key] + total(amounts.remove(key)),
    decreases amounts.dom().len(),
{
    let first = amounts.dom().choose();
    if first != key {
        lemma_total_remove(amounts.remove(first), key);
        lemma_total_remove(amounts.remove(key), first);
        assert(amounts.remove(first).remove(key) =~= amounts.remove(key).remove(first));
    }
}

/// Changing one amount changes the sum by the difference.
pub proof fn lemma_total_with_amount<K>(amounts: Map<K, int>, key: K, amount: int)
    requires
        amounts.dom().finite(),
    ensures
        with_amount(amounts, key, amount).dom().finite(),
        total(with_amount(amounts, key, amount)) == total(amounts) - amount_of(amounts, key) + amount,
{
    let changed = with_amount(amounts, key, amount);
    if amounts.contains_key(key) {
        lemma_total_remove(amounts, key);
    } else {
        assert(amounts.remove(key) =~= amounts);
    }
    if amount != 0 {
        lemma_total_remove(changed, key);
        assert(changed.remove(key) =~= amounts.remove(key));
    }
}

/// The sum of the amounts in a list.
pub open spec fn sum<K>(pairs: Seq<(K, int)>) -> int
    decreases pairs.len(),
{
    if pairs.len() == 0 {
        0
    } else {
        sum(pairs.drop_last()) + pairs.last().1
    }
}

/// A list of a map's entries adds up to the map's total.
pub proof fn lemma_sum_is_total<K>(pairs: Seq<(K, int)>, amounts: Map<K, int>)
    requires
        store::lists(pairs, amounts),
    ensures
        sum(pairs) == total(amounts),
    decreases pairs.len(),
{
    if pairs.len() > 0 {
        store::lemma_lists_drop_last(pairs, amounts);
        assert(pairs[pairs.len() - 1] == pairs.last());
        lemma_total_remove(amounts, pairs.last().0);
        lemma_sum_is_total(pairs.drop_last(), amounts.remove(pairs.last().0));
    }
}

/// The books of a token, its accounts known by keys of some kind.
#[verifier::ext_equal]
#[verifier::reject_recursive_types(K)]
pub struct Ledger<K> {
    /// How many tokens there are.
    pub supply: int,
    /// What each account has.
    pub balances: Map<K, int>,
    /// What each owner lets each operator spend.
    pub allowances: Map<K, Map<K, int>>,
}

impl<K> Ledger<K> {
    /// The books of a token that nobody has yet.
    pub open spec fn empty() -> Self {
        Ledger { supply: 0, balances: Map::empty(), allowances: Map::empty() }
    }

    /// The balance of an account.
    pub open spec fn balance(self, owner: K) -> int {
        amount_of(self.balances, owner)
    }

    /// The allowances that an owner has given.
    pub open spec fn given_by(self, owner: K) -> Map<K, int> {
        if self.allowances.contains_key(owner) {
            self.allowances[owner]
        } else {
            Map::empty()
        }
    }

    /// What an operator may spend of an owner's tokens.
    pub open spec fn allowance(self, owner: K, operator: K) -> int {
        amount_of(self.given_by(owner), operator)
    }

    /// The books with another supply.
    pub open spec fn with_supply(self, supply: int) -> Self {
        Ledger { supply, ..self }
    }

    /// The books with another balance for one account.
    pub open spec fn with_balance(self, owner: K, balance: int) -> Self {
        Ledger { balances: with_amount(self.balances, owner, balance), ..self }
    }

    /// The books with another allowance between two accounts. An owner without allowances has no
    /// entry.
    pub open spec fn with_allowance(self, owner: K, operator: K, allowance: int) -> Self {
        let given = with_amount(self.given_by(owner), operator, allowance);
        if given =~= Map::empty() {
            Ledger { allowances: self.allowances.remove(owner), ..self }
        } else {
            Ledger { allowances: self.allowances.insert(owner, given), ..self }
        }
    }

    /// Every balance belongs to an actor, is positive and a multiple of the granularity.
    pub open spec fn balances_sound(self, granularity: int, id_of: spec_fn(K) -> Option<ActorID>) -> bool {
        forall|k: K| #[trigger] self.balances.contains_key(k) ==> {
            &&& id_of(k) is Some
            &&& self.balances[k] > 0
            &&& self.balances[k] % granularity == 0
        }
    }

    /// Every allowance is a positive amount that one actor gives to another, and no actor has an
    /// entry without giving any.
    pub open spec fn allowances_sound(self, id_of: spec_fn(K) -> Option<ActorID>) -> bool {
        forall|k: K| #[trigger] self.allowances.contains_key(k) ==> {
            &&& id_of(k) is Some
            &&& self.allowances[k] != Map::<K, int>::empty()
            &&& forall|j: K| #[trigger] self.allowances[k].contains_key(j) ==> {
                &&& id_of(j) is Some
                &&& id_of(j) != id_of(k)
                &&& self.allowances[k][j] > 0
            }
        }
    }

    /// The books add up: balances are positive multiples of the granularity that belong to actors,
    /// and the supply is their sum.
    pub open spec fn adds_up(self, granularity: int, id_of: spec_fn(K) -> Option<ActorID>) -> bool {
        &&& self.supply >= 0
        &&& self.balances.dom().finite()
        &&& self.balances_sound(granularity, id_of)
        &&& total(self.balances) == self.supply
    }

    /// The rules that hold of a token at all times: nothing is negative, zeros are not stored,
    /// the supply is the sum of the balances, and nobody has an allowance on their own tokens.
    pub open spec fn sound(self, granularity: int, id_of: spec_fn(K) -> Option<ActorID>) -> bool {
        self.adds_up(granularity, id_of) && self.allowances_sound(id_of)
    }
}

/// An allowance that was set is the one that is found.
pub proof fn lemma_with_allowance<K>(l: Ledger<K>, owner: K, operator: K, allowance: int)
    ensures
        l.with_allowance(owner, operator, allowance).allowance(owner, operator) == allowance,
{
    let given = with_amount(l.given_by(owner), operator, allowance);
    let n = l.with_allowance(owner, operator, allowance);
    if given =~= Map::empty() {
        assert(!given.contains_key(operator));
    }
    assert(n.given_by(owner) =~= given);
}

/// Why an operation on the books is refused.
#[allow(inconsistent_fields)]
pub enum StateFault {
    /// The trees cannot be read, or cannot be written because an amount is too large.
    Storage,
    /// There is no state under this identifier.
    MissingState(Seq<u8>),
    /// The state cannot be encoded or decoded.
    Serialization,
    /// A balance would become negative.
    InsufficientBalance {
        /// Whose balance.
        owner: ActorID,
        /// The balance.
        balance: int,
        /// The change asked for.
        delta: int,
    },
    /// An operator may not spend as much.
    InsufficientAllowance {
        /// Whose tokens.
        owner: AddressView,
        /// Who wants to spend them.
        operator: AddressView,
        /// What the operator may spend.
        allowance: int,
        /// The amount asked for.
        delta: int,
    },
    /// The supply would become negative.
    NegativeTotalSupply {
        /// The supply.
        supply: int,
        /// The change asked for.
        delta: int,
    },
    /// An allowance was to be set below zero.
    NegativeAllowance {
        /// The allowance asked for.
        amount: int,
        /// Whose tokens.
        owner: ActorID,
        /// Who would spend them.
        operator: ActorID,
    },
    /// A balance was to be set below zero.
    NegativeBalance {
        /// The balance asked for.
        amount: int,
        /// Whose balance.
        owner: ActorID,
    },
}

/// What an operation on the books leads to: the new books with an amount to report, or a refusal.
pub type Outcome<K> = Result<(Ledger<K>, int), StateFault>;

/// Adding to a balance; the new balance is reported.
pub open spec fn change_balance<K>(l: Ledger<K>, owner: ActorID, key: K, delta: int) -> Outcome<K> {
    let balance = l.balance(key);
    if delta == 0 {
        Ok((l, balance))
    } else if balance + delta < 0 {
        Err(StateFault::InsufficientBalance { owner, balance, delta })
    } else if !store::storable(balance + delta) {
        Err(StateFault::Storage)
    } else {
        Ok((l.with_balance(key, balance + delta), balance + delta))
    }
}

/// Setting a balance; the old balance is reported.
pub open spec fn set_balance<K>(l: Ledger<K>, owner: ActorID, key: K, balance: int) -> Outcome<K> {
    if balance < 0 {
        Err(StateFault::NegativeBalance { amount: balance, owner })
    } else if !store::storable(balance) {
        Err(StateFault::Storage)
    } else {
        Ok((l.with_balance(key, balance), l.balance(key)))
    }
}

/// Adding to the supply; the new supply is reported.
pub open spec fn change_supply<K>(l: Ledger<K>, delta: int) -> Outcome<K> {
    if l.supply + delta < 0 {
        Err(StateFault::NegativeTotalSupply { supply: l.supply, delta })
    } else {
        Ok((l.with_supply(l.supply + delta), l.supply + delta))
    }
}

/// Adding to an allowance, which stops at zero; the new allowance is reported.
pub open spec fn change_allowance<K>(l: Ledger<K>, owner: K, operator: K, delta: int) -> Outcome<K> {
    let sum = l.allowance(owner, operator) + delta;
    let allowance = if sum < 0 { 0 } else { sum };
    if delta == 0 {
        Ok((l, sum))
    } else if !store::storable(allowance) {
        Err(StateFault::Storage)
    } else {
        Ok((l.with_allowance(owner, operator, allowance), allowance))
    }
}

/// Taking an allowance back; the old allowance is reported.
pub open spec fn revoke_allowance<K>(l: Ledger<K>, owner: K, operator: K) -> Outcome<K> {
    Ok((l.with_allowance(owner, operator, 0), l.allowance(owner, operator)))
}

/// Setting an allowance; the old allowance is reported.
pub open spec fn set_allowance<K>(
    l: Ledger<K>,
    owner: ActorID,
    owner_key: K,
    operator: ActorID,
    operator_key: K,
    amount: int,
) -> Outcome<K> {
    if amount < 0 {
        Err(StateFault::NegativeAllowance { amount, owner, operator })
    } else if !store::storable(amount) {
        Err(StateFault::Storage)
    } else {
        Ok((
            l.with_allowance(owner_key, operator_key, amount),
            l.allowance(owner_key, operator_key),
        ))
    }
}

/// Spending from an allowance; what is left of it is reported. An operator without an allowance is
/// refused even a zero amount, unless the tokens are its own.
pub open spec fn use_allowance<K>(
    l: Ledger<K>,
    operator: ActorID,
    operator_key: K,
    owner: ActorID,
    owner_key: K,
    amount: int,
) -> Outcome<K> {
    let allowance = l.allowance(owner_key, operator_key);
    if (allowance == 0 && operator != owner) || (amount != 0 && allowance < amount) {
        Err(
            StateFault::InsufficientAllowance {
                owner: AddressView::ID(owner),
                operator: AddressView::ID(operator),
                allowance,
                delta: amount,
            },
        )
    } else {
        change_allowance(l, owner_key, operator_key, -amount)
    }
}

/// An account: the actor, and the key under which it is kept.
pub struct Account<K> {
    /// The actor.
    pub id: ActorID,
    /// The key.
    pub key: K,
}

/// Making tokens for an owner, or taking them away where the amount is negative: the balance and
/// the supply change alike. The new balance is reported.
pub open spec fn issue<K>(l: Ledger<K>, owner: Account<K>, amount: int) -> Outcome<K> {
    match change_balance(l, owner.id, owner.key, amount) {
        Ok((m, balance)) => match change_supply(m, amount) {
            Ok((n, _)) => Ok((n, balance)),
            Err(fault) => Err(fault),
        },
        Err(fault) => Err(fault),
    }
}

/// Taking tokens away from an owner on behalf of an operator, who spends as much of the allowance.
/// The new balance and what is left of the allowance are reported.
pub open spec fn burn_from<K>(l: Ledger<K>, operator: Account<K>, owner: Account<K>, amount: int) -> Result<
    (Ledger<K>, int, int),
    StateFault,
> {
    match use_allowance(l, operator.id, operator.key, owner.id, owner.key, amount) {
        Ok((m, allowance)) => match issue(m, owner, -amount) {
            Ok((n, balance)) => Ok((n, balance, allowance)),
            Err(fault) => Err(fault),
        },
        Err(fault) => Err(fault),
    }
}

/// Moving tokens from one account to another. Tokens that stay where they are must be there. The
/// amount is reported.
pub open spec fn move_tokens<K>(l: Ledger<K>, from: Account<K>, to: Account<K>, amount: int) -> Outcome<K> {
    if from.id == to.id {
        if l.balance(from.key) < amount {
            Err(
                StateFault::InsufficientBalance {
                    owner: from.id,
                    balance: l.balance(from.key),
                    delta: -amount,
                },
            )
        } else {
            Ok((l, amount))
        }
    } else {
        match change_balance(l, to.id, to.key, amount) {
            Ok((m, _)) => match change_balance(m, from.id, from.key, -amount) {
                Ok((n, _)) => Ok((n, amount)),
                Err(fault) => Err(fault),
            },
            Err(fault) => Err(fault),
        }
    }
}

/// Moving tokens on behalf of an operator, who spends as much of the allowance. What is left of the
/// allowance is reported.
pub open spec fn move_from<K>(
    l: Ledger<K>,
    operator: Account<K>,
    from: Account<K>,
    to: Account<K>,
    amount: int,
) -> Outcome<K> {
    match use_allowance(l, operator.id, operator.key, from.id, from.key, amount) {
        Ok((m, allowance)) => match move_tokens(m, from, to, amount) {
            Ok((n, _)) => Ok((n, allowance)),
            Err(fault) => Err(fault),
        },
        Err(fault) => Err(fault),
    }
}

/// Setting a balance, and the supply with it; the old balance is reported.
pub open spec fn reset_balance<K>(l: Ledger<K>, owner: Account<K>, balance: int) -> Outcome<K> {
    match set_balance(l, owner.id, owner.key, balance) {
        Ok((m, before)) => Ok((m.with_supply(m.supply + balance - before), before)),
        Err(fault) => Err(fault),
    }
}

} // verus!
