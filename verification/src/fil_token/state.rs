//! The state of a token, whose balances and allowances only ever grow or shrink by amounts that are
//! not negative.
use vstd::prelude::*;

use crate::address::{Address, AddressView};
use crate::amount::TokenAmount;
use crate::bytes::{ActorID, Cid};
use crate::fil_fungible_token::state;
use crate::fil_fungible_token::state::{Books, StateError};
use crate::ledger;
use crate::ledger::{Outcome, StateFault};
use crate::store;
use crate::store::{Blocks, Store};

verus! {

/// Token state IPLD structure
#[derive(Debug, PartialEq, Eq)]
pub struct TokenState {
    /// Total supply of token
    pub supply: TokenAmount,
    /// Map of balances by owner, the root of its tree
    pub balances: Cid,
    /// Map of allowances by owner and spender, the root of a tree of trees
    pub allowances: Cid,
}

/// Whether a call did to the state what an operation does to the books: success with the new
/// books, or the operation's refusal and no change. Where the trees cannot be read, it may fail,
/// and then leaves the state as it was.
pub open spec fn performs(
    before: TokenState,
    blocks_before: Blocks,
    after: TokenState,
    blocks_after: Blocks,
    r: Result<TokenAmount, StateError>,
    wanted: Outcome<ActorID>,
) -> bool {
    &&& store::kept(blocks_before, blocks_after)
    &&& r is Err ==> after == before
    &&& before.ledger(blocks_before) is Some ==> match wanted {
        Ok((books, amount)) => {
            &&& r is Ok
            &&& r->Ok_0@ == amount
            &&& after.ledger(blocks_after) == Some(books)
        },
        Err(fault) => r is Err && r->Err_0@ == fault,
    }
}

/// An abstraction over the IPLD layer to get and modify token state without dealing with HAMTs etc.
impl TokenState {
    /// The state as it is written to a block.
    pub open spec fn record(self) -> state::StateRecord {
        (self.supply@, self.balances@, self.allowances@)
    }

    /// The books that the state keeps in these blocks. `None` where the trees are not complete.
    pub open spec fn ledger(self, blocks: Blocks) -> Option<Books> {
        state::books_at(blocks, self.record())
    }

    /// The same supply and trees, with the operations by signed amounts
    fn signed(&self) -> (r: state::TokenState)
        ensures
            r.record() == self.record(),
    {
        state::TokenState {
            supply: self.supply.clone(),
            balances: self.balances.clone(),
            allowances: self.allowances.clone(),
        }
    }

    /// A state from supply and trees
    fn unsigned(signed: state::TokenState) -> (r: Self)
        ensures
            r.record() == signed.record(),
    {
        TokenState {
            supply: signed.supply,
            balances: signed.balances,
            allowances: signed.allowances,
        }
    }

    /// Create a new token state-tree, without committing it to a blockstore
    pub fn new(bs: &mut Store) -> (r: Result<Self, StateError>)
        ensures
            store::kept(old(bs)@, final(bs)@),
            r is Ok,
            r->Ok_0.ledger(final(bs)@) == Some(Books::empty()),
    {
        match state::TokenState::new(bs) {
            Ok(made) => Ok(Self::unsigned(made)),
            Err(e) => Err(e),
        }
    }

    /// Loads a fresh copy of the state from a blockstore from a given cid
    pub fn load(bs: &Store, cid: &Cid) -> (r: Result<Self, StateError>)
        ensures
            r is Ok == readable(bs@, cid@),
            r is Ok ==> state::state_record(bs@[cid@]) == Some(r->Ok_0.record()),
            r is Err ==> r->Err_0@ == unreadable(bs@, cid@),
    {
        match state::TokenState::load(bs, cid) {
            Ok(loaded) => Ok(Self::unsigned(loaded)),
            Err(e) => Err(e),
        }
    }

    /// Saves the current state to the blockstore
    pub fn save(&self, bs: &mut Store) -> (r: Result<Cid, StateError>)
        ensures
            store::kept(old(bs)@, final(bs)@),
            r is Ok == store::storable(self.supply@),
            r is Err ==> r->Err_0@ == StateFault::Serialization && final(bs)@ == old(bs)@,
            r is Ok ==> readable(final(bs)@, r->Ok_0@) && state::state_record(
                final(bs)@[r->Ok_0@],
            ) == Some(self.record()),
    {
        self.signed().save(bs)
    }

    /// Get the balance of an ActorID from the currently stored state
    pub fn get_balance(&self, bs: &Store, owner: ActorID) -> (r: Result<TokenAmount, StateError>)
        ensures
            self.ledger(bs@) is Some ==> r is Ok && r->Ok_0@ == self.ledger(bs@)->0.balance(owner),
            r is Err ==> r->Err_0 is IpldHamt,
    {
        self.signed().get_balance(bs, owner)
    }

    /// Attempts to increase the balance of the specified account by the value
    ///
    /// The requested amount must be non-negative.
    /// Returns an error if the balance overflows, else returns the new balance
    pub fn increase_balance(&mut self, bs: &mut Store, actor: ActorID, value: &TokenAmount) -> (r:
        Result<TokenAmount, StateError>)
        requires
            value@ >= 0,
        ensures
            performs(
                *old(self),
                old(bs)@,
                *final(self),
                final(bs)@,
                r,
                ledger::change_balance(old(self).ledger(old(bs)@)->0, actor, actor, value@),
            ),
    {
        let mut next = self.signed();
        match next.change_balance_by(bs, actor, value) {
            Ok(balance) => {
                *self = Self::unsigned(next);
                Ok(balance)
            },
            Err(e) => Err(e),
        }
    }

    /// Increase the total supply by the specified value
    ///
    /// The requested amount must be non-negative.
    /// Returns the new total supply
    pub fn increase_supply(&mut self, value: &TokenAmount) -> (r: TokenAmount)
        requires
            value@ >= 0,
        ensures
            final(self).balances == old(self).balances,
            final(self).allowances == old(self).allowances,
            final(self).supply@ == old(self).supply@ + value@,
            r@ == final(self).supply@,
    {
        let new_supply = self.supply.plus(value);
        self.supply = new_supply.clone();
        new_supply
    }

    /// Get the allowance that an owner has approved for a spender
    ///
    /// If an existing allowance cannot be found, it is implicitly assumed to be zero
    pub fn get_allowance_between(&self, bs: &Store, owner: ActorID, spender: ActorID) -> (r: Result<
        TokenAmount,
        StateError,
    >)
        ensures
            self.ledger(bs@) is Some ==> r is Ok && r->Ok_0@ == self.ledger(bs@)->0.allowance(
                owner,
                spender,
            ),
            r is Err ==> r->Err_0 is IpldHamt,
    {
        self.signed().get_allowance_between(bs, owner, spender)
    }

    /// Increase the allowance between owner and spender by the specified value
    ///
    /// Caller must ensure that value is non-negative.
    pub fn increase_allowance(
        &mut self,
        bs: &mut Store,
        owner: ActorID,
        spender: ActorID,
        value: &TokenAmount,
    ) -> (r: Result<TokenAmount, StateError>)
        requires
            value@ >= 0,
        ensures
            performs(
                *old(self),
                old(bs)@,
                *final(self),
                final(bs)@,
                r,
                ledger::change_allowance(
                    old(self).ledger(old(bs)@)->0,
                    owner,
                    spender,
                    value@,
                ),
            ),
    {
        let mut next = self.signed();
        match next.change_allowance_by(bs, owner, spender, value) {
            Ok(allowance) => {
                *self = Self::unsigned(next);
                Ok(allowance)
            },
            Err(e) => Err(e),
        }
    }

    /// Decrease the allowance between owner and spender by the specified value. If the resulting
    /// allowance is negative, it is set to zero.
    ///
    /// Caller must ensure that value is non-negative.
    ///
    /// If the allowance is decreased to zero, the entry is removed from the map.
    /// If the map is empty, it is removed from the root map.
    pub fn decrease_allowance(
        &mut self,
        bs: &mut Store,
        owner: ActorID,
        spender: ActorID,
        value: &TokenAmount,
    ) -> (r: Result<TokenAmount, StateError>)
        requires
            value@ >= 0,
        ensures
            performs(
                *old(self),
                old(bs)@,
                *final(self),
                final(bs)@,
                r,
                ledger::change_allowance(
                    old(self).ledger(old(bs)@)->0,
                    owner,
                    spender,
                    -value@,
                ),
            ),
    {
        let mut next = self.signed();
        match next.change_allowance_by(bs, owner, spender, &value.neg()) {
            Ok(allowance) => {
                *self = Self::unsigned(next);
                Ok(allowance)
            },
            Err(e) => Err(e),
        }
    }

    /// Revokes an approved allowance by removing the entry from the owner-spender map
    ///
    /// If that map becomes empty, it is removed from the root map.
    pub fn revoke_allowance(&mut self, bs: &mut Store, owner: ActorID, spender: ActorID) -> (r: Result<
        (),
        StateError,
    >)
        ensures
            store::kept(old(bs)@, final(bs)@),
            r is Err ==> *final(self) == *old(self),
            old(self).ledger(old(bs)@) is Some ==> r is Ok && final(self).ledger(final(bs)@)
                == Some(old(self).ledger(old(bs)@)->0.with_allowance(owner, spender, 0)),
    {
        let mut next = self.signed();
        match next.revoke_allowance(bs, owner, spender) {
            Ok(_) => {
                *self = Self::unsigned(next);
                Ok(())
            },
            Err(e) => Err(e),
        }
    }

    /// Burns tokens of a target: its balance and the supply decrease alike; the new balance
    pub fn attempt_burn(&mut self, bs: &mut Store, target: ActorID, value: &TokenAmount) -> (r: Result<
        TokenAmount,
        StateError,
    >)
        requires
            value@ >= 0,
        ensures
            performs(
                *old(self),
                old(bs)@,
                *final(self),
                final(bs)@,
                r,
                ledger::issue(
                    old(self).ledger(old(bs)@)->0,
                    ledger::Account { id: target, key: target },
                    -value@,
                ),
            ),
    {
        let mut next = self.signed();
        let debit = value.neg();
        let balance = match next.change_balance_by(bs, target, &debit) {
            Ok(balance) => balance,
            Err(e) => return Err(e),
        };
        match next.change_supply_by(&debit) {
            Ok(_) => {
                *self = Self::unsigned(next);
                Ok(balance)
            },
            Err(e) => Err(e),
        }
    }

    /// Spends from an allowance, which has to cover the value; what is left of it
    pub fn attempt_use_allowance(
        &mut self,
        bs: &mut Store,
        operator: ActorID,
        target: ActorID,
        value: &TokenAmount,
    ) -> (r: Result<TokenAmount, StateError>)
        requires
            value@ >= 0,
        ensures
            performs(
                *old(self),
                old(bs)@,
                *final(self),
                final(bs)@,
                r,
                spending(old(self).ledger(old(bs)@)->0, operator, target, value@),
            ),
    {
        let mut next = self.signed();
        let allowance = match next.get_allowance_between(bs, target, operator) {
            Ok(allowance) => allowance,
            Err(e) => return Err(e),
        };
        if allowance.lt(value) {
            return Err(
                StateError::InsufficientAllowance {
                    owner: Address::new_id(target),
                    operator: Address::new_id(operator),
                    allowance,
                    delta: value.clone(),
                },
            );
        }
        match next.change_allowance_by(bs, target, operator, &value.neg()) {
            Ok(left) => {
                *self = Self::unsigned(next);
                Ok(left)
            },
            Err(e) => Err(e),
        }
    }
}

/// Spending from an allowance, which has to cover the value; what is left of it is reported.
pub open spec fn spending(books: Books, operator: ActorID, target: ActorID, value: int) -> Outcome<ActorID> {
    let allowance = books.allowance(target, operator);
    if allowance < value {
        Err(
            StateFault::InsufficientAllowance {
                owner: AddressView::ID(target),
                operator: AddressView::ID(operator),
                allowance,
                delta: value,
            },
        )
    } else {
        ledger::change_allowance(books, target, operator, -value)
    }
}

/// Whether a block holds a state.
pub open spec fn readable(blocks: Blocks, cid: Seq<u8>) -> bool {
    store::cbor_codec(cid) && blocks.contains_key(cid) && state::state_record(blocks[cid]) is Some
}

/// Why a state cannot be loaded.
pub open spec fn unreadable(blocks: Blocks, cid: Seq<u8>) -> StateFault {
    if !blocks.contains_key(cid) {
        StateFault::MissingState(cid)
    } else {
        StateFault::Serialization
    }
}

} // verus!
