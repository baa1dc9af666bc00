//! A helper that loads and saves the state of a token with every operation.
use vstd::prelude::*;

use crate::amount::TokenAmount;
use crate::bytes::{ActorID, Cid};
use crate::fil_fungible_token::state as signed_state;
use crate::fil_fungible_token::state::Books;
use crate::fil_token::errors::{ActorError, ActorFault};
use crate::fil_token::runtime::Runtime;
use crate::fil_token::state;
use crate::fil_token::state::TokenState;
use crate::ledger;
use crate::ledger::{Account, Outcome, StateFault};
use crate::store;
use crate::store::Store;

verus! {

/// Library functions that implement core FRC-0046 standards
///
/// Holds injectable services to access/interface with IPLD/FVM layer.
pub struct TokenHelper<R: Runtime> {
    /// Injected blockstore
    pub bs: Store,
    /// Access to the runtime
    pub runtime: R,
    /// Root of the token state tree
    pub token_state: Cid,
}

/// The supply in a state as it is written.
pub open spec fn supply_of(record: signed_state::StateRecord) -> int {
    record.0
}

/// An actor's account in the trees.
pub open spec fn account(id: ActorID) -> Account<ActorID> {
    Account { id, key: id }
}

/// Making tokens for a holder: the balance and the supply grow alike. The new balance is reported.
pub open spec fn minting(books: Books, holder: ActorID, value: int) -> Outcome<ActorID> {
    match ledger::change_balance(books, holder, holder, value) {
        Ok((after, balance)) => Ok((after.with_supply(after.supply + value), balance)),
        Err(fault) => Err(fault),
    }
}

/// Burning tokens of a target. An operator other than the target spends from an allowance. The new
/// balance is reported.
pub open spec fn burning(books: Books, operator: ActorID, target: ActorID, value: int) -> Outcome<ActorID> {
    if operator == target {
        ledger::issue(books, account(target), -value)
    } else {
        match state::spending(books, operator, target, value) {
            Ok((spent, _)) => ledger::issue(spent, account(target), -value),
            Err(fault) => Err(fault),
        }
    }
}

/// Whether an operation was carried out on the books and the new state saved, or why not: the amount
/// was negative, the state could not be read, the operation is refused, or the new supply cannot be
/// written. Then the state is as it was.
pub open spec fn carried_out<R: Runtime, T>(
    before: TokenHelper<R>,
    after: TokenHelper<R>,
    negative: bool,
    wanted: Outcome<ActorID>,
    r: Result<T, ActorError>,
) -> bool {
    &&& store::kept(before.bs@, after.bs@)
    &&& r is Err ==> after.token_state == before.token_state
    &&& if negative {
        r is Err && r->Err_0@ == ActorFault::Arithmetic
    } else if !state::readable(before.bs@, before.token_state@) {
        r is Err && r->Err_0@ == ActorFault::State(
            state::unreadable(before.bs@, before.token_state@),
        )
    } else {
        before.books() is Some ==> match wanted {
            Ok((books, _)) => if store::storable(books.supply) {
                r is Ok && after.books() == Some(books)
            } else {
                r is Err && r->Err_0@ == ActorFault::State(StateFault::Serialization)
            },
            Err(fault) => r is Err && r->Err_0@ == ActorFault::State(fault),
        }
    }
}

/// The refusal of a negative amount
fn negative() -> (r: ActorError)
    ensures
        r@ == ActorFault::Arithmetic,
{
    ActorError::Arithmetic("the amount was negative".to_owned())
}

impl<R: Runtime> TokenHelper<R> {
    /// The books that the token keeps. `None` where its state or the trees cannot be read.
    pub open spec fn books(&self) -> Option<Books> {
        if state::readable(self.bs@, self.token_state@) {
            signed_state::books_at(
                self.bs@,
                signed_state::state_record(self.bs@[self.token_state@])->0,
            )
        } else {
            None
        }
    }

    /// Instantiate a token helper with access to a blockstore and runtime
    pub fn new(bs: Store, runtime: R, token_state: Cid) -> (r: Self)
        ensures
            r.bs == bs,
            r.runtime == runtime,
            r.token_state == token_state,
    {
        TokenHelper { bs, runtime, token_state }
    }

    /// Constructs the token state tree and saves it at a CID
    pub fn init_state(&mut self) -> (r: Result<Cid, ActorError>)
        ensures
            store::kept(old(self).bs@, final(self).bs@),
            r is Ok,
            r->Ok_0@ == final(self).token_state@,
            final(self).books() == Some(Books::empty()),
    {
        let ghost blocks = self.bs@;
        let init_state = match TokenState::new(&mut self.bs) {
            Ok(state) => state,
            Err(e) => return Err(ActorError::from(e)),
        };
        let ghost between = self.bs@;
        proof {
            assert(store::storable(0)) by {
                vstd::arithmetic::power2::lemma_pow2_pos(1016);
            }
            assert(init_state.ledger(between)->0.supply == 0);
        }
        let cid = match init_state.save(&mut self.bs) {
            Ok(cid) => cid,
            Err(e) => return Err(ActorError::from(e)),
        };
        proof {
            store::lemma_kept_trans(blocks, between, self.bs@);
            signed_state::lemma_books_kept(init_state.record(), between, self.bs@);
        }
        self.token_state = cid.clone();
        Ok(cid)
    }

    /// Helper function that loads the root of the state tree related to token-accounting
    fn load_state(&self) -> (r: Result<TokenState, ActorError>)
        ensures
            r is Ok == state::readable(self.bs@, self.token_state@),
            r is Ok ==> r->Ok_0.ledger(self.bs@) == self.books(),
            r is Err ==> r->Err_0@ == ActorFault::State(
                state::unreadable(self.bs@, self.token_state@),
            ),
    {
        match TokenState::load(&self.bs, &self.token_state) {
            Ok(state) => Ok(state),
            Err(e) => Err(ActorError::from(e)),
        }
    }

    /// Saves a state as the new one
    fn commit(&mut self, state: TokenState) -> (r: Result<(), ActorError>)
        ensures
            store::kept(old(self).bs@, final(self).bs@),
            r is Ok == store::storable(state.supply@),
            r is Err ==> r->Err_0@ == ActorFault::State(StateFault::Serialization)
                && final(self).token_state == old(self).token_state,
            r is Ok && state.ledger(old(self).bs@) is Some ==> final(self).books() == state.ledger(
                old(self).bs@,
            ),
    {
        let ghost blocks = self.bs@;
        match state.save(&mut self.bs) {
            Ok(cid) => {
                self.token_state = cid;
                proof {
                    if state.ledger(blocks) is Some {
                        signed_state::lemma_books_kept(state.record(), blocks, self.bs@);
                    }
                }
                Ok(())
            },
            Err(e) => Err(ActorError::from(e)),
        }
    }

    /// Gets the total number of tokens in existence
    ///
    /// This equals the sum of `balance_of` called on all addresses. This equals sum of all
    /// successful `mint` calls minus the sum of all successful `burn`/`burn_from` calls
    pub fn total_supply(&self) -> (r: TokenAmount)
        requires
            state::readable(self.bs@, self.token_state@),
        ensures
            supply_of(signed_state::state_record(self.bs@[self.token_state@])->0) == r@,
            self.books() is Some ==> r@ == self.books()->0.supply,
    {
        match TokenState::load(&self.bs, &self.token_state) {
            Ok(state) => state.supply,
            Err(_) => TokenAmount::zero(),
        }
    }

    /// Returns the balance associated with a particular address
    ///
    /// Accounts that have never received transfers implicitly have a zero-balance
    pub fn balance_of(&self, holder: ActorID) -> (r: Result<TokenAmount, ActorError>)
        ensures
            !state::readable(self.bs@, self.token_state@) ==> r is Err && r->Err_0@
                == ActorFault::State(state::unreadable(self.bs@, self.token_state@)),
            self.books() is Some ==> r is Ok && r->Ok_0@ == self.books()->0.balance(holder),
    {
        match self.load_state() {
            Ok(state) => match state.get_balance(&self.bs, holder) {
                Ok(balance) => Ok(balance),
                Err(e) => Err(ActorError::from(e)),
            },
            Err(e) => Err(e),
        }
    }

    /// Gets the allowance between owner and spender
    ///
    /// The allowance is the amount that the spender can transfer or burn out of the owner's account
    /// via the `transfer_from` and `burn_from` methods.
    pub fn allowance(&self, owner: ActorID, spender: ActorID) -> (r: Result<TokenAmount, ActorError>)
        ensures
            !state::readable(self.bs@, self.token_state@) ==> r is Err && r->Err_0@
                == ActorFault::State(state::unreadable(self.bs@, self.token_state@)),
            self.books() is Some ==> r is Ok && r->Ok_0@ == self.books()->0.allowance(
                owner,
                spender,
            ),
    {
        match self.load_state() {
            Ok(state) => match state.get_allowance_between(&self.bs, owner, spender) {
                Ok(allowance) => Ok(allowance),
                Err(e) => Err(ActorError::from(e)),
            },
            Err(e) => Err(e),
        }
    }

    /// Mints the specified value of tokens into an account
    ///
    /// The mint amount must be non-negative or the method returns an error.
    pub fn mint(&mut self, initial_holder: ActorID, value: TokenAmount) -> (r: Result<(), ActorError>)
        ensures
            carried_out(
                *old(self),
                *final(self),
                value@ < 0,
                minting(old(self).books()->0, initial_holder, value@),
                r,
            ),
    {
        if value.is_negative() {
            return Err(negative());
        }
        let ghost blocks = self.bs@;
        let mut state = match self.load_state() {
            Ok(state) => state,
            Err(e) => return Err(e),
        };
        let _balance = match state.increase_balance(&mut self.bs, initial_holder, &value) {
            Ok(done) => done,
            Err(e) => return Err(ActorError::from(e)),
        };
        state.increase_supply(&value);
        let ghost between = self.bs@;
        match self.commit(state) {
            Ok(()) => {
                proof {
                    store::lemma_kept_trans(blocks, between, self.bs@);
                }
                Ok(())
            },
            Err(e) => {
                proof {
                    store::lemma_kept_trans(blocks, between, self.bs@);
                }
                Err(e)
            },
        }
    }

    /// Increase the allowance that a spender controls of the owner's balance by the requested delta
    ///
    /// Returns an error if requested delta is negative or there are errors in (de)sereliazation of
    /// state. Else returns the new allowance.
    pub fn increase_allowance(&mut self, owner: ActorID, spender: ActorID, delta: TokenAmount) -> (r: Result<TokenAmount, ActorError>)
        ensures
            carried_out(
                *old(self),
                *final(self),
                delta@ < 0,
                ledger::change_allowance(old(self).books()->0, owner, spender, delta@),
                r,
            ),
            old(self).books() is Some && r is Ok ==> r->Ok_0@ == ledger::change_allowance(old(self).books()->0, owner, spender, delta@)->Ok_0.1,
    {
        if delta.is_negative() {
            return Err(negative());
        }
        let ghost blocks = self.bs@;
        let mut state = match self.load_state() {
            Ok(state) => state,
            Err(e) => return Err(e),
        };
        let allowance = match state.increase_allowance(&mut self.bs, owner, spender, &delta) {
            Ok(done) => done,
            Err(e) => return Err(ActorError::from(e)),
        };
        let ghost between = self.bs@;
        match self.commit(state) {
            Ok(()) => {
                proof {
                    store::lemma_kept_trans(blocks, between, self.bs@);
                }
                Ok(allowance)
            },
            Err(e) => {
                proof {
                    store::lemma_kept_trans(blocks, between, self.bs@);
                }
                Err(e)
            },
        }
    }

    /// Decrease the allowance that a spender controls of the owner's balance by the requested delta
    ///
    /// If the resulting allowance would be negative, the allowance between owner and spender is set
    /// to zero. If resulting allowance is zero, the entry is removed from the state map. Returns an
    /// error if requested delta is negative. Else returns the new allowance
    pub fn decrease_allowance(&mut self, owner: ActorID, spender: ActorID, delta: TokenAmount) -> (r: Result<TokenAmount, ActorError>)
        ensures
            carried_out(
                *old(self),
                *final(self),
                delta@ < 0,
                ledger::change_allowance(old(self).books()->0, owner, spender, -delta@),
                r,
            ),
            old(self).books() is Some && r is Ok ==> r->Ok_0@ == ledger::change_allowance(old(self).books()->0, owner, spender, -delta@)->Ok_0.1,
    {
        if delta.is_negative() {
            return Err(negative());
        }
        let ghost blocks = self.bs@;
        let mut state = match self.load_state() {
            Ok(state) => state,
            Err(e) => return Err(e),
        };
        let allowance = match state.decrease_allowance(&mut self.bs, owner, spender, &delta) {
            Ok(done) => done,
            Err(e) => return Err(ActorError::from(e)),
        };
        let ghost between = self.bs@;
        match self.commit(state) {
            Ok(()) => {
                proof {
                    store::lemma_kept_trans(blocks, between, self.bs@);
                }
                Ok(allowance)
            },
            Err(e) => {
                proof {
                    store::lemma_kept_trans(blocks, between, self.bs@);
                }
                Err(e)
            },
        }
    }

    /// Sets the allowance between owner and spender to 0
    pub fn revoke_allowance(&mut self, owner: ActorID, spender: ActorID) -> (r: Result<(), ActorError>)
        ensures
            carried_out(
                *old(self),
                *final(self),
                false,
                ledger::revoke_allowance(old(self).books()->0, owner, spender),
                r,
            ),
    {
        let ghost blocks = self.bs@;
        let mut state = match self.load_state() {
            Ok(state) => state,
            Err(e) => return Err(e),
        };
        let _revoked = match state.revoke_allowance(&mut self.bs, owner, spender) {
            Ok(done) => done,
            Err(e) => return Err(ActorError::from(e)),
        };
        let ghost between = self.bs@;
        match self.commit(state) {
            Ok(()) => {
                proof {
                    store::lemma_kept_trans(blocks, between, self.bs@);
                }
                Ok(())
            },
            Err(e) => {
                proof {
                    store::lemma_kept_trans(blocks, between, self.bs@);
                }
                Err(e)
            },
        }
    }

    /// Burns an amount of token from the specified address, decreasing total token supply
    ///
    /// ## For all burn operations
    /// Preconditions:
    /// - The requested value MUST be non-negative
    /// - The requested value MUST NOT exceed the target's balance
    ///
    /// Postconditions:
    /// - The target's balance MUST decrease by the requested value
    /// - The total_supply MUST decrease by the requested value
    ///
    /// ## Operator equals target address
    /// If the operator is the targeted address, they are implicitly approved to burn an unlimited
    /// amount of tokens (up to their balance)
    ///
    /// ## Operator burning on behalf of target address
    /// If the operator is burning on behalf of the target token holder the following preconditions
    /// must be met on top of the general burn conditions:
    /// - The operator MUST have an allowance not less than the requested value
    /// In addition to the general postconditions:
    /// - The target-operator allowance MUST decrease by the requested value
    ///
    /// If the burn operation would result in a negative balance for the targeted address, the burn
    /// is discarded and this method returns an error
    pub fn burn(&mut self, operator: ActorID, target: ActorID, value: TokenAmount) -> (r: Result<TokenAmount, ActorError>)
        ensures
            carried_out(
                *old(self),
                *final(self),
                value@ < 0,
                burning(old(self).books()->0, operator, target, value@),
                r,
            ),
            old(self).books() is Some && r is Ok ==> r->Ok_0@ == burning(old(self).books()->0, operator, target, value@)->Ok_0.1,
    {
        if value.is_negative() {
            return Err(negative());
        }
        let ghost blocks = self.bs@;
        let mut state = match self.load_state() {
            Ok(state) => state,
            Err(e) => return Err(e),
        };
        if operator != target {
            // attempt to use allowance and return early if not enough
            match state.attempt_use_allowance(&mut self.bs, operator, target, &value) {
                Ok(_) => {},
                Err(e) => return Err(ActorError::from(e)),
            }
        }
        let ghost spent = self.bs@;
        proof {
            store::lemma_kept_trans(blocks, spent, spent);
        }
        // attempt to burn the requested amount
        let burnt = state.attempt_burn(&mut self.bs, target, &value);
        proof {
            store::lemma_kept_trans(blocks, spent, self.bs@);
        }
        let balance = match burnt {
            Ok(balance) => balance,
            Err(e) => return Err(ActorError::from(e)),
        };
        let ghost between = self.bs@;
        match self.commit(state) {
            Ok(()) => {
                proof {
                    store::lemma_kept_trans(blocks, between, self.bs@);
                }
                Ok(balance)
            },
            Err(e) => {
                proof {
                    store::lemma_kept_trans(blocks, between, self.bs@);
                }
                Err(e)
            },
        }
    }
}

} // verus!
