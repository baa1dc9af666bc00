//! The state of a fungible token whose accounts are kept under the ids of their actors.
use cid::Cid as BlockCid;
use fvm_ipld_encoding::CborStore;
use fvm_shared::bigint::{BigInt, BigUint, Sign};
use fvm_shared::econ::TokenAmount as Atto;
use vstd::prelude::*;

use crate::address::Address;
use crate::amount::TokenAmount;
use crate::bytes::{ActorID, Cid};
use crate::id_store;
use crate::ledger;
use crate::ledger::{Ledger, Outcome, StateFault};
use crate::store;
use crate::store::{Blocks, Store};

pub use crate::frc46_token::state::{StateError, StateInvariantError};

verus! {

/// The width of the trees.
pub const HAMT_BIT_WIDTH: u32 = 5;

/// Token state IPLD structure
#[derive(Debug, PartialEq, Eq)]
pub struct TokenState {
    /// Total supply of token
    pub supply: TokenAmount,
    /// Map of balances by owner, the root of its tree
    pub balances: Cid,
    /// Map of allowances by owner and operator, the root of a tree of trees
    pub allowances: Cid,
}

/// The books of a token with accounts under the ids of their actors.
pub type Books = Ledger<ActorID>;

impl Clone for TokenState {
    fn clone(&self) -> (r: Self)
        ensures
            r.same_as(*self),
    {
        TokenState {
            supply: self.supply.clone(),
            balances: self.balances.clone(),
            allowances: self.allowances.clone(),
        }
    }
}

/// A state as it is written to a block: supply, root of the balances and root of the allowances.
pub type StateRecord = (int, Seq<u8>, Seq<u8>);

/// The state that a block of CBOR holds, if it holds one.
pub uninterp spec fn state_record(block: Seq<u8>) -> Option<StateRecord>;

/// `to_vec` of `fvm_ipld_encoding` on the state as a tuple. It claims that the encoding fails
/// exactly where the supply cannot be stored, and that reading it gives the state back.
#[verifier::external_body]
fn encode_state(state: &TokenState) -> (r: Result<Vec<u8>, String>)
    ensures
        r is Ok == store::storable(state.supply@),
        r is Ok ==> state_record(r->Ok_0@) == Some(state.record()),
{
    let sign = if state.supply.negative { Sign::Minus } else { Sign::Plus };
    let supply = BigInt::from_biguint(sign, BigUint::new(state.supply.digits.clone()));
    let balances = BlockCid::try_from(state.balances.bytes.as_slice()).unwrap();
    let allowances = BlockCid::try_from(state.allowances.bytes.as_slice()).unwrap();
    let record = (Atto::from_atto(supply), balances, allowances);
    fvm_ipld_encoding::to_vec(&record).map_err(|e| e.to_string())
}

/// `CborStore::get_cbor` of `fvm_ipld_encoding` for the state as a tuple, on a store in memory. It
/// claims that it fails where the identifier is not that of CBOR or the block holds no state, and
/// otherwise gives the state in the block, if there is a block.
#[verifier::external_body]
fn get_state(bs: &Store, cid: &Cid) -> (r: Result<Option<TokenState>, String>)
    ensures
        r is Err == (!store::cbor_codec(cid@) || (bs@.contains_key(cid@) && state_record(bs@[cid@]) is None)),
        r is Ok ==> r->Ok_0 is Some == bs@.contains_key(cid@),
        r is Ok && r->Ok_0 is Some ==> state_record(bs@[cid@]) == Some(r->Ok_0->0.record()),
{
    let cid = BlockCid::try_from(cid.bytes.as_slice()).unwrap();
    let found = bs.inner.get_cbor::<(Atto, BlockCid, BlockCid)>(&cid);
    let found = found.map_err(|e| e.to_string())?;
    Ok(found.map(|(supply, balances, allowances)| TokenState {
        supply: TokenAmount {
            negative: supply.is_negative(),
            digits: supply.atto().magnitude().to_u32_digits(),
        },
        balances: Cid { bytes: balances.to_bytes() },
        allowances: Cid { bytes: allowances.to_bytes() },
    }))
}

/// Whether a call did to the state what an operation does to the books: success with the new
/// books, or the operation's refusal and no change. Where the trees cannot be read, it may fail,
/// and then leaves the state as it was.
pub open spec fn performs(
    before: TokenState,
    blocks_before: Blocks,
    after: TokenState,
    blocks_after: Blocks,
    r: Result<TokenAmount, StateError>,
    wanted: Outcome<ActorID>,
) -> bool {
    &&& store::kept(blocks_before, blocks_after)
    &&& r is Err ==> after == before
    &&& before.ledger(blocks_before) is Some ==> match wanted {
        Ok((books, amount)) => {
            &&& r is Ok
            &&& r->Ok_0@ == amount
            &&& after.ledger(blocks_after) == Some(books)
        },
        Err(fault) => {
            &&& r is Err
            &&& r->Err_0@ == fault
            &&& after.ledger(blocks_after) == before.ledger(blocks_before)
        },
    }
}

/// The books that a state as it is written keeps in these blocks. `None` where the trees are not
/// complete.
pub open spec fn books_at(blocks: Blocks, record: StateRecord) -> Option<Books> {
    match (
        id_store::amounts_at(blocks, record.1, HAMT_BIT_WIDTH),
        id_store::linked_amounts_at(blocks, record.2, HAMT_BIT_WIDTH),
    ) {
        (Some(balances), Some(allowances)) => Some(
            Ledger { supply: record.0, balances, allowances },
        ),
        _ => None,
    }
}

/// Books that are kept read the same.
pub proof fn lemma_books_kept(record: StateRecord, earlier: Blocks, later: Blocks)
    requires
        store::kept(earlier, later),
        books_at(earlier, record) is Some,
    ensures
        books_at(later, record) == books_at(earlier, record),
{
    assert(id_store::amounts_at(earlier, record.1, HAMT_BIT_WIDTH) is Some);
    id_store::lemma_linked_kept(earlier, later, record.2, HAMT_BIT_WIDTH);
}

/// Whether loading from under an identifier gives what its block holds.
pub open spec fn loads(blocks: Blocks, cid: Seq<u8>, r: Result<TokenState, StateError>) -> bool {
    &&& r is Ok == (store::cbor_codec(cid) && blocks.contains_key(cid) && state_record(
        blocks[cid],
    ) is Some)
    &&& r is Ok ==> state_record(blocks[cid]) == Some(r->Ok_0.record())
    &&& r is Err ==> r->Err_0@ == (if !blocks.contains_key(cid) {
        StateFault::MissingState(cid)
    } else {
        StateFault::Serialization
    })
}

/// Whether the block under an identifier holds a state.
pub open spec fn saved_at(blocks: Blocks, cid: Seq<u8>, state: TokenState) -> bool {
    &&& store::cbor_codec(cid)
    &&& blocks.contains_key(cid)
    &&& state_record(blocks[cid]) == Some(state.record())
}

/// A state that was saved can be loaded again, whatever was stored since, and is the same: its
/// numbers and roots are, and its trees hold what they held.
pub proof fn loading_gives_back_what_was_saved(
    saved: TokenState,
    cid: Seq<u8>,
    blocks: Blocks,
    later: Blocks,
    r: Result<TokenState, StateError>,
)
    requires
        saved_at(blocks, cid, saved),
        store::kept(blocks, later),
        loads(later, cid, r),
    ensures
        r is Ok,
        r->Ok_0.record() == saved.record(),
        saved.ledger(blocks) is Some ==> r->Ok_0.ledger(later) == saved.ledger(blocks),
{
    assert(blocks.dom().contains(cid));
    if saved.ledger(blocks) is Some {
        lemma_books_kept(saved.record(), blocks, later);
    }
}

impl TokenState {
    /// Whether two states have the same supply and roots.
    pub open spec fn same_as(self, other: Self) -> bool {
        &&& self.supply@ == other.supply@
        &&& self.balances@ == other.balances@
        &&& self.allowances@ == other.allowances@
    }

    /// The state as it is written to a block.
    pub open spec fn record(self) -> StateRecord {
        (self.supply@, self.balances@, self.allowances@)
    }

    /// The books that the state keeps in these blocks. `None` where the trees are not complete.
    pub open spec fn ledger(self, blocks: Blocks) -> Option<Books> {
        books_at(blocks, self.record())
    }

    /// Get the balance of an ActorID from the currently stored state
    pub fn get_balance(&self, bs: &Store, owner: ActorID) -> (r: Result<TokenAmount, StateError>)
        ensures
            self.ledger(bs@) is Some ==> r is Ok && r->Ok_0@ == self.ledger(bs@)->0.balance(
                owner,
            ),
            self.ledger(bs@) is Some ==> store::storable(r->Ok_0@),
            r is Err ==> r->Err_0 is IpldHamt,
    {
        proof {
            vstd::arithmetic::power2::lemma_pow2_pos(1016);
        }
        match id_store::amounts_get(bs, &self.balances, HAMT_BIT_WIDTH, owner) {
            Ok(Some(amount)) => Ok(amount),
            Ok(None) => Ok(TokenAmount::zero()),
            Err(e) => Err(StateError::IpldHamt(e)),
        }
    }

    /// Changes the balance of the specified account by the delta
    ///
    /// Caller must ensure that the sign of of the delta is consistent with token rules (i.e.
    /// negative transfers, burns etc. are not allowed). Returns the new balance of the account.
    pub fn change_balance_by(
        &mut self,
        bs: &mut Store,
        owner: ActorID,
        delta: &TokenAmount,
    ) -> (r: Result<TokenAmount, StateError>)
        ensures
            performs(
                *old(self),
                old(bs)@,
                *final(self),
                final(bs)@,
                r,
                ledger::change_balance(
                    old(self).ledger(old(bs)@)->0,
                    owner,
                    owner,
                    delta@,
                ),
            ),
            old(self).ledger(old(bs)@) is Some && delta@ <= 0 && r is Err ==> r->Err_0@
                is InsufficientBalance,
    {
        if delta.is_zero() {
            // This is a no-op as far as mutating state
            return self.get_balance(bs, owner);
        }
        let balance = match self.get_balance(bs, owner) {
            Ok(balance) => balance,
            Err(e) => return Err(e),
        };
        let new_balance = balance.plus(delta);
        // if the new_balance is negative, return an error
        if new_balance.is_negative() {
            return Err(StateError::InsufficientBalance { owner, balance, delta: delta.clone() });
        }
        match self.put_balance(bs, owner, &new_balance) {
            Ok(()) => Ok(new_balance),
            Err(e) => Err(e),
        }
    }

    /// Writes a balance to the tree, or takes it out where it is zero
    fn put_balance(&mut self, bs: &mut Store, owner: ActorID, balance: &TokenAmount) -> (r: Result<
        (),
        StateError,
    >)
        ensures
            store::kept(old(bs)@, final(bs)@),
            final(self).supply == old(self).supply,
            r is Err ==> *final(self) == *old(self) && r->Err_0 is IpldHamt,
            old(self).ledger(old(bs)@) is Some ==> r is Ok == store::storable(balance@),
            old(self).ledger(old(bs)@) is Some ==> final(self).ledger(final(bs)@) == (if r is Ok {
                Some(old(self).ledger(old(bs)@)->0.with_balance(owner, balance@))
            } else {
                old(self).ledger(old(bs)@)
            }),
    {
        let key = owner;
        let ghost before = *self;
        let ghost blocks = bs@;
        if balance.is_zero() {
            match id_store::amounts_delete(bs, &self.balances, HAMT_BIT_WIDTH, key) {
                Ok((root, _)) => {
                    self.balances = root;
                },
                Err(e) => return Err(StateError::IpldHamt(e)),
            }
            proof {
                assert(store::storable(0)) by {
                    vstd::arithmetic::power2::lemma_pow2_pos(1016);
                }
            }
        } else {
            match id_store::amounts_set(bs, &self.balances, HAMT_BIT_WIDTH, key, balance) {
                Ok(root) => {
                    self.balances = root;
                },
                Err(e) => {
                    proof {
                        if before.ledger(blocks) is Some {
                            lemma_books_kept(before.record(), blocks, bs@);
                        }
                    }
                    return Err(StateError::IpldHamt(e));
                },
            }
        }
        proof {
            if before.ledger(blocks) is Some {
                id_store::lemma_linked_kept(blocks, bs@, before.allowances@, HAMT_BIT_WIDTH);
            }
        }
        Ok(())
    }

    /// Create a new token state-tree, without committing it (the root cid) to a blockstore
    pub fn new(bs: &mut Store) -> (r: Result<Self, StateError>)
        ensures
            store::kept(old(bs)@, final(bs)@),
            r is Ok,
            r->Ok_0.ledger(final(bs)@) == Some(Books::empty()),
    {
        // The store is still needed to create valid roots for the trees
        let ghost blocks = bs@;
        let empty_balance_map = match store::empty_tree(bs, HAMT_BIT_WIDTH) {
            Ok(root) => root,
            Err(e) => return Err(StateError::IpldHamt(e)),
        };
        let ghost between = bs@;
        let empty_allowances_map = match store::empty_tree(bs, HAMT_BIT_WIDTH) {
            Ok(root) => root,
            Err(e) => return Err(StateError::IpldHamt(e)),
        };
        let state = TokenState {
            supply: TokenAmount::zero(),
            balances: empty_balance_map,
            allowances: empty_allowances_map,
        };
        proof {
            store::lemma_kept_trans(blocks, between, bs@);
            assert(id_store::amounts_at(between, state.balances@, HAMT_BIT_WIDTH) is Some);
            assert(id_store::linked_amounts_at(bs@, state.allowances@, HAMT_BIT_WIDTH)->0 =~= Map::<
                ActorID,
                id_store::Amounts,
            >::empty());
        }
        Ok(state)
    }

    /// Loads a fresh copy of the state from a blockstore from a given cid
    pub fn load(bs: &Store, cid: &Cid) -> (r: Result<Self, StateError>)
        ensures
            loads(bs@, cid@, r),
    {
        if bs.get(cid).is_none() {
            return Err(StateError::MissingState(cid.clone()));
        }
        // Load the actor state from the state tree.
        match get_state(bs, cid) {
            Ok(Some(state)) => Ok(state),
            Ok(None) => Err(StateError::MissingState(cid.clone())),
            Err(err) => Err(StateError::Serialization(err)),
        }
    }

    /// Saves the current state to the blockstore, returning the cid
    ///
    /// What is loaded from that cid is this state.
    pub fn save(&self, bs: &mut Store) -> (r: Result<Cid, StateError>)
        ensures
            store::kept(old(bs)@, final(bs)@),
            r is Ok == store::storable(self.supply@),
            r is Err ==> r->Err_0@ == StateFault::Serialization && final(bs)@ == old(bs)@,
            r is Ok ==> saved_at(final(bs)@, r->Ok_0@, *self),
    {
        let serialized = match encode_state(self) {
            Ok(s) => s,
            Err(err) => return Err(StateError::Serialization(err)),
        };
        Ok(bs.put(serialized))
    }

    /// Increase/decrease the total supply by the specified value
    ///
    /// Returns the new total supply
    pub fn change_supply_by(&mut self, delta: &TokenAmount) -> (r: Result<TokenAmount, StateError>)
        ensures
            final(self).balances == old(self).balances,
            final(self).allowances == old(self).allowances,
            old(self).supply@ + delta@ < 0 ==> *final(self) == *old(self) && r is Err && r->Err_0@
                == (StateFault::NegativeTotalSupply { supply: old(self).supply@, delta: delta@ }),
            old(self).supply@ + delta@ >= 0 ==> r is Ok && r->Ok_0@ == old(self).supply@ + delta@
                && final(self).supply@ == r->Ok_0@,
    {
        let new_supply = self.supply.plus(delta);
        if new_supply.is_negative() {
            return Err(
                StateError::NegativeTotalSupply {
                    supply: self.supply.clone(),
                    delta: delta.clone(),
                },
            );
        }
        self.supply = new_supply.clone();
        Ok(new_supply)
    }

    /// Get the allowance that an owner has approved for a operator
    ///
    /// If an existing allowance cannot be found, it is implicitly assumed to be zero
    pub fn get_allowance_between(
        &self,
        bs: &Store,
        owner: ActorID,
        operator: ActorID,
    ) -> (r: Result<TokenAmount, StateError>)
        ensures
            self.ledger(bs@) is Some ==> r is Ok && r->Ok_0@ == self.ledger(bs@)->0.allowance(
                owner,
                operator,
            ),
            self.ledger(bs@) is Some ==> store::storable(r->Ok_0@),
            r is Err ==> r->Err_0 is IpldHamt,
    {
        proof {
            vstd::arithmetic::power2::lemma_pow2_pos(1016);
        }
        let found = match id_store::links_get(
            bs,
            &self.allowances,
            HAMT_BIT_WIDTH,
            owner,
        ) {
            Ok(found) => found,
            Err(e) => return Err(StateError::IpldHamt(e)),
        };
        match found {
            Some(root) => match id_store::amounts_get(
                bs,
                &root,
                HAMT_BIT_WIDTH,
                operator,
            ) {
                Ok(Some(allowance)) => Ok(allowance),
                Ok(None) => Ok(TokenAmount::zero()),
                Err(e) => Err(StateError::IpldHamt(e)),
            },
            None => Ok(TokenAmount::zero()),
        }
    }

    /// Writes an allowance to the trees, or takes it out where it is zero, together with the
    /// owner's tree where that becomes empty
    fn put_allowance(
        &mut self,
        bs: &mut Store,
        owner: ActorID,
        operator: ActorID,
        allowance: &TokenAmount,
    ) -> (r: Result<(), StateError>)
        ensures
            store::kept(old(bs)@, final(bs)@),
            final(self).supply == old(self).supply,
            r is Err ==> *final(self) == *old(self) && r->Err_0 is IpldHamt,
            old(self).ledger(old(bs)@) is Some ==> r is Ok == store::storable(allowance@),
            old(self).ledger(old(bs)@) is Some ==> final(self).ledger(final(bs)@) == (if r is Ok {
                Some(
                    old(self).ledger(old(bs)@)->0.with_allowance(
                        owner,
                        operator,
                        allowance@,
                    ),
                )
            } else {
                old(self).ledger(old(bs)@)
            }),
    {
        let ghost before = *self;
        let ghost blocks = bs@;
        let ghost whole = before.ledger(blocks) is Some;
        let ghost books = before.ledger(blocks)->0;
        let ghost links = id_store::links_at(blocks, before.allowances@, HAMT_BIT_WIDTH)->0;
        let width: u32 = HAMT_BIT_WIDTH;
        let owner_key = owner;
        let operator_key = operator;
        let found = match id_store::links_get(bs, &self.allowances, width, owner_key) {
            Ok(found) => found,
            Err(e) => return Err(StateError::IpldHamt(e)),
        };
        // get or create the owner's allowance map
        let owner_map = match found {
            Some(root) => root,
            None => match store::empty_tree(bs, width) {
                Ok(root) => root,
                Err(e) => return Err(StateError::IpldHamt(e)),
            },
        };
        let ghost blocks1 = bs@;
        proof {
            if whole {
                lemma_books_kept(before.record(), blocks, blocks1);
                assert(links.contains_key(owner_key) ==> books.allowances[owner_key]
                    == id_store::amounts_at(blocks, links[owner_key], width)->0);
                assert(id_store::amounts_at(blocks1, owner_map@, width) == Some(
                    books.given_by(owner_key),
                ));
            }
        }
        // if the new allowance is zero, we can remove the entry from the state tree
        let changed = if allowance.is_zero() {
            match id_store::amounts_delete(bs, &owner_map, width, operator_key) {
                Ok((root, _)) => Ok(root),
                Err(e) => Err(e),
            }
        } else {
            id_store::amounts_set(bs, &owner_map, width, operator_key, allowance)
        };
        let ghost blocks2 = bs@;
        proof {
            assert(store::storable(0)) by {
                vstd::arithmetic::power2::lemma_pow2_pos(1016);
            }
            store::lemma_kept_trans(blocks, blocks1, blocks2);
            if whole {
                lemma_books_kept(before.record(), blocks, blocks2);
            }
        }
        let changed = match changed {
            Ok(root) => root,
            Err(e) => return Err(StateError::IpldHamt(e)),
        };
        let emptied = match id_store::amounts_is_empty(bs, &changed, width) {
            Ok(emptied) => emptied,
            Err(e) => return Err(StateError::IpldHamt(e)),
        };
        // if the owner-allowance map is empty, remove it from the global allowances map, else
        // update the global map
        let root = if emptied {
            id_store::links_delete(bs, &self.allowances, width, owner_key)
        } else {
            id_store::links_set(bs, &self.allowances, width, owner_key, &changed)
        };
        let ghost blocks3 = bs@;
        proof {
            store::lemma_kept_trans(blocks, blocks2, blocks3);
            if whole {
                lemma_books_kept(before.record(), blocks, blocks3);
            }
        }
        match root {
            Ok(root) => {
                self.allowances = root;
            },
            Err(e) => return Err(StateError::IpldHamt(e)),
        }
        proof {
            if whole {
                let wanted = books.with_allowance(
                    owner,
                    operator,
                    allowance@,
                ).allowances;
                let now = id_store::links_at(blocks3, self.allowances@, width)->0;
                assert forall|k: ActorID| #[trigger] now.contains_key(k) implies id_store::amounts_at(
                    blocks3,
                    now[k],
                    width,
                ) is Some && wanted.contains_key(k) && id_store::amounts_at(blocks3, now[k], width)->0
                    == wanted[k] by {
                    if k == owner {
                        assert(id_store::amounts_at(blocks2, changed@, width) is Some);
                    } else {
                        assert(links.contains_key(k));
                        assert(id_store::amounts_at(blocks, links[k], width) is Some);
                    }
                }
                assert(id_store::linked_amounts_at(blocks3, self.allowances@, width)->0 =~= wanted);
            }
        }
        Ok(())
    }

    /// Change the allowance between owner and operator by the specified delta
    pub fn change_allowance_by(
        &mut self,
        bs: &mut Store,
        owner: ActorID,
        operator: ActorID,
        delta: &TokenAmount,
    ) -> (r: Result<TokenAmount, StateError>)
        ensures
            performs(
                *old(self),
                old(bs)@,
                *final(self),
                final(bs)@,
                r,
                ledger::change_allowance(
                    old(self).ledger(old(bs)@)->0,
                    owner,
                    operator,
                    delta@,
                ),
            ),
    {
        let existing = match self.get_allowance_between(bs, owner, operator) {
            Ok(existing) => existing,
            Err(e) => return Err(e),
        };
        if delta.is_zero() {
            // This is a no-op as far as mutating state
            return Ok(existing);
        }
        // calculate new allowance (max with zero)
        let new_allowance = existing.plus(delta).max(&TokenAmount::zero());
        match self.put_allowance(bs, owner, operator, &new_allowance) {
            Ok(()) => Ok(new_allowance),
            Err(e) => Err(e),
        }
    }

    /// Revokes an approved allowance by removing the entry from the owner-operator map
    ///
    /// If that map becomes empty, it is removed from the root map. Returns the old allowance
    pub fn revoke_allowance(&mut self, bs: &mut Store, owner: ActorID, operator: ActorID) -> (r:
        Result<TokenAmount, StateError>)
        ensures
            performs(
                *old(self),
                old(bs)@,
                *final(self),
                final(bs)@,
                r,
                ledger::revoke_allowance(
                    old(self).ledger(old(bs)@)->0,
                    owner,
                    operator,
                ),
            ),
    {
        let old_allowance = match self.get_allowance_between(bs, owner, operator) {
            Ok(allowance) => allowance,
            Err(e) => return Err(e),
        };
        proof {
            assert(store::storable(0)) by {
                vstd::arithmetic::power2::lemma_pow2_pos(1016);
            }
        }
        match self.put_allowance(bs, owner, operator, &TokenAmount::zero()) {
            Ok(()) => Ok(old_allowance),
            Err(e) => Err(e),
        }
    }

    /// Atomically checks if value is less than the allowance and deducts it if so
    ///
    /// Returns new allowance if successful, else returns an error and the allowance is unchanged
    pub fn attempt_use_allowance(
        &mut self,
        bs: &mut Store,
        operator: ActorID,
        owner: ActorID,
        amount: &TokenAmount,
    ) -> (r: Result<TokenAmount, StateError>)
        ensures
            performs(
                *old(self),
                old(bs)@,
                *final(self),
                final(bs)@,
                r,
                ledger::use_allowance(
                    old(self).ledger(old(bs)@)->0,
                    operator,
                    operator,
                    owner,
                    owner,
                    amount@,
                ),
            ),
            old(self).ledger(old(bs)@) is Some && amount@ >= 0 && r is Err ==> r->Err_0@
                is InsufficientAllowance,
    {
        let current_allowance = match self.get_allowance_between(bs, owner, operator) {
            Ok(allowance) => allowance,
            Err(e) => return Err(e),
        };
        // defensive check for operator != owner, really allowance should never be checked here
        if current_allowance.is_zero() && operator != owner {
            return Err(
                StateError::InsufficientAllowance {
                    owner: Address::new_id(owner),
                    operator: Address::new_id(operator),
                    allowance: current_allowance,
                    delta: amount.clone(),
                },
            );
        }
        if amount.is_zero() {
            return Ok(current_allowance);
        }
        if current_allowance.lt(amount) {
            return Err(
                StateError::InsufficientAllowance {
                    owner: Address::new_id(owner),
                    operator: Address::new_id(operator),
                    allowance: current_allowance,
                    delta: amount.clone(),
                },
            );
        }
        self.change_allowance_by(bs, owner, operator, &amount.neg())
    }

    /// Checks that the current state obeys all system invariants
    ///
    /// Checks that there are no zero balances, zero allowances or empty allowance maps explicitly
    /// stored in the blockstore. Checks that balances, total supply, allowances are never negative.
    /// Checks that sum of all balances matches total_supply. Checks that no allowances are stored
    /// where operator == owner.
    pub fn check_invariants(&self, bs: &Store) -> (r: Result<(), StateInvariantError>)
        ensures
            self.ledger(bs@) is Some ==> r is Ok == sound_books(self.ledger(bs@)->0),
            self.ledger(bs@) is Some && r is Err ==> faults(r->Err_0, self.ledger(bs@)->0),
            r is Ok ==> self.supply@ >= 0,
    {
        let ghost whole = self.ledger(bs@) is Some;
        let ghost books = self.ledger(bs@)->0;
        let ghost ids = |id: ActorID| Some(id);
        // check total supply
        if self.supply.is_negative() {
            return Err(StateInvariantError::SupplyNegative(self.supply.clone()));
        }
        // check balances
        let entries = match id_store::amounts_entries(bs, &self.balances, HAMT_BIT_WIDTH) {
            Ok(entries) => entries,
            Err(e) => return Err(StateInvariantError::State(StateError::IpldHamt(e))),
        };
        let ghost pairs = id_store::amount_pairs(entries@);
        let balance_sum = match check_balances(&entries) {
            Ok(sum) => sum,
            Err(e) => {
                proof {
                    if whole {
                        let i = choose|i: int|
                            0 <= i < entries.len() && (#[trigger] pairs[i]).1 <= 0 && faults_balance(
                                e,
                                pairs[i].0,
                                pairs[i].1,
                            );
                        assert(books.balances.contains_key(pairs[i].0));
                    }
                }
                return Err(e);
            },
        };
        proof {
            if whole {
                ledger::lemma_sum_is_total(pairs, books.balances);
                assert forall|k: ActorID| #[trigger] books.balances.contains_key(k) implies {
                    &&& ids(k) is Some
                    &&& books.balances[k] > 0
                    &&& books.balances[k] % 1 == 0
                } by {
                    store::lemma_lists_all(pairs, books.balances, k);
                }
            }
        }
        // all balances must add up to total supply
        if !balance_sum.same(&self.supply) {
            return Err(
                StateInvariantError::BalanceSupplyMismatch {
                    supply: self.supply.clone(),
                    balance_sum,
                },
            );
        }
        // check allowances are all positive, and that there are no empty maps
        self.check_allowances(bs)
    }

    /// Checks the allowances of all owners
    fn check_allowances(&self, bs: &Store) -> (r: Result<(), StateInvariantError>)
        ensures
            self.ledger(bs@) is Some ==> r is Ok == self.ledger(bs@)->0.allowances_sound(
                |id: ActorID| Some(id),
            ),
            self.ledger(bs@) is Some && r is Err ==> exists|k: ActorID| #[trigger]
                self.ledger(bs@)->0.allowances.contains_key(k) && faults_owner(
                    r->Err_0,
                    k,
                    self.ledger(bs@)->0.allowances[k],
                ),
    {
        let ghost whole = self.ledger(bs@) is Some;
        let ghost allowances = self.ledger(bs@)->0.allowances;
        let ghost ids = |id: ActorID| Some(id);
        let entries = match id_store::links_entries(bs, &self.allowances, HAMT_BIT_WIDTH) {
            Ok(entries) => entries,
            Err(e) => return Err(StateInvariantError::State(StateError::IpldHamt(e))),
        };
        let ghost owners = id_store::link_pairs(entries@);
        let mut i: usize = 0;
        while i < entries.len()
            invariant
                i <= entries.len(),
                whole == self.ledger(bs@) is Some,
                allowances == self.ledger(bs@)->0.allowances,
                owners == id_store::link_pairs(entries@),
                whole ==> store::lists(
                    owners,
                    id_store::links_at(bs@, self.allowances@, HAMT_BIT_WIDTH)->0,
                ),
                whole ==> forall|j: int|
                    0 <= j < i ==> owner_sound((#[trigger] owners[j]).0, allowances[owners[j].0]),
            decreases entries.len() - i,
        {
            let owner = entries[i].0;
            assert(owners[i as int] == (owner, entries[i as int].1@));
            assert(whole ==> allowances.contains_key(owner));
            let given = match id_store::amounts_entries(bs, &entries[i].1, HAMT_BIT_WIDTH) {
                Ok(given) => given,
                Err(e) => return Err(StateInvariantError::State(StateError::IpldHamt(e))),
            };
            let ghost pairs = id_store::amount_pairs(given@);
            match check_owner_allowances(owner, &given) {
                Ok(()) => {
                    proof {
                        if whole {
                            assert(allowances[owner].contains_key(pairs[0].0));
                            assert forall|k: ActorID| #[trigger]
                                allowances[owner].contains_key(k) implies k != owner
                                && allowances[owner][k] > 0 by {
                                store::lemma_lists_all(pairs, allowances[owner], k);
                            }
                        }
                    }
                },
                Err(e) => {
                    proof {
                        if whole {
                            if given.len() == 0 {
                                assert(allowances[owner] =~= id_store::Amounts::empty());
                            } else {
                                let j = choose|j: int|
                                    0 <= j < given.len() && faults_allowance(
                                        e,
                                        owner,
                                        (#[trigger] pairs[j]).0,
                                        pairs[j].1,
                                    );
                                assert(allowances[owner].contains_key(pairs[j].0));
                            }
                            assert(!owner_sound(owner, allowances[owner]));
                            assert(faults_owner(e, owner, allowances[owner]));
                        }
                    }
                    return Err(e);
                },
            }
            i += 1;
        }
        proof {
            if whole {
                let links = id_store::links_at(bs@, self.allowances@, HAMT_BIT_WIDTH)->0;
                assert forall|k: ActorID| #[trigger] allowances.contains_key(k) implies owner_sound(
                    k,
                    allowances[k],
                ) by {
                    store::lemma_lists_all(owners, links, k);
                }
            }
        }
        Ok(())
    }
}

/// Whether an error is what is wrong with a balance.
pub open spec fn faults_balance(e: StateInvariantError, owner: ActorID, amount: int) -> bool {
    match e {
        StateInvariantError::BalanceNegative { account, balance } => account == owner && balance@
            == amount && amount < 0,
        StateInvariantError::ExplicitZeroBalance(account) => account == owner && amount == 0,
        _ => false,
    }
}

/// Whether an error is what is wrong with an allowance of an owner.
pub open spec fn faults_allowance(e: StateInvariantError, owner: ActorID, id: ActorID, amount: int) -> bool {
    match e {
        StateInvariantError::ExplicitSelfAllowance { account, allowance } => account == owner && id
            == owner && allowance@ == amount,
        StateInvariantError::NegativeAllowance { owner: o, operator, allowance } => o == owner
            && operator == id && id != owner && allowance@ == amount && amount < 0,
        StateInvariantError::ExplicitZeroAllowance { owner: o, operator } => o == owner && operator
            == id && id != owner && amount == 0,
        _ => false,
    }
}

/// Whether an error is what is wrong with the allowances of one owner.
pub open spec fn faults_owner(e: StateInvariantError, owner: ActorID, given: id_store::Amounts) -> bool {
    ||| given == id_store::Amounts::empty() && e == StateInvariantError::ExplicitEmptyAllowance(owner)
    ||| exists|k: ActorID| #[trigger]
        given.contains_key(k) && faults_allowance(e, owner, k, given[k])
}

/// Whether an owner has given allowances that may be stored.
pub open spec fn owner_sound(owner: ActorID, given: id_store::Amounts) -> bool {
    &&& given != id_store::Amounts::empty()
    &&& forall|k: ActorID| #[trigger] given.contains_key(k) ==> k != owner && given[k] > 0
}

/// Whether an error is the first kind of thing that is wrong with the books: the supply comes
/// first, then the balances, their sum, and the allowances.
pub open spec fn faults(e: StateInvariantError, books: Books) -> bool {
    if books.supply < 0 {
        e is SupplyNegative && e->SupplyNegative_0@ == books.supply
    } else if !books.balances_sound(1, |id: ActorID| Some(id)) {
        exists|k: ActorID| #[trigger]
            books.balances.contains_key(k) && faults_balance(e, k, books.balances[k])
    } else if ledger::total(books.balances) != books.supply {
        e is BalanceSupplyMismatch && e->supply@ == books.supply && e->balance_sum@ == ledger::total(
            books.balances,
        )
    } else {
        exists|k: ActorID| #[trigger]
            books.allowances.contains_key(k) && faults_owner(e, k, books.allowances[k])
    }
}

/// The rules that every state of a token keeps to.
pub open spec fn sound_books(books: Books) -> bool {
    books.sound(1, |id: ActorID| Some(id))
}

/// Checks all balances and adds them up
fn check_balances(entries: &Vec<(ActorID, TokenAmount)>) -> (r: Result<
    TokenAmount,
    StateInvariantError,
>)
    ensures
        r is Ok ==> r->Ok_0@ == ledger::sum(id_store::amount_pairs(entries@)),
        r is Ok ==> forall|i: int|
            0 <= i < entries.len() ==> (#[trigger] id_store::amount_pairs(entries@)[i]).1 > 0,
        r is Err ==> exists|i: int|
            0 <= i < entries.len() && (#[trigger] id_store::amount_pairs(entries@)[i]).1 <= 0
                && faults_balance(
                r->Err_0,
                id_store::amount_pairs(entries@)[i].0,
                id_store::amount_pairs(entries@)[i].1,
            ),
{
    let ghost pairs = id_store::amount_pairs(entries@);
    let mut balance_sum = TokenAmount::zero();
    let mut i: usize = 0;
    while i < entries.len()
        invariant
            i <= entries.len(),
            pairs == id_store::amount_pairs(entries@),
            balance_sum@ == ledger::sum(pairs.take(i as int)),
            forall|j: int| 0 <= j < i ==> (#[trigger] pairs[j]).1 > 0,
        decreases entries.len() - i,
    {
        let ghost pair = pairs[i as int];
        let (account, balance) = (entries[i].0, &entries[i].1);
        // all balances must be positive
        if balance.is_negative() {
            return Err(StateInvariantError::BalanceNegative { account, balance: balance.clone() });
        }
        // zero balances should not be stored in the Hamt
        if balance.is_zero() {
            return Err(StateInvariantError::ExplicitZeroBalance(account));
        }
        assert(pairs.take(i as int + 1).drop_last() =~= pairs.take(i as int));
        balance_sum = balance_sum.plus(balance);
        i += 1;
    }
    proof {
        assert(pairs.take(i as int) =~= pairs);
    }
    Ok(balance_sum)
}

/// Checks all allowances that one owner has given
fn check_owner_allowances(owner: ActorID, entries: &Vec<(ActorID, TokenAmount)>) -> (r: Result<
    (),
    StateInvariantError,
>)
    ensures
        r is Ok ==> entries.len() > 0 && forall|i: int|
            0 <= i < entries.len() ==> (#[trigger] id_store::amount_pairs(entries@)[i]).0 != owner
                && id_store::amount_pairs(entries@)[i].1 > 0,
        r is Err ==> (entries.len() == 0 && r->Err_0 == StateInvariantError::ExplicitEmptyAllowance(
            owner,
        )) || exists|i: int|
            0 <= i < entries.len() && faults_allowance(
                r->Err_0,
                owner,
                (#[trigger] id_store::amount_pairs(entries@)[i]).0,
                id_store::amount_pairs(entries@)[i].1,
            ),
{
    let ghost pairs = id_store::amount_pairs(entries@);
    // check that the allowance map isn't empty
    if entries.len() == 0 {
        return Err(StateInvariantError::ExplicitEmptyAllowance(owner));
    }
    let mut i: usize = 0;
    while i < entries.len()
        invariant
            i <= entries.len(),
            pairs == id_store::amount_pairs(entries@),
            forall|j: int| 0 <= j < i ==> (#[trigger] pairs[j]).0 != owner && pairs[j].1 > 0,
        decreases entries.len() - i,
    {
        let ghost pair = pairs[i as int];
        let (operator, allowance) = (entries[i].0, &entries[i].1);
        // check there's no stored self-stored allowance
        if owner == operator {
            return Err(
                StateInvariantError::ExplicitSelfAllowance {
                    account: owner,
                    allowance: allowance.clone(),
                },
            );
        }
        // check the allowance isn't negative
        if allowance.is_negative() {
            return Err(
                StateInvariantError::NegativeAllowance {
                    owner,
                    operator,
                    allowance: allowance.clone(),
                },
            );
        }
        // check there's no explicit zero allowance
        if allowance.is_zero() {
            return Err(StateInvariantError::ExplicitZeroAllowance { owner, operator });
        }
        i += 1;
    }
    Ok(())
}

} // verus!
