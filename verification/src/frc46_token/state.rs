//! The state of a fungible token, kept in hash trees.
use cid::Cid as BlockCid;
use fvm_ipld_encoding::CborStore;
use fvm_ipld_hamt::Error as HamtError;
use fvm_shared::bigint::{BigInt, BigUint, Sign};
use fvm_shared::econ::TokenAmount as Atto;
use vstd::prelude::*;

use crate::address::Address;
use crate::amount::TokenAmount;
use crate::bytes::{bytes_clone, ActorID, Cid};
use crate::keys;
use crate::keys::{actor_id_key, decode_actor_id, BytesKey};
use crate::ledger;
use crate::ledger::{Ledger, Outcome, StateFault};
use crate::store;
use crate::store::{Blocks, Store};

verus! {

/// This value has been chosen to optimise to reduce gas-costs when accessing the balances map.
/// Non-standard use cases of the token library might find a different value to be more efficient.
pub const DEFAULT_HAMT_BIT_WIDTH: u32 = 3;

/// Why an operation on the state fails.
#[allow(inconsistent_fields)]
#[derive(Debug)]
pub enum StateError {
    /// A tree could not be read or written.
    IpldHamt(HamtError),
    /// There is no block under this identifier.
    MissingState(Cid),
    /// The state could not be encoded or decoded.
    Serialization(String),
    /// A balance would become negative.
    InsufficientBalance {
        /// Whose balance.
        owner: ActorID,
        /// The balance.
        balance: TokenAmount,
        /// The change asked for.
        delta: TokenAmount,
    },
    /// An operator may not spend as much.
    InsufficientAllowance {
        /// Whose tokens.
        owner: Address,
        /// Who wants to spend them.
        operator: Address,
        /// What the operator may spend.
        allowance: TokenAmount,
        /// The amount asked for.
        delta: TokenAmount,
    },
    /// The supply would become negative.
    NegativeTotalSupply {
        /// The supply.
        supply: TokenAmount,
        /// The change asked for.
        delta: TokenAmount,
    },
    /// An allowance was to be set below zero.
    NegativeAllowance {
        /// The allowance asked for.
        amount: TokenAmount,
        /// Whose tokens.
        owner: ActorID,
        /// Who would spend them.
        operator: ActorID,
    },
    /// A balance was to be set below zero.
    NegativeBalance {
        /// The balance asked for.
        amount: TokenAmount,
        /// Whose balance.
        owner: ActorID,
    },
}

impl View for StateError {
    type V = StateFault;

    open spec fn view(&self) -> StateFault {
        match *self {
            StateError::IpldHamt(_) => StateFault::Storage,
            StateError::MissingState(cid) => StateFault::MissingState(cid@),
            StateError::Serialization(_) => StateFault::Serialization,
            StateError::InsufficientBalance { owner, balance, delta } => {
                StateFault::InsufficientBalance { owner, balance: balance@, delta: delta@ }
            },
            StateError::InsufficientAllowance { owner, operator, allowance, delta } => {
                StateFault::InsufficientAllowance {
                    owner: owner@,
                    operator: operator@,
                    allowance: allowance@,
                    delta: delta@,
                }
            },
            StateError::NegativeTotalSupply { supply, delta } => {
                StateFault::NegativeTotalSupply { supply: supply@, delta: delta@ }
            },
            StateError::NegativeAllowance { amount, owner, operator } => {
                StateFault::NegativeAllowance { amount: amount@, owner, operator }
            },
            StateError::NegativeBalance { amount, owner } => {
                StateFault::NegativeBalance { amount: amount@, owner }
            },
        }
    }
}

/// A rule of the token that the state breaks.
#[allow(inconsistent_fields)]
#[derive(Debug)]
pub enum StateInvariantError {
    /// The total supply is negative.
    SupplyNegative(TokenAmount),
    /// An account has a negative balance.
    BalanceNegative {
        /// Whose balance.
        account: ActorID,
        /// The balance.
        balance: TokenAmount,
    },
    /// The total supply is not the sum of all balances.
    BalanceSupplyMismatch {
        /// The total supply.
        supply: TokenAmount,
        /// The sum.
        balance_sum: TokenAmount,
    },
    /// An allowance is negative.
    NegativeAllowance {
        /// Whose tokens.
        owner: ActorID,
        /// Who may spend them.
        operator: ActorID,
        /// The allowance.
        allowance: TokenAmount,
    },
    /// A zero balance is stored which should have been removed.
    ExplicitZeroBalance(ActorID),
    /// A zero allowance is stored which should have been removed.
    ExplicitZeroAllowance {
        /// Whose tokens.
        owner: ActorID,
        /// Who may spend them.
        operator: ActorID,
    },
    /// An allowance map is stored for someone who has specified no allowances.
    ExplicitEmptyAllowance(ActorID),
    /// An allowance is stored for the owner themselves.
    ExplicitSelfAllowance {
        /// The owner.
        account: ActorID,
        /// The allowance.
        allowance: TokenAmount,
    },
    /// A key is not that of an actor.
    InvalidOwnerKey(BytesKey),
    /// A balance is not a multiple of the granularity.
    InvalidGranularity {
        /// Whose balance.
        owner: ActorID,
        /// The balance.
        balance: TokenAmount,
        /// The granularity.
        granularity: u64,
    },
    /// The state could not be read.
    State(StateError),
}

/// Whether an error is what is wrong with a balance entry.
pub open spec fn faults_balance(
    e: StateInvariantError,
    key: Seq<u8>,
    amount: int,
    granularity: u64,
) -> bool {
    match (e, keys::id_of(key)) {
        (StateInvariantError::InvalidOwnerKey(k), None) => k@ == key,
        (StateInvariantError::BalanceNegative { account, balance }, Some(id)) => account == id
            && balance@ == amount && amount < 0,
        (StateInvariantError::ExplicitZeroBalance(account), Some(id)) => account == id && amount
            == 0,
        (StateInvariantError::InvalidGranularity { owner, balance, granularity: g }, Some(id)) => {
            owner == id && balance@ == amount && g == granularity && amount > 0 && amount
                % granularity as int != 0
        },
        _ => false,
    }
}

/// Whether an error is what is wrong with an allowance entry of an owner.
pub open spec fn faults_allowance(
    e: StateInvariantError,
    owner: ActorID,
    key: Seq<u8>,
    amount: int,
) -> bool {
    match (e, keys::id_of(key)) {
        (StateInvariantError::InvalidOwnerKey(k), None) => k@ == key,
        (StateInvariantError::ExplicitSelfAllowance { account, allowance }, Some(id)) => account
            == owner && id == owner && allowance@ == amount,
        (StateInvariantError::NegativeAllowance { owner: o, operator, allowance }, Some(id)) => o
            == owner && operator == id && id != owner && allowance@ == amount && amount < 0,
        (StateInvariantError::ExplicitZeroAllowance { owner: o, operator }, Some(id)) => o == owner
            && operator == id && id != owner && amount == 0,
        _ => false,
    }
}

/// Whether an error is what is wrong with the allowances under one key. An owner who is not found
/// under their own key has specified no allowances.
pub open spec fn faults_owner(
    e: StateInvariantError,
    key: Seq<u8>,
    allowances: Map<Seq<u8>, store::Amounts>,
) -> bool {
    let given = allowances[key];
    match keys::id_of(key) {
        None => e is InvalidOwnerKey && e->InvalidOwnerKey_0@ == key,
        Some(owner) => {
            ||| (given == store::Amounts::empty() || !allowances.contains_key(keys::key_of(owner)))
                && e == StateInvariantError::ExplicitEmptyAllowance(owner)
            ||| exists|k: Seq<u8>| #[trigger]
                given.contains_key(k) && faults_allowance(e, owner, k, given[k])
        },
    }
}

/// Whether an error is the first kind of thing that is wrong with the books: the supply comes
/// first, then the balances, their sum, and the allowances.
pub open spec fn faults(e: StateInvariantError, books: Books, granularity: u64) -> bool {
    if books.supply < 0 {
        e is SupplyNegative && e->SupplyNegative_0@ == books.supply
    } else if !books.balances_sound(granularity as int, |k: Seq<u8>| keys::id_of(k)) {
        exists|k: Seq<u8>| #[trigger]
            books.balances.contains_key(k) && faults_balance(e, k, books.balances[k], granularity)
    } else if ledger::total(books.balances) != books.supply {
        e is BalanceSupplyMismatch && e->supply@ == books.supply && e->balance_sum@ == ledger::total(
            books.balances,
        )
    } else {
        exists|k: Seq<u8>| #[trigger]
            books.allowances.contains_key(k) && faults_owner(e, k, books.allowances)
    }
}

/// The rules that every state of a token keeps to.
pub open spec fn sound_books(books: Books, granularity: u64) -> bool {
    &&& books.sound(granularity as int, |k: Seq<u8>| keys::id_of(k))
    &&& owners_found(books.allowances)
}

/// Whether every owner with allowances is found under their own key. A key can be written in more
/// than one way, of which only one is looked for.
pub open spec fn owners_found(allowances: Map<Seq<u8>, store::Amounts>) -> bool {
    forall|k: Seq<u8>| #[trigger]
        allowances.contains_key(k) && keys::id_of(k) is Some ==> allowances.contains_key(
            keys::key_of(keys::id_of(k)->0),
        )
}

/// Checks one entry of the balance map
fn check_balance(key: &BytesKey, balance: &TokenAmount, granularity: u64) -> (r: Result<
    (),
    StateInvariantError,
>)
    requires
        granularity > 0,
    ensures
        r is Ok == (keys::id_of(key@) is Some && balance@ > 0 && balance@ % (granularity as int)
            == 0),
        r is Err ==> faults_balance(r->Err_0, key@, balance@, granularity),
{
    let owner = match decode_actor_id(key) {
        None => return Err(
            StateInvariantError::InvalidOwnerKey(BytesKey { bytes: bytes_clone(&key.bytes) }),
        ),
        Some(a) => a,
    };
    // all balances must be positive
    if balance.is_negative() {
        return Err(
            StateInvariantError::BalanceNegative { account: owner, balance: balance.clone() },
        );
    }
    // zero balances should not be stored in the Hamt
    if balance.is_zero() {
        return Err(StateInvariantError::ExplicitZeroBalance(owner));
    }
    if !balance.is_multiple_of(granularity) {
        return Err(
            StateInvariantError::InvalidGranularity { owner, balance: balance.clone(), granularity },
        );
    }
    Ok(())
}

/// Checks one entry of an owner's allowance map
fn check_allowance(owner: ActorID, key: &BytesKey, allowance: &TokenAmount) -> (r: Result<
    (),
    StateInvariantError,
>)
    ensures
        r is Ok == (keys::id_of(key@) is Some && keys::id_of(key@) != Some(owner) && allowance@
            > 0),
        r is Err ==> faults_allowance(r->Err_0, owner, key@, allowance@),
{
    let operator = match decode_actor_id(key) {
        None => return Err(
            StateInvariantError::InvalidOwnerKey(BytesKey { bytes: bytes_clone(&key.bytes) }),
        ),
        Some(a) => a,
    };
    // check there's no stored self-stored allowance
    if owner == operator {
        return Err(
            StateInvariantError::ExplicitSelfAllowance {
                account: owner,
                allowance: allowance.clone(),
            },
        );
    }
    // check the allowance isn't negative
    if allowance.is_negative() {
        return Err(
            StateInvariantError::NegativeAllowance { owner, operator, allowance: allowance.clone() },
        );
    }
    // check there's no explicit zero allowance
    if allowance.is_zero() {
        return Err(StateInvariantError::ExplicitZeroAllowance { owner, operator });
    }
    Ok(())
}

/// Whether a key and an amount are a balance that may be stored.
pub open spec fn balance_sound(pair: (Seq<u8>, int), granularity: u64) -> bool {
    keys::id_of(pair.0) is Some && pair.1 > 0 && pair.1 % (granularity as int) == 0
}

/// Whether a key and an amount are an allowance that an owner may have given.
pub open spec fn allowance_sound(pair: (Seq<u8>, int), owner: ActorID) -> bool {
    keys::id_of(pair.0) is Some && keys::id_of(pair.0) != Some(owner) && pair.1 > 0
}

/// Whether a key and amounts are an owner with allowances that may be stored.
pub open spec fn owner_sound(key: Seq<u8>, given: store::Amounts) -> bool {
    &&& keys::id_of(key) is Some
    &&& given != store::Amounts::empty()
    &&& forall|k: Seq<u8>| #[trigger]
        given.contains_key(k) ==> allowance_sound((k, given[k]), keys::id_of(key)->0)
}

/// Checks all balances and adds them up
fn check_balances(entries: &Vec<(BytesKey, TokenAmount)>, granularity: u64) -> (r: Result<
    TokenAmount,
    StateInvariantError,
>)
    requires
        granularity > 0,
    ensures
        r is Ok ==> r->Ok_0@ == ledger::sum(store::amount_pairs(entries@)),
        r is Ok ==> forall|i: int|
            0 <= i < entries.len() ==> balance_sound(
                #[trigger] store::amount_pairs(entries@)[i],
                granularity,
            ),
        r is Err ==> exists|i: int|
            0 <= i < entries.len() && !balance_sound(
                #[trigger] store::amount_pairs(entries@)[i],
                granularity,
            ) && faults_balance(
                r->Err_0,
                store::amount_pairs(entries@)[i].0,
                store::amount_pairs(entries@)[i].1,
                granularity,
            ),
{
    let ghost pairs = store::amount_pairs(entries@);
    let mut balance_sum = TokenAmount::zero();
    let mut i: usize = 0;
    while i < entries.len()
        invariant
            i <= entries.len(),
            granularity > 0,
            pairs == store::amount_pairs(entries@),
            balance_sum@ == ledger::sum(pairs.take(i as int)),
            forall|j: int| 0 <= j < i ==> balance_sound(#[trigger] pairs[j], granularity),
        decreases entries.len() - i,
    {
        let ghost pair = pairs[i as int];
        match check_balance(&entries[i].0, &entries[i].1, granularity) {
            Ok(()) => {},
            Err(e) => {
                assert(!balance_sound(pair, granularity));
                return Err(e);
            },
        }
        assert(pairs.take(i as int + 1).drop_last() =~= pairs.take(i as int));
        balance_sum = balance_sum.plus(&entries[i].1);
        i += 1;
    }
    proof {
        assert(pairs.take(i as int) =~= pairs);
    }
    Ok(balance_sum)
}

/// Checks all allowances that one owner has given
fn check_owner_allowances(owner: ActorID, entries: &Vec<(BytesKey, TokenAmount)>) -> (r: Result<
    (),
    StateInvariantError,
>)
    ensures
        r is Ok ==> entries.len() > 0 && forall|i: int|
            0 <= i < entries.len() ==> allowance_sound(
                #[trigger] store::amount_pairs(entries@)[i],
                owner,
            ),
        r is Err ==> (entries.len() == 0 && r->Err_0 == StateInvariantError::ExplicitEmptyAllowance(
            owner,
        )) || exists|i: int|
            0 <= i < entries.len() && !allowance_sound(
                #[trigger] store::amount_pairs(entries@)[i],
                owner,
            ) && faults_allowance(
                r->Err_0,
                owner,
                store::amount_pairs(entries@)[i].0,
                store::amount_pairs(entries@)[i].1,
            ),
{
    let ghost pairs = store::amount_pairs(entries@);
    // check that the allowance map isn't empty
    if entries.len() == 0 {
        return Err(StateInvariantError::ExplicitEmptyAllowance(owner));
    }
    let mut i: usize = 0;
    while i < entries.len()
        invariant
            i <= entries.len(),
            pairs == store::amount_pairs(entries@),
            forall|j: int| 0 <= j < i ==> allowance_sound(#[trigger] pairs[j], owner),
        decreases entries.len() - i,
    {
        let ghost pair = pairs[i as int];
        match check_allowance(owner, &entries[i].0, &entries[i].1) {
            Ok(()) => {},
            Err(e) => {
                assert(!allowance_sound(pair, owner));
                return Err(e);
            },
        }
        i += 1;
    }
    Ok(())
}

/// Token state IPLD structure
#[derive(Debug, PartialEq, Eq)]
pub struct TokenState {
    /// Total supply of token
    pub supply: TokenAmount,
    /// Map of balances by owner, the root of its tree
    pub balances: Cid,
    /// Map of allowances by owner and operator, the root of a tree of trees
    pub allowances: Cid,
    /// Bit-width to use when reading the trees
    pub hamt_bit_width: u32,
}

/// The books of a token with accounts under the keys of the trees.
pub type Books = Ledger<Seq<u8>>;

impl Clone for TokenState {
    fn clone(&self) -> (r: Self)
        ensures
            r.same_as(*self),
    {
        TokenState {
            supply: self.supply.clone(),
            balances: self.balances.clone(),
            allowances: self.allowances.clone(),
            hamt_bit_width: self.hamt_bit_width,
        }
    }
}

/// A state as it is written to a block: supply, root of the balances, root of the allowances and
/// width.
pub type StateRecord = (int, Seq<u8>, Seq<u8>, u32);

/// The state that a block of CBOR holds, if it holds one.
pub uninterp spec fn state_record(block: Seq<u8>) -> Option<StateRecord>;

/// `to_vec` of `fvm_ipld_encoding` on the state as a tuple. It claims that the encoding fails
/// exactly where the supply cannot be stored, and that reading it gives the state back.
#[verifier::external_body]
fn encode_state(state: &TokenState) -> (r: Result<Vec<u8>, String>)
    ensures
        r is Ok == store::storable(state.supply@),
        r is Ok ==> state_record(r->Ok_0@) == Some(state.record()),
{
    let sign = if state.supply.negative { Sign::Minus } else { Sign::Plus };
    let supply = BigInt::from_biguint(sign, BigUint::new(state.supply.digits.clone()));
    let balances = BlockCid::try_from(state.balances.bytes.as_slice()).unwrap();
    let allowances = BlockCid::try_from(state.allowances.bytes.as_slice()).unwrap();
    let record = (Atto::from_atto(supply), balances, allowances, state.hamt_bit_width);
    fvm_ipld_encoding::to_vec(&record).map_err(|e| e.to_string())
}

/// `CborStore::get_cbor` of `fvm_ipld_encoding` for the state as a tuple, on a store in memory. It
/// claims that it fails where the identifier is not that of CBOR or the block holds no state, and
/// otherwise gives the state in the block, if there is a block.
#[verifier::external_body]
fn get_state(bs: &Store, cid: &Cid) -> (r: Result<Option<TokenState>, String>)
    ensures
        r is Err == (!store::cbor_codec(cid@) || (bs@.contains_key(cid@) && state_record(bs@[cid@]) is None)),
        r is Ok ==> r->Ok_0 is Some == bs@.contains_key(cid@),
        r is Ok && r->Ok_0 is Some ==> state_record(bs@[cid@]) == Some(r->Ok_0->0.record()),
{
    let cid = BlockCid::try_from(cid.bytes.as_slice()).unwrap();
    let found = bs.inner.get_cbor::<(Atto, BlockCid, BlockCid, u32)>(&cid);
    let found = found.map_err(|e| e.to_string())?;
    Ok(found.map(|(supply, balances, allowances, hamt_bit_width)| TokenState {
        supply: TokenAmount {
            negative: supply.is_negative(),
            digits: supply.atto().magnitude().to_u32_digits(),
        },
        balances: Cid { bytes: balances.to_bytes() },
        allowances: Cid { bytes: allowances.to_bytes() },
        hamt_bit_width,
    }))
}

/// Whether a call did to the state what an operation does to the books: success with the new
/// books, or the operation's refusal and no change. Where the trees cannot be read, it may fail,
/// and then leaves the state as it was.
pub open spec fn performs(
    before: TokenState,
    blocks_before: Blocks,
    after: TokenState,
    blocks_after: Blocks,
    r: Result<TokenAmount, StateError>,
    wanted: Outcome<Seq<u8>>,
) -> bool {
    &&& store::kept(blocks_before, blocks_after)
    &&& after.hamt_bit_width == before.hamt_bit_width
    &&& r is Err ==> after == before
    &&& before.ledger(blocks_before) is Some ==> match wanted {
        Ok((books, amount)) => {
            &&& r is Ok
            &&& r->Ok_0@ == amount
            &&& after.ledger(blocks_after) == Some(books)
        },
        Err(fault) => {
            &&& r is Err
            &&& r->Err_0@ == fault
            &&& after.ledger(blocks_after) == before.ledger(blocks_before)
        },
    }
}

/// Books that are kept read the same.
pub proof fn lemma_ledger_kept(state: TokenState, earlier: Blocks, later: Blocks)
    requires
        store::kept(earlier, later),
        state.ledger(earlier) is Some,
    ensures
        state.ledger(later) == state.ledger(earlier),
{
    assert(store::amounts_at(earlier, state.balances@, state.hamt_bit_width) is Some);
    store::lemma_linked_kept(earlier, later, state.allowances@, state.hamt_bit_width);
}

/// Whether loading from under an identifier gives what its block holds.
pub open spec fn loads(blocks: Blocks, cid: Seq<u8>, r: Result<TokenState, StateError>) -> bool {
    &&& r is Ok == (store::cbor_codec(cid) && blocks.contains_key(cid) && state_record(
        blocks[cid],
    ) is Some)
    &&& r is Ok ==> state_record(blocks[cid]) == Some(r->Ok_0.record())
    &&& r is Err ==> r->Err_0@ == (if !blocks.contains_key(cid) {
        StateFault::MissingState(cid)
    } else {
        StateFault::Serialization
    })
}

/// Whether the block under an identifier holds a state.
pub open spec fn saved_at(blocks: Blocks, cid: Seq<u8>, state: TokenState) -> bool {
    &&& store::cbor_codec(cid)
    &&& blocks.contains_key(cid)
    &&& state_record(blocks[cid]) == Some(state.record())
}

/// A state that was saved can be loaded again, whatever was stored since, and is the same: its
/// numbers and roots are, and its trees hold what they held.
pub proof fn loading_gives_back_what_was_saved(
    saved: TokenState,
    cid: Seq<u8>,
    blocks: Blocks,
    later: Blocks,
    r: Result<TokenState, StateError>,
)
    requires
        saved_at(blocks, cid, saved),
        store::kept(blocks, later),
        loads(later, cid, r),
    ensures
        r is Ok,
        r->Ok_0.record() == saved.record(),
        saved.ledger(blocks) is Some ==> r->Ok_0.ledger(later) == saved.ledger(blocks),
{
    assert(blocks.dom().contains(cid));
    if saved.ledger(blocks) is Some {
        lemma_ledger_kept(saved, blocks, later);
    }
}

impl TokenState {
    /// Whether two states have the same supply, roots and width.
    pub open spec fn same_as(self, other: Self) -> bool {
        &&& self.supply@ == other.supply@
        &&& self.balances@ == other.balances@
        &&& self.allowances@ == other.allowances@
        &&& self.hamt_bit_width == other.hamt_bit_width
    }

    /// The state as it is written to a block.
    pub open spec fn record(self) -> StateRecord {
        (self.supply@, self.balances@, self.allowances@, self.hamt_bit_width)
    }

    /// The books that the state keeps in these blocks. `None` where the trees are not complete or
    /// the width is not one of 1 to 8.
    pub open spec fn ledger(self, blocks: Blocks) -> Option<Books> {
        match (
            store::amounts_at(blocks, self.balances@, self.hamt_bit_width),
            store::linked_amounts_at(blocks, self.allowances@, self.hamt_bit_width),
        ) {
            (Some(balances), Some(allowances)) => if 1 <= self.hamt_bit_width <= 8 {
                Some(Ledger { supply: self.supply@, balances, allowances })
            } else {
                None
            },
            _ => None,
        }
    }

    /// Get the balance of an ActorID from the currently stored state
    pub fn get_balance(&self, bs: &Store, owner: ActorID) -> (r: Result<TokenAmount, StateError>)
        requires
            self.hamt_bit_width < 32,
        ensures
            self.ledger(bs@) is Some ==> r is Ok && r->Ok_0@ == self.ledger(bs@)->0.balance(
                keys::key_of(owner),
            ),
            self.ledger(bs@) is Some ==> store::storable(r->Ok_0@),
            r is Err ==> r->Err_0 is IpldHamt,
    {
        proof {
            vstd::arithmetic::power2::lemma_pow2_pos(1016);
        }
        match store::amounts_get(bs, &self.balances, self.hamt_bit_width, &actor_id_key(owner)) {
            Ok(Some(amount)) => Ok(amount),
            Ok(None) => Ok(TokenAmount::zero()),
            Err(e) => Err(StateError::IpldHamt(e)),
        }
    }

    /// Changes the balance of the specified account by the delta
    ///
    /// Caller must ensure that the sign of of the delta is consistent with token rules (i.e.
    /// negative transfers, burns etc. are not allowed). Returns the new balance of the account.
    pub fn change_balance_by(
        &mut self,
        bs: &mut Store,
        owner: ActorID,
        delta: &TokenAmount,
    ) -> (r: Result<TokenAmount, StateError>)
        requires
            old(self).hamt_bit_width < 32,
        ensures
            performs(
                *old(self),
                old(bs)@,
                *final(self),
                final(bs)@,
                r,
                ledger::change_balance(
                    old(self).ledger(old(bs)@)->0,
                    owner,
                    keys::key_of(owner),
                    delta@,
                ),
            ),
            old(self).ledger(old(bs)@) is Some && delta@ <= 0 && r is Err ==> r->Err_0@
                is InsufficientBalance,
    {
        if delta.is_zero() {
            // This is a no-op as far as mutating state
            return self.get_balance(bs, owner);
        }
        let balance = match self.get_balance(bs, owner) {
            Ok(balance) => balance,
            Err(e) => return Err(e),
        };
        let new_balance = balance.plus(delta);
        // if the new_balance is negative, return an error
        if new_balance.is_negative() {
            return Err(StateError::InsufficientBalance { owner, balance, delta: delta.clone() });
        }
        match self.put_balance(bs, owner, &new_balance) {
            Ok(()) => Ok(new_balance),
            Err(e) => Err(e),
        }
    }

    /// Writes a balance to the tree, or takes it out where it is zero
    fn put_balance(&mut self, bs: &mut Store, owner: ActorID, balance: &TokenAmount) -> (r: Result<
        (),
        StateError,
    >)
        requires
            old(self).hamt_bit_width < 32,
        ensures
            store::kept(old(bs)@, final(bs)@),
            final(self).hamt_bit_width == old(self).hamt_bit_width,
            final(self).supply == old(self).supply,
            r is Err ==> *final(self) == *old(self) && r->Err_0 is IpldHamt,
            old(self).ledger(old(bs)@) is Some ==> r is Ok == store::storable(balance@),
            old(self).ledger(old(bs)@) is Some ==> final(self).ledger(final(bs)@) == (if r is Ok {
                Some(old(self).ledger(old(bs)@)->0.with_balance(keys::key_of(owner), balance@))
            } else {
                old(self).ledger(old(bs)@)
            }),
    {
        let key = actor_id_key(owner);
        let ghost before = *self;
        let ghost blocks = bs@;
        if balance.is_zero() {
            match store::amounts_delete(bs, &self.balances, self.hamt_bit_width, &key) {
                Ok((root, _)) => {
                    self.balances = root;
                },
                Err(e) => return Err(StateError::IpldHamt(e)),
            }
            proof {
                assert(store::storable(0)) by {
                    vstd::arithmetic::power2::lemma_pow2_pos(1016);
                }
            }
        } else {
            match store::amounts_set(bs, &self.balances, self.hamt_bit_width, &key, balance) {
                Ok(root) => {
                    self.balances = root;
                },
                Err(e) => {
                    proof {
                        if before.ledger(blocks) is Some {
                            lemma_ledger_kept(before, blocks, bs@);
                        }
                    }
                    return Err(StateError::IpldHamt(e));
                },
            }
        }
        proof {
            if before.ledger(blocks) is Some {
                store::lemma_linked_kept(blocks, bs@, before.allowances@, before.hamt_bit_width);
            }
        }
        Ok(())
    }

    /// Create a new token state-tree, without committing it (the root cid) to a blockstore
    pub fn new(bs: &mut Store) -> (r: Result<Self, StateError>)
        ensures
            store::kept(old(bs)@, final(bs)@),
            r is Ok,
            r->Ok_0.hamt_bit_width == DEFAULT_HAMT_BIT_WIDTH,
            r->Ok_0.ledger(final(bs)@) == Some(Books::empty()),
    {
        Self::new_with_bit_width(bs, DEFAULT_HAMT_BIT_WIDTH)
    }

    /// Create a new token state-tree, without committing it (the root cid) to a blockstore
    ///
    /// Explicitly sets the bit width of underlying Hamt structures. Caller must ensure
    /// 1 <= hamt_bit_width <= 8.
    pub fn new_with_bit_width(bs: &mut Store, hamt_bit_width: u32) -> (r: Result<Self, StateError>)
        requires
            1 <= hamt_bit_width <= 8,
        ensures
            store::kept(old(bs)@, final(bs)@),
            r is Ok,
            r->Ok_0.hamt_bit_width == hamt_bit_width,
            r->Ok_0.ledger(final(bs)@) == Some(Books::empty()),
    {
        // The store is still needed to create valid roots for the trees
        let ghost blocks = bs@;
        let empty_balance_map = match store::empty_tree(bs, hamt_bit_width) {
            Ok(root) => root,
            Err(e) => return Err(StateError::IpldHamt(e)),
        };
        let ghost between = bs@;
        let empty_allowances_map = match store::empty_tree(bs, hamt_bit_width) {
            Ok(root) => root,
            Err(e) => return Err(StateError::IpldHamt(e)),
        };
        let state = TokenState {
            supply: TokenAmount::zero(),
            balances: empty_balance_map,
            allowances: empty_allowances_map,
            hamt_bit_width,
        };
        proof {
            store::lemma_kept_trans(blocks, between, bs@);
            assert(store::amounts_at(between, state.balances@, hamt_bit_width) is Some);
            assert(store::linked_amounts_at(bs@, state.allowances@, hamt_bit_width)->0 =~= Map::<
                Seq<u8>,
                store::Amounts,
            >::empty());
        }
        Ok(state)
    }

    /// Loads a fresh copy of the state from a blockstore from a given cid
    pub fn load(bs: &Store, cid: &Cid) -> (r: Result<Self, StateError>)
        ensures
            loads(bs@, cid@, r),
    {
        if bs.get(cid).is_none() {
            return Err(StateError::MissingState(cid.clone()));
        }
        // Load the actor state from the state tree.
        match get_state(bs, cid) {
            Ok(Some(state)) => Ok(state),
            Ok(None) => Err(StateError::MissingState(cid.clone())),
            Err(err) => Err(StateError::Serialization(err)),
        }
    }

    /// Saves the current state to the blockstore, returning the cid
    ///
    /// What is loaded from that cid is this state.
    pub fn save(&self, bs: &mut Store) -> (r: Result<Cid, StateError>)
        ensures
            store::kept(old(bs)@, final(bs)@),
            r is Ok == store::storable(self.supply@),
            r is Err ==> r->Err_0@ == StateFault::Serialization && final(bs)@ == old(bs)@,
            r is Ok ==> saved_at(final(bs)@, r->Ok_0@, *self),
    {
        let serialized = match encode_state(self) {
            Ok(s) => s,
            Err(err) => return Err(StateError::Serialization(err)),
        };
        Ok(bs.put(serialized))
    }

    /// Set the balance of the account returning the old balance
    pub fn set_balance(
        &mut self,
        bs: &mut Store,
        owner: ActorID,
        new_balance: &TokenAmount,
    ) -> (r: Result<TokenAmount, StateError>)
        requires
            old(self).hamt_bit_width < 32,
        ensures
            performs(
                *old(self),
                old(bs)@,
                *final(self),
                final(bs)@,
                r,
                ledger::set_balance(
                    old(self).ledger(old(bs)@)->0,
                    owner,
                    keys::key_of(owner),
                    new_balance@,
                ),
            ),
    {
        // if the new balance is negative, return an error
        if new_balance.is_negative() {
            return Err(StateError::NegativeBalance { amount: new_balance.clone(), owner });
        }
        let old_balance = match self.get_balance(bs, owner) {
            Ok(balance) => balance,
            Err(e) => return Err(e),
        };
        // if the new balance is zero, this removes it from the balance map
        match self.put_balance(bs, owner, new_balance) {
            Ok(()) => Ok(old_balance),
            Err(e) => Err(e),
        }
    }

    /// Increase/decrease the total supply by the specified value
    ///
    /// Returns the new total supply
    pub fn change_supply_by(&mut self, delta: &TokenAmount) -> (r: Result<TokenAmount, StateError>)
        ensures
            final(self).balances == old(self).balances,
            final(self).allowances == old(self).allowances,
            final(self).hamt_bit_width == old(self).hamt_bit_width,
            old(self).supply@ + delta@ < 0 ==> *final(self) == *old(self) && r is Err && r->Err_0@
                == (StateFault::NegativeTotalSupply { supply: old(self).supply@, delta: delta@ }),
            old(self).supply@ + delta@ >= 0 ==> r is Ok && r->Ok_0@ == old(self).supply@ + delta@
                && final(self).supply@ == r->Ok_0@,
    {
        let new_supply = self.supply.plus(delta);
        if new_supply.is_negative() {
            return Err(
                StateError::NegativeTotalSupply {
                    supply: self.supply.clone(),
                    delta: delta.clone(),
                },
            );
        }
        self.supply = new_supply.clone();
        Ok(new_supply)
    }

    /// Get the allowance that an owner has approved for a operator
    ///
    /// If an existing allowance cannot be found, it is implicitly assumed to be zero
    pub fn get_allowance_between(
        &self,
        bs: &Store,
        owner: ActorID,
        operator: ActorID,
    ) -> (r: Result<TokenAmount, StateError>)
        requires
            self.hamt_bit_width < 32,
        ensures
            self.ledger(bs@) is Some ==> r is Ok && r->Ok_0@ == self.ledger(bs@)->0.allowance(
                keys::key_of(owner),
                keys::key_of(operator),
            ),
            self.ledger(bs@) is Some ==> store::storable(r->Ok_0@),
            r is Err ==> r->Err_0 is IpldHamt,
    {
        proof {
            vstd::arithmetic::power2::lemma_pow2_pos(1016);
        }
        let found = match store::links_get(
            bs,
            &self.allowances,
            self.hamt_bit_width,
            &actor_id_key(owner),
        ) {
            Ok(found) => found,
            Err(e) => return Err(StateError::IpldHamt(e)),
        };
        match found {
            Some(root) => match store::amounts_get(
                bs,
                &root,
                self.hamt_bit_width,
                &actor_id_key(operator),
            ) {
                Ok(Some(allowance)) => Ok(allowance),
                Ok(None) => Ok(TokenAmount::zero()),
                Err(e) => Err(StateError::IpldHamt(e)),
            },
            None => Ok(TokenAmount::zero()),
        }
    }

    /// Writes an allowance to the trees, or takes it out where it is zero, together with the
    /// owner's tree where that becomes empty
    fn put_allowance(
        &mut self,
        bs: &mut Store,
        owner: ActorID,
        operator: ActorID,
        allowance: &TokenAmount,
    ) -> (r: Result<(), StateError>)
        requires
            old(self).hamt_bit_width < 32,
        ensures
            store::kept(old(bs)@, final(bs)@),
            final(self).hamt_bit_width == old(self).hamt_bit_width,
            final(self).supply == old(self).supply,
            r is Err ==> *final(self) == *old(self) && r->Err_0 is IpldHamt,
            old(self).ledger(old(bs)@) is Some ==> r is Ok == store::storable(allowance@),
            old(self).ledger(old(bs)@) is Some ==> final(self).ledger(final(bs)@) == (if r is Ok {
                Some(
                    old(self).ledger(old(bs)@)->0.with_allowance(
                        keys::key_of(owner),
                        keys::key_of(operator),
                        allowance@,
                    ),
                )
            } else {
                old(self).ledger(old(bs)@)
            }),
    {
        let ghost before = *self;
        let ghost blocks = bs@;
        let ghost whole = before.ledger(blocks) is Some;
        let ghost books = before.ledger(blocks)->0;
        let ghost links = store::links_at(blocks, before.allowances@, before.hamt_bit_width)->0;
        let width = self.hamt_bit_width;
        let owner_key = actor_id_key(owner);
        let operator_key = actor_id_key(operator);
        let found = match store::links_get(bs, &self.allowances, width, &owner_key) {
            Ok(found) => found,
            Err(e) => return Err(StateError::IpldHamt(e)),
        };
        // get or create the owner's allowance map
        let owner_map = match found {
            Some(root) => root,
            None => match store::empty_tree(bs, width) {
                Ok(root) => root,
                Err(e) => return Err(StateError::IpldHamt(e)),
            },
        };
        let ghost blocks1 = bs@;
        proof {
            if whole {
                lemma_ledger_kept(before, blocks, blocks1);
                assert(links.contains_key(owner_key@) ==> books.allowances[owner_key@]
                    == store::amounts_at(blocks, links[owner_key@], width)->0);
                assert(store::amounts_at(blocks1, owner_map@, width) == Some(
                    books.given_by(owner_key@),
                ));
            }
        }
        // if the new allowance is zero, we can remove the entry from the state tree
        let changed = if allowance.is_zero() {
            match store::amounts_delete(bs, &owner_map, width, &operator_key) {
                Ok((root, _)) => Ok(root),
                Err(e) => Err(e),
            }
        } else {
            store::amounts_set(bs, &owner_map, width, &operator_key, allowance)
        };
        let ghost blocks2 = bs@;
        proof {
            assert(store::storable(0)) by {
                vstd::arithmetic::power2::lemma_pow2_pos(1016);
            }
            store::lemma_kept_trans(blocks, blocks1, blocks2);
            if whole {
                lemma_ledger_kept(before, blocks, blocks2);
            }
        }
        let changed = match changed {
            Ok(root) => root,
            Err(e) => return Err(StateError::IpldHamt(e)),
        };
        let emptied = match store::amounts_is_empty(bs, &changed, width) {
            Ok(emptied) => emptied,
            Err(e) => return Err(StateError::IpldHamt(e)),
        };
        // if the owner-allowance map is empty, remove it from the global allowances map, else
        // update the global map
        let root = if emptied {
            store::links_delete(bs, &self.allowances, width, &owner_key)
        } else {
            store::links_set(bs, &self.allowances, width, &owner_key, &changed)
        };
        let ghost blocks3 = bs@;
        proof {
            store::lemma_kept_trans(blocks, blocks2, blocks3);
            if whole {
                lemma_ledger_kept(before, blocks, blocks3);
            }
        }
        match root {
            Ok(root) => {
                self.allowances = root;
            },
            Err(e) => return Err(StateError::IpldHamt(e)),
        }
        proof {
            if whole {
                let wanted = books.with_allowance(
                    keys::key_of(owner),
                    keys::key_of(operator),
                    allowance@,
                ).allowances;
                let now = store::links_at(blocks3, self.allowances@, width)->0;
                assert forall|k: Seq<u8>| #[trigger] now.contains_key(k) implies store::amounts_at(
                    blocks3,
                    now[k],
                    width,
                ) is Some && wanted.contains_key(k) && store::amounts_at(blocks3, now[k], width)->0
                    == wanted[k] by {
                    if k == keys::key_of(owner) {
                        assert(store::amounts_at(blocks2, changed@, width) is Some);
                    } else {
                        assert(links.contains_key(k));
                        assert(store::amounts_at(blocks, links[k], width) is Some);
                    }
                }
                assert(store::linked_amounts_at(blocks3, self.allowances@, width)->0 =~= wanted);
            }
        }
        Ok(())
    }

    /// Change the allowance between owner and operator by the specified delta
    pub fn change_allowance_by(
        &mut self,
        bs: &mut Store,
        owner: ActorID,
        operator: ActorID,
        delta: &TokenAmount,
    ) -> (r: Result<TokenAmount, StateError>)
        requires
            old(self).hamt_bit_width < 32,
        ensures
            performs(
                *old(self),
                old(bs)@,
                *final(self),
                final(bs)@,
                r,
                ledger::change_allowance(
                    old(self).ledger(old(bs)@)->0,
                    keys::key_of(owner),
                    keys::key_of(operator),
                    delta@,
                ),
            ),
    {
        let existing = match self.get_allowance_between(bs, owner, operator) {
            Ok(existing) => existing,
            Err(e) => return Err(e),
        };
        if delta.is_zero() {
            // This is a no-op as far as mutating state
            return Ok(existing);
        }
        // calculate new allowance (max with zero)
        let new_allowance = existing.plus(delta).max(&TokenAmount::zero());
        match self.put_allowance(bs, owner, operator, &new_allowance) {
            Ok(()) => Ok(new_allowance),
            Err(e) => Err(e),
        }
    }

    /// Revokes an approved allowance by removing the entry from the owner-operator map
    ///
    /// If that map becomes empty, it is removed from the root map. Returns the old allowance
    pub fn revoke_allowance(&mut self, bs: &mut Store, owner: ActorID, operator: ActorID) -> (r:
        Result<TokenAmount, StateError>)
        requires
            old(self).hamt_bit_width < 32,
        ensures
            performs(
                *old(self),
                old(bs)@,
                *final(self),
                final(bs)@,
                r,
                ledger::revoke_allowance(
                    old(self).ledger(old(bs)@)->0,
                    keys::key_of(owner),
                    keys::key_of(operator),
                ),
            ),
    {
        let old_allowance = match self.get_allowance_between(bs, owner, operator) {
            Ok(allowance) => allowance,
            Err(e) => return Err(e),
        };
        proof {
            assert(store::storable(0)) by {
                vstd::arithmetic::power2::lemma_pow2_pos(1016);
            }
        }
        match self.put_allowance(bs, owner, operator, &TokenAmount::zero()) {
            Ok(()) => Ok(old_allowance),
            Err(e) => Err(e),
        }
    }

    /// Set the allowance between owner and operator to a specific amount, returning the old
    /// allowance
    pub fn set_allowance(
        &mut self,
        bs: &mut Store,
        owner: ActorID,
        operator: ActorID,
        amount: &TokenAmount,
    ) -> (r: Result<TokenAmount, StateError>)
        requires
            old(self).hamt_bit_width < 32,
        ensures
            performs(
                *old(self),
                old(bs)@,
                *final(self),
                final(bs)@,
                r,
                ledger::set_allowance(
                    old(self).ledger(old(bs)@)->0,
                    owner,
                    keys::key_of(owner),
                    operator,
                    keys::key_of(operator),
                    amount@,
                ),
            ),
    {
        if amount.is_negative() {
            return Err(StateError::NegativeAllowance { amount: amount.clone(), owner, operator });
        }
        // determine the existing allowance
        let old_allowance = match self.get_allowance_between(bs, owner, operator) {
            Ok(allowance) => allowance,
            Err(e) => return Err(e),
        };
        match self.put_allowance(bs, owner, operator, amount) {
            Ok(()) => Ok(old_allowance),
            Err(e) => Err(e),
        }
    }

    /// Atomically checks if value is less than the allowance and deducts it if so
    ///
    /// Returns new allowance if successful, else returns an error and the allowance is unchanged
    pub fn attempt_use_allowance(
        &mut self,
        bs: &mut Store,
        operator: ActorID,
        owner: ActorID,
        amount: &TokenAmount,
    ) -> (r: Result<TokenAmount, StateError>)
        requires
            old(self).hamt_bit_width < 32,
        ensures
            performs(
                *old(self),
                old(bs)@,
                *final(self),
                final(bs)@,
                r,
                ledger::use_allowance(
                    old(self).ledger(old(bs)@)->0,
                    operator,
                    keys::key_of(operator),
                    owner,
                    keys::key_of(owner),
                    amount@,
                ),
            ),
            old(self).ledger(old(bs)@) is Some && amount@ >= 0 && r is Err ==> r->Err_0@
                is InsufficientAllowance,
    {
        let current_allowance = match self.get_allowance_between(bs, owner, operator) {
            Ok(allowance) => allowance,
            Err(e) => return Err(e),
        };
        // defensive check for operator != owner, really allowance should never be checked here
        if current_allowance.is_zero() && operator != owner {
            return Err(
                StateError::InsufficientAllowance {
                    owner: Address::new_id(owner),
                    operator: Address::new_id(operator),
                    allowance: current_allowance,
                    delta: amount.clone(),
                },
            );
        }
        if amount.is_zero() {
            return Ok(current_allowance);
        }
        if current_allowance.lt(amount) {
            return Err(
                StateError::InsufficientAllowance {
                    owner: Address::new_id(owner),
                    operator: Address::new_id(operator),
                    allowance: current_allowance,
                    delta: amount.clone(),
                },
            );
        }
        self.change_allowance_by(bs, owner, operator, &amount.neg())
    }

    /// Retrieve the balance map as a HAMT
    pub fn get_balance_map<'bs>(&self, bs: &'bs Store) -> (r: Result<BalanceMap<'bs>, StateError>)
        requires
            self.hamt_bit_width < 32,
        ensures
            self.ledger(bs@) is Some ==> r is Ok && r->Ok_0@ == Some(
                self.ledger(bs@)->0.balances,
            ),
            r is Err ==> r->Err_0 is IpldHamt,
            r is Ok ==> r->Ok_0.readable(),
    {
        match store::amounts_is_empty(bs, &self.balances, self.hamt_bit_width) {
            Ok(_) => Ok(
                BalanceMap { bs, root: self.balances.clone(), bit_width: self.hamt_bit_width },
            ),
            Err(e) => Err(StateError::IpldHamt(e)),
        }
    }

    /// Get the global allowances map
    ///
    /// Gets a HAMT with CIDs linking to other HAMTs
    pub fn get_allowances_map<'bs>(&self, bs: &'bs Store) -> (r: Result<AllowanceMap<'bs>, StateError>)
        requires
            self.hamt_bit_width < 32,
        ensures
            self.ledger(bs@) is Some ==> r is Ok && r->Ok_0@ == store::links_at(
                bs@,
                self.allowances@,
                self.hamt_bit_width,
            ) && r->Ok_0.linked() == Some(self.ledger(bs@)->0.allowances),
            r is Err ==> r->Err_0 is IpldHamt,
            r is Ok ==> r->Ok_0.readable(),
    {
        match store::links_is_empty(bs, &self.allowances, self.hamt_bit_width) {
            Ok(_) => Ok(
                AllowanceMap { bs, root: self.allowances.clone(), bit_width: self.hamt_bit_width },
            ),
            Err(e) => Err(StateError::IpldHamt(e)),
        }
    }

    /// Get the allowances map of a specific actor, resolving the CID link to a Hamt
    ///
    /// Ok(Some) if the owner has allocated allowances to other actors
    /// Ok(None) if the owner has no current non-zero allowances to other actors
    /// Err if operations on the underlying Hamt failed
    pub fn get_owner_allowance_map<'bs>(&self, bs: &'bs Store, owner: ActorID) -> (r: Result<
        Option<BalanceMap<'bs>>,
        StateError,
    >)
        requires
            self.hamt_bit_width < 32,
        ensures
            self.ledger(bs@) is Some ==> r is Ok && (match r->Ok_0 {
                Some(map) => self.ledger(bs@)->0.allowances.contains_key(keys::key_of(owner))
                    && map@ == Some(self.ledger(bs@)->0.allowances[keys::key_of(owner)]),
                None => !self.ledger(bs@)->0.allowances.contains_key(keys::key_of(owner)),
            }),
            r is Err ==> r->Err_0 is IpldHamt,
            r is Ok && r->Ok_0 is Some ==> r->Ok_0->0.readable(),
    {
        let found = match store::links_get(
            bs,
            &self.allowances,
            self.hamt_bit_width,
            &actor_id_key(owner),
        ) {
            Ok(found) => found,
            Err(e) => return Err(StateError::IpldHamt(e)),
        };
        match found {
            Some(root) => match store::amounts_is_empty(bs, &root, self.hamt_bit_width) {
                Ok(_) => Ok(Some(BalanceMap { bs, root, bit_width: self.hamt_bit_width })),
                Err(e) => Err(StateError::IpldHamt(e)),
            },
            None => Ok(None),
        }
    }

    /// Retrieve the number of token holders
    ///
    /// This involves iterating through the entire HAMT
    pub fn count_balances(&self, bs: &Store) -> (r: Result<usize, StateError>)
        requires
            self.hamt_bit_width < 32,
        ensures
            self.ledger(bs@) is Some ==> r is Ok && r->Ok_0
                == self.ledger(bs@)->0.balances.dom().len() && self.ledger(
                bs@,
            )->0.balances.dom().finite(),
            r is Err ==> r->Err_0 is IpldHamt,
    {
        match store::amounts_entries(bs, &self.balances, self.hamt_bit_width) {
            Ok(entries) => Ok(entries.len()),
            Err(e) => Err(StateError::IpldHamt(e)),
        }
    }

    /// Checks the allowances of all owners
    fn check_allowances(&self, bs: &Store) -> (r: Result<(), StateInvariantError>)
        requires
            self.hamt_bit_width < 32,
        ensures
            self.ledger(bs@) is Some ==> r is Ok == (self.ledger(bs@)->0.allowances_sound(
                |k: Seq<u8>| keys::id_of(k),
            ) && owners_found(self.ledger(bs@)->0.allowances)),
            self.ledger(bs@) is Some && r is Err ==> exists|k: Seq<u8>| #[trigger]
                self.ledger(bs@)->0.allowances.contains_key(k) && faults_owner(
                    r->Err_0,
                    k,
                    self.ledger(bs@)->0.allowances,
                ),
    {
        let ghost whole = self.ledger(bs@) is Some;
        let ghost allowances = self.ledger(bs@)->0.allowances;
        let ghost ids = |k: Seq<u8>| keys::id_of(k);
        let entries = match store::links_entries(bs, &self.allowances, self.hamt_bit_width) {
            Ok(entries) => entries,
            Err(e) => return Err(StateInvariantError::State(StateError::IpldHamt(e))),
        };
        let ghost owners = store::link_pairs(entries@);
        let mut i: usize = 0;
        while i < entries.len()
            invariant
                i <= entries.len(),
                self.hamt_bit_width < 32,
                whole == self.ledger(bs@) is Some,
                allowances == self.ledger(bs@)->0.allowances,
                owners == store::link_pairs(entries@),
                whole ==> store::lists(
                    owners,
                    store::links_at(bs@, self.allowances@, self.hamt_bit_width)->0,
                ),
                whole ==> forall|j: int|
                    0 <= j < i ==> owner_sound((#[trigger] owners[j]).0, allowances[owners[j].0])
                        && allowances.contains_key(keys::key_of(keys::id_of(owners[j].0)->0)),
            decreases entries.len() - i,
        {
            let key = &entries[i].0;
            assert(owners[i as int] == (key@, entries[i as int].1@));
            assert(whole ==> allowances.contains_key(key@));
            let owner = match decode_actor_id(key) {
                None => {
                    assert(whole ==> !owner_sound(key@, allowances[key@]));
                    return Err(
                        StateInvariantError::InvalidOwnerKey(
                            BytesKey { bytes: bytes_clone(&key.bytes) },
                        ),
                    );
                },
                Some(a) => a,
            };
            match store::links_get(
                bs,
                &self.allowances,
                self.hamt_bit_width,
                &actor_id_key(owner),
            ) {
                Ok(Some(_)) => {},
                Ok(None) => {
                    let e = StateInvariantError::ExplicitEmptyAllowance(owner);
                    assert(whole ==> faults_owner(e, key@, allowances));
                    return Err(e);
                },
                Err(e) => return Err(StateInvariantError::State(StateError::IpldHamt(e))),
            }
            let given = match store::amounts_entries(bs, &entries[i].1, self.hamt_bit_width) {
                Ok(given) => given,
                Err(e) => return Err(StateInvariantError::State(StateError::IpldHamt(e))),
            };
            let ghost pairs = store::amount_pairs(given@);
            match check_owner_allowances(owner, &given) {
                Ok(()) => {
                    proof {
                        if whole {
                            assert(allowances[key@].contains_key(pairs[0].0));
                            assert forall|k: Seq<u8>| #[trigger]
                                allowances[key@].contains_key(k) implies allowance_sound(
                                (k, allowances[key@][k]),
                                owner,
                            ) by {
                                store::lemma_lists_all(pairs, allowances[key@], k);
                            }
                        }
                    }
                },
                Err(e) => {
                    proof {
                        if whole {
                            if given.len() == 0 {
                                assert(allowances[key@] =~= store::Amounts::empty());
                            } else {
                                let j = choose|j: int|
                                    0 <= j < given.len() && !allowance_sound(
                                        #[trigger] pairs[j],
                                        owner,
                                    ) && faults_allowance(e, owner, pairs[j].0, pairs[j].1);
                                assert(allowances[key@].contains_key(pairs[j].0));
                            }
                            assert(!owner_sound(key@, allowances[key@]));
                            assert(faults_owner(e, key@, allowances));
                        }
                    }
                    return Err(e);
                },
            }
            i += 1;
        }
        proof {
            if whole {
                let links = store::links_at(bs@, self.allowances@, self.hamt_bit_width)->0;
                assert forall|k: Seq<u8>| #[trigger] allowances.contains_key(k) implies owner_sound(
                    k,
                    allowances[k],
                ) && allowances.contains_key(keys::key_of(keys::id_of(k)->0)) by {
                    store::lemma_lists_all(owners, links, k);
                }
            }
        }
        Ok(())
    }

    /// Checks that the current state obeys all system invariants
    ///
    /// Checks that there are no zero balances, zero allowances or empty allowance maps explicitly
    /// stored in the blockstore. Checks that balances, total supply, allowances are never negative.
    /// Checks that sum of all balances matches total_supply. Checks that no allowances are stored
    /// where operator == owner. Checks that all balances are a multiple of the granularity.
    ///
    /// Returns a state summary that can be used to check application specific invariants.
    pub fn check_invariants<'bs>(&self, bs: &'bs Store, granularity: u64) -> (r: Result<
        StateSummary<'bs>,
        StateInvariantError,
    >)
        requires
            self.hamt_bit_width < 32,
            granularity > 0,
        ensures
            self.ledger(bs@) is Some ==> r is Ok == sound_books(
                self.ledger(bs@)->0,
                granularity,
            ),
            self.ledger(bs@) is Some && r is Err ==> faults(
                r->Err_0,
                self.ledger(bs@)->0,
                granularity,
            ),
            self.ledger(bs@) is Some && r is Ok ==> r->Ok_0.shows(self.ledger(bs@)->0),
            r is Ok ==> self.supply@ >= 0 && r->Ok_0.readable(),
    {
        let ghost whole = self.ledger(bs@) is Some;
        let ghost books = self.ledger(bs@)->0;
        let ghost ids = |k: Seq<u8>| keys::id_of(k);
        // check total supply
        if self.supply.is_negative() {
            return Err(StateInvariantError::SupplyNegative(self.supply.clone()));
        }
        // check balances
        let entries = match store::amounts_entries(bs, &self.balances, self.hamt_bit_width) {
            Ok(entries) => entries,
            Err(e) => return Err(StateInvariantError::State(StateError::IpldHamt(e))),
        };
        let ghost pairs = store::amount_pairs(entries@);
        let balance_sum = match check_balances(&entries, granularity) {
            Ok(sum) => sum,
            Err(e) => {
                proof {
                    if whole {
                        let i = choose|i: int|
                            0 <= i < entries.len() && !balance_sound(
                                #[trigger] pairs[i],
                                granularity,
                            ) && faults_balance(e, pairs[i].0, pairs[i].1, granularity);
                        assert(books.balances.contains_key(pairs[i].0));
                    }
                }
                return Err(e);
            },
        };
        proof {
            if whole {
                ledger::lemma_sum_is_total(pairs, books.balances);
                assert forall|k: Seq<u8>| #[trigger] books.balances.contains_key(k) implies {
                    &&& ids(k) is Some
                    &&& books.balances[k] > 0
                    &&& books.balances[k] % (granularity as int) == 0
                } by {
                    store::lemma_lists_all(pairs, books.balances, k);
                }
            }
        }
        // all balances must add up to total supply
        if !balance_sum.same(&self.supply) {
            return Err(
                StateInvariantError::BalanceSupplyMismatch {
                    supply: self.supply.clone(),
                    balance_sum,
                },
            );
        }
        // check allowances are all positive, and that there are no empty maps
        match self.check_allowances(bs) {
            Ok(()) => {},
            Err(e) => {
                return Err(e);
            },
        }
        let balance_map = match self.get_balance_map(bs) {
            Ok(map) => map,
            Err(e) => return Err(StateInvariantError::State(e)),
        };
        let allowance_map = match self.get_allowances_map(bs) {
            Ok(map) => map,
            Err(e) => return Err(StateInvariantError::State(e)),
        };
        Ok(StateSummary { balance_map, allowance_map, total_supply: self.supply.clone() })
    }
}

/// A summary of the current state to allow checking application specific invariants
pub struct StateSummary<'bs> {
    /// The balances.
    pub balance_map: BalanceMap<'bs>,
    /// The allowances.
    pub allowance_map: AllowanceMap<'bs>,
    /// The supply.
    pub total_supply: TokenAmount,
}

impl<'bs> StateSummary<'bs> {
    /// Whether the summary is that of these books.
    pub open spec fn shows(&self, books: Books) -> bool {
        &&& self.total_supply@ == books.supply
        &&& self.balance_map@ == Some(books.balances)
        &&& self.allowance_map.linked() == Some(books.allowances)
    }

    /// Both maps have a width that trees can have.
    pub open spec fn readable(&self) -> bool {
        self.balance_map.readable() && self.allowance_map.readable()
    }
}

/// A tree of amounts by actor: all balances, or the allowances of one owner.
pub struct BalanceMap<'bs> {
    bs: &'bs Store,
    root: Cid,
    bit_width: u32,
}

impl<'bs> View for BalanceMap<'bs> {
    type V = Option<store::Amounts>;

    closed spec fn view(&self) -> Option<store::Amounts> {
        store::amounts_at(self.bs@, self.root@, self.bit_width)
    }
}

impl<'bs> BalanceMap<'bs> {
    /// The width is one that trees can have.
    pub closed spec fn readable(&self) -> bool {
        self.bit_width < 32
    }

    /// The amount under a key.
    pub fn get(&self, key: &BytesKey) -> (r: Result<Option<TokenAmount>, HamtError>)
        requires
            self.readable(),
        ensures
            self@ is Some ==> r is Ok && store::amount_found(r->Ok_0, self@->0, key@),
    {
        store::amounts_get(self.bs, &self.root, self.bit_width, key)
    }

    /// Whether there is an amount under a key.
    pub fn contains_key(&self, key: &BytesKey) -> (r: Result<bool, HamtError>)
        requires
            self.readable(),
        ensures
            self@ is Some ==> r is Ok && r->Ok_0 == self@->0.contains_key(key@),
    {
        match self.get(key) {
            Ok(found) => Ok(found.is_some()),
            Err(e) => Err(e),
        }
    }

    /// All entries.
    pub fn entries(&self) -> (r: Result<Vec<(BytesKey, TokenAmount)>, HamtError>)
        requires
            self.readable(),
        ensures
            self@ is Some ==> r is Ok && store::lists(store::amount_pairs(r->Ok_0@), self@->0),
    {
        store::amounts_entries(self.bs, &self.root, self.bit_width)
    }
}

/// A tree of the owners' trees of allowances.
pub struct AllowanceMap<'bs> {
    bs: &'bs Store,
    root: Cid,
    bit_width: u32,
}

impl<'bs> View for AllowanceMap<'bs> {
    type V = Option<store::Links>;

    closed spec fn view(&self) -> Option<store::Links> {
        store::links_at(self.bs@, self.root@, self.bit_width)
    }
}

impl<'bs> AllowanceMap<'bs> {
    /// The width is one that trees can have.
    pub closed spec fn readable(&self) -> bool {
        self.bit_width < 32
    }

    /// The allowances in the trees that are linked.
    pub closed spec fn linked(&self) -> Option<Map<Seq<u8>, store::Amounts>> {
        store::linked_amounts_at(self.bs@, self.root@, self.bit_width)
    }

    /// The root of the tree under a key.
    pub fn get(&self, key: &BytesKey) -> (r: Result<Option<Cid>, HamtError>)
        requires
            self.readable(),
        ensures
            self@ is Some ==> r is Ok && store::link_found(r->Ok_0, self@->0, key@),
    {
        store::links_get(self.bs, &self.root, self.bit_width, key)
    }

    /// The allowances of the owner under a key, if it has given any.
    pub fn given_by(&self, key: &BytesKey) -> (r: Result<Option<BalanceMap<'bs>>, HamtError>)
        requires
            self.readable(),
        ensures
            self.linked() is Some ==> r is Ok && (match r->Ok_0 {
                Some(map) => self.linked()->0.contains_key(key@) && map@ == Some(
                    self.linked()->0[key@],
                ),
                None => !self.linked()->0.contains_key(key@),
            }),
            r is Ok && r->Ok_0 is Some ==> r->Ok_0->0.readable(),
    {
        match self.get(key) {
            Ok(Some(root)) => Ok(Some(BalanceMap { bs: self.bs, root, bit_width: self.bit_width })),
            Ok(None) => Ok(None),
            Err(e) => Err(e),
        }
    }

    /// Whether there is a tree under a key.
    pub fn contains_key(&self, key: &BytesKey) -> (r: Result<bool, HamtError>)
        requires
            self.readable(),
        ensures
            self@ is Some ==> r is Ok && r->Ok_0 == self@->0.contains_key(key@),
    {
        match self.get(key) {
            Ok(found) => Ok(found.is_some()),
            Err(e) => Err(e),
        }
    }
}

} // verus!
