//! Library functions that implement a fungible token on top of its state.
use vstd::prelude::*;

use crate::address::{Address, AddressView};
use crate::amount::TokenAmount;
use crate::bytes;
use crate::bytes::{ActorID, Cid, IpldBlock, RawBytes, CBOR};
use crate::exit::ErrorNumber;
use crate::fil_fungible_token::error::{TokenError, TokenFault};
use crate::fil_fungible_token::receiver;
use crate::fil_fungible_token::receiver::{hook_outcome, ReceiverHook, TokensReceivedParams};
use crate::fil_fungible_token::state;
use crate::fil_fungible_token::state::{Books, StateError, TokenState};
use crate::fil_fungible_token::types::{
    BurnFromReturn, BurnReturn, MintReturn, TransferFromReturn, TransferReturn,
};
use crate::fvm_actor_utils::messaging::RECEIVER_HOOK_METHOD_NUM;
use crate::fvm_actor_utils::receiver::{encode_received, Received};
use crate::fvm_actor_utils::syscalls::{Response, Syscalls};
use crate::fvm_actor_utils::util;
use crate::fvm_actor_utils::util::ActorRuntime;
use crate::ledger;
use crate::ledger::{Account, Outcome, StateFault};
use crate::store;
use crate::store::{Blocks, Store};

pub use crate::amount::TOKEN_PRECISION;

verus! {

/// Library functions that implement core FRC-0046 standards
///
/// Holds injectable services to access/interface with IPLD/FVM layer.
pub struct Token<'st, S: Syscalls> {
    /// Runtime services to interact with the execution environment
    pub runtime: ActorRuntime<S>,
    /// Reference to token state that will be inspected/mutated
    pub state: &'st mut TokenState,
    /// Minimum granularity of token amounts.
    /// All balances and amounts must be a multiple of this granularity.
    /// Set to 1 for standard 18-dp precision, TOKEN_PRECISION for whole units only, or some
    /// value in between.
    pub granularity: u64,
}

/// An actor's account in the trees.
pub open spec fn account(id: ActorID) -> Account<ActorID> {
    Account { id, key: id }
}

/// Why an amount of tokens is not a valid one, if it is not: it must not be negative and must be a
/// multiple of the granularity.
pub open spec fn amount_fault(amount: int, name: Seq<char>, granularity: u64) -> Option<TokenFault> {
    if amount < 0 {
        Some(TokenFault::InvalidNegative { name, amount })
    } else if amount % (granularity as int) != 0 {
        Some(TokenFault::InvalidGranularity { name, amount, granularity })
    } else {
        None
    }
}

/// Validates that a token amount is non-negative, and an integer multiple of granularity.
///
/// Returns the argument, or an error.
pub fn validate_amount<'a>(a: &'a TokenAmount, name: &'static str, granularity: u64) -> (r:
    Result<&'a TokenAmount, TokenError>)
    requires
        granularity > 0,
    ensures
        match amount_fault(a@, name@, granularity) {
            Some(fault) => r is Err && r->Err_0@ == fault,
            None => r is Ok && *r->Ok_0 == *a,
        },
{
    if a.is_negative() {
        return Err(TokenError::InvalidNegative { name, amount: a.clone() });
    }
    if !a.is_multiple_of(granularity) {
        return Err(TokenError::InvalidGranularity { name, amount: a.clone(), granularity });
    }
    Ok(a)
}

/// Whether a new state is what an operation makes of a state, or the operation's refusal.
pub open spec fn yields(
    before: TokenState,
    blocks_before: Blocks,
    blocks_after: Blocks,
    r: Result<(TokenState, TokenAmount), StateError>,
    wanted: Outcome<ActorID>,
) -> bool {
    &&& store::kept(blocks_before, blocks_after)
    &&& before.ledger(blocks_before) is Some ==> match wanted {
        Ok((books, amount)) => {
            &&& r is Ok
            &&& r->Ok_0.0.ledger(blocks_after) == Some(books)
            &&& r->Ok_0.1@ == amount
        },
        Err(fault) => r is Err && r->Err_0@ == fault,
    }
}

/// A copy of the state with tokens made for an owner, or taken away; its new balance
fn issued(current: &TokenState, bs: &mut Store, owner: ActorID, amount: &TokenAmount) -> (r: Result<
    (TokenState, TokenAmount),
    StateError,
>)
    ensures
        yields(
            *current,
            old(bs)@,
            final(bs)@,
            r,
            ledger::issue(current.ledger(old(bs)@)->0, account(owner), amount@),
        ),
        current.ledger(old(bs)@) is Some && amount@ <= 0 && r is Err ==> r->Err_0@
            != StateFault::Storage,
{
    let mut state = current.clone();
    let balance = match state.change_balance_by(bs, owner, amount) {
        Ok(balance) => balance,
        Err(e) => return Err(e),
    };
    match state.change_supply_by(amount) {
        Ok(_) => Ok((state, balance)),
        Err(e) => Err(e),
    }
}

/// A copy of the state with tokens moved from one account to another; the new balances
fn moved(current: &TokenState, bs: &mut Store, from: ActorID, to: ActorID, amount: &TokenAmount) -> (r:
    Result<(TokenState, TransferReturn), StateError>)
    ensures
        store::kept(old(bs)@, final(bs)@),
        current.ledger(old(bs)@) is Some ==> match ledger::move_tokens(
            current.ledger(old(bs)@)->0,
            account(from),
            account(to),
            amount@,
        ) {
            Ok((books, _)) => {
                &&& r is Ok
                &&& r->Ok_0.0.ledger(final(bs)@) == Some(books)
                &&& r->Ok_0.1.from_balance@ == books.balance(from)
                &&& r->Ok_0.1.to_balance@ == books.balance(to)
            },
            Err(fault) => r is Err && r->Err_0@ == fault,
        },
{
    let mut state = current.clone();
    let ghost blocks = bs@;
    // don't change balance if to == from, but must check that the transfer doesn't exceed balance
    if to == from {
        let balance = match state.get_balance(bs, from) {
            Ok(balance) => balance,
            Err(e) => return Err(e),
        };
        if balance.lt(amount) {
            return Err(
                StateError::InsufficientBalance { owner: from, balance, delta: amount.neg() },
            );
        }
        return Ok((state, TransferReturn { from_balance: balance.clone(), to_balance: balance }));
    }
    let to_balance = match state.change_balance_by(bs, to, amount) {
        Ok(balance) => balance,
        Err(e) => return Err(e),
    };
    let ghost between = bs@;
    let debit = amount.neg();
    let debited = state.change_balance_by(bs, from, &debit);
    proof {
        store::lemma_kept_trans(blocks, between, bs@);
    }
    match debited {
        Ok(from_balance) => Ok((state, TransferReturn { from_balance, to_balance })),
        Err(e) => Err(e),
    }
}

impl<'st, S: Syscalls> Token<'st, S> {
    /// The state at this time.
    pub open spec fn current(&self) -> TokenState {
        *self.state
    }

    /// The books that the token keeps.
    pub open spec fn books(&self) -> Option<Books> {
        self.state.ledger(self.runtime.blockstore@)
    }

    /// The granularity is positive.
    pub open spec fn usable(&self) -> bool {
        self.granularity > 0
    }

    /// Creates a new clean token state instance
    ///
    /// This should be wrapped in a Token handle for convenience. Must be flushed to the blockstore
    /// explicitly to persist changes
    pub fn create_state(bs: &mut Store) -> (r: Result<TokenState, TokenError>)
        ensures
            store::kept(old(bs)@, final(bs)@),
            r is Ok,
            r->Ok_0.ledger(final(bs)@) == Some(Books::empty()),
    {
        match TokenState::new(bs) {
            Ok(state) => Ok(state),
            Err(e) => Err(TokenError::TokenState(e)),
        }
    }

    /// Wrap an existing token state
    pub fn wrap(runtime: ActorRuntime<S>, granularity: u64, state: &'st mut TokenState) -> (r: Self)
        ensures
            r.runtime == runtime,
            r.granularity == granularity,
            *r.state == *old(state),
            *final(r.state) == *final(state),
    {
        Token { runtime, state, granularity }
    }

    /// Replace the current state with another
    /// The previous state is returned and can be safely dropped
    pub fn replace(&mut self, state: TokenState) -> (r: TokenState)
        ensures
            r == *old(self).state,
            *final(self).state == state,
            final(self).runtime == old(self).runtime,
            final(self).granularity == old(self).granularity,
            *final(final(self).state) == *final(old(self).state),
    {
        let mut state = state;
        std::mem::swap(&mut state, self.state);
        state
    }

    /// For an already initialised state tree, loads the state tree from the blockstore at a Cid
    pub fn load_state(bs: &Store, state_cid: &Cid) -> (r: Result<TokenState, TokenError>)
        ensures
            loads(bs@, state_cid@, r),
    {
        match TokenState::load(bs, state_cid) {
            Ok(state) => Ok(state),
            Err(e) => Err(TokenError::TokenState(e)),
        }
    }

    /// Flush state and return Cid for root
    pub fn flush(&mut self) -> (r: Result<Cid, TokenError>)
        ensures
            *final(self).state == *old(self).state,
            final(self).runtime.syscalls == old(self).runtime.syscalls,
            final(self).granularity == old(self).granularity,
            *final(final(self).state) == *final(old(self).state),
            store::kept(old(self).runtime.blockstore@, final(self).runtime.blockstore@),
            r is Ok == store::storable(old(self).state.supply@),
            r is Err ==> r->Err_0@ == TokenFault::State(StateFault::Serialization),
            r is Ok ==> store::cbor_codec(r->Ok_0@) && final(self).runtime.blockstore@.contains_key(r->Ok_0@) && state::state_record(
                final(self).runtime.blockstore@[r->Ok_0@],
            ) == Some(old(self).state.record()),
    {
        match self.state.save(&mut self.runtime.blockstore) {
            Ok(cid) => Ok(cid),
            Err(e) => Err(TokenError::TokenState(e)),
        }
    }

    /// Get a reference to the wrapped state tree
    pub fn state(&self) -> (r: &TokenState)
        ensures
            *r == self.current(),
    {
        &*self.state
    }

    /// Get a reference to the runtime that messages go through
    pub fn msg(&self) -> (r: &ActorRuntime<S>)
        ensures
            *r == self.runtime,
    {
        &self.runtime
    }

    /// Returns the smallest amount of tokens which is indivisible
    ///
    /// Transfers and balances must be in multiples of granularity but allowances need not be.
    /// Granularity never changes after it is initially set
    pub fn granularity(&self) -> (r: u64)
        ensures
            r == self.granularity,
    {
        self.granularity
    }

    /// Mints the specified value of tokens into an account
    ///
    /// The minter is implicitly defined as the caller of the actor, and must be an ID address.
    /// The mint amount must be non-negative or the method returns an error.
    ///
    /// Returns a ReceiverHook to call the owner's token receiver hook,
    /// and the owner's new balance.
    /// ReceiverHook must be called.
    pub fn mint(
        &mut self,
        operator: &Address,
        initial_owner: &Address,
        amount: &TokenAmount,
        operator_data: RawBytes,
        token_data: RawBytes,
    ) -> (r: Result<(ReceiverHook, MintReturn), TokenError>)
        requires
            old(self).usable(),
        ensures
            *final(final(self).state) == *final(old(self).state),
            minted(*old(self), *final(self), operator@, initial_owner@, amount@, operator_data@, token_data@, r),
    {
        let amount = match validate_amount(amount, "mint", self.granularity) {
            Ok(amount) => amount,
            Err(e) => return Err(e),
        };
        // init the operator account so that its actor ID can be referenced in the receiver hook
        // init the owner account as allowance and balance checks are not performed for minting
        let (operator_id, owner_id) = match self.runtime.resolve_or_init_both(
            operator,
            initial_owner,
        ) {
            Ok(ids) => ids,
            Err(e) => return Err(TokenError::Messaging(e)),
        };
        // Increase the balance of the actor and increase total supply
        let result = match issued(self.state, &mut self.runtime.blockstore, owner_id, amount) {
            Ok((state, balance)) => {
                *self.state = state;
                MintReturn { balance, supply: self.state.supply.clone() }
            },
            Err(e) => return Err(TokenError::TokenState(e)),
        };
        // return the params we'll send to the receiver hook
        let params = TokensReceivedParams {
            from: self.runtime.actor_id(),
            to: owner_id,
            operator: operator_id,
            amount: amount.clone(),
            operator_data,
            token_data,
        };
        Ok((ReceiverHook::new(initial_owner.clone(), params), result))
    }

    /// Gets the total number of tokens in existence
    ///
    /// This equals the sum of `balance_of` called on all addresses. This equals sum of all
    /// successful `mint` calls minus the sum of all successful `burn`/`burn_from` calls
    pub fn total_supply(&self) -> (r: TokenAmount)
        ensures
            r@ == self.current().supply@,
    {
        self.state.supply.clone()
    }

    /// The balance at an address: zero where it stands for no actor.
    pub open spec fn balance_at(&self, owner: AddressView) -> int {
        match self.runtime.syscalls.resolves(owner) {
            Some(id) => self.books()->0.balance(id),
            None => 0,
        }
    }

    /// The allowance between two addresses: zero where one of them stands for no actor.
    pub open spec fn allowance_at(&self, owner: AddressView, operator: AddressView) -> int {
        match (self.runtime.syscalls.resolves(owner), self.runtime.syscalls.resolves(operator)) {
            (Some(a), Some(b)) => self.books()->0.allowance(a, b),
            _ => 0,
        }
    }

    /// Returns the balance associated with a particular address
    ///
    /// Accounts that have never received transfers implicitly have a zero-balance
    pub fn balance_of(&self, owner: &Address) -> (r: Result<TokenAmount, TokenError>)
        ensures
            self.books() is Some ==> r is Ok && r->Ok_0@ == self.balance_at(owner@),
            self.runtime.syscalls.resolves(owner@) is None ==> r is Ok && r->Ok_0@ == 0,
            r is Err ==> r->Err_0@ == TokenFault::State(StateFault::Storage),
    {
        // Don't instantiate an account if unable to resolve to an ID address, as non-initialized
        // addresses have an implicit zero balance
        match self.runtime.resolve_id(owner) {
            Ok(owner) => match self.state.get_balance(&self.runtime.blockstore, owner) {
                Ok(balance) => Ok(balance),
                Err(e) => Err(TokenError::TokenState(e)),
            },
            Err(_) => Ok(TokenAmount::zero()),
        }
    }

    /// Gets the allowance between owner and operator
    ///
    /// An allowance is the amount that the operator can transfer or burn out of the owner's account
    /// via the `transfer` and `burn` methods.
    pub fn allowance(&self, owner: &Address, operator: &Address) -> (r: Result<
        TokenAmount,
        TokenError,
    >)
        ensures
            self.books() is Some ==> r is Ok && r->Ok_0@ == self.allowance_at(owner@, operator@),
            r is Err ==> r->Err_0@ == TokenFault::State(StateFault::Storage),
    {
        // Don't instantiate an account if unable to resolve owner-ID, as non-initialized addresses
        // give implicit zero allowances to all addresses
        let owner = match self.runtime.resolve_id(owner) {
            Ok(owner) => owner,
            Err(_) => return Ok(TokenAmount::zero()),
        };
        // Don't instantiate an account if unable to resolve operator-ID, as non-initialized
        // addresses have an implicit zero allowance
        let operator = match self.runtime.resolve_id(operator) {
            Ok(operator) => operator,
            Err(_) => return Ok(TokenAmount::zero()),
        };
        // For concretely resolved accounts, retrieve the allowance from the map
        match self.state.get_allowance_between(&self.runtime.blockstore, owner, operator) {
            Ok(allowance) => Ok(allowance),
            Err(e) => Err(TokenError::TokenState(e)),
        }
    }

    /// Increase the allowance that an operator can control of an owner's balance by the requested
    /// delta
    ///
    /// Returns an error if requested delta is negative or there are errors in (de)serialization of
    /// state.If either owner or operator addresses are not resolvable and cannot be initialised,
    /// this method returns MessagingError::AddressNotInitialized.
    ///
    /// Else returns the new allowance
    pub fn increase_allowance(&mut self, owner: &Address, operator: &Address, delta: &TokenAmount) -> (r: Result<
        TokenAmount,
        TokenError,
    >)
        requires
            old(self).usable(),
        ensures
            *final(final(self).state) == *final(old(self).state),
            allowance_increased(*old(self), *final(self), owner@, operator@, delta@, r),
    {
        let delta = match validate_amount(delta, "allowance delta", self.granularity) {
            Ok(delta) => delta,
            Err(e) => return Err(e),
        };
        // Attempt to instantiate the accounts if they don't exist
        let (owner_id, operator_id) = match self.runtime.resolve_or_init_both(owner, operator) {
            Ok(ids) => ids,
            Err(e) => return Err(TokenError::Messaging(e)),
        };
        let ghost ids = (owner_id, operator_id);
        let ghost chosen = (account(ids.0), account(ids.1));
        match self.state.change_allowance_by(
            &mut self.runtime.blockstore,
            owner_id,
            operator_id,
            delta,
        ) {
            Ok(allowance) => Ok(allowance),
            Err(e) => Err(TokenError::TokenState(e)),
        }
    }

    /// Decrease the allowance that an operator controls of the owner's balance by the requested
    /// delta
    ///
    /// Returns an error if requested delta is negative or there are errors in (de)serialization of
    /// of state. If the resulting allowance would be negative, the allowance between owner and
    /// operator is set to zero.Returns an error if either the operator or owner addresses are not
    /// resolvable and cannot be initialized.
    ///
    /// Else returns the new allowance
    pub fn decrease_allowance(&mut self, owner: &Address, operator: &Address, delta: &TokenAmount) -> (r: Result<
        TokenAmount,
        TokenError,
    >)
        requires
            old(self).usable(),
        ensures
            *final(final(self).state) == *final(old(self).state),
            allowance_decreased(*old(self), *final(self), owner@, operator@, delta@, r),
    {
        let delta = match validate_amount(delta, "allowance delta", self.granularity) {
            Ok(delta) => delta,
            Err(e) => return Err(e),
        };
        // Attempt to instantiate the accounts if they don't exist
        let (owner_id, operator_id) = match self.runtime.resolve_or_init_both(owner, operator) {
            Ok(ids) => ids,
            Err(e) => return Err(TokenError::Messaging(e)),
        };
        let ghost ids = (owner_id, operator_id);
        let ghost chosen = (account(ids.0), account(ids.1));
        match self.state.change_allowance_by(
            &mut self.runtime.blockstore,
            owner_id,
            operator_id,
            &delta.neg(),
        ) {
            Ok(allowance) => Ok(allowance),
            Err(e) => Err(TokenError::TokenState(e)),
        }
    }

    /// Sets the allowance between owner and operator to 0
    pub fn revoke_allowance(&mut self, owner: &Address, operator: &Address) -> (r: Result<
        (),
        TokenError,
    >)
        ensures
            *final(final(self).state) == *final(old(self).state),
            revoked(*old(self), *final(self), owner@, operator@, r),
    {
        let owner = match self.runtime.resolve_id(owner) {
            Ok(owner) => owner,
            // uninitialized address has implicit zero allowance already
            Err(_) => return Ok(()),
        };
        let operator = match self.runtime.resolve_id(operator) {
            Ok(operator) => operator,
            // uninitialized address has implicit zero allowance already
            Err(_) => return Ok(()),
        };
        // if both accounts resolved, explicitly set allowance to zero
        match self.state.revoke_allowance(&mut self.runtime.blockstore, owner, operator) {
            Ok(_) => Ok(()),
            Err(e) => Err(TokenError::TokenState(e)),
        }
    }

    /// Burns an amount of token from the specified address, decreasing total token supply
    ///
    /// - The requested value MUST be non-negative
    /// - The requested value MUST NOT exceed the target's balance
    /// - If the burn operation would result in a negative balance for the owner, the burn is
    /// discarded and this method returns an error
    ///
    /// Upon successful burn
    /// - The target's balance decreases by the requested value
    /// - The total_supply decreases by the requested value
    pub fn burn(&mut self, owner: &Address, amount: &TokenAmount) -> (r: Result<
        BurnReturn,
        TokenError,
    >)
        requires
            old(self).usable(),
        ensures
            *final(final(self).state) == *final(old(self).state),
            burnt(*old(self), *final(self), owner@, amount@, r),
    {
        let amount = match validate_amount(amount, "burn", self.granularity) {
            Ok(amount) => amount,
            Err(e) => return Err(e),
        };
        let owner_id = match self.runtime.resolve_or_init(owner) {
            Ok(id) => id,
            Err(e) => return Err(TokenError::Messaging(e)),
        };
        let ghost chosen = account(owner_id);
        // attempt to burn the requested amount, and decrease total_supply
        match issued(self.state, &mut self.runtime.blockstore, owner_id, &amount.neg()) {
            Ok((state, balance)) => {
                *self.state = state;
                Ok(BurnReturn { balance })
            },
            Err(e) => Err(TokenError::TokenState(e)),
        }
    }

    /// Burns an amount of token from the specified address, decreasing total token supply
    ///
    /// If operator and owner are the same address, this method returns an InvalidOperator error.
    ///
    /// - The requested value MUST be non-negative
    /// - The requested value MUST NOT exceed the target's balance
    /// - If the burn operation would result in a negative balance for the owner, the burn is
    /// discarded and this method returns an error
    /// - The operator MUST have an allowance not less than the requested value
    ///
    /// Upon successful burn
    /// - The target's balance decreases by the requested value
    /// - The total_supply decreases by the requested value
    /// - The operator's allowance is decreased by the requested value
    pub fn burn_from(&mut self, operator: &Address, owner: &Address, amount: &TokenAmount) -> (r:
        Result<BurnFromReturn, TokenError>)
        requires
            old(self).usable(),
        ensures
            *final(final(self).state) == *final(old(self).state),
            burnt_from(*old(self), *final(self), operator@, owner@, amount@, r),
    {
        let amount = match validate_amount(amount, "burn", self.granularity) {
            Ok(amount) => amount,
            Err(e) => return Err(e),
        };
        if self.runtime.same_address(operator, owner) {
            return Err(TokenError::InvalidOperator(operator.clone()));
        }
        // operator must exist to have a non-zero allowance
        let operator_id = match self.runtime.resolve_id(operator) {
            Ok(id) => id,
            // if not resolved, implicit zero allowance is not permitted to burn, so return an
            // insufficient allowance error
            Err(_) => return Err(insufficient_allowance(owner, operator, amount)),
        };
        // owner must exist to have set a non-zero allowance
        let owner_id = match self.runtime.resolve_id(owner) {
            Ok(id) => id,
            Err(_) => return Err(insufficient_allowance(owner, owner, amount)),
        };
        let ghost blocks = self.runtime.blockstore@;
        let mut state = self.state.clone();
        let allowance = match state.attempt_use_allowance(
            &mut self.runtime.blockstore,
            operator_id,
            owner_id,
            amount,
        ) {
            Ok(allowance) => allowance,
            Err(e) => return Err(TokenError::TokenState(e)),
        };
        let ghost between = self.runtime.blockstore@;
        // attempt to burn the requested amount, and decrease total_supply
        let burnt = issued(&state, &mut self.runtime.blockstore, owner_id, &amount.neg());
        proof {
            store::lemma_kept_trans(blocks, between, self.runtime.blockstore@);
        }
        match burnt {
            Ok((state, balance)) => {
                *self.state = state;
                Ok(BurnFromReturn { balance, allowance })
            },
            Err(e) => Err(TokenError::TokenState(e)),
        }
    }

    /// Transfers an amount from the caller to another address
    ///
    /// - The requested value MUST be non-negative
    /// - The requested value MUST NOT exceed the sender's balance
    /// - The receiving actor MUST implement a method called `tokens_received`, corresponding to the
    /// interface specified for FRC-0046 token receiver. If the receiving hook aborts, when called,
    /// the transfer is discarded and this method returns an error
    ///
    /// Upon successful transfer:
    /// - The from balance decreases by the requested value
    /// - The to balance increases by the requested value
    ///
    /// Returns a ReceiverHook to call the recipient's token receiver hook,
    /// and the updated balances.
    /// ReceiverHook must be called.
    pub fn transfer(
        &mut self,
        from: &Address,
        to: &Address,
        amount: &TokenAmount,
        operator_data: RawBytes,
        token_data: RawBytes,
    ) -> (r: Result<(ReceiverHook, TransferReturn), TokenError>)
        requires
            old(self).usable(),
        ensures
            *final(final(self).state) == *final(old(self).state),
            transferred(*old(self), *final(self), from@, to@, amount@, operator_data@, token_data@, r),
    {
        let amount = match validate_amount(amount, "transfer", self.granularity) {
            Ok(amount) => amount,
            Err(e) => return Err(e),
        };
        // owner-initiated transfer
        let (from_id, to_id) = match self.runtime.resolve_or_init_both(from, to) {
            Ok(ids) => ids,
            Err(e) => return Err(TokenError::Messaging(e)),
        };
        // skip allowance check for self-managed transfers
        let result = match moved(self.state, &mut self.runtime.blockstore, from_id, to_id, amount) {
            Ok((state, result)) => {
                *self.state = state;
                result
            },
            Err(e) => return Err(TokenError::TokenState(e)),
        };
        let params = TokensReceivedParams {
            from: from_id,
            to: to_id,
            operator: from_id,
            amount: amount.clone(),
            operator_data,
            token_data,
        };
        Ok((ReceiverHook::new(to.clone(), params), result))
    }

    /// Transfers an amount from one address to another
    ///
    /// - The requested value MUST be non-negative
    /// - The requested value MUST NOT exceed the sender's balance
    /// - The receiving actor MUST implement a method called `tokens_received`, corresponding to the
    /// interface specified for FRC-0046 token receiver. If the receiving hook aborts, when called,
    /// the transfer is discarded and this method returns an error
    ///  - The operator MUST be initialised AND have an allowance not less than the requested value
    ///
    /// Upon successful transfer:
    /// - The from balance decreases by the requested value
    /// - The to balance increases by the requested value
    /// - The owner-operator allowance decreases by the requested value
    ///
    /// Returns a ReceiverHook to call the recipient's token receiver hook,
    /// and the updated allowance and balances.
    /// ReceiverHook must be called.
    pub fn transfer_from(
        &mut self,
        operator: &Address,
        from: &Address,
        to: &Address,
        amount: &TokenAmount,
        operator_data: RawBytes,
        token_data: RawBytes,
    ) -> (r: Result<(ReceiverHook, TransferFromReturn), TokenError>)
        requires
            old(self).usable(),
        ensures
            *final(final(self).state) == *final(old(self).state),
            transferred_from(*old(self), *final(self), operator@, from@, to@, amount@, operator_data@, token_data@, r),
    {
        let amount = match validate_amount(amount, "transfer", self.granularity) {
            Ok(amount) => amount,
            Err(e) => return Err(e),
        };
        if self.runtime.same_address(operator, from) {
            return Err(TokenError::InvalidOperator(operator.clone()));
        }
        // operator-initiated transfer must have a resolvable operator
        let operator_id = match self.runtime.resolve_id(operator) {
            // if operator resolved, we can continue with other checks
            Ok(id) => id,
            // if we cannot resolve the operator, they are forbidden to transfer
            Err(_) => return Err(insufficient_allowance(from, operator, amount)),
        };
        // the owner must exist to have specified a non-zero allowance
        let from_id = match self.runtime.resolve_id(from) {
            Ok(id) => id,
            Err(_) => return Err(insufficient_allowance(from, operator, amount)),
        };
        // attempt to initialize the receiving account if not present
        let to_id = match self.runtime.resolve_or_init(to) {
            Ok(id) => id,
            Err(e) => return Err(TokenError::Messaging(e)),
        };
        // update token state
        let ghost blocks = self.runtime.blockstore@;
        let mut state = self.state.clone();
        let allowance = match state.attempt_use_allowance(
            &mut self.runtime.blockstore,
            operator_id,
            from_id,
            amount,
        ) {
            Ok(allowance) => allowance,
            Err(e) => return Err(TokenError::TokenState(e)),
        };
        let ghost between = self.runtime.blockstore@;
        let done = moved(&state, &mut self.runtime.blockstore, from_id, to_id, amount);
        proof {
            store::lemma_kept_trans(blocks, between, self.runtime.blockstore@);
        }
        let result = match done {
            Ok((state, balances)) => {
                *self.state = state;
                TransferFromReturn {
                    from_balance: balances.from_balance,
                    to_balance: balances.to_balance,
                    allowance,
                }
            },
            Err(e) => return Err(TokenError::TokenState(e)),
        };
        let params = TokensReceivedParams {
            from: from_id,
            to: to_id,
            operator: operator_id,
            amount: amount.clone(),
            operator_data,
            token_data,
        };
        Ok((ReceiverHook::new(to.clone(), params), result))
    }

    /// Opens an atomic transaction on TokenState which allows a closure to make multiple
    /// modifications to the state tree.
    ///
    /// If the closure returns an error, the transaction is dropped atomically and no change is
    /// observed on token state.
    pub fn transaction<F, Res>(&mut self, f: F) -> (r: Result<Res, TokenError>) where
        F: FnOnce(&mut TokenState, &mut Store) -> Result<Res, TokenError>,

        requires
            forall|state: &mut TokenState, bs: &mut Store|
                f.requires((state, bs)),
        ensures
            *final(final(self).state) == *final(old(self).state),
            final(self).granularity == old(self).granularity,
            final(self).runtime.syscalls == old(self).runtime.syscalls,
            r is Err ==> *final(self).state == *old(self).state,
            exists|state: &mut TokenState, bs: &mut Store| {
                &&& #[trigger] f.ensures((state, bs), r)
                &&& state.same_as(*old(self).state)
                &&& *bs == old(self).runtime.blockstore
                &&& r is Ok ==> *final(self).state == *final(state)
                &&& final(self).runtime.blockstore == *final(bs)
            },
    {
        let mut mutable_state = self.state.clone();
        let res = f(&mut mutable_state, &mut self.runtime.blockstore);
        match res {
            Ok(res) => {
                // if closure didn't error, save state
                *self.state = mutable_state;
                Ok(res)
            },
            Err(e) => Err(e),
        }
    }

    /// Calls the receiver hook, returning the result
    pub fn call_receiver_hook(&mut self, token_receiver: &Address, params: TokensReceivedParams) -> (r:
        Result<(), TokenError>)
        ensures
            *final(final(self).state) == *final(old(self).state),
            final(self).granularity == old(self).granularity,
            *final(self).state == *old(self).state,
            final(self).runtime.blockstore == old(self).runtime.blockstore,
            forall|a: AddressView| #[trigger]
                old(self).runtime.syscalls.resolves(a) is Some ==> final(self).runtime.syscalls.resolves(a) == old(self).runtime.syscalls.resolves(a),
            !store::storable(params.amount@) ==> r is Err && r->Err_0 is Serialization && final(self).runtime == old(self).runtime,
            store::storable(params.amount@) ==> {
                &&& final(self).runtime.syscalls.sent() == old(self).runtime.syscalls.sent().push(
                    receiver::hook_message(token_receiver@, params@),
                )
            },
            store::storable(params.amount@) ==> exists|
                s: &mut S,
                block: Option<IpldBlock>,
                value: TokenAmount,
                answer: Result<Response, ErrorNumber>,
            |
                {
                    &&& *s == old(self).runtime.syscalls
                    &&& *final(s) == final(self).runtime.syscalls
                    &&& bytes::block_view(block) == receiver::hook_message(token_receiver@, params@).params
                    &&& value@ == 0
                    &&& #[trigger] call_ensures(
                        S::send,
                        (s, token_receiver, RECEIVER_HOOK_METHOD_NUM, block, value),
                        answer,
                    )
                    &&& receiver::told(params@, util::passed_on(answer), r)
                },
    {
        let data = match encode_received(&params) {
            Ok(data) => data,
            Err(e) => return Err(TokenError::Serialization(e)),
        };
        let receipt = self.runtime.send(
            token_receiver,
            RECEIVER_HOOK_METHOD_NUM,
            Some(IpldBlock { codec: CBOR, data }),
            TokenAmount::zero(),
        );
        hook_outcome(&params, receipt)
    }

    /// Checks the state invariants, throwing an error if they are not met
    pub fn check_invariants(&self) -> (r: Result<(), TokenError>)
        ensures
            self.books() is Some ==> r is Ok == state::sound_books(self.books()->0),
            self.books() is Some && r is Err ==> state::faults(
                r->Err_0->StateInvariant_0,
                self.books()->0,
            ),
            r is Err ==> r->Err_0 is StateInvariant,
    {
        match self.state.check_invariants(&self.runtime.blockstore) {
            Ok(()) => Ok(()),
            Err(e) => Err(TokenError::StateInvariant(e)),
        }
    }
}

/// Whether tokens were minted for an owner, and the hook that tells the owner was returned, or why not.
pub open spec fn minted<'st, S: Syscalls>(
    before: Token<'st, S>,
    after: Token<'st, S>,
    operator: AddressView,
    initial_owner: AddressView,
    amount: int,
    operator_data: Seq<u8>,
    token_data: Seq<u8>,
    r: Result<(ReceiverHook, MintReturn), TokenError>,
) -> bool {
    &&& after.granularity == before.granularity
    &&& store::kept(before.runtime.blockstore@, after.runtime.blockstore@)
    &&& match amount_fault(amount, "mint"@, before.granularity) {
        Some(fault) => r is Err && r->Err_0@ == fault && after.current() == before.current() && after.runtime == before.runtime,
        None => if r is Err && r->Err_0 is Messaging {
            &&& after.current() == before.current()
            &&& util::resolving_failed(
                before.runtime.syscalls,
                after.runtime.syscalls,
                operator,
                initial_owner,
                r->Err_0->Messaging_0,
            )
        } else {
            let operator_id = after.runtime.syscalls.resolves(operator)->0;
            let owner_id = after.runtime.syscalls.resolves(initial_owner)->0;
            &&& util::resolved_both(
                before.runtime.syscalls,
                after.runtime.syscalls,
                operator,
                initial_owner,
                (operator_id, owner_id),
            )
            &&& before.books() is Some ==> match ledger::issue(
                before.books()->0,
                account(owner_id),
                amount,
            ) {
                Ok((books, balance)) => {
                    &&& r is Ok
                    &&& after.books() == Some(books)
                    &&& r->Ok_0.1.balance@ == balance
                    &&& r->Ok_0.1.supply@ == books.supply
                },
                Err(fault) => r is Err && r->Err_0@ == TokenFault::State(fault),
            }
            &&& r is Ok ==> hooks(
                r->Ok_0.0,
                initial_owner,
                Received {
                    from: before.runtime.syscalls.actor(),
                    to: owner_id,
                    operator: operator_id,
                    amount: amount,
                    operator_data: operator_data,
                    token_data: token_data,
                },
            )
        },
    }
    &&& r is Err ==> after.current() == before.current()
}

/// Whether an allowance was raised, or why not.
pub open spec fn allowance_increased<'st, S: Syscalls>(
    before: Token<'st, S>,
    after: Token<'st, S>,
    owner: AddressView,
    operator: AddressView,
    delta: int,
    r: Result<TokenAmount, TokenError>,
) -> bool {
    &&& after.granularity == before.granularity
    &&& store::kept(before.runtime.blockstore@, after.runtime.blockstore@)
    &&& match amount_fault(delta, "allowance delta"@, before.granularity) {
        Some(fault) => r is Err && r->Err_0@ == fault && after.current() == before.current() && after.runtime == before.runtime,
        None => if r is Err && r->Err_0 is Messaging {
            &&& after.current() == before.current()
            &&& util::resolving_failed(
                before.runtime.syscalls,
                after.runtime.syscalls,
                owner,
                operator,
                r->Err_0->Messaging_0,
            )
        } else {
            exists|ids: (ActorID, ActorID)|
                #![trigger account(ids.0), account(ids.1)]
                util::resolved_both(
                    before.runtime.syscalls,
                    after.runtime.syscalls,
                    owner,
                    operator,
                    ids,
                ) && settled(
                    before.books(),
                    after.books(),
                    r,
                    ledger::change_allowance(
                        before.books()->0,
                        account(ids.0).key,
                        account(ids.1).key,
                        delta,
                    ),
                )
        },
    }
    &&& r is Err ==> after.current() == before.current()
}

/// Whether an allowance was lowered, or why not.
pub open spec fn allowance_decreased<'st, S: Syscalls>(
    before: Token<'st, S>,
    after: Token<'st, S>,
    owner: AddressView,
    operator: AddressView,
    delta: int,
    r: Result<TokenAmount, TokenError>,
) -> bool {
    &&& after.granularity == before.granularity
    &&& store::kept(before.runtime.blockstore@, after.runtime.blockstore@)
    &&& match amount_fault(delta, "allowance delta"@, before.granularity) {
        Some(fault) => r is Err && r->Err_0@ == fault && after.current() == before.current() && after.runtime == before.runtime,
        None => if r is Err && r->Err_0 is Messaging {
            &&& after.current() == before.current()
            &&& util::resolving_failed(
                before.runtime.syscalls,
                after.runtime.syscalls,
                owner,
                operator,
                r->Err_0->Messaging_0,
            )
        } else {
            exists|ids: (ActorID, ActorID)|
                #![trigger account(ids.0), account(ids.1)]
                util::resolved_both(
                    before.runtime.syscalls,
                    after.runtime.syscalls,
                    owner,
                    operator,
                    ids,
                ) && settled(
                    before.books(),
                    after.books(),
                    r,
                    ledger::change_allowance(
                        before.books()->0,
                        account(ids.0).key,
                        account(ids.1).key,
                        -delta,
                    ),
                )
        },
    }
    &&& r is Err ==> after.current() == before.current()
}

/// Whether an allowance was taken back. There is nothing to take back where an address stands for
/// no actor.
pub open spec fn revoked<'st, S: Syscalls>(
    before: Token<'st, S>,
    after: Token<'st, S>,
    owner: AddressView,
    operator: AddressView,
    r: Result<(), TokenError>,
) -> bool {
    &&& after.granularity == before.granularity
    &&& store::kept(before.runtime.blockstore@, after.runtime.blockstore@)
    &&& after.runtime.syscalls == before.runtime.syscalls
    &&& match (
        before.runtime.syscalls.resolves(owner),
        before.runtime.syscalls.resolves(operator),
    ) {
        (Some(a), Some(b)) => before.books() is Some ==> r is Ok && after.books()
            == Some(before.books()->0.with_allowance(a, b, 0)),
        _ => r is Ok && after.current() == before.current() && after.runtime
            == before.runtime,
    }
    &&& r is Err ==> after.current() == before.current() && r->Err_0 is TokenState
}

/// Whether tokens were burnt by their owner, or why not.
pub open spec fn burnt<'st, S: Syscalls>(
    before: Token<'st, S>,
    after: Token<'st, S>,
    owner: AddressView,
    amount: int,
    r: Result<BurnReturn, TokenError>,
) -> bool {
    &&& after.granularity == before.granularity
    &&& store::kept(before.runtime.blockstore@, after.runtime.blockstore@)
    &&& match amount_fault(amount, "burn"@, before.granularity) {
        Some(fault) => r is Err && r->Err_0@ == fault && after.current() == before.current() && after.runtime == before.runtime,
        None => if r is Err && r->Err_0 is Messaging {
            &&& after.current() == before.current()
            &&& util::resolved_or_made(
                before.runtime.syscalls,
                after.runtime.syscalls,
                owner,
                Err(r->Err_0->Messaging_0),
            )
        } else {
            exists|id: ActorID|
                #![trigger account(id)]
                util::resolved_or_made(
                    before.runtime.syscalls,
                    after.runtime.syscalls,
                    owner,
                    Ok(id),
                ) && (before.books() is Some ==> match ledger::issue(
                    before.books()->0,
                    account(id),
                    -amount,
                ) {
                    Ok((books, balance)) => r is Ok && r->Ok_0.balance@ == balance && after.books() == Some(books),
                    Err(fault) => r is Err && r->Err_0@ == TokenFault::State(fault),
                })
        },
    }
    &&& r is Err ==> after.current() == before.current()
    &&& before.books() is Some && r is Err ==> r->Err_0@ != TokenFault::State(
        StateFault::Storage,
    )
}

/// Whether tokens were burnt by an operator, or why not.
pub open spec fn burnt_from<'st, S: Syscalls>(
    before: Token<'st, S>,
    after: Token<'st, S>,
    operator: AddressView,
    owner: AddressView,
    amount: int,
    r: Result<BurnFromReturn, TokenError>,
) -> bool {
    &&& after.granularity == before.granularity
    &&& store::kept(before.runtime.blockstore@, after.runtime.blockstore@)
    &&& after.runtime.syscalls == before.runtime.syscalls
    &&& match burn_from_fault(
        before.runtime.syscalls,
        before.granularity,
        operator,
        owner,
        amount,
    ) {
        Some(fault) => r is Err && r->Err_0@ == fault && after.current() == before.current() && after.runtime == before.runtime,
        None => before.books() is Some ==> match ledger::burn_from(
            before.books()->0,
            account(before.runtime.syscalls.resolves(operator)->0),
            account(before.runtime.syscalls.resolves(owner)->0),
            amount,
        ) {
            Ok((books, balance, allowance)) => r is Ok && r->Ok_0.balance@ == balance
                && r->Ok_0.allowance@ == allowance && after.books() == Some(books),
            Err(fault) => r is Err && r->Err_0@ == TokenFault::State(fault),
        },
    }
    &&& r is Err ==> after.current() == before.current()
    &&& before.books() is Some && r is Err ==> r->Err_0@ != TokenFault::State(
        StateFault::Storage,
    )
}

/// Whether tokens were transferred by their owner, and the hook that tells the receiver was returned,
/// or why not.
pub open spec fn transferred<'st, S: Syscalls>(
    before: Token<'st, S>,
    after: Token<'st, S>,
    from: AddressView,
    to: AddressView,
    amount: int,
    operator_data: Seq<u8>,
    token_data: Seq<u8>,
    r: Result<(ReceiverHook, TransferReturn), TokenError>,
) -> bool {
    &&& after.granularity == before.granularity
    &&& store::kept(before.runtime.blockstore@, after.runtime.blockstore@)
    &&& match amount_fault(amount, "transfer"@, before.granularity) {
        Some(fault) => r is Err && r->Err_0@ == fault && after.current() == before.current() && after.runtime == before.runtime,
        None => if r is Err && r->Err_0 is Messaging {
            &&& after.current() == before.current()
            &&& util::resolving_failed(
                before.runtime.syscalls,
                after.runtime.syscalls,
                from,
                to,
                r->Err_0->Messaging_0,
            )
        } else {
            let from_id = after.runtime.syscalls.resolves(from)->0;
            let to_id = after.runtime.syscalls.resolves(to)->0;
            &&& util::resolved_both(
                before.runtime.syscalls,
                after.runtime.syscalls,
                from,
                to,
                (from_id, to_id),
            )
            &&& before.books() is Some ==> match ledger::move_tokens(
                before.books()->0,
                account(from_id),
                account(to_id),
                amount,
            ) {
                Ok((books, _)) => {
                    &&& r is Ok
                    &&& after.books() == Some(books)
                    &&& r->Ok_0.1.from_balance@ == books.balance(from_id)
                    &&& r->Ok_0.1.to_balance@ == books.balance(to_id)
                },
                Err(fault) => r is Err && r->Err_0@ == TokenFault::State(fault),
            }
            &&& r is Ok ==> hooks(
                r->Ok_0.0,
                to,
                Received {
                    from: from_id,
                    to: to_id,
                    operator: from_id,
                    amount: amount,
                    operator_data: operator_data,
                    token_data: token_data,
                },
            )
        },
    }
    &&& r is Err ==> after.current() == before.current()
}

/// Whether tokens were transferred by an operator, and the hook that tells the receiver was returned,
/// or why not.
pub open spec fn transferred_from<'st, S: Syscalls>(
    before: Token<'st, S>,
    after: Token<'st, S>,
    operator: AddressView,
    from: AddressView,
    to: AddressView,
    amount: int,
    operator_data: Seq<u8>,
    token_data: Seq<u8>,
    r: Result<(ReceiverHook, TransferFromReturn), TokenError>,
) -> bool {
    &&& after.granularity == before.granularity
    &&& store::kept(before.runtime.blockstore@, after.runtime.blockstore@)
    &&& match transfer_from_fault(
        before.runtime.syscalls,
        before.granularity,
        operator,
        from,
        amount,
    ) {
        Some(fault) => r is Err && r->Err_0@ == fault && after.current() == before.current() && after.runtime == before.runtime,
        None => if r is Err && r->Err_0 is Messaging {
            &&& after.current() == before.current()
            &&& util::resolved_or_made(
                before.runtime.syscalls,
                after.runtime.syscalls,
                to,
                Err(r->Err_0->Messaging_0),
            )
        } else {
            let operator_id = before.runtime.syscalls.resolves(operator)->0;
            let from_id = before.runtime.syscalls.resolves(from)->0;
            let to_id = after.runtime.syscalls.resolves(to)->0;
            &&& util::resolved_or_made(
                before.runtime.syscalls,
                after.runtime.syscalls,
                to,
                Ok(to_id),
            )
            &&& before.books() is Some ==> match ledger::move_from(
                before.books()->0,
                account(operator_id),
                account(from_id),
                account(to_id),
                amount,
            ) {
                Ok((books, allowance)) => {
                    &&& r is Ok
                    &&& after.books() == Some(books)
                    &&& r->Ok_0.1.from_balance@ == books.balance(from_id)
                    &&& r->Ok_0.1.to_balance@ == books.balance(to_id)
                    &&& r->Ok_0.1.allowance@ == allowance
                },
                Err(fault) => r is Err && r->Err_0@ == TokenFault::State(fault),
            }
            &&& r is Ok ==> hooks(
                r->Ok_0.0,
                to,
                Received {
                    from: from_id,
                    to: to_id,
                    operator: operator_id,
                    amount: amount,
                    operator_data: operator_data,
                    token_data: token_data,
                },
            )
        },
    }
    &&& r is Err ==> after.current() == before.current()
}

/// Whether a hook, not called yet, tells the receiver at an address of tokens.
pub open spec fn hooks(hook: ReceiverHook, address: AddressView, params: Received) -> bool {
    hook.address@ == address && hook.params@ == params && !hook.called
}

/// The refusal for an operator or an owner that stands for no actor.
fn insufficient_allowance(owner: &Address, operator: &Address, amount: &TokenAmount) -> (r: TokenError)
    ensures
        r@ == no_allowance(owner@, operator@, amount@),
        r is TokenState,
{
    TokenError::TokenState(
        StateError::InsufficientAllowance {
            owner: owner.clone(),
            operator: operator.clone(),
            allowance: TokenAmount::zero(),
            delta: amount.clone(),
        },
    )
}

/// The refusal for an operator without an allowance.
pub open spec fn no_allowance(owner: AddressView, operator: AddressView, amount: int) -> TokenFault {
    TokenFault::State(
        StateFault::InsufficientAllowance { owner, operator, allowance: 0, delta: amount },
    )
}

/// Why a delegated transfer is refused before the books are looked at, if it is.
pub open spec fn transfer_from_fault<S: Syscalls>(
    syscalls: S,
    granularity: u64,
    operator: AddressView,
    from: AddressView,
    amount: int,
) -> Option<TokenFault> {
    match amount_fault(amount, "transfer"@, granularity) {
        Some(fault) => Some(fault),
        None => if util::same_actor(syscalls, operator, from) {
            Some(TokenFault::InvalidOperator(operator))
        } else if syscalls.resolves(operator) is None || syscalls.resolves(from) is None {
            Some(no_allowance(from, operator, amount))
        } else {
            None
        },
    }
}

/// Why a delegated burn is refused before the books are looked at, if it is. Where the owner stands
/// for no actor, the owner is also named as the operator.
pub open spec fn burn_from_fault<S: Syscalls>(
    syscalls: S,
    granularity: u64,
    operator: AddressView,
    owner: AddressView,
    amount: int,
) -> Option<TokenFault> {
    match amount_fault(amount, "burn"@, granularity) {
        Some(fault) => Some(fault),
        None => if util::same_actor(syscalls, operator, owner) {
            Some(TokenFault::InvalidOperator(operator))
        } else if syscalls.resolves(operator) is None {
            Some(no_allowance(owner, operator, amount))
        } else if syscalls.resolves(owner) is None {
            Some(no_allowance(owner, owner, amount))
        } else {
            None
        },
    }
}

/// Whether an operation on the books was done and its amount returned, or refused with the books
/// left as they were.
pub open spec fn settled(
    before: Option<Books>,
    after: Option<Books>,
    r: Result<TokenAmount, TokenError>,
    wanted: Outcome<ActorID>,
) -> bool {
    before is Some ==> match wanted {
        Ok((books, amount)) => r is Ok && r->Ok_0@ == amount && after == Some(books),
        Err(fault) => r is Err && r->Err_0@ == TokenFault::State(fault) && after == before,
    }
}

/// Whether loading a state gives what the block under the identifier holds.
pub open spec fn loads(blocks: Blocks, cid: Seq<u8>, r: Result<TokenState, TokenError>) -> bool {
    &&& r is Ok == (store::cbor_codec(cid) && blocks.contains_key(cid) && state::state_record(
        blocks[cid],
    ) is Some)
    &&& r is Ok ==> state::state_record(blocks[cid]) == Some(r->Ok_0.record())
    &&& r is Err ==> r->Err_0@ == TokenFault::State(
        if !blocks.contains_key(cid) {
            StateFault::MissingState(cid)
        } else {
            StateFault::Serialization
        },
    )
}

} // verus!
