//! Several operations on a token that succeed or fail together.
use vstd::prelude::*;

use crate::address::{Address, AddressView};
use crate::amount::TokenAmount;
use crate::bytes;
use crate::bytes::{ActorID, Cid, IpldBlock, RawBytes};
use crate::exit;
use crate::exit::ErrorNumber;
use crate::fil_fungible_token::error::{TokenError, TokenFault};
use crate::fil_fungible_token::receiver;
use crate::fil_fungible_token::state;
use crate::fil_fungible_token::state::TokenState;
use crate::fil_fungible_token::token;
use crate::fil_fungible_token::token::Token;
use crate::fvm_actor_utils::messaging::{MessagingError, RECEIVER_HOOK_METHOD_NUM};
use crate::fvm_actor_utils::receiver::Received;
use crate::fvm_actor_utils::syscalls::{Response, Syscalls};
use crate::fvm_actor_utils::util;
use crate::ledger;
use crate::ledger::{Ledger, Outcome, StateFault};
use crate::store;

verus! {

/// Why a transaction could not be ended.
#[derive(Debug)]
pub enum TokenTransactionError {
    /// Error in token operation
    State(TokenError),
}

/// How a transaction ended.
#[derive(Debug)]
pub enum TransactionOutcome {
    /// All operations were done; the root of the new state.
    Succeeded(Cid),
    /// None of them was done; the root of the state as it was before.
    Reverted(Cid),
}

/// The books that an operation leads to.
pub open spec fn books_of(outcome: Outcome<ActorID>) -> Result<Ledger<ActorID>, StateFault> {
    match outcome {
        Ok((books, _)) => Ok(books),
        Err(fault) => Err(fault),
    }
}

/// Whether an answer to a message says that the receiver did not abort.
pub open spec fn succeeded(answer: Result<Response, ErrorNumber>) -> bool {
    answer is Ok && answer->Ok_0.exit_code.value == exit::OK
}

/// Whether a change of an allowance is refused before the books are looked at: the amount is not a
/// valid one, or the owner or the spender has no account and none could be made.
pub open spec fn allowance_refused<'st, S: Syscalls>(
    before: Token<'st, S>,
    after: S,
    owner: ActorID,
    spender: ActorID,
    delta: int,
) -> bool {
    match token::amount_fault(delta, "allowance delta"@, before.granularity) {
        Some(_) => after == before.runtime.syscalls,
        None => exists|e: MessagingError| #[trigger]
            util::resolving_failed(
                before.runtime.syscalls,
                after,
                AddressView::ID(owner),
                AddressView::ID(spender),
                e,
            ),
    }
}

/// Whether a mint is refused before the books are looked at: the amount is not a valid one, or the
/// minter or the holder has no account and none could be made. No receiver was told anything.
pub open spec fn mint_refused<'st, S: Syscalls>(
    before: Token<'st, S>,
    after: S,
    minter: ActorID,
    holder: ActorID,
    amount: int,
) -> bool {
    match token::amount_fault(amount, "mint"@, before.granularity) {
        Some(_) => after == before.runtime.syscalls,
        None => exists|e: MessagingError| #[trigger]
            util::resolving_failed(
                before.runtime.syscalls,
                after,
                AddressView::ID(minter),
                AddressView::ID(holder),
                e,
            ),
    }
}

/// Whether a mint leads to these books, of which the holder is to be told this.
pub open spec fn mint_due<'st, S: Syscalls>(
    before: Token<'st, S>,
    resolved: S,
    minter: ActorID,
    holder: ActorID,
    amount: int,
    data: Seq<u8>,
    told: Received,
    wanted: Result<Ledger<ActorID>, StateFault>,
) -> bool {
    &&& token::amount_fault(amount, "mint"@, before.granularity) is None
    &&& exists|ids: (ActorID, ActorID)|
        {
            &&& #[trigger] util::resolved_both(
                before.runtime.syscalls,
                resolved,
                AddressView::ID(minter),
                AddressView::ID(holder),
                ids,
            )
            &&& told == (Received {
                from: before.runtime.syscalls.actor(),
                to: ids.1,
                operator: ids.0,
                amount,
                operator_data: data,
                token_data: Seq::empty(),
            })
            &&& before.books() is Some ==> wanted == books_of(
                ledger::issue(before.books()->0, token::account(ids.1), amount),
            )
        }
}

/// Whether a transfer is refused before the books are looked at: the amount is not a valid one, the
/// spender or the owner of a delegated transfer stands for no actor, or an account that is needed
/// could not be made. No receiver was told anything.
pub open spec fn transfer_refused<'st, S: Syscalls>(
    before: Token<'st, S>,
    after: S,
    spender: ActorID,
    owner: ActorID,
    receiver: ActorID,
    amount: int,
) -> bool {
    let syscalls = before.runtime.syscalls;
    let (from, to) = (AddressView::ID(owner), AddressView::ID(receiver));
    if spender == owner {
        match token::amount_fault(amount, "transfer"@, before.granularity) {
            Some(_) => after == syscalls,
            None => exists|e: MessagingError| #[trigger]
                util::resolving_failed(syscalls, after, from, to, e),
        }
    } else {
        match token::transfer_from_fault(
            syscalls,
            before.granularity,
            AddressView::ID(spender),
            from,
            amount,
        ) {
            Some(_) => after == syscalls,
            None => exists|e: MessagingError| #[trigger]
                util::resolved_or_made(syscalls, after, to, Err(e)),
        }
    }
}

/// Whether a transfer leads to these books, of which the receiver is to be told this.
pub open spec fn transfer_due<'st, S: Syscalls>(
    before: Token<'st, S>,
    resolved: S,
    spender: ActorID,
    owner: ActorID,
    receiver: ActorID,
    amount: int,
    data: Seq<u8>,
    told: Received,
    wanted: Result<Ledger<ActorID>, StateFault>,
) -> bool {
    let syscalls = before.runtime.syscalls;
    let (from, to) = (AddressView::ID(owner), AddressView::ID(receiver));
    &&& told.amount == amount
    &&& told.operator_data == data
    &&& told.token_data == Seq::<u8>::empty()
    &&& if spender == owner {
        &&& token::amount_fault(amount, "transfer"@, before.granularity) is None
        &&& util::resolved_both(syscalls, resolved, from, to, (told.from, told.to))
        &&& told.operator == told.from
        &&& before.books() is Some ==> wanted == books_of(
            ledger::move_tokens(
                before.books()->0,
                token::account(told.from),
                token::account(told.to),
                amount,
            ),
        )
    } else {
        let by = AddressView::ID(spender);
        &&& token::transfer_from_fault(syscalls, before.granularity, by, from, amount) is None
        &&& util::resolved_or_made(syscalls, resolved, to, Ok(told.to))
        &&& syscalls.resolves(by) == Some(told.operator)
        &&& syscalls.resolves(from) == Some(told.from)
        &&& before.books() is Some ==> wanted == books_of(
            ledger::move_from(
                before.books()->0,
                token::account(told.operator),
                token::account(told.from),
                token::account(told.to),
                amount,
            ),
        )
    }
}

/// Several operations on a token that succeed or fail together. Minting and transferring call
/// other actors, so they may only come before the other operations.
pub struct TokenTransaction<'st, S: Syscalls> {
    /// The token
    pub token: Token<'st, S>,
    /// The state to go back to
    pub base: TokenState,
    /// Whether an operation failed
    pub needs_rollback: bool,
    /// Whether the state was changed and not told to anyone
    pub state_dirty: bool,
}

impl<'st, S: Syscalls> TokenTransaction<'st, S> {
    /// A transaction on a token, without operations yet
    pub fn new(token: Token<'st, S>) -> (r: Self)
        ensures
            r.token == token,
            r.base.same_as(r.token.current()),
            !r.needs_rollback,
            !r.state_dirty,
    {
        let base = token.state.clone();
        TokenTransaction { token, base, needs_rollback: false, state_dirty: false }
    }

    /// Ends the transaction: saves the state, or goes back to the state before where an operation
    /// failed after the state was changed
    pub fn flush(&mut self) -> (r: Result<TransactionOutcome, TokenTransactionError>)
        ensures
            *final(final(self).token.state) == *final(old(self).token.state),
            final(self).token.granularity == old(self).token.granularity,
            final(self).token.runtime.syscalls == old(self).token.runtime.syscalls,
            store::kept(old(self).token.runtime.blockstore@, final(self).token.runtime.blockstore@),
            old(self).state_dirty && old(self).needs_rollback ==> final(self).token.state.same_as(
                old(self).base,
            ),
            !(old(self).state_dirty && old(self).needs_rollback) ==> *final(self).token.state == *old(self).token.state,
            r is Ok == store::storable(final(self).token.state.supply@),
            r is Err ==> r->Err_0->State_0@ == TokenFault::State(StateFault::Serialization),
            r is Ok ==> {
                let root = match r->Ok_0 {
                    TransactionOutcome::Succeeded(cid) => cid@,
                    TransactionOutcome::Reverted(cid) => cid@,
                };
                &&& r->Ok_0 is Reverted == (old(self).state_dirty && old(self).needs_rollback)
                &&& store::cbor_codec(root)
                &&& final(self).token.runtime.blockstore@.contains_key(root)
                &&& state::state_record(final(self).token.runtime.blockstore@[root]) == Some(
                    final(self).token.state.record(),
                )
            },
    {
        let reverts = self.state_dirty && self.needs_rollback;
        if reverts {
            *self.token.state = self.base.clone();
        }
        match self.token.flush() {
            Ok(cid) => if reverts {
                Ok(TransactionOutcome::Reverted(cid))
            } else {
                Ok(TransactionOutcome::Succeeded(cid))
            },
            Err(e) => Err(TokenTransactionError::State(e)),
        }
    }

    /// Increases an allowance as part of the transaction
    pub fn increase_allowance(&mut self, owner: ActorID, spender: ActorID, delta: &TokenAmount)
        requires
            old(self).token.usable(),
        ensures
            *final(final(self).token.state) == *final(old(self).token.state),
            final(self).token.granularity == old(self).token.granularity,
            store::kept(old(self).token.runtime.blockstore@, final(self).token.runtime.blockstore@),
            final(self).base == old(self).base,
            final(self).state_dirty,
            old(self).needs_rollback ==> final(self).needs_rollback && final(self).token == old(self).token,
            final(self).needs_rollback && !old(self).needs_rollback ==> *final(self).token.state == *old(self).token.state,
            !old(self).needs_rollback ==> {
                let before = old(self).token;
                let after = final(self).token.runtime.syscalls;
                ||| final(self).needs_rollback && allowance_refused(
                    before,
                    after,
                    owner,
                    spender,
                    delta@,
                )
                ||| exists|ids: (ActorID, ActorID)|
                    {
                        &&& token::amount_fault(
                            delta@,
                            "allowance delta"@,
                            before.granularity,
                        ) is None
                        &&& #[trigger] util::resolved_both(
                            before.runtime.syscalls,
                            after,
                            AddressView::ID(owner),
                            AddressView::ID(spender),
                            ids,
                        )
                        &&& before.books() is Some ==> match books_of(
                            ledger::change_allowance(before.books()->0, ids.0, ids.1, delta@),
                        ) {
                            Ok(books) => !final(self).needs_rollback && final(self).token.books()
                                == Some(books),
                            Err(_) => final(self).needs_rollback,
                        }
                    }
            },
    {
        self.state_dirty = true;
        if self.needs_rollback {
            return;
        }
        let (owner, spender) = (Address::new_id(owner), Address::new_id(spender));
        match self.token.increase_allowance(&owner, &spender, delta) {
            Ok(_) => {},
            Err(_) => {
                self.needs_rollback = true;
            },
        }
    }

    /// Decreases an allowance as part of the transaction
    pub fn decrease_allowance(&mut self, owner: ActorID, spender: ActorID, delta: &TokenAmount)
        requires
            old(self).token.usable(),
        ensures
            *final(final(self).token.state) == *final(old(self).token.state),
            final(self).token.granularity == old(self).token.granularity,
            store::kept(old(self).token.runtime.blockstore@, final(self).token.runtime.blockstore@),
            final(self).base == old(self).base,
            final(self).state_dirty,
            old(self).needs_rollback ==> final(self).needs_rollback && final(self).token == old(self).token,
            final(self).needs_rollback && !old(self).needs_rollback ==> *final(self).token.state == *old(self).token.state,
            !old(self).needs_rollback ==> {
                let before = old(self).token;
                let after = final(self).token.runtime.syscalls;
                ||| final(self).needs_rollback && allowance_refused(
                    before,
                    after,
                    owner,
                    spender,
                    delta@,
                )
                ||| exists|ids: (ActorID, ActorID)|
                    {
                        &&& token::amount_fault(
                            delta@,
                            "allowance delta"@,
                            before.granularity,
                        ) is None
                        &&& #[trigger] util::resolved_both(
                            before.runtime.syscalls,
                            after,
                            AddressView::ID(owner),
                            AddressView::ID(spender),
                            ids,
                        )
                        &&& before.books() is Some ==> match books_of(
                            ledger::change_allowance(before.books()->0, ids.0, ids.1, -delta@),
                        ) {
                            Ok(books) => !final(self).needs_rollback && final(self).token.books()
                                == Some(books),
                            Err(_) => final(self).needs_rollback,
                        }
                    }
            },
    {
        self.state_dirty = true;
        if self.needs_rollback {
            return;
        }
        let (owner, spender) = (Address::new_id(owner), Address::new_id(spender));
        match self.token.decrease_allowance(&owner, &spender, delta) {
            Ok(_) => {},
            Err(_) => {
                self.needs_rollback = true;
            },
        }
    }

    /// Revokes an allowance as part of the transaction
    pub fn revoke_allowance(&mut self, owner: ActorID, spender: ActorID)
        requires
            old(self).token.usable(),
        ensures
            *final(final(self).token.state) == *final(old(self).token.state),
            final(self).token.granularity == old(self).token.granularity,
            store::kept(old(self).token.runtime.blockstore@, final(self).token.runtime.blockstore@),
            final(self).base == old(self).base,
            final(self).state_dirty,
            old(self).needs_rollback ==> final(self).needs_rollback && final(self).token == old(self).token,
            final(self).needs_rollback && !old(self).needs_rollback ==> *final(self).token.state == *old(self).token.state,
            !old(self).needs_rollback ==> {
                let before = old(self).token;
                let a = before.runtime.syscalls.resolves(AddressView::ID(owner));
                let b = before.runtime.syscalls.resolves(AddressView::ID(spender));
                &&& a is None || b is None ==> !final(self).needs_rollback
                    && final(self).token.runtime == before.runtime && *final(self).token.state
                    == *old(self).token.state
                &&& a is Some && b is Some && before.books() is Some ==> match books_of(
                    ledger::revoke_allowance(before.books()->0, a->0, b->0),
                ) {
                    Ok(books) => !final(self).needs_rollback && final(self).token.books() == Some(
                        books,
                    ),
                    Err(_) => final(self).needs_rollback,
                }
            },
    {
        self.state_dirty = true;
        if self.needs_rollback {
            return;
        }
        let (owner, spender) = (Address::new_id(owner), Address::new_id(spender));
        match self.token.revoke_allowance(&owner, &spender) {
            Ok(_) => {},
            Err(_) => {
                self.needs_rollback = true;
            },
        }
    }

    /// Burns tokens as part of the transaction: those of the spender, or those of an owner from the
    /// spender's allowance
    pub fn burn(&mut self, spender: ActorID, owner: ActorID, amount: &TokenAmount)
        requires
            old(self).token.usable(),
        ensures
            *final(final(self).token.state) == *final(old(self).token.state),
            final(self).token.granularity == old(self).token.granularity,
            store::kept(old(self).token.runtime.blockstore@, final(self).token.runtime.blockstore@),
            final(self).base == old(self).base,
            final(self).state_dirty,
            old(self).needs_rollback ==> final(self).needs_rollback && final(self).token == old(self).token,
            final(self).needs_rollback && !old(self).needs_rollback ==> *final(self).token.state == *old(self).token.state,
            !old(self).needs_rollback ==> {
                let before = old(self).token;
                let a = before.runtime.syscalls.resolves(AddressView::ID(owner));
                let b = before.runtime.syscalls.resolves(AddressView::ID(spender));
                let refused = token::amount_fault(amount@, "burn"@, before.granularity) is Some;
                if refused {
                    final(self).needs_rollback
                } else if spender == owner {
                    let after = final(self).token.runtime.syscalls;
                    let at = AddressView::ID(owner);
                    ||| final(self).needs_rollback && exists|e: MessagingError| #[trigger]
                        util::resolved_or_made(before.runtime.syscalls, after, at, Err(e))
                    ||| exists|id: ActorID| #[trigger]
                        util::resolved_or_made(before.runtime.syscalls, after, at, Ok(id)) && (
                        before.books() is Some ==> match books_of(
                            ledger::issue(before.books()->0, token::account(id), -amount@),
                        ) {
                            Ok(books) => !final(self).needs_rollback && final(self).token.books()
                                == Some(books),
                            Err(_) => final(self).needs_rollback,
                        })
                } else if a is None || b is None {
                    final(self).needs_rollback
                } else {
                    before.books() is Some ==> match ledger::burn_from(
                        before.books()->0,
                        token::account(b->0),
                        token::account(a->0),
                        amount@,
                    ) {
                        Ok((books, _, _)) => !final(self).needs_rollback
                            && final(self).token.books() == Some(books),
                        Err(_) => final(self).needs_rollback,
                    }
                }
            },
    {
        self.state_dirty = true;
        if self.needs_rollback {
            return;
        }
        let itself = spender == owner;
        let (owner, spender) = (Address::new_id(owner), Address::new_id(spender));
        let failed = if itself {
            self.token.burn(&owner, amount).is_err()
        } else {
            self.token.burn_from(&spender, &owner, amount).is_err()
        };
        if failed {
            self.needs_rollback = true;
        }
    }

    /// Mints tokens as the first part of the transaction, and tells their owner
    pub fn mint(&mut self, minter: ActorID, initial_holder: ActorID, value: &TokenAmount, data: RawBytes)
        requires
            old(self).token.usable(),
        ensures
            *final(final(self).token.state) == *final(old(self).token.state),
            final(self).token.granularity == old(self).token.granularity,
            store::kept(old(self).token.runtime.blockstore@, final(self).token.runtime.blockstore@),
            final(self).base == old(self).base,
            final(self).state_dirty == old(self).state_dirty,
            old(self).needs_rollback || old(self).state_dirty ==> final(self).needs_rollback
                && final(self).token == old(self).token,
            final(self).needs_rollback ==> final(self).token.state.same_as(*old(self).token.state),
            !old(self).needs_rollback && !old(self).state_dirty ==> {
                let before = old(self).token;
                let after = final(self).token.runtime.syscalls;
                ||| final(self).needs_rollback && mint_refused(before, after, minter, initial_holder, value@)
                ||| exists|resolved: S, told: Received, wanted: Result<Ledger<ActorID>, StateFault>|
                    {
                        &&& #[trigger] mint_due(
                            before,
                            resolved,
                            minter,
                            initial_holder,
                            value@,
                            data@,
                            told,
                            wanted,
                        )
                        &&& before.books() is Some ==> match wanted {
                            Err(_) => final(self).needs_rollback && after == resolved,
                            Ok(books) => if store::storable(value@) {
                                let message = receiver::hook_message(
                                    AddressView::ID(initial_holder),
                                    told,
                                );
                                &&& after.sent() == resolved.sent().push(message)
                                &&& !final(self).needs_rollback ==> final(self).token.books()
                                    == Some(books)
                                &&& exists|
                                    s: &mut S,
                                    to: Address,
                                    block: Option<IpldBlock>,
                                    nothing: TokenAmount,
                                    answer: Result<Response, ErrorNumber>,
                                |
                                    {
                                        &&& *s == resolved
                                        &&& *final(s) == after
                                        &&& to@ == message.to
                                        &&& bytes::block_view(block) == message.params
                                        &&& nothing@ == 0
                                        &&& #[trigger] call_ensures(
                                            S::send,
                                            (s, &to, RECEIVER_HOOK_METHOD_NUM, block, nothing),
                                            answer,
                                        )
                                        &&& final(self).needs_rollback == !succeeded(answer)
                                    }
                            } else {
                                final(self).needs_rollback && after == resolved
                            },
                        }
                    }
            },
    {
        if self.state_dirty {
            self.needs_rollback = true;
            return;
        }
        if self.needs_rollback {
            return;
        }
        let before = self.token.state.clone();
        let (by, to) = (Address::new_id(minter), Address::new_id(initial_holder));
        let ghost start = self.token;
        let ghost handed = data@;
        let done = self.token.mint(&by, &to, value, data, RawBytes::default());
        proof {
            let resolved = self.token.runtime.syscalls;
            if token::amount_fault(value@, "mint"@, start.granularity) is None && !(done is Err
                && done->Err_0 is Messaging) {
                let ids = (resolved.resolves(by@)->0, resolved.resolves(to@)->0);
                let told = Received {
                    from: start.runtime.syscalls.actor(),
                    to: ids.1,
                    operator: ids.0,
                    amount: value@,
                    operator_data: handed,
                    token_data: Seq::empty(),
                };
                let wanted = books_of(
                    ledger::issue(start.books()->0, token::account(ids.1), value@),
                );
                assert(util::resolved_both(start.runtime.syscalls, resolved, by@, to@, ids));
                assert(mint_due(
                    start,
                    resolved,
                    minter,
                    initial_holder,
                    value@,
                    handed,
                    told,
                    wanted,
                ));
            }
        }
        match done {
            Ok((hook, _)) => match self.token.call_receiver_hook(&hook.address, hook.params) {
                Ok(()) => {},
                Err(_) => {
                    *self.token.state = before;
                    self.needs_rollback = true;
                },
            },
            Err(_) => {
                self.needs_rollback = true;
            },
        }
    }

    /// Transfers tokens as the first part of the transaction, and tells the receiver: those of the
    /// spender, or those of an owner from the spender's allowance
    pub fn transfer(
        &mut self,
        spender: ActorID,
        owner: ActorID,
        receiver: ActorID,
        value: &TokenAmount,
        data: RawBytes,
    )
        requires
            old(self).token.usable(),
        ensures
            *final(final(self).token.state) == *final(old(self).token.state),
            final(self).token.granularity == old(self).token.granularity,
            store::kept(old(self).token.runtime.blockstore@, final(self).token.runtime.blockstore@),
            final(self).base == old(self).base,
            final(self).state_dirty == old(self).state_dirty,
            old(self).needs_rollback || old(self).state_dirty ==> final(self).needs_rollback
                && final(self).token == old(self).token,
            final(self).needs_rollback ==> final(self).token.state.same_as(*old(self).token.state),
            !old(self).needs_rollback && !old(self).state_dirty ==> {
                let before = old(self).token;
                let after = final(self).token.runtime.syscalls;
                ||| final(self).needs_rollback && transfer_refused(
                    before,
                    after,
                    spender,
                    owner,
                    receiver,
                    value@,
                )
                ||| exists|resolved: S, told: Received, wanted: Result<Ledger<ActorID>, StateFault>|
                    {
                        &&& #[trigger] transfer_due(
                            before,
                            resolved,
                            spender,
                            owner,
                            receiver,
                            value@,
                            data@,
                            told,
                            wanted,
                        )
                        &&& before.books() is Some ==> match wanted {
                            Err(_) => final(self).needs_rollback && after == resolved,
                            Ok(books) => if store::storable(value@) {
                                let message = receiver::hook_message(
                                    AddressView::ID(receiver),
                                    told,
                                );
                                &&& after.sent() == resolved.sent().push(message)
                                &&& !final(self).needs_rollback ==> final(self).token.books()
                                    == Some(books)
                                &&& exists|
                                    s: &mut S,
                                    to: Address,
                                    block: Option<IpldBlock>,
                                    nothing: TokenAmount,
                                    answer: Result<Response, ErrorNumber>,
                                |
                                    {
                                        &&& *s == resolved
                                        &&& *final(s) == after
                                        &&& to@ == message.to
                                        &&& bytes::block_view(block) == message.params
                                        &&& nothing@ == 0
                                        &&& #[trigger] call_ensures(
                                            S::send,
                                            (s, &to, RECEIVER_HOOK_METHOD_NUM, block, nothing),
                                            answer,
                                        )
                                        &&& final(self).needs_rollback == !succeeded(answer)
                                    }
                            } else {
                                final(self).needs_rollback && after == resolved
                            },
                        }
                    }
            },
    {
        if self.state_dirty {
            self.needs_rollback = true;
            return;
        }
        if self.needs_rollback {
            return;
        }
        let before = self.token.state.clone();
        let itself = spender == owner;
        let (by, from, to) = (Address::new_id(spender), Address::new_id(owner), Address::new_id(receiver));
        let ghost start = self.token;
        let ghost handed = data@;
        let done = if itself {
            match self.token.transfer(&from, &to, value, data, RawBytes::default()) {
                Ok((hook, _)) => Ok(hook),
                Err(e) => Err(e),
            }
        } else {
            match self.token.transfer_from(&by, &from, &to, value, data, RawBytes::default()) {
                Ok((hook, _)) => Ok(hook),
                Err(e) => Err(e),
            }
        };
        proof {
            let resolved = self.token.runtime.syscalls;
            let faulty = if itself {
                token::amount_fault(value@, "transfer"@, start.granularity) is Some
            } else {
                token::transfer_from_fault(
                    start.runtime.syscalls,
                    start.granularity,
                    by@,
                    from@,
                    value@,
                ) is Some
            };
            if !faulty && !(done is Err && done->Err_0 is Messaging) {
                let from_id = resolved.resolves(from@)->0;
                let told = Received {
                    from: from_id,
                    to: resolved.resolves(to@)->0,
                    operator: if itself {
                        from_id
                    } else {
                        resolved.resolves(by@)->0
                    },
                    amount: value@,
                    operator_data: handed,
                    token_data: Seq::empty(),
                };
                let wanted = books_of(
                    if itself {
                        ledger::move_tokens(
                            start.books()->0,
                            token::account(told.from),
                            token::account(told.to),
                            value@,
                        )
                    } else {
                        ledger::move_from(
                            start.books()->0,
                            token::account(told.operator),
                            token::account(told.from),
                            token::account(told.to),
                            value@,
                        )
                    },
                );
                assert(transfer_due(
                    start,
                    resolved,
                    spender,
                    owner,
                    receiver,
                    value@,
                    handed,
                    told,
                    wanted,
                ));
            }
        }
        match done {
            Ok(hook) => match self.token.call_receiver_hook(&hook.address, hook.params) {
                Ok(()) => {},
                Err(_) => {
                    *self.token.state = before;
                    self.needs_rollback = true;
                },
            },
            Err(_) => {
                self.needs_rollback = true;
            },
        }
    }
}

} // verus!
