//! What the operations on a token are for, said of what goes in and what comes out.
use vstd::prelude::*;

use crate::accounting;
use crate::accounting::{
    added, allowed, divisible, holding, holds_same, moved, spendable, spends_same,
};
use crate::address::{Address, AddressView};
use crate::amount::TokenAmount;
use crate::bytes::{ActorID, Cid, RawBytes, CBOR};
use crate::fil_fungible_token::error::{TokenError, TokenFault};
use crate::fil_fungible_token::receiver::ReceiverHook;
use crate::fil_fungible_token::state::{Books, TokenState};
use crate::fil_fungible_token::state_promises;
use crate::fil_fungible_token::state_promises::in_order;
use crate::fil_fungible_token::token;
use crate::fil_fungible_token::token::Token;
use crate::fil_fungible_token::types::{
    BurnFromReturn, BurnReturn, MintReturn, TransferFromReturn, TransferReturn,
};
use crate::fvm_actor_utils::messaging::RECEIVER_HOOK_METHOD_NUM;
use crate::fvm_actor_utils::receiver::received_cbor;
use crate::fvm_actor_utils::syscalls::{Message, Syscalls};
use crate::fvm_actor_utils::util;
use crate::fvm_actor_utils::util::{remembers, ActorRuntime};
use crate::ledger;
use crate::store;
use crate::store::Store;

verus! {

/// The books of a token.
pub open spec fn books_of<'st, S: Syscalls>(token: Token<'st, S>) -> Books {
    token.books()->0
}

/// The actor at an address.
pub open spec fn actor_at<S: Syscalls>(syscalls: S, address: AddressView) -> ActorID {
    syscalls.resolves(address)->0
}

/// Whether a hook, not called yet, tells the receiver at an address of tokens: whose they were, whose
/// they are, who moved them, how many there are, and the data of the operator and of the token.
pub open spec fn tells(
    hook: ReceiverHook,
    address: AddressView,
    from: ActorID,
    to: ActorID,
    operator: ActorID,
    amount: int,
    operator_data: Seq<u8>,
    token_data: Seq<u8>,
) -> bool {
    &&& hook.address@ == address
    &&& hook.params.from == from
    &&& hook.params.to == to
    &&& hook.params.operator == operator
    &&& hook.params.amount@ == amount
    &&& hook.params.operator_data@ == operator_data
    &&& hook.params.token_data@ == token_data
    &&& !hook.called
}

/// A mint adds the amount to the owner and to the supply, and returns the owner's new balance and the new
/// supply. No other account and no allowance changes. The owner is told of it, with the token actor as
/// where the tokens come from, the minter as operator, and the data of the operator and of the token
/// each in its place. A refused mint changes nothing.
pub proof fn a_mint_adds_and_tells<'st, S: Syscalls>(
    tok: &mut Token<'st, S>,
    operator: &Address,
    owner: &Address,
    amount: &TokenAmount,
    operator_data: RawBytes,
    token_data: RawBytes,
    r: Result<(ReceiverHook, MintReturn), TokenError>,
)
    requires
        old(tok).books() is Some,
        call_ensures(
            Token::<'st, S>::mint,
            (tok, operator, owner, amount, operator_data, token_data),
            r,
        ),
    ensures
        final(tok).granularity == old(tok).granularity,
        r is Ok ==> {
            let syscalls = final(tok).runtime.syscalls;
            let receiver = actor_at(syscalls, owner@);
            &&& final(tok).books() is Some
            &&& syscalls.resolves(operator@) is Some && syscalls.resolves(owner@) is Some
            &&& remembers(old(tok).runtime.syscalls, syscalls)
            &&& divisible(amount@, old(tok).granularity)
            &&& added(books_of(*old(tok)), books_of(*final(tok)), receiver, amount@)
            &&& r->Ok_0.1.balance@ == holding(books_of(*final(tok)), receiver)
            &&& r->Ok_0.1.supply@ == books_of(*final(tok)).supply
            &&& tells(
                r->Ok_0.0,
                owner@,
                old(tok).runtime.syscalls.actor(),
                receiver,
                actor_at(syscalls, operator@),
                amount@,
                operator_data@,
                token_data@,
            )
        },
        r is Err ==> *final(tok).state == *old(tok).state,
        !divisible(amount@, old(tok).granularity) ==> r is Err,
        ({
            let syscalls = old(tok).runtime.syscalls;
            let books = books_of(*old(tok));
            let sum = holding(books, actor_at(syscalls, owner@)) + amount@;
            syscalls.resolves(operator@) is Some && syscalls.resolves(owner@) is Some && divisible(
                amount@,
                old(tok).granularity,
            ) && sum >= 0 && books.supply >= 0 && store::storable(sum) ==> r is Ok
        }),
{
    let l = old(tok).books()->0;
    let (sooner, later) = (old(tok).runtime.syscalls, final(tok).runtime.syscalls);
    let ids = (later.resolves(operator@)->0, later.resolves(owner@)->0);
    if r is Err && r->Err_0 is Messaging && divisible(amount@, old(tok).granularity) {
        assert(sooner.resolves(operator@) is None || sooner.resolves(owner@) is None);
    } else if divisible(amount@, old(tok).granularity) {
        util::both_are_resolved(sooner, later, operator@, owner@, ids);
        accounting::issuing(l, token::account(ids.1), amount@);
    }
}

/// A burn takes the amount from the owner and from the supply, and returns what the owner is left with.
/// No other account and no allowance changes. Tokens that are not there are not burnt. A refused burn
/// changes nothing.
pub proof fn a_burn_takes_away<'st, S: Syscalls>(
    tok: &mut Token<'st, S>,
    owner: &Address,
    amount: &TokenAmount,
    r: Result<BurnReturn, TokenError>,
)
    requires
        old(tok).books() is Some,
        call_ensures(Token::<'st, S>::burn, (tok, owner, amount), r),
    ensures
        final(tok).granularity == old(tok).granularity,
        r is Ok ==> {
            let syscalls = final(tok).runtime.syscalls;
            let id = actor_at(syscalls, owner@);
            &&& final(tok).books() is Some
            &&& syscalls.resolves(owner@) is Some
            &&& remembers(old(tok).runtime.syscalls, syscalls)
            &&& divisible(amount@, old(tok).granularity)
            &&& added(books_of(*old(tok)), books_of(*final(tok)), id, -amount@)
            &&& amount@ > 0 ==> holding(books_of(*old(tok)), id) >= amount@
            &&& r->Ok_0.balance@ == holding(books_of(*final(tok)), id)
        },
        r is Err ==> *final(tok).state == *old(tok).state,
        !divisible(amount@, old(tok).granularity) ==> r is Err,
        ({
            let syscalls = old(tok).runtime.syscalls;
            let books = books_of(*old(tok));
            let left = holding(books, actor_at(syscalls, owner@)) - amount@;
            syscalls.resolves(owner@) is Some && divisible(amount@, old(tok).granularity) && left
                >= 0 && books.supply >= amount@ ==> r is Ok
        }),
{
    let l = old(tok).books()->0;
    let (sooner, later) = (old(tok).runtime.syscalls, final(tok).runtime.syscalls);
    if divisible(amount@, old(tok).granularity) && !(r is Err && r->Err_0 is Messaging) {
        let id = choose|id: ActorID|
            #![trigger token::account(id)]
            util::resolved_or_made(sooner, later, owner@, Ok(id)) && match ledger::issue(
                l,
                token::account(id),
                -amount@,
            ) {
                Ok((books, balance)) => r is Ok && r->Ok_0.balance@ == balance && final(tok).books()
                    == Some(books),
                Err(fault) => r is Err && r->Err_0@ == TokenFault::State(fault),
            };
        util::one_is_resolved(sooner, later, owner@, id);
        accounting::issuing(l, token::account(id), -amount@);
    }
}

/// A delegated burn takes the amount from the owner, from the supply and from the operator's allowance.
/// It returns what is left of the balance as the balance and what is left of the allowance as the
/// allowance. No other account and no other allowance changes. The operator had enough of an
/// allowance. A refused burn changes nothing.
pub proof fn a_delegated_burn_takes_away<'st, S: Syscalls>(
    tok: &mut Token<'st, S>,
    operator: &Address,
    owner: &Address,
    amount: &TokenAmount,
    r: Result<BurnFromReturn, TokenError>,
)
    requires
        old(tok).books() is Some,
        call_ensures(Token::<'st, S>::burn_from, (tok, operator, owner, amount), r),
    ensures
        final(tok).granularity == old(tok).granularity,
        final(tok).runtime.syscalls == old(tok).runtime.syscalls,
        r is Ok ==> {
            let syscalls = old(tok).runtime.syscalls;
            let before = books_of(*old(tok));
            let after = books_of(*final(tok));
            let id = actor_at(syscalls, owner@);
            let spender = actor_at(syscalls, operator@);
            &&& final(tok).books() is Some
            &&& syscalls.resolves(owner@) is Some && syscalls.resolves(operator@) is Some
            &&& divisible(amount@, old(tok).granularity)
            &&& after.supply == before.supply - amount@
            &&& holding(after, id) == holding(before, id) - amount@
            &&& forall|k: ActorID| k != id ==> #[trigger] holding(after, k) == holding(before, k)
            &&& allowed(before, after, id, spender, spendable(before, id, spender) - amount@)
            &&& r->Ok_0.balance@ == holding(after, id)
            &&& r->Ok_0.allowance@ == spendable(after, id, spender)
            &&& id != spender ==> spendable(before, id, spender) != 0
            &&& amount@ > 0 ==> spendable(before, id, spender) >= amount@ && holding(before, id)
                >= amount@
        },
        r is Err ==> *final(tok).state == *old(tok).state,
        operator@ == owner@ ==> r is Err,
        !divisible(amount@, old(tok).granularity) ==> r is Err,
        ({
            let syscalls = old(tok).runtime.syscalls;
            let books = books_of(*old(tok));
            let id = actor_at(syscalls, owner@);
            let spender = actor_at(syscalls, operator@);
            syscalls.resolves(owner@) is Some && syscalls.resolves(operator@) is Some && id
                != spender && divisible(amount@, old(tok).granularity) && spendable(
                books,
                id,
                spender,
            ) > 0 && spendable(books, id, spender) >= amount@ && holding(books, id) >= amount@
                && books.supply >= amount@ ==> r is Ok
        }),
{
    let syscalls = old(tok).runtime.syscalls;
    if token::burn_from_fault(syscalls, old(tok).granularity, operator@, owner@, amount@) is None {
        let spender = token::account(syscalls.resolves(operator@)->0);
        let holder = token::account(syscalls.resolves(owner@)->0);
        accounting::burning_from(old(tok).books()->0, spender, holder, amount@);
    }
}

/// What a delegated burn returns agrees with what is then read: its balance is the owner's balance, and
/// its allowance what the operator may still spend.
pub proof fn a_delegated_burn_agrees_with_what_is_read<'st, S: Syscalls>(
    tok: &mut Token<'st, S>,
    operator: &Address,
    owner: &Address,
    amount: &TokenAmount,
    r: Result<BurnFromReturn, TokenError>,
    balance: Result<TokenAmount, TokenError>,
    allowance: Result<TokenAmount, TokenError>,
)
    requires
        old(tok).books() is Some,
        call_ensures(Token::<'st, S>::burn_from, (tok, operator, owner, amount), r),
        r is Ok,
        call_ensures(Token::<'st, S>::balance_of, (&*final(tok), owner), balance),
        call_ensures(Token::<'st, S>::allowance, (&*final(tok), owner, operator), allowance),
    ensures
        balance is Ok && balance->Ok_0@ == r->Ok_0.balance@,
        allowance is Ok && allowance->Ok_0@ == r->Ok_0.allowance@,
{
    a_delegated_burn_takes_away(tok, operator, owner, amount, r);
    let syscalls = old(tok).runtime.syscalls;
    accounting::books_are_read(
        books_of(*final(tok)),
        actor_at(syscalls, owner@),
        actor_at(syscalls, operator@),
    );
}

/// A transfer takes the amount from the sender and adds it to the receiver, and returns what both then
/// have. No other account, no allowance and not the supply changes. The receiver is told who sent how
/// much, with the data of the operator and of the token each in its place. A refused transfer changes
/// nothing.
pub proof fn a_transfer_moves_and_tells<'st, S: Syscalls>(
    tok: &mut Token<'st, S>,
    from: &Address,
    to: &Address,
    amount: &TokenAmount,
    operator_data: RawBytes,
    token_data: RawBytes,
    r: Result<(ReceiverHook, TransferReturn), TokenError>,
)
    requires
        old(tok).books() is Some,
        call_ensures(
            Token::<'st, S>::transfer,
            (tok, from, to, amount, operator_data, token_data),
            r,
        ),
    ensures
        final(tok).granularity == old(tok).granularity,
        r is Ok ==> {
            let syscalls = final(tok).runtime.syscalls;
            let before = books_of(*old(tok));
            let after = books_of(*final(tok));
            let sender = actor_at(syscalls, from@);
            let receiver = actor_at(syscalls, to@);
            &&& final(tok).books() is Some
            &&& syscalls.resolves(from@) is Some && syscalls.resolves(to@) is Some
            &&& remembers(old(tok).runtime.syscalls, syscalls)
            &&& divisible(amount@, old(tok).granularity)
            &&& moved(before, after, sender, receiver, amount@)
            &&& spends_same(before, after)
            &&& amount@ > 0 ==> holding(before, sender) >= amount@
            &&& r->Ok_0.1.from_balance@ == holding(after, sender)
            &&& r->Ok_0.1.to_balance@ == holding(after, receiver)
            &&& tells(
                r->Ok_0.0,
                to@,
                sender,
                receiver,
                sender,
                amount@,
                operator_data@,
                token_data@,
            )
        },
        r is Err ==> *final(tok).state == *old(tok).state,
        !divisible(amount@, old(tok).granularity) ==> r is Err,
        ({
            let syscalls = old(tok).runtime.syscalls;
            let books = books_of(*old(tok));
            let left = holding(books, actor_at(syscalls, from@)) - amount@;
            let sum = holding(books, actor_at(syscalls, to@)) + amount@;
            syscalls.resolves(from@) is Some && syscalls.resolves(to@) is Some && divisible(
                amount@,
                old(tok).granularity,
            ) && left >= 0 && sum >= 0 && store::storable(left) && store::storable(sum) ==> r is Ok
        }),
{
    let l = old(tok).books()->0;
    let (sooner, later) = (old(tok).runtime.syscalls, final(tok).runtime.syscalls);
    let ids = (later.resolves(from@)->0, later.resolves(to@)->0);
    if r is Err && r->Err_0 is Messaging && divisible(amount@, old(tok).granularity) {
        assert(sooner.resolves(from@) is None || sooner.resolves(to@) is None);
    } else if divisible(amount@, old(tok).granularity) {
        util::both_are_resolved(sooner, later, from@, to@, ids);
        accounting::moving(l, token::account(ids.0), token::account(ids.1), amount@);
    }
}

/// A delegated transfer takes the amount from the owner and from the operator's allowance, and adds it
/// to the receiver. It returns what the owner and the receiver then have and what is left of the
/// allowance. No other account, no other allowance and not the supply changes. The operator had enough
/// of an allowance. The receiver is told who moved how much of whose tokens, with the data of the
/// operator and of the token each in its place.
pub proof fn a_delegated_transfer_moves_and_tells<'st, S: Syscalls>(
    tok: &mut Token<'st, S>,
    operator: &Address,
    from: &Address,
    to: &Address,
    amount: &TokenAmount,
    operator_data: RawBytes,
    token_data: RawBytes,
    r: Result<(ReceiverHook, TransferFromReturn), TokenError>,
)
    requires
        old(tok).books() is Some,
        call_ensures(
            Token::<'st, S>::transfer_from,
            (tok, operator, from, to, amount, operator_data, token_data),
            r,
        ),
    ensures
        final(tok).granularity == old(tok).granularity,
        r is Ok ==> {
            let syscalls = final(tok).runtime.syscalls;
            let known = old(tok).runtime.syscalls;
            let before = books_of(*old(tok));
            let after = books_of(*final(tok));
            let mover = actor_at(known, operator@);
            let sender = actor_at(known, from@);
            let receiver = actor_at(syscalls, to@);
            &&& final(tok).books() is Some
            &&& known.resolves(operator@) is Some && known.resolves(from@) is Some
            &&& syscalls.resolves(to@) is Some
            &&& remembers(known, syscalls)
            &&& divisible(amount@, old(tok).granularity)
            &&& moved(before, after, sender, receiver, amount@)
            &&& allowed(before, after, sender, mover, spendable(before, sender, mover) - amount@)
            &&& amount@ > 0 ==> holding(before, sender) >= amount@
            &&& amount@ > 0 ==> spendable(before, sender, mover) >= amount@
            &&& mover != sender ==> spendable(before, sender, mover) != 0
            &&& r->Ok_0.1.from_balance@ == holding(after, sender)
            &&& r->Ok_0.1.to_balance@ == holding(after, receiver)
            &&& r->Ok_0.1.allowance@ == spendable(after, sender, mover)
            &&& tells(
                r->Ok_0.0,
                to@,
                sender,
                receiver,
                mover,
                amount@,
                operator_data@,
                token_data@,
            )
        },
        r is Err ==> *final(tok).state == *old(tok).state,
        operator@ == from@ ==> r is Err,
        !divisible(amount@, old(tok).granularity) ==> r is Err,
        ({
            let syscalls = old(tok).runtime.syscalls;
            let books = books_of(*old(tok));
            let mover = actor_at(syscalls, operator@);
            let sender = actor_at(syscalls, from@);
            let had = spendable(books, sender, mover);
            let left = holding(books, sender) - amount@;
            let sum = holding(books, actor_at(syscalls, to@)) + amount@;
            syscalls.resolves(operator@) is Some && syscalls.resolves(from@) is Some
                && syscalls.resolves(to@) is Some && mover != sender && divisible(
                amount@,
                old(tok).granularity,
            ) && had > 0 && had >= amount@ && left >= 0 && sum >= 0 && store::storable(
                had - amount@,
            ) && store::storable(left) && store::storable(sum) ==> r is Ok
        }),
{
    let l = old(tok).books()->0;
    let (sooner, later) = (old(tok).runtime.syscalls, final(tok).runtime.syscalls);
    let mover = sooner.resolves(operator@)->0;
    let sender = sooner.resolves(from@)->0;
    let receiver = later.resolves(to@)->0;
    if token::transfer_from_fault(sooner, old(tok).granularity, operator@, from@, amount@) is None
        && !(r is Err && r->Err_0 is Messaging) {
        util::one_is_resolved(sooner, later, to@, receiver);
        accounting::moving_from(
            l,
            token::account(mover),
            token::account(sender),
            token::account(receiver),
            amount@,
        );
    }
}

/// What is read is what the books hold: the balance of an address, what one address may spend of
/// another's tokens, and the supply. An address that stands for no actor has nothing.
pub proof fn the_books_are_read<'st, S: Syscalls>(
    tok: Token<'st, S>,
    owner: &Address,
    operator: &Address,
    balance: Result<TokenAmount, TokenError>,
    allowance: Result<TokenAmount, TokenError>,
    supply: TokenAmount,
)
    requires
        tok.books() is Some,
        call_ensures(Token::<'st, S>::balance_of, (&tok, owner), balance),
        call_ensures(Token::<'st, S>::allowance, (&tok, owner, operator), allowance),
        call_ensures(Token::<'st, S>::total_supply, (&tok,), supply),
    ensures
        ({
            let syscalls = tok.runtime.syscalls;
            let id = actor_at(syscalls, owner@);
            let spender = actor_at(syscalls, operator@);
            &&& balance is Ok && allowance is Ok
            &&& balance->Ok_0@ == if syscalls.resolves(owner@) is Some {
                holding(books_of(tok), id)
            } else {
                0
            }
            &&& allowance->Ok_0@ == if syscalls.resolves(owner@) is Some && syscalls.resolves(
                operator@,
            ) is Some {
                spendable(books_of(tok), id, spender)
            } else {
                0
            }
            &&& supply@ == books_of(tok).supply
        }),
{
    let syscalls = tok.runtime.syscalls;
    accounting::books_are_read(
        books_of(tok),
        actor_at(syscalls, owner@),
        actor_at(syscalls, operator@),
    );
}

/// Raising an allowance adds to it and returns the new one. No other allowance, no balance and not the
/// supply changes. A refused change changes nothing.
pub proof fn raising_an_allowance_adds_to_it<'st, S: Syscalls>(
    tok: &mut Token<'st, S>,
    owner: &Address,
    operator: &Address,
    delta: &TokenAmount,
    r: Result<TokenAmount, TokenError>,
)
    requires
        old(tok).books() is Some,
        call_ensures(Token::<'st, S>::increase_allowance, (tok, owner, operator, delta), r),
    ensures
        final(tok).granularity == old(tok).granularity,
        r is Ok ==> {
            let syscalls = final(tok).runtime.syscalls;
            let before = books_of(*old(tok));
            let after = books_of(*final(tok));
            let id = actor_at(syscalls, owner@);
            let spender = actor_at(syscalls, operator@);
            let had = spendable(before, id, spender);
            &&& final(tok).books() is Some
            &&& syscalls.resolves(owner@) is Some && syscalls.resolves(operator@) is Some
            &&& remembers(old(tok).runtime.syscalls, syscalls)
            &&& divisible(delta@, old(tok).granularity)
            &&& holds_same(before, after)
            &&& had + delta@ >= 0 || delta@ == 0 ==> allowed(
                before,
                after,
                id,
                spender,
                had + delta@,
            )
            &&& r->Ok_0@ == spendable(after, id, spender)
        },
        r is Err ==> *final(tok).state == *old(tok).state,
        !divisible(delta@, old(tok).granularity) ==> r is Err,
        ({
            let syscalls = old(tok).runtime.syscalls;
            let books = books_of(*old(tok));
            let had = spendable(books, actor_at(syscalls, owner@), actor_at(syscalls, operator@));
            let new = had + delta@;
            syscalls.resolves(owner@) is Some && syscalls.resolves(operator@) is Some && divisible(
                delta@,
                old(tok).granularity,
            ) && store::storable(if new < 0 {
                0
            } else {
                new
            }) ==> r is Ok
        }),
{
    let l = old(tok).books()->0;
    let (sooner, later) = (old(tok).runtime.syscalls, final(tok).runtime.syscalls);
    if divisible(delta@, old(tok).granularity) && !(r is Err && r->Err_0 is Messaging) {
        let ids = choose|ids: (ActorID, ActorID)|
            #![trigger token::account(ids.0), token::account(ids.1)]
            util::resolved_both(sooner, later, owner@, operator@, ids) && token::settled(
                Some(l),
                final(tok).books(),
                r,
                ledger::change_allowance(
                    l,
                    token::account(ids.0).key,
                    token::account(ids.1).key,
                    delta@,
                ),
            );
        util::both_are_resolved(sooner, later, owner@, operator@, ids);
        accounting::changing_an_allowance(l, ids.0, ids.1, delta@);
    }
}

/// Lowering an allowance takes from it down to nothing and returns the new one. No other allowance, no
/// balance and not the supply changes. A refused change changes nothing.
pub proof fn lowering_an_allowance_takes_from_it<'st, S: Syscalls>(
    tok: &mut Token<'st, S>,
    owner: &Address,
    operator: &Address,
    delta: &TokenAmount,
    r: Result<TokenAmount, TokenError>,
)
    requires
        old(tok).books() is Some,
        call_ensures(Token::<'st, S>::decrease_allowance, (tok, owner, operator, delta), r),
    ensures
        final(tok).granularity == old(tok).granularity,
        r is Ok ==> {
            let syscalls = final(tok).runtime.syscalls;
            let before = books_of(*old(tok));
            let after = books_of(*final(tok));
            let id = actor_at(syscalls, owner@);
            let spender = actor_at(syscalls, operator@);
            let had = spendable(before, id, spender);
            &&& final(tok).books() is Some
            &&& syscalls.resolves(owner@) is Some && syscalls.resolves(operator@) is Some
            &&& remembers(old(tok).runtime.syscalls, syscalls)
            &&& divisible(delta@, old(tok).granularity)
            &&& holds_same(before, after)
            &&& allowed(before, after, id, spender, if had < delta@ && delta@ > 0 {
                0
            } else {
                had - delta@
            })
            &&& r->Ok_0@ == spendable(after, id, spender)
        },
        r is Err ==> *final(tok).state == *old(tok).state,
        !divisible(delta@, old(tok).granularity) ==> r is Err,
        ({
            let syscalls = old(tok).runtime.syscalls;
            let books = books_of(*old(tok));
            let had = spendable(books, actor_at(syscalls, owner@), actor_at(syscalls, operator@));
            let new = had - delta@;
            syscalls.resolves(owner@) is Some && syscalls.resolves(operator@) is Some && divisible(
                delta@,
                old(tok).granularity,
            ) && store::storable(if new < 0 {
                0
            } else {
                new
            }) ==> r is Ok
        }),
{
    let l = old(tok).books()->0;
    let (sooner, later) = (old(tok).runtime.syscalls, final(tok).runtime.syscalls);
    if divisible(delta@, old(tok).granularity) && !(r is Err && r->Err_0 is Messaging) {
        let ids = choose|ids: (ActorID, ActorID)|
            #![trigger token::account(ids.0), token::account(ids.1)]
            util::resolved_both(sooner, later, owner@, operator@, ids) && token::settled(
                Some(l),
                final(tok).books(),
                r,
                ledger::change_allowance(
                    l,
                    token::account(ids.0).key,
                    token::account(ids.1).key,
                    -delta@,
                ),
            );
        util::both_are_resolved(sooner, later, owner@, operator@, ids);
        accounting::changing_an_allowance(l, ids.0, ids.1, -delta@);
    }
}

/// Taking an allowance back leaves none. No other allowance, no balance and not the supply changes. It is
/// not refused, and makes no accounts.
pub proof fn revoking_leaves_no_allowance<'st, S: Syscalls>(
    tok: &mut Token<'st, S>,
    owner: &Address,
    operator: &Address,
    r: Result<(), TokenError>,
)
    requires
        old(tok).books() is Some,
        call_ensures(Token::<'st, S>::revoke_allowance, (tok, owner, operator), r),
    ensures
        final(tok).granularity == old(tok).granularity,
        final(tok).runtime.syscalls == old(tok).runtime.syscalls,
        r is Ok,
        final(tok).books() is Some,
        ({
            let syscalls = old(tok).runtime.syscalls;
            let before = books_of(*old(tok));
            let after = books_of(*final(tok));
            let id = actor_at(syscalls, owner@);
            let spender = actor_at(syscalls, operator@);
            if syscalls.resolves(owner@) is Some && syscalls.resolves(operator@) is Some {
                holds_same(before, after) && allowed(before, after, id, spender, 0)
            } else {
                after == before
            }
        }),
{
    let syscalls = old(tok).runtime.syscalls;
    accounting::revoking(
        old(tok).books()->0,
        actor_at(syscalls, owner@),
        actor_at(syscalls, operator@),
    );
}

/// When a hook is called, one message goes out. It goes to the receiver, without funds, and carries who
/// sent how much to whom and the data of the operator and of the token, each in its place. A hook that
/// was called sends nothing.
pub proof fn the_receiver_is_sent_the_data<S: Syscalls>(
    hook: &mut ReceiverHook,
    runtime: &mut ActorRuntime<S>,
    r: Result<(), TokenError>,
)
    requires
        call_ensures(ReceiverHook::call::<ActorRuntime<S>>, (hook, runtime), r),
    ensures
        final(hook).called,
        old(hook).called ==> r is Err && *final(runtime) == *old(runtime),
        !old(hook).called && store::storable(old(hook).params.amount@) ==> {
            let params = old(hook).params;
            final(runtime).syscalls.sent() == old(runtime).syscalls.sent().push(
                Message {
                    to: old(hook).address@,
                    method: RECEIVER_HOOK_METHOD_NUM,
                    params: Some(
                        (
                            CBOR,
                            received_cbor(
                                params.from,
                                params.to,
                                params.operator,
                                params.amount@,
                                params.operator_data@,
                                params.token_data@,
                            ),
                        ),
                    ),
                    value: 0,
                },
            )
        },
{
}

/// An amount passes where it is not negative and a multiple of the granularity. What passes is handed
/// back.
pub proof fn amounts_are_validated(
    a: &TokenAmount,
    name: &'static str,
    granularity: u64,
    r: Result<&TokenAmount, TokenError>,
)
    requires
        granularity > 0,
        call_ensures(token::validate_amount, (a, name, granularity), r),
    ensures
        r is Ok == divisible(a@, granularity),
        r is Ok ==> r->Ok_0@ == a@,
        a@ < 0 ==> r->Err_0 is InvalidNegative && r->Err_0->InvalidNegative_amount@ == a@
            && r->Err_0->InvalidNegative_name@ == name@,
        a@ >= 0 && r is Err ==> r->Err_0 is InvalidGranularity
            && r->Err_0->InvalidGranularity_amount@ == a@
            && r->Err_0->InvalidGranularity_granularity == granularity
            && r->Err_0->InvalidGranularity_name@ == name@,
{
}

/// What is flushed is what is loaded. What was replaced is handed back.
pub proof fn what_is_flushed_is_loaded<'st, S: Syscalls>(
    tok: &mut Token<'st, S>,
    other: &mut Token<'st, S>,
    flushed: Result<Cid, TokenError>,
    loaded: Result<TokenState, TokenError>,
    state: TokenState,
    was: TokenState,
)
    requires
        call_ensures(Token::<'st, S>::flush, (tok,), flushed),
        flushed is Ok,
        call_ensures(
            Token::<'st, S>::load_state,
            (&final(tok).runtime.blockstore, &flushed->Ok_0),
            loaded,
        ),
        call_ensures(Token::<'st, S>::replace, (other, state), was),
    ensures
        *final(tok).state == *old(tok).state,
        loaded is Ok,
        loaded->Ok_0.supply@ == old(tok).state.supply@,
        loaded->Ok_0.balances@ == old(tok).state.balances@,
        loaded->Ok_0.allowances@ == old(tok).state.allowances@,
        was == *old(other).state && *final(other).state == state,
{
}

/// A check of a token succeeds just where its books are in order.
pub proof fn a_check_finds_what_is_wrong<'st, S: Syscalls>(
    tok: Token<'st, S>,
    r: Result<(), TokenError>,
)
    requires
        tok.books() is Some,
        call_ensures(Token::<'st, S>::check_invariants, (&tok,), r),
    ensures
        r is Ok == in_order(books_of(tok)),
        r is Err ==> r->Err_0 is StateInvariant,
{
    let books = books_of(tok);
    state_promises::rules_of_sound_books(books);
}

/// A transaction that fails leaves the state as it was; one that succeeds leaves the state as the work
/// left it, which began with the state as it was.
pub proof fn a_failed_transaction_changes_nothing<
    'st,
    S: Syscalls,
    Res,
    F: FnOnce(&mut TokenState, &mut Store) -> Result<Res, TokenError>,
>(tok: &mut Token<'st, S>, f: F, r: Result<Res, TokenError>)
    requires
        call_ensures(Token::<'st, S>::transaction::<F, Res>, (tok, f), r),
    ensures
        r is Err ==> *final(tok).state == *old(tok).state,
        r is Ok ==> exists|state: &mut TokenState, bs: &mut Store|
            {
                &&& #[trigger] f.ensures((state, bs), r)
                &&& state.supply@ == old(tok).state.supply@
                &&& state.balances@ == old(tok).state.balances@
                &&& state.allowances@ == old(tok).state.allowances@
                &&& *bs == old(tok).runtime.blockstore
                &&& *final(tok).state == *final(state)
                &&& final(tok).runtime.blockstore == *final(bs)
            },
{
}

/// An operator who stands for no actor has no allowance: moving and burning tokens of another is refused
/// for want of an allowance, with whose tokens, who wants them, that there is none, and the amount. Who
/// is the owner is refused as an operator. Nothing changes.
pub proof fn unknown_operators_are_refused<'st, S: Syscalls>(
    tok: &mut Token<'st, S>,
    other: &mut Token<'st, S>,
    operator: &Address,
    owner: &Address,
    to: &Address,
    amount: &TokenAmount,
    operator_data: RawBytes,
    token_data: RawBytes,
    moved: Result<(ReceiverHook, TransferFromReturn), TokenError>,
    burnt: Result<BurnFromReturn, TokenError>,
)
    requires
        divisible(amount@, old(tok).granularity),
        divisible(amount@, old(other).granularity),
        old(tok).runtime.syscalls.resolves(operator@) is None,
        old(other).runtime.syscalls.resolves(operator@) is None,
        call_ensures(
            Token::<'st, S>::transfer_from,
            (tok, operator, owner, to, amount, operator_data, token_data),
            moved,
        ),
        call_ensures(Token::<'st, S>::burn_from, (other, operator, owner, amount), burnt),
    ensures
        moved is Err && burnt is Err,
        *final(tok).state == *old(tok).state && final(tok).runtime == old(tok).runtime,
        *final(other).state == *old(other).state && final(other).runtime == old(other).runtime,
        operator@ == owner@ ==> {
            &&& moved->Err_0 is InvalidOperator && moved->Err_0->InvalidOperator_0@ == operator@
            &&& burnt->Err_0 is InvalidOperator && burnt->Err_0->InvalidOperator_0@ == operator@
        },
        operator@ != owner@ ==> {
            let a = moved->Err_0->TokenState_0;
            let b = burnt->Err_0->TokenState_0;
            &&& moved->Err_0 is TokenState && burnt->Err_0 is TokenState
            &&& a is InsufficientAllowance && b is InsufficientAllowance
            &&& a->InsufficientAllowance_owner@ == owner@
            &&& a->InsufficientAllowance_operator@ == operator@
            &&& a->InsufficientAllowance_allowance@ == 0
            &&& a->InsufficientAllowance_delta@ == amount@
            &&& b->InsufficientAllowance_owner@ == owner@
            &&& b->InsufficientAllowance_operator@ == operator@
            &&& b->InsufficientAllowance_allowance@ == 0
            &&& b->InsufficientAllowance_delta@ == amount@
        },
{
}

} // verus!
