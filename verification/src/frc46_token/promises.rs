//! What the operations on a token are for, said of what goes in and what comes out.
use vstd::prelude::*;

use crate::accounting;
use crate::accounting::{
    added, allowed, divisible, holding, holds_same, moved, spendable, spends_same,
};
use crate::address::{Address, AddressView};
use crate::amount::TokenAmount;
use crate::bytes::{ActorID, Cid, RawBytes, CBOR};
use crate::frc46_token::error::{TokenError, TokenFault};
use crate::frc46_token::state::{Books, StateInvariantError, StateSummary, TokenState};
use crate::frc46_token::state_promises;
use crate::frc46_token::state_promises::in_order;
use crate::frc46_token::token;
use crate::frc46_token::token::Token;
use crate::frc46_token::types::{
    BurnFromReturn, BurnReturn, MintIntermediate, MintReturn, TransferFromIntermediate,
    TransferFromReturn, TransferIntermediate, TransferReturn,
};
use crate::fvm_actor_utils::messaging::RECEIVER_HOOK_METHOD_NUM;
use crate::fvm_actor_utils::receiver::{
    received_cbor, universal_cbor, ReceiverHook, ReceiverHookError, RecipientData, FRC46_TOKEN_TYPE,
};
use crate::fvm_actor_utils::syscalls::{Message, Syscalls};
use crate::fvm_actor_utils::util;
use crate::fvm_actor_utils::util::{remembers, ActorRuntime};
use crate::keys;
use crate::ledger;
use crate::store;
use crate::store::Store;

verus! {

/// The books of a token.
pub open spec fn books_of<'st, S: Syscalls>(token: Token<'st, S>) -> Books {
    token.books()->0
}

/// The key of the account at an address.
pub open spec fn key_at<S: Syscalls>(syscalls: S, address: AddressView) -> Seq<u8> {
    keys::key_of(syscalls.resolves(address)->0)
}

/// Whether a hook, not called yet, tells the receiver at an address of tokens: whose they were, whose
/// they are, who moved them, how many there are, and the data of the operator and of the token.
pub open spec fn tells<T: RecipientData>(
    hook: ReceiverHook<T>,
    address: AddressView,
    from: ActorID,
    to: ActorID,
    operator: ActorID,
    amount: int,
    operator_data: Seq<u8>,
    token_data: Seq<u8>,
) -> bool {
    &&& hook.address@ == address
    &&& hook.token_type == FRC46_TOKEN_TYPE
    &&& hook.token_params@ == received_cbor(from, to, operator, amount, operator_data, token_data)
    &&& !hook.called
    &&& hook.result_data is Some
}

/// What a call of `transfer` comes to.
pub open spec fn transfer_effect<'st, S: Syscalls>(
    was: Token<'st, S>,
    now: Token<'st, S>,
    from: AddressView,
    to: AddressView,
    amount: int,
    operator_data: Seq<u8>,
    token_data: Seq<u8>,
    r: Result<ReceiverHook<TransferIntermediate>, TokenError>,
) -> bool {
    &&& now.granularity == was.granularity
    &&& (r is Ok ==> {
        let syscalls = now.runtime.syscalls;
        let before = books_of(was);
        let after = books_of(now);
        let sender = syscalls.resolves(from);
        let receiver = syscalls.resolves(to);
        &&& now.books() is Some
        &&& sender is Some && receiver is Some
        &&& remembers(was.runtime.syscalls, syscalls)
        &&& divisible(amount, was.granularity)
        &&& moved(before, after, keys::key_of(sender->0), keys::key_of(receiver->0), amount)
        &&& spends_same(before, after)
        &&& amount > 0 ==> holding(before, keys::key_of(sender->0)) >= amount
        &&& tells(
            r->Ok_0,
            to,
            sender->0,
            receiver->0,
            sender->0,
            amount,
            operator_data,
            token_data,
        )
        &&& r->Ok_0.result_data->0.from@ == from
        &&& r->Ok_0.result_data->0.to@ == to
    })
    &&& (r is Err && !(r->Err_0 is ReceiverHook) ==> now.current() == was.current())
    &&& (amount < 0 ==> r is Err && r->Err_0@ == (TokenFault::InvalidNegative {
        name: "transfer"@,
        amount: amount,
    }))
    &&& (amount >= 0 && amount % (was.granularity as int) != 0 ==> r is Err && r->Err_0@ == (
    TokenFault::InvalidGranularity {
        name: "transfer"@,
        amount: amount,
        granularity: was.granularity,
    }))
    &&& {
        let syscalls = was.runtime.syscalls;
        let books = books_of(was);
        let left = holding(books, key_at(syscalls, from)) - amount;
        let sum = holding(books, key_at(syscalls, to)) + amount;
        syscalls.resolves(from) is Some && syscalls.resolves(to) is Some && divisible(
            amount,
            was.granularity,
        ) && left >= 0 && sum >= 0 && store::storable(left) && store::storable(sum)
            && store::storable(amount) ==> r is Ok
    }
}

pub(crate) proof fn lemma_transfer<'st, S: Syscalls>(
    was: Token<'st, S>,
    now: Token<'st, S>,
    from: AddressView,
    to: AddressView,
    amount: int,
    operator_data: Seq<u8>,
    token_data: Seq<u8>,
    r: Result<ReceiverHook<TransferIntermediate>, TokenError>,
)
    requires
        was.books() is Some,
        token::transferred(was, now, from, to, amount, operator_data, token_data, r),
    ensures
        transfer_effect(was, now, from, to, amount, operator_data, token_data, r),
{
    let l = was.books()->0;
    let (sooner, later) = (was.runtime.syscalls, now.runtime.syscalls);
    if divisible(amount, was.granularity) && !(r is Err && r->Err_0 is Messaging) {
        let ids = choose|ids: (ActorID, ActorID)|
            #![trigger token::account(ids.0), token::account(ids.1)]
            util::resolved_both(sooner, later, from, to, ids) && match ledger::move_tokens(
                l,
                token::account(ids.0),
                token::account(ids.1),
                amount,
            ) {
                Ok((books, _)) => {
                    &&& now.books() == Some(books)
                    &&& r is Ok ==> tells(
                        r->Ok_0,
                        to,
                        ids.0,
                        ids.1,
                        ids.0,
                        amount,
                        operator_data,
                        token_data,
                    )
                    &&& r is Err ==> r->Err_0 is ReceiverHook
                    &&& r is Ok ==> r->Ok_0.result_data->0.from@ == from
                        && r->Ok_0.result_data->0.to@ == to
                },
                Err(fault) => r is Err && r->Err_0@ == TokenFault::State(fault)
                    && now.current() == was.current(),
            };
        util::both_are_resolved(sooner, later, from, to, ids);
        keys::keys_differ(ids.0, ids.1);
        accounting::moving(l, token::account(ids.0), token::account(ids.1), amount);
    }
}

/// A transfer takes the amount from the sender and adds it to the receiver. No other account, no
/// allowance and not the supply changes. The receiver is told who sent how much, with the data of the
/// operator and of the token each in its place. A refused transfer changes nothing.
pub proof fn a_transfer_moves_and_tells<'st, S: Syscalls>(
    tok: &mut Token<'st, S>,
    from: &Address,
    to: &Address,
    amount: &TokenAmount,
    operator_data: RawBytes,
    token_data: RawBytes,
    r: Result<ReceiverHook<TransferIntermediate>, TokenError>,
)
    requires
        old(tok).books() is Some,
        call_ensures(
            Token::<'st, S>::transfer,
            (tok, from, to, amount, operator_data, token_data),
            r,
        ),
    ensures
        transfer_effect(*old(tok), *final(tok), from@, to@, amount@, operator_data@, token_data@, r),
{
    lemma_transfer(*old(tok), *final(tok), from@, to@, amount@, operator_data@, token_data@, r);
}

/// What a call of `transfer_from` comes to.
pub open spec fn transfer_from_effect<'st, S: Syscalls>(
    was: Token<'st, S>,
    now: Token<'st, S>,
    operator: AddressView,
    from: AddressView,
    to: AddressView,
    amount: int,
    operator_data: Seq<u8>,
    token_data: Seq<u8>,
    r: Result<ReceiverHook<TransferFromIntermediate>, TokenError>,
) -> bool {
    &&& now.granularity == was.granularity
    &&& (r is Ok ==> {
        let syscalls = now.runtime.syscalls;
        let before = books_of(was);
        let after = books_of(now);
        let mover = was.runtime.syscalls.resolves(operator);
        let sender = was.runtime.syscalls.resolves(from);
        let receiver = syscalls.resolves(to);
        &&& now.books() is Some
        &&& mover is Some && sender is Some && receiver is Some
        &&& remembers(was.runtime.syscalls, syscalls)
        &&& divisible(amount, was.granularity)
        &&& moved(before, after, keys::key_of(sender->0), keys::key_of(receiver->0), amount)
        &&& allowed(
            before,
            after,
            keys::key_of(sender->0),
            keys::key_of(mover->0),
            spendable(before, keys::key_of(sender->0), keys::key_of(mover->0)) - amount,
        )
        &&& amount > 0 ==> holding(before, keys::key_of(sender->0)) >= amount
        &&& amount > 0 ==> spendable(
            before,
            keys::key_of(sender->0),
            keys::key_of(mover->0),
        ) >= amount
        &&& mover != sender ==> spendable(
            before,
            keys::key_of(sender->0),
            keys::key_of(mover->0),
        ) != 0
        &&& tells(
            r->Ok_0,
            to,
            sender->0,
            receiver->0,
            mover->0,
            amount,
            operator_data,
            token_data,
        )
        &&& r->Ok_0.result_data->0.operator@ == operator
        &&& r->Ok_0.result_data->0.from@ == from
        &&& r->Ok_0.result_data->0.to@ == to
    })
    &&& (r is Err && !(r->Err_0 is ReceiverHook) ==> now.current() == was.current())
    &&& (operator == from ==> r is Err)
    &&& (!divisible(amount, was.granularity) ==> r is Err)
    &&& {
        let syscalls = was.runtime.syscalls;
        let books = books_of(was);
        let mover = key_at(syscalls, operator);
        let sender = key_at(syscalls, from);
        let had = spendable(books, sender, mover);
        let left = holding(books, sender) - amount;
        let sum = holding(books, key_at(syscalls, to)) + amount;
        syscalls.resolves(operator) is Some && syscalls.resolves(from) is Some
            && syscalls.resolves(to) is Some && mover != sender && divisible(
            amount,
            was.granularity,
        ) && had > 0 && had >= amount && left >= 0 && sum >= 0 && store::storable(
            had - amount,
        ) && store::storable(left) && store::storable(sum) && store::storable(amount)
            ==> r is Ok
    }
}

pub(crate) proof fn lemma_transfer_from<'st, S: Syscalls>(
    was: Token<'st, S>,
    now: Token<'st, S>,
    operator: AddressView,
    from: AddressView,
    to: AddressView,
    amount: int,
    operator_data: Seq<u8>,
    token_data: Seq<u8>,
    r: Result<ReceiverHook<TransferFromIntermediate>, TokenError>,
)
    requires
        was.books() is Some,
        token::transferred_from(was, now, operator, from, to, amount, operator_data, token_data, r),
    ensures
        transfer_from_effect(was, now, operator, from, to, amount, operator_data, token_data, r),
{
    let l = was.books()->0;
    let (sooner, later) = (was.runtime.syscalls, now.runtime.syscalls);
    let mover = sooner.resolves(operator)->0;
    let sender = sooner.resolves(from)->0;
    if token::transfer_from_fault(sooner, was.granularity, operator, from, amount) is None
        && !(r is Err && r->Err_0 is Messaging) {
        let id = choose|id: ActorID|
            #![trigger token::account(id)]
            util::resolved_or_made(sooner, later, to, Ok(id)) && match ledger::move_from(
                l,
                token::account(mover),
                token::account(sender),
                token::account(id),
                amount,
            ) {
                Ok((books, _)) => {
                    &&& now.books() == Some(books)
                    &&& r is Ok ==> tells(
                        r->Ok_0,
                        to,
                        sender,
                        id,
                        mover,
                        amount,
                        operator_data,
                        token_data,
                    )
                    &&& r is Err ==> r->Err_0 is ReceiverHook
                    &&& r is Ok ==> r->Ok_0.result_data->0.operator@ == operator
                        && r->Ok_0.result_data->0.from@ == from && r->Ok_0.result_data->0.to@
                        == to
                },
                Err(fault) => r is Err && r->Err_0@ == TokenFault::State(fault)
                    && now.current() == was.current(),
            };
        util::one_is_resolved(sooner, later, to, id);
        keys::keys_differ(sender, id);
        keys::keys_differ(mover, sender);
        accounting::moving_from(
            l,
            token::account(mover),
            token::account(sender),
            token::account(id),
            amount,
        );
    }
}

/// A delegated transfer takes the amount from the owner and from the operator's allowance, and adds it
/// to the receiver. No other account, no other allowance and not the supply changes. The operator is
/// not the owner, and had enough of an allowance. The receiver is told who moved how much of whose
/// tokens, with the data of the operator and of the token each in its place.
pub proof fn a_delegated_transfer_moves_and_tells<'st, S: Syscalls>(
    tok: &mut Token<'st, S>,
    operator: &Address,
    from: &Address,
    to: &Address,
    amount: &TokenAmount,
    operator_data: RawBytes,
    token_data: RawBytes,
    r: Result<ReceiverHook<TransferFromIntermediate>, TokenError>,
)
    requires
        old(tok).books() is Some,
        call_ensures(
            Token::<'st, S>::transfer_from,
            (tok, operator, from, to, amount, operator_data, token_data),
            r,
        ),
    ensures
        transfer_from_effect(*old(tok), *final(tok), operator@, from@, to@, amount@, operator_data@, token_data@, r),
{
    lemma_transfer_from(*old(tok), *final(tok), operator@, from@, to@, amount@, operator_data@, token_data@, r);
}

/// What a call of `mint` comes to.
pub open spec fn mint_effect<'st, S: Syscalls>(
    was: Token<'st, S>,
    now: Token<'st, S>,
    operator: AddressView,
    owner: AddressView,
    amount: int,
    operator_data: Seq<u8>,
    token_data: Seq<u8>,
    r: Result<ReceiverHook<MintIntermediate>, TokenError>,
) -> bool {
    &&& now.granularity == was.granularity
    &&& (r is Ok ==> {
        let syscalls = now.runtime.syscalls;
        let minter = syscalls.resolves(operator);
        let receiver = syscalls.resolves(owner);
        &&& now.books() is Some
        &&& minter is Some && receiver is Some
        &&& remembers(was.runtime.syscalls, syscalls)
        &&& divisible(amount, was.granularity)
        &&& added(
            books_of(was),
            books_of(now),
            keys::key_of(receiver->0),
            amount,
        )
        &&& tells(
            r->Ok_0,
            owner,
            was.runtime.syscalls.actor(),
            receiver->0,
            minter->0,
            amount,
            operator_data,
            token_data,
        )
        &&& r->Ok_0.result_data->0.recipient@ == owner
    })
    &&& (r is Err && !(r->Err_0 is ReceiverHook) ==> now.current() == was.current())
    &&& (amount < 0 ==> r is Err && r->Err_0@ == (TokenFault::InvalidNegative {
        name: "mint"@,
        amount: amount,
    }))
    &&& (amount >= 0 && amount % (was.granularity as int) != 0 ==> r is Err && r->Err_0@ == (
    TokenFault::InvalidGranularity {
        name: "mint"@,
        amount: amount,
        granularity: was.granularity,
    }))
    &&& {
        let syscalls = was.runtime.syscalls;
        let books = books_of(was);
        let sum = holding(books, key_at(syscalls, owner)) + amount;
        syscalls.resolves(operator) is Some && syscalls.resolves(owner) is Some && divisible(
            amount,
            was.granularity,
        ) && sum >= 0 && books.supply >= 0 && store::storable(sum) && store::storable(amount)
            ==> r is Ok
    }
}

pub(crate) proof fn lemma_mint<'st, S: Syscalls>(
    was: Token<'st, S>,
    now: Token<'st, S>,
    operator: AddressView,
    owner: AddressView,
    amount: int,
    operator_data: Seq<u8>,
    token_data: Seq<u8>,
    r: Result<ReceiverHook<MintIntermediate>, TokenError>,
)
    requires
        was.books() is Some,
        token::minted(was, now, operator, owner, amount, operator_data, token_data, r),
    ensures
        mint_effect(was, now, operator, owner, amount, operator_data, token_data, r),
{
    let l = was.books()->0;
    let (sooner, later) = (was.runtime.syscalls, now.runtime.syscalls);
    if divisible(amount, was.granularity) && !(r is Err && r->Err_0 is Messaging) {
        let ids = choose|ids: (ActorID, ActorID)|
            #![trigger token::account(ids.1)]
            util::resolved_both(sooner, later, operator, owner, ids) && match ledger::issue(
                l,
                token::account(ids.1),
                amount,
            ) {
                Ok((books, _)) => {
                    &&& now.books() == Some(books)
                    &&& r is Ok ==> tells(
                        r->Ok_0,
                        owner,
                        sooner.actor(),
                        ids.1,
                        ids.0,
                        amount,
                        operator_data,
                        token_data,
                    )
                    &&& r is Err ==> r->Err_0 is ReceiverHook
                    &&& r is Ok ==> r->Ok_0.result_data->0.recipient@ == owner
                },
                Err(fault) => r is Err && r->Err_0@ == TokenFault::State(fault)
                    && now.current() == was.current(),
            };
        util::both_are_resolved(sooner, later, operator, owner, ids);
        accounting::issuing(l, token::account(ids.1), amount);
    }
}

/// A mint adds the amount to the owner and to the supply. No other account and no allowance changes.
/// The owner is told of it, with the token actor as where the tokens come from, the minter as operator,
/// and the data of the operator and of the token each in its place.
pub proof fn a_mint_adds_and_tells<'st, S: Syscalls>(
    tok: &mut Token<'st, S>,
    operator: &Address,
    owner: &Address,
    amount: &TokenAmount,
    operator_data: RawBytes,
    token_data: RawBytes,
    r: Result<ReceiverHook<MintIntermediate>, TokenError>,
)
    requires
        old(tok).books() is Some,
        call_ensures(
            Token::<'st, S>::mint,
            (tok, operator, owner, amount, operator_data, token_data),
            r,
        ),
    ensures
        mint_effect(*old(tok), *final(tok), operator@, owner@, amount@, operator_data@, token_data@, r),
{
    lemma_mint(*old(tok), *final(tok), operator@, owner@, amount@, operator_data@, token_data@, r);
}

/// What a call of `burn` comes to.
pub open spec fn burn_effect<'st, S: Syscalls>(
    was: Token<'st, S>,
    now: Token<'st, S>,
    owner: AddressView,
    amount: int,
    r: Result<BurnReturn, TokenError>,
) -> bool {
    &&& now.granularity == was.granularity
    &&& (r is Ok ==> {
        let syscalls = now.runtime.syscalls;
        let key = key_at(syscalls, owner);
        &&& now.books() is Some
        &&& syscalls.resolves(owner) is Some
        &&& remembers(was.runtime.syscalls, syscalls)
        &&& divisible(amount, was.granularity)
        &&& added(books_of(was), books_of(now), key, -amount)
        &&& amount > 0 ==> holding(books_of(was), key) >= amount
        &&& r->Ok_0.balance@ == holding(books_of(now), key)
    })
    &&& (r is Err ==> now.current() == was.current())
    &&& (amount < 0 ==> r is Err && r->Err_0@ == (TokenFault::InvalidNegative {
        name: "burn"@,
        amount: amount,
    }))
    &&& (amount >= 0 && amount % (was.granularity as int) != 0 ==> r is Err && r->Err_0@ == (
    TokenFault::InvalidGranularity {
        name: "burn"@,
        amount: amount,
        granularity: was.granularity,
    }))
    &&& {
        let syscalls = was.runtime.syscalls;
        let books = books_of(was);
        let left = holding(books, key_at(syscalls, owner)) - amount;
        syscalls.resolves(owner) is Some && divisible(amount, was.granularity) && left
            >= 0 && books.supply >= amount ==> r is Ok
    }
}

pub(crate) proof fn lemma_burn<'st, S: Syscalls>(
    was: Token<'st, S>,
    now: Token<'st, S>,
    owner: AddressView,
    amount: int,
    r: Result<BurnReturn, TokenError>,
)
    requires
        was.books() is Some,
        token::burnt(was, now, owner, amount, r),
    ensures
        burn_effect(was, now, owner, amount, r),
{
    let l = was.books()->0;
    let (sooner, later) = (was.runtime.syscalls, now.runtime.syscalls);
    if divisible(amount, was.granularity) && !(r is Err && r->Err_0 is Messaging) {
        let id = choose|id: ActorID|
            #![trigger token::account(id)]
            util::resolved_or_made(sooner, later, owner, Ok(id)) && match ledger::issue(
                l,
                token::account(id),
                -amount,
            ) {
                Ok((books, balance)) => r is Ok && r->Ok_0.balance@ == balance && now.books()
                    == Some(books),
                Err(fault) => r is Err && r->Err_0@ == TokenFault::State(fault),
            };
        util::one_is_resolved(sooner, later, owner, id);
        accounting::issuing(l, token::account(id), -amount);
    }
}

/// A burn takes the amount from the owner and from the supply, and returns what the owner is left with.
/// No other account and no allowance changes. Tokens that are not there are not burnt. A refused burn
/// changes nothing.
pub proof fn a_burn_takes_away<'st, S: Syscalls>(
    tok: &mut Token<'st, S>,
    owner: &Address,
    amount: &TokenAmount,
    r: Result<BurnReturn, TokenError>,
)
    requires
        old(tok).books() is Some,
        call_ensures(Token::<'st, S>::burn, (tok, owner, amount), r),
    ensures
        burn_effect(*old(tok), *final(tok), owner@, amount@, r),
{
    lemma_burn(*old(tok), *final(tok), owner@, amount@, r);
}

/// What a call of `burn_from` comes to.
pub open spec fn burn_from_effect<'st, S: Syscalls>(
    was: Token<'st, S>,
    now: Token<'st, S>,
    operator: AddressView,
    owner: AddressView,
    amount: int,
    r: Result<BurnFromReturn, TokenError>,
) -> bool {
    &&& now.granularity == was.granularity
    &&& now.runtime.syscalls == was.runtime.syscalls
    &&& (r is Ok ==> {
        let syscalls = was.runtime.syscalls;
        let before = books_of(was);
        let after = books_of(now);
        let key = key_at(syscalls, owner);
        let spender = key_at(syscalls, operator);
        &&& now.books() is Some
        &&& syscalls.resolves(owner) is Some && syscalls.resolves(operator) is Some
        &&& divisible(amount, was.granularity)
        &&& after.supply == before.supply - amount
        &&& holding(after, key) == holding(before, key) - amount
        &&& forall|k: Seq<u8>| k != key ==> #[trigger] holding(after, k) == holding(before, k)
        &&& allowed(before, after, key, spender, spendable(before, key, spender) - amount)
        &&& r->Ok_0.balance@ == holding(after, key)
        &&& r->Ok_0.allowance@ == spendable(after, key, spender)
        &&& key != spender ==> spendable(before, key, spender) != 0
        &&& amount > 0 ==> spendable(before, key, spender) >= amount && holding(before, key)
            >= amount
    })
    &&& (r is Err ==> now.current() == was.current())
    &&& (operator == owner ==> r is Err)
    &&& (!divisible(amount, was.granularity) ==> r is Err)
    &&& {
        let syscalls = was.runtime.syscalls;
        let books = books_of(was);
        let key = key_at(syscalls, owner);
        let spender = key_at(syscalls, operator);
        syscalls.resolves(owner) is Some && syscalls.resolves(operator) is Some && key
            != spender && divisible(amount, was.granularity) && spendable(
            books,
            key,
            spender,
        ) > 0 && spendable(books, key, spender) >= amount && holding(books, key) >= amount
            && books.supply >= amount ==> r is Ok
    }
}

pub(crate) proof fn lemma_burn_from<'st, S: Syscalls>(
    was: Token<'st, S>,
    now: Token<'st, S>,
    operator: AddressView,
    owner: AddressView,
    amount: int,
    r: Result<BurnFromReturn, TokenError>,
)
    requires
        was.books() is Some,
        token::burnt_from(was, now, operator, owner, amount, r),
    ensures
        burn_from_effect(was, now, operator, owner, amount, r),
{
    let syscalls = was.runtime.syscalls;
    if token::burn_from_fault(syscalls, was.granularity, operator, owner, amount) is None {
        let spender = token::account(syscalls.resolves(operator)->0);
        let holder = token::account(syscalls.resolves(owner)->0);
        keys::keys_differ(spender.id, holder.id);
        accounting::burning_from(was.books()->0, spender, holder, amount);
    }
}

/// A delegated burn takes the amount from the owner, from the supply and from the operator's allowance.
/// It returns what is left of the balance as the balance and what is left of the allowance as the
/// allowance. No other account and no other allowance changes. The operator is not the owner, and had
/// enough of an allowance. A refused burn changes nothing.
pub proof fn a_delegated_burn_takes_away<'st, S: Syscalls>(
    tok: &mut Token<'st, S>,
    operator: &Address,
    owner: &Address,
    amount: &TokenAmount,
    r: Result<BurnFromReturn, TokenError>,
)
    requires
        old(tok).books() is Some,
        call_ensures(Token::<'st, S>::burn_from, (tok, operator, owner, amount), r),
    ensures
        burn_from_effect(*old(tok), *final(tok), operator@, owner@, amount@, r),
{
    lemma_burn_from(*old(tok), *final(tok), operator@, owner@, amount@, r);
}

/// What a delegated burn returns agrees with what is then read: its balance is the owner's balance, and
/// its allowance what the operator may still spend.
pub proof fn a_delegated_burn_agrees_with_what_is_read<'st, S: Syscalls>(
    tok: &mut Token<'st, S>,
    operator: &Address,
    owner: &Address,
    amount: &TokenAmount,
    r: Result<BurnFromReturn, TokenError>,
    balance: Result<TokenAmount, TokenError>,
    allowance: Result<TokenAmount, TokenError>,
)
    requires
        old(tok).books() is Some,
        call_ensures(Token::<'st, S>::burn_from, (tok, operator, owner, amount), r),
        r is Ok,
        call_ensures(Token::<'st, S>::balance_of, (&*final(tok), owner), balance),
        call_ensures(Token::<'st, S>::allowance, (&*final(tok), owner, operator), allowance),
    ensures
        balance is Ok && balance->Ok_0@ == r->Ok_0.balance@,
        allowance is Ok && allowance->Ok_0@ == r->Ok_0.allowance@,
{
    a_delegated_burn_takes_away(tok, operator, owner, amount, r);
    let syscalls = old(tok).runtime.syscalls;
    accounting::books_are_read(
        books_of(*final(tok)),
        key_at(syscalls, owner@),
        key_at(syscalls, operator@),
    );
}

/// What is read is what the books hold: the balance of an address, what one address may spend of
/// another's tokens, and the supply. An address that stands for no actor has nothing.
pub proof fn the_books_are_read<'st, S: Syscalls>(
    tok: Token<'st, S>,
    owner: &Address,
    operator: &Address,
    balance: Result<TokenAmount, TokenError>,
    allowance: Result<TokenAmount, TokenError>,
    supply: TokenAmount,
)
    requires
        tok.books() is Some,
        call_ensures(Token::<'st, S>::balance_of, (&tok, owner), balance),
        call_ensures(Token::<'st, S>::allowance, (&tok, owner, operator), allowance),
        call_ensures(Token::<'st, S>::total_supply, (&tok,), supply),
    ensures
        ({
            let syscalls = tok.runtime.syscalls;
            let key = key_at(syscalls, owner@);
            let spender = key_at(syscalls, operator@);
            &&& balance is Ok && allowance is Ok
            &&& balance->Ok_0@ == if syscalls.resolves(owner@) is Some {
                holding(books_of(tok), key)
            } else {
                0
            }
            &&& allowance->Ok_0@ == if syscalls.resolves(owner@) is Some && syscalls.resolves(
                operator@,
            ) is Some {
                spendable(books_of(tok), key, spender)
            } else {
                0
            }
            &&& supply@ == books_of(tok).supply
        }),
{
    let syscalls = tok.runtime.syscalls;
    accounting::books_are_read(
        books_of(tok),
        key_at(syscalls, owner@),
        key_at(syscalls, operator@),
    );
}

/// What a mint or a transfer returns in the end agrees with what the books then hold: the balances of
/// those it names, the allowance between them, the supply, and the data that the receiver gave back.
pub proof fn returns_agree_with_the_books<'st, S: Syscalls>(
    tok: Token<'st, S>,
    minting: MintIntermediate,
    sending: TransferIntermediate,
    moving: TransferFromIntermediate,
    minted: Result<MintReturn, TokenError>,
    sent: Result<TransferReturn, TokenError>,
    delegated: Result<TransferFromReturn, TokenError>,
)
    requires
        tok.books() is Some,
        tok.runtime.syscalls.resolves(minting.recipient@) is Some,
        tok.runtime.syscalls.resolves(sending.from@) is Some,
        tok.runtime.syscalls.resolves(sending.to@) is Some,
        tok.runtime.syscalls.resolves(moving.operator@) is Some,
        tok.runtime.syscalls.resolves(moving.from@) is Some,
        tok.runtime.syscalls.resolves(moving.to@) is Some,
        call_ensures(Token::<'st, S>::mint_return, (&tok, minting), minted),
        call_ensures(Token::<'st, S>::transfer_return, (&tok, sending), sent),
        call_ensures(Token::<'st, S>::transfer_from_return, (&tok, moving), delegated),
    ensures
        ({
            let syscalls = tok.runtime.syscalls;
            let books = books_of(tok);
            &&& minted is Ok && sent is Ok && delegated is Ok
            &&& minted->Ok_0.balance@ == holding(books, key_at(syscalls, minting.recipient@))
            &&& minted->Ok_0.supply@ == books.supply
            &&& minted->Ok_0.recipient_data@ == minting.recipient_data@
            &&& sent->Ok_0.from_balance@ == holding(books, key_at(syscalls, sending.from@))
            &&& sent->Ok_0.to_balance@ == holding(books, key_at(syscalls, sending.to@))
            &&& sent->Ok_0.recipient_data@ == sending.recipient_data@
            &&& delegated->Ok_0.from_balance@ == holding(books, key_at(syscalls, moving.from@))
            &&& delegated->Ok_0.to_balance@ == holding(books, key_at(syscalls, moving.to@))
            &&& delegated->Ok_0.allowance@ == spendable(
                books,
                key_at(syscalls, moving.from@),
                key_at(syscalls, moving.operator@),
            )
            &&& delegated->Ok_0.recipient_data@ == moving.recipient_data@
        }),
{
    let syscalls = tok.runtime.syscalls;
    accounting::books_are_read(
        books_of(tok),
        key_at(syscalls, moving.from@),
        key_at(syscalls, moving.operator@),
    );
}

/// What a call of `increase_allowance` comes to.
pub open spec fn increase_allowance_effect<'st, S: Syscalls>(
    was: Token<'st, S>,
    now: Token<'st, S>,
    owner: AddressView,
    operator: AddressView,
    delta: int,
    r: Result<TokenAmount, TokenError>,
) -> bool {
    &&& now.granularity == was.granularity
    &&& (r is Ok ==> {
        let syscalls = now.runtime.syscalls;
        let before = books_of(was);
        let after = books_of(now);
        let key = key_at(syscalls, owner);
        let spender = key_at(syscalls, operator);
        let had = spendable(before, key, spender);
        &&& now.books() is Some
        &&& syscalls.resolves(owner) is Some && syscalls.resolves(operator) is Some
        &&& remembers(was.runtime.syscalls, syscalls)
        &&& delta >= 0
        &&& holds_same(before, after)
        &&& had + delta >= 0 || delta == 0 ==> allowed(
            before,
            after,
            key,
            spender,
            had + delta,
        )
        &&& r->Ok_0@ == spendable(after, key, spender)
    })
    &&& (r is Err ==> now.current() == was.current())
    &&& (delta < 0 ==> r is Err && r->Err_0 is InvalidNegative)
    &&& {
        let syscalls = was.runtime.syscalls;
        let books = books_of(was);
        let had = spendable(books, key_at(syscalls, owner), key_at(syscalls, operator));
        let new = had + delta;
        syscalls.resolves(owner) is Some && syscalls.resolves(operator) is Some && delta >= 0
            && store::storable(if new < 0 {
            0
        } else {
            new
        }) ==> r is Ok
    }
}

pub(crate) proof fn lemma_increase_allowance<'st, S: Syscalls>(
    was: Token<'st, S>,
    now: Token<'st, S>,
    owner: AddressView,
    operator: AddressView,
    delta: int,
    r: Result<TokenAmount, TokenError>,
)
    requires
        was.books() is Some,
        token::allowance_increased(was, now, owner, operator, delta, r),
    ensures
        increase_allowance_effect(was, now, owner, operator, delta, r),
{
    let l = was.books()->0;
    let (sooner, later) = (was.runtime.syscalls, now.runtime.syscalls);
    if delta >= 0 && !(r is Err && r->Err_0 is Messaging) {
        let ids = choose|ids: (ActorID, ActorID)|
            #![trigger token::account(ids.0), token::account(ids.1)]
            util::resolved_both(sooner, later, owner, operator, ids) && token::settled(
                Some(l),
                now.books(),
                r,
                ledger::change_allowance(
                    l,
                    token::account(ids.0).key,
                    token::account(ids.1).key,
                    delta,
                ),
            );
        util::both_are_resolved(sooner, later, owner, operator, ids);
        accounting::changing_an_allowance(
            l,
            keys::key_of(ids.0),
            keys::key_of(ids.1),
            delta,
        );
    }
}

/// Raising an allowance adds to it and returns the new one. No other allowance, no balance and not the
/// supply changes. A refused change changes nothing.
pub proof fn raising_an_allowance_adds_to_it<'st, S: Syscalls>(
    tok: &mut Token<'st, S>,
    owner: &Address,
    operator: &Address,
    delta: &TokenAmount,
    r: Result<TokenAmount, TokenError>,
)
    requires
        old(tok).books() is Some,
        call_ensures(Token::<'st, S>::increase_allowance, (tok, owner, operator, delta), r),
    ensures
        increase_allowance_effect(*old(tok), *final(tok), owner@, operator@, delta@, r),
{
    lemma_increase_allowance(*old(tok), *final(tok), owner@, operator@, delta@, r);
}

/// What a call of `decrease_allowance` comes to.
pub open spec fn decrease_allowance_effect<'st, S: Syscalls>(
    was: Token<'st, S>,
    now: Token<'st, S>,
    owner: AddressView,
    operator: AddressView,
    delta: int,
    r: Result<TokenAmount, TokenError>,
) -> bool {
    &&& now.granularity == was.granularity
    &&& (r is Ok ==> {
        let syscalls = now.runtime.syscalls;
        let before = books_of(was);
        let after = books_of(now);
        let key = key_at(syscalls, owner);
        let spender = key_at(syscalls, operator);
        let had = spendable(before, key, spender);
        &&& now.books() is Some
        &&& syscalls.resolves(owner) is Some && syscalls.resolves(operator) is Some
        &&& remembers(was.runtime.syscalls, syscalls)
        &&& delta >= 0
        &&& holds_same(before, after)
        &&& allowed(before, after, key, spender, if had < delta && delta > 0 {
            0
        } else {
            had - delta
        })
        &&& r->Ok_0@ == spendable(after, key, spender)
    })
    &&& (r is Err ==> now.current() == was.current())
    &&& (delta < 0 ==> r is Err && r->Err_0 is InvalidNegative)
    &&& {
        let syscalls = was.runtime.syscalls;
        let books = books_of(was);
        let had = spendable(books, key_at(syscalls, owner), key_at(syscalls, operator));
        let new = had - delta;
        syscalls.resolves(owner) is Some && syscalls.resolves(operator) is Some && delta >= 0
            && store::storable(if new < 0 {
            0
        } else {
            new
        }) ==> r is Ok
    }
}

pub(crate) proof fn lemma_decrease_allowance<'st, S: Syscalls>(
    was: Token<'st, S>,
    now: Token<'st, S>,
    owner: AddressView,
    operator: AddressView,
    delta: int,
    r: Result<TokenAmount, TokenError>,
)
    requires
        was.books() is Some,
        token::allowance_decreased(was, now, owner, operator, delta, r),
    ensures
        decrease_allowance_effect(was, now, owner, operator, delta, r),
{
    let l = was.books()->0;
    let (sooner, later) = (was.runtime.syscalls, now.runtime.syscalls);
    if delta >= 0 && !(r is Err && r->Err_0 is Messaging) {
        let ids = choose|ids: (ActorID, ActorID)|
            #![trigger token::account(ids.0), token::account(ids.1)]
            util::resolved_both(sooner, later, owner, operator, ids) && token::settled(
                Some(l),
                now.books(),
                r,
                ledger::change_allowance(
                    l,
                    token::account(ids.0).key,
                    token::account(ids.1).key,
                    -delta,
                ),
            );
        util::both_are_resolved(sooner, later, owner, operator, ids);
        accounting::changing_an_allowance(
            l,
            keys::key_of(ids.0),
            keys::key_of(ids.1),
            -delta,
        );
    }
}

/// Lowering an allowance takes from it down to nothing and returns the new one. No other allowance, no
/// balance and not the supply changes. A refused change changes nothing.
pub proof fn lowering_an_allowance_takes_from_it<'st, S: Syscalls>(
    tok: &mut Token<'st, S>,
    owner: &Address,
    operator: &Address,
    delta: &TokenAmount,
    r: Result<TokenAmount, TokenError>,
)
    requires
        old(tok).books() is Some,
        call_ensures(Token::<'st, S>::decrease_allowance, (tok, owner, operator, delta), r),
    ensures
        decrease_allowance_effect(*old(tok), *final(tok), owner@, operator@, delta@, r),
{
    lemma_decrease_allowance(*old(tok), *final(tok), owner@, operator@, delta@, r);
}

/// What a call of `revoke_allowance` comes to.
pub open spec fn revoke_allowance_effect<'st, S: Syscalls>(
    was: Token<'st, S>,
    now: Token<'st, S>,
    owner: AddressView,
    operator: AddressView,
    r: Result<TokenAmount, TokenError>,
) -> bool {
    &&& r is Ok
    &&& now.books() is Some
    &&& {
        let syscalls = was.runtime.syscalls;
        let before = books_of(was);
        let after = books_of(now);
        let key = key_at(syscalls, owner);
        let spender = key_at(syscalls, operator);
        if syscalls.resolves(owner) is Some && syscalls.resolves(operator) is Some {
            &&& holds_same(before, after)
            &&& allowed(before, after, key, spender, 0)
            &&& r->Ok_0@ == spendable(before, key, spender)
        } else {
            r->Ok_0@ == 0 && after == before
        }
    }
}

pub(crate) proof fn lemma_revoke_allowance<'st, S: Syscalls>(
    was: Token<'st, S>,
    now: Token<'st, S>,
    owner: AddressView,
    operator: AddressView,
    r: Result<TokenAmount, TokenError>,
)
    requires
        was.books() is Some,
        token::revoked(was, now, owner, operator, r),
    ensures
        revoke_allowance_effect(was, now, owner, operator, r),
{
    let syscalls = was.runtime.syscalls;
    accounting::revoking(
        was.books()->0,
        key_at(syscalls, owner),
        key_at(syscalls, operator),
    );
}

/// Taking an allowance back leaves none and returns the old one. No other allowance, no balance and not
/// the supply changes. It is not refused, and makes no accounts.
pub proof fn revoking_leaves_no_allowance<'st, S: Syscalls>(
    tok: &mut Token<'st, S>,
    owner: &Address,
    operator: &Address,
    r: Result<TokenAmount, TokenError>,
)
    requires
        old(tok).books() is Some,
        call_ensures(Token::<'st, S>::revoke_allowance, (tok, owner, operator), r),
    ensures
        final(tok).granularity == old(tok).granularity,
        final(tok).runtime.syscalls == old(tok).runtime.syscalls,
        revoke_allowance_effect(*old(tok), *final(tok), owner@, operator@, r),
{
    lemma_revoke_allowance(*old(tok), *final(tok), owner@, operator@, r);
}

/// Setting an allowance sets it and returns the old one. No other allowance, no balance and not the
/// supply changes. A refused change changes nothing.
pub proof fn setting_an_allowance_sets_it<'st, S: Syscalls>(
    tok: &mut Token<'st, S>,
    owner: &Address,
    operator: &Address,
    amount: &TokenAmount,
    r: Result<TokenAmount, TokenError>,
)
    requires
        old(tok).books() is Some,
        call_ensures(Token::<'st, S>::set_allowance, (tok, owner, operator, amount), r),
    ensures
        final(tok).granularity == old(tok).granularity,
        r is Ok ==> {
            let syscalls = final(tok).runtime.syscalls;
            let before = books_of(*old(tok));
            let after = books_of(*final(tok));
            let key = key_at(syscalls, owner@);
            let spender = key_at(syscalls, operator@);
            &&& final(tok).books() is Some
            &&& remembers(old(tok).runtime.syscalls, syscalls)
            &&& amount@ >= 0
            &&& amount@ > 0 ==> syscalls.resolves(owner@) is Some && syscalls.resolves(
                operator@,
            ) is Some
            &&& holds_same(before, after)
            &&& if syscalls.resolves(owner@) is Some && syscalls.resolves(operator@) is Some {
                &&& allowed(before, after, key, spender, amount@)
                &&& r->Ok_0@ == spendable(before, key, spender)
            } else {
                r->Ok_0@ == 0 && after == before
            }
        },
        r is Err ==> *final(tok).state == *old(tok).state,
        amount@ < 0 ==> r is Err && r->Err_0 is InvalidNegative,
        ({
            let syscalls = old(tok).runtime.syscalls;
            syscalls.resolves(owner@) is Some && syscalls.resolves(operator@) is Some && amount@ >= 0
                && store::storable(amount@) ==> r is Ok
        }),
{
    let l = old(tok).books()->0;
    let (sooner, later) = (old(tok).runtime.syscalls, final(tok).runtime.syscalls);
    if amount@ == 0 {
        accounting::revoking(l, key_at(sooner, owner@), key_at(sooner, operator@));
    } else if amount@ > 0 && !(r is Err && r->Err_0 is Messaging) {
        let ids = choose|ids: (ActorID, ActorID)|
            #![trigger token::account(ids.0), token::account(ids.1)]
            util::resolved_both(sooner, later, owner@, operator@, ids) && token::settled(
                Some(l),
                final(tok).books(),
                r,
                ledger::set_allowance(
                    l,
                    ids.0,
                    token::account(ids.0).key,
                    ids.1,
                    token::account(ids.1).key,
                    amount@,
                ),
            );
        util::both_are_resolved(sooner, later, owner@, operator@, ids);
        accounting::setting_an_allowance(
            l,
            token::account(ids.0),
            token::account(ids.1),
            amount@,
        );
    }
}

/// Setting a balance sets it, changes the supply by the difference, and returns the old balance. No
/// other account and no allowance changes. A refused change changes nothing.
pub proof fn setting_a_balance_sets_it<'st, S: Syscalls>(
    tok: &mut Token<'st, S>,
    owner: &Address,
    amount: &TokenAmount,
    r: Result<TokenAmount, TokenError>,
)
    requires
        old(tok).books() is Some,
        call_ensures(Token::<'st, S>::set_balance, (tok, owner, amount), r),
    ensures
        final(tok).granularity == old(tok).granularity,
        r is Ok ==> {
            let syscalls = final(tok).runtime.syscalls;
            let before = books_of(*old(tok));
            let after = books_of(*final(tok));
            let key = key_at(syscalls, owner@);
            &&& final(tok).books() is Some
            &&& syscalls.resolves(owner@) is Some
            &&& remembers(old(tok).runtime.syscalls, syscalls)
            &&& divisible(amount@, old(tok).granularity)
            &&& added(before, after, key, amount@ - holding(before, key))
            &&& holding(after, key) == amount@
            &&& r->Ok_0@ == holding(before, key)
        },
        r is Err ==> *final(tok).state == *old(tok).state,
        !divisible(amount@, old(tok).granularity) ==> r is Err,
        old(tok).runtime.syscalls.resolves(owner@) is Some && divisible(
            amount@,
            old(tok).granularity,
        ) && store::storable(amount@) ==> r is Ok,
{
    let l = old(tok).books()->0;
    let (sooner, later) = (old(tok).runtime.syscalls, final(tok).runtime.syscalls);
    if divisible(amount@, old(tok).granularity) && !(r is Err && r->Err_0 is Messaging) {
        let id = choose|id: ActorID|
            #![trigger token::account(id)]
            util::resolved_or_made(sooner, later, owner@, Ok(id)) && match ledger::reset_balance(
                l,
                token::account(id),
                amount@,
            ) {
                Ok((books, was)) => r is Ok && r->Ok_0@ == was && final(tok).books() == Some(books),
                Err(fault) => r is Err && r->Err_0@ == TokenFault::State(fault),
            };
        util::one_is_resolved(sooner, later, owner@, id);
        accounting::setting_a_balance(l, token::account(id), amount@);
    }
}

/// When the hook of a transfer is called, one message goes out. It goes to the receiver, without funds,
/// and carries who sent how much to whom and the data of the operator and of the token unchanged.
pub proof fn the_receiver_is_sent_the_data<'st, S: Syscalls>(
    tok: &mut Token<'st, S>,
    from: &Address,
    to: &Address,
    amount: &TokenAmount,
    operator_data: RawBytes,
    token_data: RawBytes,
    r: Result<ReceiverHook<TransferIntermediate>, TokenError>,
    hook: &mut ReceiverHook<TransferIntermediate>,
    runtime: &mut ActorRuntime<S>,
    answer: Result<TransferIntermediate, ReceiverHookError>,
)
    requires
        old(tok).books() is Some,
        call_ensures(
            Token::<'st, S>::transfer,
            (tok, from, to, amount, operator_data, token_data),
            r,
        ),
        r is Ok,
        *old(hook) == r->Ok_0,
        call_ensures(
            ReceiverHook::<TransferIntermediate>::call::<ActorRuntime<S>>,
            (hook, runtime),
            answer,
        ),
    ensures
        ({
            let sender = final(tok).runtime.syscalls.resolves(from@)->0;
            let receiver = final(tok).runtime.syscalls.resolves(to@)->0;
            let payload = received_cbor(
                sender,
                receiver,
                sender,
                amount@,
                operator_data@,
                token_data@,
            );
            final(runtime).syscalls.sent() == old(runtime).syscalls.sent().push(
                Message {
                    to: to@,
                    method: RECEIVER_HOOK_METHOD_NUM,
                    params: Some((CBOR, universal_cbor(FRC46_TOKEN_TYPE, payload))),
                    value: 0,
                },
            )
        }),
        answer is Ok ==> answer->Ok_0.from@ == from@ && answer->Ok_0.to@ == to@,
        final(hook).called,
{
    a_transfer_moves_and_tells(tok, from, to, amount, operator_data, token_data, r);
}

/// An amount passes where it is not negative and a multiple of the granularity, an allowance where it is
/// not negative. What passes is handed back.
pub proof fn amounts_are_validated(
    a: &TokenAmount,
    name: &'static str,
    granularity: u64,
    amount: Result<&TokenAmount, TokenError>,
    allowance: Result<&TokenAmount, TokenError>,
)
    requires
        granularity > 0,
        call_ensures(token::validate_amount_with_granularity, (a, name, granularity), amount),
        call_ensures(token::validate_allowance, (a, name), allowance),
    ensures
        amount is Ok == divisible(a@, granularity),
        amount is Ok ==> amount->Ok_0@ == a@,
        allowance is Ok == (a@ >= 0),
        allowance is Ok ==> allowance->Ok_0@ == a@,
        a@ < 0 ==> amount->Err_0 is InvalidNegative && amount->Err_0->InvalidNegative_amount@ == a@
            && amount->Err_0->InvalidNegative_name@ == name@,
        a@ < 0 ==> allowance->Err_0 is InvalidNegative && allowance->Err_0->InvalidNegative_amount@
            == a@ && allowance->Err_0->InvalidNegative_name@ == name@,
        a@ >= 0 && amount is Err ==> amount->Err_0 is InvalidGranularity
            && amount->Err_0->InvalidGranularity_amount@ == a@
            && amount->Err_0->InvalidGranularity_granularity == granularity
            && amount->Err_0->InvalidGranularity_name@ == name@,
{
}

/// What is flushed is what is loaded, and what takes the place of another state. What was replaced is
/// handed back. Where there is nothing to load, the state stays.
pub proof fn what_is_flushed_is_loaded<'st, S: Syscalls>(
    tok: &mut Token<'st, S>,
    other: &mut Token<'st, S>,
    third: &mut Token<'st, S>,
    flushed: Result<Cid, TokenError>,
    loaded: Result<TokenState, TokenError>,
    replaced: Result<TokenState, TokenError>,
    state: TokenState,
    was: TokenState,
)
    requires
        call_ensures(Token::<'st, S>::flush, (tok,), flushed),
        flushed is Ok,
        call_ensures(
            Token::<'st, S>::load_state,
            (&final(tok).runtime.blockstore, &flushed->Ok_0),
            loaded,
        ),
        old(other).runtime.blockstore == final(tok).runtime.blockstore,
        call_ensures(Token::<'st, S>::load_replace, (other, &flushed->Ok_0), replaced),
        call_ensures(Token::<'st, S>::replace, (third, state), was),
    ensures
        *final(tok).state == *old(tok).state,
        loaded is Ok,
        loaded->Ok_0.supply@ == old(tok).state.supply@,
        loaded->Ok_0.balances@ == old(tok).state.balances@,
        loaded->Ok_0.allowances@ == old(tok).state.allowances@,
        loaded->Ok_0.hamt_bit_width == old(tok).state.hamt_bit_width,
        replaced is Ok && replaced->Ok_0 == *old(other).state,
        final(other).state.supply@ == old(tok).state.supply@,
        final(other).state.balances@ == old(tok).state.balances@,
        final(other).state.allowances@ == old(tok).state.allowances@,
        final(other).state.hamt_bit_width == old(tok).state.hamt_bit_width,
        was == *old(third).state && *final(third).state == state,
{
}

/// A new state has no tokens, whatever the width of its trees.
pub proof fn a_new_state_is_empty<'st, S: Syscalls>(
    bs: &mut Store,
    cs: &mut Store,
    width: u32,
    plain: Result<TokenState, TokenError>,
    wide: Result<TokenState, TokenError>,
)
    requires
        1 <= width <= 8,
        call_ensures(Token::<'st, S>::create_state, (bs,), plain),
        call_ensures(Token::<'st, S>::create_state_with_bit_width, (cs, width), wide),
    ensures
        plain is Ok && wide is Ok,
        wide->Ok_0.hamt_bit_width == width,
        plain->Ok_0.ledger(final(bs)@) is Some && wide->Ok_0.ledger(final(cs)@) is Some,
        plain->Ok_0.ledger(final(bs)@)->0.supply == 0,
        wide->Ok_0.ledger(final(cs)@)->0.supply == 0,
        forall|k: Seq<u8>| #[trigger] holding(plain->Ok_0.ledger(final(bs)@)->0, k) == 0,
        forall|k: Seq<u8>| #[trigger] holding(wide->Ok_0.ledger(final(cs)@)->0, k) == 0,
        forall|a: Seq<u8>, b: Seq<u8>| #[trigger]
            spendable(plain->Ok_0.ledger(final(bs)@)->0, a, b) == 0,
        forall|a: Seq<u8>, b: Seq<u8>| #[trigger]
            spendable(wide->Ok_0.ledger(final(cs)@)->0, a, b) == 0,
{
}

/// A check of a token succeeds just where its books are in order, and then shows them.
pub proof fn a_check_finds_what_is_wrong<'st, S: Syscalls>(
    tok: Token<'st, S>,
    checked: Result<StateSummary<'_>, StateInvariantError>,
    asserted: Result<StateSummary<'_>, Vec<StateInvariantError>>,
)
    requires
        tok.books() is Some,
        call_ensures(Token::<'st, S>::check_invariants, (&tok,), checked),
        call_ensures(Token::<'st, S>::assert_invariants, (&tok,), asserted),
    ensures
        checked is Ok == in_order(books_of(tok), tok.granularity),
        asserted is Ok == in_order(books_of(tok), tok.granularity),
        checked is Ok ==> checked->Ok_0.total_supply@ == books_of(tok).supply
            && checked->Ok_0.balance_map@ == Some(books_of(tok).balances),
        asserted is Err ==> asserted->Err_0@.len() == 1,
{
    state_promises::rules_of_sound_books(books_of(tok), tok.granularity);
}

/// A transaction that fails leaves the state as it was; one that succeeds leaves the state as the work
/// left it, which began with the state as it was.
pub proof fn a_failed_transaction_changes_nothing<
    'st,
    S: Syscalls,
    Res,
    F: FnOnce(&mut TokenState, &mut ActorRuntime<S>) -> Result<Res, TokenError>,
>(tok: &mut Token<'st, S>, f: F, r: Result<Res, TokenError>)
    requires
        call_ensures(Token::<'st, S>::transaction::<F, Res>, (tok, f), r),
    ensures
        r is Err ==> *final(tok).state == *old(tok).state,
        r is Ok ==> exists|state: &mut TokenState, runtime: &mut ActorRuntime<S>|
            {
                &&& #[trigger] f.ensures((state, runtime), r)
                &&& state.supply@ == old(tok).state.supply@
                &&& state.balances@ == old(tok).state.balances@
                &&& state.allowances@ == old(tok).state.allowances@
                &&& *runtime == old(tok).runtime
                &&& *final(tok).state == *final(state)
                &&& final(tok).runtime == *final(runtime)
            },
{
}

/// An operator who stands for no actor has no allowance: moving and burning tokens of another is refused
/// for want of an allowance, with whose tokens, who wants them, that there is none, and the amount. Who
/// is the owner is refused as an operator. Nothing changes.
pub proof fn unknown_operators_are_refused<'st, S: Syscalls>(
    tok: &mut Token<'st, S>,
    other: &mut Token<'st, S>,
    operator: &Address,
    owner: &Address,
    to: &Address,
    amount: &TokenAmount,
    operator_data: RawBytes,
    token_data: RawBytes,
    moved: Result<ReceiverHook<TransferFromIntermediate>, TokenError>,
    burnt: Result<BurnFromReturn, TokenError>,
)
    requires
        divisible(amount@, old(tok).granularity),
        divisible(amount@, old(other).granularity),
        old(tok).runtime.syscalls.resolves(operator@) is None,
        old(other).runtime.syscalls.resolves(operator@) is None,
        call_ensures(
            Token::<'st, S>::transfer_from,
            (tok, operator, owner, to, amount, operator_data, token_data),
            moved,
        ),
        call_ensures(Token::<'st, S>::burn_from, (other, operator, owner, amount), burnt),
    ensures
        moved is Err && burnt is Err,
        *final(tok).state == *old(tok).state && final(tok).runtime == old(tok).runtime,
        *final(other).state == *old(other).state && final(other).runtime == old(other).runtime,
        operator@ == owner@ ==> {
            &&& moved->Err_0 is InvalidOperator && moved->Err_0->InvalidOperator_0@ == operator@
            &&& burnt->Err_0 is InvalidOperator && burnt->Err_0->InvalidOperator_0@ == operator@
        },
        operator@ != owner@ ==> {
            let a = moved->Err_0->TokenState_0;
            let b = burnt->Err_0->TokenState_0;
            &&& moved->Err_0 is TokenState && burnt->Err_0 is TokenState
            &&& a is InsufficientAllowance && b is InsufficientAllowance
            &&& a->InsufficientAllowance_owner@ == owner@
            &&& a->InsufficientAllowance_operator@ == operator@
            &&& a->InsufficientAllowance_allowance@ == 0
            &&& a->InsufficientAllowance_delta@ == amount@
            &&& b->InsufficientAllowance_owner@ == owner@
            &&& b->InsufficientAllowance_operator@ == operator@
            &&& b->InsufficientAllowance_allowance@ == 0
            &&& b->InsufficientAllowance_delta@ == amount@
        },
{
}

} // verus!
