//! What the operations of a transaction are for, said of what goes in and what comes out.
use vstd::prelude::*;

use crate::accounting;
use crate::accounting::{
    added, allowed, divisible, holding, holds_same, moved, spendable, spends_same,
};
use crate::address::AddressView;
use crate::amount::TokenAmount;
use crate::bytes::{ActorID, RawBytes, CBOR};
use crate::fil_fungible_token::promises::{actor_at, books_of};
use crate::fil_fungible_token::state;
use crate::fil_fungible_token::state::TokenState;
use crate::fil_fungible_token::token;
use crate::fil_fungible_token::token::Token;
use crate::fil_fungible_token::transaction;
use crate::fil_fungible_token::transaction::{
    TokenTransaction, TokenTransactionError, TransactionOutcome,
};
use crate::fvm_actor_utils::messaging::RECEIVER_HOOK_METHOD_NUM;
use crate::fvm_actor_utils::receiver::{received_cbor, Received};
use crate::fvm_actor_utils::syscalls::{Message, Syscalls};
use crate::fvm_actor_utils::util;
use crate::ledger;
use crate::ledger::{Ledger, StateFault};
use crate::store;

verus! {

/// Whether two states have the same supply and trees.
pub open spec fn same_state(a: TokenState, b: TokenState) -> bool {
    a.supply@ == b.supply@ && a.balances@ == b.balances@ && a.allowances@ == b.allowances@
}

/// Whether a transaction was still to be carried out, and an operation did not fail.
pub open spec fn went_well<'st, S: Syscalls>(
    before: TokenTransaction<'st, S>,
    after: TokenTransaction<'st, S>,
) -> bool {
    !before.needs_rollback && !after.needs_rollback
}

/// A new transaction goes back to the state that the token has, and nothing was done or failed yet.
pub proof fn a_transaction_begins_with_the_state<'st, S: Syscalls>(
    tok: Token<'st, S>,
    r: TokenTransaction<'st, S>,
)
    requires
        call_ensures(TokenTransaction::<'st, S>::new, (tok,), r),
    ensures
        same_state(r.base, r.token.current()),
        !r.needs_rollback && !r.state_dirty,
{
}

/// A transaction of which an operation failed after the state was changed ends with the state that it
/// began with, and says so. Any other ends with the state as it is. Either way the root that is
/// returned is that of the state at the end.
pub proof fn a_transaction_ends_all_or_nothing<'st, S: Syscalls>(
    tx: &mut TokenTransaction<'st, S>,
    r: Result<TransactionOutcome, TokenTransactionError>,
)
    requires
        call_ensures(TokenTransaction::<'st, S>::flush, (tx,), r),
    ensures
        old(tx).needs_rollback && old(tx).state_dirty ==> same_state(
            final(tx).token.current(),
            old(tx).base,
        ) && (r is Ok ==> r->Ok_0 is Reverted),
        !(old(tx).needs_rollback && old(tx).state_dirty) ==> final(tx).token.current()
            == old(tx).token.current() && (r is Ok ==> r->Ok_0 is Succeeded),
        r is Ok ==> {
            let root = if r->Ok_0 is Reverted {
                r->Ok_0->Reverted_0@
            } else {
                r->Ok_0->Succeeded_0@
            };
            state::state_record(final(tx).token.runtime.blockstore@[root]) == Some(
                final(tx).token.current().record(),
            )
        },
        store::storable(final(tx).token.current().supply@) ==> r is Ok,
{
}

/// Raising an allowance in a transaction adds to it, and touches no other allowance, no balance and not the
/// supply. Where it fails, the transaction is to be rolled back and the state stays. After a failure
/// nothing is done.
pub proof fn raising_an_allowance_adds_to_it<'st, S: Syscalls>(
    tx: &mut TokenTransaction<'st, S>,
    owner: ActorID,
    spender: ActorID,
    delta: &TokenAmount,
    r: (),
)
    requires
        old(tx).token.books() is Some,
        call_ensures(TokenTransaction::<'st, S>::increase_allowance, (tx, owner, spender, delta), r),
    ensures
        final(tx).base == old(tx).base,
        final(tx).state_dirty,
        old(tx).needs_rollback ==> final(tx).needs_rollback && final(tx).token == old(tx).token,
        final(tx).needs_rollback ==> final(tx).token.current() == old(tx).token.current(),
        went_well(*old(tx), *final(tx)) ==> {
            let syscalls = final(tx).token.runtime.syscalls;
            let before = books_of(old(tx).token);
            let after = books_of(final(tx).token);
            let a = actor_at(syscalls, AddressView::ID(owner));
            let b = actor_at(syscalls, AddressView::ID(spender));
            let had = spendable(before, a, b);
            &&& final(tx).token.books() is Some
            &&& divisible(delta@, old(tx).token.granularity)
            &&& holds_same(before, after)
            &&& had + delta@ >= 0 || delta@ == 0 ==> allowed(before, after, a, b, had + delta@)
        },
        ({
            let syscalls = old(tx).token.runtime.syscalls;
            let (x, y) = (AddressView::ID(owner), AddressView::ID(spender));
            let new = spendable(
                books_of(old(tx).token),
                actor_at(syscalls, x),
                actor_at(syscalls, y),
            ) + delta@;
            !old(tx).needs_rollback && syscalls.resolves(x) is Some && syscalls.resolves(y) is Some
                && divisible(delta@, old(tx).token.granularity) && store::storable(if new < 0 {
                0
            } else {
                new
            }) ==> !final(tx).needs_rollback
        }),
{
    let l = old(tx).token.books()->0;
    let (sooner, later) = (old(tx).token.runtime.syscalls, final(tx).token.runtime.syscalls);
    let (x, y) = (AddressView::ID(owner), AddressView::ID(spender));
    let refused = final(tx).needs_rollback && transaction::allowance_refused(
        old(tx).token,
        later,
        owner,
        spender,
        delta@,
    );
    if !old(tx).needs_rollback && !refused {
        let ids = choose|ids: (ActorID, ActorID)|
            {
                &&& token::amount_fault(
                    delta@,
                    "allowance delta"@,
                    old(tx).token.granularity,
                ) is None
                &&& #[trigger] util::resolved_both(sooner, later, x, y, ids)
                &&& match transaction::books_of(
                    ledger::change_allowance(l, ids.0, ids.1, delta@),
                ) {
                    Ok(books) => !final(tx).needs_rollback && final(tx).token.books() == Some(books),
                    Err(_) => final(tx).needs_rollback,
                }
            };
        util::both_are_resolved(sooner, later, x, y, ids);
        accounting::changing_an_allowance(l, ids.0, ids.1, delta@);
    }
}

/// Lowering an allowance in a transaction takes from it down to nothing, and touches no other allowance, no
/// balance and not the supply. Where it fails, the transaction is to be rolled back and the state
/// stays. After a failure nothing is done.
pub proof fn lowering_an_allowance_takes_from_it<'st, S: Syscalls>(
    tx: &mut TokenTransaction<'st, S>,
    owner: ActorID,
    spender: ActorID,
    delta: &TokenAmount,
    r: (),
)
    requires
        old(tx).token.books() is Some,
        call_ensures(TokenTransaction::<'st, S>::decrease_allowance, (tx, owner, spender, delta), r),
    ensures
        final(tx).base == old(tx).base,
        final(tx).state_dirty,
        old(tx).needs_rollback ==> final(tx).needs_rollback && final(tx).token == old(tx).token,
        final(tx).needs_rollback ==> final(tx).token.current() == old(tx).token.current(),
        went_well(*old(tx), *final(tx)) ==> {
            let syscalls = final(tx).token.runtime.syscalls;
            let before = books_of(old(tx).token);
            let after = books_of(final(tx).token);
            let a = actor_at(syscalls, AddressView::ID(owner));
            let b = actor_at(syscalls, AddressView::ID(spender));
            let had = spendable(before, a, b);
            &&& final(tx).token.books() is Some
            &&& divisible(delta@, old(tx).token.granularity)
            &&& holds_same(before, after)
            &&& allowed(before, after, a, b, if had < delta@ && delta@ > 0 {
                0
            } else {
                had - delta@
            })
        },
        ({
            let syscalls = old(tx).token.runtime.syscalls;
            let (x, y) = (AddressView::ID(owner), AddressView::ID(spender));
            let new = spendable(
                books_of(old(tx).token),
                actor_at(syscalls, x),
                actor_at(syscalls, y),
            ) - delta@;
            !old(tx).needs_rollback && syscalls.resolves(x) is Some && syscalls.resolves(y) is Some
                && divisible(delta@, old(tx).token.granularity) && store::storable(if new < 0 {
                0
            } else {
                new
            }) ==> !final(tx).needs_rollback
        }),
{
    let l = old(tx).token.books()->0;
    let (sooner, later) = (old(tx).token.runtime.syscalls, final(tx).token.runtime.syscalls);
    let (x, y) = (AddressView::ID(owner), AddressView::ID(spender));
    let refused = final(tx).needs_rollback && transaction::allowance_refused(
        old(tx).token,
        later,
        owner,
        spender,
        delta@,
    );
    if !old(tx).needs_rollback && !refused {
        let ids = choose|ids: (ActorID, ActorID)|
            {
                &&& token::amount_fault(
                    delta@,
                    "allowance delta"@,
                    old(tx).token.granularity,
                ) is None
                &&& #[trigger] util::resolved_both(sooner, later, x, y, ids)
                &&& match transaction::books_of(
                    ledger::change_allowance(l, ids.0, ids.1, -delta@),
                ) {
                    Ok(books) => !final(tx).needs_rollback && final(tx).token.books() == Some(books),
                    Err(_) => final(tx).needs_rollback,
                }
            };
        util::both_are_resolved(sooner, later, x, y, ids);
        accounting::changing_an_allowance(l, ids.0, ids.1, -delta@);
    }
}

/// Taking an allowance back in a transaction leaves none, and touches no other allowance, no balance and
/// not the supply. After a failure nothing is done.
pub proof fn revoking_leaves_no_allowance<'st, S: Syscalls>(
    tx: &mut TokenTransaction<'st, S>,
    owner: ActorID,
    spender: ActorID,
    r: (),
)
    requires
        old(tx).token.books() is Some,
        call_ensures(TokenTransaction::<'st, S>::revoke_allowance, (tx, owner, spender), r),
    ensures
        final(tx).base == old(tx).base,
        final(tx).state_dirty,
        old(tx).needs_rollback ==> final(tx).needs_rollback && final(tx).token == old(tx).token,
        final(tx).needs_rollback ==> final(tx).token.current() == old(tx).token.current(),
        !old(tx).needs_rollback ==> {
            let syscalls = old(tx).token.runtime.syscalls;
            let before = books_of(old(tx).token);
            let after = books_of(final(tx).token);
            let a = syscalls.resolves(AddressView::ID(owner));
            let b = syscalls.resolves(AddressView::ID(spender));
            &&& !final(tx).needs_rollback
            &&& final(tx).token.books() is Some
            &&& if a is Some && b is Some {
                holds_same(before, after) && allowed(before, after, a->0, b->0, 0)
            } else {
                after == before
            }
        },
{
    let l = old(tx).token.books()->0;
    let syscalls = old(tx).token.runtime.syscalls;
    let a = actor_at(syscalls, AddressView::ID(owner));
    let b = actor_at(syscalls, AddressView::ID(spender));
    accounting::revoking(l, a, b);
}

/// A burn in a transaction takes the amount from the owner and from the supply. A spender other than the
/// owner spends as much of an allowance, which has to cover it. No other account and no other allowance
/// changes. Where it fails, the transaction is to be rolled back and the state stays. After a failure
/// nothing is done.
pub proof fn a_burn_takes_away<'st, S: Syscalls>(
    tx: &mut TokenTransaction<'st, S>,
    spender: ActorID,
    owner: ActorID,
    amount: &TokenAmount,
    r: (),
)
    requires
        old(tx).token.books() is Some,
        call_ensures(TokenTransaction::<'st, S>::burn, (tx, spender, owner, amount), r),
    ensures
        final(tx).base == old(tx).base,
        final(tx).state_dirty,
        old(tx).needs_rollback ==> final(tx).needs_rollback && final(tx).token == old(tx).token,
        final(tx).needs_rollback ==> final(tx).token.current() == old(tx).token.current(),
        went_well(*old(tx), *final(tx)) ==> {
            let before = books_of(old(tx).token);
            let after = books_of(final(tx).token);
            let a = actor_at(final(tx).token.runtime.syscalls, AddressView::ID(owner));
            let b = actor_at(old(tx).token.runtime.syscalls, AddressView::ID(spender));
            &&& final(tx).token.books() is Some
            &&& divisible(amount@, old(tx).token.granularity)
            &&& spender == owner ==> added(before, after, a, -amount@) && (amount@ > 0 ==> holding(
                before,
                a,
            ) >= amount@)
            &&& spender != owner && final(tx).token.runtime.syscalls
                == old(tx).token.runtime.syscalls ==> {
                &&& after.supply == before.supply - amount@
                &&& holding(after, a) == holding(before, a) - amount@
                &&& forall|k: ActorID| k != a ==> #[trigger] holding(after, k) == holding(before, k)
                &&& allowed(before, after, a, b, spendable(before, a, b) - amount@)
                &&& amount@ > 0 ==> spendable(before, a, b) >= amount@ && holding(before, a)
                    >= amount@
                &&& a != b ==> spendable(before, a, b) != 0
            }
        },
{
    let l = old(tx).token.books()->0;
    let (sooner, later) = (old(tx).token.runtime.syscalls, final(tx).token.runtime.syscalls);
    let at = AddressView::ID(owner);
    let a = sooner.resolves(at);
    let b = sooner.resolves(AddressView::ID(spender));
    if went_well(*old(tx), *final(tx)) {
        if spender == owner {
            let id = choose|id: ActorID| #[trigger]
                util::resolved_or_made(sooner, later, at, Ok(id)) && match transaction::books_of(
                    ledger::issue(l, token::account(id), -amount@),
                ) {
                    Ok(books) => !final(tx).needs_rollback && final(tx).token.books() == Some(books),
                    Err(_) => final(tx).needs_rollback,
                };
            util::one_is_resolved(sooner, later, at, id);
            accounting::issuing(l, token::account(id), -amount@);
        } else {
            accounting::burning_from(l, token::account(b->0), token::account(a->0), amount@);
        }
    }
}

/// The message that tells a receiver of tokens: whose they were, whose they are, who moved them, how
/// many there are, and the data that came with them.
pub open spec fn word_of(
    receiver: ActorID,
    from: ActorID,
    to: ActorID,
    operator: ActorID,
    amount: int,
    data: Seq<u8>,
) -> Message {
    Message {
        to: AddressView::ID(receiver),
        method: RECEIVER_HOOK_METHOD_NUM,
        params: Some((CBOR, received_cbor(from, to, operator, amount, data, Seq::empty()))),
        value: 0,
    }
}

/// A mint in a transaction that did not fail added the amount to the holder and to the supply, and told
/// the holder of it: that the tokens come from the token actor, who minted them, how many, and the data
/// as the operator's data. No other account and no allowance changes. It comes before everything else
/// or not at all. Where it fails, the state stays and the transaction is to be rolled back.
pub proof fn a_mint_adds_and_tells<'st, S: Syscalls>(
    tx: &mut TokenTransaction<'st, S>,
    minter: ActorID,
    holder: ActorID,
    value: &TokenAmount,
    data: RawBytes,
    r: (),
)
    requires
        old(tx).token.books() is Some,
        call_ensures(TokenTransaction::<'st, S>::mint, (tx, minter, holder, value, data), r),
    ensures
        final(tx).base == old(tx).base,
        final(tx).state_dirty == old(tx).state_dirty,
        old(tx).needs_rollback || old(tx).state_dirty ==> final(tx).needs_rollback
            && final(tx).token == old(tx).token,
        final(tx).needs_rollback ==> same_state(final(tx).token.current(), old(tx).token.current()),
        !final(tx).needs_rollback ==> final(tx).token.books() is Some && divisible(
            value@,
            old(tx).token.granularity,
        ) && exists|resolved: S|
            {
                let a = actor_at(resolved, AddressView::ID(holder));
                let b = actor_at(resolved, AddressView::ID(minter));
                &&& util::remembers(old(tx).token.runtime.syscalls, resolved)
                &&& added(books_of(old(tx).token), books_of(final(tx).token), a, value@)
                &&& final(tx).token.runtime.syscalls.sent() == (#[trigger] resolved.sent()).push(
                    word_of(
                        holder,
                        old(tx).token.runtime.syscalls.actor(),
                        a,
                        b,
                        value@,
                        data@,
                    ),
                )
            },
{
    let l = old(tx).token.books()->0;
    let start = old(tx).token;
    let later = final(tx).token.runtime.syscalls;
    if !final(tx).needs_rollback {
        let (resolved, told, wanted) = choose|
            resolved: S,
            told: Received,
            wanted: Result<Ledger<ActorID>, StateFault>,
        |
            {
                &&& #[trigger] transaction::mint_due(
                    start,
                    resolved,
                    minter,
                    holder,
                    value@,
                    data@,
                    told,
                    wanted,
                )
                &&& match wanted {
                    Err(_) => final(tx).needs_rollback,
                    Ok(books) => if store::storable(value@) {
                        &&& later.sent() == resolved.sent().push(
                            Message {
                                to: AddressView::ID(holder),
                                method: RECEIVER_HOOK_METHOD_NUM,
                                params: Some((CBOR, told.cbor())),
                                value: 0,
                            },
                        )
                        &&& final(tx).token.books() == Some(books)
                    } else {
                        final(tx).needs_rollback
                    },
                }
            };
        let (x, y) = (AddressView::ID(minter), AddressView::ID(holder));
        let ids = choose|ids: (ActorID, ActorID)|
            {
                &&& #[trigger] util::resolved_both(start.runtime.syscalls, resolved, x, y, ids)
                &&& told.to == ids.1 && told.operator == ids.0
                &&& wanted == transaction::books_of(
                    ledger::issue(l, token::account(ids.1), value@),
                )
            };
        util::both_are_resolved(start.runtime.syscalls, resolved, x, y, ids);
        accounting::issuing(l, token::account(ids.1), value@);
        assert(resolved.sent() == resolved.sent());
    }
}

/// A transfer in a transaction that did not fail moved the amount from the owner to the receiver, and
/// told the receiver of it: whose the tokens were, who moved them, how many, and the data as the
/// operator's data. A spender other than the owner spends as much of an allowance. No other account, no
/// other allowance and not the supply changes. It comes before everything else or not at all. Where it
/// fails, the state stays and the transaction is to be rolled back.
pub proof fn a_transfer_moves_and_tells<'st, S: Syscalls>(
    tx: &mut TokenTransaction<'st, S>,
    spender: ActorID,
    owner: ActorID,
    receiver: ActorID,
    value: &TokenAmount,
    data: RawBytes,
    r: (),
)
    requires
        old(tx).token.books() is Some,
        call_ensures(
            TokenTransaction::<'st, S>::transfer,
            (tx, spender, owner, receiver, value, data),
            r,
        ),
    ensures
        final(tx).base == old(tx).base,
        final(tx).state_dirty == old(tx).state_dirty,
        old(tx).needs_rollback || old(tx).state_dirty ==> final(tx).needs_rollback
            && final(tx).token == old(tx).token,
        final(tx).needs_rollback ==> same_state(final(tx).token.current(), old(tx).token.current()),
        !final(tx).needs_rollback ==> final(tx).token.books() is Some && divisible(
            value@,
            old(tx).token.granularity,
        ) && exists|resolved: S|
            {
                let before = books_of(old(tx).token);
                let after = books_of(final(tx).token);
                let from = actor_at(resolved, AddressView::ID(owner));
                let to = actor_at(resolved, AddressView::ID(receiver));
                let by = actor_at(resolved, AddressView::ID(spender));
                &&& util::remembers(old(tx).token.runtime.syscalls, resolved)
                &&& moved(before, after, from, to, value@)
                &&& spender == owner ==> spends_same(before, after)
                &&& spender != owner ==> allowed(
                    before,
                    after,
                    from,
                    by,
                    spendable(before, from, by) - value@,
                )
                &&& value@ > 0 ==> holding(before, from) >= value@
                &&& value@ > 0 && spender != owner ==> spendable(before, from, by) >= value@
                &&& final(tx).token.runtime.syscalls.sent() == (#[trigger] resolved.sent()).push(
                    word_of(receiver, from, to, by, value@, data@),
                )
            },
{
    let l = old(tx).token.books()->0;
    let start = old(tx).token;
    let later = final(tx).token.runtime.syscalls;
    if !final(tx).needs_rollback {
        let (resolved, told, wanted) = choose|
            resolved: S,
            told: Received,
            wanted: Result<Ledger<ActorID>, StateFault>,
        |
            {
                &&& #[trigger] transaction::transfer_due(
                    start,
                    resolved,
                    spender,
                    owner,
                    receiver,
                    value@,
                    data@,
                    told,
                    wanted,
                )
                &&& match wanted {
                    Err(_) => final(tx).needs_rollback,
                    Ok(books) => if store::storable(value@) {
                        &&& later.sent() == resolved.sent().push(
                            Message {
                                to: AddressView::ID(receiver),
                                method: RECEIVER_HOOK_METHOD_NUM,
                                params: Some((CBOR, told.cbor())),
                                value: 0,
                            },
                        )
                        &&& final(tx).token.books() == Some(books)
                    } else {
                        final(tx).needs_rollback
                    },
                }
            };
        let sooner = start.runtime.syscalls;
        let (from, to) = (AddressView::ID(owner), AddressView::ID(receiver));
        if spender == owner {
            util::both_are_resolved(sooner, resolved, from, to, (told.from, told.to));
            accounting::moving(l, token::account(told.from), token::account(told.to), value@);
        } else {
            util::one_is_resolved(sooner, resolved, to, told.to);
            accounting::moving_from(
                l,
                token::account(told.operator),
                token::account(told.from),
                token::account(told.to),
                value@,
            );
        }
        assert(resolved.sent() == resolved.sent());
    }
}

} // verus!
