//! What succeeds where the actors have accounts, or can have them.
use vstd::prelude::*;

use crate::address::AddressView;
use crate::amount::TokenAmount;
use crate::bytes::ActorID;
use crate::frc46_token::error::TokenError;
use crate::frc46_token::laws;
use crate::frc46_token::state::Books;
use crate::frc46_token::token;
use crate::frc46_token::token::Token;
use crate::frc46_token::types::{
    BurnReturn, MintIntermediate, TransferFromIntermediate, TransferIntermediate,
};
use crate::fvm_actor_utils::receiver::ReceiverHook;
use crate::fvm_actor_utils::syscalls::Syscalls;
use crate::fvm_actor_utils::util;
use crate::keys;
use crate::ledger;
use crate::store;

verus! {

/// The balance of an actor in some books.
pub open spec fn balance(books: Books, actor: ActorID) -> int {
    books.balance(keys::key_of(actor))
}

/// What an actor may spend of another's tokens in some books.
pub open spec fn allowance(books: Books, owner: ActorID, operator: ActorID) -> int {
    books.allowance(keys::key_of(owner), keys::key_of(operator))
}

/// Where minter and owner have accounts or can have them, a mint succeeds exactly for a valid amount
/// that fits into the owner's balance. The owner's balance and the supply grow by it, and nothing
/// else changes.
pub proof fn a_mint_succeeds<'st, S: Syscalls>(
    before: Token<'st, S>,
    after: Token<'st, S>,
    operator: AddressView,
    owner: AddressView,
    amount: int,
    operator_data: Seq<u8>,
    token_data: Seq<u8>,
    r: Result<ReceiverHook<MintIntermediate>, TokenError>,
)
    requires
        laws::tallied(before),
        util::can_have_accounts(before.runtime.syscalls, operator, owner),
        token::minted(before, after, operator, owner, amount, operator_data, token_data, r),
    ensures
        ({
            let old_books = before.books()->0;
            let books = after.books()->0;
            let id = after.runtime.syscalls.resolves(owner)->0;
            &&& r is Ok == (amount >= 0 && amount % (before.granularity as int) == 0 && (amount == 0
                || store::storable(balance(old_books, id) + amount)))
            &&& r is Ok ==> after.runtime.syscalls.resolves(owner) is Some && balance(books, id)
                == balance(old_books, id) + amount && books.supply == old_books.supply + amount
            &&& r is Ok ==> forall|k: Seq<u8>|
                k != keys::key_of(id) ==> #[trigger] books.balance(k) == old_books.balance(k)
            &&& books.allowances == old_books.allowances
            &&& r is Err ==> books == old_books
        }),
{
    let l = before.books()->0;
    let g = before.granularity as int;
    let id_of = |k: Seq<u8>| keys::id_of(k);
    let (sooner, later) = (before.runtime.syscalls, after.runtime.syscalls);
    if after.current() == before.current() {
        laws::lemma_unchanged(before, after);
    }
    if r is Err && r->Err_0 is Messaging {
        util::accounts_are_had(sooner, later, operator, owner, r->Err_0->Messaging_0);
    }
    if token::amount_fault(amount, "mint"@, before.granularity) is None && !(r is Err
        && r->Err_0 is Messaging) {
        let ids = choose|ids: (ActorID, ActorID)|
            #![trigger token::account(ids.1)]
            util::resolved_both(sooner, later, operator, owner, ids) && match ledger::issue(
                l,
                token::account(ids.1),
                amount,
            ) {
                Ok((books, _)) => after.books() == Some(books) && r is Ok == store::storable(amount),
                Err(fault) => r is Err && after.current() == before.current(),
            };
        laws::lemma_both_resolve(sooner, later, operator, owner, ids);
        keys::key_names_its_actor(ids.1);
        crate::laws::lemma_balance(l, token::account(ids.1).key, g, id_of);
        vstd::arithmetic::power2::lemma_pow2_pos(1016);
        if ledger::issue(l, token::account(ids.1), amount) is Ok {
            crate::laws::issue_law(l, token::account(ids.1), amount, g, id_of);
        }
    }
}

/// Where sender and receiver have accounts or can have them, a transfer succeeds exactly for a valid
/// amount that the sender has. It moves from the one balance to the other, unless both are one
/// actor's, and nothing else changes.
pub proof fn a_transfer_succeeds<'st, S: Syscalls>(
    before: Token<'st, S>,
    after: Token<'st, S>,
    from: AddressView,
    to: AddressView,
    amount: int,
    operator_data: Seq<u8>,
    token_data: Seq<u8>,
    r: Result<ReceiverHook<TransferIntermediate>, TokenError>,
)
    requires
        laws::tallied(before),
        store::storable(laws::supply(before)),
        util::can_have_accounts(before.runtime.syscalls, from, to),
        token::transferred(before, after, from, to, amount, operator_data, token_data, r),
    ensures
        ({
            let old_books = before.books()->0;
            let books = after.books()->0;
            let a = after.runtime.syscalls.resolves(from)->0;
            let b = after.runtime.syscalls.resolves(to)->0;
            &&& r is Ok == (amount >= 0 && amount % (before.granularity as int) == 0 && amount
                <= balance(old_books, a))
            &&& r is Ok && a != b ==> {
                &&& balance(books, a) == balance(old_books, a) - amount
                &&& balance(books, b) == balance(old_books, b) + amount
                &&& forall|k: Seq<u8>|
                    k != keys::key_of(a) && k != keys::key_of(b) ==> #[trigger] books.balance(k)
                        == old_books.balance(k)
            }
            &&& r is Ok && a == b ==> books == old_books
            &&& books.supply == old_books.supply
            &&& books.allowances == old_books.allowances
            &&& r is Err ==> books == old_books
        }),
{
    let l = before.books()->0;
    let g = before.granularity as int;
    let id_of = |k: Seq<u8>| keys::id_of(k);
    let (sooner, later) = (before.runtime.syscalls, after.runtime.syscalls);
    if after.current() == before.current() {
        laws::lemma_unchanged(before, after);
    }
    if r is Err && r->Err_0 is Messaging {
        util::accounts_are_had(sooner, later, from, to, r->Err_0->Messaging_0);
    }
    if token::amount_fault(amount, "transfer"@, before.granularity) is None && !(r is Err
        && r->Err_0 is Messaging) {
        let ids = choose|ids: (ActorID, ActorID)|
            #![trigger token::account(ids.0), token::account(ids.1)]
            util::resolved_both(sooner, later, from, to, ids) && match ledger::move_tokens(
                l,
                token::account(ids.0),
                token::account(ids.1),
                amount,
            ) {
                Ok((books, _)) => after.books() == Some(books) && r is Ok == store::storable(amount),
                Err(fault) => r is Err && after.current() == before.current(),
            };
        let (a, b) = (token::account(ids.0), token::account(ids.1));
        laws::lemma_both_resolve(sooner, later, from, to, ids);
        keys::key_names_its_actor(ids.0);
        keys::key_names_its_actor(ids.1);
        crate::laws::transfer_succeeds_when_covered(l, a, b, amount, g, id_of);
        crate::laws::no_balance_exceeds_the_supply(l, a.key, g, id_of);
        if ledger::move_tokens(l, a, b, amount) is Ok {
            crate::laws::move_law(l, a, b, amount, g, id_of);
        }
    }
}

/// Where the receiver has an account or can have one, a delegated transfer succeeds exactly where
/// operator and owner have accounts and are not found to be one actor, the operator has an allowance,
/// and the allowance and the owner's balance cover the amount, which is a valid one. An allowance is
/// needed even for a zero amount, but by the owner. Otherwise nothing changes.
pub proof fn a_delegated_transfer_succeeds<'st, S: Syscalls>(
    before: Token<'st, S>,
    after: Token<'st, S>,
    operator: AddressView,
    from: AddressView,
    to: AddressView,
    amount: int,
    operator_data: Seq<u8>,
    token_data: Seq<u8>,
    r: Result<ReceiverHook<TransferFromIntermediate>, TokenError>,
)
    requires
        laws::tallied(before),
        store::storable(laws::supply(before)),
        store::storable(before.allowance_at(from, operator)),
        before.allowance_at(from, operator) >= 0,
        util::can_have_account(before.runtime.syscalls, to),
        token::transferred_from(
            before,
            after,
            operator,
            from,
            to,
            amount,
            operator_data,
            token_data,
            r,
        ),
    ensures
        r is Ok == (amount >= 0 && amount % (before.granularity as int) == 0 && !util::same_actor(
            before.runtime.syscalls,
            operator,
            from,
        ) && before.runtime.syscalls.resolves(operator) is Some
            && before.runtime.syscalls.resolves(from) is Some && (before.allowance_at(
            from,
            operator,
        ) > 0 || before.runtime.syscalls.resolves(operator) == before.runtime.syscalls.resolves(
            from,
        )) && amount <= before.allowance_at(from, operator) && amount <= before.balance_at(from)),
        r is Ok ==> {
            let old_books = before.books()->0;
            let books = after.books()->0;
            let a = before.runtime.syscalls.resolves(operator)->0;
            let b = before.runtime.syscalls.resolves(from)->0;
            let c = after.runtime.syscalls.resolves(to)->0;
            &&& allowance(books, b, a) == allowance(old_books, b, a) - amount
            &&& b != c ==> balance(books, b) == balance(old_books, b) - amount && balance(books, c)
                == balance(old_books, c) + amount
            &&& b == c ==> books.balances == old_books.balances
            &&& books.supply == old_books.supply
        },
        r is Err ==> after.books() == before.books(),
{
    let l = before.books()->0;
    let g = before.granularity as int;
    let id_of = |k: Seq<u8>| keys::id_of(k);
    let (sooner, later) = (before.runtime.syscalls, after.runtime.syscalls);
    if after.current() == before.current() {
        laws::lemma_unchanged(before, after);
    }
    if token::transfer_from_fault(sooner, before.granularity, operator, from, amount) is None {
        if r is Err && r->Err_0 is Messaging {
            util::an_account_is_had(sooner, later, to, Err(r->Err_0->Messaging_0));
        }
        let a = token::account(sooner.resolves(operator)->0);
        let b = token::account(sooner.resolves(from)->0);
        let id = choose|id: ActorID|
            #![trigger token::account(id)]
            util::resolved_or_made(sooner, later, to, Ok(id)) && match ledger::move_from(
                l,
                a,
                b,
                token::account(id),
                amount,
            ) {
                Ok((books, _)) => after.books() == Some(books) && r is Ok == store::storable(amount),
                Err(fault) => r is Err && after.current() == before.current(),
            };
        let c = token::account(id);
        util::an_account_is_had(sooner, later, to, Ok(id));
        keys::key_names_its_actor(a.id);
        keys::key_names_its_actor(b.id);
        keys::key_names_its_actor(id);
        crate::laws::no_balance_exceeds_the_supply(l, b.key, g, id_of);
        vstd::arithmetic::power2::lemma_pow2_pos(1016);
        let spent = ledger::use_allowance(l, a.id, a.key, b.id, b.key, amount);
        if spent is Ok {
            let m = spent->Ok_0.0;
            ledger::lemma_with_allowance(l, b.key, a.key, spent->Ok_0.1);
            crate::laws::transfer_succeeds_when_covered(m, b, c, amount, g, id_of);
            if ledger::move_tokens(m, b, c, amount) is Ok {
                crate::laws::move_law(m, b, c, amount, g, id_of);
                let n = ledger::move_tokens(m, b, c, amount)->Ok_0.0;
                assert(n.given_by(b.key) == m.given_by(b.key));
            }
        }
    }
}

/// Where the owner has an account or can have one, a burn succeeds exactly for a valid amount that
/// the owner has. The owner's balance and the supply shrink by it, and nothing else changes.
pub proof fn a_burn_succeeds<'st, S: Syscalls>(
    before: Token<'st, S>,
    after: Token<'st, S>,
    owner: AddressView,
    amount: int,
    r: Result<BurnReturn, TokenError>,
)
    requires
        laws::tallied(before),
        store::storable(laws::supply(before)),
        util::can_have_account(before.runtime.syscalls, owner),
        token::burnt(before, after, owner, amount, r),
    ensures
        r is Ok == (amount >= 0 && amount % (before.granularity as int) == 0 && amount <= balance(
            before.books()->0,
            after.runtime.syscalls.resolves(owner)->0,
        )),
        r is Ok ==> {
            let old_books = before.books()->0;
            let books = after.books()->0;
            let id = after.runtime.syscalls.resolves(owner)->0;
            &&& r->Ok_0.balance@ == balance(books, id)
            &&& balance(books, id) == balance(old_books, id) - amount
            &&& books.supply == old_books.supply - amount
            &&& forall|k: Seq<u8>|
                k != keys::key_of(id) ==> #[trigger] books.balance(k) == old_books.balance(k)
            &&& books.allowances == old_books.allowances
        },
        r is Err ==> after.books() == before.books(),
{
    let l = before.books()->0;
    let g = before.granularity as int;
    let id_of = |k: Seq<u8>| keys::id_of(k);
    let (sooner, later) = (before.runtime.syscalls, after.runtime.syscalls);
    if after.current() == before.current() {
        laws::lemma_unchanged(before, after);
    }
    if token::amount_fault(amount, "burn"@, before.granularity) is None {
        if r is Err && r->Err_0 is Messaging {
            util::an_account_is_had(sooner, later, owner, Err(r->Err_0->Messaging_0));
        }
        let id = choose|id: ActorID|
            #![trigger token::account(id)]
            util::resolved_or_made(sooner, later, owner, Ok(id)) && match ledger::issue(
                l,
                token::account(id),
                -amount,
            ) {
                Ok((books, new_balance)) => r is Ok && r->Ok_0.balance@ == new_balance
                    && after.books() == Some(books),
                Err(_) => r is Err,
            };
        util::an_account_is_had(sooner, later, owner, Ok(id));
        keys::key_names_its_actor(id);
        crate::laws::burn_succeeds_when_covered(l, token::account(id), amount, g, id_of);
        if r is Ok {
            crate::laws::lemma_multiples(amount, amount, g);
            crate::laws::issue_law(l, token::account(id), -amount, g, id_of);
        }
    }
}

/// Where owner and operator have accounts or can have them, an allowance can be raised by any amount
/// that is not negative, as long as the sum can be stored. Nothing else changes.
pub proof fn raising_an_allowance_succeeds<'st, S: Syscalls>(
    before: Token<'st, S>,
    after: Token<'st, S>,
    owner: AddressView,
    operator: AddressView,
    delta: int,
    r: Result<TokenAmount, TokenError>,
)
    requires
        before.books() is Some,
        util::can_have_accounts(before.runtime.syscalls, owner, operator),
        token::allowance_increased(before, after, owner, operator, delta, r),
    ensures
        ({
            let old_books = before.books()->0;
            let a = after.runtime.syscalls.resolves(owner)->0;
            let b = after.runtime.syscalls.resolves(operator)->0;
            let sum = allowance(old_books, a, b) + delta;
            let new = if delta > 0 && sum < 0 {
                0
            } else {
                sum
            };
            &&& r is Ok == (delta >= 0 && (delta == 0 || store::storable(new)))
            &&& r is Ok ==> r->Ok_0@ == new
            &&& r is Ok && delta > 0 ==> after.books() == Some(
                old_books.with_allowance(keys::key_of(a), keys::key_of(b), new),
            )
            &&& r is Ok && delta == 0 ==> after.books() == before.books()
        }),
        r is Err ==> after.books() == before.books(),
{
    let (sooner, later) = (before.runtime.syscalls, after.runtime.syscalls);
    if after.current() == before.current() {
        laws::lemma_unchanged(before, after);
    }
    if delta >= 0 {
        if r is Err && r->Err_0 is Messaging {
            util::accounts_are_had(sooner, later, owner, operator, r->Err_0->Messaging_0);
        }
        let ids = choose|ids: (ActorID, ActorID)|
            #![trigger token::account(ids.0), token::account(ids.1)]
            util::resolved_both(sooner, later, owner, operator, ids) && token::settled(
                before.books(),
                after.books(),
                r,
                ledger::change_allowance(
                    before.books()->0,
                    token::account(ids.0).key,
                    token::account(ids.1).key,
                    delta,
                ),
            );
        laws::lemma_both_resolve(sooner, later, owner, operator, ids);
    }
}

/// Where owner and operator have accounts or can have them, an allowance can be lowered by any
/// amount that is not negative, down to zero. Nothing else changes.
pub proof fn lowering_an_allowance_succeeds<'st, S: Syscalls>(
    before: Token<'st, S>,
    after: Token<'st, S>,
    owner: AddressView,
    operator: AddressView,
    delta: int,
    r: Result<TokenAmount, TokenError>,
)
    requires
        before.books() is Some,
        util::can_have_accounts(before.runtime.syscalls, owner, operator),
        store::storable(
            allowance(
                before.books()->0,
                after.runtime.syscalls.resolves(owner)->0,
                after.runtime.syscalls.resolves(operator)->0,
            ),
        ),
        token::allowance_decreased(before, after, owner, operator, delta, r),
    ensures
        ({
            let old_books = before.books()->0;
            let a = after.runtime.syscalls.resolves(owner)->0;
            let b = after.runtime.syscalls.resolves(operator)->0;
            let left = allowance(old_books, a, b) - delta;
            let left = if delta > 0 && left < 0 {
                0
            } else {
                left
            };
            &&& r is Ok == (delta >= 0)
            &&& r is Ok ==> r->Ok_0@ == left
            &&& r is Ok && delta > 0 ==> after.books() == Some(
                old_books.with_allowance(keys::key_of(a), keys::key_of(b), left),
            )
            &&& r is Ok && delta == 0 ==> after.books() == before.books()
        }),
        r is Err ==> after.books() == before.books(),
{
    let (sooner, later) = (before.runtime.syscalls, after.runtime.syscalls);
    if after.current() == before.current() {
        laws::lemma_unchanged(before, after);
    }
    if delta >= 0 {
        if r is Err && r->Err_0 is Messaging {
            util::accounts_are_had(sooner, later, owner, operator, r->Err_0->Messaging_0);
        }
        let ids = choose|ids: (ActorID, ActorID)|
            #![trigger token::account(ids.0), token::account(ids.1)]
            util::resolved_both(sooner, later, owner, operator, ids) && token::settled(
                before.books(),
                after.books(),
                r,
                ledger::change_allowance(
                    before.books()->0,
                    token::account(ids.0).key,
                    token::account(ids.1).key,
                    -delta,
                ),
            );
        laws::lemma_both_resolve(sooner, later, owner, operator, ids);
        vstd::arithmetic::power2::lemma_pow2_pos(1016);
    }
}

/// Where owner and operator have accounts or can have them, an allowance can be set to any amount
/// that is not negative and can be stored. Nothing else changes.
pub proof fn setting_an_allowance_succeeds<'st, S: Syscalls>(
    before: Token<'st, S>,
    after: Token<'st, S>,
    owner: AddressView,
    operator: AddressView,
    amount: int,
    r: Result<TokenAmount, TokenError>,
)
    requires
        before.books() is Some,
        util::can_have_accounts(before.runtime.syscalls, owner, operator),
        token::allowance_set(before, after, owner, operator, amount, r),
    ensures
        r is Ok == (amount >= 0 && store::storable(amount)),
        r is Ok && amount > 0 ==> {
            let a = after.runtime.syscalls.resolves(owner)->0;
            let b = after.runtime.syscalls.resolves(operator)->0;
            &&& r->Ok_0@ == allowance(before.books()->0, a, b)
            &&& after.books() == Some(
                before.books()->0.with_allowance(keys::key_of(a), keys::key_of(b), amount),
            )
        },
        r is Err ==> after.books() == before.books(),
{
    let (sooner, later) = (before.runtime.syscalls, after.runtime.syscalls);
    vstd::arithmetic::power2::lemma_pow2_pos(1016);
    if after.current() == before.current() {
        laws::lemma_unchanged(before, after);
    }
    if amount > 0 {
        if r is Err && r->Err_0 is Messaging {
            util::accounts_are_had(sooner, later, owner, operator, r->Err_0->Messaging_0);
        }
        let ids = choose|ids: (ActorID, ActorID)|
            #![trigger token::account(ids.0), token::account(ids.1)]
            util::resolved_both(sooner, later, owner, operator, ids) && token::settled(
                before.books(),
                after.books(),
                r,
                ledger::set_allowance(
                    before.books()->0,
                    ids.0,
                    token::account(ids.0).key,
                    ids.1,
                    token::account(ids.1).key,
                    amount,
                ),
            );
        laws::lemma_both_resolve(sooner, later, owner, operator, ids);
    }
}

/// Where the owner has an account or can have one, a balance can be set to any valid amount that can
/// be stored.
pub proof fn setting_a_balance_succeeds<'st, S: Syscalls>(
    before: Token<'st, S>,
    after: Token<'st, S>,
    owner: AddressView,
    amount: int,
    r: Result<TokenAmount, TokenError>,
)
    requires
        before.books() is Some,
        util::can_have_account(before.runtime.syscalls, owner),
        token::balance_set(before, after, owner, amount, r),
    ensures
        r is Ok == (amount >= 0 && amount % (before.granularity as int) == 0 && store::storable(
            amount,
        )),
        r is Ok ==> {
            let id = after.runtime.syscalls.resolves(owner)->0;
            &&& r->Ok_0@ == balance(before.books()->0, id)
            &&& after.books() == Some(
                ledger::reset_balance(before.books()->0, token::account(id), amount)->Ok_0.0,
            )
        },
        r is Err ==> after.books() == before.books(),
{
    let (sooner, later) = (before.runtime.syscalls, after.runtime.syscalls);
    if after.current() == before.current() {
        laws::lemma_unchanged(before, after);
    }
    if token::amount_fault(amount, "set_balance"@, before.granularity) is None {
        if r is Err && r->Err_0 is Messaging {
            util::an_account_is_had(sooner, later, owner, Err(r->Err_0->Messaging_0));
        }
        let id = choose|id: ActorID|
            #![trigger token::account(id)]
            util::resolved_or_made(sooner, later, owner, Ok(id)) && match ledger::reset_balance(
                before.books()->0,
                token::account(id),
                amount,
            ) {
                Ok((books, was)) => r is Ok && r->Ok_0@ == was && after.books() == Some(books),
                Err(_) => r is Err,
            };
        util::an_account_is_had(sooner, later, owner, Ok(id));
    }
}

} // verus!
