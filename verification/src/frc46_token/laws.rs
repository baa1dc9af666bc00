//! What the operations on a token keep.
use vstd::prelude::*;

use crate::address::AddressView;
use crate::amount::TokenAmount;
use crate::bytes::ActorID;
use crate::frc46_token::error::TokenError;
use crate::frc46_token::state;
use crate::frc46_token::state::Books;
use crate::frc46_token::token;
use crate::frc46_token::token::Token;
use crate::frc46_token::types::{
    BurnFromReturn, BurnReturn, MintIntermediate, TransferFromIntermediate, TransferIntermediate,
};
use crate::fvm_actor_utils::receiver::ReceiverHook;
use crate::fvm_actor_utils::syscalls::Syscalls;
use crate::fvm_actor_utils::util;
use crate::keys;
use crate::laws;
use crate::ledger;
use crate::store;

verus! {

/// Whether a token's trees can be read and keep the rules: no balance and no allowance is negative
/// or stored as zero, balances are multiples of the granularity, and the supply is their sum.
pub open spec fn orderly<'st, S: Syscalls>(token: Token<'st, S>) -> bool {
    &&& token.granularity > 0
    &&& token.books() is Some
    &&& state::sound_books(token.books()->0, token.granularity)
    &&& keyed(token.books()->0)
}

/// Every owner with allowances is kept under their own key, as the operations do.
pub open spec fn keyed(books: Books) -> bool {
    forall|k: Seq<u8>| #[trigger]
        books.allowances.contains_key(k) ==> keys::id_of(k) is Some && k == keys::key_of(
            keys::id_of(k)->0,
        )
}

/// Whether a token's trees can be read and add up: balances are positive multiples of the
/// granularity, and the supply is their sum.
pub open spec fn tallied<'st, S: Syscalls>(token: Token<'st, S>) -> bool {
    &&& token.granularity > 0
    &&& token.books() is Some
    &&& token.books()->0.adds_up(token.granularity as int, |k: Seq<u8>| keys::id_of(k))
}

/// The supply of a token.
pub open spec fn supply<'st, S: Syscalls>(token: Token<'st, S>) -> int {
    token.books()->0.supply
}

/// A state that did not change reads the same.
pub(crate) proof fn lemma_unchanged<'st, S: Syscalls>(before: Token<'st, S>, after: Token<'st, S>)
    requires
        before.books() is Some,
        after.current() == before.current(),
        store::kept(before.runtime.blockstore@, after.runtime.blockstore@),
    ensures
        after.books() == before.books(),
{
    state::lemma_ledger_kept(
        before.current(),
        before.runtime.blockstore@,
        after.runtime.blockstore@,
    );
}

/// Minting keeps the rules. The supply grows by the amount, or nothing changes.
pub proof fn minting_keeps_the_rules<'st, S: Syscalls>(
    before: Token<'st, S>,
    after: Token<'st, S>,
    operator: AddressView,
    initial_owner: AddressView,
    amount: int,
    operator_data: Seq<u8>,
    token_data: Seq<u8>,
    r: Result<ReceiverHook<MintIntermediate>, TokenError>,
)
    requires
        orderly(before),
        token::minted(
            before,
            after,
            operator,
            initial_owner,
            amount,
            operator_data,
            token_data,
            r,
        ),
    ensures
        orderly(after),
        r is Ok ==> supply(after) == supply(before) + amount,
        r is Err ==> after.books() == before.books(),
{
    let l = before.books()->0;
    let g = before.granularity as int;
    let id_of = |k: Seq<u8>| keys::id_of(k);
    if after.current() == before.current() {
        lemma_unchanged(before, after);
    }
    if token::amount_fault(amount, "mint"@, before.granularity) is None && !(r is Err
        && r->Err_0 is Messaging) {
        let ids = choose|ids: (ActorID, ActorID)|
            #![trigger token::account(ids.1)]
            util::resolved_both(
                before.runtime.syscalls,
                after.runtime.syscalls,
                operator,
                initial_owner,
                ids,
            ) && match ledger::issue(l, token::account(ids.1), amount) {
                Ok((books, _)) => after.books() == Some(books),
                Err(fault) => r is Err && after.current() == before.current(),
            };
        keys::key_names_its_actor(ids.1);
        if ledger::issue(l, token::account(ids.1), amount) is Ok {
            laws::issue_law(l, token::account(ids.1), amount, g, id_of);
            laws::lemma_balance(l, token::account(ids.1).key, g, id_of);
            vstd::arithmetic::power2::lemma_pow2_pos(1016);
            assert(store::storable(amount));
        }
    }
}

/// An actor has no allowance on its own tokens, and taking that back changes nothing.
proof fn lemma_no_own_allowance(books: Books, granularity: u64, actor: ActorID)
    requires
        state::sound_books(books, granularity),
    ensures
        books.allowance(keys::key_of(actor), keys::key_of(actor)) == 0,
        books.with_allowance(keys::key_of(actor), keys::key_of(actor), 0) == books,
{
    let key = keys::key_of(actor);
    let given = books.given_by(key);
    if books.allowances.contains_key(key) {
        assert(!given.contains_key(key));
        assert(given != Map::<Seq<u8>, int>::empty());
    }
    assert(ledger::with_amount(given, key, 0) =~= given);
    assert(books.with_allowance(key, key, 0).allowances =~= books.allowances);
}

/// Burning keeps the rules. The supply shrinks by the amount, or stays where nothing was burnt.
pub proof fn burning_keeps_the_rules<'st, S: Syscalls>(
    before: Token<'st, S>,
    after: Token<'st, S>,
    owner: AddressView,
    amount: int,
    r: Result<BurnReturn, TokenError>,
)
    requires
        orderly(before),
        token::burnt(before, after, owner, amount, r),
    ensures
        orderly(after),
        r is Ok ==> supply(after) == supply(before) - amount,
        r is Err ==> after.books() == before.books(),
{
    let l = before.books()->0;
    let g = before.granularity as int;
    let id_of = |k: Seq<u8>| keys::id_of(k);
    if after.current() == before.current() {
        lemma_unchanged(before, after);
    }
    if r is Ok {
        let id = choose|id: ActorID|
            #![trigger token::account(id)]
            util::resolved_or_made(
                before.runtime.syscalls,
                after.runtime.syscalls,
                owner,
                Ok(id),
            ) && match ledger::issue(l, token::account(id), -amount) {
                Ok((books, _)) => after.books() == Some(books),
                Err(_) => r is Err,
            };
        keys::key_names_its_actor(id);
        laws::lemma_multiples(amount, amount, g);
        laws::issue_law(l, token::account(id), -amount, g, id_of);
    }
}

/// Burning by an operator keeps the rules. The supply shrinks by the amount, or nothing changes.
pub proof fn delegated_burning_keeps_the_rules<'st, S: Syscalls>(
    before: Token<'st, S>,
    after: Token<'st, S>,
    operator: AddressView,
    owner: AddressView,
    amount: int,
    r: Result<BurnFromReturn, TokenError>,
)
    requires
        orderly(before),
        token::burnt_from(before, after, operator, owner, amount, r),
    ensures
        orderly(after),
        r is Ok ==> supply(after) == supply(before) - amount,
        r is Err ==> after.books() == before.books(),
{
    let l = before.books()->0;
    let g = before.granularity as int;
    let id_of = |k: Seq<u8>| keys::id_of(k);
    if r is Err {
        lemma_unchanged(before, after);
    } else {
        let a = before.runtime.syscalls.resolves(operator)->0;
        let b = before.runtime.syscalls.resolves(owner)->0;
        keys::key_names_its_actor(a);
        keys::key_names_its_actor(b);
        if a == b {
            lemma_no_own_allowance(l, before.granularity, a);
        } else {
            laws::burn_from_law(l, token::account(a), token::account(b), amount, g, id_of);
        }
    }
}

/// A transfer keeps the rules, and never changes the supply.
pub proof fn transfer_keeps_the_rules<'st, S: Syscalls>(
    before: Token<'st, S>,
    after: Token<'st, S>,
    from: AddressView,
    to: AddressView,
    amount: int,
    operator_data: Seq<u8>,
    token_data: Seq<u8>,
    r: Result<ReceiverHook<TransferIntermediate>, TokenError>,
)
    requires
        orderly(before),
        token::transferred(before, after, from, to, amount, operator_data, token_data, r),
    ensures
        orderly(after),
        supply(after) == supply(before),
{
    let l = before.books()->0;
    let g = before.granularity as int;
    let id_of = |k: Seq<u8>| keys::id_of(k);
    if after.current() == before.current() {
        lemma_unchanged(before, after);
    }
    if token::amount_fault(amount, "transfer"@, before.granularity) is None && !(r is Err
        && r->Err_0 is Messaging) {
        let ids = choose|ids: (ActorID, ActorID)|
            #![trigger token::account(ids.0), token::account(ids.1)]
            util::resolved_both(
                before.runtime.syscalls,
                after.runtime.syscalls,
                from,
                to,
                ids,
            ) && match ledger::move_tokens(l, token::account(ids.0), token::account(ids.1), amount) {
                Ok((books, _)) => after.books() == Some(books),
                Err(fault) => r is Err && after.current() == before.current(),
            };
        keys::key_names_its_actor(ids.0);
        keys::key_names_its_actor(ids.1);
        if ledger::move_tokens(l, token::account(ids.0), token::account(ids.1), amount) is Ok {
            laws::move_law(l, token::account(ids.0), token::account(ids.1), amount, g, id_of);
        }
    }
}

/// A transfer by an operator keeps the rules, and never changes the supply.
pub proof fn delegated_transfer_keeps_the_rules<'st, S: Syscalls>(
    before: Token<'st, S>,
    after: Token<'st, S>,
    operator: AddressView,
    from: AddressView,
    to: AddressView,
    amount: int,
    operator_data: Seq<u8>,
    token_data: Seq<u8>,
    r: Result<ReceiverHook<TransferFromIntermediate>, TokenError>,
)
    requires
        orderly(before),
        token::transferred_from(
            before,
            after,
            operator,
            from,
            to,
            amount,
            operator_data,
            token_data,
            r,
        ),
    ensures
        orderly(after),
        supply(after) == supply(before),
{
    let l = before.books()->0;
    let g = before.granularity as int;
    let id_of = |k: Seq<u8>| keys::id_of(k);
    let syscalls = before.runtime.syscalls;
    if after.current() == before.current() {
        lemma_unchanged(before, after);
    }
    if token::transfer_from_fault(syscalls, before.granularity, operator, from, amount) is None
        && !(r is Err && r->Err_0 is Messaging) {
        let a = syscalls.resolves(operator)->0;
        let b = syscalls.resolves(from)->0;
        let c = choose|c: ActorID|
            #![trigger token::account(c)]
            util::resolved_or_made(syscalls, after.runtime.syscalls, to, Ok(c))
                && match ledger::move_from(
                l,
                token::account(a),
                token::account(b),
                token::account(c),
                amount,
            ) {
                Ok((books, _)) => after.books() == Some(books),
                Err(fault) => r is Err && after.current() == before.current(),
            };
        keys::key_names_its_actor(a);
        keys::key_names_its_actor(b);
        keys::key_names_its_actor(c);
        if ledger::move_from(l, token::account(a), token::account(b), token::account(c), amount)
            is Ok {
            if a == b {
                lemma_no_own_allowance(l, before.granularity, a);
                laws::move_law(l, token::account(b), token::account(c), amount, g, id_of);
            } else {
                laws::move_from_law(
                    l,
                    token::account(a),
                    token::account(b),
                    token::account(c),
                    amount,
                    g,
                    id_of,
                );
            }
        }
    }
}

/// Raising an allowance keeps the rules, and changes neither the supply nor a balance, unless an
/// actor is given an allowance on its own tokens. That breaks them: it should not be there.
pub proof fn raising_an_allowance_keeps_the_rules<'st, S: Syscalls>(
    before: Token<'st, S>,
    after: Token<'st, S>,
    owner: AddressView,
    operator: AddressView,
    delta: int,
    r: Result<TokenAmount, TokenError>,
)
    requires
        orderly(before),
        r is Ok && delta > 0 ==> after.runtime.syscalls.resolves(owner)
            != after.runtime.syscalls.resolves(operator),
        token::allowance_increased(before, after, owner, operator, delta, r),
    ensures
        orderly(after),
        supply(after) == supply(before),
        after.books()->0.balances == before.books()->0.balances,
{
    if after.current() == before.current() {
        lemma_unchanged(before, after);
    }
    if r is Ok {
        let ids = choose|ids: (ActorID, ActorID)|
            #![trigger token::account(ids.0), token::account(ids.1)]
            util::resolved_both(
                before.runtime.syscalls,
                after.runtime.syscalls,
                owner,
                operator,
                ids,
            ) && token::settled(
                before.books(),
                after.books(),
                r,
                ledger::change_allowance(
                    before.books()->0,
                    token::account(ids.0).key,
                    token::account(ids.1).key,
                    delta,
                ),
            );
        lemma_both_resolve(before.runtime.syscalls, after.runtime.syscalls, owner, operator, ids);
        if delta > 0 {
            lemma_allowance(before.books()->0, before.granularity, ids.0, ids.1, delta);
        }
    }
}

/// Lowering an allowance keeps the rules, and changes neither the supply nor a balance.
pub proof fn lowering_an_allowance_keeps_the_rules<'st, S: Syscalls>(
    before: Token<'st, S>,
    after: Token<'st, S>,
    owner: AddressView,
    operator: AddressView,
    delta: int,
    r: Result<TokenAmount, TokenError>,
)
    requires
        orderly(before),
        token::allowance_decreased(before, after, owner, operator, delta, r),
    ensures
        orderly(after),
        supply(after) == supply(before),
        after.books()->0.balances == before.books()->0.balances,
{
    if after.current() == before.current() {
        lemma_unchanged(before, after);
    }
    if r is Ok {
        let ids = choose|ids: (ActorID, ActorID)|
            #![trigger token::account(ids.0), token::account(ids.1)]
            util::resolved_both(
                before.runtime.syscalls,
                after.runtime.syscalls,
                owner,
                operator,
                ids,
            ) && token::settled(
                before.books(),
                after.books(),
                r,
                ledger::change_allowance(
                    before.books()->0,
                    token::account(ids.0).key,
                    token::account(ids.1).key,
                    -delta,
                ),
            );
        if ids.0 == ids.1 {
            lemma_no_own_allowance(before.books()->0, before.granularity, ids.0);
        } else {
            lemma_allowance(before.books()->0, before.granularity, ids.0, ids.1, -delta);
        }
    }
}

/// Taking an allowance back keeps the rules, and changes neither the supply nor a balance.
pub proof fn revoking_keeps_the_rules<'st, S: Syscalls>(
    before: Token<'st, S>,
    after: Token<'st, S>,
    owner: AddressView,
    operator: AddressView,
    r: Result<TokenAmount, TokenError>,
)
    requires
        orderly(before),
        after.granularity == before.granularity,
        token::revoked(before, after, owner, operator, r),
    ensures
        orderly(after),
        supply(after) == supply(before),
        after.books()->0.balances == before.books()->0.balances,
{
    match (
        before.runtime.syscalls.resolves(owner),
        before.runtime.syscalls.resolves(operator),
    ) {
        (Some(a), Some(b)) => {
            if a == b {
                lemma_no_own_allowance(before.books()->0, before.granularity, a);
            } else {
                keys::key_names_its_actor(a);
                keys::key_names_its_actor(b);
                laws::allowance_law(
                    before.books()->0,
                    keys::key_of(a),
                    keys::key_of(b),
                    0,
                    before.granularity as int,
                    |k: Seq<u8>| keys::id_of(k),
                );
            }
        },
        _ => {},
    }
}

/// Setting an allowance keeps the rules, and changes neither the supply nor a balance, unless an
/// actor is given an allowance on its own tokens.
pub proof fn setting_an_allowance_keeps_the_rules<'st, S: Syscalls>(
    before: Token<'st, S>,
    after: Token<'st, S>,
    owner: AddressView,
    operator: AddressView,
    amount: int,
    r: Result<TokenAmount, TokenError>,
)
    requires
        orderly(before),
        r is Ok && amount > 0 ==> after.runtime.syscalls.resolves(owner)
            != after.runtime.syscalls.resolves(operator),
        token::allowance_set(before, after, owner, operator, amount, r),
    ensures
        orderly(after),
        supply(after) == supply(before),
        after.books()->0.balances == before.books()->0.balances,
{
    if after.current() == before.current() {
        lemma_unchanged(before, after);
    }
    if r is Ok {
        if amount == 0 {
            revoking_keeps_the_rules(before, after, owner, operator, r);
        } else {
            let ids = choose|ids: (ActorID, ActorID)|
                #![trigger token::account(ids.0), token::account(ids.1)]
                util::resolved_both(
                    before.runtime.syscalls,
                    after.runtime.syscalls,
                    owner,
                    operator,
                    ids,
                ) && token::settled(
                    before.books(),
                    after.books(),
                    r,
                    ledger::set_allowance(
                        before.books()->0,
                        ids.0,
                        token::account(ids.0).key,
                        ids.1,
                        token::account(ids.1).key,
                        amount,
                    ),
                );
            lemma_both_resolve(
                before.runtime.syscalls,
                after.runtime.syscalls,
                owner,
                operator,
                ids,
            );
            keys::key_names_its_actor(ids.0);
            keys::key_names_its_actor(ids.1);
            laws::allowance_law(
                before.books()->0,
                keys::key_of(ids.0),
                keys::key_of(ids.1),
                amount,
                before.granularity as int,
                |k: Seq<u8>| keys::id_of(k),
            );
        }
    }
}

/// Setting a balance keeps the rules. The supply changes by what the balance does, or nothing
/// changes.
pub proof fn setting_a_balance_keeps_the_rules<'st, S: Syscalls>(
    before: Token<'st, S>,
    after: Token<'st, S>,
    owner: AddressView,
    amount: int,
    r: Result<TokenAmount, TokenError>,
)
    requires
        orderly(before),
        token::balance_set(before, after, owner, amount, r),
    ensures
        orderly(after),
        r is Ok ==> supply(after) == supply(before) + amount - r->Ok_0@,
        r is Err ==> after.books() == before.books(),
{
    if after.current() == before.current() {
        lemma_unchanged(before, after);
    }
    if r is Ok {
        let id = choose|id: ActorID|
            #![trigger token::account(id)]
            util::resolved_or_made(
                before.runtime.syscalls,
                after.runtime.syscalls,
                owner,
                Ok(id),
            ) && match ledger::reset_balance(before.books()->0, token::account(id), amount) {
                Ok((books, old_balance)) => r->Ok_0@ == old_balance && after.books() == Some(books),
                Err(_) => r is Err,
            };
        keys::key_names_its_actor(id);
        laws::reset_balance_law(
            before.books()->0,
            token::account(id),
            amount,
            before.granularity as int,
            |k: Seq<u8>| keys::id_of(k),
        );
    }
}

/// A burn undoes a mint of the same amount to the same owner, if nothing else was done to the token
/// in between: it succeeds, the balance is what it was before the mint, and so is everything in the
/// books.
pub proof fn a_burn_undoes_a_mint<'st, S: Syscalls>(
    before: Token<'st, S>,
    between: Token<'st, S>,
    told: Token<'st, S>,
    after: Token<'st, S>,
    operator: AddressView,
    owner: AddressView,
    amount: int,
    operator_data: Seq<u8>,
    token_data: Seq<u8>,
    mint: Result<ReceiverHook<MintIntermediate>, TokenError>,
    burn: Result<BurnReturn, TokenError>,
)
    requires
        tallied(before),
        token::minted(
            before,
            between,
            operator,
            owner,
            amount,
            operator_data,
            token_data,
            mint,
        ),
        mint is Ok,
        told.books() == between.books(),
        told.granularity == between.granularity,
        told.runtime.syscalls.resolves(owner) == between.runtime.syscalls.resolves(owner),
        token::burnt(told, after, owner, amount, burn),
    ensures
        burn is Ok,
        after.books() == before.books(),
        burn->Ok_0.balance@ == after.balance_at(owner),
{
    let l = before.books()->0;
    let g = before.granularity as int;
    let id_of = |k: Seq<u8>| keys::id_of(k);
    let ids = choose|ids: (ActorID, ActorID)|
        #![trigger token::account(ids.1)]
        util::resolved_both(
            before.runtime.syscalls,
            between.runtime.syscalls,
            operator,
            owner,
            ids,
        ) && match ledger::issue(l, token::account(ids.1), amount) {
            Ok((books, _)) => between.books() == Some(books),
            Err(_) => false,
        };
    lemma_both_resolve(before.runtime.syscalls, between.runtime.syscalls, operator, owner, ids);
    laws::burn_undoes_mint(l, token::account(ids.1), amount, g, id_of);
    assert(token::amount_fault(amount, "mint"@, before.granularity) is None);
    assert(token::amount_fault(amount, "burn"@, told.granularity) is None);
    let id = choose|id: ActorID|
        #![trigger token::account(id)]
        util::resolved_or_made(
            told.runtime.syscalls,
            after.runtime.syscalls,
            owner,
            Ok(id),
        ) && match ledger::issue(told.books()->0, token::account(id), -amount) {
            Ok((books, balance)) => burn is Ok && burn->Ok_0.balance@ == balance && after.books()
                == Some(books),
            Err(_) => burn is Err,
        };
    assert(id == ids.1);
}

/// What two addresses were resolved to, they go on to stand for.
pub(crate) proof fn lemma_both_resolve<S: Syscalls>(
    before: S,
    after: S,
    a: AddressView,
    b: AddressView,
    ids: (ActorID, ActorID),
)
    requires
        util::resolved_both(before, after, a, b, ids),
    ensures
        after.resolves(a) == Some(ids.0),
        after.resolves(b) == Some(ids.1),
{
    let between = choose|between: S|
        #![trigger util::resolved_or_made(before, between, a, Ok(ids.0))]
        util::resolved_or_made(before, between, a, Ok(ids.0)) && util::resolved_or_made(
            between,
            after,
            b,
            Ok(ids.1),
        );
    assert(between.resolves(a) == Some(ids.0));
    assert(between.resolves(a) is Some);
}

proof fn lemma_allowance(books: Books, granularity: u64, owner: ActorID, operator: ActorID, delta: int)
    requires
        state::sound_books(books, granularity),
        keyed(books),
        owner != operator,
    ensures
        ledger::change_allowance(
            books,
            token::account(owner).key,
            token::account(operator).key,
            delta,
        ) matches Ok((n, _)) ==> state::sound_books(n, granularity) && keyed(n) && n.supply
            == books.supply && n.balances == books.balances,
{
    keys::key_names_its_actor(owner);
    keys::key_names_its_actor(operator);
    let sum = books.allowance(keys::key_of(owner), keys::key_of(operator)) + delta;
    laws::allowance_law(
        books,
        keys::key_of(owner),
        keys::key_of(operator),
        if sum < 0 {
            0
        } else {
            sum
        },
        granularity as int,
        |k: Seq<u8>| keys::id_of(k),
    );
}

} // verus!
