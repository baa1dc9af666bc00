//! What holds of a token after any number of operations.
use vstd::prelude::*;

use crate::address::AddressView;
use crate::amount::TokenAmount;
use crate::bytes::ActorID;
use crate::fil_fungible_token::error::TokenError;
use crate::fil_fungible_token::receiver::ReceiverHook;
use crate::fil_fungible_token::state;
use crate::fil_fungible_token::state::Books;
use crate::fil_fungible_token::token;
use crate::fil_fungible_token::token::Token;
use crate::fil_fungible_token::types::{
    BurnFromReturn, BurnReturn, MintReturn, TransferFromReturn, TransferReturn,
};
use crate::fvm_actor_utils::syscalls::Syscalls;
use crate::fvm_actor_utils::util;
use crate::laws;
use crate::ledger;
use crate::store;

verus! {

/// Something that was done to a token, with what came back.
pub enum Deed {
    /// Tokens were minted.
    Mint {
        /// Who mints.
        operator: AddressView,
        /// Who gets them.
        owner: AddressView,
        /// How many.
        amount: int,
        /// What the operator says.
        operator_data: Seq<u8>,
        /// What the token says.
        token_data: Seq<u8>,
        /// What came back.
        r: Result<(ReceiverHook, MintReturn), TokenError>,
    },
    /// Tokens were burnt by their owner.
    Burn {
        /// The owner.
        owner: AddressView,
        /// How many.
        amount: int,
        /// What came back.
        r: Result<BurnReturn, TokenError>,
    },
    /// Tokens were burnt by an operator.
    BurnFrom {
        /// The operator.
        operator: AddressView,
        /// The owner.
        owner: AddressView,
        /// How many.
        amount: int,
        /// What came back.
        r: Result<BurnFromReturn, TokenError>,
    },
    /// Tokens were transferred by their owner.
    Transfer {
        /// The owner.
        from: AddressView,
        /// The receiver.
        to: AddressView,
        /// How many.
        amount: int,
        /// What the operator says.
        operator_data: Seq<u8>,
        /// What the token says.
        token_data: Seq<u8>,
        /// What came back.
        r: Result<(ReceiverHook, TransferReturn), TokenError>,
    },
    /// Tokens were transferred by an operator.
    TransferFrom {
        /// The operator.
        operator: AddressView,
        /// The owner.
        from: AddressView,
        /// The receiver.
        to: AddressView,
        /// How many.
        amount: int,
        /// What the operator says.
        operator_data: Seq<u8>,
        /// What the token says.
        token_data: Seq<u8>,
        /// What came back.
        r: Result<(ReceiverHook, TransferFromReturn), TokenError>,
    },
    /// An allowance was raised.
    IncreaseAllowance {
        /// The owner.
        owner: AddressView,
        /// The operator.
        operator: AddressView,
        /// By how much.
        delta: int,
        /// What came back.
        r: Result<TokenAmount, TokenError>,
    },
    /// An allowance was lowered.
    DecreaseAllowance {
        /// The owner.
        owner: AddressView,
        /// The operator.
        operator: AddressView,
        /// By how much.
        delta: int,
        /// What came back.
        r: Result<TokenAmount, TokenError>,
    },
    /// An allowance was taken back.
    RevokeAllowance {
        /// The owner.
        owner: AddressView,
        /// The operator.
        operator: AddressView,
        /// What came back.
        r: Result<(), TokenError>,
    },
    /// Something else happened, which left the state as it was: a message was sent, or other blocks
    /// were stored.
    Elsewhere,
}

impl Deed {
    /// Whether this was done to a token, as the operations promise.
    pub open spec fn done<'st, S: Syscalls>(self, before: Token<'st, S>, after: Token<'st, S>) -> bool {
        match self {
            Deed::Mint { operator, owner, amount, operator_data, token_data, r } => token::minted(
                before,
                after,
                operator,
                owner,
                amount,
                operator_data,
                token_data,
                r,
            ),
            Deed::Burn { owner, amount, r } => token::burnt(
                before,
                after,
                owner,
                amount,
                r,
            ),
            Deed::BurnFrom { operator, owner, amount, r } => token::burnt_from(
                before,
                after,
                operator,
                owner,
                amount,
                r,
            ),
            Deed::Transfer { from, to, amount, operator_data, token_data, r } => token::transferred(
                before,
                after,
                from,
                to,
                amount,
                operator_data,
                token_data,
                r,
            ),
            Deed::TransferFrom { operator, from, to, amount, operator_data, token_data, r } => token::transferred_from(
                before,
                after,
                operator,
                from,
                to,
                amount,
                operator_data,
                token_data,
                r,
            ),
            Deed::IncreaseAllowance { owner, operator, delta, r } => token::allowance_increased(
                before,
                after,
                owner,
                operator,
                delta,
                r,
            ),
            Deed::DecreaseAllowance { owner, operator, delta, r } => token::allowance_decreased(
                before,
                after,
                owner,
                operator,
                delta,
                r,
            ),
            Deed::RevokeAllowance { owner, operator, r } => token::revoked(
                before,
                after,
                owner,
                operator,
                r,
            ),
            Deed::Elsewhere => after.granularity == before.granularity && after.current()
                == before.current() && store::kept(
                before.runtime.blockstore@,
                after.runtime.blockstore@,
            ),
        }
    }

    /// Whether no actor was given an allowance on its own tokens.
    pub open spec fn fair<'st, S: Syscalls>(self, after: Token<'st, S>) -> bool {
        self matches Deed::IncreaseAllowance { owner, operator, delta, r } ==> (r is Ok && delta > 0
            ==> after.runtime.syscalls.resolves(owner) != after.runtime.syscalls.resolves(operator))
    }

    /// How many tokens were made, less those that were taken out.
    pub open spec fn made(self) -> int {
        match self {
            Deed::Mint { amount, r, .. } => if r is Ok {
                amount
            } else {
                0
            },
            Deed::Burn { amount, r, .. } => if r is Ok {
                -amount
            } else {
                0
            },
            Deed::BurnFrom { amount, r, .. } => if r is Ok {
                -amount
            } else {
                0
            },
            _ => 0,
        }
    }
}

/// How many tokens were made by all of some deeds, less those that were taken out.
pub open spec fn made_by(deeds: Seq<Deed>) -> int
    decreases deeds.len(),
{
    if deeds.len() == 0 {
        0
    } else {
        made_by(deeds.drop_last()) + deeds.last().made()
    }
}

/// Whether a token went through these states, one deed after the other.
pub open spec fn went_through<'st, S: Syscalls>(history: Seq<Token<'st, S>>, deeds: Seq<Deed>) -> bool {
    &&& history.len() == deeds.len() + 1
    &&& forall|i: int|
        0 <= i < deeds.len() ==> (#[trigger] deeds[i]).done(history[i], history[i + 1])
}

/// Whether no actor was given an allowance on its own tokens at any time.
pub open spec fn fairly<'st, S: Syscalls>(history: Seq<Token<'st, S>>, deeds: Seq<Deed>) -> bool {
    forall|i: int| 0 <= i < deeds.len() ==> (#[trigger] deeds[i]).fair(history[i + 1])
}

/// Whether a token's trees can be read and add up: balances are positive multiples of the
/// granularity, and the supply is their sum.
pub open spec fn tallied<'st, S: Syscalls>(token: Token<'st, S>) -> bool {
    &&& token.granularity > 0
    &&& token.books() is Some
    &&& token.books()->0.adds_up(token.granularity as int, |id: ActorID| Some(id))
}

/// Whether a token's trees can be read, add up and keep the rules: no allowance is negative or
/// stored as zero, and nobody has one on their own tokens.
pub open spec fn orderly<'st, S: Syscalls>(token: Token<'st, S>) -> bool {
    tallied(token) && token.books()->0.allowances_sound(|id: ActorID| Some(id))
}

/// The supply of a token.
pub open spec fn supply<'st, S: Syscalls>(token: Token<'st, S>) -> int {
    token.books()->0.supply
}

/// A state that did not change reads the same.
proof fn lemma_unchanged<'st, S: Syscalls>(before: Token<'st, S>, after: Token<'st, S>)
    requires
        before.books() is Some,
        after.current() == before.current(),
        store::kept(before.runtime.blockstore@, after.runtime.blockstore@),
    ensures
        after.books() == before.books(),
{
    state::lemma_books_kept(
        before.current().record(),
        before.runtime.blockstore@,
        after.runtime.blockstore@,
    );
}

/// What two addresses were resolved to, they go on to stand for.
proof fn lemma_both_resolve<S: Syscalls>(
    before: S,
    after: S,
    a: AddressView,
    b: AddressView,
    ids: (ActorID, ActorID),
)
    requires
        util::resolved_both(before, after, a, b, ids),
    ensures
        after.resolves(a) == Some(ids.0),
        after.resolves(b) == Some(ids.1),
{
    let between = choose|between: S|
        #![trigger util::resolved_or_made(before, between, a, Ok(ids.0))]
        util::resolved_or_made(before, between, a, Ok(ids.0)) && util::resolved_or_made(
            between,
            after,
            b,
            Ok(ids.1),
        );
    assert(between.resolves(a) == Some(ids.0));
    assert(between.resolves(a) is Some);
}

/// An actor has no allowance on its own tokens, and taking that back changes nothing.
proof fn lemma_no_own_allowance(books: Books, actor: ActorID)
    requires
        books.allowances_sound(|id: ActorID| Some(id)),
    ensures
        books.allowance(actor, actor) == 0,
        books.with_allowance(actor, actor, 0) == books,
{
    let given = books.given_by(actor);
    if books.allowances.contains_key(actor) {
        assert(!given.contains_key(actor));
        assert(given != Map::<ActorID, int>::empty());
    }
    assert(ledger::with_amount(given, actor, 0) =~= given);
    assert(books.with_allowance(actor, actor, 0).allowances =~= books.allowances);
}

/// Changing an allowance between two actors keeps the rules.
proof fn lemma_allowance(books: Books, granularity: int, owner: ActorID, operator: ActorID, delta: int)
    requires
        books.sound(granularity, |id: ActorID| Some(id)),
        owner == operator ==> delta <= 0,
    ensures
        ledger::change_allowance(books, owner, operator, delta) matches Ok((n, _)) ==> n.sound(
            granularity,
            |id: ActorID| Some(id),
        ),
{
    if owner == operator {
        lemma_no_own_allowance(books, owner);
    } else {
        let sum = books.allowance(owner, operator) + delta;
        laws::allowance_law(
            books,
            owner,
            operator,
            if sum < 0 {
                0
            } else {
                sum
            },
            granularity,
            |id: ActorID| Some(id),
        );
    }
}

/// After one deed the books add up as before, and the supply has changed by what it made.
proof fn lemma_one_deed_adds_up<'st, S: Syscalls>(
    before: Token<'st, S>,
    after: Token<'st, S>,
    deed: Deed,
)
    requires
        tallied(before),
        deed.done(before, after),
    ensures
        tallied(after),
        supply(after) == supply(before) + deed.made(),
{
    let l = before.books()->0;
    let g = before.granularity as int;
    let id_of = |id: ActorID| Some(id);
    let (sooner, later) = (before.runtime.syscalls, after.runtime.syscalls);
    if after.current() == before.current() {
        lemma_unchanged(before, after);
    }
    match deed {
        Deed::Mint { operator, owner, amount, operator_data, token_data, r } => {
            if r is Ok {
                let a = token::account(later.resolves(owner)->0);
                laws::issue_law(l, a, amount, g, id_of);
            }
        },
        Deed::Burn { owner, amount, r } => {
            if r is Ok {
                let id = choose|id: ActorID|
                    #![trigger token::account(id)]
                    util::resolved_or_made(sooner, later, owner, Ok(id)) && match ledger::issue(
                        l,
                        token::account(id),
                        -amount,
                    ) {
                        Ok((books, _)) => after.books() == Some(books),
                        Err(_) => r is Err,
                    };
                laws::lemma_multiples(amount, amount, g);
                laws::issue_law(l, token::account(id), -amount, g, id_of);
            }
        },
        Deed::BurnFrom { operator, owner, amount, r } => {
            if r is Ok {
                let a = token::account(sooner.resolves(operator)->0);
                let b = token::account(sooner.resolves(owner)->0);
                laws::lemma_multiples(amount, amount, g);
                let m = ledger::use_allowance(l, a.id, a.key, b.id, b.key, amount)->Ok_0.0;
                laws::issue_law(m, b, -amount, g, id_of);
            }
        },
        Deed::Transfer { from, to, amount, operator_data, token_data, r } => {
            if r is Ok {
                let a = token::account(later.resolves(from)->0);
                let b = token::account(later.resolves(to)->0);
                laws::move_law(l, a, b, amount, g, id_of);
            }
        },
        Deed::TransferFrom { operator, from, to, amount, operator_data, token_data, r } => {
            if r is Ok {
                let a = token::account(sooner.resolves(operator)->0);
                let b = token::account(sooner.resolves(from)->0);
                let c = token::account(later.resolves(to)->0);
                let m = ledger::use_allowance(l, a.id, a.key, b.id, b.key, amount)->Ok_0.0;
                laws::move_law(m, b, c, amount, g, id_of);
            }
        },
        _ => {},
    }
}

/// One deed keeps the rules.
proof fn lemma_one_deed<'st, S: Syscalls>(before: Token<'st, S>, after: Token<'st, S>, deed: Deed)
    requires
        orderly(before),
        deed.done(before, after),
        deed.fair(after),
    ensures
        orderly(after),
{
    let l = before.books()->0;
    let g = before.granularity as int;
    let id_of = |id: ActorID| Some(id);
    let (sooner, later) = (before.runtime.syscalls, after.runtime.syscalls);
    lemma_one_deed_adds_up(before, after, deed);
    if after.current() == before.current() {
        lemma_unchanged(before, after);
    }
    match deed {
        Deed::BurnFrom { operator, owner, amount, r } => {
            if r is Ok {
                let (a, b) = (sooner.resolves(operator)->0, sooner.resolves(owner)->0);
                lemma_allowance(l, g, b, a, -amount);
            }
        },
        Deed::TransferFrom { operator, from, to, amount, operator_data, token_data, r } => {
            if r is Ok {
                let (a, b) = (sooner.resolves(operator)->0, sooner.resolves(from)->0);
                lemma_allowance(l, g, b, a, -amount);
            }
        },
        Deed::IncreaseAllowance { owner, operator, delta, r } => {
            if r is Ok {
                let ids = choose|ids: (ActorID, ActorID)|
                    #![trigger token::account(ids.0), token::account(ids.1)]
                    util::resolved_both(sooner, later, owner, operator, ids) && token::settled(
                        before.books(),
                        after.books(),
                        r,
                        ledger::change_allowance(
                            l,
                            token::account(ids.0).key,
                            token::account(ids.1).key,
                            delta,
                        ),
                    );
                lemma_both_resolve(sooner, later, owner, operator, ids);
                lemma_allowance(l, g, ids.0, ids.1, delta);
            }
        },
        Deed::DecreaseAllowance { owner, operator, delta, r } => {
            if r is Ok {
                let ids = choose|ids: (ActorID, ActorID)|
                    #![trigger token::account(ids.0), token::account(ids.1)]
                    util::resolved_both(sooner, later, owner, operator, ids) && token::settled(
                        before.books(),
                        after.books(),
                        r,
                        ledger::change_allowance(
                            l,
                            token::account(ids.0).key,
                            token::account(ids.1).key,
                            -delta,
                        ),
                    );
                lemma_allowance(l, g, ids.0, ids.1, -delta);
            }
        },
        Deed::RevokeAllowance { owner, operator, r } => match (
            sooner.resolves(owner),
            sooner.resolves(operator),
        ) {
            (Some(a), Some(b)) => {
                if a == b {
                    lemma_no_own_allowance(l, a);
                } else {
                    laws::allowance_law(l, a, b, 0, g, id_of);
                }
            },
            _ => {},
        },
        _ => {},
    }
}

/// What a token went through, but for the last deed.
proof fn lemma_all_but_the_last<'st, S: Syscalls>(history: Seq<Token<'st, S>>, deeds: Seq<Deed>)
    requires
        went_through(history, deeds),
        deeds.len() > 0,
    ensures
        went_through(history.drop_last(), deeds.drop_last()),
        fairly(history, deeds) ==> fairly(history.drop_last(), deeds.drop_last()),
        deeds.last().done(history.drop_last().last(), history.last()),
        fairly(history, deeds) ==> deeds.last().fair(history.last()),
{
    let earlier = history.drop_last();
    let fewer = deeds.drop_last();
    assert forall|i: int| 0 <= i < fewer.len() implies (#[trigger] fewer[i]).done(
        earlier[i],
        earlier[i + 1],
    ) && (fairly(history, deeds) ==> fewer[i].fair(earlier[i + 1])) by {
        assert(fewer[i] == deeds[i]);
    }
    let n = deeds.len() - 1;
    assert(deeds[n].done(history[n], history[n + 1]));
}

/// However often a token whose books add up is minted, burnt, transferred and has its allowances
/// changed, successfully or not, they go on to add up, whoever is given allowances. The supply grew
/// by what was minted, less what was burnt.
pub proof fn the_books_add_up_for_good<'st, S: Syscalls>(
    history: Seq<Token<'st, S>>,
    deeds: Seq<Deed>,
)
    requires
        went_through(history, deeds),
        tallied(history[0]),
    ensures
        tallied(history.last()),
        supply(history.last()) == supply(history[0]) + made_by(deeds),
    decreases deeds.len(),
{
    if deeds.len() > 0 {
        let earlier = history.drop_last();
        lemma_all_but_the_last(history, deeds);
        the_books_add_up_for_good(earlier, deeds.drop_last());
        lemma_one_deed_adds_up(earlier.last(), history.last(), deeds.last());
    }
}

/// However often a token that keeps the rules is minted, burnt, transferred and has its allowances
/// changed, successfully or not, it keeps them, as long as no actor is given an allowance on its own
/// tokens.
pub proof fn the_rules_hold_for_good<'st, S: Syscalls>(
    history: Seq<Token<'st, S>>,
    deeds: Seq<Deed>,
)
    requires
        went_through(history, deeds),
        fairly(history, deeds),
        orderly(history[0]),
    ensures
        orderly(history.last()),
    decreases deeds.len(),
{
    if deeds.len() > 0 {
        let earlier = history.drop_last();
        lemma_all_but_the_last(history, deeds);
        the_rules_hold_for_good(earlier, deeds.drop_last());
        lemma_one_deed(earlier.last(), history.last(), deeds.last());
    }
}

/// A new token, whatever is done to it, has as many tokens as its balances add up to, which is what
/// was minted less what was burnt, and never a negative number.
pub proof fn the_supply_is_what_was_minted_and_not_burnt<'st, S: Syscalls>(
    history: Seq<Token<'st, S>>,
    deeds: Seq<Deed>,
)
    requires
        went_through(history, deeds),
        history[0].granularity > 0,
        history[0].books() == Some(Books::empty()),
    ensures
        history.last().books() is Some,
        supply(history.last()) == ledger::total(history.last().books()->0.balances),
        supply(history.last()) == made_by(deeds),
        supply(history.last()) >= 0,
{
    laws::new_books_are_sound(history[0].granularity as int, |id: ActorID| Some(id));
    the_books_add_up_for_good(history, deeds);
}

/// A new token, whatever is done to it, is found to keep the rules, as long as no actor is given an
/// allowance on its own tokens.
pub proof fn a_new_token_stays_sound<'st, S: Syscalls>(
    history: Seq<Token<'st, S>>,
    deeds: Seq<Deed>,
)
    requires
        went_through(history, deeds),
        fairly(history, deeds),
        history[0].granularity > 0,
        history[0].books() == Some(Books::empty()),
    ensures
        history.last().books() is Some,
        state::sound_books(history.last().books()->0),
{
    laws::new_books_are_sound(history[0].granularity as int, |id: ActorID| Some(id));
    the_rules_hold_for_good(history, deeds);
    let books = history.last().books()->0;
    assert(books.balances_sound(1, |id: ActorID| Some(id))) by {
        assert forall|k: ActorID| #[trigger] books.balances.contains_key(k) implies
            books.balances[k] > 0 && books.balances[k] % 1 == 0 by {}
    }
}

} // verus!
