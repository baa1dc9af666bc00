//! What holds of a token after any number of operations.
use vstd::prelude::*;

use crate::address::AddressView;
use crate::amount::TokenAmount;
use crate::bytes::ActorID;
use crate::frc46_token::error::TokenError;
use crate::frc46_token::laws;
use crate::frc46_token::state;
use crate::frc46_token::state::Books;
use crate::frc46_token::token;
use crate::frc46_token::token::Token;
use crate::frc46_token::types::{
    BurnFromReturn, BurnReturn, MintIntermediate, TransferFromIntermediate, TransferIntermediate,
};
use crate::fvm_actor_utils::receiver::ReceiverHook;
use crate::fvm_actor_utils::syscalls::Syscalls;
use crate::fvm_actor_utils::util;
use crate::keys;
use crate::ledger;
use crate::store;

verus! {

/// Something that was done to a token, with what came back.
pub enum Deed {
    /// Tokens were minted.
    Mint {
        /// Who mints.
        operator: AddressView,
        /// Who gets them.
        owner: AddressView,
        /// How many.
        amount: int,
        /// What the operator says.
        operator_data: Seq<u8>,
        /// What the token says.
        token_data: Seq<u8>,
        /// What came back.
        r: Result<ReceiverHook<MintIntermediate>, TokenError>,
    },
    /// Tokens were burnt by their owner.
    Burn {
        /// The owner.
        owner: AddressView,
        /// How many.
        amount: int,
        /// What came back.
        r: Result<BurnReturn, TokenError>,
    },
    /// Tokens were burnt by an operator.
    BurnFrom {
        /// The operator.
        operator: AddressView,
        /// The owner.
        owner: AddressView,
        /// How many.
        amount: int,
        /// What came back.
        r: Result<BurnFromReturn, TokenError>,
    },
    /// Tokens were transferred by their owner.
    Transfer {
        /// The owner.
        from: AddressView,
        /// The receiver.
        to: AddressView,
        /// How many.
        amount: int,
        /// What the operator says.
        operator_data: Seq<u8>,
        /// What the token says.
        token_data: Seq<u8>,
        /// What came back.
        r: Result<ReceiverHook<TransferIntermediate>, TokenError>,
    },
    /// Tokens were transferred by an operator.
    TransferFrom {
        /// The operator.
        operator: AddressView,
        /// The owner.
        from: AddressView,
        /// The receiver.
        to: AddressView,
        /// How many.
        amount: int,
        /// What the operator says.
        operator_data: Seq<u8>,
        /// What the token says.
        token_data: Seq<u8>,
        /// What came back.
        r: Result<ReceiverHook<TransferFromIntermediate>, TokenError>,
    },
    /// An allowance was raised.
    IncreaseAllowance {
        /// The owner.
        owner: AddressView,
        /// The operator.
        operator: AddressView,
        /// By how much.
        delta: int,
        /// What came back.
        r: Result<TokenAmount, TokenError>,
    },
    /// An allowance was lowered.
    DecreaseAllowance {
        /// The owner.
        owner: AddressView,
        /// The operator.
        operator: AddressView,
        /// By how much.
        delta: int,
        /// What came back.
        r: Result<TokenAmount, TokenError>,
    },
    /// An allowance was set.
    SetAllowance {
        /// The owner.
        owner: AddressView,
        /// The operator.
        operator: AddressView,
        /// To what.
        amount: int,
        /// What came back.
        r: Result<TokenAmount, TokenError>,
    },
    /// An allowance was taken back.
    RevokeAllowance {
        /// The owner.
        owner: AddressView,
        /// The operator.
        operator: AddressView,
        /// What came back.
        r: Result<TokenAmount, TokenError>,
    },
    /// A balance was set.
    SetBalance {
        /// The owner.
        owner: AddressView,
        /// To what.
        amount: int,
        /// What came back.
        r: Result<TokenAmount, TokenError>,
    },
    /// Something else happened, which left the state as it was: a message was sent, or other blocks
    /// were stored.
    Elsewhere,
}

impl Deed {
    /// Whether this was done to a token, as the operations promise.
    pub open spec fn done<'st, S: Syscalls>(self, before: Token<'st, S>, after: Token<'st, S>) -> bool {
        match self {
            Deed::Mint { operator, owner, amount, operator_data, token_data, r } => token::minted(
                before,
                after,
                operator,
                owner,
                amount,
                operator_data,
                token_data,
                r,
            ),
            Deed::Burn { owner, amount, r } => token::burnt(before, after, owner, amount, r),
            Deed::BurnFrom { operator, owner, amount, r } => token::burnt_from(
                before,
                after,
                operator,
                owner,
                amount,
                r,
            ),
            Deed::Transfer { from, to, amount, operator_data, token_data, r } => token::transferred(
                before,
                after,
                from,
                to,
                amount,
                operator_data,
                token_data,
                r,
            ),
            Deed::TransferFrom { operator, from, to, amount, operator_data, token_data, r } => {
                token::transferred_from(
                    before,
                    after,
                    operator,
                    from,
                    to,
                    amount,
                    operator_data,
                    token_data,
                    r,
                )
            },
            Deed::IncreaseAllowance { owner, operator, delta, r } => token::allowance_increased(
                before,
                after,
                owner,
                operator,
                delta,
                r,
            ),
            Deed::DecreaseAllowance { owner, operator, delta, r } => token::allowance_decreased(
                before,
                after,
                owner,
                operator,
                delta,
                r,
            ),
            Deed::SetAllowance { owner, operator, amount, r } => token::allowance_set(
                before,
                after,
                owner,
                operator,
                amount,
                r,
            ),
            Deed::RevokeAllowance { owner, operator, r } => after.granularity == before.granularity
                && token::revoked(before, after, owner, operator, r),
            Deed::SetBalance { owner, amount, r } => token::balance_set(
                before,
                after,
                owner,
                amount,
                r,
            ),
            Deed::Elsewhere => after.granularity == before.granularity && after.current()
                == before.current() && store::kept(
                before.runtime.blockstore@,
                after.runtime.blockstore@,
            ),
        }
    }

    /// Whether no actor was given an allowance on its own tokens.
    pub open spec fn fair<'st, S: Syscalls>(self, after: Token<'st, S>) -> bool {
        match self {
            Deed::IncreaseAllowance { owner, operator, delta, r } => r is Ok && delta > 0
                ==> after.runtime.syscalls.resolves(owner) != after.runtime.syscalls.resolves(
                operator,
            ),
            Deed::SetAllowance { owner, operator, amount, r } => r is Ok && amount > 0
                ==> after.runtime.syscalls.resolves(owner) != after.runtime.syscalls.resolves(
                operator,
            ),
            _ => true,
        }
    }

    /// How many tokens were made, less those that were taken out.
    pub open spec fn made(self) -> int {
        match self {
            Deed::Mint { amount, r, .. } => if r is Ok {
                amount
            } else {
                0
            },
            Deed::Burn { amount, r, .. } => if r is Ok {
                -amount
            } else {
                0
            },
            Deed::BurnFrom { amount, r, .. } => if r is Ok {
                -amount
            } else {
                0
            },
            Deed::SetBalance { amount, r, .. } => match r {
                Ok(before) => amount - before@,
                Err(_) => 0,
            },
            _ => 0,
        }
    }
}

/// How many tokens were made by all of some deeds, less those that were taken out.
pub open spec fn made_by(deeds: Seq<Deed>) -> int
    decreases deeds.len(),
{
    if deeds.len() == 0 {
        0
    } else {
        made_by(deeds.drop_last()) + deeds.last().made()
    }
}

/// Whether a token went through these states, one deed after the other.
pub open spec fn went_through<'st, S: Syscalls>(history: Seq<Token<'st, S>>, deeds: Seq<Deed>) -> bool {
    &&& history.len() == deeds.len() + 1
    &&& forall|i: int|
        0 <= i < deeds.len() ==> (#[trigger] deeds[i]).done(history[i], history[i + 1])
}

/// Whether no actor was given an allowance on its own tokens at any time.
pub open spec fn fairly<'st, S: Syscalls>(history: Seq<Token<'st, S>>, deeds: Seq<Deed>) -> bool {
    forall|i: int| 0 <= i < deeds.len() ==> (#[trigger] deeds[i]).fair(history[i + 1])
}

/// What a token went through, but for the last deed.
proof fn lemma_all_but_the_last<'st, S: Syscalls>(history: Seq<Token<'st, S>>, deeds: Seq<Deed>)
    requires
        went_through(history, deeds),
        deeds.len() > 0,
    ensures
        went_through(history.drop_last(), deeds.drop_last()),
        fairly(history, deeds) ==> fairly(history.drop_last(), deeds.drop_last()),
        deeds.last().done(history.drop_last().last(), history.last()),
        fairly(history, deeds) ==> deeds.last().fair(history.last()),
{
    let earlier = history.drop_last();
    let fewer = deeds.drop_last();
    assert forall|i: int| 0 <= i < fewer.len() implies (#[trigger] fewer[i]).done(
        earlier[i],
        earlier[i + 1],
    ) && (fairly(history, deeds) ==> fewer[i].fair(earlier[i + 1])) by {
        assert(fewer[i] == deeds[i]);
    }
    let n = deeds.len() - 1;
    assert(deeds[n].done(history[n], history[n + 1]));
}

/// One deed keeps the rules.
proof fn lemma_one_deed<'st, S: Syscalls>(before: Token<'st, S>, after: Token<'st, S>, deed: Deed)
    requires
        laws::orderly(before),
        deed.done(before, after),
        deed.fair(after),
    ensures
        laws::orderly(after),
{
    match deed {
        Deed::Mint { operator, owner, amount, operator_data, token_data, r } => {
            laws::minting_keeps_the_rules(
                before,
                after,
                operator,
                owner,
                amount,
                operator_data,
                token_data,
                r,
            );
        },
        Deed::Burn { owner, amount, r } => {
            laws::burning_keeps_the_rules(before, after, owner, amount, r);
        },
        Deed::BurnFrom { operator, owner, amount, r } => {
            laws::delegated_burning_keeps_the_rules(before, after, operator, owner, amount, r);
        },
        Deed::Transfer { from, to, amount, operator_data, token_data, r } => {
            laws::transfer_keeps_the_rules(
                before,
                after,
                from,
                to,
                amount,
                operator_data,
                token_data,
                r,
            );
        },
        Deed::TransferFrom { operator, from, to, amount, operator_data, token_data, r } => {
            laws::delegated_transfer_keeps_the_rules(
                before,
                after,
                operator,
                from,
                to,
                amount,
                operator_data,
                token_data,
                r,
            );
        },
        Deed::IncreaseAllowance { owner, operator, delta, r } => {
            laws::raising_an_allowance_keeps_the_rules(before, after, owner, operator, delta, r);
        },
        Deed::DecreaseAllowance { owner, operator, delta, r } => {
            laws::lowering_an_allowance_keeps_the_rules(before, after, owner, operator, delta, r);
        },
        Deed::SetAllowance { owner, operator, amount, r } => {
            laws::setting_an_allowance_keeps_the_rules(before, after, owner, operator, amount, r);
        },
        Deed::RevokeAllowance { owner, operator, r } => {
            laws::revoking_keeps_the_rules(before, after, owner, operator, r);
        },
        Deed::SetBalance { owner, amount, r } => {
            laws::setting_a_balance_keeps_the_rules(before, after, owner, amount, r);
        },
        Deed::Elsewhere => {
            state::lemma_ledger_kept(
                before.current(),
                before.runtime.blockstore@,
                after.runtime.blockstore@,
            );
        },
    }
}

/// After one deed the books add up as before, and the supply has changed by what it made.
proof fn lemma_one_deed_adds_up<'st, S: Syscalls>(
    before: Token<'st, S>,
    after: Token<'st, S>,
    deed: Deed,
)
    requires
        laws::tallied(before),
        deed.done(before, after),
    ensures
        laws::tallied(after),
        laws::supply(after) == laws::supply(before) + deed.made(),
{
    let l = before.books()->0;
    let g = before.granularity as int;
    let id_of = |k: Seq<u8>| keys::id_of(k);
    let (sooner, later) = (before.runtime.syscalls, after.runtime.syscalls);
    match deed {
        Deed::Mint { operator, owner, amount, operator_data, token_data, r } => {
            if after.current() == before.current() {
                laws::lemma_unchanged(before, after);
            }
            if token::amount_fault(amount, "mint"@, before.granularity) is None && !(r is Err
                && r->Err_0 is Messaging) {
                let ids = choose|ids: (ActorID, ActorID)|
                    #![trigger token::account(ids.1)]
                    util::resolved_both(sooner, later, operator, owner, ids)
                        && match ledger::issue(l, token::account(ids.1), amount) {
                        Ok((books, _)) => after.books() == Some(books),
                        Err(fault) => r is Err && after.current() == before.current(),
                    };
                let account = token::account(ids.1);
                keys::key_names_its_actor(ids.1);
                if ledger::issue(l, account, amount) is Ok {
                    crate::laws::issue_law(l, account, amount, g, id_of);
                    crate::laws::lemma_balance(l, account.key, g, id_of);
                    vstd::arithmetic::power2::lemma_pow2_pos(1016);
                    assert(store::storable(amount));
                }
            }
        },
        Deed::Burn { owner, amount, r } => {
            if r is Err {
                laws::lemma_unchanged(before, after);
            } else {
                let id = choose|id: ActorID|
                    #![trigger token::account(id)]
                    util::resolved_or_made(sooner, later, owner, Ok(id)) && match ledger::issue(
                        l,
                        token::account(id),
                        -amount,
                    ) {
                        Ok((books, _)) => after.books() == Some(books),
                        Err(_) => r is Err,
                    };
                keys::key_names_its_actor(id);
                crate::laws::lemma_multiples(amount, amount, g);
                crate::laws::issue_law(l, token::account(id), -amount, g, id_of);
            }
        },
        Deed::BurnFrom { operator, owner, amount, r } => {
            if r is Err {
                laws::lemma_unchanged(before, after);
            } else {
                let a = token::account(sooner.resolves(operator)->0);
                let b = token::account(sooner.resolves(owner)->0);
                keys::key_names_its_actor(b.id);
                crate::laws::lemma_multiples(amount, amount, g);
                let m = ledger::use_allowance(l, a.id, a.key, b.id, b.key, amount)->Ok_0.0;
                crate::laws::issue_law(m, b, -amount, g, id_of);
            }
        },
        Deed::Transfer { from, to, amount, operator_data, token_data, r } => {
            if after.current() == before.current() {
                laws::lemma_unchanged(before, after);
            }
            if token::amount_fault(amount, "transfer"@, before.granularity) is None && !(r is Err
                && r->Err_0 is Messaging) {
                let ids = choose|ids: (ActorID, ActorID)|
                    #![trigger token::account(ids.0), token::account(ids.1)]
                    util::resolved_both(sooner, later, from, to, ids) && match ledger::move_tokens(
                        l,
                        token::account(ids.0),
                        token::account(ids.1),
                        amount,
                    ) {
                        Ok((books, _)) => after.books() == Some(books),
                        Err(fault) => r is Err && after.current() == before.current(),
                    };
                let (a, b) = (token::account(ids.0), token::account(ids.1));
                keys::key_names_its_actor(ids.0);
                keys::key_names_its_actor(ids.1);
                if ledger::move_tokens(l, a, b, amount) is Ok {
                    crate::laws::move_law(l, a, b, amount, g, id_of);
                }
            }
        },
        Deed::TransferFrom { operator, from, to, amount, operator_data, token_data, r } => {
            if after.current() == before.current() {
                laws::lemma_unchanged(before, after);
            }
            if token::transfer_from_fault(sooner, before.granularity, operator, from, amount)
                is None && !(r is Err && r->Err_0 is Messaging) {
                let a = token::account(sooner.resolves(operator)->0);
                let b = token::account(sooner.resolves(from)->0);
                let id = choose|id: ActorID|
                    #![trigger token::account(id)]
                    util::resolved_or_made(sooner, later, to, Ok(id)) && match ledger::move_from(
                        l,
                        a,
                        b,
                        token::account(id),
                        amount,
                    ) {
                        Ok((books, _)) => after.books() == Some(books),
                        Err(fault) => r is Err && after.current() == before.current(),
                    };
                let c = token::account(id);
                keys::key_names_its_actor(b.id);
                keys::key_names_its_actor(id);
                if ledger::move_from(l, a, b, c, amount) is Ok {
                    let m = ledger::use_allowance(l, a.id, a.key, b.id, b.key, amount)->Ok_0.0;
                    crate::laws::move_law(m, b, c, amount, g, id_of);
                }
            }
        },
        Deed::SetBalance { owner, amount, r } => {
            if r is Err {
                laws::lemma_unchanged(before, after);
            } else {
                let id = choose|id: ActorID|
                    #![trigger token::account(id)]
                    util::resolved_or_made(sooner, later, owner, Ok(id))
                        && match ledger::reset_balance(l, token::account(id), amount) {
                        Ok((books, was)) => r->Ok_0@ == was && after.books() == Some(books),
                        Err(_) => r is Err,
                    };
                keys::key_names_its_actor(id);
                crate::laws::reset_balance_law(l, token::account(id), amount, g, id_of);
            }
        },
        Deed::RevokeAllowance { .. } => {},
        _ => {
            // an allowance at most
            if after.current() == before.current() {
                laws::lemma_unchanged(before, after);
            }
        },
    }
}

/// However often a token that keeps the rules is minted, burnt, transferred and has its allowances
/// and balances changed, successfully or not, it keeps them, as long as no actor is given an
/// allowance on its own tokens.
pub proof fn the_rules_hold_for_good<'st, S: Syscalls>(
    history: Seq<Token<'st, S>>,
    deeds: Seq<Deed>,
)
    requires
        went_through(history, deeds),
        fairly(history, deeds),
        laws::orderly(history[0]),
    ensures
        laws::orderly(history.last()),
    decreases deeds.len(),
{
    if deeds.len() > 0 {
        let earlier = history.drop_last();
        lemma_all_but_the_last(history, deeds);
        the_rules_hold_for_good(earlier, deeds.drop_last());
        lemma_one_deed(earlier.last(), history.last(), deeds.last());
    }
}

/// However often a token whose books add up is minted, burnt, transferred and has its allowances
/// and balances changed, successfully or not, they go on to add up, whoever is given allowances.
/// The supply grew by what was minted, less what was burnt.
pub proof fn the_books_add_up_for_good<'st, S: Syscalls>(
    history: Seq<Token<'st, S>>,
    deeds: Seq<Deed>,
)
    requires
        went_through(history, deeds),
        laws::tallied(history[0]),
    ensures
        laws::tallied(history.last()),
        laws::supply(history.last()) == laws::supply(history[0]) + made_by(deeds),
    decreases deeds.len(),
{
    if deeds.len() > 0 {
        let earlier = history.drop_last();
        lemma_all_but_the_last(history, deeds);
        the_books_add_up_for_good(earlier, deeds.drop_last());
        lemma_one_deed_adds_up(earlier.last(), history.last(), deeds.last());
    }
}

/// A new token, whatever is done to it, has as many tokens as its balances add up to, which is what
/// was minted less what was burnt, and never a negative number.
pub proof fn the_supply_is_what_was_minted_and_not_burnt<'st, S: Syscalls>(
    history: Seq<Token<'st, S>>,
    deeds: Seq<Deed>,
)
    requires
        went_through(history, deeds),
        history[0].granularity > 0,
        history[0].books() == Some(Books::empty()),
    ensures
        history.last().books() is Some,
        laws::supply(history.last()) == ledger::total(history.last().books()->0.balances),
        laws::supply(history.last()) == made_by(deeds),
        laws::supply(history.last()) >= 0,
{
    crate::laws::new_books_are_sound(
        history[0].granularity as int,
        |k: Seq<u8>| keys::id_of(k),
    );
    the_books_add_up_for_good(history, deeds);
}

/// A new token, whatever is done to it, is found to keep the rules, as long as no actor is given an
/// allowance on its own tokens.
pub proof fn a_new_token_stays_sound<'st, S: Syscalls>(
    history: Seq<Token<'st, S>>,
    deeds: Seq<Deed>,
)
    requires
        went_through(history, deeds),
        fairly(history, deeds),
        history[0].granularity > 0,
        history[0].books() == Some(Books::empty()),
    ensures
        history.last().books() is Some,
        state::sound_books(history.last().books()->0, history.last().granularity),
{
    crate::laws::new_books_are_sound(
        history[0].granularity as int,
        |k: Seq<u8>| keys::id_of(k),
    );
    the_rules_hold_for_good(history, deeds);
}

} // verus!
