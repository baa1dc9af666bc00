//! What holds of a token after any number of operations.
use vstd::prelude::*;

use crate::amount::TokenAmount;
use crate::bytes::ActorID;
use crate::fil_fungible_token::state as signed_state;
use crate::fil_fungible_token::state::Books;
use crate::fil_token::errors::ActorError;
use crate::fil_token::helper;
use crate::fil_token::helper::TokenHelper;
use crate::fil_token::runtime::Runtime;
use crate::fil_token::state;
use crate::laws;
use crate::ledger;
use crate::store;

verus! {

/// Something that was done to a token, with what came back.
pub enum Deed {
    /// Tokens were minted.
    Mint {
        /// Who gets them.
        holder: ActorID,
        /// How many.
        value: int,
        /// What came back.
        r: Result<(), ActorError>,
    },
    /// Tokens were burnt.
    Burn {
        /// Who burns them.
        operator: ActorID,
        /// Whose they are.
        target: ActorID,
        /// How many.
        value: int,
        /// What came back.
        r: Result<TokenAmount, ActorError>,
    },
    /// An allowance was raised.
    IncreaseAllowance {
        /// The owner.
        owner: ActorID,
        /// The spender.
        spender: ActorID,
        /// By how much.
        delta: int,
        /// What came back.
        r: Result<TokenAmount, ActorError>,
    },
    /// An allowance was lowered.
    DecreaseAllowance {
        /// The owner.
        owner: ActorID,
        /// The spender.
        spender: ActorID,
        /// By how much.
        delta: int,
        /// What came back.
        r: Result<TokenAmount, ActorError>,
    },
    /// An allowance was taken back.
    RevokeAllowance {
        /// The owner.
        owner: ActorID,
        /// The spender.
        spender: ActorID,
        /// What came back.
        r: Result<(), ActorError>,
    },
}

impl Deed {
    /// Whether this was done to a token, as the operations promise.
    pub open spec fn done<R: Runtime>(self, before: TokenHelper<R>, after: TokenHelper<R>) -> bool {
        let books = before.books()->0;
        match self {
            Deed::Mint { holder, value, r } => helper::carried_out(
                before,
                after,
                value < 0,
                helper::minting(books, holder, value),
                r,
            ),
            Deed::Burn { operator, target, value, r } => helper::carried_out(
                before,
                after,
                value < 0,
                helper::burning(books, operator, target, value),
                r,
            ),
            Deed::IncreaseAllowance { owner, spender, delta, r } => helper::carried_out(
                before,
                after,
                delta < 0,
                ledger::change_allowance(books, owner, spender, delta),
                r,
            ),
            Deed::DecreaseAllowance { owner, spender, delta, r } => helper::carried_out(
                before,
                after,
                delta < 0,
                ledger::change_allowance(books, owner, spender, -delta),
                r,
            ),
            Deed::RevokeAllowance { owner, spender, r } => helper::carried_out(
                before,
                after,
                false,
                ledger::revoke_allowance(books, owner, spender),
                r,
            ),
        }
    }

    /// How many tokens were made, less those that were taken out.
    pub open spec fn made(self) -> int {
        match self {
            Deed::Mint { value, r, .. } => if r is Ok {
                value
            } else {
                0
            },
            Deed::Burn { value, r, .. } => if r is Ok {
                -value
            } else {
                0
            },
            _ => 0,
        }
    }
}

/// How many tokens were made by all of some deeds, less those that were taken out.
pub open spec fn made_by(deeds: Seq<Deed>) -> int
    decreases deeds.len(),
{
    if deeds.len() == 0 {
        0
    } else {
        made_by(deeds.drop_last()) + deeds.last().made()
    }
}

/// Whether a token went through these states, one deed after the other.
pub open spec fn went_through<R: Runtime>(history: Seq<TokenHelper<R>>, deeds: Seq<Deed>) -> bool {
    &&& history.len() == deeds.len() + 1
    &&& forall|i: int|
        0 <= i < deeds.len() ==> (#[trigger] deeds[i]).done(history[i], history[i + 1])
}

/// Whether a token can be read and adds up: balances are positive, and the supply is their sum.
pub open spec fn tallied<R: Runtime>(token: TokenHelper<R>) -> bool {
    token.books() is Some && token.books()->0.adds_up(1, |id: ActorID| Some(id))
}

/// The supply of a token.
pub open spec fn supply<R: Runtime>(token: TokenHelper<R>) -> int {
    token.books()->0.supply
}

/// A state that did not change reads the same.
proof fn lemma_unchanged<R: Runtime>(before: TokenHelper<R>, after: TokenHelper<R>)
    requires
        before.books() is Some,
        after.token_state == before.token_state,
        store::kept(before.bs@, after.bs@),
    ensures
        after.books() == before.books(),
{
    let root = before.token_state@;
    assert(before.bs@.dom().contains(root));
    signed_state::lemma_books_kept(
        signed_state::state_record(before.bs@[root])->0,
        before.bs@,
        after.bs@,
    );
}

/// After one deed the books add up as before, and the supply has changed by what it made.
proof fn lemma_one_deed<R: Runtime>(before: TokenHelper<R>, after: TokenHelper<R>, deed: Deed)
    requires
        tallied(before),
        deed.done(before, after),
    ensures
        tallied(after),
        supply(after) == supply(before) + deed.made(),
{
    let l = before.books()->0;
    let id_of = |id: ActorID| Some(id);
    if after.token_state == before.token_state {
        lemma_unchanged(before, after);
    }
    match deed {
        Deed::Mint { holder, value, r } => {
            if r is Ok {
                laws::issue_law(l, helper::account(holder), value, 1, id_of);
            }
        },
        Deed::Burn { operator, target, value, r } => {
            if r is Ok {
                let m = if operator == target {
                    l
                } else {
                    state::spending(l, operator, target, value)->Ok_0.0
                };
                laws::issue_law(m, helper::account(target), -value, 1, id_of);
            }
        },
        _ => {},
    }
}

/// However often a token whose books add up is minted, burnt and has its allowances changed,
/// successfully or not, they go on to add up. The supply grew by what was minted, less what was
/// burnt.
pub proof fn the_books_add_up_for_good<R: Runtime>(history: Seq<TokenHelper<R>>, deeds: Seq<Deed>)
    requires
        went_through(history, deeds),
        tallied(history[0]),
    ensures
        tallied(history.last()),
        supply(history.last()) == supply(history[0]) + made_by(deeds),
    decreases deeds.len(),
{
    if deeds.len() > 0 {
        let earlier = history.drop_last();
        let fewer = deeds.drop_last();
        assert forall|i: int| 0 <= i < fewer.len() implies (#[trigger] fewer[i]).done(
            earlier[i],
            earlier[i + 1],
        ) by {
            assert(fewer[i] == deeds[i]);
        }
        the_books_add_up_for_good(earlier, fewer);
        let n = deeds.len() - 1;
        assert(deeds[n].done(history[n], history[n + 1]));
        lemma_one_deed(history[n], history[n + 1], deeds[n]);
    }
}

/// A new token, whatever is done to it, has as many tokens as its balances add up to, which is what
/// was minted less what was burnt, and never a negative number.
pub proof fn the_supply_is_what_was_minted_and_not_burnt<R: Runtime>(
    history: Seq<TokenHelper<R>>,
    deeds: Seq<Deed>,
)
    requires
        went_through(history, deeds),
        history[0].books() == Some(Books::empty()),
    ensures
        history.last().books() is Some,
        supply(history.last()) == ledger::total(history.last().books()->0.balances),
        supply(history.last()) == made_by(deeds),
        supply(history.last()) >= 0,
{
    laws::new_books_are_sound(1, |id: ActorID| Some(id));
    the_books_add_up_for_good(history, deeds);
}

} // verus!
