//! Dealing with a batch of tokens: for each in turn the caller's right is checked and then something
//! is done with it.
use vstd::prelude::*;

use crate::bits::OperatorSet;
use crate::bytes::{ActorID, Cid};
use crate::frc53_nft::collection;
use crate::frc53_nft::collection::{Holdings, NftFault};
use crate::frc53_nft::state;
use crate::frc53_nft::state::{
    debit_owner, hand_on, operator_out_of_range, owner_missing, read_token, StateError,
};
use crate::keys;
use crate::keys::actor_id_key;
use crate::nft_store;
use crate::nft_store::{TokenData, TokenID};
use crate::store;
use crate::store::Store;

verus! {

/// By what right an actor deals with tokens.
#[derive(Clone, Copy)]
pub enum Authority {
    /// The actor owns them.
    Owner(ActorID),
    /// The actor is an operator of each, or of the account that owns it.
    Operator(ActorID),
    /// The actor owns them, or is an operator of the account that owns each.
    Manager(ActorID),
    /// The right was checked before.
    Granted,
}

/// What is done with a token.
#[derive(Clone, Copy)]
pub enum Action {
    /// Authorise an operator for it.
    Approve(ActorID),
    /// Take an operator's authorisation back.
    Revoke(ActorID),
    /// Take it out and leave its owner's balance.
    Remove,
    /// Take it out, and off its owner's balance.
    Burn,
    /// Give it to a receiver.
    HandOn(ActorID),
}

/// Whether an actor is an operator of a token or of the account that owns it. A token or an owner
/// that is not there breaks the rules.
pub open spec fn approved(held: Holdings, id: TokenID, operator: ActorID) -> Result<bool, NftFault> {
    match collection::looked_up(held.tokens, id) {
        Ok(token) => if token.1.contains(operator) {
            Ok(true)
        } else if held.owners.contains_key(keys::key_of(token.0)) {
            Ok(held.owners[keys::key_of(token.0)].1.contains(operator))
        } else {
            Err(NftFault::Invariant)
        },
        Err(NftFault::TokenNotFound(_)) => Err(NftFault::Invariant),
        Err(fault) => Err(fault),
    }
}

impl Authority {
    /// Why the actor may not deal with a token, if it may not.
    pub open spec fn checked(self, held: Holdings, id: TokenID) -> Result<(), NftFault> {
        match self {
            Authority::Owner(actor) => match collection::looked_up(held.tokens, id) {
                Ok(token) => if token.0 == actor {
                    Ok(())
                } else {
                    Err(NftFault::NotOwner { actor, token_id: id })
                },
                Err(fault) => Err(fault),
            },
            Authority::Operator(actor) => match approved(held, id, actor) {
                Ok(yes) => if yes {
                    Ok(())
                } else {
                    Err(NftFault::NotAuthorized { actor, token_id: id })
                },
                Err(fault) => Err(fault),
            },
            Authority::Manager(actor) => match collection::looked_up(held.tokens, id) {
                Ok(token) => if token.0 == actor || collection::owner_info(
                    held.owners,
                    keys::key_of(token.0),
                ).1.contains(actor) {
                    Ok(())
                } else {
                    Err(NftFault::NotOwner { actor, token_id: id })
                },
                Err(fault) => Err(fault),
            },
            Authority::Granted => Ok(()),
        }
    }

    /// Why the actor may not deal with all of the first `n` tokens of a list, if it may not: the
    /// first of them for which the right is missing says so.
    pub open spec fn checked_all(self, held: Holdings, ids: Seq<TokenID>, n: nat) -> Result<
        (),
        NftFault,
    > {
        collection::in_turn((), ids, n, |done: (), id: TokenID| self.checked(held, id))
    }
}

impl Action {
    /// What the tokens and owners are after it.
    pub open spec fn done(self, held: Holdings, id: TokenID) -> Result<Holdings, NftFault> {
        match self {
            Action::Approve(operator) => if operator == u64::MAX && collection::looked_up(
                held.tokens,
                id,
            ) is Ok {
                Err(NftFault::Invariant)
            } else {
                reassigned(held, id, |old: Set<ActorID>| old.insert(operator))
            },
            Action::Revoke(operator) => reassigned(held, id, |old: Set<ActorID>| old.remove(operator)),
            Action::Remove => match collection::looked_up(held.tokens, id) {
                Ok(_) => Ok(Holdings { tokens: held.tokens.remove(id), ..held }),
                Err(fault) => Err(fault),
            },
            Action::Burn => match collection::looked_up(held.tokens, id) {
                Ok(token) => match collection::debited(held.owners, keys::key_of(token.0), 1) {
                    Ok(owners) => Ok(Holdings { tokens: held.tokens.remove(id), owners }),
                    Err(fault) => Err(fault),
                },
                Err(fault) => Err(fault),
            },
            Action::HandOn(receiver) => collection::handed_on(held, id, receiver),
        }
    }
}

/// Changing the operators of a token, where they can be stored.
pub open spec fn reassigned(
    held: Holdings,
    id: TokenID,
    change: spec_fn(Set<ActorID>) -> Set<ActorID>,
) -> Result<Holdings, NftFault> {
    match collection::looked_up(held.tokens, id) {
        Ok(token) => if nft_store::operators_fit(change(token.1)) {
            Ok(
                Holdings {
                    tokens: collection::with_operators(held.tokens, id, change(token.1)),
                    ..held
                },
            )
        } else {
            Err(NftFault::Amt)
        },
        Err(fault) => Err(fault),
    }
}

/// What dealing with the first `n` tokens of a list leads to: up to the first for which the right
/// is missing or that cannot be dealt with.
pub open spec fn batch(
    held: Holdings,
    ids: Seq<TokenID>,
    n: nat,
    authority: Authority,
    action: Action,
) -> Result<Holdings, NftFault> {
    collection::in_turn(
        held,
        ids,
        n,
        |now: Holdings, id: TokenID|
            match authority.checked(now, id) {
                Ok(_) => action.done(now, id),
                Err(fault) => Err(fault),
            },
    )
}

/// Once refused, a batch stays refused.
pub proof fn lemma_batch_refused(
    held: Holdings,
    ids: Seq<TokenID>,
    n: nat,
    m: nat,
    authority: Authority,
    action: Action,
)
    requires
        n <= m,
        batch(held, ids, n, authority, action) is Err,
    ensures
        batch(held, ids, m, authority, action) == batch(held, ids, n, authority, action),
    decreases m,
{
    if n < m {
        lemma_batch_refused(held, ids, n, (m - 1) as nat, authority, action);
    }
}

/// Asserts that the actor owns the token and returns a copy of the token's data
pub fn check_owner(bs: &Store, token_data: &Cid, actor: ActorID, token_id: TokenID) -> (r: Result<
    TokenData,
    StateError,
>)
    requires
        nft_store::tokens_at(bs@, token_data@) is Some,
    ensures
        nft_store::tokens_at(bs@, token_data@) is Some ==> match collection::looked_up(
            nft_store::tokens_at(bs@, token_data@)->0,
            token_id,
        ) {
            Ok(token) => if token.0 == actor {
                r is Ok && r->Ok_0@ == token
            } else {
                r is Err && r->Err_0@ == (NftFault::NotOwner { actor, token_id })
            },
            Err(fault) => r is Err && r->Err_0@ == fault,
        },
{
    match read_token(bs, token_data, token_id) {
        Ok(token) => if token.owner == actor {
            Ok(token)
        } else {
            Err(StateError::NotOwner { actor, token_id })
        },
        Err(e) => Err(e),
    }
}

/// The message that a token is missing
fn token_missing(token_id: TokenID) -> (r: StateError)
    ensures
        r@ == NftFault::Invariant,
{
    let message = "token ".to_owned().concat(token_id.to_string().as_str());
    StateError::InvariantFailed(message.concat(" not found"))
}

/// Whether an actor is an operator of a token or of the account that owns it
pub fn check_approved(
    bs: &Store,
    token_data: &Cid,
    owner_data: &Cid,
    operator: ActorID,
    token_id: TokenID,
) -> (r: Result<bool, StateError>)
    requires
        nft_store::tokens_at(bs@, token_data@) is Some,
    ensures
        state::holdings_at(bs@, token_data@, owner_data@) is Some ==> match approved(
            state::holdings_at(bs@, token_data@, owner_data@)->0,
            token_id,
            operator,
        ) {
            Ok(yes) => r is Ok && r->Ok_0 == yes,
            Err(fault) => r is Err && r->Err_0@ == fault,
        },
{
    let token = match nft_store::tokens_get(bs, token_data, token_id) {
        Ok(Some(token)) => token,
        Ok(None) => return Err(token_missing(token_id)),
        Err(e) => return Err(StateError::IpldAmt(e)),
    };
    // operator is approved at token-level
    if token.operators.contains_actor(&operator) {
        return Ok(true);
    }
    // operator is approved at account-level
    match nft_store::owners_get(
        bs,
        owner_data,
        state::HAMT_BIT_WIDTH,
        &actor_id_key(token.owner),
    ) {
        Ok(Some(account)) => Ok(account.operators.contains_actor(&operator)),
        Ok(None) => Err(owner_missing(token_id)),
        Err(e) => Err(StateError::IpldHamt(e)),
    }
}

/// Checks that an actor may deal with a token
pub fn authorize(
    bs: &Store,
    token_data: &Cid,
    owner_data: &Cid,
    authority: Authority,
    token_id: TokenID,
) -> (r: Result<(), StateError>)
    requires
        nft_store::tokens_at(bs@, token_data@) is Some,
    ensures
        state::holdings_at(bs@, token_data@, owner_data@) is Some ==> match authority.checked(
            state::holdings_at(bs@, token_data@, owner_data@)->0,
            token_id,
        ) {
            Ok(_) => r is Ok,
            Err(fault) => r is Err && r->Err_0@ == fault,
        },
{
    match authority {
        Authority::Owner(actor) => match check_owner(bs, token_data, actor, token_id) {
            Ok(_) => Ok(()),
            Err(e) => Err(e),
        },
        Authority::Operator(actor) => match check_approved(
            bs,
            token_data,
            owner_data,
            actor,
            token_id,
        ) {
            Ok(true) => Ok(()),
            Ok(false) => Err(StateError::NotAuthorized { actor, token_id }),
            Err(e) => Err(e),
        },
        Authority::Manager(actor) => {
            let token = match read_token(bs, token_data, token_id) {
                Ok(token) => token,
                Err(e) => return Err(e),
            };
            if token.owner == actor {
                return Ok(());
            }
            match nft_store::owners_get(
                bs,
                owner_data,
                state::HAMT_BIT_WIDTH,
                &actor_id_key(token.owner),
            ) {
                Ok(Some(account)) => if account.operators.contains_actor(&actor) {
                    Ok(())
                } else {
                    Err(StateError::NotOwner { actor, token_id })
                },
                Ok(None) => Err(StateError::NotOwner { actor, token_id }),
                Err(e) => Err(StateError::IpldHamt(e)),
            }
        },
        Authority::Granted => Ok(()),
    }
}

/// Once one token was refused, all are.
proof fn lemma_refused_all(held: Holdings, ids: Seq<TokenID>, n: nat, m: nat, authority: Authority)
    requires
        n <= m,
        authority.checked_all(held, ids, n) is Err,
    ensures
        authority.checked_all(held, ids, m) == authority.checked_all(held, ids, n),
    decreases m,
{
    if n < m {
        lemma_refused_all(held, ids, n, (m - 1) as nat, authority);
    }
}

/// Checks that an actor may deal with each of some tokens
pub fn authorize_all(
    bs: &Store,
    token_data: &Cid,
    owner_data: &Cid,
    authority: Authority,
    token_ids: &Vec<TokenID>,
) -> (r: Result<(), StateError>)
    requires
        nft_store::tokens_at(bs@, token_data@) is Some,
    ensures
        state::holdings_at(bs@, token_data@, owner_data@) is Some ==> match authority.checked_all(
            state::holdings_at(bs@, token_data@, owner_data@)->0,
            token_ids@,
            token_ids@.len(),
        ) {
            Ok(_) => r is Ok,
            Err(fault) => r is Err && r->Err_0@ == fault,
        },
{
    let ghost whole = state::holdings_at(bs@, token_data@, owner_data@) is Some;
    let ghost held = state::holdings_at(bs@, token_data@, owner_data@)->0;
    let mut i: usize = 0;
    while i < token_ids.len()
        invariant
            nft_store::tokens_at(bs@, token_data@) is Some,
            i <= token_ids.len(),
            whole == state::holdings_at(bs@, token_data@, owner_data@) is Some,
            held == state::holdings_at(bs@, token_data@, owner_data@)->0,
            whole ==> authority.checked_all(held, token_ids@, i as nat) is Ok,
        decreases token_ids.len() - i,
    {
        match authorize(bs, token_data, owner_data, authority, token_ids[i]) {
            Ok(()) => {},
            Err(e) => {
                proof {
                    if whole {
                        lemma_refused_all(
                            held,
                            token_ids@,
                            (i + 1) as nat,
                            token_ids@.len(),
                            authority,
                        );
                    }
                }
                return Err(e);
            },
        }
        i += 1;
    }
    Ok(())
}

/// Stores a token with other operators; the new root of the tokens
fn reassign(bs: &mut Store, token_data: &Cid, token_id: TokenID, token: &TokenData) -> (r: Result<
    Cid,
    StateError,
>)
    requires
        nft_store::tokens_at(old(bs)@, token_data@) is Some,
    ensures
        store::kept(old(bs)@, final(bs)@),
        r is Ok ==> nft_store::tokens_at(final(bs)@, r->Ok_0@) is Some,
        token_id < u64::MAX ==> if nft_store::operators_fit(token@.1) {
            r is Ok && nft_store::tokens_at(final(bs)@, r->Ok_0@) == Some(
                nft_store::tokens_at(old(bs)@, token_data@)->0.insert(token_id, token@),
            )
        } else {
            r is Err && r->Err_0@ == NftFault::Amt
        },
{
    match nft_store::tokens_set(bs, token_data, token_id, token) {
        Ok(root) => Ok(root),
        Err(e) => Err(StateError::IpldAmt(e)),
    }
}

/// Does something with a token; the new roots of tokens and owners
pub fn act(
    bs: &mut Store,
    token_data: &Cid,
    owner_data: &Cid,
    action: Action,
    token_id: TokenID,
) -> (r: Result<(Cid, Cid), StateError>)
    requires
        nft_store::tokens_at(old(bs)@, token_data@) is Some,
    ensures
        store::kept(old(bs)@, final(bs)@),
        r is Ok ==> nft_store::tokens_at(final(bs)@, r->Ok_0.0@) is Some,
        state::holdings_at(old(bs)@, token_data@, owner_data@) is Some ==> match action.done(
            state::holdings_at(old(bs)@, token_data@, owner_data@)->0,
            token_id,
        ) {
            Ok(held) => r is Ok && state::holdings_at(final(bs)@, r->Ok_0.0@, r->Ok_0.1@) == Some(
                held,
            ),
            Err(fault) => r is Err && r->Err_0@ == fault,
        },
{
    let ghost blocks = bs@;
    match action {
        Action::Approve(operator) => {
            let mut token = match read_token(bs, token_data, token_id) {
                Ok(token) => token,
                Err(e) => return Err(e),
            };
            if operator == u64::MAX {
                return Err(operator_out_of_range());
            }
            token.operators.add_operator(operator);
            match reassign(bs, token_data, token_id, &token) {
                Ok(root) => Ok((root, owner_data.clone())),
                Err(e) => Err(e),
            }
        },
        Action::Revoke(operator) => {
            let mut token = match read_token(bs, token_data, token_id) {
                Ok(token) => token,
                Err(e) => return Err(e),
            };
            token.operators.remove_operator(&operator);
            match reassign(bs, token_data, token_id, &token) {
                Ok(root) => Ok((root, owner_data.clone())),
                Err(e) => Err(e),
            }
        },
        Action::Remove => match nft_store::tokens_delete(bs, token_data, token_id) {
            Ok((root, Some(_))) => Ok((root, owner_data.clone())),
            Ok((_, None)) => Err(StateError::TokenNotFound(token_id)),
            Err(e) => Err(StateError::IpldAmt(e)),
        },
        Action::Burn => {
            let token = match read_token(bs, token_data, token_id) {
                Ok(token) => token,
                Err(e) => return Err(e),
            };
            let (owners, _) = match debit_owner(
                bs,
                owner_data,
                token.owner,
                1,
                owner_missing(token_id),
            ) {
                Ok(done) => done,
                Err(e) => return Err(e),
            };
            let ghost between = bs@;
            let removed = nft_store::tokens_delete(bs, token_data, token_id);
            proof {
                store::lemma_kept_trans(blocks, between, bs@);
            }
            match removed {
                Ok((root, _)) => Ok((root, owners)),
                Err(e) => Err(StateError::IpldAmt(e)),
            }
        },
        Action::HandOn(receiver) => hand_on(bs, token_data, owner_data, token_id, receiver),
    }
}

/// Deals with a batch of tokens; the new roots of tokens and owners. If any of them cannot be dealt
/// with, none is.
pub fn run_batch(
    bs: &mut Store,
    token_data: &Cid,
    owner_data: &Cid,
    token_ids: &Vec<TokenID>,
    authority: Authority,
    action: Action,
) -> (r: Result<(Cid, Cid), StateError>)
    requires
        nft_store::tokens_at(old(bs)@, token_data@) is Some,
    ensures
        store::kept(old(bs)@, final(bs)@),
        r is Ok ==> nft_store::tokens_at(final(bs)@, r->Ok_0.0@) is Some,
        state::holdings_at(old(bs)@, token_data@, owner_data@) is Some ==> match batch(
            state::holdings_at(old(bs)@, token_data@, owner_data@)->0,
            token_ids@,
            token_ids@.len(),
            authority,
            action,
        ) {
            Ok(held) => r is Ok && state::holdings_at(final(bs)@, r->Ok_0.0@, r->Ok_0.1@) == Some(
                held,
            ),
            Err(fault) => r is Err && r->Err_0@ == fault,
        },
{
    let ghost blocks = bs@;
    let ghost whole = state::holdings_at(blocks, token_data@, owner_data@) is Some;
    let ghost held = state::holdings_at(blocks, token_data@, owner_data@)->0;
    let mut tokens = token_data.clone();
    let mut owners = owner_data.clone();
    let mut i: usize = 0;
    while i < token_ids.len()
        invariant
            nft_store::tokens_at(bs@, tokens@) is Some,
            i <= token_ids.len(),
            blocks == old(bs)@,
            whole == state::holdings_at(blocks, token_data@, owner_data@) is Some,
            held == state::holdings_at(blocks, token_data@, owner_data@)->0,
            store::kept(blocks, bs@),
            whole ==> batch(held, token_ids@, i as nat, authority, action) is Ok
                && state::holdings_at(bs@, tokens@, owners@) == Some(
                batch(held, token_ids@, i as nat, authority, action)->Ok_0,
            ),
        decreases token_ids.len() - i,
    {
        let ghost before = bs@;
        let token_id = token_ids[i];
        match authorize(bs, &tokens, &owners, authority, token_id) {
            Ok(()) => {},
            Err(e) => {
                proof {
                    if whole {
                        lemma_batch_refused(
                            held,
                            token_ids@,
                            (i + 1) as nat,
                            token_ids@.len(),
                            authority,
                            action,
                        );
                    }
                }
                return Err(e);
            },
        }
        let acted = act(bs, &tokens, &owners, action, token_id);
        proof {
            store::lemma_kept_trans(blocks, before, bs@);
        }
        match acted {
            Ok((new_tokens, new_owners)) => {
                tokens = new_tokens;
                owners = new_owners;
            },
            Err(e) => {
                proof {
                    if whole {
                        lemma_batch_refused(
                            held,
                            token_ids@,
                            (i + 1) as nat,
                            token_ids@.len(),
                            authority,
                            action,
                        );
                    }
                }
                return Err(e);
            },
        }
        i += 1;
    }
    Ok((tokens, owners))
}

} // verus!
