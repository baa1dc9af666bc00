//! What a collection of non-fungible tokens keeps account of, as mathematical maps.
use vstd::prelude::*;

use crate::bytes::ActorID;
use crate::keys;
use crate::nft_store::{OwnerInfo, Owners, TokenID, TokenInfo, Tokens};

verus! {

/// Why an operation on a collection is refused.
pub enum NftFault {
    /// The array of tokens cannot be read or written.
    Amt,
    /// The tree of owners cannot be read or written.
    Hamt,
    /// There is no such token.
    TokenNotFound(TokenID),
    /// The actor does not own the token.
    NotOwner {
        /// The actor.
        actor: ActorID,
        /// The token.
        token_id: TokenID,
    },
    /// The actor may not act on the token.
    NotAuthorized {
        /// The actor.
        actor: ActorID,
        /// The token.
        token_id: TokenID,
    },
    /// The receiver hook cannot be made.
    ReceiverHook,
    /// The cursor belongs to another state.
    InvalidCursor,
    /// Tokens and owners do not go together, or there are too many to count.
    Invariant,
}

/// The tokens and the owners of a collection.
#[verifier::ext_equal]
pub struct Holdings {
    /// The tokens.
    pub tokens: Tokens,
    /// The owners.
    pub owners: Owners,
}

/// A collection of tokens.
#[verifier::ext_equal]
pub struct Collection {
    /// The tokens and their owners.
    pub held: Holdings,
    /// The number of the next token to be minted.
    pub next: TokenID,
    /// How many tokens there are.
    pub supply: u64,
}

/// The owner that a tree has under a key: no tokens and no operators where it has no entry.
pub open spec fn owner_info(owners: Owners, key: Seq<u8>) -> OwnerInfo {
    if owners.contains_key(key) {
        owners[key]
    } else {
        (0, Set::empty())
    }
}

/// The owners with another entry. An owner without tokens and operators has none.
pub open spec fn with_owner(owners: Owners, key: Seq<u8>, info: OwnerInfo) -> Owners {
    if info.0 == 0 && info.1 == Set::<ActorID>::empty() {
        owners.remove(key)
    } else {
        owners.insert(key, info)
    }
}

/// Taking tokens off an owner's balance.
pub open spec fn debited(owners: Owners, key: Seq<u8>, count: nat) -> Result<Owners, NftFault> {
    if !owners.contains_key(key) || owners[key].0 < count {
        Err(NftFault::Invariant)
    } else {
        Ok(with_owner(owners, key, ((owners[key].0 - count) as u64, owners[key].1)))
    }
}

/// Adding tokens to an owner's balance, which makes an entry where there is none.
pub open spec fn credited(owners: Owners, key: Seq<u8>, count: nat) -> Result<Owners, NftFault> {
    let info = owner_info(owners, key);
    if info.0 + count > u64::MAX {
        Err(NftFault::Invariant)
    } else {
        Ok(owners.insert(key, ((info.0 + count) as u64, info.1)))
    }
}

/// Looking a token up.
pub open spec fn looked_up(tokens: Tokens, id: TokenID) -> Result<TokenInfo, NftFault> {
    if id == u64::MAX {
        Err(NftFault::Amt)
    } else if !tokens.contains_key(id) {
        Err(NftFault::TokenNotFound(id))
    } else {
        Ok(tokens[id])
    }
}

/// Giving a token to a receiver: its operators are cleared, and both balances follow.
pub open spec fn handed_on(held: Holdings, id: TokenID, receiver: ActorID) -> Result<Holdings, NftFault> {
    match looked_up(held.tokens, id) {
        Ok(token) => match debited(held.owners, keys::key_of(token.0), 1) {
            Ok(between) => match credited(between, keys::key_of(receiver), 1) {
                Ok(owners) => Ok(
                    Holdings {
                        tokens: held.tokens.insert(id, (receiver, Set::empty(), token.2)),
                        owners,
                    },
                ),
                Err(fault) => Err(fault),
            },
            Err(fault) => Err(fault),
        },
        Err(fault) => Err(fault),
    }
}

/// Changing the operators of a token.
pub open spec fn with_operators(tokens: Tokens, id: TokenID, operators: Set<ActorID>) -> Tokens {
    tokens.insert(id, (tokens[id].0, operators, tokens[id].2))
}

/// Doing something for the first `n` numbers of a list, one after the other, up to the first that
/// is refused.
pub open spec fn in_turn<X>(
    start: X,
    ids: Seq<TokenID>,
    n: nat,
    step: spec_fn(X, TokenID) -> Result<X, NftFault>,
) -> Result<X, NftFault>
    decreases n,
{
    if n == 0 {
        Ok(start)
    } else {
        match in_turn(start, ids, (n - 1) as nat, step) {
            Ok(x) => step(x, ids[n - 1]),
            Err(fault) => Err(fault),
        }
    }
}

/// The tokens with new ones added under consecutive numbers, one for each metadata.
pub open spec fn with_minted(tokens: Tokens, first: TokenID, owner: ActorID, metadatas: Seq<Seq<char>>) -> Tokens
    decreases metadatas.len(),
{
    if metadatas.len() == 0 {
        tokens
    } else {
        with_minted(tokens, first, owner, metadatas.drop_last()).insert(
            (first + metadatas.len() - 1) as u64,
            (owner, Set::empty(), metadatas.last()),
        )
    }
}

/// What minting makes of a collection. Without metadata nothing changes.
pub open spec fn issued(whole: Collection, owner: ActorID, metadatas: Seq<Seq<char>>) -> Result<
    Collection,
    NftFault,
> {
    if metadatas.len() == 0 {
        Ok(whole)
    } else {
        match credited(whole.held.owners, keys::key_of(owner), metadatas.len()) {
            Ok(owners) => Ok(
                Collection {
                    held: Holdings {
                        tokens: with_minted(
                            whole.held.tokens,
                            whole.next,
                            owner,
                            metadatas,
                        ),
                        owners,
                    },
                    next: (whole.next + metadatas.len()) as u64,
                    supply: (whole.supply + metadatas.len()) as u64,
                },
            ),
            Err(fault) => Err(fault),
        }
    }
}

/// The numbers of the tokens that an actor owns.
pub open spec fn owned_by(tokens: Tokens, owner: ActorID) -> Set<TokenID> {
    tokens.dom().filter(|id: TokenID| tokens[id].0 == owner)
}

/// Whether the owners' tree is right about one of its entries: it is that of an actor, who owns as
/// many tokens as it says, and who has tokens or operators.
pub open spec fn owner_sound(tokens: Tokens, key: Seq<u8>, info: OwnerInfo) -> bool {
    match keys::id_of(key) {
        Some(id) => info.0 == owned_by(tokens, id).len() && !(info.0 == 0 && info.1 == Set::<
            ActorID,
        >::empty()),
        None => false,
    }
}

impl Holdings {
    /// The owners' tree is right about every actor, and every owner of a token is in it.
    pub open spec fn balanced(self) -> bool {
        &&& self.tokens.dom().finite()
        &&& forall|k: Seq<u8>| #[trigger]
            self.owners.contains_key(k) ==> owner_sound(self.tokens, k, self.owners[k])
        &&& forall|id: TokenID| #[trigger]
            self.tokens.contains_key(id) ==> self.owners.contains_key(
                keys::key_of(self.tokens[id].0),
            )
    }

    /// Every owner is under the key of an actor.
    pub open spec fn keyed(self) -> bool {
        forall|k: Seq<u8>| #[trigger]
            self.owners.contains_key(k) ==> exists|id: ActorID| k == keys::key_of(id)
    }
}

impl Collection {
    /// A collection without tokens.
    pub open spec fn empty() -> Self {
        Collection {
            held: Holdings { tokens: Map::empty(), owners: Map::empty() },
            next: 0,
            supply: 0,
        }
    }

    /// The rules that hold of a collection at all times: the supply is the number of tokens, the
    /// owners' tree is right about every actor, and every owner of a token is in it.
    pub open spec fn sound(self) -> bool {
        self.held.balanced() && self.supply == self.held.tokens.dom().len()
    }

    /// What every operation keeps: the collection is sound, every owner is under the key of an
    /// actor, and no token has a number that is still to be given out.
    pub open spec fn regular(self) -> bool {
        self.sound() && self.held.keyed() && self.unissued()
    }

    /// No token has a number that is still to be given out.
    pub open spec fn unissued(self) -> bool {
        forall|id: TokenID| #[trigger] self.held.tokens.contains_key(id) ==> id < self.next
    }
}

} // verus!
