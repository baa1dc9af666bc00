//! Abstraction of the on-chain state related to NFT accounting
use vstd::prelude::*;

use crate::address::{Address, AddressView};
use crate::bits;
use crate::bytes::{ActorID, Cid, RawBytes};
use crate::frc53_nft::collection;
use crate::frc53_nft::collection::{Collection, Holdings, NftFault};
use crate::frc53_nft::invariants;
use crate::frc53_nft::receiver;
use crate::frc53_nft::state;
use crate::frc53_nft::state::{copy_ids, debit_owner, load_tokens, OwnerMap, TokenArray};
use crate::frc53_nft::types::{MintReturn, TransferReturn};
use crate::frcxx_nft::batch;
use crate::frcxx_nft::batch::{check_approved, check_owner, run_batch, Action, Authority};
use crate::frcxx_nft::receiver::{FRCXXReceiverHook, FRCXXTokenReceived, FRCXX_TOKEN_TYPE};
use crate::frcxx_nft::types::{TransferFromIntermediate, TransferFromReturn};
use crate::fvm_actor_utils::receiver::{ReceiverHook, RecipientData};
use crate::keys;
use crate::nft_store;
use crate::store;
use crate::store::{Blocks, Store};

pub use crate::frc53_nft::invariants::{StateInvariantError, StateSummary};
pub use crate::frc53_nft::state::StateError;
pub use crate::frc53_nft::types::{MintIntermediate, TransferIntermediate};
pub use crate::keys::{actor_id_key, decode_actor_id};
pub use crate::nft_store::{OwnerData, TokenData, TokenID};

verus! {

/// NFT state IPLD structure
#[derive(Debug, PartialEq, Eq)]
pub struct NFTState {
    /// The array of tokens: ownership, operators, metadata etc. of each
    pub token_data: Cid,
    /// The tree of owners, an index for faster lookup of data often queried by owner
    pub owner_data: Cid,
    /// The next available token id for minting
    pub next_token: TokenID,
    /// The number of minted tokens less the number of burned tokens
    pub total_supply: u64,
}

impl Clone for NFTState {
    fn clone(&self) -> (r: Self)
        ensures
            r.same_as(*self),
    {
        NFTState {
            token_data: self.token_data.clone(),
            owner_data: self.owner_data.clone(),
            next_token: self.next_token,
            total_supply: self.total_supply,
        }
    }
}

/// Whether a hook tells a receiver of tokens: sent by an operator, with the data of operator and
/// token, and not called yet.
pub open spec fn tells<T: RecipientData>(
    hook: ReceiverHook<T>,
    address: AddressView,
    to: ActorID,
    operator: ActorID,
    token_ids: Seq<TokenID>,
    operator_data: Seq<u8>,
    token_data: Seq<u8>,
) -> bool {
    &&& hook.address@ == address
    &&& hook.token_type == FRCXX_TOKEN_TYPE
    &&& hook.token_params@ == receiver::tokens_received_cbor(
        to,
        operator,
        token_ids,
        operator_data,
        token_data,
    )
    &&& hook.result_data is Some
    &&& !hook.called
}

/// What dealing with a batch of tokens makes of a collection.
pub open spec fn dealt_with(whole: Collection, ids: Seq<TokenID>, authority: Authority, action: Action) -> Result<
    Collection,
    NftFault,
> {
    match batch::batch(whole.held, ids, ids.len(), authority, action) {
        Ok(held) => Ok(Collection { held, ..whole }),
        Err(fault) => Err(fault),
    }
}

/// What burning tokens of one owner makes of a collection, by the given right.
pub open spec fn burned(whole: Collection, owner: ActorID, ids: Seq<TokenID>, authority: Authority) -> Result<
    Collection,
    NftFault,
> {
    match batch::batch(whole.held, ids, ids.len(), authority, Action::Remove) {
        Ok(held) => match collection::debited(held.owners, keys::key_of(owner), ids.len()) {
            Ok(owners) => if ids.len() > whole.supply {
                Err(NftFault::Invariant)
            } else {
                Ok(
                    Collection {
                        held: Holdings { owners, ..held },
                        supply: (whole.supply - ids.len()) as u64,
                        ..whole
                    },
                )
            },
            Err(fault) => Err(fault),
        },
        Err(fault) => Err(fault),
    }
}

/// What burning tokens as an operator makes of a collection.
pub open spec fn burned_by_operator(whole: Collection, operator: ActorID, ids: Seq<TokenID>) -> Result<
    Collection,
    NftFault,
> {
    match batch::batch(whole.held, ids, ids.len(), Authority::Operator(operator), Action::Burn) {
        Ok(held) => if ids.len() > whole.supply {
            Err(NftFault::Invariant)
        } else {
            Ok(Collection { held, supply: (whole.supply - ids.len()) as u64, ..whole })
        },
        Err(fault) => Err(fault),
    }
}

/// What authorising an operator for an account makes of a collection. The operators must be few
/// enough to be stored, and `u64::MAX` is out of range.
pub open spec fn account_approved(whole: Collection, owner: ActorID, operator: ActorID) -> Result<
    Collection,
    NftFault,
> {
    let key = keys::key_of(owner);
    let info = collection::owner_info(whole.held.owners, key);
    let operators = info.1.insert(operator);
    if operator == u64::MAX {
        Err(NftFault::Invariant)
    } else if nft_store::operators_fit(operators) {
        Ok(
            Collection {
                held: Holdings {
                    owners: whole.held.owners.insert(key, (info.0, operators)),
                    ..whole.held
                },
                ..whole
            },
        )
    } else {
        Err(NftFault::Hamt)
    }
}

/// What taking an operator's authorisation for an account back makes of a collection.
pub open spec fn account_revoked(whole: Collection, owner: ActorID, operator: ActorID) -> Result<
    Collection,
    NftFault,
> {
    let key = keys::key_of(owner);
    let operators = whole.held.owners[key].1.remove(operator);
    if !whole.held.owners.contains_key(key) {
        Ok(whole)
    } else if whole.held.owners[key].0 == 0 && operators == Set::<ActorID>::empty()
        || nft_store::operators_fit(operators) {
        Ok(
            Collection {
                held: Holdings {
                    owners: collection::with_owner(
                        whole.held.owners,
                        key,
                        (whole.held.owners[key].0, operators),
                    ),
                    ..whole.held
                },
                ..whole
            },
        )
    } else {
        Err(NftFault::Hamt)
    }
}

/// Whether a state went from one collection to another, or stayed and the reason was given.
pub open spec fn became(
    before: NFTState,
    blocks_before: Blocks,
    after: NFTState,
    blocks_after: Blocks,
    wanted: Result<Collection, NftFault>,
    refusal: Option<NftFault>,
) -> bool {
    &&& store::kept(blocks_before, blocks_after)
    &&& refusal is Some ==> after == before
    &&& before.collection(blocks_before) is Some ==> match wanted {
        Ok(whole) => refusal is None && after.collection(blocks_after) == Some(whole),
        Err(fault) => refusal == Some(fault),
    }
}

/// Why something was refused, if it was.
pub open spec fn fault_of<T>(r: Result<T, StateError>) -> Option<NftFault> {
    match r {
        Ok(_) => None,
        Err(e) => Some(e@),
    }
}

impl NFTState {
    /// The collection that the state keeps in these blocks. `None` where the trees are not
    /// complete.
    pub open spec fn collection(self, blocks: Blocks) -> Option<Collection> {
        match state::holdings_at(blocks, self.token_data@, self.owner_data@) {
            Some(held) => Some(
                Collection { held, next: self.next_token, supply: self.total_supply },
            ),
            None => None,
        }
    }

    /// Whether the array of tokens is complete, or its root not there at all. A block under the
    /// root that is not that of an array cannot be dealt with.
    pub open spec fn ready(self, blocks: Blocks) -> bool {
        nft_store::tokens_ready(blocks, self.token_data@)
    }

    /// Whether two states have the same roots and counts.
    pub open spec fn same_as(self, other: NFTState) -> bool {
        &&& self.token_data@ == other.token_data@
        &&& self.owner_data@ == other.owner_data@
        &&& self.next_token == other.next_token
        &&& self.total_supply == other.total_supply
    }

    /// The state as it is written to a block.
    pub open spec fn record(self) -> state::NftRecord {
        (self.token_data@, self.owner_data@, self.next_token, self.total_supply)
    }

    /// The same roots and counts, with the operations that check nothing
    fn unchecked(&self) -> (r: state::NFTState)
        ensures
            r.record() == self.record(),
    {
        state::NFTState {
            token_data: self.token_data.clone(),
            owner_data: self.owner_data.clone(),
            next_token: self.next_token,
            total_supply: self.total_supply,
        }
    }

    /// A state from roots and counts
    fn checked(unchecked: state::NFTState) -> (r: Self)
        ensures
            r.record() == unchecked.record(),
    {
        NFTState {
            token_data: unchecked.token_data,
            owner_data: unchecked.owner_data,
            next_token: unchecked.next_token,
            total_supply: unchecked.total_supply,
        }
    }

    /// Create a new NFT state-tree, without committing it (the root Cid) to a blockstore
    pub fn new(bs: &mut Store) -> (r: Result<Self, StateError>)
        ensures
            store::kept(old(bs)@, final(bs)@),
            r is Ok,
            r->Ok_0.collection(final(bs)@) == Some(Collection::empty()),
    {
        match state::NFTState::new(bs) {
            Ok(made) => Ok(Self::checked(made)),
            Err(e) => Err(e),
        }
    }

    /// Loads the state under an identifier
    pub fn load(bs: &Store, root: &Cid) -> (r: Result<Self, StateError>)
        ensures
            r is Ok == (store::cbor_codec(root@) && bs@.contains_key(root@) && state::nft_record(
                bs@[root@],
            ) is Some),
            r is Ok ==> state::nft_record(bs@[root@]) == Some(r->Ok_0.record()),
            r is Err ==> r->Err_0@ == NftFault::Invariant,
    {
        match state::NFTState::load(bs, root) {
            Ok(loaded) => Ok(Self::checked(loaded)),
            Err(e) => Err(e),
        }
    }

    /// Saves the state, and gives the identifier from which it can be loaded again
    pub fn save(&self, bs: &mut Store) -> (r: Result<Cid, StateError>)
        ensures
            store::kept(old(bs)@, final(bs)@),
            r is Ok,
            store::cbor_codec(r->Ok_0@) && final(bs)@.contains_key(r->Ok_0@) && state::nft_record(
                final(bs)@[r->Ok_0@],
            ) == Some(self.record()),
    {
        self.unchecked().save(bs)
    }

    /// The array of tokens
    pub fn get_token_data_amt<'bs>(&self, bs: &'bs Store) -> (r: Result<TokenArray<'bs>, StateError>)
        requires
            self.ready(bs@),
        ensures
            r is Ok == nft_store::tokens_at(bs@, self.token_data@) is Some,
            r is Ok ==> r->Ok_0@ == nft_store::tokens_at(bs@, self.token_data@),
            r is Err ==> r->Err_0@ == NftFault::Amt,
    {
        self.unchecked().get_token_data_amt(bs)
    }

    /// The tree of owners
    pub fn get_owner_data_hamt<'bs>(&self, bs: &'bs Store) -> (r: Result<OwnerMap<'bs>, StateError>)
        ensures
            self.collection(bs@) is Some ==> r is Ok && r->Ok_0@ == Some(
                self.collection(bs@)->0.held.owners,
            ),
            !bs@.contains_key(self.owner_data@) ==> r is Err,
            r is Err ==> r->Err_0@ == NftFault::Hamt,
    {
        self.unchecked().get_owner_data_hamt(bs)
    }

    /// Adds tokens to the collection, and gives their numbers; no receiver is told
    pub fn add_tokens(&mut self, bs: &mut Store, owner: ActorID, metadatas: Vec<String>) -> (r: Result<
        MintIntermediate,
        StateError,
    >)
        requires
            old(self).ready(old(bs)@),
            old(self).next_token + metadatas.len() <= u64::MAX,
            old(self).total_supply + metadatas.len() <= u64::MAX,
        ensures
            became(
                *old(self),
                old(bs)@,
                *final(self),
                final(bs)@,
                collection::issued(old(self).collection(old(bs)@)->0, owner, state::texts(metadatas@)),
                fault_of(r),
            ),
            r is Ok ==> state::minted(
                r->Ok_0,
                owner,
                old(self).next_token,
                metadatas@.len(),
            ),
            nft_store::tokens_at(old(bs)@, old(self).token_data@) is None ==> r is Err
                && r->Err_0@ == NftFault::Amt,
            nft_store::tokens_at(old(bs)@, old(self).token_data@) is Some
                && !old(bs)@.contains_key(old(self).owner_data@) ==> r is Err && r->Err_0@
                == NftFault::Hamt,
            r is Ok ==> final(self).next_token == old(self).next_token + metadatas@.len(),
    {
        if metadatas.len() == 0 {
            match load_tokens(bs, &self.token_data) {
                Ok(()) => {},
                Err(e) => return Err(e),
            }
            match self.get_owner_data_hamt(bs) {
                Ok(_) => {},
                Err(e) => return Err(e),
            }
            let none: Vec<TokenID> = Vec::new();
            assert(none@ =~= Seq::new(0, |i: int| (self.next_token + i) as u64));
            return Ok(
                MintIntermediate { to: owner, token_ids: none, recipient_data: RawBytes::default() },
            );
        }
        let mut next = self.unchecked();
        match next.mint_tokens(bs, owner, metadatas) {
            Ok(intermediate) => {
                *self = Self::checked(next);
                Ok(intermediate)
            },
            Err(e) => Err(e),
        }
    }

    /// Mint a new token to the specified address
    pub fn mint_tokens(
        &mut self,
        bs: &mut Store,
        caller: ActorID,
        owner: ActorID,
        metadatas: Vec<String>,
        operator_data: RawBytes,
        token_data: RawBytes,
    ) -> (r: Result<ReceiverHook<MintIntermediate>, StateError>)
        requires
            old(self).ready(old(bs)@),
            old(self).next_token + metadatas.len() <= u64::MAX,
            old(self).total_supply + metadatas.len() <= u64::MAX,
        ensures
            became(
                *old(self),
                old(bs)@,
                *final(self),
                final(bs)@,
                collection::issued(old(self).collection(old(bs)@)->0, owner, state::texts(metadatas@)),
                fault_of(r),
            ),
            r is Ok ==> tells(
                r->Ok_0,
                AddressView::ID(owner),
                owner,
                caller,
                r->Ok_0.result_data->0.token_ids@,
                operator_data@,
                token_data@,
            ) && state::minted(
                r->Ok_0.result_data->0,
                owner,
                old(self).next_token,
                metadatas@.len(),
            ),
            nft_store::tokens_at(old(bs)@, old(self).token_data@) is None ==> r is Err
                && r->Err_0@ == NftFault::Amt,
            nft_store::tokens_at(old(bs)@, old(self).token_data@) is Some
                && !old(bs)@.contains_key(old(self).owner_data@) ==> r is Err && r->Err_0@
                == NftFault::Hamt,
            r is Ok ==> final(self).next_token == old(self).next_token + metadatas@.len(),
    {
        // params for constructing our return value
        let mint_intermediate = match self.add_tokens(bs, owner, metadatas) {
            Ok(intermediate) => intermediate,
            Err(e) => return Err(e),
        };
        // params we'll send to the receiver hook
        let params = FRCXXTokenReceived {
            operator: caller,
            to: owner,
            operator_data,
            token_data,
            token_ids: copy_ids(&mint_intermediate.token_ids),
        };
        match ReceiverHook::new_frcxx(Address::new_id(owner), params, mint_intermediate) {
            Ok(hook) => Ok(hook),
            Err(e) => Err(StateError::ReceiverHook(e)),
        }
    }

    /// Get the number of tokens owned by a particular address
    pub fn get_balance(&self, bs: &Store, owner: ActorID) -> (r: Result<u64, StateError>)
        ensures
            self.collection(bs@) is Some ==> r is Ok && r->Ok_0 == collection::owner_info(
                self.collection(bs@)->0.held.owners,
                keys::key_of(owner),
            ).0,
            !bs@.contains_key(self.owner_data@) ==> r is Err,
            r is Err ==> r->Err_0@ == NftFault::Hamt,
    {
        self.unchecked().get_balance(bs, owner)
    }

    /// Deals with a batch of tokens
    ///
    /// If any of the token_ids is not valid, the entire batch is aborted.
    pub fn deal_with(
        &mut self,
        bs: &mut Store,
        token_ids: &Vec<TokenID>,
        authority: Authority,
        action: Action,
    ) -> (r: Result<(), StateError>)
        requires
            old(self).ready(old(bs)@),
        ensures
            became(
                *old(self),
                old(bs)@,
                *final(self),
                final(bs)@,
                dealt_with(old(self).collection(old(bs)@)->0, token_ids@, authority, action),
                fault_of(r),
            ),
            final(self).next_token == old(self).next_token,
    {
        match load_tokens(bs, &self.token_data) {
            Ok(()) => {},
            Err(e) => return Err(e),
        }
        match run_batch(bs, &self.token_data, &self.owner_data, token_ids, authority, action) {
            Ok((token_data, owner_data)) => {
                self.token_data = token_data;
                self.owner_data = owner_data;
                Ok(())
            },
            Err(e) => Err(e),
        }
    }

    /// Approves an operator to transfer a set of specified tokens
    ///
    /// Checks that the caller is the owner of the specified token. If any of the token_ids is not
    /// valid (i.e. non-existent or not-owned by the caller), the entire batch approval is aborted.
    pub fn approve_for_tokens(
        &mut self,
        bs: &mut Store,
        caller: ActorID,
        operator: ActorID,
        token_ids: &Vec<TokenID>,
    ) -> (r: Result<(), StateError>)
        requires
            old(self).ready(old(bs)@),
        ensures
            became(
                *old(self),
                old(bs)@,
                *final(self),
                final(bs)@,
                dealt_with(
                    old(self).collection(old(bs)@)->0,
                    token_ids@,
                    Authority::Owner(caller),
                    Action::Approve(operator),
                ),
                fault_of(r),
            ),
            final(self).next_token == old(self).next_token,
    {
        self.deal_with(bs, token_ids, Authority::Owner(caller), Action::Approve(operator))
    }

    /// Revokes an operator to transfer a specific token
    ///
    /// Checks that the caller is the owner of the specified token. If any of the token_ids is not
    /// valid (i.e. non-existent or not-owned by the caller), the entire batch revoke is aborted.
    pub fn revoke_for_tokens(
        &mut self,
        bs: &mut Store,
        caller: ActorID,
        operator: ActorID,
        token_ids: &Vec<TokenID>,
    ) -> (r: Result<(), StateError>)
        requires
            old(self).ready(old(bs)@),
        ensures
            became(
                *old(self),
                old(bs)@,
                *final(self),
                final(bs)@,
                dealt_with(
                    old(self).collection(old(bs)@)->0,
                    token_ids@,
                    Authority::Owner(caller),
                    Action::Revoke(operator),
                ),
                fault_of(r),
            ),
            final(self).next_token == old(self).next_token,
    {
        self.deal_with(bs, token_ids, Authority::Owner(caller), Action::Revoke(operator))
    }

    /// Approves an operator to transfer tokens on behalf of the owner
    ///
    /// The operator is authorized at the account level, meaning that all tokens owned by the owner
    /// can be transferred or burned by the operator including future tokens held by the account
    pub fn approve_for_owner(&mut self, bs: &mut Store, owner: ActorID, operator: ActorID) -> (r:
        Result<(), StateError>)
        ensures
            became(
                *old(self),
                old(bs)@,
                *final(self),
                final(bs)@,
                account_approved(old(self).collection(old(bs)@)->0, owner, operator),
                fault_of(r),
            ),
            final(self).next_token == old(self).next_token,
    {
        let mut next = self.unchecked();
        match next.approve_for_owner(bs, owner, operator) {
            Ok(()) => {
                *self = Self::checked(next);
                Ok(())
            },
            Err(e) => Err(e),
        }
    }

    /// Revokes an operator's authorization to transfer tokens on behalf of the owner account
    pub fn revoke_for_all(&mut self, bs: &mut Store, owner: ActorID, operator: ActorID) -> (r: Result<
        (),
        StateError,
    >)
        ensures
            became(
                *old(self),
                old(bs)@,
                *final(self),
                final(bs)@,
                account_revoked(old(self).collection(old(bs)@)->0, owner, operator),
                fault_of(r),
            ),
            final(self).next_token == old(self).next_token,
    {
        let mut next = self.unchecked();
        match next.revoke_for_all(bs, owner, operator) {
            Ok(()) => {
                *self = Self::checked(next);
                Ok(())
            },
            Err(e) => Err(e),
        }
    }

    /// Burns a set of tokens of one owner by the given right; the owner's new balance
    pub fn burn_by(&mut self, bs: &mut Store, owner: ActorID, token_ids: &Vec<TokenID>, authority: Authority) -> (r:
        Result<u64, StateError>)
        requires
            old(self).ready(old(bs)@),
        ensures
            became(
                *old(self),
                old(bs)@,
                *final(self),
                final(bs)@,
                burned(old(self).collection(old(bs)@)->0, owner, token_ids@, authority),
                fault_of(r),
            ),
            old(self).collection(old(bs)@) is Some && r is Ok ==> r->Ok_0
                == old(self).collection(old(bs)@)->0.held.owners[keys::key_of(owner)].0
                - token_ids.len(),
            final(self).next_token == old(self).next_token,
    {
        match load_tokens(bs, &self.token_data) {
            Ok(()) => {},
            Err(e) => return Err(e),
        }
        let ghost blocks = bs@;
        let ghost whole = self.collection(blocks) is Some;
        let (token_data, owner_data) = match run_batch(
            bs,
            &self.token_data,
            &self.owner_data,
            token_ids,
            authority,
            Action::Remove,
        ) {
            Ok(roots) => roots,
            Err(e) => return Err(e),
        };
        let ghost between = bs@;
        proof {
            if whole {
                lemma_owners_left(
                    self.collection(blocks)->0.held,
                    token_ids@,
                    token_ids@.len(),
                    authority,
                );
            }
        }
        // we only reach here if all tokens were burned successfully so assume the caller is valid
        let missing = StateError::InvariantFailed("owner of tokens not found".to_owned());
        let count = token_ids.len() as u64;
        let debited = debit_owner(bs, &owner_data, owner, count, missing);
        proof {
            store::lemma_kept_trans(blocks, between, bs@);
            assert(whole ==> nft_store::tokens_at(between, token_data@) is Some);
        }
        let (owner_data, balance) = match debited {
            Ok(done) => done,
            Err(e) => return Err(e),
        };
        if self.total_supply < count {
            return Err(
                StateError::InvariantFailed("more tokens burned than there are".to_owned()),
            );
        }
        self.total_supply = self.total_supply - count;
        self.token_data = token_data;
        self.owner_data = owner_data;
        Ok(balance)
    }

    /// Burns a set of token, removing them from circulation and deleting associated metadata
    ///
    /// If any of the token_ids is not valid (i.e. non-existent/already burned or not owned by the
    /// caller), the entire batch of burns fails
    pub fn burn_tokens(&mut self, bs: &mut Store, caller: ActorID, token_ids: &Vec<TokenID>) -> (r:
        Result<u64, StateError>)
        requires
            old(self).ready(old(bs)@),
        ensures
            became(
                *old(self),
                old(bs)@,
                *final(self),
                final(bs)@,
                burned(
                    old(self).collection(old(bs)@)->0,
                    caller,
                    token_ids@,
                    Authority::Owner(caller),
                ),
                fault_of(r),
            ),
            old(self).collection(old(bs)@) is Some && r is Ok ==> r->Ok_0
                == old(self).collection(old(bs)@)->0.held.owners[keys::key_of(caller)].0
                - token_ids.len(),
            final(self).next_token == old(self).next_token,
    {
        self.burn_by(bs, caller, token_ids, Authority::Owner(caller))
    }

    /// Burns a set of token, removing them from circulation and deleting associated metadata.
    /// The caller must be an approved operator at the token or account level.
    ///
    /// If any of the token_ids is not valid (i.e. non-existent/already burned or not authorized for
    /// the caller), the entire batch of burns fails
    pub fn operator_burn_tokens(&mut self, bs: &mut Store, caller: ActorID, token_ids: &Vec<TokenID>) -> (r:
        Result<(), StateError>)
        requires
            old(self).ready(old(bs)@),
        ensures
            became(
                *old(self),
                old(bs)@,
                *final(self),
                final(bs)@,
                burned_by_operator(old(self).collection(old(bs)@)->0, caller, token_ids@),
                fault_of(r),
            ),
            final(self).next_token == old(self).next_token,
    {
        match load_tokens(bs, &self.token_data) {
            Ok(()) => {},
            Err(e) => return Err(e),
        }
        let (token_data, owner_data) = match run_batch(
            bs,
            &self.token_data,
            &self.owner_data,
            token_ids,
            Authority::Operator(caller),
            Action::Burn,
        ) {
            Ok(roots) => roots,
            Err(e) => return Err(e),
        };
        let count = token_ids.len() as u64;
        if self.total_supply < count {
            return Err(
                StateError::InvariantFailed("more tokens burned than there are".to_owned()),
            );
        }
        self.total_supply = self.total_supply - count;
        self.token_data = token_data;
        self.owner_data = owner_data;
        Ok(())
    }

    /// Transfers a set of token, initiated by the owner
    pub fn transfer_tokens(
        &mut self,
        bs: &mut Store,
        caller: ActorID,
        to: ActorID,
        token_ids: &Vec<TokenID>,
        operator_data: RawBytes,
        token_data: RawBytes,
    ) -> (r: Result<ReceiverHook<TransferIntermediate>, StateError>)
        requires
            old(self).ready(old(bs)@),
        ensures
            became(
                *old(self),
                old(bs)@,
                *final(self),
                final(bs)@,
                dealt_with(
                    old(self).collection(old(bs)@)->0,
                    token_ids@,
                    Authority::Owner(caller),
                    Action::HandOn(to),
                ),
                fault_of(r),
            ),
            r is Ok ==> tells(
                r->Ok_0,
                AddressView::ID(to),
                to,
                caller,
                token_ids@,
                operator_data@,
                token_data@,
            ) && transferred(r->Ok_0.result_data->0, caller, to, token_ids@),
            final(self).next_token == old(self).next_token,
    {
        match self.deal_with(bs, token_ids, Authority::Owner(caller), Action::HandOn(to)) {
            Ok(()) => {},
            Err(e) => return Err(e),
        }
        let params = FRCXXTokenReceived {
            to,
            operator: caller,
            token_ids: copy_ids(token_ids),
            operator_data,
            token_data,
        };
        let res = TransferIntermediate {
            to,
            from: caller,
            token_ids: copy_ids(token_ids),
            recipient_data: RawBytes::default(),
        };
        match ReceiverHook::new_frcxx(Address::new_id(to), params, res) {
            Ok(hook) => Ok(hook),
            Err(e) => Err(StateError::ReceiverHook(e)),
        }
    }

    /// Transfers a token, initiated by an operator
    ///
    /// An operator is allowed to transfer a token that it has been explicitly approved for or a
    /// token owned by an account that it has been approved for.
    pub fn operator_transfer_tokens(
        &mut self,
        bs: &mut Store,
        caller: ActorID,
        to: ActorID,
        token_ids: &Vec<TokenID>,
        operator_data: RawBytes,
        token_data: RawBytes,
    ) -> (r: Result<ReceiverHook<TransferFromIntermediate>, StateError>)
        requires
            old(self).ready(old(bs)@),
        ensures
            became(
                *old(self),
                old(bs)@,
                *final(self),
                final(bs)@,
                dealt_with(
                    old(self).collection(old(bs)@)->0,
                    token_ids@,
                    Authority::Operator(caller),
                    Action::HandOn(to),
                ),
                fault_of(r),
            ),
            r is Ok ==> tells(
                r->Ok_0,
                AddressView::ID(to),
                to,
                caller,
                token_ids@,
                operator_data@,
                token_data@,
            ) && r->Ok_0.result_data->0.to == to && r->Ok_0.result_data->0.token_ids@ == token_ids@
                && r->Ok_0.result_data->0.recipient_data@ == Seq::<u8>::empty(),
            final(self).next_token == old(self).next_token,
    {
        match self.deal_with(bs, token_ids, Authority::Operator(caller), Action::HandOn(to)) {
            Ok(()) => {},
            Err(e) => return Err(e),
        }
        let params = FRCXXTokenReceived {
            to,
            operator: caller,
            token_ids: copy_ids(token_ids),
            operator_data,
            token_data,
        };
        let res = TransferFromIntermediate {
            to,
            token_ids: copy_ids(token_ids),
            recipient_data: RawBytes::default(),
        };
        match ReceiverHook::new_frcxx(Address::new_id(to), params, res) {
            Ok(hook) => Ok(hook),
            Err(e) => Err(StateError::ReceiverHook(e)),
        }
    }

    /// Makes a transfer of a token from one address to another. The caller must verify that such a
    /// transfer is allowed.
    pub fn make_transfer(&mut self, bs: &mut Store, token_id: TokenID, receiver: ActorID) -> (r:
        Result<(), StateError>)
        requires
            old(self).ready(old(bs)@),
        ensures
            became(
                *old(self),
                old(bs)@,
                *final(self),
                final(bs)@,
                match collection::handed_on(
                    old(self).collection(old(bs)@)->0.held,
                    token_id,
                    receiver,
                ) {
                    Ok(held) => Ok(Collection { held, ..old(self).collection(old(bs)@)->0 }),
                    Err(fault) => Err(fault),
                },
                fault_of(r),
            ),
            final(self).next_token == old(self).next_token,
    {
        match load_tokens(bs, &self.token_data) {
            Ok(()) => {},
            Err(e) => return Err(e),
        }
        match state::hand_on(bs, &self.token_data, &self.owner_data, token_id, receiver) {
            Ok((token_data, owner_data)) => {
                self.token_data = token_data;
                self.owner_data = owner_data;
                Ok(())
            },
            Err(e) => Err(e),
        }
    }

    /// Asserts that the actor owns the token and returns a copy of the TokenData
    ///
    /// Returns TokenNotFound if the token_id is invalid or NotOwner if the actor does not own
    /// own the token.
    pub fn owns_token(&self, bs: &Store, actor: ActorID, token_id: TokenID) -> (r: Result<
        TokenData,
        StateError,
    >)
        requires
            self.ready(bs@),
        ensures
            self.collection(bs@) is Some ==> match Authority::Owner(actor).checked(
                self.collection(bs@)->0.held,
                token_id,
            ) {
                Ok(_) => r is Ok && r->Ok_0@ == self.collection(bs@)->0.held.tokens[token_id],
                Err(fault) => r is Err && r->Err_0@ == fault,
            },
    {
        match load_tokens(bs, &self.token_data) {
            Ok(()) => {},
            Err(e) => return Err(e),
        }
        check_owner(bs, &self.token_data, actor, token_id)
    }

    /// Checks whether an operator is approved to transfer/burn a token
    pub fn approved_for_token(&self, bs: &Store, operator: ActorID, token_id: TokenID) -> (r: Result<
        bool,
        StateError,
    >)
        requires
            self.ready(bs@),
        ensures
            self.collection(bs@) is Some ==> match batch::approved(
                self.collection(bs@)->0.held,
                token_id,
                operator,
            ) {
                Ok(yes) => r is Ok && r->Ok_0 == yes,
                Err(fault) => r is Err && r->Err_0@ == fault,
            },
    {
        match load_tokens(bs, &self.token_data) {
            Ok(()) => {},
            Err(e) => return Err(e),
        }
        check_approved(bs, &self.token_data, &self.owner_data, operator, token_id)
    }

    /// Converts a MintIntermediate to a MintReturn
    ///
    /// This function should be called on a freshly loaded or known-up-to-date state
    pub fn mint_return(&self, bs: &Store, intermediate: MintIntermediate) -> (r: Result<
        MintReturn,
        StateError,
    >)
        ensures
            self.collection(bs@) is Some ==> r is Ok && r->Ok_0.balance == collection::owner_info(
                self.collection(bs@)->0.held.owners,
                keys::key_of(intermediate.to),
            ).0,
            r is Ok ==> r->Ok_0.supply == self.total_supply && r->Ok_0.token_ids
                == intermediate.token_ids && r->Ok_0.recipient_data == intermediate.recipient_data,
            r is Err ==> r->Err_0@ == NftFault::Hamt,
    {
        self.unchecked().mint_return(bs, intermediate)
    }

    /// Converts a TransferIntermediate to a TransferReturn
    ///
    /// This function should be called on a freshly loaded or known-up-to-date state
    pub fn transfer_return(&self, bs: &Store, intermediate: TransferIntermediate) -> (r: Result<
        TransferReturn,
        StateError,
    >)
        ensures
            self.collection(bs@) is Some ==> {
                let owners = self.collection(bs@)->0.held.owners;
                &&& r is Ok
                &&& r->Ok_0.from_balance == collection::owner_info(
                    owners,
                    keys::key_of(intermediate.from),
                ).0
                &&& r->Ok_0.to_balance == collection::owner_info(
                    owners,
                    keys::key_of(intermediate.to),
                ).0
            },
            r is Ok ==> r->Ok_0.token_ids == intermediate.token_ids,
            r is Err ==> r->Err_0@ == NftFault::Hamt,
    {
        self.unchecked().transfer_return(bs, intermediate)
    }

    /// Converts a TransferFromIntermediate to a TransferFromReturn
    ///
    /// This function should be called on a freshly loaded or known-up-to-date state
    pub fn transfer_from_return(&self, bs: &Store, intermediate: TransferFromIntermediate) -> (r:
        Result<TransferFromReturn, StateError>)
        ensures
            self.collection(bs@) is Some ==> r is Ok && r->Ok_0.to_balance
                == collection::owner_info(
                self.collection(bs@)->0.held.owners,
                keys::key_of(intermediate.to),
            ).0,
            r is Ok ==> r->Ok_0.token_ids == intermediate.token_ids,
            r is Err ==> r->Err_0@ == NftFault::Hamt,
    {
        match self.get_balance(bs, intermediate.to) {
            Ok(to_balance) => Ok(
                TransferFromReturn { to_balance, token_ids: intermediate.token_ids },
            ),
            Err(e) => Err(e),
        }
    }

    /// Get the metadata for a token
    pub fn get_metadata(&self, bs: &Store, token_id: TokenID) -> (r: Result<String, StateError>)
        requires
            self.ready(bs@),
        ensures
            self.collection(bs@) is Some ==> match collection::looked_up(
                self.collection(bs@)->0.held.tokens,
                token_id,
            ) {
                Ok(token) => r is Ok && r->Ok_0@ == token.2,
                Err(fault) => r is Err && r->Err_0@ == fault,
            },
    {
        self.unchecked().get_metadata(bs, token_id)
    }

    /// Get the owner of a token
    pub fn get_owner(&self, bs: &Store, token_id: TokenID) -> (r: Result<ActorID, StateError>)
        requires
            self.ready(bs@),
        ensures
            self.collection(bs@) is Some ==> match collection::looked_up(
                self.collection(bs@)->0.held.tokens,
                token_id,
            ) {
                Ok(token) => r is Ok && r->Ok_0 == token.0,
                Err(fault) => r is Err && r->Err_0@ == fault,
            },
    {
        self.unchecked().get_owner(bs, token_id)
    }

    /// The numbers of all tokens, the smallest first
    pub fn list_tokens(&self, bs: &Store) -> (r: Result<Vec<TokenID>, StateError>)
        requires
            self.ready(bs@),
        ensures
            self.collection(bs@) is Some ==> r is Ok && bits::ascending(r->Ok_0@)
                && r->Ok_0@.to_set() == self.collection(bs@)->0.held.tokens.dom(),
            r is Err ==> r->Err_0@ == NftFault::Amt,
    {
        match load_tokens(bs, &self.token_data) {
            Ok(()) => {},
            Err(e) => return Err(e),
        }
        let entries = match nft_store::tokens_entries(bs, &self.token_data) {
            Ok(entries) => entries,
            Err(e) => return Err(StateError::IpldAmt(e)),
        };
        let mut ids: Vec<TokenID> = Vec::new();
        let mut i: usize = 0;
        while i < entries.len()
            invariant
                i <= entries.len(),
                ids.len() == i,
                forall|j: int| 0 <= j < i ==> #[trigger] ids[j] == entries[j].0,
            decreases entries.len() - i,
        {
            ids.push(entries[i].0);
            i += 1;
        }
        proof {
            if self.collection(bs@) is Some {
                let tokens = self.collection(bs@)->0.held.tokens;
                let pairs = nft_store::token_pairs(entries@);
                assert forall|id: TokenID| #[trigger] ids@.to_set().contains(id)
                    == tokens.dom().contains(id) by {
                    if ids@.to_set().contains(id) {
                        let j = choose|j: int| 0 <= j < ids.len() && ids[j] == id;
                        assert(pairs[j].0 == id);
                    }
                    if tokens.contains_key(id) {
                        store::lemma_lists_all(pairs, tokens, id);
                        let j = choose|j: int| 0 <= j < pairs.len() && (#[trigger] pairs[j]).0 == id;
                        assert(ids[j] == id);
                    }
                }
                assert(ids@.to_set() =~= tokens.dom());
            }
        }
        Ok(ids)
    }

    /// Checks that the state is internally consistent and obeys the specified invariants
    ///
    /// Checks that balances in the TokenArray and OwnerMap are consistent. Checks that the total
    /// supply is consistent with the number of tokens in the TokenArray. Checks that the OwnerHamt
    /// is clear of semantically empty entries. Checks that all bytes keys are valid actor ids.
    ///
    /// Returns a state summary that can be used to check application specific invariants and a list
    /// of errors that were found.
    pub fn check_invariants(&self, bs: &Store) -> (r: (StateSummary, Vec<StateInvariantError>))
        requires
            self.ready(bs@),
        ensures
            r.0.total_supply == self.total_supply,
            (r.0.token_data is None) == (r.0.owner_data is None),
            r.0.token_data is None ==> r.1.len() > 0,
            self.collection(bs@) is Some ==> {
                &&& invariants::sums_up(r.0, self.collection(bs@)->0)
                &&& invariants::reports(invariants::seen(r.1@), self.collection(bs@)->0)
                &&& (r.1.len() == 0) == self.collection(bs@)->0.sound()
            },
    {
        self.unchecked().check_invariants(bs)
    }

    /// Asserts that operators are strictly increasing
    pub fn assert_operator_array(operators: &Vec<ActorID>) -> (r: Result<(), StateInvariantError>)
        ensures
            r is Ok == bits::ascending(operators@),
            r is Err ==> r->Err_0@ == invariants::InvariantFault::InvalidOperatorArray(operators@),
    {
        let mut i: usize = 1;
        while i < operators.len()
            invariant
                1 <= i,
                i <= operators.len() || operators.len() == 0,
                forall|a: int, b: int| 0 <= a < b < i && b < operators.len() ==> operators[a] < operators[b],
            decreases operators.len() - i,
        {
            if operators[i - 1] >= operators[i] {
                // pairs need to be unique and strictly increasing
                assert(!bits::ascending(operators@)) by {
                    if bits::ascending(operators@) {
                        assert(operators@[i - 1] < operators@[i as int]);
                    }
                }
                return Err(StateInvariantError::InvalidOperatorArray(copy_ids(operators)));
            }
            i += 1;
        }
        Ok(())
    }
}

/// Whether the result names the tokens that were transferred, and between whom.
pub open spec fn transferred(r: TransferIntermediate, from: ActorID, to: ActorID, ids: Seq<TokenID>) -> bool {
    &&& r.from == from
    &&& r.to == to
    &&& r.token_ids@ == ids
    &&& r.recipient_data@ == Seq::<u8>::empty()
}

/// Taking tokens out leaves the owners.
proof fn lemma_owners_left(held: Holdings, ids: Seq<TokenID>, n: nat, authority: Authority)
    ensures
        batch::batch(held, ids, n, authority, Action::Remove) is Ok ==> batch::batch(
            held,
            ids,
            n,
            authority,
            Action::Remove,
        )->Ok_0.owners == held.owners,
    decreases n,
{
    if n > 0 {
        lemma_owners_left(held, ids, (n - 1) as nat, authority);
    }
}

} // verus!
