//! A handle that injects services into the state-level operations of a collection.
use vstd::prelude::*;

use crate::address::{Address, AddressView};
use crate::bytes::{ActorID, Cid, RawBytes};
use crate::frc53_nft::collection;
use crate::frc53_nft::collection::{Collection, NftFault};
use crate::frc53_nft::state as nft_state;
use crate::frc53_nft::state::{copy_ids, load_tokens};
use crate::frc53_nft::types::{MintReturn, TransferReturn};
use crate::frcxx_nft::batch::{authorize_all, Action, Authority};
use crate::frcxx_nft::receiver::{FRCXXReceiverHook, FRCXXTokenReceived};
use crate::frcxx_nft::state;
use crate::frcxx_nft::state::{MintIntermediate, NFTState, StateError, TransferIntermediate};
use crate::fvm_actor_utils::messaging::{MessagingError, MessagingFault};
use crate::fvm_actor_utils::receiver::ReceiverHook;
use crate::fvm_actor_utils::syscalls::{Syscalls};
use crate::fvm_actor_utils::util;
use crate::fvm_actor_utils::util::{ActorError, ActorRuntime};
use crate::keys;
use crate::nft_store::TokenID;
use crate::store;
use crate::store::{Blocks, Store};

verus! {

/// Why an operation on a collection fails.
#[derive(Debug)]
pub enum NFTError {
    /// Error in underlying state
    NFTState(StateError),
    /// Error calling other actor
    Messaging(MessagingError),
    /// Error in runtime
    Actor(ActorError),
}

/// A helper handle for NFTState that injects services into the state-level operations
pub struct NFT<'st, S: Syscalls> {
    /// Runtime services to interact with the execution environment
    pub runtime: ActorRuntime<S>,
    /// The state that is inspected and changed
    pub state: &'st mut NFTState,
}

/// Why the state refused something, if it did.
pub open spec fn fault_in<T>(r: Result<T, NFTError>) -> Option<NftFault> {
    match r {
        Ok(_) => None,
        Err(NFTError::NFTState(e)) => Some(e@),
        Err(_) => Some(NftFault::Invariant),
    }
}

/// Whether a result says that an address stands for no actor.
pub open spec fn unresolved<T>(r: Result<T, NFTError>, address: AddressView) -> bool {
    r is Err && r->Err_0 is Messaging && r->Err_0->Messaging_0@
        == MessagingFault::AddressNotResolved(address)
}

/// What is done with the second, once the first has allowed it.
pub open spec fn if_allowed(check: Result<(), NftFault>, work: Result<Collection, NftFault>) -> Result<
    Collection,
    NftFault,
> {
    match check {
        Ok(_) => work,
        Err(fault) => Err(fault),
    }
}

/// The state, the blocks and the system calls behind a handle.
#[verifier::reject_recursive_types(S)]
pub struct Scene<S> {
    /// The system calls.
    pub syscalls: S,
    /// The state.
    pub state: NFTState,
    /// The blocks.
    pub blocks: Blocks,
}

impl<S: Syscalls> Scene<S> {
    /// The collection that the state keeps.
    pub open spec fn whole(self) -> Collection {
        self.state.collection(self.blocks)->0
    }

    /// The actor that an address stands for.
    pub open spec fn id(self, address: AddressView) -> ActorID {
        self.syscalls.resolves(address)->0
    }

    /// Whether the state became what was wanted, or was left with the reason given, and no message
    /// was sent.
    pub open spec fn leads_to<T>(
        self,
        after: Scene<S>,
        wanted: Result<Collection, NftFault>,
        r: Result<T, NFTError>,
    ) -> bool {
        &&& r is Err ==> r->Err_0 is NFTState
        &&& state::became(
            self.state,
            self.blocks,
            after.state,
            after.blocks,
            wanted,
            fault_in(r),
        )
    }

    /// Whether an address was resolved, with an account made for it where there was none, and then
    /// the state became what was wanted, or was left with the reason given. If the account could not
    /// be made, that is the reason.
    pub open spec fn resolves_and_leads_to<T>(
        self,
        after: Scene<S>,
        address: AddressView,
        wanted: Result<Collection, NftFault>,
        r: Result<T, NFTError>,
    ) -> bool {
        if r is Err && r->Err_0 is Messaging {
            &&& after.state == self.state
            &&& after.blocks == self.blocks
            &&& util::resolved_or_made(
                self.syscalls,
                after.syscalls,
                address,
                Err(r->Err_0->Messaging_0),
            )
        } else {
            &&& util::resolved_or_made(
                self.syscalls,
                after.syscalls,
                address,
                Ok(after.id(address)),
            )
            &&& after.syscalls.resolves(address) is Some
            &&& self.leads_to(after, wanted, r)
        }
    }

    /// Burning tokens of one owner, where the rights to all of them were checked first.
    pub open spec fn burning(self, owner: ActorID, ids: Seq<TokenID>) -> Result<Collection, NftFault> {
        if_allowed(
            Authority::Owner(owner).checked_all(self.whole().held, ids, ids.len()),
            state::burned(self.whole(), owner, ids, Authority::Granted),
        )
    }

    /// Dealing with tokens, where the rights to all of them were checked first.
    pub open spec fn dealing(self, authority: Authority, ids: Seq<TokenID>, action: Action) -> Result<
        Collection,
        NftFault,
    > {
        if_allowed(
            authority.checked_all(self.whole().held, ids, ids.len()),
            state::dealt_with(self.whole(), ids, Authority::Granted, action),
        )
    }
}

impl<'st, S: Syscalls> NFT<'st, S> {
    /// What is behind the handle at this time.
    pub open spec fn scene(&self) -> Scene<S> {
        Scene {
            syscalls: self.runtime.syscalls,
            state: *self.state,
            blocks: self.runtime.blockstore@,
        }
    }

    /// Wrap an instance of the state-tree in a handle for higher-level operations
    pub fn wrap(runtime: ActorRuntime<S>, state: &'st mut NFTState) -> (r: Self)
        ensures
            r.runtime == runtime,
            *r.state == *old(state),
            *final(r.state) == *final(state),
    {
        NFT { runtime, state }
    }

    /// Flush state and return Cid for root
    pub fn flush(&mut self) -> (r: Result<Cid, NFTError>)
        ensures
            *final(final(self).state) == *final(old(self).state),
            *final(self).state == *old(self).state,
            final(self).runtime.syscalls == old(self).runtime.syscalls,
            store::kept(old(self).runtime.blockstore@, final(self).runtime.blockstore@),
            r is Ok,
            store::cbor_codec(r->Ok_0@) && final(self).runtime.blockstore@.contains_key(r->Ok_0@)
                && nft_state::nft_record(final(self).runtime.blockstore@[r->Ok_0@]) == Some(
                old(self).state.record(),
            ),
    {
        match self.state.save(&mut self.runtime.blockstore) {
            Ok(cid) => Ok(cid),
            Err(e) => Err(NFTError::NFTState(e)),
        }
    }

    /// Loads a fresh copy of the state from a blockstore from a given cid, replacing existing state
    /// The old state is returned for convenience but can be safely dropped
    pub fn load_replace(&mut self, cid: &Cid) -> (r: Result<NFTState, NFTError>)
        ensures
            *final(final(self).state) == *final(old(self).state),
            final(self).runtime == old(self).runtime,
            r is Ok == readable(old(self).runtime.blockstore@, cid@),
            r is Ok ==> r->Ok_0 == *old(self).state && nft_state::nft_record(
                old(self).runtime.blockstore@[cid@],
            ) == Some(final(self).state.record()),
            r is Err ==> *final(self).state == *old(self).state && fault_in(r) == Some(
                NftFault::Invariant,
            ) && r->Err_0 is NFTState,
    {
        match NFTState::load(&self.runtime.blockstore, cid) {
            Ok(new_state) => {
                let mut state = new_state;
                std::mem::swap(&mut state, self.state);
                Ok(state)
            },
            Err(e) => Err(NFTError::NFTState(e)),
        }
    }

    /// Opens an atomic transaction on TokenState which allows a closure to make multiple
    /// modifications to the state tree.
    ///
    /// If the closure returns an error, the transaction is dropped atomically and no change is
    /// observed on token state.
    pub fn transaction<F, Res>(&mut self, f: F) -> (r: Result<Res, NFTError>) where
        F: FnOnce(&mut NFTState, &mut Store) -> Result<Res, NFTError>,

        requires
            forall|state: &mut NFTState, bs: &mut Store| f.requires((state, bs)),
        ensures
            *final(final(self).state) == *final(old(self).state),
            final(self).runtime.syscalls == old(self).runtime.syscalls,
            r is Err ==> *final(self).state == *old(self).state,
            exists|state: &mut NFTState, bs: &mut Store| {
                &&& #[trigger] f.ensures((state, bs), r)
                &&& state.same_as(*old(self).state)
                &&& *bs == old(self).runtime.blockstore
                &&& r is Ok ==> *final(self).state == *final(state)
                &&& final(self).runtime.blockstore == *final(bs)
            },
    {
        let mut mutable_state = self.state.clone();
        let res = f(&mut mutable_state, &mut self.runtime.blockstore);
        match res {
            Ok(res) => {
                // if closure didn't error save state
                *self.state = mutable_state;
                Ok(res)
            },
            Err(e) => Err(e),
        }
    }

    /// The state at this time.
    pub open spec fn current(&self) -> NFTState {
        *self.state
    }

    /// Return the total number of NFTs in circulation from this collection
    pub fn total_supply(&self) -> (r: u64)
        ensures
            r == self.current().total_supply,
    {
        self.state.total_supply
    }

    /// Return the number of NFTs held by a particular address
    pub fn balance_of(&self, address: &Address) -> (r: Result<u64, NFTError>)
        ensures
            self.runtime.syscalls.resolves(address@) is None ==> r is Ok && r->Ok_0 == 0,
            self.runtime.syscalls.resolves(address@) is Some && self.collection() is Some ==> r is Ok
                && r->Ok_0 == collection::owner_info(
                self.collection()->0.held.owners,
                keys::key_of(self.runtime.syscalls.resolves(address@)->0),
            ).0,
            r is Err ==> r->Err_0 is NFTState && fault_in(r) == Some(NftFault::Hamt),
    {
        match self.runtime.resolve_id(address) {
            Ok(owner) => match self.state.get_balance(&self.runtime.blockstore, owner) {
                Ok(balance) => Ok(balance),
                Err(e) => Err(NFTError::NFTState(e)),
            },
            Err(_) => Ok(0),
        }
    }

    /// The collection at this time. `None` where its trees are not complete.
    pub open spec fn collection(&self) -> Option<Collection> {
        self.state.collection(self.runtime.blockstore@)
    }

    /// Return the owner of an NFT
    pub fn owner_of(&self, token_id: TokenID) -> (r: Result<ActorID, NFTError>)
        requires
            self.state.ready(self.runtime.blockstore@),
        ensures
            r is Err ==> r->Err_0 is NFTState,
            self.collection() is Some ==> match collection::looked_up(
                self.collection()->0.held.tokens,
                token_id,
            ) {
                Ok(token) => r is Ok && r->Ok_0 == token.0,
                Err(fault) => fault_in(r) == Some(fault),
            },
    {
        match self.state.get_owner(&self.runtime.blockstore, token_id) {
            Ok(owner) => Ok(owner),
            Err(e) => Err(NFTError::NFTState(e)),
        }
    }

    /// Return the metadata for an NFT
    pub fn metadata(&self, token_id: TokenID) -> (r: Result<String, NFTError>)
        requires
            self.state.ready(self.runtime.blockstore@),
        ensures
            r is Err ==> r->Err_0 is NFTState,
            self.collection() is Some ==> match collection::looked_up(
                self.collection()->0.held.tokens,
                token_id,
            ) {
                Ok(token) => r is Ok && r->Ok_0@ == token.2,
                Err(fault) => fault_in(r) == Some(fault),
            },
    {
        match self.state.get_metadata(&self.runtime.blockstore, token_id) {
            Ok(metadata) => Ok(metadata),
            Err(e) => Err(NFTError::NFTState(e)),
        }
    }

    /// Create new NFTs belonging to the initial_owner. The mint method is not standardised
    /// as part of the actor's interface but this is a usefuly method at the library level to
    /// generate new tokens that will maintain the necessary state invariants.
    ///
    /// For each string in metadata_array, a new NFT will be minted with the given metadata.
    ///
    /// Returns a MintIntermediate that can be used to construct return data
    pub fn mint(
        &mut self,
        operator: &Address,
        initial_owner: &Address,
        metadata_array: Vec<String>,
        operator_data: RawBytes,
        token_data: RawBytes,
    ) -> (r: Result<ReceiverHook<MintIntermediate>, NFTError>)
        requires
            old(self).state.ready(old(self).runtime.blockstore@),
            old(self).state.next_token + metadata_array.len() <= u64::MAX,
            old(self).state.total_supply + metadata_array.len() <= u64::MAX,
        ensures
            *final(final(self).state) == *final(old(self).state),
            old(self).runtime.syscalls.resolves(operator@) is None ==> unresolved(r, operator@)
                && final(self).scene() == old(self).scene(),
            old(self).runtime.syscalls.resolves(operator@) is Some
                ==> old(self).scene().resolves_and_leads_to(
                final(self).scene(),
                initial_owner@,
                collection::issued(
                    old(self).scene().whole(),
                    final(self).scene().id(initial_owner@),
                    nft_state::texts(metadata_array@),
                ),
                r,
            ),
            r is Ok ==> state::tells(
                r->Ok_0,
                initial_owner@,
                final(self).scene().id(initial_owner@),
                old(self).scene().id(operator@),
                r->Ok_0.result_data->0.token_ids@,
                operator_data@,
                token_data@,
            ) && nft_state::minted(
                r->Ok_0.result_data->0,
                final(self).scene().id(initial_owner@),
                old(self).state.next_token,
                metadata_array@.len(),
            ),
            r is Ok ==> final(self).state.next_token == old(self).state.next_token
                + metadata_array@.len(),
    {
        let operator = match self.runtime.resolve_id(operator) {
            Ok(id) => id,
            Err(e) => return Err(NFTError::Messaging(e)),
        };
        let initial_owner_id = match self.runtime.resolve_or_init(initial_owner) {
            Ok(id) => id,
            Err(e) => return Err(NFTError::Messaging(e)),
        };
        let mint_intermediate = match self.state.add_tokens(
            &mut self.runtime.blockstore,
            initial_owner_id,
            metadata_array,
        ) {
            Ok(intermediate) => intermediate,
            Err(e) => return Err(NFTError::NFTState(e)),
        };
        // params we'll send to the receiver hook
        let params = FRCXXTokenReceived {
            operator,
            to: initial_owner_id,
            operator_data,
            token_data,
            token_ids: copy_ids(&mint_intermediate.token_ids),
        };
        match ReceiverHook::new_frcxx(initial_owner.clone(), params, mint_intermediate) {
            Ok(hook) => Ok(hook),
            Err(e) => Err(NFTError::NFTState(StateError::ReceiverHook(e))),
        }
    }

    /// Constructs MintReturn data from a MintIntermediate handle
    ///
    /// Creates an up-to-date view of the actor state where necessary to generate the values
    /// `prior_state_cid` is the CID of the state prior to hook call
    pub fn mint_return(&mut self, intermediate: MintIntermediate, prior_state_cid: Cid) -> (r: Result<
        MintReturn,
        NFTError,
    >)
        ensures
            *final(final(self).state) == *final(old(self).state),
            final(self).runtime == old(self).runtime,
            up_to_date(
                old(self).scene(),
                final(self).scene(),
                prior_state_cid@,
                r is Err && !(r->Err_0 is NFTState && fault_in(r) == Some(NftFault::Hamt)),
            ),
            r is Ok && final(self).collection() is Some ==> r->Ok_0.balance
                == collection::owner_info(
                final(self).collection()->0.held.owners,
                keys::key_of(intermediate.to),
            ).0,
            r is Ok ==> r->Ok_0.supply == final(self).state.total_supply && r->Ok_0.token_ids
                == intermediate.token_ids && r->Ok_0.recipient_data == intermediate.recipient_data,
            r is Err && r->Err_0 is NFTState && fault_in(r) == Some(NftFault::Hamt)
                ==> final(self).collection() is None,
    {
        match self.reload_if_changed(prior_state_cid) {
            Ok(_) => {},
            Err(e) => return Err(e),
        }
        match self.state.mint_return(&self.runtime.blockstore, intermediate) {
            Ok(done) => Ok(done),
            Err(e) => Err(NFTError::NFTState(e)),
        }
    }

    /// Burn a set of NFTs as the owner
    ///
    /// A burnt TokenID can never be minted again
    pub fn burn(&mut self, owner: &Address, token_ids: &Vec<TokenID>) -> (r: Result<u64, NFTError>)
        requires
            old(self).state.ready(old(self).runtime.blockstore@),
        ensures
            *final(final(self).state) == *final(old(self).state),
            final(self).runtime.syscalls == old(self).runtime.syscalls,
            old(self).runtime.syscalls.resolves(owner@) is None ==> unresolved(r, owner@)
                && final(self).scene() == old(self).scene(),
            old(self).runtime.syscalls.resolves(owner@) is Some ==> old(self).scene().leads_to(
                final(self).scene(),
                old(self).scene().burning(old(self).scene().id(owner@), token_ids@),
                r,
            ),
            r is Ok && old(self).collection() is Some ==> r->Ok_0 == left_with(
                old(self).collection()->0,
                old(self).scene().id(owner@),
                token_ids@,
            ),
            final(self).state.next_token == old(self).state.next_token,
    {
        let owner = match self.runtime.resolve_id(owner) {
            Ok(id) => id,
            Err(e) => return Err(NFTError::Messaging(e)),
        };
        match load_tokens(&self.runtime.blockstore, &self.state.token_data) {
            Ok(()) => {},
            Err(e) => return Err(NFTError::NFTState(e)),
        }
        match authorize_all(
            &self.runtime.blockstore,
            &self.state.token_data,
            &self.state.owner_data,
            Authority::Owner(owner),
            token_ids,
        ) {
            Ok(()) => {},
            Err(e) => return Err(NFTError::NFTState(e)),
        }
        match self.state.burn_by(
            &mut self.runtime.blockstore,
            owner,
            token_ids,
            Authority::Granted,
        ) {
            Ok(balance) => Ok(balance),
            Err(e) => Err(NFTError::NFTState(e)),
        }
    }

    /// Burn a set of NFTs as an operator
    ///
    /// A burnt TokenID can never be minted again
    pub fn burn_from(&mut self, owner: &Address, operator: &Address, token_ids: &Vec<TokenID>) -> (r:
        Result<u64, NFTError>)
        requires
            old(self).state.ready(old(self).runtime.blockstore@),
        ensures
            *final(final(self).state) == *final(old(self).state),
            old(self).runtime.syscalls.resolves(operator@) is None ==> unresolved(r, operator@)
                && final(self).scene() == old(self).scene(),
            old(self).runtime.syscalls.resolves(operator@) is Some
                ==> old(self).scene().resolves_and_leads_to(
                final(self).scene(),
                owner@,
                from_owner(
                    old(self).scene(),
                    final(self).scene().id(owner@),
                    old(self).scene().id(operator@),
                    token_ids@,
                    state::burned(
                        old(self).scene().whole(),
                        final(self).scene().id(owner@),
                        token_ids@,
                        Authority::Granted,
                    ),
                ),
                r,
            ),
            r is Ok && old(self).collection() is Some ==> r->Ok_0 == left_with(
                old(self).collection()->0,
                final(self).scene().id(owner@),
                token_ids@,
            ),
            final(self).state.next_token == old(self).state.next_token,
    {
        let operator = match self.runtime.resolve_id(operator) {
            Ok(id) => id,
            Err(e) => return Err(NFTError::Messaging(e)),
        };
        let owner = match self.runtime.resolve_or_init(owner) {
            Ok(id) => id,
            Err(e) => return Err(NFTError::Messaging(e)),
        };
        match load_tokens(&self.runtime.blockstore, &self.state.token_data) {
            Ok(()) => {},
            Err(e) => return Err(NFTError::NFTState(e)),
        }
        // check the tokens are all owned by the same expected account
        match authorize_all(
            &self.runtime.blockstore,
            &self.state.token_data,
            &self.state.owner_data,
            Authority::Owner(owner),
            token_ids,
        ) {
            Ok(()) => {},
            Err(e) => return Err(NFTError::NFTState(e)),
        }
        // check that the operator has permission to burn the tokens
        match authorize_all(
            &self.runtime.blockstore,
            &self.state.token_data,
            &self.state.owner_data,
            Authority::Operator(operator),
            token_ids,
        ) {
            Ok(()) => {},
            Err(e) => return Err(NFTError::NFTState(e)),
        }
        match self.state.burn_by(
            &mut self.runtime.blockstore,
            owner,
            token_ids,
            Authority::Granted,
        ) {
            Ok(balance) => Ok(balance),
            Err(e) => Err(NFTError::NFTState(e)),
        }
    }

    /// Approve an operator to transfer or burn a single NFT
    ///
    /// `caller` may be an account-level operator or owner of the NFT
    /// `operator` is the new address to become an approved operator
    pub fn approve(&mut self, caller: &Address, operator: &Address, token_ids: &Vec<TokenID>) -> (r:
        Result<(), NFTError>)
        requires
            old(self).state.ready(old(self).runtime.blockstore@),
        ensures
            *final(final(self).state) == *final(old(self).state),
            old(self).runtime.syscalls.resolves(caller@) is None ==> unresolved(r, caller@)
                && final(self).scene() == old(self).scene(),
            old(self).runtime.syscalls.resolves(caller@) is Some
                ==> old(self).scene().resolves_and_leads_to(
                final(self).scene(),
                operator@,
                old(self).scene().dealing(
                    Authority::Manager(old(self).scene().id(caller@)),
                    token_ids@,
                    Action::Approve(final(self).scene().id(operator@)),
                ),
                r,
            ),
            final(self).state.next_token == old(self).state.next_token,
    {
        let caller = match self.runtime.resolve_id(caller) {
            Ok(id) => id,
            Err(e) => return Err(NFTError::Messaging(e)),
        };
        // Attempt to instantiate the account if it doesn't exist
        let operator = match self.runtime.resolve_or_init(operator) {
            Ok(id) => id,
            Err(e) => return Err(NFTError::Messaging(e)),
        };
        self.deal_with(Authority::Manager(caller), token_ids, Action::Approve(operator))
    }

    /// Deals with a batch of tokens, once the right to all of them was checked
    fn deal_with(&mut self, authority: Authority, token_ids: &Vec<TokenID>, action: Action) -> (r: Result<
        (),
        NFTError,
    >)
        requires
            old(self).state.ready(old(self).runtime.blockstore@),
        ensures
            *final(final(self).state) == *final(old(self).state),
            final(self).runtime.syscalls == old(self).runtime.syscalls,
            old(self).scene().leads_to(
                final(self).scene(),
                old(self).scene().dealing(authority, token_ids@, action),
                r,
            ),
            final(self).state.next_token == old(self).state.next_token,
    {
        match load_tokens(&self.runtime.blockstore, &self.state.token_data) {
            Ok(()) => {},
            Err(e) => return Err(NFTError::NFTState(e)),
        }
        match authorize_all(
            &self.runtime.blockstore,
            &self.state.token_data,
            &self.state.owner_data,
            authority,
            token_ids,
        ) {
            Ok(()) => {},
            Err(e) => return Err(NFTError::NFTState(e)),
        }
        match self.state.deal_with(
            &mut self.runtime.blockstore,
            token_ids,
            Authority::Granted,
            action,
        ) {
            Ok(()) => Ok(()),
            Err(e) => Err(NFTError::NFTState(e)),
        }
    }

    /// Revoke the approval of an operator to transfer a particular NFT
    ///
    /// `caller` may be an account-level operator or owner of the NFT
    /// `operator` is the address whose approval is being revoked
    pub fn revoke(&mut self, caller: &Address, operator: &Address, token_ids: &Vec<TokenID>) -> (r:
        Result<(), NFTError>)
        requires
            old(self).state.ready(old(self).runtime.blockstore@),
        ensures
            *final(final(self).state) == *final(old(self).state),
            final(self).runtime.syscalls == old(self).runtime.syscalls,
            old(self).runtime.syscalls.resolves(caller@) is None ==> unresolved(r, caller@)
                && final(self).scene() == old(self).scene(),
            old(self).runtime.syscalls.resolves(caller@) is Some
                && old(self).runtime.syscalls.resolves(operator@) is None ==> r is Ok
                && final(self).scene() == old(self).scene(),
            old(self).runtime.syscalls.resolves(caller@) is Some
                && old(self).runtime.syscalls.resolves(operator@) is Some
                ==> old(self).scene().leads_to(
                final(self).scene(),
                old(self).scene().dealing(
                    Authority::Manager(old(self).scene().id(caller@)),
                    token_ids@,
                    Action::Revoke(old(self).scene().id(operator@)),
                ),
                r,
            ),
            final(self).state.next_token == old(self).state.next_token,
    {
        let caller = match self.runtime.resolve_id(caller) {
            Ok(id) => id,
            Err(e) => return Err(NFTError::Messaging(e)),
        };
        let operator = match self.runtime.resolve_id(operator) {
            Ok(id) => id,
            // if operator didn't exist this is a no-op
            Err(_) => return Ok(()),
        };
        self.deal_with(Authority::Manager(caller), token_ids, Action::Revoke(operator))
    }

    /// Approve an operator to transfer or burn on behalf of the account
    ///
    /// `owner` must be the address that called this method
    /// `operator` is the new address to become an approved operator
    pub fn approve_for_owner(&mut self, owner: &Address, operator: &Address) -> (r: Result<
        (),
        NFTError,
    >)
        ensures
            *final(final(self).state) == *final(old(self).state),
            old(self).runtime.syscalls.resolves(owner@) is None ==> unresolved(r, owner@)
                && final(self).scene() == old(self).scene(),
            old(self).runtime.syscalls.resolves(owner@) is Some
                ==> old(self).scene().resolves_and_leads_to(
                final(self).scene(),
                operator@,
                state::account_approved(
                    old(self).scene().whole(),
                    old(self).scene().id(owner@),
                    final(self).scene().id(operator@),
                ),
                r,
            ),
            final(self).state.next_token == old(self).state.next_token,
    {
        let owner = match self.runtime.resolve_id(owner) {
            Ok(id) => id,
            Err(e) => return Err(NFTError::Messaging(e)),
        };
        // Attempt to instantiate the account if it doesn't exist
        let operator = match self.runtime.resolve_or_init(operator) {
            Ok(id) => id,
            Err(e) => return Err(NFTError::Messaging(e)),
        };
        match self.state.approve_for_owner(&mut self.runtime.blockstore, owner, operator) {
            Ok(()) => Ok(()),
            Err(e) => Err(NFTError::NFTState(e)),
        }
    }

    /// Revoke the approval of an operator to transfer on behalf of the caller
    ///
    /// `owner` must be the address that called this method
    /// `operator` is the address whose approval is being revoked
    pub fn revoke_for_all(&mut self, owner: &Address, operator: &Address) -> (r: Result<(), NFTError>)
        ensures
            *final(final(self).state) == *final(old(self).state),
            final(self).runtime.syscalls == old(self).runtime.syscalls,
            old(self).runtime.syscalls.resolves(owner@) is None ==> unresolved(r, owner@)
                && final(self).scene() == old(self).scene(),
            old(self).runtime.syscalls.resolves(owner@) is Some
                && old(self).runtime.syscalls.resolves(operator@) is None ==> r is Ok
                && final(self).scene() == old(self).scene(),
            old(self).runtime.syscalls.resolves(owner@) is Some
                && old(self).runtime.syscalls.resolves(operator@) is Some
                ==> old(self).scene().leads_to(
                final(self).scene(),
                state::account_revoked(
                    old(self).scene().whole(),
                    old(self).scene().id(owner@),
                    old(self).scene().id(operator@),
                ),
                r,
            ),
            final(self).state.next_token == old(self).state.next_token,
    {
        let owner = match self.runtime.resolve_id(owner) {
            Ok(id) => id,
            Err(e) => return Err(NFTError::Messaging(e)),
        };
        let operator = match self.runtime.resolve_id(operator) {
            Ok(id) => id,
            // if operator didn't exist this is a no-op
            Err(_) => return Ok(()),
        };
        match self.state.revoke_for_all(&mut self.runtime.blockstore, owner, operator) {
            Ok(()) => Ok(()),
            Err(e) => Err(NFTError::NFTState(e)),
        }
    }

    /// Transfers a token owned by the caller
    pub fn transfer(
        &mut self,
        owner: &Address,
        recipient: &Address,
        token_ids: &Vec<TokenID>,
        operator_data: RawBytes,
        token_data: RawBytes,
    ) -> (r: Result<ReceiverHook<TransferIntermediate>, NFTError>)
        requires
            old(self).state.ready(old(self).runtime.blockstore@),
        ensures
            *final(final(self).state) == *final(old(self).state),
            if r is Err && r->Err_0 is Messaging {
                &&& final(self).scene().state == old(self).scene().state
                &&& final(self).scene().blocks == old(self).scene().blocks
                &&& util::resolving_failed(
                    old(self).runtime.syscalls,
                    final(self).runtime.syscalls,
                    owner@,
                    recipient@,
                    r->Err_0->Messaging_0,
                )
            } else {
                &&& util::resolved_both(
                    old(self).runtime.syscalls,
                    final(self).runtime.syscalls,
                    owner@,
                    recipient@,
                    (final(self).scene().id(owner@), final(self).scene().id(recipient@)),
                )
                &&& old(self).scene().leads_to(
                    final(self).scene(),
                    old(self).scene().dealing(
                        Authority::Owner(final(self).scene().id(owner@)),
                        token_ids@,
                        Action::HandOn(final(self).scene().id(recipient@)),
                    ),
                    r,
                )
            },
            r is Ok ==> state::tells(
                r->Ok_0,
                recipient@,
                final(self).scene().id(recipient@),
                final(self).scene().id(owner@),
                token_ids@,
                operator_data@,
                token_data@,
            ) && state::transferred(
                r->Ok_0.result_data->0,
                final(self).scene().id(owner@),
                final(self).scene().id(recipient@),
                token_ids@,
            ),
            final(self).state.next_token == old(self).state.next_token,
    {
        // Attempt to instantiate the accounts if they don't exist
        let (owner_id, recipient_id) = match self.runtime.resolve_or_init_both(owner, recipient) {
            Ok(ids) => ids,
            Err(e) => return Err(NFTError::Messaging(e)),
        };
        match self.deal_with(
            Authority::Owner(owner_id),
            token_ids,
            Action::HandOn(recipient_id),
        ) {
            Ok(()) => {},
            Err(e) => return Err(e),
        }
        transfer_hook(
            recipient,
            recipient_id,
            owner_id,
            owner_id,
            token_ids,
            operator_data,
            token_data,
        )
    }

    /// Constructs TransferReturn data from a TransferIntermediate
    ///
    /// Creates an up-to-date view of the actor state where necessary to generate the values
    /// `prior_state_cid` is the CID of the state prior to hook call
    pub fn transfer_return(&mut self, intermediate: TransferIntermediate, prior_state_cid: Cid) -> (r:
        Result<TransferReturn, NFTError>)
        ensures
            *final(final(self).state) == *final(old(self).state),
            final(self).runtime == old(self).runtime,
            up_to_date(
                old(self).scene(),
                final(self).scene(),
                prior_state_cid@,
                r is Err && !(r->Err_0 is NFTState && fault_in(r) == Some(NftFault::Hamt)),
            ),
            r is Ok && final(self).collection() is Some ==> {
                let owners = final(self).collection()->0.held.owners;
                &&& r->Ok_0.from_balance == collection::owner_info(
                    owners,
                    keys::key_of(intermediate.from),
                ).0
                &&& r->Ok_0.to_balance == collection::owner_info(
                    owners,
                    keys::key_of(intermediate.to),
                ).0
            },
            r is Ok ==> r->Ok_0.token_ids == intermediate.token_ids,
            r is Err && r->Err_0 is NFTState && fault_in(r) == Some(NftFault::Hamt)
                ==> final(self).collection() is None,
    {
        match self.reload_if_changed(prior_state_cid) {
            Ok(_) => {},
            Err(e) => return Err(e),
        }
        match self.state.transfer_return(&self.runtime.blockstore, intermediate) {
            Ok(done) => Ok(done),
            Err(e) => Err(NFTError::NFTState(e)),
        }
    }

    /// Transfers a token that the caller is an operator for
    pub fn transfer_from(
        &mut self,
        owner: &Address,
        operator: &Address,
        recipient: &Address,
        token_ids: &Vec<TokenID>,
        operator_data: RawBytes,
        token_data: RawBytes,
    ) -> (r: Result<ReceiverHook<TransferIntermediate>, NFTError>)
        requires
            old(self).state.ready(old(self).runtime.blockstore@),
        ensures
            *final(final(self).state) == *final(old(self).state),
            old(self).runtime.syscalls.resolves(owner@) is None ==> unresolved(r, owner@)
                && final(self).scene() == old(self).scene(),
            old(self).runtime.syscalls.resolves(owner@) is Some
                && old(self).runtime.syscalls.resolves(operator@) is None ==> unresolved(
                r,
                operator@,
            ) && final(self).scene() == old(self).scene(),
            old(self).runtime.syscalls.resolves(owner@) is Some
                && old(self).runtime.syscalls.resolves(operator@) is Some
                ==> old(self).scene().resolves_and_leads_to(
                final(self).scene(),
                recipient@,
                from_owner(
                    old(self).scene(),
                    old(self).scene().id(owner@),
                    old(self).scene().id(operator@),
                    token_ids@,
                    state::dealt_with(
                        old(self).scene().whole(),
                        token_ids@,
                        Authority::Granted,
                        Action::HandOn(final(self).scene().id(recipient@)),
                    ),
                ),
                r,
            ),
            r is Ok ==> state::tells(
                r->Ok_0,
                recipient@,
                final(self).scene().id(recipient@),
                old(self).scene().id(operator@),
                token_ids@,
                operator_data@,
                token_data@,
            ) && state::transferred(
                r->Ok_0.result_data->0,
                old(self).scene().id(owner@),
                final(self).scene().id(recipient@),
                token_ids@,
            ),
            final(self).state.next_token == old(self).state.next_token,
    {
        let owner_id = match self.runtime.resolve_id(owner) {
            Ok(id) => id,
            Err(e) => return Err(NFTError::Messaging(e)),
        };
        let operator_id = match self.runtime.resolve_id(operator) {
            Ok(id) => id,
            Err(e) => return Err(NFTError::Messaging(e)),
        };
        // Attempt to instantiate the account if it doesn't exist
        let recipient_id = match self.runtime.resolve_or_init(recipient) {
            Ok(id) => id,
            Err(e) => return Err(NFTError::Messaging(e)),
        };
        match load_tokens(&self.runtime.blockstore, &self.state.token_data) {
            Ok(()) => {},
            Err(e) => return Err(NFTError::NFTState(e)),
        }
        match authorize_all(
            &self.runtime.blockstore,
            &self.state.token_data,
            &self.state.owner_data,
            Authority::Owner(owner_id),
            token_ids,
        ) {
            Ok(()) => {},
            Err(e) => return Err(NFTError::NFTState(e)),
        }
        match self.deal_with(
            Authority::Operator(operator_id),
            token_ids,
            Action::HandOn(recipient_id),
        ) {
            Ok(()) => {},
            Err(e) => return Err(e),
        }
        transfer_hook(
            recipient,
            recipient_id,
            operator_id,
            owner_id,
            token_ids,
            operator_data,
            token_data,
        )
    }

    /// Constructs TransferReturn data from a TransferIntermediate
    ///
    /// Creates an up-to-date view of the actor state where necessary to generate the values
    /// `prior_state_cid` is the CID of the state prior to hook call
    pub fn transfer_from_return(&mut self, intermediate: TransferIntermediate, prior_state_cid: Cid) -> (r:
        Result<TransferReturn, NFTError>)
        ensures
            *final(final(self).state) == *final(old(self).state),
            final(self).runtime == old(self).runtime,
            up_to_date(
                old(self).scene(),
                final(self).scene(),
                prior_state_cid@,
                r is Err && !(r->Err_0 is NFTState && fault_in(r) == Some(NftFault::Hamt)),
            ),
            r is Ok && final(self).collection() is Some ==> {
                let owners = final(self).collection()->0.held.owners;
                &&& r->Ok_0.from_balance == collection::owner_info(
                    owners,
                    keys::key_of(intermediate.from),
                ).0
                &&& r->Ok_0.to_balance == collection::owner_info(
                    owners,
                    keys::key_of(intermediate.to),
                ).0
            },
            r is Ok ==> r->Ok_0.token_ids == intermediate.token_ids,
            r is Err && r->Err_0 is NFTState && fault_in(r) == Some(NftFault::Hamt)
                ==> final(self).collection() is None,
    {
        self.transfer_return(intermediate, prior_state_cid)
    }

    /// Reloads the state if the current root cid has diverged (i.e. during re-entrant receiver
    /// hooks) from the last known expected cid
    ///
    /// Returns the current in-blockstore state if the root cid has changed else None
    pub fn reload_if_changed(&mut self, expected_cid: Cid) -> (r: Result<Option<NFTState>, NFTError>)
        ensures
            *final(final(self).state) == *final(old(self).state),
            final(self).runtime == old(self).runtime,
            up_to_date(old(self).scene(), final(self).scene(), expected_cid@, r is Err),
            r is Err ==> r->Err_0 is Actor || fault_in(r) == Some(NftFault::Invariant),
            r is Err ==> (r->Err_0 is Actor) == (old(self).runtime.syscalls.state_root() is None),
            r is Ok ==> (r->Ok_0 is Some) == (old(self).runtime.syscalls.state_root() != Some(
                expected_cid@,
            )),
            r is Ok && r->Ok_0 is Some ==> r->Ok_0->0.record() == final(self).state.record(),
    {
        let current_cid = match self.runtime.root_cid() {
            Ok(cid) => cid,
            Err(e) => return Err(NFTError::Actor(e)),
        };
        if current_cid.same(&expected_cid) {
            Ok(None)
        } else {
            match self.load_replace(&current_cid) {
                Ok(_) => Ok(Some(self.state.clone())),
                Err(e) => Err(e),
            }
        }
    }
}

/// Whether a block holds a state.
pub open spec fn readable(blocks: Blocks, cid: Seq<u8>) -> bool {
    store::cbor_codec(cid) && blocks.contains_key(cid) && nft_state::nft_record(blocks[cid]) is Some
}

/// Whether the state is that of the actor's root, read again where the root is not the expected
/// one. Where there is no root, or no state under it, that fails and the state stays.
pub open spec fn up_to_date<S: Syscalls>(
    before: Scene<S>,
    after: Scene<S>,
    expected: Seq<u8>,
    failed: bool,
) -> bool {
    match before.syscalls.state_root() {
        Some(root) => if root == expected {
            !failed && after.state == before.state
        } else {
            &&& failed == !readable(before.blocks, root)
            &&& failed ==> after.state == before.state
            &&& !failed ==> nft_state::nft_record(before.blocks[root]) == Some(after.state.record())
        },
        None => failed && after.state == before.state,
    }
}

/// How many tokens an owner is left with when some of them were burned.
pub open spec fn left_with(whole: Collection, owner: ActorID, ids: Seq<TokenID>) -> int {
    whole.held.owners[keys::key_of(owner)].0 - ids.len()
}

/// What an operator does with the tokens of an owner: all of them must be the owner's, and the
/// operator must be authorised for all of them.
pub open spec fn from_owner<S: Syscalls>(
    scene: Scene<S>,
    owner: ActorID,
    operator: ActorID,
    ids: Seq<TokenID>,
    work: Result<Collection, NftFault>,
) -> Result<Collection, NftFault> {
    if_allowed(
        Authority::Owner(owner).checked_all(scene.whole().held, ids, ids.len()),
        if_allowed(
            Authority::Operator(operator).checked_all(scene.whole().held, ids, ids.len()),
            work,
        ),
    )
}

/// The hook that tells the recipient of a transfer
fn transfer_hook(
    recipient: &Address,
    recipient_id: ActorID,
    operator_id: ActorID,
    owner_id: ActorID,
    token_ids: &Vec<TokenID>,
    operator_data: RawBytes,
    token_data: RawBytes,
) -> (r: Result<ReceiverHook<TransferIntermediate>, NFTError>)
    ensures
        r is Ok,
        state::tells(
            r->Ok_0,
            recipient@,
            recipient_id,
            operator_id,
            token_ids@,
            operator_data@,
            token_data@,
        ),
        state::transferred(r->Ok_0.result_data->0, owner_id, recipient_id, token_ids@),
{
    let params = FRCXXTokenReceived {
        to: recipient_id,
        operator: operator_id,
        token_ids: copy_ids(token_ids),
        operator_data,
        token_data,
    };
    let intermediate = TransferIntermediate {
        to: recipient_id,
        from: owner_id,
        token_ids: copy_ids(token_ids),
        recipient_data: RawBytes::default(),
    };
    match ReceiverHook::new_frcxx(recipient.clone(), params, intermediate) {
        Ok(hook) => Ok(hook),
        Err(e) => Err(NFTError::NFTState(StateError::ReceiverHook(e))),
    }
}

} // verus!
