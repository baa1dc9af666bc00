//! A plain set of tokens: each has an owner and nothing else.
use vstd::prelude::*;

use crate::bytes::{ActorID, Cid};
use crate::frc53_nft::state::{encode_nft_state, get_nft_state};
use crate::frc53_nft::state;
use crate::nft_store;
use crate::nft_store::{actors_count, actors_set, empty_array, Actors};
use crate::store;
use crate::store::{Blocks, Store};
use fvm_ipld_amt::Error as AmtError;

verus! {

/// The number of a token.
pub type TokenID = u64;

/// Why an operation on the set fails.
#[derive(Debug)]
pub enum StateError {
    /// An array could not be read or written.
    IpldAmt(AmtError),
    /// Anything else.
    Other(String),
}

/// Each token stores its owner, approved operators etc.
#[derive(Debug, PartialEq, Eq)]
pub struct TokenData {
    /// Who owns the token
    pub owner: ActorID,
    /// operators on this token
    pub approved: Vec<ActorID>,
}

/// Each owner stores their own balance and other indexed data
#[derive(Debug, PartialEq, Eq)]
pub struct OwnerData {
    /// How many tokens they own
    pub balance: u64,
    /// account-level operators
    pub approved: Vec<ActorID>,
}

/// The numbers of the tokens that were minted
#[derive(Debug, PartialEq, Eq)]
pub struct BatchMintReturn {
    /// The numbers, in the order of minting
    pub tokens: Vec<TokenID>,
}

/// NFT state IPLD structure
#[derive(Debug, PartialEq, Eq)]
pub struct NFTState {
    /// The owner of each token, by its number
    pub token_data: Cid,
    /// index for faster lookup of data often queried by owner
    pub owner_data: Cid,
    /// The next available token id for minting
    pub next_token: TokenID,
    /// The number of minted tokens less the number of burned tokens
    pub total_supply: u64,
}

/// The state of a set of tokens.
pub type NFTSetState = NFTState;

/// How many bits of a number each level of an array takes.
const AMT_BIT_WIDTH: u32 = 5;

/// The numbers that a run of mints gives out: as many as asked for, one after the other.
pub open spec fn run_from(first: int, count: nat) -> Seq<TokenID> {
    Seq::new(count, |i: int| (first + i) as u64)
}

/// The owners of the tokens, once a run of tokens from a number on was given to one.
pub open spec fn given(tokens: Actors, first: int, count: nat, owner: ActorID) -> Actors
    decreases count,
{
    if count == 0 {
        tokens
    } else {
        given(tokens, first, (count - 1) as nat, owner).insert((first + count - 1) as u64, owner)
    }
}

/// The tokens that are numbered from zero on, without a gap.
pub open spec fn gapless(tokens: Actors) -> bool {
    tokens.dom().finite() && forall|i: u64| #[trigger]
        tokens.contains_key(i) <==> i < tokens.dom().len()
}

impl NFTState {
    /// The owners of the tokens, read from these blocks.
    pub open spec fn tokens(&self, blocks: Blocks) -> Option<Actors> {
        nft_store::actors_at(blocks, self.token_data@)
    }

    /// The fields as they are written.
    pub open spec fn record(&self) -> state::NftRecord {
        (self.token_data@, self.owner_data@, self.next_token, self.total_supply)
    }

    /// Tokens are numbered without a gap, and the counts are right.
    pub open spec fn sound(&self, blocks: Blocks) -> bool {
        match self.tokens(blocks) {
            Some(tokens) => gapless(tokens) && self.next_token == tokens.dom().len()
                && self.total_supply == tokens.dom().len(),
            None => false,
        }
    }

    /// Create a new NFT state-tree, without committing it (the root Cid) to a blockstore
    pub fn new(store: &mut Store) -> (r: Result<Self, StateError>)
        ensures
            store::kept(old(store)@, final(store)@),
            r is Ok,
            r->Ok_0.tokens(final(store)@) == Some(Actors::empty()),
            nft_store::actors_at(final(store)@, r->Ok_0.owner_data@) == Some(Actors::empty()),
            r->Ok_0.next_token == 0,
            r->Ok_0.total_supply == 0,
            r->Ok_0.sound(final(store)@),
    {
        let ghost start = store@;
        let token_data = match empty_array(store, AMT_BIT_WIDTH) {
            Ok(root) => root,
            Err(e) => return Err(StateError::IpldAmt(e)),
        };
        let ghost between = store@;
        let owner_data = match empty_array(store, AMT_BIT_WIDTH) {
            Ok(root) => root,
            Err(e) => return Err(StateError::IpldAmt(e)),
        };
        proof {
            store::lemma_kept_trans(start, between, store@);
        }
        Ok(NFTState { token_data, owner_data, next_token: 0, total_supply: 0 })
    }

    /// Loads the state from the block under an identifier
    pub fn load(store: &Store, root: &Cid) -> (r: Result<Self, StateError>)
        ensures
            r is Ok == (store::cbor_codec(root@) && store@.contains_key(root@) && state::nft_record(
                store@[root@],
            ) is Some),
            r is Ok ==> state::nft_record(store@[root@]) == Some(r->Ok_0.record()),
            r is Err ==> r->Err_0 is Other,
    {
        match get_nft_state(store, root) {
            Ok(Some((token_data, owner_data, next_token, total_supply))) => Ok(
                NFTState { token_data, owner_data, next_token, total_supply },
            ),
            Ok(None) => Err(StateError::Other("no data found".to_owned())),
            Err(e) => Err(StateError::Other(e)),
        }
    }

    /// Saves the state, returning the identifier of its block
    pub fn save(&self, store: &mut Store) -> (r: Result<Cid, StateError>)
        ensures
            store::kept(old(store)@, final(store)@),
            r is Ok,
            store::cbor_codec(r->Ok_0@),
            final(store)@.contains_key(r->Ok_0@),
            state::nft_record(final(store)@[r->Ok_0@]) == Some(self.record()),
    {
        let serialized = match encode_nft_state(
            &self.token_data,
            &self.owner_data,
            self.next_token,
            self.total_supply,
        ) {
            Ok(s) => s,
            Err(e) => return Err(StateError::Other(e)),
        };
        Ok(store.put(serialized))
    }

    /// Gives a new token to an owner, returning its number
    pub fn mint_token(&mut self, bs: &mut Store, owner: ActorID) -> (r: Result<TokenID, StateError>)
        requires
            nft_store::actors_ready(old(bs)@, old(self).token_data@),
        ensures
            store::kept(old(bs)@, final(bs)@),
            minted(*old(self), *final(self), old(bs)@, final(bs)@, owner, 1, r is Ok),
            old(self).tokens(old(bs)@) is Some && r is Ok ==> r->Ok_0
                == old(self).tokens(old(bs)@)->0.dom().len(),
    {
        match self.batch_mint_tokens(bs, owner, 1) {
            Ok(minted) => Ok(minted.tokens[0]),
            Err(e) => Err(e),
        }
    }

    /// Gives new tokens to an owner, returning their numbers
    pub fn batch_mint_tokens(&mut self, bs: &mut Store, owner: ActorID, count: u64) -> (r: Result<
        BatchMintReturn,
        StateError,
    >)
        requires
            nft_store::actors_ready(old(bs)@, old(self).token_data@),
        ensures
            store::kept(old(bs)@, final(bs)@),
            minted(*old(self), *final(self), old(bs)@, final(bs)@, owner, count as nat, r is Ok),
            r is Ok ==> r->Ok_0.tokens@.len() == count,
            old(self).tokens(old(bs)@) is Some && r is Ok ==> r->Ok_0.tokens@ == run_from(
                old(self).tokens(old(bs)@)->0.dom().len() as int,
                count as nat,
            ),
    {
        let ghost start = bs@;
        let first = match actors_count(bs, &self.token_data) {
            Ok(first) => first,
            Err(e) => return Err(StateError::IpldAmt(e)),
        };
        if count > u64::MAX - first || count > u64::MAX - self.total_supply {
            return Err(StateError::Other("too many tokens".to_owned()));
        }
        let mut root = self.token_data.clone();
        let mut tokens: Vec<TokenID> = Vec::new();
        let mut done: u64 = 0;
        let ghost readable = self.tokens(start) is Some;
        while done < count
            invariant
                nft_store::actors_at(bs@, root@) is Some,
                done <= count,
                count <= u64::MAX - first,
                *self == *old(self),
                start == old(bs)@,
                readable == (self.tokens(start) is Some),
                store::kept(start, bs@),
                tokens@ == run_from(first as int, done as nat),
                readable ==> nft_store::actors_at(bs@, root@) == Some(
                    given(self.tokens(start)->0, first as int, done as nat, owner),
                ),
            decreases count - done,
        {
            let ghost between = bs@;
            let id: TokenID = first + done;
            root =
            match actors_set(bs, &root, id, owner) {
                Ok(next) => next,
                Err(e) => {
                    proof {
                        store::lemma_kept_trans(start, between, bs@);
                    }
                    return Err(StateError::IpldAmt(e));
                },
            };
            tokens.push(id);
            proof {
                store::lemma_kept_trans(start, between, bs@);
                assert(tokens@ =~= run_from(first as int, (done + 1) as nat));
            }
            done = done + 1;
        }
        self.token_data = root;
        self.next_token = first + count;
        self.total_supply = self.total_supply + count;
        Ok(BatchMintReturn { tokens })
    }
}

/// Whether new tokens were given to an owner: they are numbered on from the tokens that there are.
/// It succeeds wherever the tokens can be read and the numbers suffice; where it does not succeed,
/// nothing changes.
pub open spec fn minted(
    before: NFTState,
    after: NFTState,
    blocks_before: Blocks,
    blocks_after: Blocks,
    owner: ActorID,
    count: nat,
    ok: bool,
) -> bool {
    let first = before.tokens(blocks_before)->0.dom().len();
    &&& !ok ==> after == before
    &&& ok ==> after.owner_data == before.owner_data
    &&& before.tokens(blocks_before) is Some ==> {
        &&& ok == (first + count <= u64::MAX && before.total_supply + count <= u64::MAX)
        &&& ok ==> after.tokens(blocks_after) == Some(
            given(before.tokens(blocks_before)->0, first as int, count, owner),
        )
        &&& ok ==> after.next_token == first + count
        &&& ok ==> after.total_supply == before.total_supply + count
    }
}

/// Tokens that are numbered without a gap are so when more are given out, and the new owner has
/// them.
pub proof fn minting_law(
    before: NFTState,
    after: NFTState,
    blocks_before: Blocks,
    blocks_after: Blocks,
    owner: ActorID,
    count: nat,
)
    requires
        before.sound(blocks_before),
        minted(before, after, blocks_before, blocks_after, owner, count, true),
    ensures
        after.sound(blocks_after),
        forall|i: u64| #[trigger]
            after.tokens(blocks_after)->0.contains_key(i) ==> after.tokens(blocks_after)->0[i] == (
            if before.tokens(blocks_before)->0.contains_key(i) {
                before.tokens(blocks_before)->0[i]
            } else {
                owner
            }),
        forall|i: u64| #[trigger]
            before.tokens(blocks_before)->0.contains_key(i) ==> after.tokens(
                blocks_after,
            )->0.contains_key(i),
{
    let tokens = before.tokens(blocks_before)->0;
    lemma_given(tokens, tokens.dom().len() as int, count, owner);
}

/// Tokens that are given out one after the other have the numbers that follow those that there are. They
/// belong to the owner, the others to whom they did, and there are as many more. It fails just where
/// the numbers do not suffice, and then nothing changes.
pub proof fn a_run_of_tokens_is_given(
    s: &mut NFTState,
    bs: &mut Store,
    owner: ActorID,
    count: u64,
    r: Result<BatchMintReturn, StateError>,
)
    requires
        old(s).sound(old(bs)@),
        call_ensures(NFTState::batch_mint_tokens, (s, bs, owner, count), r),
    ensures
        r is Ok == (old(s).total_supply + count <= u64::MAX),
        r is Err ==> *final(s) == *old(s),
        r is Ok ==> {
            let before = nft_store::actors_at(old(bs)@, old(s).token_data@)->0;
            let after = nft_store::actors_at(final(bs)@, final(s).token_data@)->0;
            let first = old(s).next_token;
            &&& final(s).next_token == first + count
            &&& final(s).total_supply == old(s).total_supply + count
            &&& r->Ok_0.tokens@.len() == count
            &&& forall|i: int| 0 <= i < count ==> #[trigger] r->Ok_0.tokens@[i] == first + i
            &&& forall|id: u64| #[trigger]
                after.contains_key(id) <==> before.contains_key(id) || first <= id < first + count
            &&& forall|id: u64| #[trigger]
                after.contains_key(id) ==> after[id] == if first <= id {
                    owner
                } else {
                    before[id]
                }
        },
{
    let before = old(s).tokens(old(bs)@)->0;
    if r is Ok {
        lemma_given(before, before.dom().len() as int, count as nat, owner);
    }
}

/// One token is given out as a run of one.
pub proof fn a_token_is_given(
    s: &mut NFTState,
    bs: &mut Store,
    owner: ActorID,
    r: Result<TokenID, StateError>,
)
    requires
        old(s).sound(old(bs)@),
        call_ensures(NFTState::mint_token, (s, bs, owner), r),
    ensures
        r is Ok == (old(s).total_supply < u64::MAX),
        r is Err ==> *final(s) == *old(s),
        r is Ok ==> {
            let before = nft_store::actors_at(old(bs)@, old(s).token_data@)->0;
            let after = nft_store::actors_at(final(bs)@, final(s).token_data@)->0;
            &&& r->Ok_0 == old(s).next_token
            &&& final(s).next_token == old(s).next_token + 1
            &&& final(s).total_supply == old(s).total_supply + 1
            &&& !before.contains_key(r->Ok_0)
            &&& forall|id: u64| #[trigger]
                after.contains_key(id) <==> before.contains_key(id) || id == r->Ok_0
            &&& forall|id: u64| #[trigger]
                after.contains_key(id) ==> after[id] == if id == r->Ok_0 {
                    owner
                } else {
                    before[id]
                }
        },
{
    let before = old(s).tokens(old(bs)@)->0;
    if r is Ok {
        lemma_given(before, before.dom().len() as int, 1, owner);
    }
}

proof fn lemma_given(tokens: Actors, first: int, count: nat, owner: ActorID)
    requires
        gapless(tokens),
        first == tokens.dom().len(),
        first + count <= u64::MAX,
    ensures
        gapless(given(tokens, first, count, owner)),
        given(tokens, first, count, owner).dom().len() == first + count,
        forall|i: u64| #[trigger]
            given(tokens, first, count, owner).contains_key(i) ==> given(
                tokens,
                first,
                count,
                owner,
            )[i] == (if i < first {
                tokens[i]
            } else {
                owner
            }),
    decreases count,
{
    if count > 0 {
        lemma_given(tokens, first, (count - 1) as nat, owner);
        let earlier = given(tokens, first, (count - 1) as nat, owner);
        let id = (first + count - 1) as u64;
        assert(!earlier.contains_key(id));
        assert(given(tokens, first, count, owner).dom() =~= earlier.dom().insert(id));
    }
}

/// A set of tokens and the store that it is kept in
pub struct NFT<'st> {
    /// The blocks of the set
    pub bs: Store,
    /// The state that is inspected and changed
    pub state: &'st mut NFTSetState,
}

impl<'st> NFT<'st> {
    /// Wrap an existing state
    pub fn wrap(bs: Store, state: &'st mut NFTSetState) -> (r: Self)
        ensures
            r.bs == bs,
            *r.state == *old(state),
            *final(r.state) == *final(state),
    {
        NFT { bs, state }
    }

    /// Gives a new token to an owner, returning its number
    pub fn mint(&mut self, initial_owner: ActorID) -> (r: Result<TokenID, StateError>)
        requires
            nft_store::actors_ready(old(self).bs@, old(self).state.token_data@),
        ensures
            *final(final(self).state) == *final(old(self).state),
            store::kept(old(self).bs@, final(self).bs@),
            minted(
                *old(self).state,
                *final(self).state,
                old(self).bs@,
                final(self).bs@,
                initial_owner,
                1,
                r is Ok,
            ),
            old(self).state.tokens(old(self).bs@) is Some && r is Ok ==> r->Ok_0
                == old(self).state.tokens(old(self).bs@)->0.dom().len(),
    {
        self.state.mint_token(&mut self.bs, initial_owner)
    }
}

/// A token that is minted through a handle is given out as one is by the state.
pub proof fn a_minted_token_is_given<'st>(
    nft: &mut NFT<'st>,
    owner: ActorID,
    r: Result<TokenID, StateError>,
)
    requires
        old(nft).state.sound(old(nft).bs@),
        call_ensures(NFT::<'st>::mint, (nft, owner), r),
    ensures
        r is Ok == (old(nft).state.total_supply < u64::MAX),
        r is Err ==> *final(nft).state == *old(nft).state,
        r is Ok ==> {
            let before = nft_store::actors_at(old(nft).bs@, old(nft).state.token_data@)->0;
            let after = nft_store::actors_at(final(nft).bs@, final(nft).state.token_data@)->0;
            &&& r->Ok_0 == old(nft).state.next_token
            &&& final(nft).state.next_token == old(nft).state.next_token + 1
            &&& final(nft).state.total_supply == old(nft).state.total_supply + 1
            &&& after.contains_key(r->Ok_0) && after[r->Ok_0] == owner
            &&& forall|id: u64| #[trigger]
                before.contains_key(id) ==> after.contains_key(id) && after[id] == before[id]
        },
{
    let before = old(nft).state.tokens(old(nft).bs@)->0;
    if r is Ok {
        lemma_given(before, before.dom().len() as int, 1, owner);
    }
}

} // verus!
