//! Abstraction of the on-chain state related to NFT accounting
use cid::Cid as BlockCid;
use fvm_ipld_amt::Error as AmtError;
use fvm_ipld_bitfield::BitField;
use fvm_ipld_encoding::CborStore;
use fvm_ipld_hamt::Error as HamtError;
use vstd::prelude::*;
use vstd::string::*;

use crate::bits;
use crate::bits::{bits_are_empty, get_bit, listed_bits, no_bits, set_bit, OperatorSet};
use crate::bytes::{ActorID, Cid, RawBytes};
use crate::frc53_nft::collection;
use crate::frc53_nft::collection::{Collection, Holdings, NftFault};
use crate::frc53_nft::types::{
    ActorIDSet, Cursor, MintIntermediate, MintReturn, TokenSet, TransferIntermediate, TransferReturn,
};
use crate::fvm_actor_utils::receiver::ReceiverHookError;
use crate::keys;
use crate::keys::{actor_id_key, BytesKey};
use crate::nft_store;
use crate::nft_store::{Owners, Tokens};

pub use crate::nft_store::{OwnerData, TokenData, TokenID};
use crate::store;
use crate::store::{Blocks, Store};

verus! {

/// The width of the array of tokens.
pub const AMT_BIT_WIDTH: u32 = 5;

/// The width of the tree of owners.
pub const HAMT_BIT_WIDTH: u32 = 3;

/// Why an operation on the state fails.
#[derive(Debug)]
pub enum StateError {
    /// The array of tokens could not be read or written.
    IpldAmt(AmtError),
    /// The tree of owners could not be read or written.
    IpldHamt(HamtError),
    /// There is no such token.
    TokenNotFound(TokenID),
    /// The actor is not the owner of the token.
    NotOwner {
        /// The actor.
        actor: ActorID,
        /// The token.
        token_id: TokenID,
    },
    /// The actor is not authorized for the token.
    NotAuthorized {
        /// The actor.
        actor: ActorID,
        /// The token.
        token_id: TokenID,
    },
    /// The receiver hook failed.
    ReceiverHook(ReceiverHookError),
    /// The cursor belongs to another state.
    InvalidCursor,
    /// This error is returned for errors that should never happen.
    InvariantFailed(String),
}

impl View for StateError {
    type V = NftFault;

    open spec fn view(&self) -> NftFault {
        match *self {
            StateError::IpldAmt(_) => NftFault::Amt,
            StateError::IpldHamt(_) => NftFault::Hamt,
            StateError::TokenNotFound(id) => NftFault::TokenNotFound(id),
            StateError::NotOwner { actor, token_id } => NftFault::NotOwner { actor, token_id },
            StateError::NotAuthorized { actor, token_id } => NftFault::NotAuthorized {
                actor,
                token_id,
            },
            StateError::ReceiverHook(_) => NftFault::ReceiverHook,
            StateError::InvalidCursor => NftFault::InvalidCursor,
            StateError::InvariantFailed(_) => NftFault::Invariant,
        }
    }
}

/// What the two trees of a collection hold in these blocks. `None` where one is not complete.
pub open spec fn holdings_at(blocks: Blocks, token_data: Seq<u8>, owner_data: Seq<u8>) -> Option<
    Holdings,
> {
    match (
        nft_store::tokens_at(blocks, token_data),
        nft_store::owners_at(blocks, owner_data, HAMT_BIT_WIDTH),
    ) {
        (Some(tokens), Some(owners)) => Some(Holdings { tokens, owners }),
        _ => None,
    }
}

/// The message that an owner is missing.
pub(crate) fn owner_missing(token_id: TokenID) -> (r: StateError)
    ensures
        r@ == NftFault::Invariant,
{
    let message = "owner of token ".to_owned().concat(token_id.to_string().as_str());
    StateError::InvariantFailed(message.concat(" not found"))
}

/// Makes sure that there is an array of tokens under the root
pub(crate) fn load_tokens(bs: &Store, token_data: &Cid) -> (r: Result<(), StateError>)
    requires
        nft_store::tokens_ready(bs@, token_data@),
    ensures
        r is Ok == nft_store::tokens_at(bs@, token_data@) is Some,
        r is Err ==> r->Err_0@ == NftFault::Amt,
{
    match nft_store::tokens_load(bs, token_data) {
        Ok(()) => Ok(()),
        Err(e) => Err(StateError::IpldAmt(e)),
    }
}

/// The message that an operator cannot be stored
pub(crate) fn operator_out_of_range() -> (r: StateError)
    ensures
        r@ == NftFault::Invariant,
{
    StateError::InvariantFailed("operator out of range".to_owned())
}

/// Reads a token, which has to be there
pub fn read_token(bs: &Store, token_data: &Cid, token_id: TokenID) -> (r: Result<
    TokenData,
    StateError,
>)
    requires
        nft_store::tokens_at(bs@, token_data@) is Some,
    ensures
        match collection::looked_up(
            nft_store::tokens_at(bs@, token_data@)->0,
            token_id,
        ) {
            Ok(token) => r is Ok && r->Ok_0@ == token && nft_store::operators_fit(token.1),
            Err(fault) => r is Err && r->Err_0@ == fault,
        },
{
    match nft_store::tokens_get(bs, token_data, token_id) {
        Ok(Some(data)) => Ok(data),
        Ok(None) => Err(StateError::TokenNotFound(token_id)),
        Err(e) => Err(StateError::IpldAmt(e)),
    }
}

/// Writes an owner's entry, or takes it out where it holds nothing
pub fn store_owner(bs: &mut Store, owner_data: &Cid, owner: ActorID, data: &OwnerData) -> (r: Result<
    Cid,
    StateError,
>)
    ensures
        store::kept(old(bs)@, final(bs)@),
        r is Err ==> r->Err_0@ == NftFault::Hamt,
        nft_store::owners_at(old(bs)@, owner_data@, HAMT_BIT_WIDTH) is Some ==> {
            &&& r is Ok == (data@.0 == 0 && data@.1 == Set::<ActorID>::empty() || nft_store::operators_fit(
                data@.1,
            ))
            &&& r is Ok ==> nft_store::owners_at(final(bs)@, r->Ok_0@, HAMT_BIT_WIDTH) == Some(
                collection::with_owner(
                    nft_store::owners_at(old(bs)@, owner_data@, HAMT_BIT_WIDTH)->0,
                    keys::key_of(owner),
                    data@,
                ),
            )
        },
{
    let key = actor_id_key(owner);
    let stored = if data.balance == 0 && bits_are_empty(&data.operators) {
        nft_store::owners_delete(bs, owner_data, HAMT_BIT_WIDTH, &key)
    } else {
        nft_store::owners_set(bs, owner_data, HAMT_BIT_WIDTH, &key, data)
    };
    match stored {
        Ok(root) => Ok(root),
        Err(e) => Err(StateError::IpldHamt(e)),
    }
}

/// Takes tokens off an owner's balance; the new root and the new balance
pub fn debit_owner(bs: &mut Store, owner_data: &Cid, owner: ActorID, count: u64, missing: StateError) -> (r:
    Result<(Cid, u64), StateError>)
    requires
        missing@ == NftFault::Invariant,
    ensures
        store::kept(old(bs)@, final(bs)@),
        nft_store::owners_at(old(bs)@, owner_data@, HAMT_BIT_WIDTH) is Some ==> match collection::debited(
            nft_store::owners_at(old(bs)@, owner_data@, HAMT_BIT_WIDTH)->0,
            keys::key_of(owner),
            count as nat,
        ) {
            Ok(owners) => r is Ok && nft_store::owners_at(final(bs)@, r->Ok_0.0@, HAMT_BIT_WIDTH)
                == Some(owners) && r->Ok_0.1 == nft_store::owners_at(
                old(bs)@,
                owner_data@,
                HAMT_BIT_WIDTH,
            )->0[keys::key_of(owner)].0 - count,
            Err(fault) => r is Err && r->Err_0@ == fault,
        },
{
    let found = match nft_store::owners_get(bs, owner_data, HAMT_BIT_WIDTH, &actor_id_key(owner)) {
        Ok(found) => found,
        Err(e) => return Err(StateError::IpldHamt(e)),
    };
    let mut data = match found {
        Some(data) => data,
        None => return Err(missing),
    };
    if data.balance < count {
        return Err(missing);
    }
    data.balance = data.balance - count;
    match store_owner(bs, owner_data, owner, &data) {
        Ok(root) => Ok((root, data.balance)),
        Err(e) => Err(e),
    }
}

/// Adds tokens to an owner's balance
pub fn credit_owner(bs: &mut Store, owner_data: &Cid, owner: ActorID, count: u64) -> (r: Result<
    Cid,
    StateError,
>)
    ensures
        store::kept(old(bs)@, final(bs)@),
        nft_store::owners_at(old(bs)@, owner_data@, HAMT_BIT_WIDTH) is Some ==> match collection::credited(
            nft_store::owners_at(old(bs)@, owner_data@, HAMT_BIT_WIDTH)->0,
            keys::key_of(owner),
            count as nat,
        ) {
            Ok(owners) => r is Ok && nft_store::owners_at(final(bs)@, r->Ok_0@, HAMT_BIT_WIDTH)
                == Some(owners),
            Err(fault) => r is Err && r->Err_0@ == fault,
        },
        !old(bs)@.contains_key(owner_data@) ==> r is Err && r->Err_0@ == NftFault::Hamt,
{
    let key = actor_id_key(owner);
    let found = match nft_store::owners_get(bs, owner_data, HAMT_BIT_WIDTH, &key) {
        Ok(found) => found,
        Err(e) => return Err(StateError::IpldHamt(e)),
    };
    let mut data = match found {
        Some(data) => data,
        None => OwnerData { balance: 0, operators: no_bits() },
    };
    if data.balance > u64::MAX - count {
        return Err(StateError::InvariantFailed("too many tokens for one owner".to_owned()));
    }
    data.balance = data.balance + count;
    match nft_store::owners_set(bs, owner_data, HAMT_BIT_WIDTH, &key, &data) {
        Ok(root) => Ok(root),
        Err(e) => Err(StateError::IpldHamt(e)),
    }
}

/// Gives a token to a receiver; the new roots of tokens and owners
pub fn hand_on(bs: &mut Store, token_data: &Cid, owner_data: &Cid, token_id: TokenID, receiver: ActorID) -> (r:
    Result<(Cid, Cid), StateError>)
    requires
        nft_store::tokens_at(old(bs)@, token_data@) is Some,
    ensures
        store::kept(old(bs)@, final(bs)@),
        r is Ok ==> nft_store::tokens_at(final(bs)@, r->Ok_0.0@) is Some,
        holdings_at(old(bs)@, token_data@, owner_data@) is Some ==> match collection::handed_on(
            holdings_at(old(bs)@, token_data@, owner_data@)->0,
            token_id,
            receiver,
        ) {
            Ok(held) => r is Ok && holdings_at(final(bs)@, r->Ok_0.0@, r->Ok_0.1@) == Some(held),
            Err(fault) => r is Err && r->Err_0@ == fault,
        },
{
    let ghost blocks = bs@;
    let old_token = match read_token(bs, token_data, token_id) {
        Ok(token) => token,
        Err(e) => return Err(e),
    };
    let previous_owner = old_token.owner;
    let (owners, _) = match debit_owner(bs, owner_data, previous_owner, 1, owner_missing(token_id)) {
        Ok(done) => done,
        Err(e) => return Err(e),
    };
    let ghost blocks1 = bs@;
    let owners = match credit_owner(bs, &owners, receiver, 1) {
        Ok(root) => root,
        Err(e) => {
            proof {
                store::lemma_kept_trans(blocks, blocks1, bs@);
            }
            return Err(e);
        },
    };
    let ghost blocks2 = bs@;
    let new_token = TokenData {
        owner: receiver,
        operators: no_bits(),
        metadata: old_token.metadata,
    };
    let tokens = nft_store::tokens_set(bs, token_data, token_id, &new_token);
    proof {
        store::lemma_kept_trans(blocks, blocks1, blocks2);
        store::lemma_kept_trans(blocks, blocks2, bs@);
    }
    match tokens {
        Ok(tokens) => Ok((tokens, owners)),
        Err(e) => Err(StateError::IpldAmt(e)),
    }
}

/// Gives a token to a receiver, after a check let it pass; the new roots of tokens and owners
fn checked_hand_on<F: Fn(&TokenData, TokenID) -> Result<(), StateError>>(
    bs: &mut Store,
    token_data: &Cid,
    owner_data: &Cid,
    token_id: TokenID,
    receiver: ActorID,
    check: &F,
) -> (r: Result<(Cid, Cid), StateError>)
    requires
        nft_store::tokens_at(old(bs)@, token_data@) is Some,
        forall|data: TokenData, id: TokenID| check.requires((&data, id)),
    ensures
        store::kept(old(bs)@, final(bs)@),
        r is Ok ==> nft_store::tokens_at(final(bs)@, r->Ok_0.0@) is Some,
        holdings_at(old(bs)@, token_data@, owner_data@) is Some ==> {
            let held = holdings_at(old(bs)@, token_data@, owner_data@)->0;
            let wanted = collection::handed_on(held, token_id, receiver);
            match collection::looked_up(held.tokens, token_id) {
                Ok(_) => match r {
                    Ok((tokens, owners)) => lets_pass(*check, held.tokens, token_id) && wanted is Ok
                        && holdings_at(final(bs)@, tokens@, owners@) == Some(wanted->Ok_0),
                    Err(e) => stops(*check, held.tokens, token_id, e) || lets_pass(
                        *check,
                        held.tokens,
                        token_id,
                    ) && wanted == Err::<Holdings, NftFault>(e@),
                },
                Err(fault) => r is Err && r->Err_0@ == fault,
            }
        },
{
    // check the transfer against business rules
    match checked_token(bs, token_data, token_id, check) {
        Ok(_) => {},
        Err(e) => return Err(e),
    }
    // update the token_data to reflect the new owner and clear approved operators
    hand_on(bs, token_data, owner_data, token_id, receiver)
}

/// What giving the first `n` tokens of a list to a receiver has led to, each having passed a check.
#[verifier::opaque]
spec fn handed_on_so_far<F: Fn(&TokenData, TokenID) -> Result<(), StateError>>(
    held: Holdings,
    ids: Seq<TokenID>,
    n: nat,
    receiver: ActorID,
    check: F,
    now: Holdings,
) -> bool {
    &&& passed(held, ids, n, handing_on(receiver), check)
    &&& handing_on(receiver).done(held, ids, n) == Ok::<Holdings, NftFault>(now)
}

/// One more token that passes the check and can be given to the receiver, or is refused.
proof fn lemma_handed_on_next<F: Fn(&TokenData, TokenID) -> Result<(), StateError>>(
    held: Holdings,
    ids: Seq<TokenID>,
    n: nat,
    receiver: ActorID,
    check: F,
    now: Holdings,
)
    requires
        handed_on_so_far(held, ids, n, receiver, check, now),
        n < ids.len(),
    ensures
        lets_pass(check, now.tokens, ids[n as int]) ==> match collection::handed_on(
            now,
            ids[n as int],
            receiver,
        ) {
            Ok(after) => handed_on_so_far(held, ids, n + 1, receiver, check, after),
            Err(_) => true,
        },
        forall|e: StateError|
            #![trigger refused_at(held, ids, n, handing_on(receiver), check, e)]
            (match collection::looked_up(now.tokens, ids[n as int]) {
                Ok(_) => stops(check, now.tokens, ids[n as int], e) || lets_pass(
                    check,
                    now.tokens,
                    ids[n as int],
                ) && collection::handed_on(now, ids[n as int], receiver) == Err::<
                    Holdings,
                    NftFault,
                >(e@),
                Err(fault) => e@ == fault,
            }) ==> refused_at(held, ids, n, handing_on(receiver), check, e),
{
    reveal(handed_on_so_far);
    let work = handing_on(receiver);
    assert((work.tokens)(now) == now.tokens);
    assert((work.step)(now, ids[n as int]) == collection::handed_on(now, ids[n as int], receiver));
    if lets_pass(check, now.tokens, ids[n as int]) {
        match collection::handed_on(now, ids[n as int], receiver) {
            Ok(after) => lemma_passed_next(held, ids, n, work, check, after),
            Err(_) => {},
        }
    }
}

/// At the start nothing is handed on; at the end, all of the list.
proof fn lemma_handed_on_ends<F: Fn(&TokenData, TokenID) -> Result<(), StateError>>(
    held: Holdings,
    ids: Seq<TokenID>,
    n: nat,
    receiver: ActorID,
    check: F,
    now: Holdings,
)
    ensures
        n == 0 && now == held ==> handed_on_so_far(held, ids, n, receiver, check, now),
        handed_on_so_far(held, ids, n, receiver, check, now) ==> passed(
            held,
            ids,
            n,
            handing_on(receiver),
            check,
        ) && handing_on(receiver).done(held, ids, n) == Ok::<Holdings, NftFault>(now),
{
    reveal(handed_on_so_far);
}

/// Gives tokens to a receiver, each after a check let it pass; the new roots of tokens and owners
#[verifier::rlimit(30)]
fn hand_on_all<F: Fn(&TokenData, TokenID) -> Result<(), StateError>>(
    bs: &mut Store,
    token_data: &Cid,
    owner_data: &Cid,
    token_ids: &Vec<TokenID>,
    receiver: ActorID,
    check: &F,
) -> (r: Result<(Cid, Cid), StateError>)
    requires
        nft_store::tokens_at(old(bs)@, token_data@) is Some,
        forall|data: TokenData, id: TokenID| check.requires((&data, id)),
    ensures
        store::kept(old(bs)@, final(bs)@),
        holdings_at(old(bs)@, token_data@, owner_data@) is Some ==> {
            let held = holdings_at(old(bs)@, token_data@, owner_data@)->0;
            match r {
                Ok((tokens, owners)) => passed(
                    held,
                    token_ids@,
                    token_ids@.len(),
                    handing_on(receiver),
                    *check,
                ) && holdings_at(final(bs)@, tokens@, owners@) == Some(
                    handing_on(receiver).done(held, token_ids@, token_ids@.len())->Ok_0,
                ),
                Err(e) => exists|n: nat| #[trigger]
                    refused_at(held, token_ids@, n, handing_on(receiver), *check, e),
            }
        },
{
    let ghost blocks = bs@;
    let ghost whole = holdings_at(blocks, token_data@, owner_data@) is Some;
    let ghost held = holdings_at(blocks, token_data@, owner_data@)->0;
    let mut tokens = token_data.clone();
    let mut owners = owner_data.clone();
    let mut i: usize = 0;
    proof {
        lemma_handed_on_ends(held, token_ids@, 0, receiver, *check, held);
    }
    while i < token_ids.len()
        invariant
            nft_store::tokens_at(bs@, tokens@) is Some,
            i <= token_ids.len(),
            blocks == old(bs)@,
            whole == holdings_at(blocks, token_data@, owner_data@) is Some,
            held == holdings_at(blocks, token_data@, owner_data@)->0,
            forall|data: TokenData, id: TokenID| check.requires((&data, id)),
            store::kept(blocks, bs@),
            whole ==> holdings_at(bs@, tokens@, owners@) is Some && handed_on_so_far(
                held,
                token_ids@,
                i as nat,
                receiver,
                *check,
                holdings_at(bs@, tokens@, owners@)->0,
            ),
        decreases token_ids.len() - i,
    {
        let ghost before = bs@;
        let ghost now = holdings_at(bs@, tokens@, owners@)->0;
        let token_id = token_ids[i];
        let moved = checked_hand_on(bs, &tokens, &owners, token_id, receiver, check);
        proof {
            store::lemma_kept_trans(blocks, before, bs@);
            if whole {
                lemma_handed_on_next(held, token_ids@, i as nat, receiver, *check, now);
            }
        }
        match moved {
            Ok((new_tokens, new_owners)) => {
                tokens = new_tokens;
                owners = new_owners;
            },
            Err(e) => {
                assert(whole ==> refused_at(
                    held,
                    token_ids@,
                    i as nat,
                    handing_on(receiver),
                    *check,
                    e,
                ));
                return Err(e);
            },
        }
        i += 1;
    }
    proof {
        lemma_handed_on_ends(
            held,
            token_ids@,
            token_ids@.len(),
            receiver,
            *check,
            holdings_at(bs@, tokens@, owners@)->0,
        );
    }
    Ok((tokens, owners))
}

/// NFT state IPLD structure.
#[derive(Debug, PartialEq, Eq)]
pub struct NFTState {
    /// The array of tokens: ownership, operators, metadata etc. of each.
    pub token_data: Cid,
    /// The tree of owners, an index for faster lookup of data often queried by owner.
    pub owner_data: Cid,
    /// The next available token id for minting.
    pub next_token: TokenID,
    /// The number of minted tokens less the number of burned tokens.
    pub total_supply: u64,
}

/// A state as it is written to a block: root of the tokens, root of the owners, next number and
/// supply.
pub type NftRecord = (Seq<u8>, Seq<u8>, u64, u64);

/// The state that a block of CBOR holds, if it holds one.
pub uninterp spec fn nft_record(block: Seq<u8>) -> Option<NftRecord>;

/// The fields of a state as values.
pub open spec fn nft_fields(fields: (Cid, Cid, u64, u64)) -> NftRecord {
    (fields.0@, fields.1@, fields.2, fields.3)
}

/// `to_vec` of `fvm_ipld_encoding` on the fields of a state as a tuple. It claims that the encoding
/// succeeds, and that reading it gives the fields back.
#[verifier::external_body]
pub(crate) fn encode_nft_state(token_data: &Cid, owner_data: &Cid, next_token: u64, total_supply: u64) -> (r: Result<Vec<u8>, String>)
    ensures
        r is Ok,
        nft_record(r->Ok_0@) == Some((token_data@, owner_data@, next_token, total_supply)),
{
    let token_data = BlockCid::try_from(token_data.bytes.as_slice()).unwrap();
    let owner_data = BlockCid::try_from(owner_data.bytes.as_slice()).unwrap();
    let record = (token_data, owner_data, next_token, total_supply);
    fvm_ipld_encoding::to_vec(&record).map_err(|e| e.to_string())
}

/// `CborStore::get_cbor` of `fvm_ipld_encoding` for the fields of a state as a tuple, on a store in
/// memory. It claims that it fails where the identifier is not that of CBOR or the block holds no
/// state, and otherwise gives the fields in the block, if there is a block.
#[verifier::external_body]
pub(crate) fn get_nft_state(bs: &Store, cid: &Cid) -> (r: Result<Option<(Cid, Cid, u64, u64)>, String>)
    ensures
        r is Err == (!store::cbor_codec(cid@) || (bs@.contains_key(cid@) && nft_record(bs@[cid@]) is None)),
        r is Ok ==> r->Ok_0 is Some == bs@.contains_key(cid@),
        r is Ok && r->Ok_0 is Some ==> nft_record(bs@[cid@]) == Some(nft_fields(r->Ok_0->0)),
{
    let cid = BlockCid::try_from(cid.bytes.as_slice()).unwrap();
    let found = bs.inner.get_cbor::<(BlockCid, BlockCid, u64, u64)>(&cid);
    let found = found.map_err(|e| e.to_string())?;
    Ok(found.map(|(token_data, owner_data, next_token, total_supply)| {
        let token_data = Cid { bytes: token_data.to_bytes() };
        (token_data, Cid { bytes: owner_data.to_bytes() }, next_token, total_supply)
    }))
}

impl Clone for NFTState {
    fn clone(&self) -> (r: Self)
        ensures
            r.record() == self.record(),
    {
        NFTState {
            token_data: self.token_data.clone(),
            owner_data: self.owner_data.clone(),
            next_token: self.next_token,
            total_supply: self.total_supply,
        }
    }
}

/// Whether a check lets a token pass.
pub open spec fn lets_pass<F: Fn(&TokenData, TokenID) -> Result<(), StateError>>(
    check: F,
    tokens: Tokens,
    id: TokenID,
) -> bool {
    exists|data: TokenData| #[trigger]
        check.ensures((&data, id), Ok(())) && data@ == tokens[id]
}

/// Whether a check stops a token, for the given reason.
pub open spec fn stops<F: Fn(&TokenData, TokenID) -> Result<(), StateError>>(
    check: F,
    tokens: Tokens,
    id: TokenID,
    e: StateError,
) -> bool {
    exists|data: TokenData| #[trigger]
        check.ensures((&data, id), Err(e)) && data@ == tokens[id]
}

/// Reads a token, which has to be there, and holds it against a check
fn checked_token<F: Fn(&TokenData, TokenID) -> Result<(), StateError>>(
    bs: &Store,
    token_data: &Cid,
    token_id: TokenID,
    check: &F,
) -> (r: Result<TokenData, StateError>)
    requires
        forall|data: TokenData, id: TokenID| check.requires((&data, id)),
        nft_store::tokens_at(bs@, token_data@) is Some,
    ensures
        match collection::looked_up(
            nft_store::tokens_at(bs@, token_data@)->0,
            token_id,
        ) {
            Ok(token) => match r {
                Ok(data) => data@ == token && lets_pass(
                    *check,
                    nft_store::tokens_at(bs@, token_data@)->0,
                    token_id,
                ),
                Err(e) => stops(*check, nft_store::tokens_at(bs@, token_data@)->0, token_id, e),
            },
            Err(fault) => r is Err && r->Err_0@ == fault,
        },
{
    let data = match read_token(bs, token_data, token_id) {
        Ok(data) => data,
        Err(e) => return Err(e),
    };
    let checked = check(&data, token_id);
    match checked {
        Ok(done) => {
            assert(done == ());
            assert(check.ensures((&data, token_id), Ok(())));
            Ok(data)
        },
        Err(e) => {
            assert(check.ensures((&data, token_id), Err(e)));
            Err(e)
        },
    }
}

/// One more token that passes the check and can be dealt with.
proof fn lemma_passed_next<X, F: Fn(&TokenData, TokenID) -> Result<(), StateError>>(
    start: X,
    ids: Seq<TokenID>,
    n: nat,
    work: Work<X>,
    check: F,
    after: X,
)
    requires
        passed(start, ids, n, work, check),
        lets_pass(check, (work.tokens)(work.done(start, ids, n)->Ok_0), ids[n as int]),
        (work.step)(work.done(start, ids, n)->Ok_0, ids[n as int]) == Ok::<X, NftFault>(after),
    ensures
        passed(start, ids, n + 1, work, check),
        work.done(start, ids, n + 1) == Ok::<X, NftFault>(after),
{
    reveal_with_fuel(collection::in_turn, 2);
}

/// What is done for each token of a list, and the tokens as they stand in between.
#[verifier::reject_recursive_types(X)]
pub struct Work<X> {
    /// What is done for one token.
    pub step: spec_fn(X, TokenID) -> Result<X, NftFault>,
    /// The tokens at that time.
    pub tokens: spec_fn(X) -> Tokens,
}

impl<X> Work<X> {
    /// What the first `n` tokens of a list lead to.
    pub open spec fn done(self, start: X, ids: Seq<TokenID>, n: nat) -> Result<X, NftFault> {
        collection::in_turn(start, ids, n, self.step)
    }
}

/// Authorising an operator for a token.
pub open spec fn approving(operator: ActorID) -> Work<Tokens> {
    Work {
        step: |tokens: Tokens, id: TokenID|
            match collection::looked_up(tokens, id) {
                Ok(token) => if operator == u64::MAX {
                    Err(NftFault::Invariant)
                } else if nft_store::operators_fit(token.1.insert(operator)) {
                    Ok(collection::with_operators(tokens, id, token.1.insert(operator)))
                } else {
                    Err(NftFault::Amt)
                },
                Err(fault) => Err(fault),
            },
        tokens: |tokens: Tokens| tokens,
    }
}

/// Taking an operator's authorisation for a token back.
pub open spec fn revoking(operator: ActorID) -> Work<Tokens> {
    Work {
        step: |tokens: Tokens, id: TokenID|
            match collection::looked_up(tokens, id) {
                Ok(token) => if nft_store::operators_fit(token.1.remove(operator)) {
                    Ok(collection::with_operators(tokens, id, token.1.remove(operator)))
                } else {
                    Err(NftFault::Amt)
                },
                Err(fault) => Err(fault),
            },
        tokens: |tokens: Tokens| tokens,
    }
}

/// Taking a token out.
pub open spec fn burning() -> Work<Tokens> {
    Work {
        step: |tokens: Tokens, id: TokenID|
            match collection::looked_up(tokens, id) {
                Ok(_) => Ok(tokens.remove(id)),
                Err(fault) => Err(fault),
            },
        tokens: |tokens: Tokens| tokens,
    }
}

/// Giving a token to a receiver.
pub open spec fn handing_on(receiver: ActorID) -> Work<Holdings> {
    Work {
        step: |held: Holdings, id: TokenID| collection::handed_on(held, id, receiver),
        tokens: |held: Holdings| held.tokens,
    }
}

/// Whether loading from under an identifier gives what its block holds.
pub open spec fn loads(blocks: Blocks, cid: Seq<u8>, r: Result<NFTState, StateError>) -> bool {
    &&& r is Ok == (store::cbor_codec(cid) && blocks.contains_key(cid) && nft_record(
        blocks[cid],
    ) is Some)
    &&& r is Ok ==> nft_record(blocks[cid]) == Some(r->Ok_0.record())
    &&& r is Err ==> r->Err_0@ == NftFault::Invariant
}

/// Whether the block under an identifier holds a state.
pub open spec fn saved_at(blocks: Blocks, cid: Seq<u8>, state: NFTState) -> bool {
    &&& store::cbor_codec(cid)
    &&& blocks.contains_key(cid)
    &&& nft_record(blocks[cid]) == Some(state.record())
}

/// A state that was saved can be loaded again, whatever was stored since, and is the same: its
/// numbers and roots are, and its trees hold what they held.
pub proof fn loading_gives_back_what_was_saved(
    saved: NFTState,
    cid: Seq<u8>,
    blocks: Blocks,
    later: Blocks,
    r: Result<NFTState, StateError>,
)
    requires
        saved_at(blocks, cid, saved),
        store::kept(blocks, later),
        loads(later, cid, r),
    ensures
        r is Ok,
        r->Ok_0.record() == saved.record(),
        saved.collection(blocks) is Some ==> r->Ok_0.collection(later) == saved.collection(blocks),
{
    assert(blocks.dom().contains(cid));
    if saved.collection(blocks) is Some {
        lemma_holdings_kept(saved, blocks, later);
    }
}

impl NFTState {
    /// The state as it is written to a block.
    pub open spec fn record(self) -> NftRecord {
        (self.token_data@, self.owner_data@, self.next_token, self.total_supply)
    }

    /// The collection that the state keeps in these blocks. `None` where the trees are not
    /// complete.
    pub open spec fn collection(self, blocks: Blocks) -> Option<Collection> {
        match holdings_at(blocks, self.token_data@, self.owner_data@) {
            Some(held) => Some(
                Collection { held, next: self.next_token, supply: self.total_supply },
            ),
            None => None,
        }
    }

    /// Whether the array of tokens is complete, or its root not there at all. A block under the
    /// root that is not that of an array cannot be dealt with.
    pub open spec fn ready(self, blocks: Blocks) -> bool {
        nft_store::tokens_ready(blocks, self.token_data@)
    }

    /// Create a new NFT state-tree, without committing it (the root Cid) to a blockstore.
    pub fn new(bs: &mut Store) -> (r: Result<Self, StateError>)
        ensures
            store::kept(old(bs)@, final(bs)@),
            r is Ok,
            r->Ok_0.collection(final(bs)@) == Some(Collection::empty()),
    {
        let ghost blocks = bs@;
        // The store is still needed to create valid roots for the trees
        let token_data = match nft_store::empty_array(bs, AMT_BIT_WIDTH) {
            Ok(root) => root,
            Err(e) => return Err(StateError::IpldAmt(e)),
        };
        let ghost between = bs@;
        let owner_data = match store::empty_tree(bs, HAMT_BIT_WIDTH) {
            Ok(root) => root,
            Err(e) => return Err(StateError::IpldHamt(e)),
        };
        proof {
            store::lemma_kept_trans(blocks, between, bs@);
            assert(nft_store::tokens_at(between, token_data@) is Some);
        }
        Ok(NFTState { token_data, owner_data, next_token: 0, total_supply: 0 })
    }

    /// Loads the state under an identifier
    pub fn load(bs: &Store, root: &Cid) -> (r: Result<Self, StateError>)
        ensures
            loads(bs@, root@, r),
    {
        match get_nft_state(bs, root) {
            Ok(Some((token_data, owner_data, next_token, total_supply))) => Ok(
                NFTState { token_data, owner_data, next_token, total_supply },
            ),
            Ok(None) => Err(StateError::InvariantFailed("State root not found".to_owned())),
            Err(e) => Err(StateError::InvariantFailed(e)),
        }
    }

    /// Saves the state, and gives the identifier from which it can be loaded again
    pub fn save(&self, bs: &mut Store) -> (r: Result<Cid, StateError>)
        ensures
            store::kept(old(bs)@, final(bs)@),
            r is Ok,
            saved_at(final(bs)@, r->Ok_0@, *self),
    {
        match encode_nft_state(
            &self.token_data,
            &self.owner_data,
            self.next_token,
            self.total_supply,
        ) {
            Ok(serialized) => Ok(bs.put(serialized)),
            Err(err) => Err(StateError::InvariantFailed(err)),
        }
    }

    /// Mint new tokens to the specified address, one for each metadata. Without metadata nothing
    /// changes.
    pub fn mint_tokens(&mut self, bs: &mut Store, initial_owner: ActorID, metadatas: Vec<String>) -> (r:
        Result<MintIntermediate, StateError>)
        requires
            old(self).ready(old(bs)@),
            old(self).next_token + metadatas.len() <= u64::MAX,
            old(self).total_supply + metadatas.len() <= u64::MAX,
        ensures
            store::kept(old(bs)@, final(bs)@),
            r is Err ==> *final(self) == *old(self),
            old(self).collection(old(bs)@) is Some ==> match collection::issued(
                old(self).collection(old(bs)@)->0,
                initial_owner,
                texts(metadatas@),
            ) {
                Ok(whole) => r is Ok && final(self).collection(final(bs)@) == Some(whole),
                Err(fault) => r is Err && r->Err_0@ == fault,
            },
            metadatas@.len() == 0 ==> *final(self) == *old(self),
            nft_store::tokens_at(old(bs)@, old(self).token_data@) is None ==> r is Err
                && r->Err_0@ == NftFault::Amt,
            nft_store::tokens_at(old(bs)@, old(self).token_data@) is Some
                && !old(bs)@.contains_key(old(self).owner_data@) ==> r is Err && r->Err_0@
                == NftFault::Hamt,
            r is Ok ==> minted(r->Ok_0, initial_owner, old(self).next_token, metadatas@.len()),
            r is Ok ==> final(self).next_token == old(self).next_token + metadatas@.len(),
    {
        match load_tokens(bs, &self.token_data) {
            Ok(()) => {},
            Err(e) => return Err(e),
        }
        // without metadata there is nothing to mint, and no entry for an owner of nothing
        if metadatas.len() == 0 {
            match self.get_balance(bs, initial_owner) {
                Ok(_) => {},
                Err(e) => return Err(e),
            }
            let token_ids: Vec<TokenID> = Vec::new();
            assert(token_ids@ =~= Seq::new(0, |j: int| (self.next_token + j) as u64));
            return Ok(
                MintIntermediate {
                    to: initial_owner,
                    token_ids,
                    recipient_data: RawBytes::default(),
                },
            );
        }
        let ghost blocks = bs@;
        let ghost whole = self.collection(blocks) is Some;
        let ghost tokens = nft_store::tokens_at(blocks, self.token_data@)->0;
        let first_token_id = self.next_token;
        let num_to_mint = metadatas.len() as u64;
        // update owner data map
        let owner_data = match credit_owner(bs, &self.owner_data, initial_owner, num_to_mint) {
            Ok(root) => root,
            Err(e) => return Err(e),
        };
        let ghost blocks1 = bs@;
        // update token data array
        let mut token_data = self.token_data.clone();
        let mut token_ids: Vec<TokenID> = Vec::new();
        let mut i: usize = 0;
        proof {
            assert(texts(metadatas@).take(0) =~= Seq::empty());
            assert(whole ==> nft_store::tokens_at(blocks1, token_data@) == Some(tokens));
        }
        while i < metadatas.len()
            invariant
                nft_store::tokens_at(bs@, token_data@) is Some,
                i <= metadatas.len(),
                first_token_id + metadatas.len() <= u64::MAX,
                first_token_id == old(self).next_token,
                *self == *old(self),
                blocks == old(bs)@,
                whole == old(self).collection(blocks) is Some,
                store::kept(blocks, blocks1),
                store::kept(blocks1, bs@),
                token_ids.len() == i,
                forall|j: int| 0 <= j < i ==> token_ids[j] == first_token_id + j,
                whole ==> nft_store::tokens_at(bs@, token_data@) == Some(
                    collection::with_minted(
                        tokens,
                        first_token_id,
                        initial_owner,
                        texts(metadatas@).take(i as int),
                    ),
                ),
            decreases metadatas.len() - i,
        {
            let ghost before = bs@;
            let token_id: u64 = first_token_id + i as u64;
            let data = TokenData {
                owner: initial_owner,
                operators: no_bits(),
                metadata: metadatas[i].clone(),
            };
            let stored = nft_store::tokens_set(bs, &token_data, token_id, &data);
            proof {
                store::lemma_kept_trans(blocks1, before, bs@);
                let more = texts(metadatas@).take(i as int + 1);
                assert(more.drop_last() =~= texts(metadatas@).take(i as int));
                assert(more.last() == metadatas@[i as int]@);
            }
            match stored {
                Ok(root) => {
                    token_data = root;
                },
                Err(e) => {
                    proof {
                        store::lemma_kept_trans(blocks, blocks1, bs@);
                    }
                    return Err(StateError::IpldAmt(e));
                },
            }
            token_ids.push(token_id);
            i += 1;
        }
        proof {
            store::lemma_kept_trans(blocks, blocks1, bs@);
            assert(texts(metadatas@).take(metadatas.len() as int) =~= texts(metadatas@));
            assert(whole ==> nft_store::owners_at(blocks1, owner_data@, HAMT_BIT_WIDTH) is Some);
            assert(token_ids@ =~= Seq::new(
                metadatas@.len(),
                |j: int| (first_token_id + j) as u64,
            ));
        }
        // update global trackers
        self.next_token = first_token_id + num_to_mint;
        self.total_supply = self.total_supply + num_to_mint;
        self.token_data = token_data;
        self.owner_data = owner_data;
        // params for constructing our return value
        Ok(MintIntermediate { to: initial_owner, token_ids, recipient_data: RawBytes::default() })
    }

    /// Get the number of tokens owned by a particular address.
    pub fn get_balance(&self, bs: &Store, owner: ActorID) -> (r: Result<u64, StateError>)
        ensures
            self.collection(bs@) is Some ==> r is Ok && r->Ok_0 == collection::owner_info(
                self.collection(bs@)->0.held.owners,
                keys::key_of(owner),
            ).0,
            !bs@.contains_key(self.owner_data@) ==> r is Err,
            r is Err ==> r->Err_0@ == NftFault::Hamt,
    {
        match nft_store::owners_get(bs, &self.owner_data, HAMT_BIT_WIDTH, &actor_id_key(owner)) {
            Ok(Some(data)) => Ok(data.balance),
            Ok(None) => Ok(0),
            Err(e) => Err(StateError::IpldHamt(e)),
        }
    }

    /// Approves an operator to transfer a set of specified tokens.
    ///
    /// The caller should own the tokens or an account-level operator on the owner of the tokens.
    #[verifier::rlimit(30)]
    pub fn approve_for_tokens<F: Fn(&TokenData, TokenID) -> Result<(), StateError>>(
        &mut self,
        bs: &mut Store,
        operator: ActorID,
        token_ids: &Vec<TokenID>,
        approve_predicate: F,
    ) -> (r: Result<(), StateError>)
        requires
            old(self).ready(old(bs)@),
            forall|data: TokenData, id: TokenID| approve_predicate.requires((&data, id)),
        ensures
            store::kept(old(bs)@, final(bs)@),
            r is Err ==> *final(self) == *old(self),
            final(self).owner_data == old(self).owner_data,
            final(self).next_token == old(self).next_token,
            final(self).total_supply == old(self).total_supply,
            nft_store::tokens_at(old(bs)@, old(self).token_data@) is Some ==> walked(
                nft_store::tokens_at(old(bs)@, old(self).token_data@)->0,
                nft_store::tokens_at(final(bs)@, final(self).token_data@),
                token_ids@,
                approving(operator),
                approve_predicate,
                refusal(r),
            ),
    {
        match load_tokens(bs, &self.token_data) {
            Ok(()) => {},
            Err(e) => return Err(e),
        }
        let ghost blocks = bs@;
        let ghost whole = nft_store::tokens_at(blocks, self.token_data@) is Some;
        let ghost tokens = nft_store::tokens_at(blocks, self.token_data@)->0;
        let ghost work = approving(operator);
        let mut token_data = self.token_data.clone();
        let mut i: usize = 0;
        while i < token_ids.len()
            invariant
                nft_store::tokens_at(bs@, token_data@) is Some,
                i <= token_ids.len(),
                *self == *old(self),
                blocks == old(bs)@,
                work == approving(operator),
                whole == nft_store::tokens_at(blocks, self.token_data@) is Some,
                tokens == nft_store::tokens_at(blocks, self.token_data@)->0,
                forall|data: TokenData, id: TokenID| approve_predicate.requires((&data, id)),
                store::kept(blocks, bs@),
                whole ==> passed(tokens, token_ids@, i as nat, work, approve_predicate),
                whole ==> nft_store::tokens_at(bs@, token_data@) == Some(
                    work.done(tokens, token_ids@, i as nat)->Ok_0,
                ),
            decreases token_ids.len() - i,
        {
            let ghost before = bs@;
            let ghost now = work.done(tokens, token_ids@, i as nat)->Ok_0;
            let token_id = token_ids[i];
            let mut data = match checked_token(bs, &token_data, token_id, &approve_predicate) {
                Ok(data) => data,
                Err(e) => {
                    assert(whole ==> refused_at(tokens, token_ids@, i as nat, work, approve_predicate, e));
                    return Err(e);
                },
            };
            if operator == u64::MAX {
                let e = operator_out_of_range();
                assert(whole ==> (work.step)(now, token_id) == Err::<Tokens, NftFault>(e@));
                assert(whole ==> refused_at(tokens, token_ids@, i as nat, work, approve_predicate, e));
                return Err(e);
            }
            data.operators.add_operator(operator);
            let stored = nft_store::tokens_set(bs, &token_data, token_id, &data);
            proof {
                store::lemma_kept_trans(blocks, before, bs@);
            }
            match stored {
                Ok(root) => {
                    token_data = root;
                    proof {
                        if whole {
                            let after = nft_store::tokens_at(bs@, token_data@)->0;
                            assert((work.step)(now, token_id) == Ok::<Tokens, NftFault>(after));
                            lemma_passed_next(tokens, token_ids@, i as nat, work, approve_predicate, after);
                        }
                    }
                },
                Err(e) => {
                    let e = StateError::IpldAmt(e);
                    assert(whole ==> (work.step)(now, token_id) == Err::<Tokens, NftFault>(e@));
                    assert(whole ==> refused_at(tokens, token_ids@, i as nat, work, approve_predicate, e));
                    return Err(e);
                },
            }
            i += 1;
        }
        self.token_data = token_data;
        Ok(())
    }

    /// Revokes an operator's permission to transfer the specified tokens.
    ///
    /// The caller should own the tokens or be an account-level operator on the owner of the tokens.
    #[verifier::rlimit(30)]
    pub fn revoke_for_tokens<F: Fn(&TokenData, TokenID) -> Result<(), StateError>>(
        &mut self,
        bs: &mut Store,
        operator: ActorID,
        token_ids: &Vec<TokenID>,
        revoke_predicate: F,
    ) -> (r: Result<(), StateError>)
        requires
            old(self).ready(old(bs)@),
            forall|data: TokenData, id: TokenID| revoke_predicate.requires((&data, id)),
        ensures
            store::kept(old(bs)@, final(bs)@),
            r is Err ==> *final(self) == *old(self),
            final(self).owner_data == old(self).owner_data,
            final(self).next_token == old(self).next_token,
            final(self).total_supply == old(self).total_supply,
            nft_store::tokens_at(old(bs)@, old(self).token_data@) is Some ==> walked(
                nft_store::tokens_at(old(bs)@, old(self).token_data@)->0,
                nft_store::tokens_at(final(bs)@, final(self).token_data@),
                token_ids@,
                revoking(operator),
                revoke_predicate,
                refusal(r),
            ),
    {
        match load_tokens(bs, &self.token_data) {
            Ok(()) => {},
            Err(e) => return Err(e),
        }
        let ghost blocks = bs@;
        let ghost whole = nft_store::tokens_at(blocks, self.token_data@) is Some;
        let ghost tokens = nft_store::tokens_at(blocks, self.token_data@)->0;
        let ghost work = revoking(operator);
        let mut token_data = self.token_data.clone();
        let mut i: usize = 0;
        while i < token_ids.len()
            invariant
                nft_store::tokens_at(bs@, token_data@) is Some,
                i <= token_ids.len(),
                *self == *old(self),
                blocks == old(bs)@,
                work == revoking(operator),
                whole == nft_store::tokens_at(blocks, self.token_data@) is Some,
                tokens == nft_store::tokens_at(blocks, self.token_data@)->0,
                forall|data: TokenData, id: TokenID| revoke_predicate.requires((&data, id)),
                store::kept(blocks, bs@),
                whole ==> passed(tokens, token_ids@, i as nat, work, revoke_predicate),
                whole ==> nft_store::tokens_at(bs@, token_data@) == Some(
                    work.done(tokens, token_ids@, i as nat)->Ok_0,
                ),
            decreases token_ids.len() - i,
        {
            let ghost before = bs@;
            let ghost now = work.done(tokens, token_ids@, i as nat)->Ok_0;
            let token_id = token_ids[i];
            let mut data = match checked_token(bs, &token_data, token_id, &revoke_predicate) {
                Ok(data) => data,
                Err(e) => {
                    assert(whole ==> refused_at(tokens, token_ids@, i as nat, work, revoke_predicate, e));
                    return Err(e);
                },
            };
            data.operators.remove_operator(&operator);
            let stored = nft_store::tokens_set(bs, &token_data, token_id, &data);
            proof {
                store::lemma_kept_trans(blocks, before, bs@);
            }
            match stored {
                Ok(root) => {
                    token_data = root;
                    proof {
                        if whole {
                            let after = nft_store::tokens_at(bs@, token_data@)->0;
                            assert((work.step)(now, token_id) == Ok::<Tokens, NftFault>(after));
                            lemma_passed_next(tokens, token_ids@, i as nat, work, revoke_predicate, after);
                        }
                    }
                },
                Err(e) => {
                    let e = StateError::IpldAmt(e);
                    assert(whole ==> (work.step)(now, token_id) == Err::<Tokens, NftFault>(e@));
                    assert(whole ==> refused_at(tokens, token_ids@, i as nat, work, revoke_predicate, e));
                    return Err(e);
                },
            }
            i += 1;
        }
        self.token_data = token_data;
        Ok(())
    }

    /// Approves an operator to transfer tokens on behalf of the owner.
    ///
    /// The operator becomes authorized at account level, meaning all tokens owned by the account
    /// can be transferred, approved or burned by the operator, including future tokens owned by the
    /// account.
    ///
    /// The caller should be the owning account.
    pub fn approve_for_owner(&mut self, bs: &mut Store, owner: ActorID, operator: ActorID) -> (r:
        Result<(), StateError>)
        ensures
            store::kept(old(bs)@, final(bs)@),
            r is Err ==> *final(self) == *old(self),
            r is Err ==> r->Err_0@ == NftFault::Hamt || (operator == u64::MAX && r->Err_0@
                == NftFault::Invariant),
            final(self).token_data == old(self).token_data,
            final(self).next_token == old(self).next_token,
            final(self).total_supply == old(self).total_supply,
            old(self).owners_in(old(bs)@) is Some ==> {
                let owners = old(self).owners_in(old(bs)@)->0;
                let info = collection::owner_info(owners, keys::key_of(owner));
                let operators = info.1.insert(operator);
                &&& r is Ok == (operator < u64::MAX && nft_store::operators_fit(operators))
                &&& r is Err ==> r->Err_0@ == if operator == u64::MAX {
                    NftFault::Invariant
                } else {
                    NftFault::Hamt
                }
                &&& r is Ok ==> final(self).owners_in(final(bs)@) == Some(
                    owners.insert(keys::key_of(owner), (info.0, operators)),
                )
            },
    {
        let key = actor_id_key(owner);
        let found = match nft_store::owners_get(bs, &self.owner_data, HAMT_BIT_WIDTH, &key) {
            Ok(found) => found,
            Err(e) => return Err(StateError::IpldHamt(e)),
        };
        let mut data = match found {
            Some(data) => data,
            None => OwnerData { balance: 0, operators: no_bits() },
        };
        if operator == u64::MAX {
            return Err(operator_out_of_range());
        }
        data.operators.add_operator(operator);
        match nft_store::owners_set(bs, &self.owner_data, HAMT_BIT_WIDTH, &key, &data) {
            Ok(root) => {
                self.owner_data = root;
                Ok(())
            },
            Err(e) => Err(StateError::IpldHamt(e)),
        }
    }

    /// Revokes an operator's authorization to transfer tokens on behalf of the owner account.
    ///
    /// The caller should be the owner of the account.
    pub fn revoke_for_all(&mut self, bs: &mut Store, owner: ActorID, operator: ActorID) -> (r: Result<
        (),
        StateError,
    >)
        ensures
            store::kept(old(bs)@, final(bs)@),
            r is Err ==> *final(self) == *old(self) && r->Err_0@ == NftFault::Hamt,
            final(self).token_data == old(self).token_data,
            final(self).next_token == old(self).next_token,
            final(self).total_supply == old(self).total_supply,
            old(self).owners_in(old(bs)@) is Some ==> {
                let owners = old(self).owners_in(old(bs)@)->0;
                let key = keys::key_of(owner);
                let operators = owners[key].1.remove(operator);
                if owners.contains_key(key) {
                    &&& r is Ok == (owners[key].0 == 0 && operators == Set::<ActorID>::empty()
                        || nft_store::operators_fit(operators))
                    &&& r is Ok ==> final(self).owners_in(final(bs)@) == Some(
                        collection::with_owner(owners, key, (owners[key].0, operators)),
                    )
                } else {
                    r is Ok && *final(self) == *old(self)
                }
            },
    {
        let key = actor_id_key(owner);
        let found = match nft_store::owners_get(bs, &self.owner_data, HAMT_BIT_WIDTH, &key) {
            Ok(found) => found,
            Err(e) => return Err(StateError::IpldHamt(e)),
        };
        let mut data = match found {
            Some(data) => data,
            None => return Ok(()),
        };
        data.operators.remove_operator(&operator);
        match store_owner(bs, &self.owner_data, owner, &data) {
            Ok(root) => {
                self.owner_data = root;
                Ok(())
            },
            Err(e) => Err(e),
        }
    }

    /// The owners that the state keeps in these blocks.
    pub open spec fn owners_in(self, blocks: Blocks) -> Option<Owners> {
        nft_store::owners_at(blocks, self.owner_data@, HAMT_BIT_WIDTH)
    }

    /// Burns a set of tokens, removing them from circulation and deleting associated metadata.
    ///
    /// If any of the token_ids cannot be burned (e.g. non-existent, already burned), the entire
    /// transaction should fail atomically.
    ///
    /// The tokens must all be owned by the same owner.
    ///
    /// Returns the new balance of the owner if all tokens were burned successfully.
    #[verifier::rlimit(30)]
    pub fn burn_tokens<F: Fn(&TokenData, TokenID) -> Result<(), StateError>>(
        &mut self,
        bs: &mut Store,
        owner: ActorID,
        token_ids: &Vec<TokenID>,
        burn_predicate: F,
    ) -> (r: Result<u64, StateError>)
        requires
            old(self).ready(old(bs)@),
            forall|data: TokenData, id: TokenID| burn_predicate.requires((&data, id)),
        ensures
            store::kept(old(bs)@, final(bs)@),
            r is Err ==> *final(self) == *old(self),
            old(self).collection(old(bs)@) is Some ==> {
                let c = old(self).collection(old(bs)@)->0;
                let key = keys::key_of(owner);
                let owners = collection::debited(c.held.owners, key, token_ids@.len());
                match r {
                    Ok(balance) => {
                        &&& passed(
                            c.held.tokens,
                            token_ids@,
                            token_ids@.len(),
                            burning(),
                            burn_predicate,
                        )
                        &&& owners is Ok
                        &&& token_ids@.len() <= c.supply
                        &&& balance == c.held.owners[key].0 - token_ids@.len()
                        &&& final(self).collection(final(bs)@) == Some(
                            Collection {
                                held: Holdings {
                                    tokens: burning().done(
                                        c.held.tokens,
                                        token_ids@,
                                        token_ids@.len(),
                                    )->Ok_0,
                                    owners: owners->Ok_0,
                                },
                                next: c.next,
                                supply: (c.supply - token_ids@.len()) as u64,
                            },
                        )
                    },
                    Err(e) => {
                        ||| exists|n: nat| #[trigger]
                            refused_at(
                                c.held.tokens,
                                token_ids@,
                                n,
                                burning(),
                                burn_predicate,
                                e,
                            )
                        ||| passed(
                            c.held.tokens,
                            token_ids@,
                            token_ids@.len(),
                            burning(),
                            burn_predicate,
                        ) && e@ == NftFault::Invariant && (owners is Err || token_ids@.len()
                            > c.supply)
                    },
                }
            },
            final(self).next_token == old(self).next_token,
    {
        match load_tokens(bs, &self.token_data) {
            Ok(()) => {},
            Err(e) => return Err(e),
        }
        let ghost blocks = bs@;
        let ghost whole = self.collection(blocks) is Some;
        let ghost tokens = nft_store::tokens_at(blocks, self.token_data@)->0;
        let ghost work = burning();
        let mut token_data = self.token_data.clone();
        let mut i: usize = 0;
        while i < token_ids.len()
            invariant
                nft_store::tokens_at(bs@, token_data@) is Some,
                i <= token_ids.len(),
                *self == *old(self),
                blocks == old(bs)@,
                work == burning(),
                whole == self.collection(blocks) is Some,
                tokens == nft_store::tokens_at(blocks, self.token_data@)->0,
                forall|data: TokenData, id: TokenID| burn_predicate.requires((&data, id)),
                store::kept(blocks, bs@),
                whole ==> passed(tokens, token_ids@, i as nat, work, burn_predicate),
                whole ==> nft_store::tokens_at(bs@, token_data@) == Some(
                    work.done(tokens, token_ids@, i as nat)->Ok_0,
                ),
            decreases token_ids.len() - i,
        {
            let ghost before = bs@;
            let ghost now = work.done(tokens, token_ids@, i as nat)->Ok_0;
            let token_id = token_ids[i];
            match checked_token(bs, &token_data, token_id, &burn_predicate) {
                Ok(_) => {},
                Err(e) => {
                    assert(whole ==> refused_at(
                        tokens,
                        token_ids@,
                        i as nat,
                        work,
                        burn_predicate,
                        e,
                    ));
                    return Err(e);
                },
            }
            let gone = nft_store::tokens_delete(bs, &token_data, token_id);
            proof {
                store::lemma_kept_trans(blocks, before, bs@);
            }
            match gone {
                Ok((root, _)) => {
                    token_data = root;
                    proof {
                        if whole {
                            let after = nft_store::tokens_at(bs@, token_data@)->0;
                            assert((work.step)(now, token_id) == Ok::<Tokens, NftFault>(after));
                            lemma_passed_next(
                                tokens,
                                token_ids@,
                                i as nat,
                                work,
                                burn_predicate,
                                after,
                            );
                        }
                    }
                },
                Err(e) => return Err(StateError::IpldAmt(e)),
            }
            i += 1;
        }
        let ghost blocks1 = bs@;
        let count = token_ids.len() as u64;
        // we only reach here if all tokens were burned successfully so assume the caller is valid
        let missing = StateError::InvariantFailed("owner of tokens not found".to_owned());
        let debited = debit_owner(bs, &self.owner_data, owner, count, missing);
        proof {
            store::lemma_kept_trans(blocks, blocks1, bs@);
        }
        // update the owner's balance
        let (owner_data, new_balance) = match debited {
            Ok(done) => done,
            Err(e) => return Err(e),
        };
        if self.total_supply < count {
            return Err(StateError::InvariantFailed("fewer tokens than burned".to_owned()));
        }
        self.total_supply = self.total_supply - count;
        self.token_data = token_data;
        self.owner_data = owner_data;
        Ok(new_balance)
    }

    /// Transfers a batch of tokens between the owner and receiver.
    ///
    /// The predicate is checked for each token to be transferred, and the entire transfer is
    /// aborted if the predicate fails. It is the caller's responsibility to check that the
    /// actor using this method is permitted to do so.
    pub fn transfer<F: Fn(&TokenData, TokenID) -> Result<(), StateError>>(
        &mut self,
        bs: &mut Store,
        token_ids: &Vec<TokenID>,
        owner: ActorID,
        receiver: ActorID,
        transfer_predicate: &F,
    ) -> (r: Result<TransferIntermediate, StateError>)
        requires
            old(self).ready(old(bs)@),
            forall|data: TokenData, id: TokenID| transfer_predicate.requires((&data, id)),
        ensures
            store::kept(old(bs)@, final(bs)@),
            r is Err ==> *final(self) == *old(self),
            final(self).next_token == old(self).next_token,
            final(self).total_supply == old(self).total_supply,
            old(self).holdings(old(bs)@) is Some ==> walked(
                old(self).holdings(old(bs)@)->0,
                final(self).holdings(final(bs)@),
                token_ids@,
                handing_on(receiver),
                *transfer_predicate,
                refusal(r),
            ),
            r is Ok ==> r->Ok_0.token_ids@ == token_ids@ && r->Ok_0.from == owner && r->Ok_0.to
                == receiver && r->Ok_0.recipient_data@ == Seq::<u8>::empty(),
    {
        match load_tokens(bs, &self.token_data) {
            Ok(()) => {},
            Err(e) => {
                assert(self.holdings(bs@) is None);
                return Err(e);
            },
        }
        let ghost blocks = bs@;
        let (token_data, owner_data) = match hand_on_all(
            bs,
            &self.token_data,
            &self.owner_data,
            token_ids,
            receiver,
            transfer_predicate,
        ) {
            Ok(roots) => roots,
            Err(e) => {
                proof {
                    if self.holdings(blocks) is Some {
                        lemma_holdings_kept(*self, blocks, bs@);
                    }
                }
                return Err(e);
            },
        };
        let ids = copy_ids(token_ids);
        self.token_data = token_data;
        self.owner_data = owner_data;
        Ok(
            TransferIntermediate {
                token_ids: ids,
                from: owner,
                to: receiver,
                recipient_data: RawBytes::default(),
            },
        )
    }

    /// The tokens and owners that the state keeps in these blocks.
    pub open spec fn holdings(self, blocks: Blocks) -> Option<Holdings> {
        holdings_at(blocks, self.token_data@, self.owner_data@)
    }

    /// Checks for account-level approval between owner and operator.
    pub fn is_account_operator(owner_map: &OwnerMap<'_>, owner: ActorID, operator: ActorID) -> (r:
        Result<bool, StateError>)
        ensures
            owner_map@ is Some ==> {
                let owners = owner_map@->0;
                if owners.contains_key(keys::key_of(owner)) {
                    r is Ok && r->Ok_0 == owners[keys::key_of(owner)].1.contains(operator)
                } else {
                    r is Err && r->Err_0@ == NftFault::Invariant
                }
            },
    {
        match owner_map.get(&actor_id_key(owner)) {
            Ok(Some(data)) => Ok(data.operators.contains_actor(&operator)),
            Ok(None) => {
                let message = "owner ".to_owned().concat(owner.to_string().as_str());
                Err(StateError::InvariantFailed(message.concat(" not found")))
            },
            Err(e) => Err(StateError::IpldHamt(e)),
        }
    }

    /// Asserts that the actor either owns the token or is an account level operator on the owner of
    /// the token.
    pub fn assert_can_approve_token(
        owner_map: &OwnerMap<'_>,
        token_data: &TokenData,
        actor: ActorID,
        token_id: TokenID,
    ) -> (r: Result<(), StateError>)
        ensures
            token_data.owner == actor ==> r is Ok,
            token_data.owner != actor && owner_map@ is Some ==> {
                let owners = owner_map@->0;
                let key = keys::key_of(token_data.owner);
                if owners.contains_key(key) && owners[key].1.contains(actor) {
                    r is Ok
                } else {
                    r is Err && r->Err_0@ == (NftFault::NotOwner { actor, token_id })
                }
            },
    {
        if token_data.owner == actor {
            return Ok(());
        }
        match owner_map.get(&actor_id_key(token_data.owner)) {
            Ok(Some(account)) => if account.operators.contains_actor(&actor) {
                Ok(())
            } else {
                Err(StateError::NotOwner { actor, token_id })
            },
            Ok(None) => Err(StateError::NotOwner { actor, token_id }),
            Err(e) => Err(StateError::IpldHamt(e)),
        }
    }

    /// Asserts that the given operator is permitted authorised for the specified token.
    pub fn assert_token_level_approval(
        token_data: &TokenData,
        token_id: TokenID,
        operator: ActorID,
    ) -> (r: Result<(), StateError>)
        ensures
            r is Ok == token_data@.1.contains(operator),
            r is Err ==> r->Err_0@ == (NftFault::NotAuthorized { actor: operator, token_id }),
    {
        // operator is approved at token-level
        if !token_data.operators.contains_actor(&operator) {
            return Err(StateError::NotAuthorized { actor: operator, token_id });
        }
        Ok(())
    }

    /// Asserts that a given account owns the specified token.
    pub fn assert_owns_token(token_data: &TokenData, token_id: TokenID, actor: ActorID) -> (r: Result<
        (),
        StateError,
    >)
        ensures
            r is Ok == (token_data.owner == actor),
            r is Err ==> r->Err_0@ == (NftFault::NotOwner { actor, token_id }),
    {
        if token_data.owner != actor {
            return Err(StateError::NotOwner { actor, token_id });
        }
        Ok(())
    }

    /// Converts a [`MintIntermediate`] to a [`MintReturn`].
    ///
    /// This function should be called on a freshly loaded or known-up-to-date state.
    pub fn mint_return(&self, bs: &Store, intermediate: MintIntermediate) -> (r: Result<
        MintReturn,
        StateError,
    >)
        ensures
            self.collection(bs@) is Some ==> r is Ok && r->Ok_0.balance == collection::owner_info(
                self.collection(bs@)->0.held.owners,
                keys::key_of(intermediate.to),
            ).0,
            r is Ok ==> r->Ok_0.supply == self.total_supply && r->Ok_0.token_ids
                == intermediate.token_ids && r->Ok_0.recipient_data == intermediate.recipient_data,
            r is Err ==> r->Err_0@ == NftFault::Hamt,
    {
        match self.get_balance(bs, intermediate.to) {
            Ok(balance) => Ok(
                MintReturn {
                    balance,
                    supply: self.total_supply,
                    token_ids: intermediate.token_ids,
                    recipient_data: intermediate.recipient_data,
                },
            ),
            Err(e) => Err(e),
        }
    }

    /// Converts a [`TransferIntermediate`] to a [`TransferReturn`].
    ///
    /// This function should be called on a freshly loaded or known-up-to-date state.
    pub fn transfer_return(&self, bs: &Store, intermediate: TransferIntermediate) -> (r: Result<
        TransferReturn,
        StateError,
    >)
        ensures
            self.collection(bs@) is Some ==> {
                let owners = self.collection(bs@)->0.held.owners;
                &&& r is Ok
                &&& r->Ok_0.from_balance == collection::owner_info(
                    owners,
                    keys::key_of(intermediate.from),
                ).0
                &&& r->Ok_0.to_balance == collection::owner_info(
                    owners,
                    keys::key_of(intermediate.to),
                ).0
            },
            r is Ok ==> r->Ok_0.token_ids == intermediate.token_ids,
            r is Err ==> r->Err_0@ == NftFault::Hamt,
    {
        let to_balance = match self.get_balance(bs, intermediate.to) {
            Ok(balance) => balance,
            Err(e) => return Err(e),
        };
        let from_balance = match self.get_balance(bs, intermediate.from) {
            Ok(balance) => balance,
            Err(e) => return Err(e),
        };
        Ok(TransferReturn { from_balance, to_balance, token_ids: intermediate.token_ids })
    }

    /// Get the metadata for a token.
    pub fn get_metadata(&self, bs: &Store, token_id: TokenID) -> (r: Result<String, StateError>)
        requires
            self.ready(bs@),
        ensures
            self.collection(bs@) is Some ==> match collection::looked_up(
                self.collection(bs@)->0.held.tokens,
                token_id,
            ) {
                Ok(token) => r is Ok && r->Ok_0@ == token.2,
                Err(fault) => r is Err && r->Err_0@ == fault,
            },
    {
        match load_tokens(bs, &self.token_data) {
            Ok(()) => {},
            Err(e) => return Err(e),
        }
        match read_token(bs, &self.token_data, token_id) {
            Ok(token) => Ok(token.metadata),
            Err(e) => Err(e),
        }
    }

    /// Get the owner of a token.
    pub fn get_owner(&self, bs: &Store, token_id: TokenID) -> (r: Result<ActorID, StateError>)
        requires
            self.ready(bs@),
        ensures
            self.collection(bs@) is Some ==> match collection::looked_up(
                self.collection(bs@)->0.held.tokens,
                token_id,
            ) {
                Ok(token) => r is Ok && r->Ok_0 == token.0,
                Err(fault) => r is Err && r->Err_0@ == fault,
            },
    {
        match load_tokens(bs, &self.token_data) {
            Ok(()) => {},
            Err(e) => return Err(e),
        }
        match read_token(bs, &self.token_data, token_id) {
            Ok(token) => Ok(token.owner),
            Err(e) => Err(e),
        }
    }

    /// The array of tokens
    pub fn get_token_data_amt<'bs>(&self, bs: &'bs Store) -> (r: Result<TokenArray<'bs>, StateError>)
        requires
            self.ready(bs@),
        ensures
            r is Ok == nft_store::tokens_at(bs@, self.token_data@) is Some,
            r is Ok ==> r->Ok_0@ == nft_store::tokens_at(bs@, self.token_data@),
            r is Err ==> r->Err_0@ == NftFault::Amt,
    {
        match nft_store::tokens_load(bs, &self.token_data) {
            Ok(()) => Ok(TokenArray { bs, root: self.token_data.clone() }),
            Err(e) => Err(StateError::IpldAmt(e)),
        }
    }

    /// The tree of owners
    pub fn get_owner_data_hamt<'bs>(&self, bs: &'bs Store) -> (r: Result<OwnerMap<'bs>, StateError>)
        ensures
            self.collection(bs@) is Some ==> r is Ok && r->Ok_0@ == Some(
                self.collection(bs@)->0.held.owners,
            ),
            !bs@.contains_key(self.owner_data@) ==> r is Err,
            r is Err ==> r->Err_0@ == NftFault::Hamt,
    {
        match nft_store::owners_load(bs, &self.owner_data, HAMT_BIT_WIDTH) {
            Ok(()) => Ok(OwnerMap { bs, root: self.owner_data.clone() }),
            Err(e) => Err(StateError::IpldHamt(e)),
        }
    }

    /// Retrieves the token data amt, asserting that the cursor is valid for the current state. If
    /// the root cid has changed since the cursor was created, the data has mutated and the cursor
    /// is invalid.
    pub fn get_token_amt_for_cursor<'bs>(&self, bs: &'bs Store, cursor: &Option<Cursor>) -> (r: Result<
        TokenArray<'bs>,
        StateError,
    >)
        requires
            self.ready(bs@),
        ensures
            !self.owns_cursor(*cursor) ==> r is Err && r->Err_0@ == NftFault::InvalidCursor,
            self.owns_cursor(*cursor) ==> r is Ok == nft_store::tokens_at(
                bs@,
                self.token_data@,
            ) is Some,
            r is Ok ==> r->Ok_0@ == nft_store::tokens_at(bs@, self.token_data@),
            self.owns_cursor(*cursor) && r is Err ==> r->Err_0@ == NftFault::Amt,
    {
        match cursor {
            Some(cursor) => {
                if !cursor.root.same(&self.token_data) {
                    return Err(StateError::InvalidCursor);
                }
            },
            None => {},
        }
        self.get_token_data_amt(bs)
    }

    /// Whether a cursor was made for the tokens as they are now.
    pub open spec fn owns_cursor(self, cursor: Option<Cursor>) -> bool {
        match cursor {
            Some(cursor) => cursor.root@ == self.token_data@,
            None => true,
        }
    }

    /// List the tokens of a page that a filter keeps, with a cursor to the next page
    fn list_filtered(&self, bs: &Store, cursor: Option<Cursor>, limit: u64, filter: Filter) -> (r:
        Result<(TokenSet, Option<Cursor>), StateError>)
        requires
            self.ready(bs@),
        ensures
            !self.owns_cursor(cursor) ==> r is Err && r->Err_0@ == NftFault::InvalidCursor,
            self.owns_cursor(cursor) && r is Err ==> r->Err_0@ == NftFault::Amt,
            r is Ok && r->Ok_0.1 is Some ==> r->Ok_0.1->0.root@ == self.token_data@,
            self.owns_cursor(cursor) && self.collection(bs@) is Some && (start_of(cursor) == 0
                || self.collection(bs@)->0.held.tokens.contains_key(start_of(cursor))) ==> r is Ok
                && shows_page(
                self.collection(bs@)->0.held.tokens,
                start_of(cursor),
                limit,
                filter,
                bits::held_bits(r->Ok_0.0),
                next_of(r->Ok_0.1),
            ),
    {
        match self.get_token_amt_for_cursor(bs, &cursor) {
            Ok(_) => {},
            Err(e) => return Err(e),
        }
        let start: u64 = match &cursor {
            Some(cursor) => cursor.index,
            None => 0,
        };
        let (entries, next) = match nft_store::tokens_ranged(bs, &self.token_data, start, limit) {
            Ok(page) => page,
            Err(e) => return Err(StateError::IpldAmt(e)),
        };
        let token_ids = kept_tokens(&entries, &filter);
        let next_cursor = match next {
            Some(index) => Some(Cursor { root: self.token_data.clone(), index }),
            None => None,
        };
        proof {
            let whole = self.collection(bs@) is Some;
            let tokens = self.collection(bs@)->0.held.tokens;
            if whole && (start == 0 || tokens.contains_key(start)) {
                lemma_page_set(entries@, next, tokens, start, limit, filter);
            }
        }
        Ok((token_ids, next_cursor))
    }

    /// List all the minted tokens.
    pub fn list_tokens(
        &self,
        bs: &Store,
        cursor: Option<Cursor>,
        limit: u64,
    ) -> (r: Result<(TokenSet, Option<Cursor>), StateError>)
        requires
            self.ready(bs@),
        ensures
            !self.owns_cursor(cursor) ==> r is Err && r->Err_0@ == NftFault::InvalidCursor,
            self.owns_cursor(cursor) && r is Err ==> r->Err_0@ == NftFault::Amt,
            r is Ok && r->Ok_0.1 is Some ==> r->Ok_0.1->0.root@ == self.token_data@,
            self.owns_cursor(cursor) && self.collection(bs@) is Some && (start_of(cursor) == 0
                || self.collection(bs@)->0.held.tokens.contains_key(start_of(cursor))) ==> r is Ok
                && shows_page(
                self.collection(bs@)->0.held.tokens,
                start_of(cursor),
                limit,
                Filter::All,
                bits::held_bits(r->Ok_0.0),
                next_of(r->Ok_0.1),
            ),
    {
        self.list_filtered(bs, cursor, limit, Filter::All)
    }

    /// List the tokens owned by an actor. This may be a prohibitively expensive operation, as it
    /// involves iterating over the entire token set.
    /// Returns a bitfield of the tokens owned by the actor and a cursor to the next page of data.
    pub fn list_owned_tokens(
        &self,
        bs: &Store,
        owner: ActorID,
        cursor: Option<Cursor>,
        limit: u64,
    ) -> (r: Result<(TokenSet, Option<Cursor>), StateError>)
        requires
            self.ready(bs@),
        ensures
            !self.owns_cursor(cursor) ==> r is Err && r->Err_0@ == NftFault::InvalidCursor,
            self.owns_cursor(cursor) && r is Err ==> r->Err_0@ == NftFault::Amt,
            r is Ok && r->Ok_0.1 is Some ==> r->Ok_0.1->0.root@ == self.token_data@,
            self.owns_cursor(cursor) && self.collection(bs@) is Some && (start_of(cursor) == 0
                || self.collection(bs@)->0.held.tokens.contains_key(start_of(cursor))) ==> r is Ok
                && shows_page(
                self.collection(bs@)->0.held.tokens,
                start_of(cursor),
                limit,
                Filter::Owner(owner),
                bits::held_bits(r->Ok_0.0),
                next_of(r->Ok_0.1),
            ),
    {
        self.list_filtered(bs, cursor, limit, Filter::Owner(owner))
    }

    /// Enumerates tokens for which an account is an operator.
    pub fn list_operator_tokens(
        &self,
        bs: &Store,
        operator: ActorID,
        cursor: Option<Cursor>,
        limit: u64,
    ) -> (r: Result<(TokenSet, Option<Cursor>), StateError>)
        requires
            self.ready(bs@),
        ensures
            !self.owns_cursor(cursor) ==> r is Err && r->Err_0@ == NftFault::InvalidCursor,
            self.owns_cursor(cursor) && r is Err ==> r->Err_0@ == NftFault::Amt,
            r is Ok && r->Ok_0.1 is Some ==> r->Ok_0.1->0.root@ == self.token_data@,
            self.owns_cursor(cursor) && self.collection(bs@) is Some && (start_of(cursor) == 0
                || self.collection(bs@)->0.held.tokens.contains_key(start_of(cursor))) ==> r is Ok
                && shows_page(
                self.collection(bs@)->0.held.tokens,
                start_of(cursor),
                limit,
                Filter::Operator(operator),
                bits::held_bits(r->Ok_0.0),
                next_of(r->Ok_0.1),
            ),
    {
        self.list_filtered(bs, cursor, limit, Filter::Operator(operator))
    }

    /// List all the token operators for a given `token_id`.
    pub fn list_token_operators(
        &self,
        bs: &Store,
        token_id: TokenID,
        cursor: Option<Cursor>,
        limit: u64,
    ) -> (r: Result<(ActorIDSet, Option<Cursor>), StateError>)
        requires
            self.ready(bs@),
            start_of(cursor) + limit <= u64::MAX,
        ensures
            !self.owns_cursor(cursor) ==> r is Err && r->Err_0@ == NftFault::InvalidCursor,
            r is Ok && r->Ok_0.1 is Some ==> r->Ok_0.1->0.root@ == self.token_data@,
            self.owns_cursor(cursor) && self.collection(bs@) is Some ==> match collection::looked_up(
                self.collection(bs@)->0.held.tokens,
                token_id,
            ) {
                Ok(token) => r is Ok && shows_members(
                    token.1,
                    start_of(cursor),
                    limit,
                    bits::held_bits(r->Ok_0.0),
                    next_of(r->Ok_0.1),
                ),
                Err(fault) => r is Err && r->Err_0@ == fault,
            },
    {
        match self.get_token_amt_for_cursor(bs, &cursor) {
            Ok(_) => {},
            Err(e) => return Err(e),
        }
        let token = match read_token(bs, &self.token_data, token_id) {
            Ok(token) => token,
            Err(e) => return Err(e),
        };
        let start: u64 = match &cursor {
            Some(cursor) => cursor.index,
            None => 0,
        };
        let (members, next) = member_page(&token.operators, start, limit);
        let next_cursor = match next {
            Some(index) => Some(Cursor { root: self.token_data.clone(), index }),
            None => None,
        };
        Ok((members, next_cursor))
    }

    /// List all the token operators for a given account.
    pub fn list_account_operators(
        &self,
        bs: &Store,
        actor_id: ActorID,
        cursor: Option<Cursor>,
        limit: u64,
    ) -> (r: Result<(ActorIDSet, Option<Cursor>), StateError>)
        requires
            start_of(cursor) + limit <= u64::MAX,
        ensures
            r is Err ==> r->Err_0@ == NftFault::Hamt,
            r is Ok && r->Ok_0.1 is Some ==> r->Ok_0.1->0.root@ == self.token_data@,
            self.collection(bs@) is Some ==> {
                let owners = self.collection(bs@)->0.held.owners;
                &&& r is Ok
                &&& if owners.contains_key(keys::key_of(actor_id)) {
                    shows_members(
                        owners[keys::key_of(actor_id)].1,
                        start_of(cursor),
                        limit,
                        bits::held_bits(r->Ok_0.0),
                        next_of(r->Ok_0.1),
                    )
                } else {
                    bits::held_bits(r->Ok_0.0) == Set::<ActorID>::empty() && r->Ok_0.1 is None
                }
            },
    {
        let found = match nft_store::owners_get(
            bs,
            &self.owner_data,
            HAMT_BIT_WIDTH,
            &actor_id_key(actor_id),
        ) {
            Ok(found) => found,
            Err(e) => return Err(StateError::IpldHamt(e)),
        };
        match found {
            Some(account) => {
                let start: u64 = match &cursor {
                    Some(cursor) => cursor.index,
                    None => 0,
                };
                let (members, next) = member_page(&account.operators, start, limit);
                let next_cursor = match next {
                    Some(index) => Some(Cursor { root: self.token_data.clone(), index }),
                    None => None,
                };
                Ok((members, next_cursor))
            },
            None => Ok((no_bits(), None)),
        }
    }
}

/// Which tokens of a page are listed.
#[derive(Clone, Copy)]
pub enum Filter {
    /// All of them.
    All,
    /// Those of an owner.
    Owner(ActorID),
    /// Those for which an actor is an operator.
    Operator(ActorID),
}

impl Filter {
    /// Whether a token is listed.
    pub open spec fn keeps(self, token: nft_store::TokenInfo) -> bool {
        match self {
            Filter::All => true,
            Filter::Owner(owner) => token.0 == owner,
            Filter::Operator(operator) => token.1.contains(operator),
        }
    }

    /// Whether a token is listed.
    fn admits(&self, token: &TokenData) -> (r: bool)
        ensures
            r == self.keeps(token@),
    {
        match self {
            Filter::All => true,
            Filter::Owner(owner) => token.owner == *owner,
            Filter::Operator(operator) => get_bit(&token.operators, *operator),
        }
    }
}

/// Where a cursor goes on: at the start where there is none.
pub open spec fn start_of(cursor: Option<Cursor>) -> u64 {
    match cursor {
        Some(cursor) => cursor.index,
        None => 0,
    }
}

/// Where a cursor goes on, if there is one.
pub open spec fn next_of(cursor: Option<Cursor>) -> Option<u64> {
    match cursor {
        Some(cursor) => Some(cursor.index),
        None => None,
    }
}

/// Whether numbers are those of the first tokens from a number on, up to a limit, with the number
/// of the token after them as the next.
pub open spec fn page(tokens: Tokens, start: u64, limit: u64, ids: Set<TokenID>, next: Option<u64>) -> bool {
    &&& ids.finite()
    &&& ids.len() <= limit
    &&& next is Some ==> ids.len() == limit && tokens.contains_key(next->0) && start <= next->0
    &&& forall|id: TokenID| #[trigger]
        ids.contains(id) == (tokens.contains_key(id) && start <= id && (next is Some ==> id
            < next->0))
}

/// Whether numbers are those that a filter keeps of a page.
pub open spec fn shows_page(
    tokens: Tokens,
    start: u64,
    limit: u64,
    filter: Filter,
    ids: Set<TokenID>,
    next: Option<u64>,
) -> bool {
    exists|whole: Set<TokenID>| #[trigger]
        page(tokens, start, limit, whole, next) && ids == whole.filter(
            |id: TokenID| filter.keeps(tokens[id]),
        )
}

/// Whether actors are those of a set at the given places, counted from the smallest, with the place
/// after them as the next if there are more.
pub open spec fn shows_members(
    members: Set<ActorID>,
    start: u64,
    limit: u64,
    shown: Set<ActorID>,
    next: Option<u64>,
) -> bool {
    exists|list: Seq<ActorID>| #[trigger]
        bits::ascending(list) && list.to_set() == members && shown == places(list, start, limit)
            && next == (if list.len() > start + limit {
            Some((start + limit) as u64)
        } else {
            None
        })
}

/// The numbers at the given places of a list.
pub open spec fn places(list: Seq<u64>, start: u64, limit: u64) -> Set<u64> {
    Set::new(
        |x: u64| exists|i: int| start <= i < start + limit && i < list.len() && #[trigger] list[i] == x,
    )
}

/// The numbers of the tokens that a filter keeps
fn kept_tokens(entries: &Vec<(TokenID, TokenData)>, filter: &Filter) -> (r: TokenSet)
    requires
        nft_store::below_max(entries@),
    ensures
        forall|id: TokenID| #[trigger]
            bits::held_bits(r).contains(id) <==> exists|i: int|
                0 <= i < entries.len() && (#[trigger] entries[i]).0 == id && filter.keeps(
                    entries[i].1@,
                ),
{
    let mut token_ids = no_bits();
    let mut i: usize = 0;
    while i < entries.len()
        invariant
            i <= entries.len(),
            nft_store::below_max(entries@),
            forall|id: TokenID| #[trigger]
                bits::held_bits(token_ids).contains(id) <==> exists|j: int|
                    0 <= j < i && (#[trigger] entries[j]).0 == id && filter.keeps(entries[j].1@),
        decreases entries.len() - i,
    {
        let ghost before = bits::held_bits(token_ids);
        if filter.admits(&entries[i].1) {
            set_bit(&mut token_ids, entries[i].0);
        }
        proof {
            let now = bits::held_bits(token_ids);
            assert forall|id: TokenID| #[trigger] now.contains(id) <==> exists|j: int|
                0 <= j < i + 1 && (#[trigger] entries[j]).0 == id && filter.keeps(
                    entries[j].1@,
                ) by {
                if before.contains(id) {
                    let j = choose|j: int|
                        0 <= j < i && (#[trigger] entries[j]).0 == id && filter.keeps(entries[j].1@);
                    assert(0 <= j < i + 1 && entries[j].0 == id);
                }
                if entries[i as int].0 == id && filter.keeps(entries[i as int].1@) {
                    assert(now.contains(id));
                }
            }
        }
        i += 1;
    }
    token_ids
}

/// The numbers that the filter keeps of a page of tokens are those that it keeps of the page's set.
proof fn lemma_page_set(
    entries: Seq<(TokenID, TokenData)>,
    next: Option<TokenID>,
    tokens: Tokens,
    start: u64,
    limit: u64,
    filter: Filter,
)
    requires
        nft_store::token_page(entries, next, tokens, start, limit),
    ensures
        forall|ids: Set<TokenID>|
            (forall|id: TokenID| #[trigger]
                ids.contains(id) <==> exists|i: int|
                    0 <= i < entries.len() && (#[trigger] entries[i]).0 == id && filter.keeps(
                        entries[i].1@,
                    )) ==> #[trigger] shows_page(tokens, start, limit, filter, ids, next),
{
    let numbers = Seq::new(entries.len(), |i: int| entries[i].0);
    let whole = numbers.to_set();
    assert forall|i: int, j: int| 0 <= i < j < numbers.len() implies numbers[i] != numbers[j] by {
        assert(entries[i].0 < entries[j].0);
    }
    numbers.unique_seq_to_set();
    assert forall|id: TokenID| #[trigger] whole.contains(id) == (tokens.contains_key(id) && start
        <= id && (next is Some ==> id < next->0)) by {
        if whole.contains(id) {
            let i = choose|i: int| 0 <= i < numbers.len() && numbers[i] == id;
            assert(entries[i].0 == id);
        }
        if tokens.contains_key(id) && start <= id && (next is Some ==> id < next->0) {
            let i = choose|i: int| 0 <= i < entries.len() && (#[trigger] entries[i]).0 == id;
            assert(numbers[i] == id);
        }
    }
    assert(page(tokens, start, limit, whole, next));
    assert forall|ids: Set<TokenID>|
        (forall|id: TokenID| #[trigger]
            ids.contains(id) <==> exists|i: int|
                0 <= i < entries.len() && (#[trigger] entries[i]).0 == id && filter.keeps(
                    entries[i].1@,
                )) implies #[trigger] shows_page(tokens, start, limit, filter, ids, next) by {
        assert forall|id: TokenID| #[trigger] ids.contains(id) == whole.filter(
            |id: TokenID| filter.keeps(tokens[id]),
        ).contains(id) by {
            if ids.contains(id) {
                let i = choose|i: int|
                    0 <= i < entries.len() && (#[trigger] entries[i]).0 == id && filter.keeps(
                        entries[i].1@,
                    );
                assert(numbers[i] == id);
            }
            if whole.contains(id) && filter.keeps(tokens[id]) {
                let i = choose|i: int| 0 <= i < numbers.len() && numbers[i] == id;
                assert(entries[i].0 == id && filter.keeps(entries[i].1@));
            }
        }
        assert(ids =~= whole.filter(|id: TokenID| filter.keeps(tokens[id])));
    }
}

/// The actors of a set at the given places, and the place after them if there are more
fn member_page(members: &BitField, start: u64, limit: u64) -> (r: (ActorIDSet, Option<u64>))
    requires
        start + limit <= u64::MAX,
    ensures
        shows_members(bits::held_bits(*members), start, limit, bits::held_bits(r.0), r.1),
{
    let list = listed_bits(members);
    let mut shown = no_bits();
    let mut i: usize = 0;
    proof {
        assert(bits::held_bits(shown) =~= Set::new(
            |x: u64| exists|j: int| start <= j < start + limit && j < i && #[trigger] list@[j] == x,
        ));
    }
    while i < list.len()
        invariant
            i <= list.len(),
            start + limit <= u64::MAX,
            forall|j: int| 0 <= j < list.len() ==> list[j] < u64::MAX,
            bits::held_bits(shown) == Set::new(
                |x: u64|
                    exists|j: int| start <= j < start + limit && j < i && #[trigger] list@[j] == x,
            ),
        decreases list.len() - i,
    {
        let ghost before = bits::held_bits(shown);
        if i as u64 >= start && (i as u64) < start + limit {
            set_bit(&mut shown, list[i]);
        }
        proof {
            let now = Set::new(
                |x: u64|
                    exists|j: int| start <= j < start + limit && j < i + 1 && #[trigger] list@[j] == x,
            );
            assert forall|x: u64| #[trigger] bits::held_bits(shown).contains(x) == now.contains(x) by {
                if before.contains(x) {
                    let j = choose|j: int|
                        start <= j < start + limit && j < i && #[trigger] list@[j] == x;
                    assert(start <= j < start + limit && j < i + 1 && list@[j] == x);
                }
                if now.contains(x) {
                    let j = choose|j: int|
                        start <= j < start + limit && j < i + 1 && #[trigger] list@[j] == x;
                    if j < i {
                        assert(before.contains(x));
                    }
                }
                if start <= i < start + limit && list@[i as int] == x {
                    assert(now.contains(x));
                }
            }
            assert(bits::held_bits(shown) =~= now);
        }
        i += 1;
    }
    proof {
        assert(bits::held_bits(shown) =~= places(list@, start, limit));
        assert(bits::ascending(list@));
    }
    let next = if list.len() as u64 > start + limit {
        Some(start + limit)
    } else {
        None
    };
    (shown, next)
}

/// What is kept reads the same.
pub proof fn lemma_holdings_kept(state: NFTState, earlier: Blocks, later: Blocks)
    requires
        store::kept(earlier, later),
        state.holdings(earlier) is Some,
    ensures
        state.holdings(later) == state.holdings(earlier),
{
    assert(nft_store::tokens_at(earlier, state.token_data@) is Some);
    assert(nft_store::owners_at(earlier, state.owner_data@, HAMT_BIT_WIDTH) is Some);
}

/// The array of tokens of a state.
pub struct TokenArray<'bs> {
    bs: &'bs Store,
    root: Cid,
}

impl<'bs> View for TokenArray<'bs> {
    type V = Option<Tokens>;

    closed spec fn view(&self) -> Option<Tokens> {
        nft_store::tokens_at(self.bs@, self.root@)
    }
}

impl<'bs> TokenArray<'bs> {
    /// The token with a number; `u64::MAX` is out of range.
    pub fn get(&self, token_id: TokenID) -> (r: Result<Option<TokenData>, AmtError>)
        requires
            self@ is Some,
        ensures
            token_id == u64::MAX ==> r is Err,
            token_id < u64::MAX ==> r is Ok && nft_store::token_found(
                r->Ok_0,
                self@->0,
                token_id,
            ),
    {
        nft_store::tokens_get(self.bs, &self.root, token_id)
    }

    /// How many tokens there are.
    pub fn count(&self) -> (r: Result<u64, AmtError>)
        requires
            self@ is Some,
        ensures
            r is Ok && r->Ok_0 == self@->0.dom().len(),
    {
        nft_store::tokens_count(self.bs, &self.root)
    }

    /// All tokens, in the order of their numbers.
    pub fn entries(&self) -> (r: Result<Vec<(TokenID, TokenData)>, AmtError>)
        requires
            self@ is Some,
        ensures
            r is Ok && store::lists(nft_store::token_pairs(r->Ok_0@), self@->0)
                && nft_store::rising(r->Ok_0@),
    {
        nft_store::tokens_entries(self.bs, &self.root)
    }
}

/// The tree of owners of a state.
pub struct OwnerMap<'bs> {
    bs: &'bs Store,
    root: Cid,
}

impl<'bs> View for OwnerMap<'bs> {
    type V = Option<Owners>;

    closed spec fn view(&self) -> Option<Owners> {
        nft_store::owners_at(self.bs@, self.root@, HAMT_BIT_WIDTH)
    }
}

impl<'bs> OwnerMap<'bs> {
    /// The owner under a key.
    pub fn get(&self, key: &BytesKey) -> (r: Result<Option<OwnerData>, HamtError>)
        ensures
            self@ is Some ==> r is Ok && nft_store::owner_found(r->Ok_0, self@->0, key@),
    {
        nft_store::owners_get(self.bs, &self.root, HAMT_BIT_WIDTH, key)
    }

    /// All owners.
    pub fn entries(&self) -> (r: Result<Vec<(BytesKey, OwnerData)>, HamtError>)
        ensures
            self@ is Some ==> r is Ok && store::lists(nft_store::owner_pairs(r->Ok_0@), self@->0),
    {
        nft_store::owners_entries(self.bs, &self.root, HAMT_BIT_WIDTH)
    }
}

/// Whether the first `n` tokens of a list could all be dealt with, each after a check let it pass.
pub open spec fn passed<X, F: Fn(&TokenData, TokenID) -> Result<(), StateError>>(
    start: X,
    ids: Seq<TokenID>,
    n: nat,
    work: Work<X>,
    check: F,
) -> bool {
    &&& work.done(start, ids, n) is Ok
    &&& forall|j: int|
        #![trigger work.done(start, ids, j as nat)]
        0 <= j < n ==> lets_pass(
            check,
            (work.tokens)(work.done(start, ids, j as nat)->Ok_0),
            ids[j],
        )
}

/// Whether the list stopped at a token: those before it were dealt with, and this one is not there,
/// is refused by the check, or passes the check and cannot be dealt with.
pub open spec fn refused_at<X, F: Fn(&TokenData, TokenID) -> Result<(), StateError>>(
    start: X,
    ids: Seq<TokenID>,
    n: nat,
    work: Work<X>,
    check: F,
    e: StateError,
) -> bool {
    let now = work.done(start, ids, n)->Ok_0;
    &&& n < ids.len()
    &&& passed(start, ids, n, work, check)
    &&& match collection::looked_up((work.tokens)(now), ids[n as int]) {
        Ok(_) => stops(check, (work.tokens)(now), ids[n as int], e) || lets_pass(
            check,
            (work.tokens)(now),
            ids[n as int],
        ) && (work.step)(now, ids[n as int]) == Err::<X, NftFault>(e@),
        Err(fault) => e@ == fault,
    }
}

/// Whether a list of tokens was dealt with one after the other, or stopped at one that was refused.
pub open spec fn walked<X, F: Fn(&TokenData, TokenID) -> Result<(), StateError>>(
    before: X,
    after: Option<X>,
    ids: Seq<TokenID>,
    work: Work<X>,
    check: F,
    refusal: Option<StateError>,
) -> bool {
    match refusal {
        None => passed(before, ids, ids.len(), work, check) && after == Some(
            work.done(before, ids, ids.len())->Ok_0,
        ),
        Some(e) => after == Some(before) && exists|n: nat| #[trigger]
            refused_at(before, ids, n, work, check, e),
    }
}

/// The reason for which something was refused, if it was.
pub open spec fn refusal<T>(r: Result<T, StateError>) -> Option<StateError> {
    match r {
        Ok(_) => None,
        Err(e) => Some(e),
    }
}

/// A copy of a list of tokens.
pub(crate) fn copy_ids(ids: &Vec<TokenID>) -> (r: Vec<TokenID>)
    ensures
        r@ == ids@,
{
    let r = ids.clone();
    assert(r@ =~= ids@);
    r
}

/// Texts as values.
pub open spec fn texts(strings: Seq<String>) -> Seq<Seq<char>> {
    Seq::new(strings.len(), |i: int| strings[i]@)
}

/// Whether the result names the tokens that were minted: as many as asked for, with consecutive
/// numbers.
pub open spec fn minted(r: MintIntermediate, to: ActorID, first: TokenID, count: nat) -> bool {
    &&& r.to == to
    &&& r.token_ids@ == Seq::new(count, |i: int| (first + i) as u64)
    &&& r.recipient_data@ == Seq::<u8>::empty()
}

} // verus!
