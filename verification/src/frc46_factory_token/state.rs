//! What the factory token's actor keeps.
use vstd::prelude::*;

use crate::amount::TokenAmount;
use crate::bytes::{ActorID, Cid};
use crate::frc46_factory_token::error::RuntimeError;
use crate::frc46_token::state::{Books, StateRecord, TokenState, DEFAULT_HAMT_BIT_WIDTH};
use crate::store;
use crate::store::{Blocks, Store};
use cid::Cid as BlockCid;
use fvm_ipld_encoding::CborStore;
use fvm_shared::bigint::{BigInt, BigUint, Sign};
use fvm_shared::econ::TokenAmount as Atto;

verus! {

/// A token with a name, a symbol and a minter
#[derive(Debug)]
pub struct FactoryToken {
    /// The books of the token
    pub token: TokenState,
    /// The name of the token
    pub name: String,
    /// The ticker symbol of the token
    pub symbol: String,
    /// The smallest amount
    pub granularity: u64,
    /// address of authorised minting operator
    pub minter: Option<ActorID>,
}

/// A factory token as it is written to a block: the state of the token, the name, the symbol, the
/// smallest amount and the minter.
pub type FactoryRecord = (StateRecord, Seq<char>, Seq<char>, u64, Option<u64>);

/// The factory token that a block of CBOR holds, if it holds one.
pub uninterp spec fn factory_record(block: Seq<u8>) -> Option<FactoryRecord>;

/// `to_vec` of `fvm_ipld_encoding` on the factory token as a tuple. It claims that the encoding
/// fails exactly where the supply cannot be stored, and that reading it gives the token back.
#[verifier::external_body]
fn encode_factory(actor: &FactoryToken) -> (r: Result<Vec<u8>, String>)
    ensures
        r is Ok == store::storable(actor.token.supply@),
        r is Ok ==> factory_record(r->Ok_0@) == Some(actor.record()),
{
    let state = &actor.token;
    let sign = if state.supply.negative { Sign::Minus } else { Sign::Plus };
    let supply = BigInt::from_biguint(sign, BigUint::new(state.supply.digits.clone()));
    let balances = BlockCid::try_from(state.balances.bytes.as_slice()).unwrap();
    let allowances = BlockCid::try_from(state.allowances.bytes.as_slice()).unwrap();
    let token = (Atto::from_atto(supply), balances, allowances, state.hamt_bit_width);
    let record = (token, &actor.name, &actor.symbol, actor.granularity, actor.minter);
    fvm_ipld_encoding::to_vec(&record).map_err(|e| e.to_string())
}

/// What a factory token is read as: the state of the token, then the other fields in turn.
type Found = ((Atto, BlockCid, BlockCid, u32), String, String, u64, Option<u64>);

/// `CborStore::get_cbor` of `fvm_ipld_encoding` for the factory token as a tuple, on a store in
/// memory. It claims that it fails where the identifier is not that of CBOR or the block holds no
/// factory token, and otherwise gives the token in the block, if there is a block.
#[verifier::external_body]
fn get_factory(bs: &Store, cid: &Cid) -> (r: Result<Option<FactoryToken>, String>)
    ensures
        r is Err == (!store::cbor_codec(cid@) || (bs@.contains_key(cid@) && factory_record(bs@[cid@]) is None)),
        r is Ok ==> r->Ok_0 is Some == bs@.contains_key(cid@),
        r is Ok && r->Ok_0 is Some ==> factory_record(bs@[cid@]) == Some(r->Ok_0->0.record()),
{
    let cid = BlockCid::try_from(cid.bytes.as_slice()).unwrap();
    let found = bs.inner.get_cbor::<Found>(&cid).map_err(|e| e.to_string())?;
    Ok(found.map(|((supply, balances, allowances, hamt_bit_width), name, symbol, granularity, minter)| {
        let negative = supply.is_negative();
        let digits = supply.atto().magnitude().to_u32_digits();
        let token = TokenState {
            supply: TokenAmount { negative, digits },
            balances: Cid { bytes: balances.to_bytes() },
            allowances: Cid { bytes: allowances.to_bytes() },
            hamt_bit_width,
        };
        FactoryToken { token, name, symbol, granularity, minter }
    }))
}

/// Whether loading a factory token gives what the block under the identifier holds.
pub open spec fn loads(blocks: Blocks, cid: Seq<u8>, r: Result<FactoryToken, RuntimeError>) -> bool {
    &&& r is Ok == (store::cbor_codec(cid) && blocks.contains_key(cid) && factory_record(
        blocks[cid],
    ) is Some)
    &&& r is Ok ==> factory_record(blocks[cid]) == Some(r->Ok_0.record())
    &&& r is Err ==> r->Err_0 is Deserialization
}

/// Whether the block under an identifier holds a token.
pub open spec fn saved_at(blocks: Blocks, cid: Seq<u8>, token: FactoryToken) -> bool {
    &&& store::cbor_codec(cid)
    &&& blocks.contains_key(cid)
    &&& factory_record(blocks[cid]) == Some(token.record())
}

/// A token that was saved can be loaded again, whatever was stored since, and is the same.
pub proof fn loading_gives_back_what_was_saved(
    saved: FactoryToken,
    cid: Seq<u8>,
    blocks: Blocks,
    later: Blocks,
    r: Result<FactoryToken, RuntimeError>,
)
    requires
        saved_at(blocks, cid, saved),
        store::kept(blocks, later),
        loads(later, cid, r),
    ensures
        r is Ok,
        r->Ok_0.record() == saved.record(),
{
    assert(blocks.dom().contains(cid));
}

impl FactoryToken {
    /// The token as it is written.
    pub open spec fn record(&self) -> FactoryRecord {
        (self.token.record(), self.name@, self.symbol@, self.granularity, self.minter)
    }

    /// The trees have a width that can be read.
    pub open spec fn readable(&self) -> bool {
        self.token.hamt_bit_width < 32
    }

    /// The granularity is positive, and the trees have a width that can be read.
    pub open spec fn usable(&self) -> bool {
        self.granularity > 0 && self.readable()
    }

    /// A token of which there is none yet
    pub fn new(
        bs: &mut Store,
        name: String,
        symbol: String,
        granularity: u64,
        minter: Option<ActorID>,
    ) -> (r: Result<Self, RuntimeError>)
        ensures
            store::kept(old(bs)@, final(bs)@),
            r is Ok,
            r->Ok_0.token.hamt_bit_width == DEFAULT_HAMT_BIT_WIDTH,
            r->Ok_0.token.ledger(final(bs)@) == Some(Books::empty()),
            r->Ok_0.name == name,
            r->Ok_0.symbol == symbol,
            r->Ok_0.granularity == granularity,
            r->Ok_0.minter == minter,
    {
        match TokenState::new(bs) {
            Ok(token) => Ok(FactoryToken { token, name, symbol, granularity, minter }),
            Err(e) => Err(RuntimeError::State(e)),
        }
    }

    /// Loads the token from the block under an identifier
    pub fn load(bs: &Store, cid: &Cid) -> (r: Result<Self, RuntimeError>)
        ensures
            loads(bs@, cid@, r),
    {
        match get_factory(bs, cid) {
            Ok(Some(token)) => Ok(token),
            Ok(None) => Err(RuntimeError::Deserialization("no data found".to_owned())),
            Err(e) => Err(RuntimeError::Deserialization(e)),
        }
    }

    /// Saves the token, returning the identifier of its block
    ///
    /// What is loaded from there is this token.
    pub fn save(&self, bs: &mut Store) -> (r: Result<Cid, RuntimeError>)
        ensures
            store::kept(old(bs)@, final(bs)@),
            r is Ok == store::storable(self.token.supply@),
            r is Err ==> r->Err_0 is Serialization && final(bs)@ == old(bs)@,
            r is Ok ==> saved_at(final(bs)@, r->Ok_0@, *self),
    {
        let serialized = match encode_factory(self) {
            Ok(serialized) => serialized,
            Err(e) => return Err(RuntimeError::Serialization(e)),
        };
        Ok(bs.put(serialized))
    }
}

} // verus!
