//! The factory token at work.
use vstd::prelude::*;
use vstd::string::*;

use crate::address::{Address, AddressView};
use crate::bytes;
use crate::bytes::{ActorID, Cid, IpldBlock, RawBytes};
use crate::exit::ErrorNumber;
use crate::frc46_factory_token::error::RuntimeError;
use crate::frc46_factory_token::state;
use crate::frc46_factory_token::state::{FactoryRecord, FactoryToken};
use crate::frc46_token::error::{TokenError, TokenFault};
use crate::frc46_token::state::{Books, TokenState};
use crate::frc46_token::token;
use crate::frc46_token::token::Token;
use crate::frc46_token::types::{
    AllowanceReturn, BalanceReturn, BurnFromParams, BurnFromReturn, BurnParams, BurnReturn,
    DecreaseAllowanceParams, FRC46Token, GetAllowanceParams, GranularityReturn,
    IncreaseAllowanceParams, MintIntermediate, MintReturn, RevokeAllowanceParams,
    TotalSupplyReturn, TransferFromIntermediate, TransferFromParams, TransferFromReturn,
    TransferIntermediate, TransferParams, TransferReturn,
};
use crate::fvm_actor_utils::messaging::{Messaging, MessagingError, RECEIVER_HOOK_METHOD_NUM};
use crate::fvm_actor_utils::receiver::{ReceiverHook, ReceiverHookError, RecipientData};
use crate::fvm_actor_utils::syscalls::{Response, Syscalls};
use crate::fvm_actor_utils::util::{ActorError, ActorRuntime};
use crate::amount::TokenAmount;
use crate::ledger::StateFault;
use crate::store;
use crate::store::{Blocks, Store};

verus! {

/// Where the actor's state is kept.
pub trait Roots {
    /// Makes a block the root of the actor's state, with the blocks under it
    fn set_root(&mut self, bs: &Store, cid: &Cid) -> (r: Result<(), ErrorNumber>);

    /// The blocks of a state that is kept, by its root
    fn blocks_under(&mut self, cid: &Cid) -> (r: Result<Vec<Vec<u8>>, ErrorNumber>);
}

/// What a token is made from
#[derive(Debug)]
pub struct ConstructorParams {
    /// The name of the token
    pub name: String,
    /// The ticker symbol of the token
    pub symbol: String,
    /// The smallest amount
    pub granularity: u64,
    /// authorised mint operator
    /// only this address can mint tokens or remove themselves to permanently disable minting
    pub minter: Address,
}

/// Instruction to mint tokens
#[derive(Debug)]
pub struct MintParams {
    /// Who gets the tokens
    pub initial_owner: Address,
    /// A non-negative amount to mint
    pub amount: TokenAmount,
    /// Arbitrary data to pass on via the receiver hook
    pub operator_data: RawBytes,
}

/// A factory token that an actor works with on behalf of a caller
pub struct FactoryActor<'st, S: Syscalls, R: Roots> {
    /// Default token helper impl
    pub token: Token<'st, S>,
    /// The name of the token
    pub name: String,
    /// The ticker symbol of the token
    pub symbol: String,
    /// address of authorised minting operator
    pub minter: Option<ActorID>,
    /// The actor that called
    pub caller: ActorID,
    /// Where the root of the state is set
    pub roots: R,
}

/// Whether a block holds a token of which there is none yet, made from the parameters.
pub open spec fn made(params: ConstructorParams, minter: ActorID, blocks: Blocks, cid: Seq<u8>) -> bool {
    &&& store::cbor_codec(cid)
    &&& blocks.contains_key(cid)
    &&& exists|new: FactoryToken|
        {
            &&& state::factory_record(blocks[cid]) == Some(#[trigger] new.record())
            &&& new.name == params.name
            &&& new.symbol == params.symbol
            &&& new.granularity == params.granularity
            &&& new.minter == Some(minter)
            &&& new.token.ledger(blocks) == Some(Books::empty())
        }
}

/// Makes a token of which there is none yet, and makes it the actor's state
///
/// The minter is the actor at the address that was given.
pub fn construct_token<S: Syscalls, R: Roots>(
    runtime: &mut ActorRuntime<S>,
    roots: &mut R,
    params: ConstructorParams,
) -> (r: Result<Cid, RuntimeError>)
    ensures
        final(runtime).syscalls == old(runtime).syscalls,
        store::kept(old(runtime).blockstore@, final(runtime).blockstore@),
        match old(runtime).syscalls.resolves(params.minter@) {
            None => r is Err && r->Err_0 is Messaging && r->Err_0->Messaging_0 is AddressNotResolved
                && *final(roots) == *old(roots),
            Some(minter) => exists|r0: &mut R, cid: Cid, done: Result<(), ErrorNumber>|
                {
                    &&& *r0 == *old(roots)
                    &&& *final(r0) == *final(roots)
                    &&& #[trigger] call_ensures(
                        R::set_root,
                        (r0, &final(runtime).blockstore, &cid),
                        done,
                    )
                    &&& made(params, minter, final(runtime).blockstore@, cid@)
                    &&& r == (match done {
                        Ok(()) => Ok(cid),
                        Err(e) => Err(RuntimeError::Blockstore(e)),
                    })
                },
        },
{
    let minter = match runtime.resolve_id(&params.minter) {
        Ok(minter) => minter,
        Err(e) => return Err(RuntimeError::Messaging(e)),
    };
    let token = match FactoryToken::new(
        &mut runtime.blockstore,
        params.name,
        params.symbol,
        params.granularity,
        Some(minter),
    ) {
        Ok(token) => token,
        Err(e) => return Err(e),
    };
    let ghost between = runtime.blockstore@;
    proof {
        vstd::arithmetic::power2::lemma_pow2_pos(1016);
    }
    let saved = token.save(&mut runtime.blockstore);
    proof {
        crate::frc46_token::state::lemma_ledger_kept(token.token, between, runtime.blockstore@);
        store::lemma_kept_trans(old(runtime).blockstore@, between, runtime.blockstore@);
    }
    let cid = match saved {
        Ok(cid) => cid,
        Err(e) => return Err(e),
    };
    assert(state::factory_record(runtime.blockstore@[cid@]) == Some(token.record()));
    match roots.set_root(&runtime.blockstore, &cid) {
        Ok(()) => Ok(cid),
        Err(e) => Err(RuntimeError::Blockstore(e)),
    }
}

/// Whether a store holds what it held and these blocks, each under its identifier, and no more.
pub open spec fn brought(before: Blocks, blocks: Seq<Vec<u8>>, after: Blocks) -> bool {
    &&& before.submap_of(after)
    &&& forall|i: int|
        0 <= i < blocks.len() ==> after.contains_key(
            #[trigger] store::dag_cbor_cid(blocks[i]@),
        ) && after[store::dag_cbor_cid(blocks[i]@)] == blocks[i]@
    &&& forall|cid: Seq<u8>| #[trigger]
        after.contains_key(cid) ==> before.contains_key(cid) || exists|i: int|
            0 <= i < blocks.len() && cid == #[trigger] store::dag_cbor_cid(blocks[i]@)
}

/// Bringing the block before those that were brought.
proof fn lemma_brought_one_more(
    before: Blocks,
    between: Blocks,
    after: Blocks,
    blocks: Seq<Vec<u8>>,
    at: int,
)
    requires
        0 <= at < blocks.len(),
        brought(before, blocks.skip(at + 1), between),
        after == between.insert(store::dag_cbor_cid(blocks[at]@), blocks[at]@),
        between.submap_of(after),
    ensures
        brought(before, blocks.skip(at), after),
{
    let done = blocks.skip(at + 1);
    let now = blocks.skip(at);
    vstd::map_lib::lemma_submap_of_trans(before, between, after);
    assert forall|i: int| 0 <= i < now.len() implies after.contains_key(
        #[trigger] store::dag_cbor_cid(now[i]@),
    ) && after[store::dag_cbor_cid(now[i]@)] == now[i]@ by {
        if i > 0 {
            assert(now[i] == done[i - 1]);
            assert(between.contains_key(store::dag_cbor_cid(done[i - 1]@)));
        }
    }
    assert forall|cid: Seq<u8>| #[trigger] after.contains_key(cid) && !before.contains_key(
        cid,
    ) implies exists|i: int|
        0 <= i < now.len() && cid == #[trigger] store::dag_cbor_cid(now[i]@) by {
        if between.contains_key(cid) {
            let i = choose|i: int|
                0 <= i < done.len() && cid == #[trigger] store::dag_cbor_cid(done[i]@);
            assert(now[i + 1] == done[i]);
        } else {
            assert(now[0] == blocks[at]);
        }
    }
}

impl<'st, S: Syscalls, R: Roots> FactoryActor<'st, S, R> {
    /// The token as it is written.
    pub open spec fn record(&self) -> FactoryRecord {
        (
            self.token.current().record(),
            self.name@,
            self.symbol@,
            self.token.granularity,
            self.minter,
        )
    }

    /// Whether all but the books and the messages is as in an earlier value.
    pub open spec fn aside(&self, before: Self) -> bool {
        &&& self.name == before.name
        &&& self.symbol == before.symbol
        &&& self.minter == before.minter
        &&& self.caller == before.caller
        &&& self.roots == before.roots
        &&& self.token.granularity == before.token.granularity
    }

    /// Whether the system calls and the store only moved on: no address was forgotten, and what
    /// could be read can still be read.
    pub open spec fn moved_on(&self, before: Self) -> bool {
        &&& self.caller == before.caller
        &&& self.token.runtime.syscalls.actor() == before.token.runtime.syscalls.actor()
        &&& forall|a: AddressView| #[trigger]
            before.token.runtime.syscalls.resolves(a) is Some
                ==> self.token.runtime.syscalls.resolves(a)
                == before.token.runtime.syscalls.resolves(a)
        &&& store::kept(before.token.runtime.blockstore@, self.token.runtime.blockstore@)
    }

    /// Works with a token that was loaded
    ///
    /// The state of the token is handed over separately, and takes the place of the one given.
    pub fn open(
        runtime: ActorRuntime<S>,
        roots: R,
        caller: ActorID,
        loaded: FactoryToken,
        state: &'st mut TokenState,
    ) -> (r: Self)
        ensures
            r.token.runtime == runtime,
            r.roots == roots,
            r.caller == caller,
            r.token.current() == loaded.token,
            *final(r.token.state) == *final(state),
            r.record() == loaded.record(),
            r.token.readable() == loaded.readable(),
            r.token.usable() == loaded.usable(),
    {
        *state = loaded.token;
        FactoryActor {
            token: Token::wrap(runtime, loaded.granularity, state),
            name: loaded.name,
            symbol: loaded.symbol,
            minter: loaded.minter,
            caller,
            roots,
        }
    }

    /// Saves the token, returning the identifier of its block
    pub fn save(&mut self) -> (r: Result<Cid, RuntimeError>)
        ensures
            *final(final(self).token.state) == *final(old(self).token.state),
            final(self).aside(*old(self)),
            final(self).token.current() == old(self).token.current(),
            final(self).token.runtime.syscalls == old(self).token.runtime.syscalls,
            store::kept(
                old(self).token.runtime.blockstore@,
                final(self).token.runtime.blockstore@,
            ),
            r is Ok == store::storable(old(self).token.current().supply@),
            r is Err ==> r->Err_0 is Serialization,
            r is Ok ==> stored(final(self).token.runtime.blockstore@, r->Ok_0@, old(self).record()),
    {
        let snapshot = FactoryToken {
            token: self.token.state().clone(),
            name: self.name.clone(),
            symbol: self.symbol.clone(),
            granularity: self.token.granularity,
            minter: self.minter,
        };
        snapshot.save(&mut self.token.runtime.blockstore)
    }

    /// Flushes the state to the blockstore and updates the root cid
    pub fn flush(&mut self) -> (r: Result<Cid, RuntimeError>)
        ensures
            *final(final(self).token.state) == *final(old(self).token.state),
            final(self).record() == old(self).record(),
            final(self).token.current() == old(self).token.current(),
            final(self).moved_on(*old(self)),
            final(self).token.runtime.syscalls == old(self).token.runtime.syscalls,
            if store::storable(old(self).token.current().supply@) {
                exists|r0: &mut R, cid: Cid, done: Result<(), ErrorNumber>|
                    {
                        &&& *r0 == old(self).roots
                        &&& *final(r0) == final(self).roots
                        &&& #[trigger] call_ensures(
                            R::set_root,
                            (r0, &final(self).token.runtime.blockstore, &cid),
                            done,
                        )
                        &&& stored(
                            final(self).token.runtime.blockstore@,
                            cid@,
                            old(self).record(),
                        )
                        &&& r == (match done {
                            Ok(()) => Ok(cid),
                            Err(e) => Err(RuntimeError::Blockstore(e)),
                        })
                    }
            } else {
                r is Err && r->Err_0 is Serialization && final(self).roots == old(self).roots
            },
    {
        let cid = match self.save() {
            Ok(cid) => cid,
            Err(e) => return Err(e),
        };
        let done = self.roots.set_root(&self.token.runtime.blockstore, &cid);
        assert(stored(self.token.runtime.blockstore@, cid@, old(self).record()));
        match done {
            Ok(()) => Ok(cid),
            Err(e) => Err(RuntimeError::Blockstore(e)),
        }
    }

    /// Brings blocks into the store
    fn bring(&mut self, blocks: Vec<Vec<u8>>)
        ensures
            *final(final(self).token.state) == *final(old(self).token.state),
            final(self).aside(*old(self)),
            final(self).token.current() == old(self).token.current(),
            final(self).token.runtime.syscalls == old(self).token.runtime.syscalls,
            store::kept(
                old(self).token.runtime.blockstore@,
                final(self).token.runtime.blockstore@,
            ),
            brought(
                old(self).token.runtime.blockstore@,
                blocks@,
                final(self).token.runtime.blockstore@,
            ),
    {
        let ghost start = *self;
        let ghost all = blocks@;
        let mut blocks = blocks;
        while blocks.len() > 0
            invariant
                *final(self.token.state) == *final(start.token.state),
                self.aside(start),
                self.token.current() == start.token.current(),
                self.token.runtime.syscalls == start.token.runtime.syscalls,
                store::kept(start.token.runtime.blockstore@, self.token.runtime.blockstore@),
                blocks.len() <= all.len(),
                blocks@ == all.take(blocks.len() as int),
                brought(
                    start.token.runtime.blockstore@,
                    all.skip(blocks.len() as int),
                    self.token.runtime.blockstore@,
                ),
            decreases blocks.len(),
        {
            let ghost between = self.token.runtime.blockstore@;
            let ghost left = blocks.len() as int;
            if let Some(block) = blocks.pop() {
                let _ = self.token.runtime.blockstore.put(block);
                proof {
                    store::lemma_kept_trans(
                        start.token.runtime.blockstore@,
                        between,
                        self.token.runtime.blockstore@,
                    );
                    lemma_brought_one_more(
                        start.token.runtime.blockstore@,
                        between,
                        self.token.runtime.blockstore@,
                        all,
                        left - 1,
                    );
                }
            }
        }
        proof {
            assert(all.skip(0) == all);
        }
    }

    /// Takes over the token under the root of the actor's state, where that is not the block given
    pub fn reload(&mut self, initial_cid: &Cid) -> (r: Result<(), RuntimeError>)
        ensures
            *final(final(self).token.state) == *final(old(self).token.state),
            final(self).token.runtime.syscalls == old(self).token.runtime.syscalls,
            final(self).moved_on(*old(self)),
            r is Err ==> final(self).record() == old(self).record() && final(self).token.current()
                == old(self).token.current(),
            match old(self).token.runtime.syscalls.state_root() {
                None => r is Err && r->Err_0 is NoState && *final(self) == *old(self),
                Some(root) => if root == initial_cid@ {
                    r is Ok && *final(self) == *old(self)
                } else {
                    exists|r0: &mut R, cid: Cid, found: Result<Vec<Vec<u8>>, ErrorNumber>|
                        {
                            &&& *r0 == old(self).roots
                            &&& *final(r0) == final(self).roots
                            &&& cid@ == root
                            &&& #[trigger] call_ensures(R::blocks_under, (r0, &cid), found)
                            &&& taken_over(*old(self), *final(self), root, found, r)
                        }
                },
            },
    {
        let new_cid = match self.token.runtime.root_cid() {
            Ok(cid) => cid,
            Err(ActorError::NoState(e)) => return Err(RuntimeError::NoState(e)),
        };
        if new_cid.same(initial_cid) {
            return Ok(());
        }
        let blocks = match self.roots.blocks_under(&new_cid) {
            Ok(blocks) => blocks,
            Err(e) => return Err(RuntimeError::Blockstore(e)),
        };
        self.bring(blocks);
        let loaded = match FactoryToken::load(&self.token.runtime.blockstore, &new_cid) {
            Ok(loaded) => loaded,
            Err(e) => return Err(e),
        };
        let _ = self.token.replace(loaded.token);
        self.token.granularity = loaded.granularity;
        self.name = loaded.name;
        self.symbol = loaded.symbol;
        self.minter = loaded.minter;
        assert(stored(self.token.runtime.blockstore@, new_cid@, self.record()));
        Ok(())
    }

    /// Calls a receiver hook: the state is flushed before the call, and taken over from the actor's
    /// root after it, in case the receiver changed it
    ///
    /// A token that was taken over and cannot be read is not worked with any further.
    pub fn deliver<T: RecipientData>(&mut self, hook: ReceiverHook<T>) -> (r: Result<T, RuntimeError>)
        requires
            old(self).token.readable(),
            !hook.called,
            hook.ready(),
        ensures
            *final(final(self).token.state) == *final(old(self).token.state),
            delivered(*old(self), *final(self), hook, r),
            store::storable(old(self).token.current().supply@) ==> exists|
                r0: &mut R,
                bs: Store,
                cid: Cid,
                done: Result<(), ErrorNumber>,
            |
                {
                    &&& *r0 == old(self).roots
                    &&& #[trigger] call_ensures(R::set_root, (r0, &bs, &cid), done)
                    &&& stored(bs@, cid@, old(self).record())
                    &&& store::kept(old(self).token.runtime.blockstore@, bs@)
                    &&& match done {
                        Err(e) => {
                            &&& final(self).roots == *final(r0)
                            &&& final(self).token.runtime.blockstore == bs
                            &&& final(self).token.runtime.syscalls
                                == old(self).token.runtime.syscalls
                            &&& r == Err::<T, RuntimeError>(RuntimeError::Blockstore(e))
                        },
                        Ok(_) => exists|
                            m: &mut ActorRuntime<S>,
                            block: Option<IpldBlock>,
                            value: TokenAmount,
                            answer: Result<Response, MessagingError>,
                            q: Result<T, ReceiverHookError>,
                        |
                            {
                                &&& m.blockstore == bs
                                &&& m.syscalls == old(self).token.runtime.syscalls
                                &&& bytes::block_view(block) == hook.message().params
                                &&& value@ == 0
                                &&& #[trigger] call_ensures(
                                    <ActorRuntime<S> as Messaging>::send,
                                    (m, &hook.address, RECEIVER_HOOK_METHOD_NUM, block, value),
                                    answer,
                                )
                                &&& #[trigger] hook.reports(answer, q)
                                &&& match q {
                                    Err(e) => {
                                        &&& final(self).roots == *final(r0)
                                        &&& final(self).token.runtime == *final(m)
                                        &&& r == Err::<T, RuntimeError>(RuntimeError::Receiver(e))
                                    },
                                    Ok(told) => exists|t: &mut Self, w: Result<(), RuntimeError>|
                                        {
                                            &&& t.record() == old(self).record()
                                            &&& t.token.runtime == *final(m)
                                            &&& t.roots == *final(r0)
                                            &&& *final(t) == *final(self)
                                            &&& #[trigger] call_ensures(Self::reload, (t, &cid), w)
                                            &&& passed_on(final(self).token, told, w, r)
                                        },
                                }
                            },
                    }
                },
    {
        let cid = match self.flush() {
            Ok(cid) => cid,
            Err(e) => return Err(e),
        };
        let ghost called = hook;
        let mut hook = hook;
        let answer = match hook.call(&mut self.token.runtime) {
            Ok(answer) => answer,
            Err(e) => return Err(RuntimeError::Receiver(e)),
        };
        let ghost data = choose|data: Seq<u8>| #[trigger]
            called.result_data->0.completed_by(data, &answer);
        let ghost between = *self;
        let reloaded = self.reload(&cid);
        proof {
            store::lemma_kept_trans(
                old(self).token.runtime.blockstore@,
                between.token.runtime.blockstore@,
                self.token.runtime.blockstore@,
            );
        }
        match reloaded {
            Ok(()) => {
                if self.token.state().hamt_bit_width >= 32 {
                    return Err(RuntimeError::Deserialization("unusable token".to_owned()));
                }
                let r: Result<T, RuntimeError> = Ok(answer);
                assert(called.result_data->0.completed_by(data, &r->Ok_0));
                r
            },
            Err(e) => Err(e),
        }
    }
}

/// Whether a block holds the record of a factory token.
pub open spec fn stored(blocks: Blocks, cid: Seq<u8>, record: FactoryRecord) -> bool {
    store::cbor_codec(cid) && blocks.contains_key(cid) && state::factory_record(blocks[cid])
        == Some(record)
}

/// Whether the token under a root was taken over with the blocks that were found under it: they
/// are in the store, and the token is the one that the root holds. It is as it was where the blocks
/// could not be had, and where the root holds no token.
pub open spec fn taken_over<'st, S: Syscalls, R: Roots>(
    before: FactoryActor<'st, S, R>,
    after: FactoryActor<'st, S, R>,
    root: Seq<u8>,
    found: Result<Vec<Vec<u8>>, ErrorNumber>,
    r: Result<(), RuntimeError>,
) -> bool {
    let blocks = after.token.runtime.blockstore@;
    match found {
        Ok(found) => {
            &&& brought(before.token.runtime.blockstore@, found@, blocks)
            &&& if exists|record: FactoryRecord| #[trigger] stored(blocks, root, record) {
                r is Ok && stored(blocks, root, after.record())
            } else {
                r is Err && r->Err_0 is Deserialization
            }
        },
        Err(e) => r == Err::<(), RuntimeError>(RuntimeError::Blockstore(e)) && blocks
            == before.token.runtime.blockstore@,
    }
}

/// Whether what a receiver said is returned when the token was taken over again, unless that failed
/// or the token cannot be read.
pub open spec fn passed_on<'st, S: Syscalls, T>(
    now: Token<'st, S>,
    told: T,
    reloaded: Result<(), RuntimeError>,
    r: Result<T, RuntimeError>,
) -> bool {
    match reloaded {
        Ok(_) => if now.readable() {
            r == Ok::<T, RuntimeError>(told)
        } else {
            r is Err && r->Err_0 is Deserialization
        },
        Err(e) => r == Err::<T, RuntimeError>(e),
    }
}

/// Whether a receiver hook was called with the token flushed and the actor's root set to it, and
/// the token is now the one under the actor's root. The hook is called at most once, and only if
/// the state could be flushed.
pub open spec fn delivered<'st, S: Syscalls, R: Roots, T: RecipientData>(
    before: FactoryActor<'st, S, R>,
    after: FactoryActor<'st, S, R>,
    hook: ReceiverHook<T>,
    r: Result<T, RuntimeError>,
) -> bool {
    let sent = after.token.runtime.syscalls.sent();
    let earlier = before.token.runtime.syscalls.sent();
    &&& after.moved_on(before)
    &&& !store::storable(before.token.current().supply@) ==> r is Err && r->Err_0 is Serialization
    &&& store::storable(before.token.current().supply@) ==> exists|
        r0: &mut R,
        bs: Store,
        cid: Cid,
        done: Result<(), ErrorNumber>,
    |
        {
            &&& *r0 == before.roots
            &&& #[trigger] call_ensures(R::set_root, (r0, &bs, &cid), done)
            &&& stored(bs@, cid@, before.record())
            &&& store::kept(before.token.runtime.blockstore@, bs@)
            &&& store::kept(bs@, after.token.runtime.blockstore@)
            &&& match done {
                Ok(_) => sent == earlier.push(hook.message()),
                Err(e) => sent == earlier && r == Err::<T, RuntimeError>(
                    RuntimeError::Blockstore(e),
                ),
            }
        }
    &&& match r {
        Ok(_) => {
            &&& sent == earlier.push(hook.message())
            &&& exists|data: Seq<u8>| #[trigger] hook.result_data->0.completed_by(
                data,
                &r->Ok_0,
            )
            &&& after.token.readable()
            &&& after.token.runtime.syscalls.state_root() is Some
            &&& stored(
                after.token.runtime.blockstore@,
                after.token.runtime.syscalls.state_root()->0,
                after.record(),
            )
        },
        Err(RuntimeError::Serialization(_)) => sent == earlier && !store::storable(
            before.token.current().supply@,
        ) && after.record() == before.record() && after.roots == before.roots,
        Err(RuntimeError::Blockstore(_)) => (sent == earlier || sent == earlier.push(
            hook.message(),
        )) && after.record() == before.record(),
        Err(RuntimeError::Deserialization(_)) => sent == earlier.push(hook.message()) && (
        after.record() == before.record() || !after.token.readable()),
        Err(e) => {
            &&& sent == earlier.push(hook.message())
            &&& after.record() == before.record()
            &&& e is Receiver || e is NoState
        },
    }
}

/// Whether an error says that the trees of the token cannot be read.
pub open spec fn unreadable(e: RuntimeError) -> bool {
    e is Token && e->Token_0@ == TokenFault::State(StateFault::Storage)
}

/// Whether a transfer is answered with the balances as they are now.
pub open spec fn transfer_answered<'st, S: Syscalls>(
    now: Token<'st, S>,
    answer: TransferIntermediate,
    r: Result<TransferReturn, RuntimeError>,
) -> bool {
    &&& now.books() is Some ==> r is Ok && r->Ok_0.from_balance@ == now.balance_at(answer.from@)
        && r->Ok_0.to_balance@ == now.balance_at(answer.to@)
    &&& r is Ok ==> r->Ok_0.recipient_data == answer.recipient_data
    &&& r is Err ==> unreadable(r->Err_0)
}

/// Whether a delegated transfer is answered with the balances and the allowance as they are now.
pub open spec fn transfer_from_answered<'st, S: Syscalls>(
    now: Token<'st, S>,
    answer: TransferFromIntermediate,
    r: Result<TransferFromReturn, RuntimeError>,
) -> bool {
    &&& now.books() is Some ==> r is Ok && r->Ok_0.from_balance@ == now.balance_at(answer.from@)
        && r->Ok_0.to_balance@ == now.balance_at(answer.to@) && r->Ok_0.allowance@
        == now.allowance_at(answer.from@, answer.operator@)
    &&& r is Ok ==> r->Ok_0.recipient_data == answer.recipient_data
    &&& r is Err ==> unreadable(r->Err_0)
}

/// Whether a mint is answered with the balance and the supply as they are now.
pub open spec fn mint_answered<'st, S: Syscalls>(
    now: Token<'st, S>,
    answer: MintIntermediate,
    r: Result<MintReturn, RuntimeError>,
) -> bool {
    &&& now.books() is Some ==> r is Ok && r->Ok_0.balance@ == now.balance_at(answer.recipient@)
    &&& r is Ok ==> r->Ok_0.supply@ == now.current().supply@ && r->Ok_0.recipient_data
        == answer.recipient_data
    &&& r is Err ==> unreadable(r->Err_0)
}

/// Implementation of the token API in a FVM actor
///
/// Here the parameter structs are passed to the underlying library functions
impl<'st, S: Syscalls, R: Roots> FRC46Token for FactoryActor<'st, S, R> {
    type TokenError = RuntimeError;

    open spec fn readable(&self) -> bool {
        self.token.readable()
    }

    open spec fn usable(&self) -> bool {
        self.token.usable()
    }

    fn name(&self) -> (r: String)
        ensures
            r@ == self.name@,
    {
        self.name.clone()
    }

    fn symbol(&self) -> (r: String)
        ensures
            r@ == self.symbol@,
    {
        self.symbol.clone()
    }

    fn granularity(&self) -> (r: GranularityReturn)
        ensures
            r == self.token.granularity,
    {
        self.token.granularity()
    }

    fn total_supply(&mut self) -> (r: TotalSupplyReturn)
        ensures
            *final(self) == *old(self),
            r@ == old(self).token.current().supply@,
    {
        self.token.total_supply()
    }

    fn balance_of(&mut self, params: Address) -> (r: Result<BalanceReturn, RuntimeError>)
        ensures
            *final(self) == *old(self),
            old(self).token.books() is Some ==> r is Ok && r->Ok_0@ == old(self).token.balance_at(
                params@,
            ),
            r is Err ==> unreadable(r->Err_0),
    {
        match self.token.balance_of(&params) {
            Ok(balance) => Ok(balance),
            Err(e) => Err(RuntimeError::Token(e)),
        }
    }

    fn allowance(&mut self, params: GetAllowanceParams) -> (r: Result<AllowanceReturn, RuntimeError>)
        ensures
            *final(self) == *old(self),
            old(self).token.books() is Some ==> r is Ok && r->Ok_0@ == old(self).token.allowance_at(
                params.owner@,
                params.operator@,
            ),
            r is Err ==> unreadable(r->Err_0),
    {
        match self.token.allowance(&params.owner, &params.operator) {
            Ok(allowance) => Ok(allowance),
            Err(e) => Err(RuntimeError::Token(e)),
        }
    }

    fn increase_allowance(&mut self, params: IncreaseAllowanceParams) -> (r: Result<AllowanceReturn, RuntimeError>)
        ensures
            *final(final(self).token.state) == *final(old(self).token.state),
            final(self).aside(*old(self)),
            exists|q: Result<AllowanceReturn, TokenError>| #[trigger]
                token::allowance_increased(
                    old(self).token,
                    final(self).token,
                    AddressView::ID(old(self).caller),
                    params.operator@,
                    params.increase@,
                    q,
                ) && r == (match q {
                    Ok(res) => Ok(res),
                    Err(e) => Err(RuntimeError::Token(e)),
                }),
    {
        let caller = Address::new_id(self.caller);
        match self.token.increase_allowance(&caller, &params.operator, &params.increase) {
            Ok(res) => Ok(res),
            Err(e) => Err(RuntimeError::Token(e)),
        }
    }

    fn decrease_allowance(&mut self, params: DecreaseAllowanceParams) -> (r: Result<AllowanceReturn, RuntimeError>)
        ensures
            *final(final(self).token.state) == *final(old(self).token.state),
            final(self).aside(*old(self)),
            exists|q: Result<AllowanceReturn, TokenError>| #[trigger]
                token::allowance_decreased(
                    old(self).token,
                    final(self).token,
                    AddressView::ID(old(self).caller),
                    params.operator@,
                    params.decrease@,
                    q,
                ) && r == (match q {
                    Ok(res) => Ok(res),
                    Err(e) => Err(RuntimeError::Token(e)),
                }),
    {
        let caller = Address::new_id(self.caller);
        match self.token.decrease_allowance(&caller, &params.operator, &params.decrease) {
            Ok(res) => Ok(res),
            Err(e) => Err(RuntimeError::Token(e)),
        }
    }

    fn revoke_allowance(&mut self, params: RevokeAllowanceParams) -> (r: Result<(), RuntimeError>)
        ensures
            *final(final(self).token.state) == *final(old(self).token.state),
            final(self).aside(*old(self)),
            exists|q: Result<TokenAmount, TokenError>| #[trigger]
                token::revoked(
                    old(self).token,
                    final(self).token,
                    AddressView::ID(old(self).caller),
                    params.operator@,
                    q,
                ) && r == (match q {
                    Ok(_) => Ok(()),
                    Err(e) => Err(RuntimeError::Token(e)),
                }),
    {
        let caller = Address::new_id(self.caller);
        match self.token.revoke_allowance(&caller, &params.operator) {
            Ok(_) => Ok(()),
            Err(e) => Err(RuntimeError::Token(e)),
        }
    }

    fn burn(&mut self, params: BurnParams) -> (r: Result<BurnReturn, RuntimeError>)
        ensures
            *final(final(self).token.state) == *final(old(self).token.state),
            final(self).aside(*old(self)),
            exists|q: Result<BurnReturn, TokenError>| #[trigger]
                token::burnt(
                    old(self).token,
                    final(self).token,
                    AddressView::ID(old(self).caller),
                    params.amount@,
                    q,
                ) && r == (match q {
                    Ok(res) => Ok(res),
                    Err(e) => Err(RuntimeError::Token(e)),
                }),
    {
        let caller = Address::new_id(self.caller);
        match self.token.burn(&caller, &params.amount) {
            Ok(res) => Ok(res),
            Err(e) => Err(RuntimeError::Token(e)),
        }
    }

    fn burn_from(&mut self, params: BurnFromParams) -> (r: Result<BurnFromReturn, RuntimeError>)
        ensures
            *final(final(self).token.state) == *final(old(self).token.state),
            final(self).aside(*old(self)),
            exists|q: Result<BurnFromReturn, TokenError>| #[trigger]
                token::burnt_from(
                    old(self).token,
                    final(self).token,
                    AddressView::ID(old(self).caller),
                    params.owner@,
                    params.amount@,
                    q,
                ) && r == (match q {
                    Ok(res) => Ok(res),
                    Err(e) => Err(RuntimeError::Token(e)),
                }),
    {
        let caller = Address::new_id(self.caller);
        match self.token.burn_from(&caller, &params.owner, &params.amount) {
            Ok(res) => Ok(res),
            Err(e) => Err(RuntimeError::Token(e)),
        }
    }

    fn transfer(&mut self, params: TransferParams) -> (r: Result<TransferReturn, RuntimeError>)
        ensures
            *final(final(self).token.state) == *final(old(self).token.state),
            exists|mid: FactoryActor<'st, S, R>, q: Result<ReceiverHook<TransferIntermediate>, TokenError>|
                mid.aside(*old(self)) && #[trigger] token::transferred(
                    old(self).token,
                    mid.token,
                    AddressView::ID(old(self).caller),
                    params.to@,
                    params.amount@,
                    params.operator_data@,
                    Seq::empty(),
                    q,
                ) && match q {
                    Err(e) => r == Err::<TransferReturn, RuntimeError>(RuntimeError::Token(e)) && *final(self) == mid,
                    Ok(hook) => exists|t: &mut FactoryActor<'st, S, R>, d: Result<TransferIntermediate, RuntimeError>|
                        *t == mid && *final(t) == *final(self) && #[trigger] call_ensures(
                            FactoryActor::<'st, S, R>::deliver::<TransferIntermediate>,
                            (t, hook),
                            d,
                        ) && delivered(mid, *final(self), hook, d) && match d {
                            Err(e) => r == Err::<TransferReturn, RuntimeError>(e),
                            Ok(answer) => transfer_answered(final(self).token, answer, r),
                        },
                },
    {
        let caller = Address::new_id(self.caller);
        let hook = match self.token.transfer(
            &caller,
            &params.to,
            &params.amount,
            params.operator_data,
            RawBytes::default(),
        ) {
            Ok(hook) => hook,
            Err(e) => return Err(RuntimeError::Token(e)),
        };
        let ghost mid = *self;
        let delivery = self.deliver(hook);
        let answer = match delivery {
            Ok(answer) => answer,
            Err(e) => return Err(e),
        };
        match self.token.transfer_return(answer) {
            Ok(res) => Ok(res),
            Err(e) => Err(RuntimeError::Token(e)),
        }
    }

    fn transfer_from(&mut self, params: TransferFromParams) -> (r: Result<
        TransferFromReturn,
        RuntimeError,
    >)
        ensures
            *final(final(self).token.state) == *final(old(self).token.state),
            exists|mid: FactoryActor<'st, S, R>, q: Result<ReceiverHook<TransferFromIntermediate>, TokenError>|
                mid.aside(*old(self)) && #[trigger] token::transferred_from(
                    old(self).token,
                    mid.token,
                    AddressView::ID(old(self).caller),
                    params.from@,
                    params.to@,
                    params.amount@,
                    params.operator_data@,
                    Seq::empty(),
                    q,
                ) && match q {
                    Err(e) => r == Err::<TransferFromReturn, RuntimeError>(RuntimeError::Token(e)) && *final(self) == mid,
                    Ok(hook) => exists|t: &mut FactoryActor<'st, S, R>, d: Result<TransferFromIntermediate, RuntimeError>|
                        *t == mid && *final(t) == *final(self) && #[trigger] call_ensures(
                            FactoryActor::<'st, S, R>::deliver::<TransferFromIntermediate>,
                            (t, hook),
                            d,
                        ) && delivered(mid, *final(self), hook, d) && match d {
                            Err(e) => r == Err::<TransferFromReturn, RuntimeError>(e),
                            Ok(answer) => transfer_from_answered(final(self).token, answer, r),
                        },
                },
    {
        let caller = Address::new_id(self.caller);
        let hook = match self.token.transfer_from(
            &caller,
            &params.from,
            &params.to,
            &params.amount,
            params.operator_data,
            RawBytes::default(),
        ) {
            Ok(hook) => hook,
            Err(e) => return Err(RuntimeError::Token(e)),
        };
        let ghost mid = *self;
        let delivery = self.deliver(hook);
        let answer = match delivery {
            Ok(answer) => answer,
            Err(e) => return Err(e),
        };
        match self.token.transfer_from_return(answer) {
            Ok(res) => Ok(res),
            Err(e) => Err(RuntimeError::Token(e)),
        }
    }
}

/// Whether a text names the actor that called and the minter, each as `to_string` writes it.
pub open spec fn names_both(text: Seq<char>, caller: ActorID, minter: ActorID) -> bool {
    exists|a: String, b: String|
        {
            &&& #[trigger] to_string_from_display_ensures(&caller, a)
            &&& #[trigger] to_string_from_display_ensures(&minter, b)
            &&& text == "caller "@ + a@ + " minter "@ + b@
        }
}

/// The refusal to mint for another actor than the minter
fn not_the_minter(caller: ActorID, minter: ActorID) -> (r: RuntimeError)
    ensures
        r is Serialization,
        names_both(r->Serialization_0@, caller, minter),
{
    let text = "caller ".to_owned().concat(caller.to_string().as_str());
    let text = text.concat(" minter ").concat(minter.to_string().as_str());
    RuntimeError::Serialization(text)
}

impl<'st, S: Syscalls, R: Roots> FactoryActor<'st, S, R> {
    /// Mints tokens, for the minter alone
    ///
    /// no minter address means minting has been permanently disabled
    pub fn mint(&mut self, params: MintParams) -> (r: Result<MintReturn, RuntimeError>)
        requires
            old(self).token.readable(),
            old(self).minter == Some(old(self).caller) ==> old(self).token.usable(),
        ensures
            *final(final(self).token.state) == *final(old(self).token.state),
            r is Ok ==> final(self).token.readable(),
            old(self).minter is None ==> r is Err && r->Err_0 is MintingDisabled && *final(self)
                == *old(self),
            old(self).minter is Some && old(self).minter->0 != old(self).caller ==> r is Err
                && r->Err_0 is Serialization && names_both(
                r->Err_0->Serialization_0@,
                old(self).caller,
                old(self).minter->0,
            ) && *final(self) == *old(self),
            old(self).minter == Some(old(self).caller) ==> (exists|mid: FactoryActor<'st, S, R>, q: Result<ReceiverHook<MintIntermediate>, TokenError>|
                mid.aside(*old(self)) && #[trigger] token::minted(
                    old(self).token,
                    mid.token,
                    AddressView::ID(old(self).caller),
                    params.initial_owner@,
                    params.amount@,
                    params.operator_data@,
                    Seq::empty(),
                    q,
                ) && match q {
                    Err(e) => r == Err::<MintReturn, RuntimeError>(RuntimeError::Token(e)) && *final(self) == mid,
                    Ok(hook) => exists|t: &mut FactoryActor<'st, S, R>, d: Result<MintIntermediate, RuntimeError>|
                        *t == mid && *final(t) == *final(self) && #[trigger] call_ensures(
                            FactoryActor::<'st, S, R>::deliver::<MintIntermediate>,
                            (t, hook),
                            d,
                        ) && delivered(mid, *final(self), hook, d) && match d {
                            Err(e) => r == Err::<MintReturn, RuntimeError>(e),
                            Ok(answer) => mint_answered(final(self).token, answer, r),
                        },
                }),
    {
        let minter = match self.minter {
            Some(minter) => minter,
            None => return Err(RuntimeError::MintingDisabled),
        };
        if self.caller != minter {
            return Err(not_the_minter(self.caller, minter));
        }
        let caller = Address::new_id(self.caller);
        let minted = self.token.mint(
            &caller,
            &params.initial_owner,
            &params.amount,
            params.operator_data,
            RawBytes::default(),
        );
        assert(token::minted(
            old(self).token,
            self.token,
            caller@,
            params.initial_owner@,
            params.amount@,
            params.operator_data@,
            Seq::empty(),
            minted,
        ));
        let hook = match minted {
            Ok(hook) => hook,
            Err(e) => return Err(RuntimeError::Token(e)),
        };
        let ghost mid = *self;
        let delivery = self.deliver(hook);
        let answer = match delivery {
            Ok(answer) => answer,
            Err(e) => return Err(e),
        };
        match self.token.mint_return(answer) {
            Ok(res) => Ok(res),
            Err(e) => Err(RuntimeError::Token(e)),
        }
    }

    /// Permanently disable minting
    /// Only the authorised mint operator can do this
    ///
    /// we return an error if already disabled because it will make more sense than failing the
    /// address check
    pub fn disable_mint(&mut self) -> (r: Result<(), RuntimeError>)
        ensures
            *final(final(self).token.state) == *final(old(self).token.state),
            final(self).token == old(self).token,
            final(self).name == old(self).name,
            final(self).symbol == old(self).symbol,
            final(self).caller == old(self).caller,
            final(self).roots == old(self).roots,
            match old(self).minter {
                None => r is Err && r->Err_0 is MintingDisabled && final(self).minter is None,
                Some(minter) => if minter == old(self).caller {
                    r is Ok && final(self).minter is None
                } else {
                    r is Err && r->Err_0 is AddressNotAuthorized && final(self).minter
                        == old(self).minter
                },
            },
    {
        let minter = match self.minter {
            Some(minter) => minter,
            None => return Err(RuntimeError::MintingDisabled),
        };
        if self.caller != minter {
            return Err(RuntimeError::AddressNotAuthorized);
        }
        self.minter = None;
        Ok(())
    }
}

} // verus!
