//! What the operations through a handle are for, said of what goes in and what comes out.
use vstd::prelude::*;

use crate::address::{Address, AddressView};
use crate::bytes::{ActorID, Cid, RawBytes};
use crate::frc53_nft::collection::{Collection, Holdings};
use crate::frc53_nft::laws as nft_laws;
use crate::frc53_nft::promises::{authorised, counted, delegates, deprived, tally};
use crate::frc53_nft::receiver;
use crate::frc53_nft::state::HAMT_BIT_WIDTH;
use crate::frc53_nft::types::{MintReturn, TransferReturn};
use crate::frcxx_nft::batch::Authority;
use crate::frcxx_nft::batches;
use crate::frcxx_nft::batches::{
    all_there, distinct, given, may_manage, may_move, taken_out,
};
use crate::frcxx_nft::handle::{NFTError, NFT};
use crate::frcxx_nft::promises;
use crate::frcxx_nft::promises::{complete, counts_same, held_by, made, regular};
use crate::frcxx_nft::receiver::FRCXX_TOKEN_TYPE;
use crate::frcxx_nft::state::{MintIntermediate, NFTState, TransferIntermediate};
use crate::fvm_actor_utils::receiver::{ReceiverHook, RecipientData};
use crate::fvm_actor_utils::syscalls::Syscalls;
use crate::fvm_actor_utils::util;
use crate::fvm_actor_utils::util::remembers;
use crate::keys;
use crate::nft_store;
use crate::nft_store::TokenID;
use crate::store;
use crate::store::Store;

verus! {

/// The tokens and owners behind a handle.
pub open spec fn behind<'st, S: Syscalls>(nft: NFT<'st, S>) -> Holdings {
    held_by(*nft.state, nft.runtime.blockstore@)
}

/// Whether both trees behind a handle are complete.
pub open spec fn readable<'st, S: Syscalls>(nft: NFT<'st, S>) -> bool {
    complete(*nft.state, nft.runtime.blockstore@)
}

/// Whether both trees behind a handle are complete, and keep all rules.
pub open spec fn orderly<'st, S: Syscalls>(nft: NFT<'st, S>) -> bool {
    readable(nft) && regular(*nft.state, nft.runtime.blockstore@)
}

/// The actor at an address, as the handle's runtime knows it.
pub open spec fn actor_at<'st, S: Syscalls>(nft: NFT<'st, S>, address: AddressView) -> ActorID {
    nft.runtime.syscalls.resolves(address)->0
}

/// Whether an address stands for an actor.
pub open spec fn known<'st, S: Syscalls>(nft: NFT<'st, S>, address: AddressView) -> bool {
    nft.runtime.syscalls.resolves(address) is Some
}

/// Whether a hook, not called yet, tells the receiver at an address of tokens: whose they are, who
/// moved them, which they are, and the data of the operator and of the token.
pub open spec fn tells<T: RecipientData>(
    hook: ReceiverHook<T>,
    address: AddressView,
    to: ActorID,
    operator: ActorID,
    ids: Seq<TokenID>,
    operator_data: Seq<u8>,
    token_data: Seq<u8>,
) -> bool {
    &&& hook.address@ == address
    &&& hook.token_type == FRCXX_TOKEN_TYPE
    &&& hook.token_params@ == receiver::tokens_received_cbor(
        to,
        operator,
        ids,
        operator_data,
        token_data,
    )
    &&& !hook.called
    &&& hook.result_data is Some
}

/// A state that did not change reads the same.
proof fn lemma_unchanged<'st, S: Syscalls>(before: NFT<'st, S>, after: NFT<'st, S>)
    requires
        readable(before),
        *after.state == *before.state,
        store::kept(before.runtime.blockstore@, after.runtime.blockstore@),
    ensures
        readable(after),
        behind(after) == behind(before),
{
    let blocks = before.runtime.blockstore@;
    assert(nft_store::tokens_at(blocks, before.state.token_data@) is Some);
    assert(nft_store::owners_at(blocks, before.state.owner_data@, HAMT_BIT_WIDTH) is Some);
}

/// A revocation takes the operator off each token of the list and leaves all its other operators, its
/// owner and its metadata. All other tokens and the accounts are as they were. The caller may manage the
/// tokens. A refused revocation changes nothing, and who may manage the tokens is not refused. An
/// operator that stands for no actor has nothing that could be taken back.
pub proof fn a_revocation_takes_the_operator_off<'st, S: Syscalls>(
    nft: &mut NFT<'st, S>,
    caller: &Address,
    operator: &Address,
    ids: &Vec<TokenID>,
    r: Result<(), NFTError>,
)
    requires
        orderly(*old(nft)),
        call_ensures(NFT::<'st, S>::revoke, (nft, caller, operator, ids), r),
    ensures
        readable(*final(nft)),
        final(nft).runtime.syscalls == old(nft).runtime.syscalls,
        counts_same(*old(nft).state, *final(nft).state),
        behind(*final(nft)).owners == behind(*old(nft)).owners,
        !known(*old(nft), caller@) ==> r is Err,
        r is Err ==> behind(*final(nft)) == behind(*old(nft)),
        r is Ok && !known(*old(nft), operator@) ==> behind(*final(nft)) == behind(*old(nft)),
        known(*old(nft), caller@) && !known(*old(nft), operator@) ==> r is Ok,
        r is Ok && known(*old(nft), operator@) ==> {
            &&& deprived(
                behind(*old(nft)).tokens,
                behind(*final(nft)).tokens,
                ids@,
                actor_at(*old(nft), operator@),
            )
            &&& all_there(behind(*old(nft)), ids@)
            &&& forall|i: int|
                0 <= i < ids@.len() ==> may_manage(
                    behind(*old(nft)),
                    #[trigger] ids@[i],
                    actor_at(*old(nft), caller@),
                )
        },
        known(*old(nft), caller@) && known(*old(nft), operator@) && actor_at(*old(nft), operator@)
            < u64::MAX && all_there(behind(*old(nft)), ids@) && (forall|i: int|
            0 <= i < ids@.len() ==> may_manage(
                behind(*old(nft)),
                #[trigger] ids@[i],
                actor_at(*old(nft), caller@),
            ) && nft_store::few(
                behind(*old(nft)).tokens[ids@[i]].1.insert(actor_at(*old(nft), operator@)),
            )) ==> r is Ok,
{
    let held = behind(*old(nft));
    let whole = old(nft).scene().whole();
    let authority = Authority::Manager(actor_at(*old(nft), caller@));
    let op = actor_at(*old(nft), operator@);
    assert(whole.held == held);
    assert(ids@.take(ids@.len() as int) =~= ids@);
    if *final(nft).state == *old(nft).state {
        lemma_unchanged(*old(nft), *final(nft));
    }
    if known(*old(nft), caller@) && known(*old(nft), operator@) {
        if r is Ok {
            batches::checked_all_entitled(authority, held, ids@);
            batches::a_batch_of_revocations(held, ids@, ids@.len(), Authority::Granted, op);
            assert(final(nft).scene().whole().held == behind(*final(nft)));
            assert forall|i: int| 0 <= i < ids@.len() implies may_manage(
                held,
                #[trigger] ids@[i],
                actor_at(*old(nft), caller@),
            ) by {
                assert(batches::entitled(authority, held, ids@[i]));
            }
        } else if op < u64::MAX && all_there(held, ids@) && (forall|i: int|
            0 <= i < ids@.len() ==> may_manage(
                held,
                #[trigger] ids@[i],
                actor_at(*old(nft), caller@),
            ) && nft_store::few(held.tokens[ids@[i]].1.insert(op))) {
            lemma_may_manage(whole, ids@, actor_at(*old(nft), caller@));
            assert(batches::all_entitled(Authority::Granted, held, ids@));
            batches::the_entitled_change_operators(
                whole,
                ids@,
                ids@.len(),
                Authority::Granted,
                op,
            );
            assert(false);
        }
    }
}

/// Who may manage all tokens of a list passes the check.
proof fn lemma_may_manage(whole: Collection, ids: Seq<TokenID>, actor: ActorID)
    requires
        whole.regular(),
        all_there(whole.held, ids),
        forall|i: int| 0 <= i < ids.len() ==> may_manage(whole.held, #[trigger] ids[i], actor),
    ensures
        Authority::Manager(actor).checked_all(whole.held, ids, ids.len()) is Ok,
{
    assert forall|i: int| 0 <= i < ids.len() implies batches::entitled(
        Authority::Manager(actor),
        whole.held,
        #[trigger] ids[i],
    ) by {}
    batches::entitled_all_checked(Authority::Manager(actor), whole.held, ids);
}

/// An approval gives each token of the list the operator beside those that it had, and leaves its owner
/// and its metadata. All other tokens and the accounts are as they were. The caller may manage the
/// tokens. A refused approval changes nothing, and who may manage the tokens is not refused where the
/// operator stands for an actor.
pub proof fn an_approval_adds_the_operator<'st, S: Syscalls>(
    nft: &mut NFT<'st, S>,
    caller: &Address,
    operator: &Address,
    ids: &Vec<TokenID>,
    r: Result<(), NFTError>,
)
    requires
        orderly(*old(nft)),
        call_ensures(NFT::<'st, S>::approve, (nft, caller, operator, ids), r),
    ensures
        !known(*old(nft), caller@) ==> r is Err,
        r is Err ==> *final(nft).state == *old(nft).state,
        r is Ok ==> {
            &&& readable(*final(nft))
            &&& counts_same(*old(nft).state, *final(nft).state)
            &&& behind(*final(nft)).owners == behind(*old(nft)).owners
            &&& remembers(old(nft).runtime.syscalls, final(nft).runtime.syscalls)
            &&& known(*final(nft), operator@)
            &&& authorised(
                behind(*old(nft)).tokens,
                behind(*final(nft)).tokens,
                ids@,
                actor_at(*final(nft), operator@),
            )
            &&& all_there(behind(*old(nft)), ids@)
            &&& forall|i: int|
                0 <= i < ids@.len() ==> may_manage(
                    behind(*old(nft)),
                    #[trigger] ids@[i],
                    actor_at(*old(nft), caller@),
                )
        },
        known(*old(nft), caller@) && known(*old(nft), operator@) && actor_at(*old(nft), operator@)
            < u64::MAX && all_there(behind(*old(nft)), ids@) && (forall|i: int|
            0 <= i < ids@.len() ==> may_manage(
                behind(*old(nft)),
                #[trigger] ids@[i],
                actor_at(*old(nft), caller@),
            ) && nft_store::few(
                behind(*old(nft)).tokens[ids@[i]].1.insert(actor_at(*old(nft), operator@)),
            )) ==> r is Ok,
{
    let held = behind(*old(nft));
    let whole = old(nft).scene().whole();
    let authority = Authority::Manager(actor_at(*old(nft), caller@));
    let op = actor_at(*final(nft), operator@);
    assert(whole.held == held);
    assert(ids@.take(ids@.len() as int) =~= ids@);
    if known(*old(nft), caller@) {
        if r is Ok {
            util::one_is_resolved(
                old(nft).runtime.syscalls,
                final(nft).runtime.syscalls,
                operator@,
                op,
            );
            batches::checked_all_entitled(authority, held, ids@);
            batches::a_batch_of_approvals(held, ids@, ids@.len(), Authority::Granted, op);
            assert(final(nft).scene().whole().held == behind(*final(nft)));
            assert forall|i: int| 0 <= i < ids@.len() implies may_manage(
                held,
                #[trigger] ids@[i],
                actor_at(*old(nft), caller@),
            ) by {
                assert(batches::entitled(authority, held, ids@[i]));
            }
        } else if known(*old(nft), operator@) && actor_at(*old(nft), operator@) < u64::MAX
            && all_there(held, ids@) && (forall|i: int|
            0 <= i < ids@.len() ==> may_manage(
                held,
                #[trigger] ids@[i],
                actor_at(*old(nft), caller@),
            ) && nft_store::few(
                held.tokens[ids@[i]].1.insert(actor_at(*old(nft), operator@)),
            )) {
            lemma_may_manage(whole, ids@, actor_at(*old(nft), caller@));
            assert(batches::all_entitled(Authority::Granted, held, ids@));
            batches::the_entitled_change_operators(
                whole,
                ids@,
                ids@.len(),
                Authority::Granted,
                actor_at(*old(nft), operator@),
            );
            assert(false);
        }
    }
}

/// An approval for an account adds the delegate to those that it had. Counts, other accounts and all
/// tokens are as they were. A refused approval changes nothing.
pub proof fn an_account_approval_adds_the_delegate<'st, S: Syscalls>(
    nft: &mut NFT<'st, S>,
    owner: &Address,
    operator: &Address,
    r: Result<(), NFTError>,
)
    requires
        orderly(*old(nft)),
        call_ensures(NFT::<'st, S>::approve_for_owner, (nft, owner, operator), r),
    ensures
        !known(*old(nft), owner@) ==> r is Err,
        r is Err ==> *final(nft).state == *old(nft).state,
        r is Ok ==> {
            &&& readable(*final(nft))
            &&& counts_same(*old(nft).state, *final(nft).state)
            &&& behind(*final(nft)).tokens == behind(*old(nft)).tokens
            &&& known(*final(nft), operator@)
            &&& remembers(old(nft).runtime.syscalls, final(nft).runtime.syscalls)
            &&& forall|actor: ActorID| #[trigger]
                counted(behind(*final(nft)).owners, actor) == counted(
                    behind(*old(nft)).owners,
                    actor,
                )
            &&& forall|actor: ActorID, x: ActorID| #[trigger]
                delegates(behind(*final(nft)).owners, actor).contains(x) <==> delegates(
                    behind(*old(nft)).owners,
                    actor,
                ).contains(x) || (actor == actor_at(*old(nft), owner@) && x == actor_at(
                    *final(nft),
                    operator@,
                ))
        },
        known(*old(nft), owner@) && known(*old(nft), operator@) && actor_at(*old(nft), operator@)
            < u64::MAX && nft_store::few(
            delegates(behind(*old(nft)).owners, actor_at(*old(nft), owner@)).insert(
                actor_at(*old(nft), operator@),
            ),
        ) ==> r is Ok,
{
    let before = behind(*old(nft)).owners;
    let after = behind(*final(nft)).owners;
    let id = actor_at(*old(nft), owner@);
    let op = actor_at(*final(nft), operator@);
    assert(old(nft).scene().whole().held.owners == before);
    if r is Ok {
        util::one_is_resolved(
            old(nft).runtime.syscalls,
            final(nft).runtime.syscalls,
            operator@,
            op,
        );
        assert(final(nft).scene().whole().held.owners == after);
        assert forall|actor: ActorID| #[trigger] counted(after, actor) == counted(
            before,
            actor,
        ) by {
            keys::keys_differ(actor, id);
        }
        assert forall|actor: ActorID, x: ActorID| #[trigger]
            delegates(after, actor).contains(x) <==> delegates(before, actor).contains(x) || (actor
                == id && x == op) by {
            keys::keys_differ(actor, id);
        }
    }
}

/// A revocation for an account takes the delegate off those that it had. Counts, other accounts and all
/// tokens are as they were. A refused revocation changes nothing.
pub proof fn an_account_revocation_takes_the_delegate_off<'st, S: Syscalls>(
    nft: &mut NFT<'st, S>,
    owner: &Address,
    operator: &Address,
    r: Result<(), NFTError>,
)
    requires
        orderly(*old(nft)),
        call_ensures(NFT::<'st, S>::revoke_for_all, (nft, owner, operator), r),
    ensures
        final(nft).runtime.syscalls == old(nft).runtime.syscalls,
        !known(*old(nft), owner@) ==> r is Err,
        r is Err ==> *final(nft).state == *old(nft).state,
        r is Ok ==> {
            &&& readable(*final(nft))
            &&& counts_same(*old(nft).state, *final(nft).state)
            &&& behind(*final(nft)).tokens == behind(*old(nft)).tokens
            &&& forall|actor: ActorID| #[trigger]
                counted(behind(*final(nft)).owners, actor) == counted(
                    behind(*old(nft)).owners,
                    actor,
                )
            &&& forall|actor: ActorID, x: ActorID| #[trigger]
                delegates(behind(*final(nft)).owners, actor).contains(x) <==> delegates(
                    behind(*old(nft)).owners,
                    actor,
                ).contains(x) && !(known(*old(nft), operator@) && actor == actor_at(
                    *old(nft),
                    owner@,
                ) && x == actor_at(*old(nft), operator@))
        },
        known(*old(nft), owner@) && nft_store::few(
            delegates(behind(*old(nft)).owners, actor_at(*old(nft), owner@)),
        ) ==> r is Ok,
{
    let before = behind(*old(nft)).owners;
    let after = behind(*final(nft)).owners;
    let id = actor_at(*old(nft), owner@);
    let op = actor_at(*old(nft), operator@);
    let had = delegates(before, id);
    assert(old(nft).scene().whole().held.owners == before);
    if nft_store::few(had) {
        vstd::set_lib::lemma_len_subset(had.remove(op), had);
    }
    if *final(nft).state == *old(nft).state {
        if r is Ok {
            lemma_scene_kept(*old(nft), *final(nft));
        }
    }
    if r is Ok && known(*old(nft), operator@) {
        assert(final(nft).scene().whole().held.owners == after);
        assert forall|actor: ActorID| #[trigger] counted(after, actor) == counted(
            before,
            actor,
        ) by {
            keys::keys_differ(actor, id);
        }
        assert forall|actor: ActorID, x: ActorID| #[trigger]
            delegates(after, actor).contains(x) <==> delegates(before, actor).contains(x) && !(actor
                == id && x == op) by {
            keys::keys_differ(actor, id);
            if actor == id && before.contains_key(keys::key_of(id)) {
                assert(had.remove(op).contains(x) == (had.contains(x) && x != op));
            }
        }
    }
}

/// A state that did not change reads the same, where nothing or more is stored.
proof fn lemma_scene_kept<'st, S: Syscalls>(before: NFT<'st, S>, after: NFT<'st, S>)
    requires
        readable(before),
        *after.state == *before.state,
        after.scene() == before.scene() || store::kept(
            before.runtime.blockstore@,
            after.runtime.blockstore@,
        ),
    ensures
        readable(after),
        behind(after) == behind(before),
{
    if after.scene() == before.scene() {
        assert(after.runtime.blockstore@ == before.scene().blocks);
    } else {
        lemma_unchanged(before, after);
    }
}

/// A burn takes exactly the tokens of the list out, each of which was there, named once and the owner's.
/// The owner's count, which is returned, and the supply shrink by their number. All else stays as it
/// was. A refused burn changes nothing, and the owner of the tokens is not refused.
pub proof fn a_burn_takes_the_tokens_out<'st, S: Syscalls>(
    nft: &mut NFT<'st, S>,
    owner: &Address,
    ids: &Vec<TokenID>,
    r: Result<u64, NFTError>,
)
    requires
        orderly(*old(nft)),
        call_ensures(NFT::<'st, S>::burn, (nft, owner, ids), r),
    ensures
        final(nft).runtime.syscalls == old(nft).runtime.syscalls,
        final(nft).state.next_token == old(nft).state.next_token,
        !known(*old(nft), owner@) ==> r is Err,
        r is Err ==> *final(nft).state == *old(nft).state,
        r is Ok ==> {
            let id = actor_at(*old(nft), owner@);
            &&& readable(*final(nft))
            &&& taken_out(behind(*old(nft)), behind(*final(nft)), ids@)
            &&& forall|i: int|
                0 <= i < ids@.len() ==> behind(*old(nft)).tokens[#[trigger] ids@[i]].0 == id
            &&& r->Ok_0 == tally(behind(*final(nft)).tokens, id)
            &&& r->Ok_0 == tally(behind(*old(nft)).tokens, id) - ids@.len()
            &&& final(nft).state.total_supply == old(nft).state.total_supply - ids@.len()
        },
        known(*old(nft), owner@) && ids@.len() > 0 && distinct(ids@) && all_there(
            behind(*old(nft)),
            ids@,
        ) && (forall|i: int|
            0 <= i < ids@.len() ==> behind(*old(nft)).tokens[#[trigger] ids@[i]].0 == actor_at(
                *old(nft),
                owner@,
            )) ==> r is Ok,
{
    let held = behind(*old(nft));
    let whole = old(nft).scene().whole();
    let id = actor_at(*old(nft), owner@);
    let authority = Authority::Owner(id);
    assert(whole.held == held);
    if known(*old(nft), owner@) {
        if r is Ok {
            batches::checked_all_entitled(authority, held, ids@);
            assert forall|i: int| 0 <= i < ids@.len() implies held.tokens[#[trigger] ids@[i]].0
                == id by {
                assert(batches::entitled(authority, held, ids@[i]));
            }
            promises::lemma_burned(whole, id, ids@, Authority::Granted);
            batches::counts_are_right(held, id);
            assert(final(nft).scene().whole().held == behind(*final(nft)));
        } else if ids@.len() > 0 && distinct(ids@) && all_there(held, ids@) && (forall|i: int|
            0 <= i < ids@.len() ==> held.tokens[#[trigger] ids@[i]].0 == id) {
            assert(batches::all_entitled(authority, held, ids@));
            batches::entitled_all_checked(authority, held, ids@);
            assert(batches::all_entitled(Authority::Granted, held, ids@));
            batches::the_entitled_remove(whole, ids@, ids@.len(), Authority::Granted);
            batches::a_batch_of_removals(held, ids@, ids@.len(), Authority::Granted);
            nft_laws::burn_law(whole, id, ids@);
            assert(false);
        }
    }
}

/// A burn by an operator takes exactly the tokens of the list out, each of which was there, named once,
/// the owner's and open to the operator. The owner's count, which is returned, and the supply shrink by
/// their number. All else stays as it was. A refused burn changes nothing.
pub proof fn an_operator_burn_takes_the_tokens_out<'st, S: Syscalls>(
    nft: &mut NFT<'st, S>,
    owner: &Address,
    operator: &Address,
    ids: &Vec<TokenID>,
    r: Result<u64, NFTError>,
)
    requires
        orderly(*old(nft)),
        call_ensures(NFT::<'st, S>::burn_from, (nft, owner, operator, ids), r),
    ensures
        final(nft).state.next_token == old(nft).state.next_token,
        !known(*old(nft), operator@) ==> r is Err,
        r is Err ==> *final(nft).state == *old(nft).state,
        r is Ok ==> {
            let id = actor_at(*final(nft), owner@);
            &&& readable(*final(nft))
            &&& known(*final(nft), owner@)
            &&& remembers(old(nft).runtime.syscalls, final(nft).runtime.syscalls)
            &&& taken_out(behind(*old(nft)), behind(*final(nft)), ids@)
            &&& forall|i: int|
                0 <= i < ids@.len() ==> behind(*old(nft)).tokens[#[trigger] ids@[i]].0 == id
                    && may_move(behind(*old(nft)), ids@[i], actor_at(*old(nft), operator@))
            &&& r->Ok_0 == tally(behind(*final(nft)).tokens, id)
            &&& r->Ok_0 == tally(behind(*old(nft)).tokens, id) - ids@.len()
            &&& final(nft).state.total_supply == old(nft).state.total_supply - ids@.len()
        },
{
    let held = behind(*old(nft));
    let whole = old(nft).scene().whole();
    let id = actor_at(*final(nft), owner@);
    let op = actor_at(*old(nft), operator@);
    assert(whole.held == held);
    if known(*old(nft), operator@) && r is Ok {
        util::one_is_resolved(
            old(nft).runtime.syscalls,
            final(nft).runtime.syscalls,
            owner@,
            id,
        );
        batches::checked_all_entitled(Authority::Owner(id), held, ids@);
        batches::checked_all_entitled(Authority::Operator(op), held, ids@);
        assert forall|i: int| 0 <= i < ids@.len() implies held.tokens[#[trigger] ids@[i]].0 == id
            && may_move(held, ids@[i], op) by {
            assert(batches::entitled(Authority::Owner(id), held, ids@[i]));
            assert(batches::entitled(Authority::Operator(op), held, ids@[i]));
        }
        promises::lemma_burned(whole, id, ids@, Authority::Granted);
        batches::counts_are_right(held, id);
        assert(final(nft).scene().whole().held == behind(*final(nft)));
    }
}

/// A transfer by the owner gives exactly the tokens of the list to the recipient, without operators. All
/// else stays as it was. The tokens were the owner's. The recipient is told of the tokens, of the
/// owner, and of the data of operator and token, each in its place. A refused transfer changes
/// nothing, and the owner of the tokens is not refused where both stand for actors.
pub proof fn a_transfer_gives_the_tokens<'st, S: Syscalls>(
    nft: &mut NFT<'st, S>,
    owner: &Address,
    recipient: &Address,
    ids: &Vec<TokenID>,
    operator_data: RawBytes,
    token_data: RawBytes,
    r: Result<ReceiverHook<TransferIntermediate>, NFTError>,
)
    requires
        orderly(*old(nft)),
        call_ensures(
            NFT::<'st, S>::transfer,
            (nft, owner, recipient, ids, operator_data, token_data),
            r,
        ),
    ensures
        final(nft).state.next_token == old(nft).state.next_token,
        r is Err ==> *final(nft).state == *old(nft).state,
        r is Ok ==> {
            let from = actor_at(*final(nft), owner@);
            let to = actor_at(*final(nft), recipient@);
            &&& readable(*final(nft))
            &&& counts_same(*old(nft).state, *final(nft).state)
            &&& known(*final(nft), owner@) && known(*final(nft), recipient@)
            &&& remembers(old(nft).runtime.syscalls, final(nft).runtime.syscalls)
            &&& given(behind(*old(nft)), behind(*final(nft)), ids@, to)
            &&& all_there(behind(*old(nft)), ids@)
            &&& forall|i: int|
                0 <= i < ids@.len() ==> behind(*old(nft)).tokens[#[trigger] ids@[i]].0 == from
            &&& tells(r->Ok_0, recipient@, to, from, ids@, operator_data@, token_data@)
            &&& r->Ok_0.result_data->0.from == from
            &&& r->Ok_0.result_data->0.to == to
            &&& r->Ok_0.result_data->0.token_ids@ == ids@
        },
        known(*old(nft), owner@) && known(*old(nft), recipient@) && all_there(
            behind(*old(nft)),
            ids@,
        ) && (forall|i: int|
            0 <= i < ids@.len() ==> behind(*old(nft)).tokens[#[trigger] ids@[i]].0 == actor_at(
                *old(nft),
                owner@,
            )) ==> r is Ok,
{
    let held = behind(*old(nft));
    let whole = old(nft).scene().whole();
    let from = actor_at(*final(nft), owner@);
    let to = actor_at(*final(nft), recipient@);
    let (sooner, later) = (old(nft).runtime.syscalls, final(nft).runtime.syscalls);
    assert(whole.held == held);
    assert(ids@.take(ids@.len() as int) =~= ids@);
    if r is Err && r->Err_0 is Messaging {
        assert(!known(*old(nft), owner@) || !known(*old(nft), recipient@));
    } else {
        util::both_are_resolved(sooner, later, owner@, recipient@, (from, to));
        if r is Ok {
            batches::checked_all_entitled(Authority::Owner(from), held, ids@);
            assert forall|i: int| 0 <= i < ids@.len() implies held.tokens[#[trigger] ids@[i]].0
                == from by {
                assert(batches::entitled(Authority::Owner(from), held, ids@[i]));
            }
            batches::a_batch_of_transfers(whole, ids@, ids@.len(), Authority::Granted, to);
            assert(final(nft).scene().whole().held == behind(*final(nft)));
        } else if known(*old(nft), owner@) && known(*old(nft), recipient@) && all_there(held, ids@)
            && (forall|i: int|
            0 <= i < ids@.len() ==> held.tokens[#[trigger] ids@[i]].0 == from) {
            assert(batches::all_entitled(Authority::Owner(from), held, ids@));
            batches::entitled_all_checked(Authority::Owner(from), held, ids@);
            assert(batches::all_entitled(Authority::Granted, held, ids@));
            batches::the_entitled_transfer(whole, ids@, ids@.len(), Authority::Granted, to);
            assert(false);
        }
    }
}

/// A transfer by an operator gives exactly the tokens of the list to the recipient, without operators.
/// All else stays as it was. The tokens were the owner's, and open to the operator. The recipient is
/// told of the tokens, of the operator, and of the data of operator and token, each in its place. A
/// refused transfer changes nothing, and who may move the owner's tokens is not refused where all
/// stand for actors.
pub proof fn an_operator_transfer_gives_the_tokens<'st, S: Syscalls>(
    nft: &mut NFT<'st, S>,
    owner: &Address,
    operator: &Address,
    recipient: &Address,
    ids: &Vec<TokenID>,
    operator_data: RawBytes,
    token_data: RawBytes,
    r: Result<ReceiverHook<TransferIntermediate>, NFTError>,
)
    requires
        orderly(*old(nft)),
        call_ensures(
            NFT::<'st, S>::transfer_from,
            (nft, owner, operator, recipient, ids, operator_data, token_data),
            r,
        ),
    ensures
        final(nft).state.next_token == old(nft).state.next_token,
        !known(*old(nft), owner@) || !known(*old(nft), operator@) ==> r is Err,
        r is Err ==> *final(nft).state == *old(nft).state,
        r is Ok ==> {
            let from = actor_at(*old(nft), owner@);
            let op = actor_at(*old(nft), operator@);
            let to = actor_at(*final(nft), recipient@);
            &&& readable(*final(nft))
            &&& counts_same(*old(nft).state, *final(nft).state)
            &&& known(*final(nft), recipient@)
            &&& remembers(old(nft).runtime.syscalls, final(nft).runtime.syscalls)
            &&& given(behind(*old(nft)), behind(*final(nft)), ids@, to)
            &&& all_there(behind(*old(nft)), ids@)
            &&& forall|i: int|
                0 <= i < ids@.len() ==> behind(*old(nft)).tokens[#[trigger] ids@[i]].0 == from
                    && may_move(behind(*old(nft)), ids@[i], op)
            &&& tells(r->Ok_0, recipient@, to, op, ids@, operator_data@, token_data@)
            &&& r->Ok_0.result_data->0.from == from
            &&& r->Ok_0.result_data->0.to == to
            &&& r->Ok_0.result_data->0.token_ids@ == ids@
        },
        known(*old(nft), owner@) && known(*old(nft), operator@) && known(*old(nft), recipient@)
            && all_there(behind(*old(nft)), ids@) && (forall|i: int|
            0 <= i < ids@.len() ==> behind(*old(nft)).tokens[#[trigger] ids@[i]].0 == actor_at(
                *old(nft),
                owner@,
            ) && may_move(behind(*old(nft)), ids@[i], actor_at(*old(nft), operator@))) ==> r is Ok,
{
    let held = behind(*old(nft));
    let whole = old(nft).scene().whole();
    let from = actor_at(*old(nft), owner@);
    let op = actor_at(*old(nft), operator@);
    let to = actor_at(*final(nft), recipient@);
    assert(whole.held == held);
    assert(ids@.take(ids@.len() as int) =~= ids@);
    if known(*old(nft), owner@) && known(*old(nft), operator@) {
        if r is Ok {
            util::one_is_resolved(
                old(nft).runtime.syscalls,
                final(nft).runtime.syscalls,
                recipient@,
                to,
            );
            batches::checked_all_entitled(Authority::Owner(from), held, ids@);
            batches::checked_all_entitled(Authority::Operator(op), held, ids@);
            assert forall|i: int| 0 <= i < ids@.len() implies held.tokens[#[trigger] ids@[i]].0
                == from && may_move(held, ids@[i], op) by {
                assert(batches::entitled(Authority::Owner(from), held, ids@[i]));
                assert(batches::entitled(Authority::Operator(op), held, ids@[i]));
            }
            batches::a_batch_of_transfers(whole, ids@, ids@.len(), Authority::Granted, to);
            assert(final(nft).scene().whole().held == behind(*final(nft)));
        } else if known(*old(nft), recipient@) && all_there(held, ids@) && (forall|i: int|
            0 <= i < ids@.len() ==> held.tokens[#[trigger] ids@[i]].0 == from && may_move(
                held,
                ids@[i],
                op,
            )) {
            assert forall|i: int| 0 <= i < ids@.len() implies batches::entitled(
                Authority::Operator(op),
                held,
                #[trigger] ids@[i],
            ) by {
                assert(held.tokens[ids@[i]].0 == from);
            }
            assert forall|i: int| 0 <= i < ids@.len() implies batches::entitled(
                Authority::Owner(from),
                held,
                #[trigger] ids@[i],
            ) by {
                assert(held.tokens[ids@[i]].0 == from);
            }
            batches::entitled_all_checked(Authority::Owner(from), held, ids@);
            batches::entitled_all_checked(Authority::Operator(op), held, ids@);
            assert(batches::all_entitled(Authority::Granted, held, ids@));
            batches::the_entitled_transfer(whole, ids@, ids@.len(), Authority::Granted, to);
            assert(false);
        }
    }
}

/// Minting gives the new tokens the numbers from the next one on, in the order of their metadata, each
/// with the owner and no operators. Everything else stays as it was. The owner is told of the tokens, of
/// the minter, and of the data of operator and token, each in its place. Where both stand for actors
/// it is not refused.
pub proof fn a_mint_makes_the_tokens<'st, S: Syscalls>(
    nft: &mut NFT<'st, S>,
    operator: &Address,
    owner: &Address,
    metadatas: Vec<String>,
    operator_data: RawBytes,
    token_data: RawBytes,
    r: Result<ReceiverHook<MintIntermediate>, NFTError>,
)
    requires
        orderly(*old(nft)),
        old(nft).state.next_token + metadatas@.len() <= u64::MAX,
        old(nft).state.total_supply + metadatas@.len() <= u64::MAX,
        call_ensures(
            NFT::<'st, S>::mint,
            (nft, operator, owner, metadatas, operator_data, token_data),
            r,
        ),
    ensures
        !known(*old(nft), operator@) ==> r is Err,
        known(*old(nft), operator@) && known(*old(nft), owner@) ==> r is Ok,
        r is Err ==> *final(nft).state == *old(nft).state,
        r is Ok ==> {
            let to = actor_at(*final(nft), owner@);
            let ids = r->Ok_0.result_data->0.token_ids@;
            &&& readable(*final(nft))
            &&& known(*final(nft), owner@)
            &&& remembers(old(nft).runtime.syscalls, final(nft).runtime.syscalls)
            &&& final(nft).state.next_token == old(nft).state.next_token + metadatas@.len()
            &&& final(nft).state.total_supply == old(nft).state.total_supply + metadatas@.len()
            &&& made(
                behind(*old(nft)),
                behind(*final(nft)),
                old(nft).state.next_token,
                to,
                metadatas@,
            )
            &&& tells(
                r->Ok_0,
                owner@,
                to,
                actor_at(*old(nft), operator@),
                ids,
                operator_data@,
                token_data@,
            )
            &&& r->Ok_0.result_data->0.to == to
            &&& ids.len() == metadatas@.len()
            &&& forall|i: int|
                0 <= i < metadatas@.len() ==> #[trigger] ids[i] == old(nft).state.next_token + i
        },
{
    let whole = old(nft).scene().whole();
    let to = actor_at(*final(nft), owner@);
    assert(whole.held == behind(*old(nft)));
    promises::lemma_made(whole, to, metadatas@);
    if r is Ok {
        util::one_is_resolved(
            old(nft).runtime.syscalls,
            final(nft).runtime.syscalls,
            owner@,
            to,
        );
        assert(final(nft).scene().whole().held == behind(*final(nft)));
    }
}

/// What is read through the handle is what the collection holds: a balance is the number of tokens that
/// the actor at the address owns, nothing where there is none; owner and metadata of a token are those
/// under its number; and the supply is the number of all tokens.
pub proof fn tokens_are_read_back<'st, S: Syscalls>(
    nft: NFT<'st, S>,
    address: &Address,
    id: TokenID,
    supply: u64,
    balance: Result<u64, NFTError>,
    owner: Result<ActorID, NFTError>,
    metadata: Result<String, NFTError>,
)
    requires
        orderly(nft),
        call_ensures(NFT::<'st, S>::total_supply, (&nft,), supply),
        call_ensures(NFT::<'st, S>::balance_of, (&nft, address), balance),
        call_ensures(NFT::<'st, S>::owner_of, (&nft, id), owner),
        call_ensures(NFT::<'st, S>::metadata, (&nft, id), metadata),
    ensures
        supply == behind(nft).tokens.dom().len(),
        balance is Ok && balance->Ok_0 == if known(nft, address@) {
            tally(behind(nft).tokens, actor_at(nft, address@))
        } else {
            0
        },
        owner is Ok == behind(nft).tokens.contains_key(id),
        owner is Ok ==> owner->Ok_0 == behind(nft).tokens[id].0,
        metadata is Ok == behind(nft).tokens.contains_key(id),
        metadata is Ok ==> metadata->Ok_0@ == behind(nft).tokens[id].2,
{
    let held = behind(nft);
    assert(nft.collection()->0.held == held);
    batches::counts_are_right(held, actor_at(nft, address@));
}

/// What a mint or a transfer returns in the end agrees with the state, as long as its root is the one
/// that is expected: the balances of those it names, the supply and the tokens.
pub proof fn returns_agree_with_the_state<'st, S: Syscalls>(
    a: &mut NFT<'st, S>,
    b: &mut NFT<'st, S>,
    minting: MintIntermediate,
    transferring: TransferIntermediate,
    root: Cid,
    minted: Result<MintReturn, NFTError>,
    transferred: Result<TransferReturn, NFTError>,
)
    requires
        orderly(*old(a)),
        orderly(*old(b)),
        old(a).runtime.syscalls.state_root() == Some(root@),
        old(b).runtime.syscalls.state_root() == Some(root@),
        call_ensures(NFT::<'st, S>::mint_return, (a, minting, root), minted),
        call_ensures(NFT::<'st, S>::transfer_return, (b, transferring, root), transferred),
    ensures
        *final(a).state == *old(a).state,
        *final(b).state == *old(b).state,
        minted is Ok,
        minted->Ok_0.balance == tally(behind(*old(a)).tokens, minting.to),
        minted->Ok_0.supply == old(a).state.total_supply,
        minted->Ok_0.token_ids@ == minting.token_ids@,
        minted->Ok_0.recipient_data@ == minting.recipient_data@,
        transferred is Ok,
        transferred->Ok_0.from_balance == tally(behind(*old(b)).tokens, transferring.from),
        transferred->Ok_0.to_balance == tally(behind(*old(b)).tokens, transferring.to),
        transferred->Ok_0.token_ids@ == transferring.token_ids@,
{
    assert(old(a).collection()->0.held == behind(*old(a)));
    assert(old(b).collection()->0.held == behind(*old(b)));
    assert(final(a).collection() == old(a).collection());
    assert(final(b).collection() == old(b).collection());
    batches::counts_are_right(behind(*old(a)), minting.to);
    batches::counts_are_right(behind(*old(b)), transferring.from);
    batches::counts_are_right(behind(*old(b)), transferring.to);
}

/// What is flushed is what takes the place of the state when it is loaded, and what was there is handed
/// back. Where the root is the expected one, nothing is reloaded; where it is another that holds a
/// state, that state is reloaded.
pub proof fn what_is_flushed_is_loaded<'st, S: Syscalls>(
    nft: &mut NFT<'st, S>,
    other: &mut NFT<'st, S>,
    third: &mut NFT<'st, S>,
    flushed: Result<Cid, NFTError>,
    replaced: Result<NFTState, NFTError>,
    expected: Cid,
    reloaded: Result<Option<NFTState>, NFTError>,
)
    requires
        call_ensures(NFT::<'st, S>::flush, (nft,), flushed),
        old(other).runtime.blockstore@ == final(nft).runtime.blockstore@,
        call_ensures(NFT::<'st, S>::load_replace, (other, &flushed->Ok_0), replaced),
        old(third).runtime.blockstore@ == final(nft).runtime.blockstore@,
        old(third).runtime.syscalls.state_root() == Some(flushed->Ok_0@),
        call_ensures(NFT::<'st, S>::reload_if_changed, (third, expected), reloaded),
    ensures
        flushed is Ok,
        *final(nft).state == *old(nft).state,
        replaced is Ok && replaced->Ok_0 == *old(other).state,
        final(other).state.token_data@ == old(nft).state.token_data@,
        final(other).state.owner_data@ == old(nft).state.owner_data@,
        final(other).state.next_token == old(nft).state.next_token,
        final(other).state.total_supply == old(nft).state.total_supply,
        reloaded is Ok,
        expected@ == flushed->Ok_0@ ==> reloaded->Ok_0 is None && *final(third).state
            == *old(third).state,
        expected@ != flushed->Ok_0@ ==> {
            &&& reloaded->Ok_0 is Some
            &&& final(third).state.token_data@ == old(nft).state.token_data@
            &&& final(third).state.owner_data@ == old(nft).state.owner_data@
            &&& final(third).state.next_token == old(nft).state.next_token
            &&& final(third).state.total_supply == old(nft).state.total_supply
        },
{
}

/// A transaction that fails leaves the state as it was; one that succeeds leaves the state as the work
/// left it, which began with the state as it was.
pub proof fn a_failed_transaction_changes_nothing<
    'st,
    S: Syscalls,
    Res,
    F: FnOnce(&mut NFTState, &mut Store) -> Result<Res, NFTError>,
>(nft: &mut NFT<'st, S>, f: F, r: Result<Res, NFTError>)
    requires
        call_ensures(NFT::<'st, S>::transaction::<F, Res>, (nft, f), r),
    ensures
        r is Err ==> *final(nft).state == *old(nft).state,
        r is Ok ==> exists|state: &mut NFTState, bs: &mut Store|
            {
                &&& #[trigger] f.ensures((state, bs), r)
                &&& state.token_data@ == old(nft).state.token_data@
                &&& state.owner_data@ == old(nft).state.owner_data@
                &&& state.next_token == old(nft).state.next_token
                &&& state.total_supply == old(nft).state.total_supply
                &&& *bs == old(nft).runtime.blockstore
                &&& *final(nft).state == *final(state)
                &&& final(nft).runtime.blockstore == *final(bs)
            },
{
}

} // verus!
