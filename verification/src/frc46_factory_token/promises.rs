//! What the factory token's actor is for, said of what goes in and what comes out.
use vstd::prelude::*;

use crate::accounting::{holding, spendable};
use crate::address::{Address, AddressView};
use crate::amount::TokenAmount;
use crate::bytes::{ActorID, Cid, IpldBlock, CBOR};
use crate::exit;
use crate::exit::{ErrorNumber, ExitCode};
use crate::frc46_factory_token::actor;
use crate::frc46_factory_token::actor::{
    construct_token, ConstructorParams, FactoryActor, MintParams, Roots,
};
use crate::frc46_factory_token::dispatch;
use crate::frc46_factory_token::dispatch::{
    frc46_invoke, frc46_method, frc46_unpack_params, Call, Frc46Method, ParamsError, Reply,
};
use crate::frc46_factory_token::error::RuntimeError;
use crate::frc46_factory_token::invoke;
use crate::frc46_factory_token::invoke::{
    factory_method, token_invoke, FactoryCall, FactoryMethod, FactoryReply,
};
use crate::frc46_factory_token::state;
use crate::frc46_factory_token::state::FactoryToken;
use crate::frc46_token::error::TokenError;
use crate::frc46_token::promises;
use crate::frc46_token::promises::{
    books_of, burn_effect, burn_from_effect, decrease_allowance_effect, increase_allowance_effect,
    key_at, mint_effect, revoke_allowance_effect, transfer_effect, transfer_from_effect,
};
use crate::frc46_token::state::{Books, TokenState};
use crate::frc46_token::token;
use crate::frc46_token::token::Token;
use crate::frc46_token::types::{
    AllowanceReturn, BalanceReturn, BurnFromParams, BurnFromReturn, BurnParams, BurnReturn,
    DecreaseAllowanceParams, FRC46Token, GetAllowanceParams, IncreaseAllowanceParams,
    MintIntermediate, MintReturn, RevokeAllowanceParams, TransferFromIntermediate,
    TransferFromParams, TransferFromReturn, TransferIntermediate, TransferParams, TransferReturn,
};
use crate::fvm_actor_utils::messaging::{MessagingError, RECEIVER_HOOK_METHOD_NUM};
use crate::fvm_actor_utils::receiver::{
    universal_cbor, ReceiverHook, ReceiverHookError, RecipientData,
};
use crate::fvm_actor_utils::syscalls::{Message, MethodNum, Syscalls};
use crate::fvm_actor_utils::util::ActorRuntime;
use crate::store::Store;

verus! {

/// Whether name, symbol, minter, caller, roots and granularity are as they were.
pub open spec fn same_aside<'st, S: Syscalls, R: Roots>(
    was: FactoryActor<'st, S, R>,
    now: FactoryActor<'st, S, R>,
) -> bool {
    &&& now.name == was.name
    &&& now.symbol == was.symbol
    &&& now.minter == was.minter
    &&& now.caller == was.caller
    &&& now.roots == was.roots
    &&& now.token.granularity == was.token.granularity
}

/// The caller of an actor as an address.
pub open spec fn caller_of<'st, S: Syscalls, R: Roots>(was: FactoryActor<'st, S, R>) -> AddressView {
    AddressView::ID(was.caller)
}

/// A burn takes away tokens of the caller, as a burn of the token does.
pub proof fn a_burn_is_of_the_callers_tokens<'st, S: Syscalls, R: Roots>(
    actor: &mut FactoryActor<'st, S, R>,
    params: BurnParams,
    r: Result<BurnReturn, RuntimeError>,
)
    requires
        old(actor).token.books() is Some,
        call_ensures(<FactoryActor<'st, S, R> as FRC46Token>::burn, (actor, params), r),
    ensures
        same_aside(*old(actor), *final(actor)),
        r is Ok ==> burn_effect(
            old(actor).token,
            final(actor).token,
            caller_of(*old(actor)), params.amount@,
            Ok(r->Ok_0),
        ),
        r is Err ==> r->Err_0 is Token && burn_effect(
            old(actor).token,
            final(actor).token,
            caller_of(*old(actor)), params.amount@,
            Err(r->Err_0->Token_0),
        ),
{
    let q = choose|q: Result<BurnReturn, TokenError>| #[trigger]
        token::burnt(old(actor).token, final(actor).token, AddressView::ID(old(actor).caller), params.amount@, q) && r == (match q {
            Ok(res) => Ok(res),
            Err(e) => Err(RuntimeError::Token(e)),
        });
    promises::lemma_burn(old(actor).token, final(actor).token, AddressView::ID(old(actor).caller), params.amount@, q);
}

/// A delegated burn takes away tokens of the owner that is named, with the caller as the operator.
pub proof fn a_delegated_burn_is_by_the_caller<'st, S: Syscalls, R: Roots>(
    actor: &mut FactoryActor<'st, S, R>,
    params: BurnFromParams,
    r: Result<BurnFromReturn, RuntimeError>,
)
    requires
        old(actor).token.books() is Some,
        call_ensures(<FactoryActor<'st, S, R> as FRC46Token>::burn_from, (actor, params), r),
    ensures
        same_aside(*old(actor), *final(actor)),
        r is Ok ==> burn_from_effect(
            old(actor).token,
            final(actor).token,
            caller_of(*old(actor)), params.owner@, params.amount@,
            Ok(r->Ok_0),
        ),
        r is Err ==> r->Err_0 is Token && burn_from_effect(
            old(actor).token,
            final(actor).token,
            caller_of(*old(actor)), params.owner@, params.amount@,
            Err(r->Err_0->Token_0),
        ),
{
    let q = choose|q: Result<BurnFromReturn, TokenError>| #[trigger]
        token::burnt_from(old(actor).token, final(actor).token, AddressView::ID(old(actor).caller), params.owner@, params.amount@, q) && r == (match q {
            Ok(res) => Ok(res),
            Err(e) => Err(RuntimeError::Token(e)),
        });
    promises::lemma_burn_from(old(actor).token, final(actor).token, AddressView::ID(old(actor).caller), params.owner@, params.amount@, q);
}

/// Raising an allowance raises what the operator that is named may spend of the caller's tokens.
pub proof fn raising_an_allowance_is_on_the_callers_tokens<'st, S: Syscalls, R: Roots>(
    actor: &mut FactoryActor<'st, S, R>,
    params: IncreaseAllowanceParams,
    r: Result<AllowanceReturn, RuntimeError>,
)
    requires
        old(actor).token.books() is Some,
        call_ensures(<FactoryActor<'st, S, R> as FRC46Token>::increase_allowance, (actor, params), r),
    ensures
        same_aside(*old(actor), *final(actor)),
        r is Ok ==> increase_allowance_effect(
            old(actor).token,
            final(actor).token,
            caller_of(*old(actor)), params.operator@, params.increase@,
            Ok(r->Ok_0),
        ),
        r is Err ==> r->Err_0 is Token && increase_allowance_effect(
            old(actor).token,
            final(actor).token,
            caller_of(*old(actor)), params.operator@, params.increase@,
            Err(r->Err_0->Token_0),
        ),
{
    let q = choose|q: Result<AllowanceReturn, TokenError>| #[trigger]
        token::allowance_increased(old(actor).token, final(actor).token, AddressView::ID(old(actor).caller), params.operator@, params.increase@, q) && r == (match q {
            Ok(res) => Ok(res),
            Err(e) => Err(RuntimeError::Token(e)),
        });
    promises::lemma_increase_allowance(old(actor).token, final(actor).token, AddressView::ID(old(actor).caller), params.operator@, params.increase@, q);
}

/// Lowering an allowance lowers what the operator that is named may spend of the caller's tokens.
pub proof fn lowering_an_allowance_is_on_the_callers_tokens<'st, S: Syscalls, R: Roots>(
    actor: &mut FactoryActor<'st, S, R>,
    params: DecreaseAllowanceParams,
    r: Result<AllowanceReturn, RuntimeError>,
)
    requires
        old(actor).token.books() is Some,
        call_ensures(<FactoryActor<'st, S, R> as FRC46Token>::decrease_allowance, (actor, params), r),
    ensures
        same_aside(*old(actor), *final(actor)),
        r is Ok ==> decrease_allowance_effect(
            old(actor).token,
            final(actor).token,
            caller_of(*old(actor)), params.operator@, params.decrease@,
            Ok(r->Ok_0),
        ),
        r is Err ==> r->Err_0 is Token && decrease_allowance_effect(
            old(actor).token,
            final(actor).token,
            caller_of(*old(actor)), params.operator@, params.decrease@,
            Err(r->Err_0->Token_0),
        ),
{
    let q = choose|q: Result<AllowanceReturn, TokenError>| #[trigger]
        token::allowance_decreased(old(actor).token, final(actor).token, AddressView::ID(old(actor).caller), params.operator@, params.decrease@, q) && r == (match q {
            Ok(res) => Ok(res),
            Err(e) => Err(RuntimeError::Token(e)),
        });
    promises::lemma_decrease_allowance(old(actor).token, final(actor).token, AddressView::ID(old(actor).caller), params.operator@, params.decrease@, q);
}

/// Taking an allowance back leaves the operator that is named nothing to spend of the caller's tokens.
pub proof fn revoking_an_allowance_is_on_the_callers_tokens<'st, S: Syscalls, R: Roots>(
    actor: &mut FactoryActor<'st, S, R>,
    params: RevokeAllowanceParams,
    r: Result<(), RuntimeError>,
)
    requires
        old(actor).token.books() is Some,
        call_ensures(<FactoryActor<'st, S, R> as FRC46Token>::revoke_allowance, (actor, params), r),
    ensures
        same_aside(*old(actor), *final(actor)),
        r is Ok,
        exists|amount: TokenAmount| #[trigger]
            revoke_allowance_effect(
                old(actor).token,
                final(actor).token,
                caller_of(*old(actor)),
                params.operator@,
                Ok(amount),
            ),
{
    let owner = AddressView::ID(old(actor).caller);
    let q = choose|q: Result<TokenAmount, TokenError>| #[trigger]
        token::revoked(old(actor).token, final(actor).token, owner, params.operator@, q) && r == (
        match q {
            Ok(_) => Ok(()),
            Err(e) => Err(RuntimeError::Token(e)),
        });
    promises::lemma_revoke_allowance(
        old(actor).token,
        final(actor).token,
        owner,
        params.operator@,
        q,
    );
    assert(q == Ok::<TokenAmount, TokenError>(q->Ok_0));
}

/// The message that a hook sends.
pub open spec fn word_of<T: RecipientData>(hook: ReceiverHook<T>) -> Message {
    Message {
        to: hook.address@,
        method: RECEIVER_HOOK_METHOD_NUM,
        params: Some((CBOR, universal_cbor(hook.token_type, hook.token_params@))),
        value: 0,
    }
}

/// A transfer moves tokens of the caller to the receiver that is named, as a transfer of the token does. The
/// receiver is sent what the hook of that transfer has. What is returned is what both then have.
pub proof fn a_transfer_is_of_the_callers_tokens<'st, S: Syscalls, R: Roots>(
    actor: &mut FactoryActor<'st, S, R>,
    params: TransferParams,
    r: Result<TransferReturn, RuntimeError>,
)
    requires
        old(actor).token.books() is Some,
        call_ensures(<FactoryActor<'st, S, R> as FRC46Token>::transfer, (actor, params), r),
    ensures
        r is Ok ==> exists|mid: Token<'st, S>, hook: ReceiverHook<TransferIntermediate>|
            {
                &&& #[trigger] transfer_effect(
                    old(actor).token,
                    mid,
                    caller_of(*old(actor)), params.to@, params.amount@, params.operator_data@, Seq::empty(),
                    Ok(hook),
                )
                &&& final(actor).token.runtime.syscalls.sent() == mid.runtime.syscalls.sent().push(
                    word_of(hook),
                )
            },
        r is Ok && final(actor).token.books() is Some ==> {
            let syscalls = final(actor).token.runtime.syscalls;
            let books = books_of(final(actor).token);
            &&& syscalls.resolves(caller_of(*old(actor))) is Some ==> r->Ok_0.from_balance@ == holding(
                books,
                key_at(syscalls, caller_of(*old(actor))),
            )
            &&& syscalls.resolves(caller_of(*old(actor))) is None ==> r->Ok_0.from_balance@ == 0
            &&& syscalls.resolves(params.to@) is Some ==> r->Ok_0.to_balance@ == holding(
                books,
                key_at(syscalls, params.to@),
            )
            &&& syscalls.resolves(params.to@) is None ==> r->Ok_0.to_balance@ == 0
        },
        r is Ok ==> final(actor).caller == old(actor).caller,
{
    let (mid, q) = choose|
        mid: FactoryActor<'st, S, R>,
        q: Result<ReceiverHook<TransferIntermediate>, TokenError>,
    |
        mid.aside(*old(actor)) && #[trigger] token::transferred(
            old(actor).token,
            mid.token,
            AddressView::ID(old(actor).caller), params.to@, params.amount@, params.operator_data@, Seq::empty(),
            q,
        ) && match q {
            Err(e) => r == Err::<TransferReturn, RuntimeError>(RuntimeError::Token(e)) && *final(actor)
                == mid,
            Ok(hook) => exists|d: Result<TransferIntermediate, RuntimeError>| #[trigger]
                actor::delivered(mid, *final(actor), hook, d) && match d {
                    Err(e) => r == Err::<TransferReturn, RuntimeError>(e),
                    Ok(answer) => actor::transfer_answered(final(actor).token, answer, r),
                },
        };
    if r is Ok {
        let hook = q->Ok_0;
        promises::lemma_transfer(old(actor).token, mid.token, AddressView::ID(old(actor).caller), params.to@, params.amount@, params.operator_data@, Seq::empty(), q);
        assert(transfer_effect(old(actor).token, mid.token, AddressView::ID(old(actor).caller), params.to@, params.amount@, params.operator_data@, Seq::empty(), Ok(hook)));
        let d = choose|d: Result<TransferIntermediate, RuntimeError>| #[trigger]
            actor::delivered(mid, *final(actor), hook, d) && match d {
                Err(e) => r == Err::<TransferReturn, RuntimeError>(e),
                Ok(answer) => actor::transfer_answered(final(actor).token, answer, r),
            };
        let data = choose|data: Seq<u8>| #[trigger]
            hook.result_data->0.completed_by(data, &d->Ok_0);
        assert(hook.result_data->0.completed_by(data, &d->Ok_0));
        assert(final(actor).token.runtime.syscalls.sent() == mid.token.runtime.syscalls.sent().push(
            word_of(hook),
        ));
    }
}

/// A delegated transfer moves tokens of the owner that is named to the receiver that is named, with the
/// caller as the operator. The receiver is sent what the hook of that transfer has. What is returned is
/// what both then have, and what the caller may still spend.
pub proof fn a_delegated_transfer_is_by_the_caller<'st, S: Syscalls, R: Roots>(
    actor: &mut FactoryActor<'st, S, R>,
    params: TransferFromParams,
    r: Result<TransferFromReturn, RuntimeError>,
)
    requires
        old(actor).token.books() is Some,
        call_ensures(<FactoryActor<'st, S, R> as FRC46Token>::transfer_from, (actor, params), r),
    ensures
        r is Ok ==> exists|mid: Token<'st, S>, hook: ReceiverHook<TransferFromIntermediate>|
            {
                &&& #[trigger] transfer_from_effect(
                    old(actor).token,
                    mid,
                    caller_of(*old(actor)), params.from@, params.to@, params.amount@, params.operator_data@, Seq::empty(),
                    Ok(hook),
                )
                &&& final(actor).token.runtime.syscalls.sent() == mid.runtime.syscalls.sent().push(
                    word_of(hook),
                )
            },
        r is Ok && final(actor).token.books() is Some ==> {
            let syscalls = final(actor).token.runtime.syscalls;
            let books = books_of(final(actor).token);
            &&& syscalls.resolves(params.from@) is Some ==> r->Ok_0.from_balance@ == holding(
                books,
                key_at(syscalls, params.from@),
            )
            &&& syscalls.resolves(params.from@) is None ==> r->Ok_0.from_balance@ == 0
            &&& syscalls.resolves(params.to@) is Some ==> r->Ok_0.to_balance@ == holding(
                books,
                key_at(syscalls, params.to@),
            )
            &&& syscalls.resolves(params.to@) is None ==> r->Ok_0.to_balance@ == 0
            &&& syscalls.resolves(params.from@) is Some && syscalls.resolves(
                caller_of(*old(actor)),
            ) is Some ==> r->Ok_0.allowance@ == spendable(
                books,
                key_at(syscalls, params.from@),
                key_at(syscalls, caller_of(*old(actor))),
            )
        },
        r is Ok ==> final(actor).caller == old(actor).caller,
{
    let (mid, q) = choose|
        mid: FactoryActor<'st, S, R>,
        q: Result<ReceiverHook<TransferFromIntermediate>, TokenError>,
    |
        mid.aside(*old(actor)) && #[trigger] token::transferred_from(
            old(actor).token,
            mid.token,
            AddressView::ID(old(actor).caller), params.from@, params.to@, params.amount@, params.operator_data@, Seq::empty(),
            q,
        ) && match q {
            Err(e) => r == Err::<TransferFromReturn, RuntimeError>(RuntimeError::Token(e)) && *final(actor)
                == mid,
            Ok(hook) => exists|d: Result<TransferFromIntermediate, RuntimeError>| #[trigger]
                actor::delivered(mid, *final(actor), hook, d) && match d {
                    Err(e) => r == Err::<TransferFromReturn, RuntimeError>(e),
                    Ok(answer) => actor::transfer_from_answered(final(actor).token, answer, r),
                },
        };
    if r is Ok {
        let hook = q->Ok_0;
        promises::lemma_transfer_from(old(actor).token, mid.token, AddressView::ID(old(actor).caller), params.from@, params.to@, params.amount@, params.operator_data@, Seq::empty(), q);
        assert(transfer_from_effect(old(actor).token, mid.token, AddressView::ID(old(actor).caller), params.from@, params.to@, params.amount@, params.operator_data@, Seq::empty(), Ok(hook)));
        let d = choose|d: Result<TransferFromIntermediate, RuntimeError>| #[trigger]
            actor::delivered(mid, *final(actor), hook, d) && match d {
                Err(e) => r == Err::<TransferFromReturn, RuntimeError>(e),
                Ok(answer) => actor::transfer_from_answered(final(actor).token, answer, r),
            };
        let data = choose|data: Seq<u8>| #[trigger]
            hook.result_data->0.completed_by(data, &d->Ok_0);
        assert(hook.result_data->0.completed_by(data, &d->Ok_0));
        assert(final(actor).token.runtime.syscalls.sent() == mid.token.runtime.syscalls.sent().push(
            word_of(hook),
        ));
    }
}

/// A mint by the minter makes tokens for the owner that is named, as a mint of the token does. The owner is
/// sent what the hook of that mint has. What is returned is what the owner then has, and the supply.
pub proof fn a_mint_is_by_the_minter<'st, S: Syscalls, R: Roots>(
    actor: &mut FactoryActor<'st, S, R>,
    params: MintParams,
    r: Result<MintReturn, RuntimeError>,
)
    requires
        old(actor).token.books() is Some,
        old(actor).minter == Some(old(actor).caller),
        call_ensures(FactoryActor::<'st, S, R>::mint, (actor, params), r),
    ensures
        r is Ok ==> exists|mid: Token<'st, S>, hook: ReceiverHook<MintIntermediate>|
            {
                &&& #[trigger] mint_effect(
                    old(actor).token,
                    mid,
                    caller_of(*old(actor)), params.initial_owner@, params.amount@, params.operator_data@, Seq::empty(),
                    Ok(hook),
                )
                &&& final(actor).token.runtime.syscalls.sent() == mid.runtime.syscalls.sent().push(
                    word_of(hook),
                )
            },
        r is Ok && final(actor).token.books() is Some ==> {
            let syscalls = final(actor).token.runtime.syscalls;
            let books = books_of(final(actor).token);
            &&& syscalls.resolves(params.initial_owner@) is Some ==> r->Ok_0.balance@ == holding(
                books,
                key_at(syscalls, params.initial_owner@),
            )
            &&& syscalls.resolves(params.initial_owner@) is None ==> r->Ok_0.balance@ == 0
            &&& r->Ok_0.supply@ == books.supply
        },
        r is Ok ==> final(actor).caller == old(actor).caller,
{
    let (mid, q) = choose|
        mid: FactoryActor<'st, S, R>,
        q: Result<ReceiverHook<MintIntermediate>, TokenError>,
    |
        mid.aside(*old(actor)) && #[trigger] token::minted(
            old(actor).token,
            mid.token,
            AddressView::ID(old(actor).caller), params.initial_owner@, params.amount@, params.operator_data@, Seq::empty(),
            q,
        ) && match q {
            Err(e) => r == Err::<MintReturn, RuntimeError>(RuntimeError::Token(e)) && *final(actor)
                == mid,
            Ok(hook) => exists|d: Result<MintIntermediate, RuntimeError>| #[trigger]
                actor::delivered(mid, *final(actor), hook, d) && match d {
                    Err(e) => r == Err::<MintReturn, RuntimeError>(e),
                    Ok(answer) => actor::mint_answered(final(actor).token, answer, r),
                },
        };
    if r is Ok {
        let hook = q->Ok_0;
        promises::lemma_mint(old(actor).token, mid.token, AddressView::ID(old(actor).caller), params.initial_owner@, params.amount@, params.operator_data@, Seq::empty(), q);
        assert(mint_effect(old(actor).token, mid.token, AddressView::ID(old(actor).caller), params.initial_owner@, params.amount@, params.operator_data@, Seq::empty(), Ok(hook)));
        let d = choose|d: Result<MintIntermediate, RuntimeError>| #[trigger]
            actor::delivered(mid, *final(actor), hook, d) && match d {
                Err(e) => r == Err::<MintReturn, RuntimeError>(e),
                Ok(answer) => actor::mint_answered(final(actor).token, answer, r),
            };
        let data = choose|data: Seq<u8>| #[trigger]
            hook.result_data->0.completed_by(data, &d->Ok_0);
        assert(hook.result_data->0.completed_by(data, &d->Ok_0));
        assert(final(actor).token.runtime.syscalls.sent() == mid.token.runtime.syscalls.sent().push(
            word_of(hook),
        ));
    }
}

/// Nobody but the minter mints: for anyone else, and where there is no minter, a mint is refused and
/// changes nothing.
pub proof fn only_the_minter_mints<'st, S: Syscalls, R: Roots>(
    actor: &mut FactoryActor<'st, S, R>,
    params: MintParams,
    r: Result<MintReturn, RuntimeError>,
)
    requires
        call_ensures(FactoryActor::<'st, S, R>::mint, (actor, params), r),
    ensures
        old(actor).minter != Some(old(actor).caller) ==> r is Err && *final(actor) == *old(actor),
        old(actor).minter is None ==> r->Err_0 is MintingDisabled,
{
}

/// Only the minter disables minting, and for good: then nobody mints, and disabling it again is refused.
/// All else stays as it was.
pub proof fn minting_is_disabled_for_good<'st, S: Syscalls, R: Roots>(
    actor: &mut FactoryActor<'st, S, R>,
    later: &mut FactoryActor<'st, S, R>,
    again: &mut FactoryActor<'st, S, R>,
    params: MintParams,
    r: Result<(), RuntimeError>,
    minted: Result<MintReturn, RuntimeError>,
    q: Result<(), RuntimeError>,
)
    requires
        call_ensures(FactoryActor::<'st, S, R>::disable_mint, (actor,), r),
        old(later).minter == final(actor).minter,
        call_ensures(FactoryActor::<'st, S, R>::mint, (later, params), minted),
        old(again).minter == final(actor).minter,
        call_ensures(FactoryActor::<'st, S, R>::disable_mint, (again,), q),
    ensures
        r is Ok == (old(actor).minter == Some(old(actor).caller)),
        r is Ok ==> final(actor).minter is None && minted is Err && q is Err,
        r is Err ==> final(actor).minter == old(actor).minter,
        final(actor).token == old(actor).token,
        final(actor).name == old(actor).name,
        final(actor).symbol == old(actor).symbol,
        final(actor).caller == old(actor).caller,
        final(actor).roots == old(actor).roots,
{
}

/// What is read of the actor is what it has: its name, its symbol, its granularity, its supply, the balance
/// of an address, and what one address may spend of another's tokens. Reading changes nothing.
pub proof fn the_actor_is_read<'st, S: Syscalls, R: Roots>(
    actor: FactoryActor<'st, S, R>,
    a: &mut FactoryActor<'st, S, R>,
    b: &mut FactoryActor<'st, S, R>,
    c: &mut FactoryActor<'st, S, R>,
    address: Address,
    params: GetAllowanceParams,
    name: String,
    symbol: String,
    granularity: u64,
    supply: TokenAmount,
    balance: Result<BalanceReturn, RuntimeError>,
    allowance: Result<AllowanceReturn, RuntimeError>,
)
    requires
        *old(a) == actor && *old(b) == actor && *old(c) == actor,
        actor.token.books() is Some,
        actor.token.runtime.syscalls.resolves(address@) is Some,
        actor.token.runtime.syscalls.resolves(params.owner@) is Some,
        actor.token.runtime.syscalls.resolves(params.operator@) is Some,
        call_ensures(<FactoryActor<'st, S, R> as FRC46Token>::name, (&actor,), name),
        call_ensures(<FactoryActor<'st, S, R> as FRC46Token>::symbol, (&actor,), symbol),
        call_ensures(<FactoryActor<'st, S, R> as FRC46Token>::granularity, (&actor,), granularity),
        call_ensures(<FactoryActor<'st, S, R> as FRC46Token>::total_supply, (a,), supply),
        call_ensures(<FactoryActor<'st, S, R> as FRC46Token>::balance_of, (b, address), balance),
        call_ensures(<FactoryActor<'st, S, R> as FRC46Token>::allowance, (c, params), allowance),
    ensures
        *final(a) == actor && *final(b) == actor && *final(c) == actor,
        name@ == actor.name@,
        symbol@ == actor.symbol@,
        granularity == actor.token.granularity,
        supply@ == books_of(actor.token).supply,
        balance is Ok && balance->Ok_0@ == holding(
            books_of(actor.token),
            key_at(actor.token.runtime.syscalls, address@),
        ),
        allowance is Ok && allowance->Ok_0@ == spendable(
            books_of(actor.token),
            key_at(actor.token.runtime.syscalls, params.owner@),
            key_at(actor.token.runtime.syscalls, params.operator@),
        ),
{
}

/// No two methods have the same number: the method that is found for a method's number is that method.
pub proof fn methods_are_told_apart(
    a: Frc46Method,
    b: FactoryMethod,
    n: MethodNum,
    m: MethodNum,
    found: Option<Frc46Method>,
    met: Option<FactoryMethod>,
)
    requires
        dispatch::number_of(a) == n,
        invoke::number_of(b) == m,
        call_ensures(frc46_method, (n,), found),
        call_ensures(factory_method, (m,), met),
    ensures
        found == Some(a),
        met == Some(b),
{
}

/// A token that was saved is the token that is loaded again: its state, its name, its symbol, its
/// granularity and its minter.
pub proof fn what_is_saved_is_loaded(
    token: FactoryToken,
    bs: &mut Store,
    saved: Result<Cid, RuntimeError>,
    loaded: Result<FactoryToken, RuntimeError>,
)
    requires
        call_ensures(FactoryToken::save, (&token, bs), saved),
        saved is Ok,
        call_ensures(FactoryToken::load, (&*final(bs), &saved->Ok_0), loaded),
    ensures
        loaded is Ok,
        loaded->Ok_0.name@ == token.name@,
        loaded->Ok_0.symbol@ == token.symbol@,
        loaded->Ok_0.granularity == token.granularity,
        loaded->Ok_0.minter == token.minter,
        loaded->Ok_0.token.supply@ == token.token.supply@,
        loaded->Ok_0.token.balances@ == token.token.balances@,
        loaded->Ok_0.token.allowances@ == token.token.allowances@,
        loaded->Ok_0.token.hamt_bit_width == token.token.hamt_bit_width,
{
}

/// A token that was constructed has the name, the symbol and the granularity that were given, the actor at
/// the address that was given as minter, and nobody has any of it. Where that address stands for no
/// actor, none is made.
pub proof fn a_token_is_constructed<S: Syscalls, R: Roots>(
    runtime: &mut ActorRuntime<S>,
    roots: &mut R,
    params: ConstructorParams,
    r: Result<Cid, RuntimeError>,
)
    requires
        call_ensures(construct_token::<S, R>, (runtime, roots, params), r),
    ensures
        final(runtime).syscalls == old(runtime).syscalls,
        old(runtime).syscalls.resolves(params.minter@) is None ==> r is Err && *final(roots)
            == *old(roots),
        r is Ok ==> exists|new: FactoryToken|
            {
                let blocks = final(runtime).blockstore@;
                &&& state::factory_record(blocks[r->Ok_0@]) == Some(#[trigger] new.record())
                &&& new.name@ == params.name@
                &&& new.symbol@ == params.symbol@
                &&& new.granularity == params.granularity
                &&& new.minter == old(runtime).syscalls.resolves(params.minter@)
                &&& new.token.ledger(blocks) is Some
                &&& new.token.ledger(blocks)->0.supply == 0
                &&& forall|k: Seq<u8>| #[trigger] holding(new.token.ledger(blocks)->0, k) == 0
                &&& forall|j: Seq<u8>, k: Seq<u8>| #[trigger]
                    spendable(new.token.ledger(blocks)->0, j, k) == 0
            },
{
    if r is Ok {
        let blocks = final(runtime).blockstore@;
        let minter = old(runtime).syscalls.resolves(params.minter@)->0;
        assert(actor::made(params, minter, blocks, r->Ok_0@));
        let new = choose|new: FactoryToken|
            {
                &&& state::factory_record(blocks[r->Ok_0@]) == Some(#[trigger] new.record())
                &&& new.name == params.name
                &&& new.symbol == params.symbol
                &&& new.granularity == params.granularity
                &&& new.minter == Some(minter)
                &&& new.token.ledger(blocks) == Some(Books::empty())
            };
        assert(state::factory_record(blocks[r->Ok_0@]) == Some(new.record()));
    }
}

/// What reading calls reply: the name, the symbol and the granularity of the actor, its supply, the balance
/// of an address, and what one address may spend of another's tokens.
pub proof fn reading_calls_reply_what_is_read<
    'st,
    S: Syscalls,
    R: Roots,
    F: FnOnce(&mut FactoryActor<'st, S, R>) -> Result<(), RuntimeError>,
>(
    call: Call,
    actor: &mut FactoryActor<'st, S, R>,
    flush: F,
    r: Result<Reply, RuntimeError>,
)
    requires
        old(actor).token.books() is Some,
        call_ensures(frc46_invoke::<FactoryActor<'st, S, R>, F>, (call, actor, flush), r),
    ensures
        call is Name ==> r is Ok && r->Ok_0 is Text && r->Ok_0->Text_0@ == old(actor).name@,
        call is Symbol ==> r is Ok && r->Ok_0 is Text && r->Ok_0->Text_0@ == old(actor).symbol@,
        call is Granularity ==> r is Ok && r->Ok_0 is Granularity && r->Ok_0->Granularity_0 == old(actor).token.granularity,
        call is TotalSupply ==> r is Ok && r->Ok_0 is Amount && r->Ok_0->Amount_0@ == books_of(
            old(actor).token,
        ).supply,
        call is BalanceOf && old(actor).token.runtime.syscalls.resolves(
            call->BalanceOf_0@,
        ) is Some ==> r is Ok && r->Ok_0 is Amount && r->Ok_0->Amount_0@ == holding(
            books_of(old(actor).token),
            key_at(old(actor).token.runtime.syscalls, call->BalanceOf_0@),
        ),
        call is Allowance && old(actor).token.runtime.syscalls.resolves(
            call->Allowance_0.owner@,
        ) is Some && old(actor).token.runtime.syscalls.resolves(
            call->Allowance_0.operator@,
        ) is Some ==> r is Ok && r->Ok_0 is Amount && r->Ok_0->Amount_0@ == spendable(
            books_of(old(actor).token),
            key_at(old(actor).token.runtime.syscalls, call->Allowance_0.owner@),
            key_at(old(actor).token.runtime.syscalls, call->Allowance_0.operator@),
        ),
        call is Name || call is Symbol || call is Granularity || call is TotalSupply
            || call is BalanceOf || call is Allowance ==> *final(actor) == *old(actor),
{
}

/// The parameters of a call are those that came with it. Where none came or they could not be fetched,
/// that is said, and ends as a wrong argument or as something that cannot be decoded.
pub proof fn parameters_are_those_that_came(
    raw: Result<Option<IpldBlock>, ErrorNumber>,
    r: Result<IpldBlock, ParamsError>,
    code: ExitCode,
)
    requires
        call_ensures(frc46_unpack_params, (raw,), r),
        r is Err ==> call_ensures(<ExitCode as From<&ParamsError>>::from, (&r->Err_0,), code),
    ensures
        r is Ok == (raw is Ok && raw->Ok_0 is Some),
        r is Ok ==> r->Ok_0 == raw->Ok_0->0,
        raw is Err ==> r->Err_0 is Raw && r->Err_0->Raw_0 == raw->Err_0 && code.value
            == exit::USR_SERIALIZATION,
        raw is Ok && raw->Ok_0 is None ==> r->Err_0 is Missing && code.value
            == exit::USR_ILLEGAL_ARGUMENT,
{
}

/// Just transfers and burns move amounts.
pub proof fn transfers_and_burns_move_amounts(call: Call, r: bool)
    requires
        call_ensures(Call::moves_amounts, (&call,), r),
    ensures
        r == (call is Transfer || call is TransferFrom || call is Burn || call is BurnFrom),
{
}

/// A saved token is stored as it is, and saving it changes nothing of it.
pub proof fn a_saved_token_is_stored<'st, S: Syscalls, R: Roots>(
    actor: &mut FactoryActor<'st, S, R>,
    saved: Result<Cid, RuntimeError>,
    loaded: Result<FactoryToken, RuntimeError>,
)
    requires
        call_ensures(FactoryActor::<'st, S, R>::save, (actor,), saved),
        saved is Ok,
        call_ensures(
            FactoryToken::load,
            (&final(actor).token.runtime.blockstore, &saved->Ok_0),
            loaded,
        ),
    ensures
        same_aside(*old(actor), *final(actor)),
        final(actor).token.current() == old(actor).token.current(),
        loaded is Ok,
        loaded->Ok_0.name@ == old(actor).name@,
        loaded->Ok_0.symbol@ == old(actor).symbol@,
        loaded->Ok_0.granularity == old(actor).token.granularity,
        loaded->Ok_0.minter == old(actor).minter,
        loaded->Ok_0.token.supply@ == old(actor).token.current().supply@,
        loaded->Ok_0.token.balances@ == old(actor).token.current().balances@,
        loaded->Ok_0.token.allowances@ == old(actor).token.current().allowances@,
{
}

/// An actor that is opened works with the token that was loaded, for the caller that was given.
pub proof fn an_opened_actor_has_the_token<'st, S: Syscalls, R: Roots>(
    runtime: ActorRuntime<S>,
    roots: R,
    caller: ActorID,
    loaded: FactoryToken,
    state: &'st mut TokenState,
    r: FactoryActor<'st, S, R>,
)
    requires
        call_ensures(
            FactoryActor::<'st, S, R>::open,
            (runtime, roots, caller, loaded, state),
            r,
        ),
    ensures
        r.name@ == loaded.name@,
        r.symbol@ == loaded.symbol@,
        r.minter == loaded.minter,
        r.caller == caller,
        r.token.granularity == loaded.granularity,
        r.token.current() == loaded.token,
        r.token.runtime == runtime,
{
}

/// Where the actor's root is the one that is given, nothing is taken over. Where it has none, that is said.
/// Where taking over fails, the token stays as it is.
pub proof fn a_token_is_taken_over_where_the_root_changed<'st, S: Syscalls, R: Roots>(
    actor: &mut FactoryActor<'st, S, R>,
    initial: &Cid,
    r: Result<(), RuntimeError>,
)
    requires
        call_ensures(FactoryActor::<'st, S, R>::reload, (actor, initial), r),
    ensures
        old(actor).token.runtime.syscalls.state_root() == Some(initial@) ==> r is Ok && *final(actor)
            == *old(actor),
        old(actor).token.runtime.syscalls.state_root() is None ==> r is Err && r->Err_0 is NoState
            && *final(actor) == *old(actor),
        r is Err ==> final(actor).name@ == old(actor).name@ && final(actor).symbol@ == old(actor).symbol@ && final(actor).minter == old(actor).minter && final(actor).token.current()
            == old(actor).token.current(),
        r is Ok && old(actor).token.runtime.syscalls.state_root() != Some(initial@) ==> {
            let root = old(actor).token.runtime.syscalls.state_root()->0;
            let blocks = final(actor).token.runtime.blockstore@;
            state::factory_record(blocks[root]) == Some(
                (
                    (
                        final(actor).token.current().supply@,
                        final(actor).token.current().balances@,
                        final(actor).token.current().allowances@,
                        final(actor).token.current().hamt_bit_width,
                    ),
                    final(actor).name@,
                    final(actor).symbol@,
                    final(actor).token.granularity,
                    final(actor).minter,
                ),
            )
        },
{
}

/// A mint that is asked for by message is a mint, and so refused for anyone but the minter.
pub proof fn a_message_mints_for_the_minter_alone<
    'st,
    S: Syscalls,
    R: Roots,
    F: FnOnce(&mut FactoryActor<'st, S, R>) -> Result<(), RuntimeError>,
>(
    params: MintParams,
    actor: &mut FactoryActor<'st, S, R>,
    flush: F,
    r: Result<FactoryReply, RuntimeError>,
)
    requires
        call_ensures(
            token_invoke::<'st, S, R, F>,
            (FactoryCall::Mint(params), actor, flush),
            r,
        ),
    ensures
        old(actor).minter != Some(old(actor).caller) ==> r is Err && *final(actor) == *old(actor),
        r is Ok ==> r->Ok_0 is Mint,
{
}

/// No failure of the actor ends as a success, unless a receiver itself said so. Failures of the token, of
/// messages and of hooks end as they do on their own. Who may not mint is told so, and what cannot be
/// written or read ends as that.
pub proof fn a_failure_is_no_success(
    e: RuntimeError,
    token: TokenError,
    hook: ReceiverHookError,
    message: MessagingError,
    r: ExitCode,
    a: ExitCode,
    b: ExitCode,
    c: ExitCode,
)
    requires
        call_ensures(<ExitCode as From<&RuntimeError>>::from, (&e,), r),
        call_ensures(<ExitCode as From<&TokenError>>::from, (&token,), a),
        call_ensures(<ExitCode as From<&ReceiverHookError>>::from, (&hook,), b),
        call_ensures(<ExitCode as From<&MessagingError>>::from, (&message,), c),
    ensures
        e is Token && e->Token_0 == token ==> r == a,
        e is Receiver && e->Receiver_0 == hook ==> r == b,
        e is Messaging && e->Messaging_0 == message ==> r == c,
        e is Blockstore && message is Syscall && e->Blockstore_0 == message->Syscall_0 ==> r == c,
        !(e is Token) && !(e is Receiver) ==> r.value >= exit::USR_ILLEGAL_ARGUMENT,
        e is AddressNotAuthorized || e is MintingDisabled ==> r.value == exit::USR_FORBIDDEN,
        e is NoState ==> r.value == exit::USR_NOT_FOUND,
        e is Encoding || e is Serialization || e is Deserialization ==> r.value
            == exit::USR_SERIALIZATION,
{
}

} // verus!
