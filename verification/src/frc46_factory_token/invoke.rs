//! Which method of the factory token's actor a message is for, and what is done for it.
use vstd::prelude::*;

use crate::frc46_factory_token::actor::{FactoryActor, MintParams, Roots};
use crate::frc46_factory_token::dispatch;
use crate::frc46_factory_token::dispatch::{frc46_invoke, frc46_method, Call, Frc46Method, Reply};
use crate::frc46_factory_token::error::RuntimeError;
use crate::frc46_token::types::MintReturn;
use crate::fvm_actor_utils::syscalls::{MethodNum, Syscalls};

verus! {

/// The number of the method "Constructor".
pub const CONSTRUCTOR: MethodNum = 1;

/// The number of the method "Mint".
pub const MINT: MethodNum = 116935346;

/// The number of the method "DisableMint".
pub const DISABLE_MINT: MethodNum = 3092795173;

/// A method of the factory token's actor.
#[derive(Debug, Clone, Copy, PartialEq, Eq, Structural)]
pub enum FactoryMethod {
    /// Makes the token.
    Constructor,
    /// Mints tokens.
    Mint,
    /// Permanently disables minting.
    DisableMint,
    /// A method of the standard token interface.
    Token(Frc46Method),
}

/// The number of a method.
pub open spec fn number_of(method: FactoryMethod) -> MethodNum {
    match method {
        FactoryMethod::Constructor => CONSTRUCTOR,
        FactoryMethod::Mint => MINT,
        FactoryMethod::DisableMint => DISABLE_MINT,
        FactoryMethod::Token(method) => dispatch::number_of(method),
    }
}

/// The method that a number stands for, if the actor has one
pub fn factory_method(method_num: MethodNum) -> (r: Option<FactoryMethod>)
    ensures
        r is Some ==> number_of(r->0) == method_num,
        r is None ==> forall|m: FactoryMethod| #[trigger] number_of(m) != method_num,
{
    if method_num == CONSTRUCTOR {
        return Some(FactoryMethod::Constructor);
    }
    if method_num == MINT {
        return Some(FactoryMethod::Mint);
    }
    if method_num == DISABLE_MINT {
        return Some(FactoryMethod::DisableMint);
    }
    match frc46_method(method_num) {
        Some(method) => Some(FactoryMethod::Token(method)),
        None => None,
    }
}

/// A call of a method that works with a token that there is, with its parameters.
#[derive(Debug)]
pub enum FactoryCall {
    /// Mints tokens.
    Mint(MintParams),
    /// Permanently disables minting.
    DisableMint,
    /// A method of the standard token interface.
    Token(Call),
}

impl FactoryCall {
    /// Whether the call moves amounts, which have to fit the granularity. Only the minter mints.
    pub open spec fn moves<'st, S: Syscalls, R: Roots>(&self, actor: FactoryActor<'st, S, R>) -> bool {
        match *self {
            FactoryCall::Mint(_) => actor.minter == Some(actor.caller),
            FactoryCall::DisableMint => false,
            FactoryCall::Token(call) => call.moves(),
        }
    }
}

/// What a method of the factory token's actor returns.
#[derive(Debug)]
pub enum FactoryReply {
    /// What minting returns.
    Mint(MintReturn),
    /// What a method of the standard token interface returns.
    Token(Reply),
}

/// Invokes a method on a token that there is
///
/// The flush_state function passed into this must flush current state to the blockstore and update
/// the root cid
pub fn token_invoke<
    'st,
    S: Syscalls,
    R: Roots,
    F: FnOnce(&mut FactoryActor<'st, S, R>) -> Result<(), RuntimeError>,
>(call: FactoryCall, actor: &mut FactoryActor<'st, S, R>, flush_state: F) -> (r: Result<
    FactoryReply,
    RuntimeError,
>)
    requires
        old(actor).token.readable(),
        call.moves(*old(actor)) ==> old(actor).token.usable(),
        forall|t: &mut FactoryActor<'st, S, R>|
            t.token.readable() ==> #[trigger] flush_state.requires((t,)),
    ensures
        call matches FactoryCall::Mint(params) ==> exists|
            t: &mut FactoryActor<'st, S, R>,
            q: Result<MintReturn, RuntimeError>,
        |
            *t == *old(actor) && *final(t) == *final(actor) && #[trigger] call_ensures(
                FactoryActor::<'st, S, R>::mint,
                (t, params),
                q,
            ) && r == (match q {
                Ok(res) => Ok(FactoryReply::Mint(res)),
                Err(e) => Err(e),
            }),
        call matches FactoryCall::DisableMint ==> exists|
            t: &mut FactoryActor<'st, S, R>,
            q: Result<(), RuntimeError>,
        |
            *t == *old(actor) && #[trigger] call_ensures(
                FactoryActor::<'st, S, R>::disable_mint,
                (t,),
                q,
            ) && match q {
                Err(e) => r == Err::<FactoryReply, RuntimeError>(e) && *final(actor) == *final(t),
                Ok(_) => exists|u: &mut FactoryActor<'st, S, R>, w: Result<(), RuntimeError>|
                    *u == *final(t) && *final(u) == *final(actor)
                        && #[trigger] flush_state.ensures((u,), w) && r == (match w {
                        Ok(()) => Ok(FactoryReply::Token(Reply::Nothing)),
                        Err(e) => Err(e),
                    }),
            },
        call matches FactoryCall::Token(inner) ==> exists|
            t: &mut FactoryActor<'st, S, R>,
            q: Result<Reply, RuntimeError>,
        |
            *t == *old(actor) && *final(t) == *final(actor) && #[trigger] call_ensures(
                frc46_invoke::<FactoryActor<'st, S, R>, F>,
                (inner, t, flush_state),
                q,
            ) && r == (match q {
                Ok(res) => Ok(FactoryReply::Token(res)),
                Err(e) => Err(e),
            }),
{
    match call {
        FactoryCall::Mint(params) => match actor.mint(params) {
            Ok(res) => Ok(FactoryReply::Mint(res)),
            Err(e) => Err(e),
        },
        FactoryCall::DisableMint => {
            // disable minting forever
            match actor.disable_mint() {
                Ok(()) => {},
                Err(e) => return Err(e),
            }
            // save state
            match flush_state(actor) {
                Ok(()) => Ok(FactoryReply::Token(Reply::Nothing)),
                Err(e) => Err(e),
            }
        },
        FactoryCall::Token(inner) => match frc46_invoke(inner, actor, flush_state) {
            Ok(res) => Ok(FactoryReply::Token(res)),
            Err(e) => Err(e),
        },
    }
}

} // verus!
