//! Which method of a token a message is for, and what is done for it.
use vstd::prelude::*;

use crate::address::Address;
use crate::amount::TokenAmount;
use crate::bytes::{EncodingError, IpldBlock};
use crate::exit;
use crate::exit::{ErrorNumber, ExitCode};
use crate::frc46_token::types::{
    AllowanceReturn, BalanceReturn, BurnFromParams, BurnFromReturn, BurnParams, BurnReturn,
    DecreaseAllowanceParams, FRC46Token, GetAllowanceParams, IncreaseAllowanceParams,
    RevokeAllowanceParams, TotalSupplyReturn, TransferFromParams, TransferFromReturn,
    TransferParams, TransferReturn,
};
use crate::fvm_actor_utils::syscalls::MethodNum;

verus! {

/// The number of the method "Name".
pub const NAME: MethodNum = 48890204;

/// The number of the method "Symbol".
pub const SYMBOL: MethodNum = 2061153854;

/// The number of the method "Granularity".
pub const GRANULARITY: MethodNum = 3936767397;

/// The number of the method "TotalSupply".
pub const TOTAL_SUPPLY: MethodNum = 114981429;

/// The number of the method "BalanceOf".
pub const BALANCE_OF: MethodNum = 2266030508;

/// The number of the method "Allowance".
pub const ALLOWANCE: MethodNum = 4205072950;

/// The number of the method "IncreaseAllowance".
pub const INCREASE_ALLOWANCE: MethodNum = 1777121560;

/// The number of the method "DecreaseAllowance".
pub const DECREASE_ALLOWANCE: MethodNum = 1529376545;

/// The number of the method "RevokeAllowance".
pub const REVOKE_ALLOWANCE: MethodNum = 2765635761;

/// The number of the method "Burn".
pub const BURN: MethodNum = 1434719642;

/// The number of the method "BurnFrom".
pub const BURN_FROM: MethodNum = 2979674018;

/// The number of the method "TransferFrom".
pub const TRANSFER_FROM: MethodNum = 3621052141;

/// The number of the method "Transfer".
pub const TRANSFER: MethodNum = 80475954;

/// A method of the standard token interface.
#[derive(Debug, Clone, Copy, PartialEq, Eq, Structural)]
pub enum Frc46Method {
    /// The name.
    Name,
    /// The symbol.
    Symbol,
    /// The smallest amount.
    Granularity,
    /// The total supply.
    TotalSupply,
    /// A balance.
    BalanceOf,
    /// An allowance.
    Allowance,
    /// Increases an allowance.
    IncreaseAllowance,
    /// Decreases an allowance.
    DecreaseAllowance,
    /// Takes an allowance back.
    RevokeAllowance,
    /// Destroys tokens of the caller.
    Burn,
    /// Destroys tokens of an owner, by an operator.
    BurnFrom,
    /// Moves tokens of an owner, by an operator.
    TransferFrom,
    /// Moves tokens of the caller.
    Transfer,
}

/// The number of a method.
pub open spec fn number_of(method: Frc46Method) -> MethodNum {
    match method {
        Frc46Method::Name => NAME,
        Frc46Method::Symbol => SYMBOL,
        Frc46Method::Granularity => GRANULARITY,
        Frc46Method::TotalSupply => TOTAL_SUPPLY,
        Frc46Method::BalanceOf => BALANCE_OF,
        Frc46Method::Allowance => ALLOWANCE,
        Frc46Method::IncreaseAllowance => INCREASE_ALLOWANCE,
        Frc46Method::DecreaseAllowance => DECREASE_ALLOWANCE,
        Frc46Method::RevokeAllowance => REVOKE_ALLOWANCE,
        Frc46Method::Burn => BURN,
        Frc46Method::BurnFrom => BURN_FROM,
        Frc46Method::TransferFrom => TRANSFER_FROM,
        Frc46Method::Transfer => TRANSFER,
    }
}

/// The method that a number stands for, if it is one of the standard token interface
pub fn frc46_method(method_num: MethodNum) -> (r: Option<Frc46Method>)
    ensures
        r is Some ==> number_of(r->0) == method_num,
        r is None ==> forall|m: Frc46Method| #[trigger] number_of(m) != method_num,
{
    if method_num == NAME {
        return Some(Frc46Method::Name);
    }
    if method_num == SYMBOL {
        return Some(Frc46Method::Symbol);
    }
    if method_num == GRANULARITY {
        return Some(Frc46Method::Granularity);
    }
    if method_num == TOTAL_SUPPLY {
        return Some(Frc46Method::TotalSupply);
    }
    if method_num == BALANCE_OF {
        return Some(Frc46Method::BalanceOf);
    }
    if method_num == ALLOWANCE {
        return Some(Frc46Method::Allowance);
    }
    if method_num == INCREASE_ALLOWANCE {
        return Some(Frc46Method::IncreaseAllowance);
    }
    if method_num == DECREASE_ALLOWANCE {
        return Some(Frc46Method::DecreaseAllowance);
    }
    if method_num == REVOKE_ALLOWANCE {
        return Some(Frc46Method::RevokeAllowance);
    }
    if method_num == BURN {
        return Some(Frc46Method::Burn);
    }
    if method_num == BURN_FROM {
        return Some(Frc46Method::BurnFrom);
    }
    if method_num == TRANSFER_FROM {
        return Some(Frc46Method::TransferFrom);
    }
    if method_num == TRANSFER {
        return Some(Frc46Method::Transfer);
    }
    None
}

/// A call of a method of the standard token interface, with its parameters.
#[derive(Debug, PartialEq, Eq)]
pub enum Call {
    /// The name.
    Name,
    /// The symbol.
    Symbol,
    /// The smallest amount.
    Granularity,
    /// The total supply.
    TotalSupply,
    /// A balance.
    BalanceOf(Address),
    /// An allowance.
    Allowance(GetAllowanceParams),
    /// Increases an allowance.
    IncreaseAllowance(IncreaseAllowanceParams),
    /// Decreases an allowance.
    DecreaseAllowance(DecreaseAllowanceParams),
    /// Takes an allowance back.
    RevokeAllowance(RevokeAllowanceParams),
    /// Destroys tokens of the caller.
    Burn(BurnParams),
    /// Destroys tokens of an owner, by an operator.
    BurnFrom(BurnFromParams),
    /// Moves tokens of an owner, by an operator.
    TransferFrom(TransferFromParams),
    /// Moves tokens of the caller.
    Transfer(TransferParams),
}

impl Call {
    /// Whether the call moves amounts, which have to fit the granularity.
    pub open spec fn moves(&self) -> bool {
        self is Transfer || self is TransferFrom || self is Burn || self is BurnFrom
    }

    /// Whether the call moves amounts, which have to fit the granularity
    pub fn moves_amounts(&self) -> (r: bool)
        ensures
            r == self.moves(),
    {
        match self {
            Call::Transfer(_) | Call::TransferFrom(_) | Call::Burn(_) | Call::BurnFrom(_) => true,
            _ => false,
        }
    }
}

/// What a method of the standard token interface returns.
#[derive(Debug, PartialEq, Eq)]
pub enum Reply {
    /// A name or a symbol.
    Text(String),
    /// The smallest amount.
    Granularity(u64),
    /// A supply, a balance or an allowance.
    Amount(TokenAmount),
    /// What burning returns.
    Burn(BurnReturn),
    /// What burning by an operator returns.
    BurnFrom(BurnFromReturn),
    /// What a transfer by an operator returns.
    TransferFrom(TransferFromReturn),
    /// What a transfer returns.
    Transfer(TransferReturn),
    /// There is nothing to return.
    Nothing,
}

/// Generic invoke for FRC46 Token methods
/// Invokes the appropriate method on the FRC46Token interface
///
/// The flush_state function passed into this must flush current state to the blockstore and update
/// the root cid
/// This is called after operations which mutate the state, such as changing an allowance or burning
/// tokens.
///
/// Transfer and TransferFrom operations invoke the receiver hook which will require flushing state
/// before calling the hook
/// This must be done inside the FRC46Token::transfer/transfer_from functions
pub fn frc46_invoke<T: FRC46Token, F: FnOnce(&mut T) -> Result<(), T::TokenError>>(
    call: Call,
    token: &mut T,
    flush_state: F,
) -> (r: Result<Reply, T::TokenError>)
    requires
        old(token).readable(),
        call.moves() ==> old(token).usable(),
        forall|t: &mut T| t.readable() ==> #[trigger] flush_state.requires((t,)),
    ensures
            call matches Call::Name ==> *final(token) == *old(token) && r is Ok && r->Ok_0 is Text
                && call_ensures(T::name, (&*old(token),), r->Ok_0->Text_0),
            call matches Call::Symbol ==> *final(token) == *old(token) && r is Ok && r->Ok_0 is Text
                && call_ensures(T::symbol, (&*old(token),), r->Ok_0->Text_0),
            call matches Call::Granularity ==> *final(token) == *old(token) && r is Ok && r->Ok_0 is Granularity
                && call_ensures(T::granularity, (&*old(token),), r->Ok_0->Granularity_0),
            call matches Call::TotalSupply ==> exists|t: &mut T, q: TotalSupplyReturn|
                *t == *old(token) && *final(t) == *final(token) && #[trigger] call_ensures(
                    T::total_supply,
                    (t,),
                    q,
                ) && r == Ok::<Reply, T::TokenError>(Reply::Amount(q)),
            call matches Call::BalanceOf(params) ==> exists|t: &mut T, q: Result<BalanceReturn, T::TokenError>|
                *t == *old(token) && *final(t) == *final(token) && #[trigger] call_ensures(
                    T::balance_of,
                    (t, params),
                    q,
                ) && r == (match q {
                    Ok(res) => Ok(Reply::Amount(res)),
                    Err(e) => Err(e),
                }),
            call matches Call::Allowance(params) ==> exists|t: &mut T, q: Result<AllowanceReturn, T::TokenError>|
                *t == *old(token) && *final(t) == *final(token) && #[trigger] call_ensures(
                    T::allowance,
                    (t, params),
                    q,
                ) && r == (match q {
                    Ok(res) => Ok(Reply::Amount(res)),
                    Err(e) => Err(e),
                }),
            call matches Call::TransferFrom(params) ==> exists|t: &mut T, q: Result<TransferFromReturn, T::TokenError>|
                *t == *old(token) && *final(t) == *final(token) && #[trigger] call_ensures(
                    T::transfer_from,
                    (t, params),
                    q,
                ) && r == (match q {
                    Ok(res) => Ok(Reply::TransferFrom(res)),
                    Err(e) => Err(e),
                }),
            call matches Call::Transfer(params) ==> exists|t: &mut T, q: Result<TransferReturn, T::TokenError>|
                *t == *old(token) && *final(t) == *final(token) && #[trigger] call_ensures(
                    T::transfer,
                    (t, params),
                    q,
                ) && r == (match q {
                    Ok(res) => Ok(Reply::Transfer(res)),
                    Err(e) => Err(e),
                }),
            call matches Call::IncreaseAllowance(params) ==> exists|t: &mut T, q: Result<AllowanceReturn, T::TokenError>|
                *t == *old(token) && #[trigger] call_ensures(T::increase_allowance, (t, params), q) && match q {
                    Err(e) => r == Err::<Reply, T::TokenError>(e) && *final(token) == *final(t),
                    Ok(res) => exists|u: &mut T, w: Result<(), T::TokenError>|
                        *u == *final(t) && *final(u) == *final(token)
                            && #[trigger] flush_state.ensures((u,), w) && r == (match w {
                            Ok(()) => Ok(Reply::Amount(res)),
                            Err(e) => Err(e),
                        }),
                },
            call matches Call::DecreaseAllowance(params) ==> exists|t: &mut T, q: Result<AllowanceReturn, T::TokenError>|
                *t == *old(token) && #[trigger] call_ensures(T::decrease_allowance, (t, params), q) && match q {
                    Err(e) => r == Err::<Reply, T::TokenError>(e) && *final(token) == *final(t),
                    Ok(res) => exists|u: &mut T, w: Result<(), T::TokenError>|
                        *u == *final(t) && *final(u) == *final(token)
                            && #[trigger] flush_state.ensures((u,), w) && r == (match w {
                            Ok(()) => Ok(Reply::Amount(res)),
                            Err(e) => Err(e),
                        }),
                },
            call matches Call::RevokeAllowance(params) ==> exists|t: &mut T, q: Result<(), T::TokenError>|
                *t == *old(token) && #[trigger] call_ensures(T::revoke_allowance, (t, params), q) && match q {
                    Err(e) => r == Err::<Reply, T::TokenError>(e) && *final(token) == *final(t),
                    Ok(_) => exists|u: &mut T, w: Result<(), T::TokenError>|
                        *u == *final(t) && *final(u) == *final(token)
                            && #[trigger] flush_state.ensures((u,), w) && r == (match w {
                            Ok(()) => Ok(Reply::Nothing),
                            Err(e) => Err(e),
                        }),
                },
            call matches Call::Burn(params) ==> exists|t: &mut T, q: Result<BurnReturn, T::TokenError>|
                *t == *old(token) && #[trigger] call_ensures(T::burn, (t, params), q) && match q {
                    Err(e) => r == Err::<Reply, T::TokenError>(e) && *final(token) == *final(t),
                    Ok(res) => exists|u: &mut T, w: Result<(), T::TokenError>|
                        *u == *final(t) && *final(u) == *final(token)
                            && #[trigger] flush_state.ensures((u,), w) && r == (match w {
                            Ok(()) => Ok(Reply::Burn(res)),
                            Err(e) => Err(e),
                        }),
                },
            call matches Call::BurnFrom(params) ==> exists|t: &mut T, q: Result<BurnFromReturn, T::TokenError>|
                *t == *old(token) && #[trigger] call_ensures(T::burn_from, (t, params), q) && match q {
                    Err(e) => r == Err::<Reply, T::TokenError>(e) && *final(token) == *final(t),
                    Ok(res) => exists|u: &mut T, w: Result<(), T::TokenError>|
                        *u == *final(t) && *final(u) == *final(token)
                            && #[trigger] flush_state.ensures((u,), w) && r == (match w {
                            Ok(()) => Ok(Reply::BurnFrom(res)),
                            Err(e) => Err(e),
                        }),
                },
{
    match call {
        Call::Name => Ok(Reply::Text(token.name())),
        Call::Symbol => Ok(Reply::Text(token.symbol())),
        Call::Granularity => Ok(Reply::Granularity(token.granularity())),
        Call::TotalSupply => {
            let supply = token.total_supply();
            Ok(Reply::Amount(supply))
        },
        Call::BalanceOf(params) => {
            match token.balance_of(params) {
                Ok(res) => Ok(Reply::Amount(res)),
                Err(e) => Err(e),
            }
        },
        Call::Allowance(params) => {
            match token.allowance(params) {
                Ok(res) => Ok(Reply::Amount(res)),
                Err(e) => Err(e),
            }
        },
        Call::TransferFrom(params) => {
            match token.transfer_from(params) {
                Ok(res) => Ok(Reply::TransferFrom(res)),
                Err(e) => Err(e),
            }
        },
        Call::Transfer(params) => {
            match token.transfer(params) {
                Ok(res) => Ok(Reply::Transfer(res)),
                Err(e) => Err(e),
            }
        },
        Call::IncreaseAllowance(params) => {
            let res = match token.increase_allowance(params) {
                Ok(res) => res,
                Err(e) => return Err(e),
            };
            match flush_state(token) {
                Ok(()) => Ok(Reply::Amount(res)),
                Err(e) => Err(e),
            }
        },
        Call::DecreaseAllowance(params) => {
            let res = match token.decrease_allowance(params) {
                Ok(res) => res,
                Err(e) => return Err(e),
            };
            match flush_state(token) {
                Ok(()) => Ok(Reply::Amount(res)),
                Err(e) => Err(e),
            }
        },
        Call::RevokeAllowance(params) => {
            let res = match token.revoke_allowance(params) {
                Ok(res) => res,
                Err(e) => return Err(e),
            };
            match flush_state(token) {
                Ok(()) => Ok(Reply::Nothing),
                Err(e) => Err(e),
            }
        },
        Call::Burn(params) => {
            let res = match token.burn(params) {
                Ok(res) => res,
                Err(e) => return Err(e),
            };
            match flush_state(token) {
                Ok(()) => Ok(Reply::Burn(res)),
                Err(e) => Err(e),
            }
        },
        Call::BurnFrom(params) => {
            let res = match token.burn_from(params) {
                Ok(res) => res,
                Err(e) => return Err(e),
            };
            match flush_state(token) {
                Ok(()) => Ok(Reply::BurnFrom(res)),
                Err(e) => Err(e),
            }
        },
    }
}

/// Why the parameters of a call cannot be had.
#[derive(Debug, PartialEq, Eq)]
pub enum ParamsError {
    /// The call came without parameters.
    Missing,
    /// The parameters could not be fetched.
    Raw(ErrorNumber),
    /// The parameters are not what the method takes.
    Malformed(EncodingError),
}

impl ParamsError {
    /// The exit code for parameters that cannot be had.
    pub open spec fn exit(self) -> ExitCode {
        match self {
            ParamsError::Missing => ExitCode { value: exit::USR_ILLEGAL_ARGUMENT },
            _ => ExitCode { value: exit::USR_SERIALIZATION },
        }
    }
}

impl From<&ParamsError> for ExitCode {
    fn from(error: &ParamsError) -> (r: Self) {
        match error {
            ParamsError::Missing => ExitCode { value: exit::USR_ILLEGAL_ARGUMENT },
            ParamsError::Raw(_) | ParamsError::Malformed(_) => ExitCode {
                value: exit::USR_SERIALIZATION,
            },
        }
    }
}

impl vstd::std_specs::convert::FromSpecImpl<&ParamsError> for ExitCode {
    open spec fn obeys_from_spec() -> bool {
        true
    }

    open spec fn from_spec(error: &ParamsError) -> Self {
        error.exit()
    }
}

/// The block of parameters for passing to token methods, from what the system call came back with
pub fn frc46_unpack_params(raw: Result<Option<IpldBlock>, ErrorNumber>) -> (r: Result<
    IpldBlock,
    ParamsError,
>)
    ensures
        r == (match raw {
            Ok(Some(params)) => Ok(params),
            Ok(None) => Err(ParamsError::Missing),
            Err(e) => Err(ParamsError::Raw(e)),
        }),
{
    match raw {
        Ok(Some(params)) => Ok(params),
        Ok(None) => Err(ParamsError::Missing),
        Err(e) => Err(ParamsError::Raw(e)),
    }
}

} // verus!
