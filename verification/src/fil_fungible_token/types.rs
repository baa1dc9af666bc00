//! The interface of a fungible token, and what goes in and comes out.
use vstd::prelude::*;

use crate::address::Address;
use crate::amount::TokenAmount;
use crate::fil_fungible_token::error::TokenError;

pub use crate::frc46_token::types::{
    BurnFromParams, BurnFromReturn, BurnParams, BurnReturn, DecreaseAllowanceParams,
    GetAllowanceParams, IncreaseAllowanceParams, RevokeAllowanceParams, TransferFromParams,
    TransferParams,
};

verus! {

/// Why a method of a token actor fails.
#[derive(Debug)]
pub enum ActorError<E> {
    /// Token error
    Token(TokenError),
    /// Error during actor execution
    Runtime(E),
}

/// What a method of a token actor returns.
pub type ActorResult<T, E> = Result<T, ActorError<E>>;

/// The smallest amount.
pub type GranularityReturn = u64;

/// The total supply.
pub type TotalSupplyReturn = TokenAmount;

/// A balance.
pub type BalanceReturn = TokenAmount;

/// An allowance.
pub type AllowanceReturn = TokenAmount;

/// The allowance after it grew.
pub type IncreaseAllowanceReturn = TokenAmount;

/// The allowance after it shrank.
pub type DecreaseAllowanceReturn = TokenAmount;

/// Nothing.
pub type RevokeAllowanceReturn = ();

/// A standard fungible token interface allowing for on-chain transactions that implements the
/// FRC-0046 standard. This represents the external interface exposed to other on-chain actors
///
/// Token authors must implement this trait and link the methods to standard dispatch numbers (as
/// defined by [FRC-0042](https://github.com/filecoin-project/FIPs/blob/master/FRCs/frc-0042.md)).
pub trait FRC46Token<E> {
    /// Returns the name of the token
    ///
    /// Must not be empty
    fn name(&self) -> String;

    /// Returns the ticker symbol of the token
    ///
    /// Must not be empty. Should be a short uppercase string
    fn symbol(&self) -> String;

    /// Returns the smallest amount of tokens which is indivisible.
    ///
    /// All transfers, burns, and mints must be a whole multiple of the granularity. All balances
    /// must be a multiple of this granularity (but allowances need not be). Must be at least 1.
    /// Must never change.
    ///
    /// A granularity of 10^18 corresponds to whole units only, with no further decimal precision.
    fn granularity(&self) -> GranularityReturn;

    /// Returns the total amount of the token in existence
    ///
    /// Must be non-negative. The total supply must equal the balances of all addresses. The total
    /// supply should equal the sum of all minted tokens less the sum of all burnt tokens.
    fn total_supply(&self) -> TotalSupplyReturn;

    /// Returns the balance of an address
    ///
    /// Balance is always non-negative. Uninitialised addresses have an implicit zero balance.
    fn balance_of(&self, params: Address) -> ActorResult<BalanceReturn, E>;

    /// Returns the allowance approved for an operator on a spender's balance
    ///
    /// The operator can burn or transfer the allowance amount out of the owner's address.
    fn allowance(&mut self, params: GetAllowanceParams) -> ActorResult<AllowanceReturn, E>;

    /// Transfers tokens from the caller to another address
    ///
    /// Amount must be non-negative (but can be zero). Transferring to the caller's own address must
    /// be treated as a normal transfer. Must call the receiver hook on the receiver's address,
    /// failing and aborting the transfer if calling the hook fails or aborts.
    fn transfer(&mut self, params: TransferParams) -> ActorResult<TransferReturn, E>;

    /// Transfers tokens from one address to another
    ///
    /// The caller must have previously approved to control at least the sent amount. If successful,
    /// the amount transferred is deducted from the caller's allowance.
    fn transfer_from(&mut self, params: TransferFromParams) -> ActorResult<TransferFromReturn, E>;

    /// Atomically increases the approved allowance that a operator can transfer/burn from the
    /// caller's balance
    ///
    /// The increase must be non-negative. Returns the new total allowance approved for that
    /// owner-operator pair.
    fn increase_allowance(
        &mut self,
        params: IncreaseAllowanceParams,
    ) -> ActorResult<IncreaseAllowanceReturn, E>;

    /// Atomically decreases the approved balance that a operator can transfer/burn from the caller's
    /// balance
    ///
    /// The decrease must be non-negative. Sets the allowance to zero if the decrease is greater
    /// than the currently approved allowance. Returns the new total allowance approved for that
    /// owner-operator pair.
    fn decrease_allowance(
        &mut self,
        params: DecreaseAllowanceParams,
    ) -> ActorResult<DecreaseAllowanceReturn, E>;

    /// Sets the allowance a operator has on the owner's account to zero
    fn revoke_allowance(
        &mut self,
        params: RevokeAllowanceParams,
    ) -> ActorResult<RevokeAllowanceReturn, E>;

    /// Burns tokens from the caller's balance, decreasing the total supply
    fn burn(&mut self, params: BurnParams) -> ActorResult<BurnReturn, E>;

    /// Burns tokens from an address's balance
    ///
    /// The caller must have been previously approved to control at least the burnt amount.
    fn burn_from(&mut self, params: BurnFromParams) -> ActorResult<BurnFromReturn, E>;
}

/// Return value after a successful mint.
#[derive(Debug)]
pub struct MintReturn {
    /// The new balance of the owner address
    pub balance: TokenAmount,
    /// The new total supply
    pub supply: TokenAmount,
}

/// Return value after a successful transfer
#[derive(Debug)]
pub struct TransferReturn {
    /// The new balance of the `from` address
    pub from_balance: TokenAmount,
    /// The new balance of the `to` address
    pub to_balance: TokenAmount,
}

/// Return value after a successful delegated transfer
#[derive(Debug)]
pub struct TransferFromReturn {
    /// The new balance of the `from` address
    pub from_balance: TokenAmount,
    /// The new balance of the `to` address
    pub to_balance: TokenAmount,
    /// The new remaining allowance between `owner` and `operator` (caller)
    pub allowance: TokenAmount,
}

} // verus!
