//! What the token's methods take and return.
use vstd::prelude::*;

use crate::address::Address;
use crate::amount::TokenAmount;
use crate::bytes::RawBytes;
use crate::fvm_actor_utils::receiver::RecipientData;

verus! {

/// Return value after a successful mint
#[derive(Debug, PartialEq, Eq)]
pub struct MintReturn {
    /// The new balance of the owner address
    pub balance: TokenAmount,
    /// The new total supply.
    pub supply: TokenAmount,
    /// (Optional) data returned from receiver hook
    pub recipient_data: RawBytes,
}

/// Intermediate data used by mint_return to construct the return data
#[derive(Debug, PartialEq, Eq)]
pub struct MintIntermediate {
    /// Recipient address to use for querying balance
    pub recipient: Address,
    /// (Optional) data returned from receiver hook
    pub recipient_data: RawBytes,
}

impl RecipientData for MintIntermediate {
    open spec fn completed_by(&self, data: Seq<u8>, after: &Self) -> bool {
        after.recipient == self.recipient && after.recipient_data@ == data
    }

    fn set_recipient_data(&mut self, data: RawBytes) {
        self.recipient_data = data;
    }
}

/// Return value after a successful transfer
#[derive(Debug, PartialEq, Eq)]
pub struct TransferReturn {
    /// The new balance of the `from` address
    pub from_balance: TokenAmount,
    /// The new balance of the `to` address
    pub to_balance: TokenAmount,
    /// (Optional) data returned from receiver hook
    pub recipient_data: RawBytes,
}

/// Intermediate data used by transfer_return to construct the return data
#[derive(Debug, PartialEq, Eq)]
pub struct TransferIntermediate {
    /// Who sent the tokens
    pub from: Address,
    /// Who received them
    pub to: Address,
    /// (Optional) data returned from receiver hook
    pub recipient_data: RawBytes,
}

impl RecipientData for TransferIntermediate {
    open spec fn completed_by(&self, data: Seq<u8>, after: &Self) -> bool {
        after.from == self.from && after.to == self.to && after.recipient_data@ == data
    }

    fn set_recipient_data(&mut self, data: RawBytes) {
        self.recipient_data = data;
    }
}

/// Return value after a successful delegated transfer
#[derive(Debug, PartialEq, Eq)]
pub struct TransferFromReturn {
    /// The new balance of the `from` address
    pub from_balance: TokenAmount,
    /// The new balance of the `to` address
    pub to_balance: TokenAmount,
    /// The new remaining allowance between `owner` and `operator` (caller)
    pub allowance: TokenAmount,
    /// (Optional) data returned from receiver hook
    pub recipient_data: RawBytes,
}

/// Intermediate data used by transfer_from_return to construct the return data
#[derive(Debug, PartialEq, Eq)]
pub struct TransferFromIntermediate {
    /// Who initiated the transfer
    pub operator: Address,
    /// Who sent the tokens
    pub from: Address,
    /// Who received them
    pub to: Address,
    /// (Optional) data returned from receiver hook
    pub recipient_data: RawBytes,
}

impl RecipientData for TransferFromIntermediate {
    open spec fn completed_by(&self, data: Seq<u8>, after: &Self) -> bool {
        after.operator == self.operator && after.from == self.from && after.to == self.to
            && after.recipient_data@ == data
    }

    fn set_recipient_data(&mut self, data: RawBytes) {
        self.recipient_data = data;
    }
}

/// The updated value after burning
#[derive(Debug, PartialEq, Eq)]
pub struct BurnReturn {
    /// New balance in the account after the successful burn
    pub balance: TokenAmount,
}

/// The updated value after a delegated burn
#[derive(Debug, PartialEq, Eq)]
pub struct BurnFromReturn {
    /// New balance in the account after the successful burn
    pub balance: TokenAmount,
    /// New remaining allowance between the owner and operator (caller)
    pub allowance: TokenAmount,
}

/// Instruction to transfer tokens to another address
#[derive(Debug, PartialEq, Eq)]
pub struct TransferParams {
    /// The receiver
    pub to: Address,
    /// A non-negative amount to transfer
    pub amount: TokenAmount,
    /// Arbitrary data to pass on via the receiver hook
    pub operator_data: RawBytes,
}

/// Instruction to transfer tokens between two addresses as an operator
#[derive(Debug, PartialEq, Eq)]
pub struct TransferFromParams {
    /// Whose tokens
    pub from: Address,
    /// The receiver
    pub to: Address,
    /// A non-negative amount to transfer
    pub amount: TokenAmount,
    /// Arbitrary data to pass on via the receiver hook
    pub operator_data: RawBytes,
}

/// Instruction to increase an allowance between two addresses
#[derive(Debug, PartialEq, Eq)]
pub struct IncreaseAllowanceParams {
    /// Who may spend
    pub operator: Address,
    /// A non-negative amount to increase the allowance by
    pub increase: TokenAmount,
}

/// Instruction to decrease an allowance between two addresses
#[derive(Debug, PartialEq, Eq)]
pub struct DecreaseAllowanceParams {
    /// Who may spend
    pub operator: Address,
    /// A non-negative amount to decrease the allowance by
    pub decrease: TokenAmount,
}

/// Instruction to revoke (set to 0) an allowance
#[derive(Debug, PartialEq, Eq)]
pub struct RevokeAllowanceParams {
    /// Who may spend
    pub operator: Address,
}

/// Params to get allowance between to addresses
#[derive(Debug, PartialEq, Eq)]
pub struct GetAllowanceParams {
    /// Whose tokens
    pub owner: Address,
    /// Who may spend
    pub operator: Address,
}

/// Instruction to burn an amount of tokens
#[derive(Debug, PartialEq, Eq)]
pub struct BurnParams {
    /// A non-negative amount to burn
    pub amount: TokenAmount,
}

/// Instruction to burn an amount of tokens from another address
#[derive(Debug, PartialEq, Eq)]
pub struct BurnFromParams {
    /// Whose tokens
    pub owner: Address,
    /// A non-negative amount to burn
    pub amount: TokenAmount,
}

/// The smallest amount.
pub type GranularityReturn = u64;

/// The total supply.
pub type TotalSupplyReturn = TokenAmount;

/// A balance.
pub type BalanceReturn = TokenAmount;

/// An allowance.
pub type AllowanceReturn = TokenAmount;

/// A standard fungible token interface allowing for on-chain transactions that implements the
/// FRC-0046 standard. This represents the external interface exposed to other on-chain actors
///
/// Token authors must implement this trait and link the methods to standard dispatch numbers (as
/// defined by [FRC-0042](https://github.com/filecoin-project/FIPs/blob/master/FRCs/frc-0042.md)).
pub trait FRC46Token: Sized {
    /// Why a method fails
    type TokenError;

    /// Whether the token can be read, and its allowances changed.
    spec fn readable(&self) -> bool;

    /// Whether amounts of the token can be moved.
    spec fn usable(&self) -> bool;

    /// Returns the name of the token
    ///
    /// Must not be empty
    fn name(&self) -> (r: String)
    ;

    /// Returns the ticker symbol of the token
    ///
    /// Must not be empty. Should be a short uppercase string
    fn symbol(&self) -> (r: String)
    ;

    /// Returns the smallest amount of tokens which is indivisible.
    ///
    /// All transfers, burns, and mints must be a whole multiple of the granularity. All balances
    /// must be a multiple of this granularity (but allowances need not be). Must be at least 1.
    /// Must never change.
    ///
    /// A granularity of 10^18 corresponds to whole units only, with no further decimal precision.
    fn granularity(&self) -> (r: GranularityReturn)
    ;

    /// Returns the total amount of the token in existence
    ///
    /// Must be non-negative. The total supply must equal the balances of all addresses. The total
    /// supply should equal the sum of all minted tokens less the sum of all burnt tokens.
    fn total_supply(&mut self) -> (r: TotalSupplyReturn)
        requires
            old(self).readable(),
        ensures
            final(self).readable(),
    ;

    /// Returns the balance of an address
    ///
    /// Balance is always non-negative. Uninitialised addresses have an implicit zero balance.
    fn balance_of(&mut self, params: Address) -> (r: Result<BalanceReturn, Self::TokenError>)
        requires
            old(self).readable(),
        ensures
            final(self).readable(),
    ;

    /// Returns the allowance approved for an operator on a spender's balance
    ///
    /// The operator can burn or transfer the allowance amount out of the owner's address.
    fn allowance(&mut self, params: GetAllowanceParams) -> (r: Result<AllowanceReturn, Self::TokenError>)
        requires
            old(self).readable(),
        ensures
            final(self).readable(),
    ;

    /// Transfers tokens from the caller to another address
    ///
    /// Amount must be non-negative (but can be zero). Transferring to the caller's own address must
    /// be treated as a normal transfer. Must call the receiver hook on the receiver's address,
    /// failing and aborting the transfer if calling the hook fails or aborts.
    fn transfer(&mut self, params: TransferParams) -> (r: Result<TransferReturn, Self::TokenError>)
        requires
            old(self).usable(),
        ensures
            r is Ok ==> final(self).readable(),
    ;

    /// Transfers tokens from one address to another
    ///
    /// The caller must have previously approved to control at least the sent amount. If successful,
    /// the amount transferred is deducted from the caller's allowance.
    fn transfer_from(&mut self, params: TransferFromParams) -> (r: Result<TransferFromReturn, Self::TokenError>)
        requires
            old(self).usable(),
        ensures
            r is Ok ==> final(self).readable(),
    ;

    /// Atomically increases the approved allowance that a operator can transfer/burn from the
    /// caller's balance
    ///
    /// The increase must be non-negative. Returns the new total allowance approved for that
    /// owner-operator pair.
    fn increase_allowance(
        &mut self,
        params: IncreaseAllowanceParams,
    ) -> (r: Result<AllowanceReturn, Self::TokenError>)
        requires
            old(self).readable(),
        ensures
            final(self).readable(),
    ;

    /// Atomically decreases the approved balance that a operator can transfer/burn from the caller's
    /// balance
    ///
    /// The decrease must be non-negative. Sets the allowance to zero if the decrease is greater
    /// than the currently approved allowance. Returns the new total allowance approved for that
    /// owner-operator pair.
    fn decrease_allowance(
        &mut self,
        params: DecreaseAllowanceParams,
    ) -> (r: Result<AllowanceReturn, Self::TokenError>)
        requires
            old(self).readable(),
        ensures
            final(self).readable(),
    ;

    /// Sets the allowance a operator has on the owner's account to zero
    fn revoke_allowance(
        &mut self,
        params: RevokeAllowanceParams,
    ) -> (r: Result<(), Self::TokenError>)
        requires
            old(self).readable(),
        ensures
            final(self).readable(),
    ;

    /// Burns tokens from the caller's balance, decreasing the total supply
    fn burn(&mut self, params: BurnParams) -> (r: Result<BurnReturn, Self::TokenError>)
        requires
            old(self).usable(),
        ensures
            final(self).readable(),
    ;

    /// Burns tokens from an address's balance
    ///
    /// The caller must have been previously approved to control at least the burnt amount.
    fn burn_from(&mut self, params: BurnFromParams) -> (r: Result<BurnFromReturn, Self::TokenError>)
        requires
            old(self).usable(),
        ensures
            final(self).readable(),
    ;
}

} // verus!
