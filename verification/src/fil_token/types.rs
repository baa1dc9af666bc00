//! What goes into the methods of a token actor, and what comes out.
use vstd::prelude::*;

use crate::address::Address;
use crate::amount::TokenAmount;
use crate::bytes::{ActorID, RawBytes};

verus! {

/// Called to make a token actor
#[derive(Debug)]
pub struct ConstructorParams {
    /// What to mint first
    pub mint_params: MintParams,
    /// The name of the token
    pub name: String,
    /// The symbol of the token
    pub symbol: String,
}

/// Called during construction of the token actor to set a supply
#[derive(Debug)]
pub struct MintParams {
    /// Who gets the tokens
    pub initial_holder: ActorID,
    /// How many
    pub value: TokenAmount,
}

/// What came of minting
#[derive(Debug)]
pub struct MintReturn {
    /// Whether it succeeded
    pub successful: bool,
    /// How many tokens were made
    pub newly_minted: TokenAmount,
    /// How many there are now
    pub total_supply: TokenAmount,
}

/// An amount to increase or decrease an allowance by
#[derive(Debug)]
pub struct ChangeAllowanceParams {
    /// Whose tokens
    pub owner: Address,
    /// Who may spend them
    pub spender: Address,
    /// By how much
    pub value: TokenAmount,
}

/// Params to get allowance between to addresses
#[derive(Debug)]
pub struct GetAllowanceParams {
    /// Whose tokens
    pub owner: Address,
    /// Who may spend them
    pub spender: Address,
}

/// Instruction to revoke (set to 0) an allowance
#[derive(Debug)]
pub struct RevokeAllowanceParams {
    /// Whose tokens
    pub owner: Address,
    /// Who may spend them
    pub spender: Address,
}

/// The updated value after allowance is increased or decreased
#[derive(Debug)]
pub struct AllowanceReturn {
    /// Whose tokens
    pub owner: Address,
    /// Who may spend them
    pub spender: Address,
    /// How many
    pub value: TokenAmount,
}

/// Burns an amount of token from an address
#[derive(Debug)]
pub struct BurnParams {
    /// Whose tokens
    pub owner: Address,
    /// How many
    pub value: TokenAmount,
    /// Data of the caller
    pub data: RawBytes,
}

/// What came of burning
#[derive(Debug)]
pub struct BurnReturn {
    /// Whose tokens
    pub owner: Address,
    /// How many were burnt
    pub burnt: TokenAmount,
    /// How many are left
    pub remaining_balance: TokenAmount,
}

/// Instruction to transfer tokens
#[derive(Debug)]
pub struct TransferParams {
    /// Whose tokens
    pub from: Address,
    /// Who gets them
    pub to: Address,
    /// How many
    pub value: TokenAmount,
}

/// What came of a transfer
#[derive(Debug)]
pub struct TransferReturn {
    /// Whose tokens
    pub from: Address,
    /// Who got them
    pub to: Address,
    /// How many
    pub value: TokenAmount,
}

} // verus!
