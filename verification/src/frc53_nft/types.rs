//! Interfaces and types for the frc53 NFT standard
use fvm_ipld_bitfield::BitField;
use vstd::prelude::*;

use crate::address::Address;
use crate::bytes::{ActorID, Cid, RawBytes};
use crate::fvm_actor_utils::receiver::RecipientData;
use crate::nft_store::TokenID;

verus! {

/// Multiple token IDs are represented as a BitField encoded with RLE+ the index of each set bit
/// corresponds to a TokenID.
pub type TokenSet = BitField;

/// Multiple actor IDs are represented as a BitField encoded with RLE+ the index of each set bit
/// corresponds to a ActorID.
pub type ActorIDSet = BitField;

/// Opaque cursor to iterate over internal data structures.
#[derive(Debug)]
pub struct Cursor {
    /// The root of the tokens that the cursor belongs to
    pub root: Cid,
    /// Where to go on
    pub index: u64,
}

/// A trait to be implemented by FRC-0053 compliant actors.
pub trait FRC53NFT {
    /// A descriptive name for the collection of NFTs in this actor.
    fn name(&self) -> String;

    /// An abbreviated name for NFTs in this contract.
    fn symbol(&self) -> String;

    /// Gets a link to associated metadata for a given NFT.
    fn metadata(&self, params: TokenID) -> Cid;

    /// Gets the total number of NFTs in this actor.
    fn total_supply(&self) -> u64;

    /// Burns a given NFT, removing it from the total supply and preventing new NFTs from being
    /// minted with the same ID.
    fn burn(&self, token_id: TokenID);

    /// Gets a list of all the tokens in the collection.
    fn list_tokens(&self) -> Vec<TokenID>;

    /// Gets the number of tokens held by a particular address (if it exists).
    fn balance_of(&self, owner: Address) -> u64;

    /// Returns the owner of the NFT specified by `token_id`.
    fn owner_of(&self, token_id: TokenID) -> ActorID;

    /// Transfers specific NFTs from the caller to another account.
    fn transfer(&self, params: TransferParams);

    /// Transfers specific NFTs between the `from` and `to` addresses.
    fn transfer_from(&self, params: TransferFromParams);

    /// Change or reaffirm the approved address for a set of NFTs, setting to zero means there is no
    /// approved address.
    fn approve(&self, params: ApproveParams);

    /// Set approval for all, allowing an operator to control all of the caller's tokens (including
    /// future tokens) until approval is revoked.
    fn set_approval_for_all(&self, params: ApproveForAllParams);

    /// Get the approved address for a single NFT.
    fn get_approved(&self, params: TokenID) -> ActorID;

    /// Query if the address is the approved operator for another address.
    fn is_approved_for_all(&self, params: IsApprovedForAllParams) -> bool;
}

/// Return value after a successful mint.
///
/// The mint method is not standardised, so this is merely a useful library-level type, and
/// recommendation for token implementations.
#[derive(Debug)]
pub struct MintReturn {
    /// The new balance of the owner address.
    pub balance: u64,
    /// The new total supply.
    pub supply: u64,
    /// List of the tokens that were minted successfully (some may have been burned during hook
    /// execution).
    pub token_ids: Vec<TokenID>,
    /// (Optional) data returned from the receiver hook.
    pub recipient_data: RawBytes,
}

/// Intermediate data used by mint_return to construct the return data.
#[derive(Debug)]
pub struct MintIntermediate {
    /// Receiving address used for querying balance.
    pub to: ActorID,
    /// List of the newly minted tokens.
    pub token_ids: Vec<TokenID>,
    /// (Optional) data returned from the receiver hook.
    pub recipient_data: RawBytes,
}

impl RecipientData for MintIntermediate {
    open spec fn completed_by(&self, data: Seq<u8>, after: &Self) -> bool {
        after.to == self.to && after.token_ids == self.token_ids && after.recipient_data@ == data
    }

    fn set_recipient_data(&mut self, data: RawBytes) {
        self.recipient_data = data;
    }
}

/// Intermediate data used by `transfer_return` to construct the return data.
#[derive(Debug)]
pub struct TransferIntermediate {
    /// The tokens.
    pub token_ids: Vec<TokenID>,
    /// Who gave them.
    pub from: ActorID,
    /// Who got them.
    pub to: ActorID,
    /// (Optional) data returned from the receiver hook.
    pub recipient_data: RawBytes,
}

impl RecipientData for TransferIntermediate {
    open spec fn completed_by(&self, data: Seq<u8>, after: &Self) -> bool {
        after.token_ids == self.token_ids && after.from == self.from && after.to == self.to
            && after.recipient_data@ == data
    }

    fn set_recipient_data(&mut self, data: RawBytes) {
        self.recipient_data = data;
    }
}

/// Return value after a successful transfer.
#[derive(Debug)]
pub struct TransferReturn {
    /// The new balance of who gave the tokens.
    pub from_balance: u64,
    /// The new balance of who got them.
    pub to_balance: u64,
    /// The tokens.
    pub token_ids: Vec<TokenID>,
}

/// Instruction to transfer tokens of the caller.
#[derive(Debug)]
pub struct TransferParams {
    /// Who gets them.
    pub to: Address,
    /// The tokens.
    pub token_ids: Vec<TokenID>,
    /// Data for the receiver hook.
    pub operator_data: RawBytes,
}

/// Instruction to transfer tokens as an operator.
#[derive(Debug)]
pub struct TransferFromParams {
    /// Whose tokens.
    pub from: Address,
    /// Who gets them.
    pub to: Address,
    /// The tokens.
    pub token_ids: Vec<TokenID>,
    /// Data for the receiver hook.
    pub operator_data: RawBytes,
}

/// Instruction to burn tokens as an operator.
#[derive(Debug)]
pub struct BurnFromParams {
    /// Whose tokens.
    pub from: Address,
    /// The tokens.
    pub token_ids: Vec<TokenID>,
}

/// Instruction to authorise an operator for tokens.
#[derive(Debug)]
pub struct ApproveParams {
    /// The operator.
    pub operator: Address,
    /// The tokens.
    pub token_ids: Vec<TokenID>,
}

/// Instruction to authorise an operator for all tokens of the caller.
#[derive(Debug)]
pub struct ApproveForAllParams {
    /// The operator.
    pub operator: Address,
}

/// Query whether an operator is authorised for all tokens of an owner.
#[derive(Debug)]
pub struct IsApprovedForAllParams {
    /// The owner.
    pub owner: Address,
    /// The operator.
    pub operator: Address,
}

/// Instruction to take an operator's authorisation for tokens back.
#[derive(Debug)]
pub struct RevokeParams {
    /// The operator.
    pub operator: Address,
    /// The tokens.
    pub token_ids: Vec<TokenID>,
}

/// Instruction to take an operator's authorisation for all tokens of the caller back.
#[derive(Debug)]
pub struct RevokeForAllParams {
    /// The operator.
    pub operator: Address,
}

/// Query for a page of all tokens.
#[derive(Debug)]
pub struct ListTokensParams {
    /// Opaque serialisation of [`Cursor`], with empty cursor meaning start of list.
    pub cursor: RawBytes,
    /// How many at most.
    pub limit: u64,
}

/// A page of all tokens.
#[derive(Debug)]
pub struct ListTokensReturn {
    /// The tokens.
    pub tokens: BitField,
    /// Opaque serialisation of [`Cursor`], with empty cursor meaning start of list.
    pub next_cursor: Option<RawBytes>,
}

/// Query for a page of an owner's tokens.
#[derive(Debug)]
pub struct ListOwnedTokensParams {
    /// The owner.
    pub owner: Address,
    /// Opaque serialisation of [`Cursor`], with empty cursor meaning start of list.
    pub cursor: RawBytes,
    /// How many at most.
    pub limit: u64,
}

/// A page of an owner's tokens.
#[derive(Debug)]
pub struct ListOwnedTokensReturn {
    /// The tokens.
    pub tokens: TokenSet,
    /// Opaque serialisation of [`Cursor`], with empty cursor meaning start of list.
    pub next_cursor: Option<RawBytes>,
}

/// Query for a page of a token's operators.
#[derive(Debug)]
pub struct ListTokenOperatorsParams {
    /// The token.
    pub token_id: TokenID,
    /// Opaque serialisation of [`Cursor`], with empty cursor meaning start of list.
    pub cursor: RawBytes,
    /// How many at most.
    pub limit: u64,
}

/// A page of a token's operators.
#[derive(Debug)]
pub struct ListTokenOperatorsReturn {
    /// The operators.
    pub operators: ActorIDSet,
    /// Opaque serialisation of [`Cursor`], with empty cursor meaning start of list.
    pub next_cursor: Option<RawBytes>,
}

/// Query for a page of the tokens that an operator is authorised for.
#[derive(Debug)]
pub struct ListOperatorTokensParams {
    /// The operator.
    pub operator: Address,
    /// Opaque serialisation of [`Cursor`], with empty cursor meaning start of list.
    pub cursor: RawBytes,
    /// How many at most.
    pub limit: u64,
}

/// A page of the tokens that an operator is authorised for.
#[derive(Debug)]
pub struct ListOperatorTokensReturn {
    /// The tokens.
    pub tokens: TokenSet,
    /// Opaque serialisation of [`Cursor`], with empty cursor meaning start of list.
    pub next_cursor: Option<RawBytes>,
}

/// Query for a page of the operators of an account.
#[derive(Debug)]
pub struct ListAccountOperatorsParams {
    /// The account.
    pub owner: Address,
    /// Opaque serialisation of [`Cursor`], with empty cursor meaning start of list.
    pub cursor: RawBytes,
    /// How many at most.
    pub limit: u64,
}

/// A page of the operators of an account.
#[derive(Debug)]
pub struct ListAccountOperatorsReturn {
    /// The operators.
    pub operators: ActorIDSet,
    /// Opaque serialisation of [`Cursor`], with empty cursor meaning start of list.
    pub next_cursor: Option<RawBytes>,
}

} // verus!
