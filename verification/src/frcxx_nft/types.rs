//! Interfaces and types of the collection.
use vstd::prelude::*;

use crate::address::Address;
use crate::bytes::{ActorID, Cid, RawBytes};
use crate::fvm_actor_utils::receiver::RecipientData;
use crate::nft_store;

verus! {

/// An amount of tokens, in the interface.
pub type TokenAmount = u128;

/// The number of a token, in the interface.
pub type TokenID = u128;

/// The interface of a collection of non-fungible tokens.
pub trait FRCXXNft {
    /// A descriptive name for the collection of NFTs in this actor
    fn name(&self) -> String;

    /// An abbreviated name for NFTs in this contract
    fn symbol(&self) -> String;

    /// Gets a link to associated metadata for a given NFT
    fn metadata(&self, params: TokenID) -> Cid;

    /// Gets a list of all the tokens in the collection
    fn list_tokens(&self) -> Vec<TokenID>;

    /// Gets the number of tokens held by a particular address (if it exists)
    fn balance_of(&self, params: Address) -> TokenAmount;

    /// Returns the owner of the NFT specified by `token_id`
    fn owner_of(&self, params: TokenID) -> ActorID;

    /// Transfers specific NFTs from the caller to another account
    fn transfer(&self, params: TransferParams);

    /// Transfers specific NFTs between the `from` and `to` addresses
    fn transfer_from(&self, params: TransferFromParams);

    /// Change or reaffirm the approved address for a set of NFTs, setting to zero means there is no
    /// approved address
    fn approve(&self, params: ApproveParams);

    /// Set approval for all, allowing an operator to control all of the caller's tokens (including
    /// future tokens) until approval is revoked
    fn set_approval_for_all(&self, params: ApproveForAllParams);

    /// Get the approved address for a single NFT
    fn get_approved(&self, params: TokenID) -> ActorID;

    /// Query if the address is the approved operator for another address
    fn is_approved_for_all(&self, params: IsApprovedForAllParams) -> bool;
}

/// Instruction to transfer tokens of the caller.
#[derive(Debug)]
pub struct TransferParams {
    /// Whose tokens.
    pub from: Address,
    /// Who gets them.
    pub to: Address,
    /// The tokens.
    pub token_ids: Vec<TokenID>,
    /// Data for the receiver hook.
    pub operator_data: RawBytes,
}

/// Instruction to transfer tokens as an operator.
#[derive(Debug)]
pub struct TransferFromParams {
    /// Whose tokens.
    pub from: Address,
    /// Who gets them.
    pub to: Address,
    /// Who transfers them.
    pub operator: Address,
    /// The tokens.
    pub token_ids: Vec<TokenID>,
    /// Data for the receiver hook.
    pub operator_data: RawBytes,
}

/// Instruction to authorise an operator for tokens.
#[derive(Debug)]
pub struct ApproveParams {
    /// The operator.
    pub operator: Address,
    /// The tokens.
    pub token_ids: Vec<TokenID>,
}

/// Instruction to authorise an operator for all tokens of the caller.
#[derive(Debug)]
pub struct ApproveForAllParams {
    /// The operator.
    pub operator: Address,
}

/// Query whether an operator is authorised for all tokens of an owner.
#[derive(Debug)]
pub struct IsApprovedForAllParams {
    /// The owner.
    pub owner: Address,
    /// The operator.
    pub operator: Address,
}

/// Intermediate data used by `transfer_from_return` to construct the return data.
#[derive(Debug)]
pub struct TransferFromIntermediate {
    /// Who got the tokens.
    pub to: ActorID,
    /// The tokens.
    pub token_ids: Vec<nft_store::TokenID>,
    /// (Optional) data returned from the receiver hook.
    pub recipient_data: RawBytes,
}

impl RecipientData for TransferFromIntermediate {
    open spec fn completed_by(&self, data: Seq<u8>, after: &Self) -> bool {
        after.to == self.to && after.token_ids == self.token_ids && after.recipient_data@ == data
    }

    fn set_recipient_data(&mut self, data: RawBytes) {
        self.recipient_data = data;
    }
}

/// Return value after a successful transfer by an operator.
#[derive(Debug)]
pub struct TransferFromReturn {
    /// The new balance of who got the tokens.
    pub to_balance: u64,
    /// The tokens.
    pub token_ids: Vec<nft_store::TokenID>,
}

} // verus!
