//! The receiver hook for tokens of the collection.
use vstd::prelude::*;

use crate::address::Address;
use crate::bytes::{ActorID, RawBytes};
use crate::frc53_nft::receiver;
use crate::frc53_nft::receiver::encode_tokens_received;
use crate::fvm_actor_utils::receiver::{
    ReceiverHook, ReceiverHookError, ReceiverType, RecipientData,
};
use crate::nft_store::TokenID;

verus! {

/// The type of these tokens, by the hash of its name
pub const FRCXX_TOKEN_TYPE: ReceiverType = 4280811922;

/// Receive parameters for an FRCXX token
#[derive(Debug, PartialEq, Eq)]
pub struct FRCXXTokenReceived {
    /// The account that the tokens are being sent to (the receiver address)
    pub to: ActorID,
    /// Address of the operator that initiated the transfer/mint
    pub operator: ActorID,
    /// Amount of tokens being transferred/minted
    pub token_ids: Vec<TokenID>,
    /// Data specified by the operator during transfer/mint
    pub operator_data: RawBytes,
    /// Additional data specified by the token-actor during transfer/mint
    pub token_data: RawBytes,
}

impl FRCXXTokenReceived {
    /// The parameters as CBOR.
    pub open spec fn cbor(self) -> Seq<u8> {
        receiver::tokens_received_cbor(
            self.to,
            self.operator,
            self.token_ids@,
            self.operator_data@,
            self.token_data@,
        )
    }
}

/// Making the hook for these tokens.
pub trait FRCXXReceiverHook<T: RecipientData> {
    /// Construct a new FRCXX ReceiverHook call
    fn new_frcxx(address: Address, frcxx_params: FRCXXTokenReceived, result_data: T) -> (r: Result<
        ReceiverHook<T>,
        ReceiverHookError,
    >)
        ensures
            r is Ok,
            r->Ok_0.address == address,
            r->Ok_0.token_type == FRCXX_TOKEN_TYPE,
            r->Ok_0.token_params@ == frcxx_params.cbor(),
            r->Ok_0.result_data == Some(result_data),
            !r->Ok_0.called,
    ;
}

impl<T: RecipientData> FRCXXReceiverHook<T> for ReceiverHook<T> {
    fn new_frcxx(address: Address, frcxx_params: FRCXXTokenReceived, result_data: T) -> (r: Result<
        ReceiverHook<T>,
        ReceiverHookError,
    >) {
        match encode_tokens_received(
            frcxx_params.to,
            frcxx_params.operator,
            &frcxx_params.token_ids,
            &frcxx_params.operator_data,
            &frcxx_params.token_data,
        ) {
            Ok(params) => Ok(
                ReceiverHook::new(address, RawBytes::new(params), FRCXX_TOKEN_TYPE, result_data),
            ),
            Err(e) => Err(ReceiverHookError::IpldEncoding(e)),
        }
    }
}

} // verus!
