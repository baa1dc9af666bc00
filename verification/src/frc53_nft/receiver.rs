//! The receiver hook for FRC-0053 tokens.
use fvm_ipld_encoding::RawBytes as Payload;
use vstd::prelude::*;

use crate::address::Address;
use crate::bytes::{ActorID, CodecProtocol, EncodingError, RawBytes};
use crate::fvm_actor_utils::receiver::{
    ReceiverHook, ReceiverHookError, ReceiverType, RecipientData,
};
use crate::nft_store::TokenID;

verus! {

/// The type of FRC-0053 tokens, by the hash of its name
pub const FRC53_TOKEN_TYPE: ReceiverType = 4186685305;

/// Receive parameters for an FRC53 token
#[derive(Debug, PartialEq, Eq)]
pub struct FRC53TokenReceived {
    /// The account that the tokens are being sent to (the receiver address)
    pub to: ActorID,
    /// Address of the operator that initiated the transfer/mint
    pub operator: ActorID,
    /// Amount of tokens being transferred/minted
    pub token_ids: Vec<TokenID>,
    /// Data specified by the operator during transfer/mint
    pub operator_data: RawBytes,
    /// Additional data specified by the token-actor during transfer/mint
    pub token_data: RawBytes,
}

/// The parameters for non-fungible tokens as CBOR: an array of receiver, operator, tokens, and the
/// data of operator and token.
pub uninterp spec fn tokens_received_cbor(
    to: ActorID,
    operator: ActorID,
    token_ids: Seq<TokenID>,
    operator_data: Seq<u8>,
    token_data: Seq<u8>,
) -> Seq<u8>;

/// `to_vec` of `fvm_ipld_encoding` on the parameters as a tuple. It claims that the encoding
/// succeeds and depends on the parameters only.
#[verifier::external_body]
pub(crate) fn encode_tokens_received(
    to: ActorID,
    operator: ActorID,
    token_ids: &Vec<TokenID>,
    operator_data: &RawBytes,
    token_data: &RawBytes,
) -> (r: Result<Vec<u8>, EncodingError>)
    ensures
        r is Ok,
        r->Ok_0@ == tokens_received_cbor(to, operator, token_ids@, operator_data@, token_data@),
{
    let operator_data = Payload::new(operator_data.bytes.clone());
    let token_data = Payload::new(token_data.bytes.clone());
    let record = (to, operator, token_ids, operator_data, token_data);
    fvm_ipld_encoding::to_vec(&record).map_err(|e| EncodingError {
        description: e.description,
        protocol: CodecProtocol::Cbor,
    })
}

impl FRC53TokenReceived {
    /// The parameters as CBOR.
    pub open spec fn cbor(self) -> Seq<u8> {
        tokens_received_cbor(
            self.to,
            self.operator,
            self.token_ids@,
            self.operator_data@,
            self.token_data@,
        )
    }
}

/// Making the hook for FRC-0053 tokens.
pub trait FRC53ReceiverHook<T: RecipientData> {
    /// Construct a new FRC53 ReceiverHook call
    fn new_frc53(address: Address, frc53_params: FRC53TokenReceived, result_data: T) -> (r: Result<
        ReceiverHook<T>,
        ReceiverHookError,
    >)
        ensures
            r is Ok,
            r->Ok_0.address == address,
            r->Ok_0.token_type == FRC53_TOKEN_TYPE,
            r->Ok_0.token_params@ == frc53_params.cbor(),
            r->Ok_0.result_data == Some(result_data),
            !r->Ok_0.called,
    ;
}

impl<T: RecipientData> FRC53ReceiverHook<T> for ReceiverHook<T> {
    fn new_frc53(address: Address, frc53_params: FRC53TokenReceived, result_data: T) -> (r: Result<
        ReceiverHook<T>,
        ReceiverHookError,
    >) {
        match encode_tokens_received(
            frc53_params.to,
            frc53_params.operator,
            &frc53_params.token_ids,
            &frc53_params.operator_data,
            &frc53_params.token_data,
        ) {
            Ok(params) => Ok(
                ReceiverHook::new(address, RawBytes::new(params), FRC53_TOKEN_TYPE, result_data),
            ),
            Err(e) => Err(ReceiverHookError::IpldEncoding(e)),
        }
    }
}

} // verus!
