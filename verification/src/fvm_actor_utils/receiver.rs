//! The hook by which an actor learns of assets that it receives.
use fvm_ipld_encoding::RawBytes as Payload;
use fvm_shared::bigint::{BigInt, BigUint, Sign};
use fvm_shared::econ::TokenAmount as Atto;
use vstd::prelude::*;

use crate::address::{Address, AddressView};
use crate::amount::TokenAmount;
use crate::bytes;
use crate::bytes::{ActorID, Bytes, CodecProtocol, EncodingError, IpldBlock, RawBytes, CBOR};
use crate::exit;
use crate::exit::{ExitCode, OK};
use crate::fvm_actor_utils::messaging::{
    Messaging, MessagingError, MessagingFault, RECEIVER_HOOK_METHOD_NUM,
};
use crate::fvm_actor_utils::syscalls::{Message, Response};
use crate::store;

verus! {

/// Type of asset received - could be tokens (FRC46 or other) or other assets
pub type ReceiverType = u32;

/// The type of FRC-0046 tokens, by the hash of its name
pub const FRC46_TOKEN_TYPE: ReceiverType = 2233613279;

/// Receive parameters for an FRC46 token
#[derive(Debug, PartialEq, Eq)]
pub struct FRC46TokenReceived {
    /// The account that the tokens are being pulled from (the token actor address itself for mint)
    pub from: ActorID,
    /// The account that the tokens are being sent to (the receiver address)
    pub to: ActorID,
    /// Address of the operator that initiated the transfer/mint
    pub operator: ActorID,
    /// Amount of tokens being transferred/minted
    pub amount: TokenAmount,
    /// Data specified by the operator during transfer/mint
    pub operator_data: RawBytes,
    /// Additional data specified by the token-actor during transfer/mint
    pub token_data: RawBytes,
}

/// The parameters for an FRC46 token as a value.
#[verifier::ext_equal]
pub struct Received {
    /// The account that the tokens are pulled from.
    pub from: ActorID,
    /// The account that the tokens are sent to.
    pub to: ActorID,
    /// Who initiated it.
    pub operator: ActorID,
    /// How many tokens.
    pub amount: int,
    /// Data of the operator.
    pub operator_data: Seq<u8>,
    /// Data of the token.
    pub token_data: Seq<u8>,
}

impl View for FRC46TokenReceived {
    type V = Received;

    open spec fn view(&self) -> Received {
        Received {
            from: self.from,
            to: self.to,
            operator: self.operator,
            amount: self.amount@,
            operator_data: self.operator_data@,
            token_data: self.token_data@,
        }
    }
}

/// Parameters for universal receiver
///
/// Actual payload varies with asset type
/// eg: FRC46_TOKEN_TYPE will come with a payload of FRC46TokenReceived
#[derive(Debug, PartialEq, Eq)]
pub struct UniversalReceiverParams {
    /// Asset type
    pub type_: ReceiverType,
    /// Payload corresponding to asset type
    pub payload: RawBytes,
}

/// The parameters for an FRC46 token as CBOR: an array of its six fields.
pub uninterp spec fn received_cbor(
    from: ActorID,
    to: ActorID,
    operator: ActorID,
    amount: int,
    operator_data: Seq<u8>,
    token_data: Seq<u8>,
) -> Seq<u8>;

/// The parameters for a universal receiver as CBOR: an array of type and payload.
pub uninterp spec fn universal_cbor(type_: ReceiverType, payload: Seq<u8>) -> Seq<u8>;

impl Received {
    /// The parameters as CBOR.
    pub open spec fn cbor(self) -> Seq<u8> {
        received_cbor(
            self.from,
            self.to,
            self.operator,
            self.amount,
            self.operator_data,
            self.token_data,
        )
    }
}

/// `to_vec` of `fvm_ipld_encoding` on the parameters as a tuple. It claims that the encoding
/// fails exactly where the amount cannot be stored, and otherwise depends on the parameters only.
#[verifier::external_body]
pub(crate) fn encode_received(params: &FRC46TokenReceived) -> (r: Result<Vec<u8>, EncodingError>)
    ensures
        r is Ok == store::storable(params.amount@),
        r is Ok ==> r->Ok_0@ == received_cbor(params.from, params.to, params.operator, params.amount@, params.operator_data@, params.token_data@),
{
    let sign = if params.amount.negative { Sign::Minus } else { Sign::Plus };
    let amount = BigInt::from_biguint(sign, BigUint::new(params.amount.digits.clone()));
    let operator_data = Payload::new(params.operator_data.bytes.clone());
    let token_data = Payload::new(params.token_data.bytes.clone());
    let accounts = (params.from, params.to, params.operator);
    let record =
        (accounts.0, accounts.1, accounts.2, Atto::from_atto(amount), operator_data, token_data);
    fvm_ipld_encoding::to_vec(&record).map_err(|e| EncodingError {
        description: e.description,
        protocol: CodecProtocol::Cbor,
    })
}

/// `to_vec` of `fvm_ipld_encoding` on a number and bytes as a tuple. It claims that the encoding
/// succeeds and depends on the two only.
#[verifier::external_body]
pub(crate) fn encode_universal(params: &UniversalReceiverParams) -> (r: Result<Vec<u8>, EncodingError>)
    ensures
        r is Ok,
        r->Ok_0@ == universal_cbor(params.type_, params.payload@),
{
    let record = (params.type_, Payload::new(params.payload.bytes.clone()));
    fvm_ipld_encoding::to_vec(&record).map_err(|e| EncodingError {
        description: e.description,
        protocol: CodecProtocol::Cbor,
    })
}

/// Why a receiver hook failed.
#[derive(Debug, PartialEq, Eq)]
pub enum ReceiverHookError {
    /// The hook was not called.
    NotCalled,
    /// The hook was called before.
    AlreadyCalled,
    /// The parameters could not be encoded.
    IpldEncoding(EncodingError),
    /// The message could not be sent.
    Messaging(MessagingError),
    /// The receiver aborted.
    Receiver {
        /// The receiver.
        address: Address,
        /// How it ended.
        exit_code: ExitCode,
        /// What it returned.
        return_data: RawBytes,
        /// What it was called with.
        receiver_params: UniversalReceiverParams,
    },
}

/// Why a receiver hook failed, as a value.
pub enum HookFault {
    /// The hook was not called.
    NotCalled,
    /// The hook was called before.
    AlreadyCalled,
    /// The parameters could not be encoded.
    IpldEncoding,
    /// The message could not be sent.
    Messaging(MessagingFault),
    /// The receiver aborted.
    Receiver {
        /// The receiver.
        address: AddressView,
        /// How it ended.
        exit_code: ExitCode,
        /// What it returned.
        return_data: Seq<u8>,
        /// The type of asset that it was called with.
        type_: ReceiverType,
        /// The payload that it was called with.
        payload: Seq<u8>,
    },
}

impl View for ReceiverHookError {
    type V = HookFault;

    open spec fn view(&self) -> HookFault {
        match *self {
            ReceiverHookError::NotCalled => HookFault::NotCalled,
            ReceiverHookError::AlreadyCalled => HookFault::AlreadyCalled,
            ReceiverHookError::IpldEncoding(_) => HookFault::IpldEncoding,
            ReceiverHookError::Messaging(e) => HookFault::Messaging(e@),
            ReceiverHookError::Receiver { address, exit_code, return_data, receiver_params } => {
                HookFault::Receiver {
                    address: address@,
                    exit_code,
                    return_data: return_data@,
                    type_: receiver_params.type_,
                    payload: receiver_params.payload@,
                }
            },
        }
    }
}

impl HookFault {
    /// The exit code for a hook that failed: that of the receiver, where it aborted.
    pub open spec fn exit(self) -> ExitCode {
        match self {
            HookFault::NotCalled => ExitCode { value: exit::USR_ASSERTION_FAILED },
            HookFault::AlreadyCalled => ExitCode { value: exit::USR_ASSERTION_FAILED },
            HookFault::IpldEncoding => ExitCode { value: exit::USR_SERIALIZATION },
            HookFault::Messaging(e) => e.exit(),
            HookFault::Receiver { exit_code, .. } => exit_code,
        }
    }
}

impl From<&ReceiverHookError> for ExitCode {
    fn from(error: &ReceiverHookError) -> (r: Self) {
        match error {
            ReceiverHookError::NotCalled | ReceiverHookError::AlreadyCalled => ExitCode {
                value: exit::USR_ASSERTION_FAILED,
            },
            ReceiverHookError::IpldEncoding(_) => ExitCode { value: exit::USR_SERIALIZATION },
            ReceiverHookError::Receiver { exit_code, .. } => *exit_code,
            ReceiverHookError::Messaging(e) => ExitCode::from(e),
        }
    }
}

impl vstd::std_specs::convert::FromSpecImpl<&ReceiverHookError> for ExitCode {
    open spec fn obeys_from_spec() -> bool {
        true
    }

    open spec fn from_spec(error: &ReceiverHookError) -> Self {
        error@.exit()
    }
}

/// Standard interface for an actor that wishes to receive FRC-0046 tokens or other assets
pub trait UniversalReceiver {
    /// Invoked by a token actor during pending transfer or mint to the receiver's address
    ///
    /// Within this hook, the token actor has optimistically persisted the new balance so
    /// the receiving actor can immediately utilise the received funds. If the receiver wishes to
    /// reject the incoming transfer, this function should abort which will cause the token actor
    /// to rollback the transaction.
    fn receive(params: UniversalReceiverParams);
}

/// What is returned to the sender of tokens, once the receiver has answered.
pub trait RecipientData: Sized {
    /// Whether a value is this one with the receiver's answer in it.
    spec fn completed_by(&self, data: Bytes, after: &Self) -> bool;

    /// Puts the receiver's answer in.
    fn set_recipient_data(&mut self, data: RawBytes)
        ensures
            old(self).completed_by(data@, final(self)),
    ;
}

/// Implements a guarded call to a token receiver hook
///
/// Mint and Transfer operations will return this so that state can be updated and saved
/// before making the call into the receiver hook.
///
/// This also tracks whether the call has been made or not.
#[derive(Debug)]
pub struct ReceiverHook<T: RecipientData> {
    /// The receiver.
    pub address: Address,
    /// The type of asset.
    pub token_type: ReceiverType,
    /// The payload for the receiver.
    pub token_params: RawBytes,
    /// Whether the call was made.
    pub called: bool,
    /// What to return when the receiver has answered.
    pub result_data: Option<T>,
}

impl<T: RecipientData> ReceiverHook<T> {
    /// A hook that was not called still has what to return.
    pub open spec fn ready(&self) -> bool {
        !self.called ==> self.result_data is Some
    }

    /// The message that calls the hook.
    pub open spec fn message(&self) -> Message {
        Message {
            to: self.address@,
            method: RECEIVER_HOOK_METHOD_NUM,
            params: Some((CBOR, universal_cbor(self.token_type, self.token_params@))),
            value: 0,
        }
    }

    /// Whether a result is what the call returns for an answer to its message: a success is put
    /// into the result; a failure of the message or of the receiver is reported.
    pub open spec fn reports(
        &self,
        answer: Result<Response, MessagingError>,
        r: Result<T, ReceiverHookError>,
    ) -> bool {
        match answer {
            Ok(answer) => if answer.exit_code.value == OK {
                r is Ok && self.result_data->0.completed_by(answer.return_data@, &r->Ok_0)
            } else {
                r is Err && r->Err_0@ == HookFault::Receiver {
                    address: self.address@,
                    exit_code: answer.exit_code,
                    return_data: answer.return_data@,
                    type_: self.token_type,
                    payload: self.token_params@,
                }
            },
            Err(e) => r == Err::<T, ReceiverHookError>(ReceiverHookError::Messaging(e)),
        }
    }

    /// Construct a new ReceiverHook call
    pub fn new(address: Address, token_params: RawBytes, token_type: ReceiverType, result_data: T) -> (r:
        Self)
        ensures
            r.address == address,
            r.token_params == token_params,
            r.token_type == token_type,
            !r.called,
            r.result_data == Some(result_data),
            r.ready(),
    {
        ReceiverHook {
            address,
            token_type,
            token_params,
            called: false,
            result_data: Some(result_data),
        }
    }

    /// Construct a new FRC46 ReceiverHook call
    pub fn new_frc46(address: Address, frc46_params: FRC46TokenReceived, result_data: T) -> (r:
        Result<Self, ReceiverHookError>)
        ensures
            r is Ok == store::storable(frc46_params.amount@),
            r is Err ==> r->Err_0 is IpldEncoding,
            r is Ok ==> r->Ok_0.address == address && r->Ok_0.token_type == FRC46_TOKEN_TYPE
                && r->Ok_0.token_params@ == frc46_params@.cbor() && !r->Ok_0.called
                && r->Ok_0.result_data == Some(result_data) && r->Ok_0.ready(),
    {
        match encode_received(&frc46_params) {
            Ok(params) => Ok(
                ReceiverHook::new(address, RawBytes::new(params), FRC46_TOKEN_TYPE, result_data),
            ),
            Err(e) => Err(ReceiverHookError::IpldEncoding(e)),
        }
    }

    /// Call the receiver hook and return the result
    ///
    /// Returns
    /// - an error if already called
    /// - an error if the hook call aborted
    /// - any return data provided by the hook upon success
    pub fn call<M: Messaging>(&mut self, msg: &mut M) -> (r: Result<T, ReceiverHookError>)
        requires
            old(self).ready(),
        ensures
            final(self).called,
            final(self).address == old(self).address,
            old(self).called ==> r is Err && r->Err_0 is AlreadyCalled && *final(self) == *old(self)
                && *final(msg) == *old(msg),
            !old(self).called ==> final(msg).handed_over() == old(msg).handed_over().push(
                old(self).message(),
            ) && final(msg).follows(old(msg)),
            !old(self).called ==> exists|
                m: &mut M,
                block: Option<IpldBlock>,
                value: TokenAmount,
                answer: Result<Response, MessagingError>,
            |
                {
                    &&& *m == *old(msg)
                    &&& *final(m) == *final(msg)
                    &&& bytes::block_view(block) == old(self).message().params
                    &&& value@ == 0
                    &&& #[trigger] call_ensures(
                        M::send,
                        (m, &old(self).address, RECEIVER_HOOK_METHOD_NUM, block, value),
                        answer,
                    )
                    &&& old(self).reports(answer, r)
                },
            !old(self).called && r is Ok ==> exists|data: Seq<u8>| #[trigger]
                old(self).result_data->0.completed_by(data, &r->Ok_0),
            !old(self).called && r is Err ==> r->Err_0 is Messaging || (r->Err_0@ matches
                HookFault::Receiver { address, exit_code, type_, payload, .. } && address
                == old(self).address@ && exit_code.value != OK && type_ == old(self).token_type
                && payload == old(self).token_params@),
    {
        if self.called {
            return Err(ReceiverHookError::AlreadyCalled);
        }
        // once encoded and sent, we don't need the payload anymore
        let mut payload = RawBytes::default();
        std::mem::swap(&mut payload, &mut self.token_params);
        let params = UniversalReceiverParams { type_: self.token_type, payload };
        self.called = true;
        let data = match encode_universal(&params) {
            Ok(data) => data,
            Err(e) => return Err(ReceiverHookError::IpldEncoding(e)),
        };
        let block = Some(IpldBlock { codec: CBOR, data });
        let response = msg.send(
            &self.address,
            RECEIVER_HOOK_METHOD_NUM,
            block,
            TokenAmount::zero(),
        );
        self.settle(params, response)
    }

    /// What the call returns for each answer to the message
    ///
    /// A success is put into the result; a failure of the message or of the receiver is reported.
    pub fn settle(
        &mut self,
        params: UniversalReceiverParams,
        response: Result<Response, MessagingError>,
    ) -> (r: Result<T, ReceiverHookError>)
        requires
            old(self).result_data is Some,
        ensures
            final(self).called == old(self).called,
            final(self).address == old(self).address,
            final(self).token_type == old(self).token_type,
            final(self).token_params == old(self).token_params,
            match response {
                Ok(answer) => if answer.exit_code.value == OK {
                    &&& r is Ok
                    &&& old(self).result_data->0.completed_by(answer.return_data@, &r->Ok_0)
                    &&& final(self).result_data is None
                } else {
                    &&& r is Err
                    &&& r->Err_0@ == HookFault::Receiver {
                        address: old(self).address@,
                        exit_code: answer.exit_code,
                        return_data: answer.return_data@,
                        type_: params.type_,
                        payload: params.payload@,
                    }
                    &&& final(self).result_data == old(self).result_data
                },
                Err(e) => r is Err && r->Err_0 == ReceiverHookError::Messaging(e) && final(self).result_data == old(self).result_data,
            },
    {
        let answer = match response {
            Ok(answer) => answer,
            Err(e) => return Err(ReceiverHookError::Messaging(e)),
        };
        if answer.exit_code.is_success() {
            let mut taken: Option<T> = None;
            std::mem::swap(&mut taken, &mut self.result_data);
            let mut result = taken.unwrap();
            result.set_recipient_data(answer.return_data);
            Ok(result)
        } else {
            Err(
                ReceiverHookError::Receiver {
                    address: self.address.clone(),
                    exit_code: answer.exit_code,
                    return_data: answer.return_data,
                    receiver_params: params,
                },
            )
        }
    }

    /// Whether the hook may be dropped: one that was never called may not
    pub fn check_called(&self) -> (r: Result<(), ReceiverHookError>)
        ensures
            r is Ok == self.called,
            r is Err ==> r->Err_0 is NotCalled,
    {
        if self.called {
            Ok(())
        } else {
            Err(ReceiverHookError::NotCalled)
        }
    }
}

} // verus!
