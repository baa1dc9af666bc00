//! Calls of the receiver hook by a number of its own.
use fvm_ipld_encoding::RawBytes as Payload;
use fvm_shared::address::Address as ChainAddress;
use fvm_shared::bigint::{BigInt, BigUint, Sign};
use fvm_shared::econ::TokenAmount as Atto;
use vstd::prelude::*;

use crate::address::{Address, AddressView};
use crate::amount::TokenAmount;
use crate::bytes::{bytes_clone, ActorID, CodecProtocol, EncodingError, IpldBlock, RawBytes, CBOR};
use crate::exit::{ErrorNumber, ExitCode, OK, SYS_INVALID_RECEIVER};
use crate::fvm_actor_utils::syscalls::{Message, Response};
use crate::store;

verus! {

/// The number of the receiver hook's method, by the hash of the name "TokensReceived"
pub const METHOD_NUM: u64 = 1361519036;

/// Why the receiver hook could not be called.
#[derive(Debug, PartialEq, Eq)]
pub enum MethodCallError {
    /// The system call failed.
    Syscall(ErrorNumber),
    /// The parameters could not be encoded.
    Ipld(EncodingError),
}

/// The parameters as CBOR, for a sender known by its id: an array of address, amount and bytes.
pub uninterp spec fn token_received_cbor(sender: ActorID, value: int, data: Seq<u8>) -> Seq<u8>;

/// `to_vec` of `fvm_ipld_encoding` on an id address, an amount and bytes as a tuple. It claims that
/// the encoding fails exactly where the amount cannot be stored, and otherwise depends on the three
/// only.
#[verifier::external_body]
fn encode_token_received(sender: ActorID, value: &TokenAmount, data: &Vec<u8>) -> (r: Result<Vec<u8>, EncodingError>)
    ensures
        r is Ok == store::storable(value@),
        r is Ok ==> r->Ok_0@ == token_received_cbor(sender, value@, data@),
{
    let sign = if value.negative { Sign::Minus } else { Sign::Plus };
    let amount = BigInt::from_biguint(sign, BigUint::new(value.digits.clone()));
    let data = Payload::new(data.clone());
    let record = (ChainAddress::new_id(sender), Atto::from_atto(amount), data);
    fvm_ipld_encoding::to_vec(&record).map_err(|e| EncodingError {
        description: e.description,
        protocol: CodecProtocol::Cbor,
    })
}

/// An abstraction used to send messages to other actors
pub trait MethodCaller {
    /// Call the receiver hook on a given actor, specifying the amount of tokens pending to be sent
    /// and the sender and receiver
    ///
    /// Returns the receipt of the call
    fn call_receiver_hook(
        &self,
        from: ActorID,
        to: ActorID,
        token_value: &TokenAmount,
        data: &Vec<u8>,
    ) -> (r: Result<Response, MethodCallError>);
}

/// Makes the messages by which the receiver hook is called on the chain.
#[derive(Debug, Default, Clone, Copy)]
pub struct FvmMethodCaller {}

/// The message for a receiver, ready to be sent.
#[derive(Debug, PartialEq, Eq)]
pub struct HookCall {
    /// The receiver.
    pub to: Address,
    /// The method.
    pub method: u64,
    /// The parameters.
    pub params: IpldBlock,
    /// The funds that go with it.
    pub value: TokenAmount,
}

impl View for HookCall {
    type V = Message;

    open spec fn view(&self) -> Message {
        Message {
            to: self.to@,
            method: self.method,
            params: Some(self.params@),
            value: self.value@,
        }
    }
}

impl FvmMethodCaller {
    /// The message that calls the receiver hook
    pub fn hook_call(&self, from: ActorID, to: ActorID, token_value: &TokenAmount, data: &Vec<u8>) -> (r:
        Result<HookCall, MethodCallError>)
        ensures
            r is Ok == store::storable(token_value@),
            r is Err ==> r->Err_0 is Ipld,
            r is Ok ==> r->Ok_0@ == (Message {
                to: AddressView::ID(to),
                method: METHOD_NUM,
                params: Some((CBOR, token_received_cbor(from, token_value@, data@))),
                value: 0,
            }),
    {
        match encode_token_received(from, token_value, data) {
            Ok(params) => Ok(
                HookCall {
                    to: Address::new_id(to),
                    method: METHOD_NUM,
                    params: IpldBlock { codec: CBOR, data: params },
                    value: TokenAmount::zero(),
                },
            ),
            Err(e) => Err(MethodCallError::Ipld(e)),
        }
    }
}

/// A fake method caller that can simulate the receiving actor return true or false
///
/// If call_receiver_hook is called with an empty data array, it will return true.
/// If call_receiver_hook is called with a non-empty data array, it will return false.
#[derive(Debug, Default, Clone, Copy)]
pub struct FakeMethodCaller {}

impl MethodCaller for FakeMethodCaller {
    fn call_receiver_hook(&self, from: ActorID, to: ActorID, token_value: &TokenAmount, data: &Vec<u8>) -> (r:
        Result<Response, MethodCallError>)
        ensures
            r is Ok,
            r->Ok_0.exit_code.value == (if data@.len() == 0 {
                OK
            } else {
                SYS_INVALID_RECEIVER
            }),
            r->Ok_0.return_data@ == data@,
    {
        let value: u32 = if data.len() == 0 {
            OK
        } else {
            SYS_INVALID_RECEIVER
        };
        Ok(
            Response {
                exit_code: ExitCode { value },
                return_data: RawBytes::new(bytes_clone(data)),
            },
        )
    }
}

} // verus!
