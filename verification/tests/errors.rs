use actors_utils::address::{Address, AddressError};
use actors_utils::amount::TokenAmount;
use actors_utils::bytes::{Cid, CodecProtocol, EncodingError, RawBytes};
use actors_utils::exit::{
    ErrorNumber, ExitCode, USR_ASSERTION_FAILED, USR_FORBIDDEN, USR_ILLEGAL_ARGUMENT,
    USR_ILLEGAL_STATE, USR_INSUFFICIENT_FUNDS, USR_NOT_FOUND, USR_SERIALIZATION, USR_UNSPECIFIED,
};
use actors_utils::frc46_factory_token::dispatch::ParamsError;
use actors_utils::frc46_factory_token::error::RuntimeError;
use actors_utils::frc46_token::error::TokenError;
use actors_utils::frc46_token::state::{StateError, StateInvariantError};
use actors_utils::fvm_actor_utils::messaging::MessagingError;
use actors_utils::fvm_actor_utils::receiver::{ReceiverHookError, UniversalReceiverParams};
use actors_utils::fvm_actor_utils::syscalls::NoStateError;

fn code(value: u32) -> ExitCode {
    ExitCode::new(value)
}

fn encoding_error() -> EncodingError {
    EncodingError { description: "test".to_string(), protocol: CodecProtocol::Cbor }
}

#[test]
fn it_creates_exit_codes() {
    let error = TokenError::TokenState(StateError::MissingState(Cid::default()));
    let exit_code = ExitCode::from(&error);
    // taking the exit code doesn't consume the error
    println!("{error:?}: {exit_code:?}");
    assert_eq!(exit_code, code(USR_ILLEGAL_STATE));
}

#[test]
fn error_codes_and_messages() {
    // check the exit codes from all the other error types
    let err = TokenError::InvalidIdAddress {
        address: Address::new_id(1),
        source: AddressError::UnknownNetwork,
    };
    assert_eq!(code(USR_NOT_FOUND), ExitCode::from(&err));

    let err = TokenError::InvalidOperator(Address::new_id(1));
    assert_eq!(code(USR_ILLEGAL_ARGUMENT), ExitCode::from(&err));

    let err = TokenError::InvalidGranularity {
        name: "test",
        amount: TokenAmount::from_whole(1),
        granularity: 10,
    };
    assert_eq!(code(USR_ILLEGAL_ARGUMENT), ExitCode::from(&err));

    let err = TokenError::InvalidNegative { name: "test", amount: TokenAmount::from_whole(-1) };
    assert_eq!(code(USR_ILLEGAL_ARGUMENT), ExitCode::from(&err));

    let err =
        TokenError::StateInvariant(StateInvariantError::SupplyNegative(TokenAmount::from_whole(-1)));
    assert_eq!(code(USR_ILLEGAL_STATE), ExitCode::from(&err));

    let err = TokenError::Serialization(encoding_error());
    assert_eq!(code(USR_SERIALIZATION), ExitCode::from(&err));

    let err = TokenError::Messaging(MessagingError::AddressNotResolved(Address::new_id(1)));
    // error code comes from MessagingError
    assert_eq!(code(USR_NOT_FOUND), ExitCode::from(&err));

    let err = TokenError::ReceiverHook(ReceiverHookError::NotCalled);
    // error code comes from ReceiverHookError
    assert_eq!(code(USR_ASSERTION_FAILED), ExitCode::from(&err));
}

#[test]
fn state_errors_have_exit_codes() {
    let amount = TokenAmount::from_atto(1);
    let err = StateError::Serialization("test".to_string());
    assert_eq!(code(USR_SERIALIZATION), ExitCode::from(&err));
    let err = StateError::NegativeTotalSupply { supply: amount.clone(), delta: amount.clone() };
    assert_eq!(code(USR_ILLEGAL_STATE), ExitCode::from(&err));
    let err = StateError::InsufficientBalance {
        owner: 1,
        balance: amount.clone(),
        delta: amount.clone(),
    };
    assert_eq!(code(USR_INSUFFICIENT_FUNDS), ExitCode::from(&err));
    let err = StateError::InsufficientAllowance {
        owner: Address::new_id(1),
        operator: Address::new_id(2),
        allowance: amount.clone(),
        delta: amount.clone(),
    };
    assert_eq!(code(USR_INSUFFICIENT_FUNDS), ExitCode::from(&err));
    let err = StateError::NegativeBalance { amount: amount.clone(), owner: 1 };
    assert_eq!(code(USR_ILLEGAL_ARGUMENT), ExitCode::from(&err));
    let err = StateError::NegativeAllowance { amount, owner: 1, operator: 2 };
    assert_eq!(code(USR_ILLEGAL_ARGUMENT), ExitCode::from(&err));
}

#[test]
fn syscall_errors_have_exit_codes() {
    let expected = [
        (ErrorNumber::IllegalArgument, USR_ILLEGAL_ARGUMENT),
        (ErrorNumber::IllegalOperation, USR_FORBIDDEN),
        (ErrorNumber::Forbidden, USR_FORBIDDEN),
        (ErrorNumber::AssertionFailed, USR_ASSERTION_FAILED),
        (ErrorNumber::InsufficientFunds, USR_INSUFFICIENT_FUNDS),
        (ErrorNumber::IllegalCid, USR_NOT_FOUND),
        (ErrorNumber::NotFound, USR_NOT_FOUND),
        (ErrorNumber::InvalidHandle, USR_NOT_FOUND),
        (ErrorNumber::Serialization, USR_SERIALIZATION),
        (ErrorNumber::IllegalCodec, USR_SERIALIZATION),
        (ErrorNumber::LimitExceeded, USR_UNSPECIFIED),
        (ErrorNumber::BufferTooSmall, USR_UNSPECIFIED),
        (ErrorNumber::ReadOnly, USR_UNSPECIFIED),
    ];
    for (number, value) in expected {
        assert_eq!(code(value), ExitCode::from(&MessagingError::Syscall(number)));
        assert_eq!(code(value), ExitCode::from(&RuntimeError::Blockstore(number)));
    }
    let err = MessagingError::AddressNotInitialized(Address::new_id(1));
    assert_eq!(code(USR_NOT_FOUND), ExitCode::from(&err));
    assert_eq!(code(USR_SERIALIZATION), ExitCode::from(&MessagingError::Ipld(encoding_error())));
}

#[test]
fn hook_errors_have_exit_codes() {
    let err = ReceiverHookError::AlreadyCalled;
    assert_eq!(code(USR_ASSERTION_FAILED), ExitCode::from(&err));
    let err = ReceiverHookError::IpldEncoding(encoding_error());
    assert_eq!(code(USR_SERIALIZATION), ExitCode::from(&err));
    let err = ReceiverHookError::Messaging(MessagingError::Syscall(ErrorNumber::NotFound));
    assert_eq!(code(USR_NOT_FOUND), ExitCode::from(&err));
    // where the receiver aborts, its own code is passed on
    let err = ReceiverHookError::Receiver {
        address: Address::new_id(1),
        exit_code: code(99),
        return_data: RawBytes::default(),
        receiver_params: UniversalReceiverParams { type_: 1, payload: RawBytes::default() },
    };
    assert_eq!(code(99), ExitCode::from(&err));
}

#[test]
fn factory_errors_have_exit_codes() {
    let err = RuntimeError::Token(TokenError::InvalidOperator(Address::new_id(1)));
    assert_eq!(code(USR_ILLEGAL_ARGUMENT), ExitCode::from(&err));
    let err = RuntimeError::Receiver(ReceiverHookError::NotCalled);
    assert_eq!(code(USR_ASSERTION_FAILED), ExitCode::from(&err));
    assert_eq!(code(USR_SERIALIZATION), ExitCode::from(&RuntimeError::Encoding(encoding_error())));
    assert_eq!(code(USR_NOT_FOUND), ExitCode::from(&RuntimeError::NoState(NoStateError)));
    let err = RuntimeError::Deserialization("test".to_string());
    assert_eq!(code(USR_SERIALIZATION), ExitCode::from(&err));
    let err = RuntimeError::Serialization("test".to_string());
    assert_eq!(code(USR_SERIALIZATION), ExitCode::from(&err));
    let err = RuntimeError::State(StateError::MissingState(Cid::default()));
    assert_eq!(code(USR_ILLEGAL_STATE), ExitCode::from(&err));
    let err = RuntimeError::Messaging(MessagingError::AddressNotResolved(Address::new_id(1)));
    assert_eq!(code(USR_NOT_FOUND), ExitCode::from(&err));
    assert_eq!(code(USR_FORBIDDEN), ExitCode::from(&RuntimeError::AddressNotAuthorized));
    assert_eq!(code(USR_FORBIDDEN), ExitCode::from(&RuntimeError::MintingDisabled));
}

#[test]
fn missing_parameters_are_an_illegal_argument() {
    assert_eq!(code(USR_ILLEGAL_ARGUMENT), ExitCode::from(&ParamsError::Missing));
    assert_eq!(code(USR_SERIALIZATION), ExitCode::from(&ParamsError::Raw(ErrorNumber::NotFound)));
    assert_eq!(code(USR_SERIALIZATION), ExitCode::from(&ParamsError::Malformed(encoding_error())));
}
