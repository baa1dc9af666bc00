use actors_utils::address::Address;
use actors_utils::amount::TokenAmount;
use actors_utils::bytes::{Cid, RawBytes};
use actors_utils::exit::{ErrorNumber, ExitCode, OK, USR_FORBIDDEN};
use actors_utils::frc46_token::receiver::{HookError, ReceiverData, ReceiverHook as WatchingHook};
use actors_utils::frc46_token::types::MintIntermediate;
use actors_utils::fvm_actor_utils::actor::{Actor, FakeActor};
use actors_utils::fvm_actor_utils::blockstore::Blockstore;
use actors_utils::fvm_actor_utils::fake_syscalls::FakeSyscalls;
use actors_utils::fvm_actor_utils::messaging::{MessagingError, RECEIVER_HOOK_METHOD_NUM};
use actors_utils::fvm_actor_utils::receiver::{
    FRC46TokenReceived, ReceiverHook, ReceiverHookError, UniversalReceiverParams, FRC46_TOKEN_TYPE,
};
use actors_utils::fvm_actor_utils::syscalls::Response;
use actors_utils::fvm_actor_utils::util::ActorRuntime;

fn params() -> FRC46TokenReceived {
    FRC46TokenReceived {
        operator: 1,
        from: 1,
        to: 2,
        amount: TokenAmount::zero(),
        operator_data: RawBytes::default(),
        token_data: RawBytes::default(),
    }
}

fn generate_hook() -> ReceiverHook<MintIntermediate> {
    let result =
        MintIntermediate { recipient: Address::new_id(2), recipient_data: RawBytes::default() };
    ReceiverHook::new_frc46(Address::new_id(2), params(), result).unwrap()
}

fn new_runtime() -> ActorRuntime<FakeSyscalls> {
    let mut runtime = ActorRuntime::<FakeSyscalls>::new_test_runtime();
    runtime.syscalls.actor_id = 1;
    runtime.syscalls.next_actor_id = 3;
    runtime
}

#[test]
fn mod_calls_hook() {
    let mut hook = generate_hook();
    let mut runtime = new_runtime();
    assert!(runtime.syscalls.last_message.is_none());
    hook.call(&mut runtime).unwrap();
    assert!(runtime.syscalls.last_message.is_some());
}

#[test]
fn the_receiver_is_told_what_it_receives() {
    let mut hook = generate_hook();
    let mut runtime = new_runtime();
    let answer = hook.call(&mut runtime).unwrap();
    let message = runtime.syscalls.last_message.clone().unwrap();
    assert_eq!(message.method, RECEIVER_HOOK_METHOD_NUM);
    assert_eq!(message.value, TokenAmount::zero());
    let block = message.params.unwrap();
    assert_eq!(block.codec, 0x51);
    let (type_, payload): (u32, fvm_ipld_encoding::RawBytes) =
        fvm_ipld_encoding::from_slice(&block.data).unwrap();
    assert_eq!(type_, FRC46_TOKEN_TYPE);
    // an array of six: three ids, an amount of zero and twice no bytes
    assert_eq!(payload.to_vec(), vec![0x86, 1, 2, 1, 0x40, 0x40, 0x40]);
    // without a chain the parameters come back as the answer
    assert_eq!(answer.recipient_data, RawBytes::new(block.data));
    assert_eq!(answer.recipient, Address::new_id(2));
}

#[test]
fn a_hook_is_called_once() {
    let mut hook = generate_hook();
    assert_eq!(hook.check_called(), Err(ReceiverHookError::NotCalled));
    let mut runtime = new_runtime();
    hook.call(&mut runtime).unwrap();
    assert_eq!(hook.check_called(), Ok(()));
    assert_eq!(hook.call(&mut runtime).unwrap_err(), ReceiverHookError::AlreadyCalled);
}

#[test]
fn a_hook_that_cannot_be_sent_fails() {
    let mut hook = generate_hook();
    let mut runtime = new_runtime();
    runtime.syscalls.abort_next_send = true;
    let err = hook.call(&mut runtime).unwrap_err();
    let sent = MessagingError::Syscall(ErrorNumber::AssertionFailed);
    assert_eq!(err, ReceiverHookError::Messaging(sent));
    assert_eq!(hook.check_called(), Ok(()));
}

#[test]
fn a_receiver_that_aborts_is_reported() {
    let mut hook = generate_hook();
    let told = UniversalReceiverParams { type_: FRC46_TOKEN_TYPE, payload: RawBytes::default() };
    let response = Response {
        exit_code: ExitCode::new(USR_FORBIDDEN),
        return_data: RawBytes::new(vec![7]),
    };
    let err = hook.settle(told, Ok(response)).unwrap_err();
    let expected = ReceiverHookError::Receiver {
        address: Address::new_id(2),
        exit_code: ExitCode::new(USR_FORBIDDEN),
        return_data: RawBytes::new(vec![7]),
        receiver_params: UniversalReceiverParams {
            type_: FRC46_TOKEN_TYPE,
            payload: RawBytes::default(),
        },
    };
    assert_eq!(err, expected);
}

#[test]
fn an_amount_that_cannot_be_stored_makes_no_hook() {
    let mut large = TokenAmount::from_whole(i64::MAX);
    for _ in 0..1000 {
        large = large.plus(&large);
    }
    let mut params = params();
    params.amount = large;
    let result =
        MintIntermediate { recipient: Address::new_id(2), recipient_data: RawBytes::default() };
    let err = ReceiverHook::new_frc46(Address::new_id(2), params, result).unwrap_err();
    assert!(matches!(err, ReceiverHookError::IpldEncoding(_)));
}

#[test]
fn a_fake_actor_has_the_root_it_is_given() {
    assert_eq!(FakeActor::default().root_cid(), Ok(Cid::default()));
}

#[test]
fn a_block_has_to_be_under_its_identifier() {
    let mut runtime = new_runtime();
    let other = runtime.blockstore.put(vec![0x01]);
    assert_eq!(Blockstore.put_keyed(&other, &other), Ok(()));
    let err = Blockstore.put_keyed(&other, &Cid::default()).unwrap_err();
    assert_eq!(err.wanted, other);
    assert_eq!(err.actual, Cid::default());
}

#[derive(Debug, PartialEq, Eq)]
struct Watched {
    data: Option<RawBytes>,
    root: Option<Cid>,
}

impl ReceiverData for Watched {
    fn completed_by(
        &self,
        _: actors_utils::bytes::Bytes,
        _: actors_utils::fvm_actor_utils::syscalls::RootView,
        _: &Self,
    ) -> bool {
        unreachable!()
    }

    fn answered_by(&self, _: actors_utils::bytes::Bytes, _: &Self) -> bool {
        unreachable!()
    }

    fn root_kept(&self) -> actors_utils::fvm_actor_utils::syscalls::RootView {
        unreachable!()
    }

    fn set_recipient_data(&mut self, data: RawBytes) {
        self.data = Some(data);
    }

    fn set_new_root(&mut self, new_root: Option<Cid>) {
        self.root = new_root;
    }

    fn new_root(&self) -> Option<Cid> {
        self.root.clone()
    }
}

fn watching_hook() -> WatchingHook<Watched> {
    WatchingHook::new(Address::new_id(2), params(), Watched { data: None, root: None })
}

#[test]
fn watching_hook_is_called_once() {
    let mut hook = watching_hook();
    let mut runtime = new_runtime();
    let answer = hook.call(&mut runtime).unwrap();
    assert!(answer.data.is_some());
    assert_eq!(answer.new_root(), None);
    assert!(runtime.syscalls.last_message.is_some());
    assert_eq!(hook.call(&mut runtime).unwrap_err(), HookError::AlreadyCalled);
}

#[test]
fn watching_hook_tells_of_a_new_root() {
    let mut runtime = new_runtime();
    let later = runtime.blockstore.put(vec![0x01]);
    let answer = |value: u32| Response {
        exit_code: ExitCode::new(value),
        return_data: RawBytes::new(vec![5]),
    };

    let settled =
        watching_hook().settle(Ok(answer(OK)), Cid::default(), later.clone()).unwrap();
    assert_eq!(settled, Watched { data: Some(RawBytes::new(vec![5])), root: Some(later.clone()) });

    let settled = watching_hook().settle(Ok(answer(OK)), later.clone(), later.clone()).unwrap();
    assert_eq!(settled.new_root(), None);

    let err = watching_hook().settle(Ok(answer(USR_FORBIDDEN)), Cid::default(), later).unwrap_err();
    let expected = HookError::Aborted {
        from: 1,
        to: 2,
        operator: 1,
        amount: TokenAmount::zero(),
        exit_code: ExitCode::new(USR_FORBIDDEN),
    };
    assert_eq!(err, expected);
}

#[test]
fn watching_hook_that_cannot_be_sent_fails() {
    let mut hook = watching_hook();
    let mut runtime = new_runtime();
    runtime.syscalls.abort_next_send = true;
    let err = hook.call(&mut runtime).unwrap_err();
    assert_eq!(err, HookError::Messaging(MessagingError::Syscall(ErrorNumber::AssertionFailed)));
}
