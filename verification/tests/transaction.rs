use actors_utils::amount::TokenAmount;
use actors_utils::bytes::RawBytes;
use actors_utils::exit::{OK, SYS_INVALID_RECEIVER};
use actors_utils::fil_fungible_token::method::{FakeMethodCaller, FvmMethodCaller, MethodCaller};
use actors_utils::fil_fungible_token::state::TokenState;
use actors_utils::fil_fungible_token::token::Token;
use actors_utils::fil_fungible_token::transaction::{TokenTransaction, TransactionOutcome};
use actors_utils::fvm_actor_utils::fake_syscalls::FakeSyscalls;
use actors_utils::fvm_actor_utils::util::ActorRuntime;

fn atto(n: i128) -> TokenAmount {
    TokenAmount::from_atto(n)
}

fn with_token<F: FnOnce(TokenTransaction<'_, FakeSyscalls>)>(f: F) {
    let mut runtime = ActorRuntime::<FakeSyscalls>::new_test_runtime();
    let mut state = TokenState::new(&mut runtime.blockstore).unwrap();
    let token = Token::wrap(runtime, 1, &mut state);
    f(TokenTransaction::new(token));
}

#[test]
fn operations_are_done_together() {
    with_token(|mut tx| {
        tx.mint(1, 2, &atto(100), RawBytes::default());
        tx.transfer(2, 2, 3, &atto(60), RawBytes::default());
        tx.increase_allowance(3, 4, &atto(10));
        tx.burn(3, 3, &atto(10));
        let cid = match tx.flush().unwrap() {
            TransactionOutcome::Succeeded(cid) => cid,
            other => panic!("unexpected {other:?}"),
        };
        let bs = &tx.token.runtime.blockstore;
        let state = TokenState::load(bs, &cid).unwrap();
        assert_eq!(state.supply, atto(90));
        assert_eq!(state.get_balance(bs, 2).unwrap(), atto(40));
        assert_eq!(state.get_balance(bs, 3).unwrap(), atto(50));
        assert_eq!(state.get_allowance_between(bs, 3, 4).unwrap(), atto(10));
    });
}

#[test]
fn one_failure_undoes_them_all() {
    with_token(|mut tx| {
        tx.mint(1, 2, &atto(100), RawBytes::default());
        tx.burn(2, 2, &atto(101));
        tx.burn(2, 2, &atto(1));
        let cid = match tx.flush().unwrap() {
            TransactionOutcome::Reverted(cid) => cid,
            other => panic!("unexpected {other:?}"),
        };
        let bs = &tx.token.runtime.blockstore;
        let state = TokenState::load(bs, &cid).unwrap();
        assert_eq!(state.supply, atto(0));
        assert_eq!(state.get_balance(bs, 2).unwrap(), atto(0));
    });
}

#[test]
fn a_receiver_is_not_called_on_changed_state() {
    with_token(|mut tx| {
        tx.increase_allowance(1, 2, &atto(10));
        tx.mint(1, 2, &atto(100), RawBytes::default());
        assert!(matches!(tx.flush(), Ok(TransactionOutcome::Reverted(_))));
        assert_eq!(tx.token.state().supply, atto(0));
    });
}

#[test]
fn a_receiver_that_aborts_undoes_a_mint() {
    with_token(|mut tx| {
        tx.token.runtime.syscalls.abort_next_send = true;
        tx.mint(1, 2, &atto(100), RawBytes::default());
        assert!(tx.needs_rollback);
        assert_eq!(tx.token.state().supply, atto(0));
    });
    with_token(|mut tx| {
        tx.mint(1, 2, &atto(100), RawBytes::new(vec![7]));
        assert!(!tx.needs_rollback);
        assert!(tx.token.runtime.syscalls.last_message.is_some());
        tx.token.runtime.syscalls.abort_next_send = true;
        tx.transfer(2, 2, 3, &atto(60), RawBytes::default());
        assert!(tx.needs_rollback);
        let state = tx.token.state();
        assert_eq!(state.get_balance(&tx.token.runtime.blockstore, 2).unwrap(), atto(100));
    });
}

#[test]
fn what_is_refused_is_told_to_nobody() {
    with_token(|mut tx| {
        tx.mint(1, 2, &atto(-1), RawBytes::default());
        assert!(tx.needs_rollback);
        assert!(tx.token.runtime.syscalls.last_message.is_none());
    });
    with_token(|mut tx| {
        tx.transfer(2, 2, 3, &atto(1), RawBytes::default());
        assert!(tx.needs_rollback);
        assert!(tx.token.runtime.syscalls.last_message.is_none());
    });
    with_token(|mut tx| {
        tx.transfer(4, 2, 3, &atto(0), RawBytes::default());
        assert!(tx.needs_rollback);
        assert!(tx.token.runtime.syscalls.last_message.is_none());
    });
}

#[test]
fn a_spender_transfers_in_a_transaction() {
    with_token(|mut tx| {
        tx.mint(1, 2, &atto(100), RawBytes::default());
        tx.token
            .increase_allowance(
                &actors_utils::address::Address::new_id(2),
                &actors_utils::address::Address::new_id(4),
                &atto(50),
            )
            .unwrap();
        tx.transfer(4, 2, 3, &atto(30), RawBytes::default());
        assert!(!tx.needs_rollback);
        let bs = &tx.token.runtime.blockstore;
        let state = tx.token.state();
        assert_eq!(state.get_balance(bs, 3).unwrap(), atto(30));
        assert_eq!(state.get_allowance_between(bs, 2, 4).unwrap(), atto(20));
    });
}

#[test]
fn allowances_in_a_transaction() {
    with_token(|mut tx| {
        tx.increase_allowance(1, 2, &atto(10));
        tx.decrease_allowance(1, 2, &atto(4));
        tx.increase_allowance(1, 3, &atto(7));
        tx.revoke_allowance(1, 3);
        tx.flush().unwrap();
        let bs = &tx.token.runtime.blockstore;
        let state = tx.token.state();
        assert_eq!(state.get_allowance_between(bs, 1, 2).unwrap(), atto(6));
        assert_eq!(state.get_allowance_between(bs, 1, 3).unwrap(), atto(0));
    });
}

#[test]
fn a_fake_receiver_takes_tokens_without_data() {
    let taken = FakeMethodCaller {}.call_receiver_hook(1, 2, &atto(5), &vec![]).unwrap();
    assert_eq!(taken.exit_code.value, OK);
    let refused = FakeMethodCaller {}.call_receiver_hook(1, 2, &atto(5), &vec![9]).unwrap();
    assert_eq!(refused.exit_code.value, SYS_INVALID_RECEIVER);
    assert_eq!(refused.return_data, RawBytes::new(vec![9]));
}

#[test]
fn the_hook_message_carries_the_tokens() {
    let call = FvmMethodCaller {}.hook_call(1, 2, &atto(5), &vec![9]).unwrap();
    assert_eq!(call.method, 1361519036);
    assert_eq!(call.to, actors_utils::address::Address::new_id(2));
    assert_eq!(call.value, TokenAmount::zero());
    // an array of the sender, the amount and the data
    let decoded: (
        fvm_shared::address::Address,
        fvm_shared::econ::TokenAmount,
        fvm_ipld_encoding::RawBytes,
    ) = fvm_ipld_encoding::from_slice(&call.params.data).unwrap();
    assert_eq!(decoded.0, fvm_shared::address::Address::new_id(1));
    assert_eq!(decoded.1, fvm_shared::econ::TokenAmount::from_atto(5));
    assert_eq!(decoded.2.to_vec(), vec![9]);
}
