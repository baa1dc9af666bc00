use actors_utils::address::{Address, Payload};
use actors_utils::amount::TokenAmount;
use actors_utils::bytes::RawBytes;
use actors_utils::exit::ErrorNumber;
use actors_utils::frc46_token::error::TokenError;
use actors_utils::frc46_token::state::{StateError, TokenState};
use actors_utils::frc46_token::token::Token;
use actors_utils::fvm_actor_utils::fake_syscalls::FakeSyscalls;
use actors_utils::fvm_actor_utils::messaging::{MessagingError, RECEIVER_HOOK_METHOD_NUM};
use actors_utils::fvm_actor_utils::receiver::{
    FRC46TokenReceived, ReceiverHookError, FRC46_TOKEN_TYPE,
};
use actors_utils::fvm_actor_utils::util::ActorRuntime;
use actors_utils::keys::actor_id_key;
use fvm_shared::econ::TokenAmount as Atto;

/// The address of the secp256k1 key of 65 zeros
fn secp_address() -> Address {
    let hash = vec![
        107, 86, 171, 127, 132, 143, 73, 181, 189, 41, 97, 222, 224, 75, 111, 69, 77, 182, 202, 45,
    ];
    Address { payload: Payload::Secp256k1(hash) }
}

/// The address of the BLS key of 48 zeros
fn bls_address() -> Address {
    Address { payload: Payload::BLS(vec![0; 48]) }
}

/// An actor address, that no message makes an account for
fn actor_address() -> Address {
    let hash = vec![
        51, 69, 82, 74, 191, 107, 190, 24, 9, 68, 146, 36, 181, 151, 44, 65, 121, 11, 108, 242,
    ];
    Address { payload: Payload::Actor(hash) }
}

fn other_actor_address() -> Address {
    let hash = vec![
        202, 93, 63, 160, 166, 136, 114, 133, 239, 106, 168, 92, 177, 41, 96, 162, 182, 112, 110, 0,
    ];
    Address { payload: Payload::Actor(hash) }
}

fn token_actor() -> Address {
    Address::new_id(1)
}

fn treasury() -> Address {
    Address::new_id(2)
}

fn alice() -> Address {
    Address::new_id(3)
}

fn bob() -> Address {
    Address::new_id(4)
}

fn carol() -> Address {
    Address::new_id(5)
}

fn new_token(runtime: ActorRuntime<FakeSyscalls>, state: &mut TokenState) -> Token<'_, FakeSyscalls> {
    Token::wrap(runtime, 1, state)
}

type Payloads = (u64, u64, u64, Atto, fvm_ipld_encoding::RawBytes, fvm_ipld_encoding::RawBytes);

fn assert_last_hook_call_eq(runtime: &ActorRuntime<FakeSyscalls>, expected: FRC46TokenReceived) {
    let last_message = runtime.syscalls.last_message.clone().unwrap();
    assert_eq!(last_message.method, RECEIVER_HOOK_METHOD_NUM);
    let params = last_message.params.unwrap();
    let (type_, payload): (u32, fvm_ipld_encoding::RawBytes) =
        fvm_ipld_encoding::from_slice(&params.data).unwrap();
    assert_eq!(type_, FRC46_TOKEN_TYPE);
    let (from, to, operator, amount, operator_data, token_data): Payloads =
        fvm_ipld_encoding::from_slice(payload.bytes()).unwrap();
    let amount: i128 = format!("{}", amount.atto()).parse().unwrap();
    let last_called = FRC46TokenReceived {
        from,
        to,
        operator,
        amount: TokenAmount::from_atto(amount),
        operator_data: RawBytes::new(operator_data.to_vec()),
        token_data: RawBytes::new(token_data.to_vec()),
    };
    assert_eq!(last_called, expected);
}

#[test]
fn mod_it_wraps_a_previously_loaded_state_tree() {
    struct ActorState {
        token_state: TokenState,
    }

    // simulate the token state being a node in a larger state tree
    let mut helper = ActorRuntime::<FakeSyscalls>::new_test_runtime();
    let mut actor_state = ActorState {
        token_state: Token::<FakeSyscalls>::create_state(&mut helper.blockstore)
            .unwrap(),
    };
    // wrap the token state, moving it into a TokenHandle
    let mut token = new_token(helper, &mut actor_state.token_state);

    let mut hook = token
        .mint(
            &token_actor(),
            &treasury(),
            &TokenAmount::from_atto(1),
            RawBytes::default(),
            RawBytes::default(),
        )
        .unwrap();
    token.flush().unwrap();
    hook.call(&mut token.runtime).unwrap();

    let state = token.state();
    // gets a read-only state
    assert_eq!(state.supply, TokenAmount::from_atto(1));
    // can get a token_state here but doing so borrows the value making the mutable borrow on line 550 invalid
    assert_eq!(actor_state.token_state.supply, TokenAmount::from_atto(1));

    // therefore, after the above line 560, can no longer use the token handle to read OR mutate state
    // any single one of these lines now causes a compiler error
    // token.mint(&token_actor(), &treasury(), &TokenAmount::from_atto(1), Default::default(), Default::default()).unwrap();
    // token.balance_of(&treasury()).unwrap();
}

#[test]
fn mod_it_instantiates_and_persists() {
    let mut helper = ActorRuntime::<FakeSyscalls>::new_test_runtime();
    // create a new token
    let mut state = Token::<FakeSyscalls>::create_state(&mut helper.blockstore).unwrap();
    // wrap the token state, moving it into a TokenHandle
    let mut token = new_token(helper, &mut state);

    // state exists but is empty
    assert_eq!(token.total_supply(), TokenAmount::zero());

    // mint some value
    let mut hook = token
        .mint(
            &token_actor(),
            &treasury(),
            &TokenAmount::from_atto(100),
            RawBytes::default(),
            RawBytes::default(),
        )
        .unwrap();
    token.flush().unwrap();
    hook.call(&mut token.runtime).unwrap();

    assert_eq!(token.total_supply(), TokenAmount::from_atto(100));

    // flush token to blockstore
    let cid = token.flush().unwrap();

    // the returned cid can be used to reference the same token state
    let helper = ActorRuntime {
        blockstore: token.runtime.blockstore,
        syscalls: FakeSyscalls::default(),
    };
    let mut state =
        Token::<FakeSyscalls>::load_state(helper.bs(), &cid).unwrap();
    let token2 = Token::wrap(helper, 1, &mut state);
    assert_eq!(token2.total_supply(), TokenAmount::from_atto(100));
}

#[test]
fn it_instantiates_with_variable_bit_width() {
    let mut helper = ActorRuntime::<FakeSyscalls>::new_test_runtime();
    let mut state =
        Token::<FakeSyscalls>::create_state_with_bit_width(&mut helper.blockstore, 2)
            .unwrap();
    state.set_balance(&mut helper.blockstore, 3, &TokenAmount::from_atto(100)).unwrap();
    let state_cid = state.save(&mut helper.blockstore).unwrap();

    let token =
        Token::<FakeSyscalls>::load_state(helper.bs(), &state_cid).unwrap();
    assert_eq!(
        token.get_balance(&helper.blockstore, 3).unwrap(),
        TokenAmount::from_atto(100)
    );
}

#[test]
fn mod_it_mutates_externally_loaded_state() {
    let mut helper = ActorRuntime::<FakeSyscalls>::new_test_runtime();
    let mut state = TokenState::new(&mut helper.blockstore).unwrap();
    let mut token = Token::<FakeSyscalls>::wrap(helper, 1, &mut state);

    // mutate state via the handle
    let mut hook = token
        .mint(
            &token_actor(),
            &alice(),
            &TokenAmount::from_atto(100),
            RawBytes::default(),
            RawBytes::default(),
        )
        .unwrap();
    token.flush().unwrap();
    hook.call(&mut token.runtime).unwrap();

    // visible via the handle
    assert_eq!(token.total_supply(), TokenAmount::from_atto(100));

    // the underlying state was mutated
    let helper = ActorRuntime {
        blockstore: token.runtime.blockstore,
        syscalls: FakeSyscalls::default(),
    };
    assert_eq!(state.supply, TokenAmount::from_atto(100));
    assert_eq!(
        state.get_balance(&helper.blockstore, 3).unwrap(),
        TokenAmount::from_atto(100)
    );

    // note: its not allowed here to use the token handle anymore given that we have read from state
    // assert_eq!(token.total_supply(), TokenAmount::from_atto(100));
}

#[test]
fn mod_it_provides_atomic_transactions() {
    let mut helper = ActorRuntime::<FakeSyscalls>::new_test_runtime();
    let mut token_state =
        Token::<FakeSyscalls>::create_state(&mut helper.blockstore).unwrap();
    let mut token = new_token(helper, &mut token_state);

    // entire transaction succeeds
    token
        .transaction(|state, _bs| {
            state.change_supply_by(&TokenAmount::from_atto(100)).map_err(TokenError::TokenState)?;
            state.change_supply_by(&TokenAmount::from_atto(100)).map_err(TokenError::TokenState)?;
            Ok(())
        })
        .unwrap();
    assert_eq!(token.total_supply(), TokenAmount::from_atto(200));

    // entire transaction fails
    token
        .transaction(|state, _bs| {
            state.change_supply_by(&TokenAmount::from_atto(-100)).map_err(TokenError::TokenState)?;
            state.change_supply_by(&TokenAmount::from_atto(-100)).map_err(TokenError::TokenState)?;
            // this makes supply negative and should revert the entire transaction
            state.change_supply_by(&TokenAmount::from_atto(-100)).map_err(TokenError::TokenState)?;
            Ok(())
        })
        .unwrap_err();
    // total_supply should be unchanged
    assert_eq!(token.total_supply(), TokenAmount::from_atto(200));
}

#[test]
fn mod_it_mints() {
    let mut helper = ActorRuntime::<FakeSyscalls>::new_test_runtime();
    let mut token_state =
        Token::<FakeSyscalls>::create_state(&mut helper.blockstore).unwrap();
    let mut token = new_token(helper, &mut token_state);
    token.runtime.syscalls.actor_id = 1; // minting relies on runtime to determine the token actor's id

    assert_eq!(token.balance_of(&treasury()).unwrap(), TokenAmount::zero());
    let mut hook = token
        .mint(
            &token_actor(),
            &treasury(),
            &TokenAmount::from_atto(1_000_000),
            RawBytes::default(),
            RawBytes::default(),
        )
        .unwrap();
    token.flush().unwrap();
    let hook_ret = hook.call(&mut token.runtime).unwrap();

    // check receiver hook was called with correct shape
    assert_last_hook_call_eq(
        &token.runtime,
        FRC46TokenReceived {
            operator: 1,
            from: 1,
            to: 2,
            amount: TokenAmount::from_atto(1_000_000),
            operator_data: Default::default(),
            token_data: Default::default(),
        },
    );

    let result = token.mint_return(hook_ret).unwrap();
    assert_eq!(TokenAmount::from_atto(1_000_000), result.balance);
    assert_eq!(TokenAmount::from_atto(1_000_000), result.supply);

    // balance and total supply both went up
    assert_eq!(token.balance_of(&treasury()).unwrap(), TokenAmount::from_atto(1_000_000));
    assert_eq!(token.total_supply(), TokenAmount::from_atto(1_000_000));

    // cannot mint a negative amount
    token
        .mint(
            &token_actor(),
            &alice(),
            &TokenAmount::from_atto(-1),
            RawBytes::default(),
            RawBytes::default(),
        )
        .unwrap_err();

    // state remained unchanged
    assert_eq!(token.balance_of(&alice()).unwrap(), TokenAmount::zero());
    assert_eq!(token.total_supply(), TokenAmount::from_atto(1_000_000));

    // mint zero
    let mut hook = token
        .mint(&token_actor(), &alice(), &TokenAmount::zero(), Default::default(), Default::default())
        .unwrap();
    token.flush().unwrap();
    hook.call(&mut token.runtime).unwrap();

    // check receiver hook was called with correct shape
    assert_last_hook_call_eq(
        &token.runtime,
        FRC46TokenReceived {
            operator: 1,
            from: 1,
            to: 3,
            amount: TokenAmount::zero(),
            operator_data: Default::default(),
            token_data: Default::default(),
        },
    );

    // state remained unchanged
    assert_eq!(token.balance_of(&alice()).unwrap(), TokenAmount::zero());
    assert_eq!(token.total_supply(), TokenAmount::from_atto(1_000_000));

    // mint again to same address
    let mut hook = token
        .mint(
            &token_actor(),
            &treasury(),
            &TokenAmount::from_atto(1_000_000),
            RawBytes::default(),
            RawBytes::default(),
        )
        .unwrap();
    token.flush().unwrap();
    let hook_ret = hook.call(&mut token.runtime).unwrap();
    let result = token.mint_return(hook_ret).unwrap();
    assert_eq!(TokenAmount::from_atto(2_000_000), result.balance);
    assert_eq!(TokenAmount::from_atto(2_000_000), result.supply);

    assert_eq!(token.balance_of(&alice()).unwrap(), TokenAmount::zero());
    assert_eq!(token.balance_of(&treasury()).unwrap(), TokenAmount::from_atto(2_000_000));
    assert_eq!(token.total_supply(), TokenAmount::from_atto(2_000_000));

    // check receiver hook was called with correct shape
    assert_last_hook_call_eq(
        &token.runtime,
        FRC46TokenReceived {
            operator: 1,
            from: 1,
            to: 2,
            amount: TokenAmount::from_atto(1_000_000),
            operator_data: Default::default(),
            token_data: Default::default(),
        },
    );

    // mint to a different address
    let mut hook = token
        .mint(
            &token_actor(),
            &alice(),
            &TokenAmount::from_atto(1_000_000),
            RawBytes::default(),
            RawBytes::default(),
        )
        .unwrap();
    token.flush().unwrap();
    let hook_ret = hook.call(&mut token.runtime).unwrap();
    let result = token.mint_return(hook_ret).unwrap();
    assert_eq!(TokenAmount::from_atto(1_000_000), result.balance);
    assert_eq!(TokenAmount::from_atto(3_000_000), result.supply);

    assert_eq!(token.balance_of(&alice()).unwrap(), TokenAmount::from_atto(1_000_000));
    assert_eq!(token.balance_of(&treasury()).unwrap(), TokenAmount::from_atto(2_000_000));
    assert_eq!(token.total_supply(), TokenAmount::from_atto(3_000_000));

    // check receiver hook was called with correct shape
    assert_last_hook_call_eq(
        &token.runtime,
        FRC46TokenReceived {
            operator: 1,
            from: 1,
            to: 3,
            amount: TokenAmount::from_atto(1_000_000),
            operator_data: Default::default(),
            token_data: Default::default(),
        },
    );

    // carols account was unaffected
    assert_eq!(token.balance_of(&carol()).unwrap(), TokenAmount::zero());

    // can mint to secp address
    let secp_address = secp_address();
    // initially zero
    assert_eq!(token.balance_of(&secp_address).unwrap(), TokenAmount::zero());
    // self-mint to secp address
    let mut hook = token
        .mint(
            &token_actor(),
            &secp_address,
            &TokenAmount::from_atto(1_000_000),
            RawBytes::default(),
            RawBytes::default(),
        )
        .unwrap();
    token.flush().unwrap();
    hook.call(&mut token.runtime).unwrap();

    // check receiver hook was called with correct shape
    assert_last_hook_call_eq(
        &token.runtime,
        FRC46TokenReceived {
            operator: 1,
            from: 1,
            to: token.runtime.resolve_id(&secp_address).unwrap(),
            amount: TokenAmount::from_atto(1_000_000),
            operator_data: Default::default(),
            token_data: Default::default(),
        },
    );

    // can mint to bls address
    let bls_address = bls_address();
    // initially zero
    assert_eq!(token.balance_of(&bls_address).unwrap(), TokenAmount::zero());
    // minting creates the account
    let mut hook = token
        .mint(
            &token_actor(),
            &bls_address,
            &TokenAmount::from_atto(1_000_000),
            RawBytes::default(),
            RawBytes::default(),
        )
        .unwrap();
    token.flush().unwrap();
    hook.call(&mut token.runtime).unwrap();
    assert_eq!(token.balance_of(&alice()).unwrap(), TokenAmount::from_atto(1_000_000));
    assert_eq!(token.balance_of(&treasury()).unwrap(), TokenAmount::from_atto(2_000_000));
    assert_eq!(token.balance_of(&secp_address).unwrap(), TokenAmount::from_atto(1_000_000));
    assert_eq!(token.balance_of(&bls_address).unwrap(), TokenAmount::from_atto(1_000_000));
    assert_eq!(token.total_supply(), TokenAmount::from_atto(5_000_000));

    // check receiver hook was called with correct shape
    assert_last_hook_call_eq(
        &token.runtime,
        FRC46TokenReceived {
            operator: 1,
            from: 1,
            to: token.runtime.resolve_id(&bls_address).unwrap(),
            amount: TokenAmount::from_atto(1_000_000),
            operator_data: Default::default(),
            token_data: Default::default(),
        },
    );

    // mint fails if actor address cannot be initialised
    let actor_address: Address = actor_address();
    token
        .mint(
            &token_actor(),
            &actor_address,
            &TokenAmount::from_atto(1_000_000),
            RawBytes::default(),
            RawBytes::default(),
        )
        .unwrap_err();
    assert_eq!(token.balance_of(&alice()).unwrap(), TokenAmount::from_atto(1_000_000));
    assert_eq!(token.balance_of(&treasury()).unwrap(), TokenAmount::from_atto(2_000_000));
    assert_eq!(token.balance_of(&secp_address).unwrap(), TokenAmount::from_atto(1_000_000));
    assert_eq!(token.balance_of(&bls_address).unwrap(), TokenAmount::from_atto(1_000_000));
    assert_eq!(token.total_supply(), TokenAmount::from_atto(5_000_000));

    token.assert_invariants().unwrap();
}

#[test]
fn mod_it_fails_to_mint_if_receiver_hook_aborts() {
    let mut helper = ActorRuntime::<FakeSyscalls>::new_test_runtime();
    let mut token_state =
        Token::<FakeSyscalls>::create_state(&mut helper.blockstore).unwrap();
    let mut token = new_token(helper, &mut token_state);

    // force hook to abort
    token.runtime.syscalls.abort_next_send = true;
    let original_state = token.state().clone();
    let mut hook = token
        .mint(
            &token_actor(),
            &treasury(),
            &TokenAmount::from_atto(1_000_000),
            RawBytes::default(),
            RawBytes::default(),
        )
        .unwrap();
    token.flush().unwrap();
    let err = hook.call(&mut token.runtime).unwrap_err();

    // messaging error as we told to abort
    if let ReceiverHookError::Messaging(MessagingError::Syscall(e)) = err {
        assert_eq!(e, ErrorNumber::AssertionFailed);
    } else {
        panic!("expected receiver hook error {err:?}");
    }

    // restore the state before the mint
    // in actor code, we'd just abort and let the VM handle this
    token.replace(original_state);

    // state remained unchanged
    assert_eq!(token.balance_of(&treasury()).unwrap(), TokenAmount::zero());
    assert_eq!(token.total_supply(), TokenAmount::zero());
    token.assert_invariants().unwrap();
}

#[test]
fn mod_it_burns() {
    let mut helper = ActorRuntime::<FakeSyscalls>::new_test_runtime();
    let mut token_state =
        Token::<FakeSyscalls>::create_state(&mut helper.blockstore).unwrap();
    let mut token = new_token(helper, &mut token_state);

    let mint_amount = TokenAmount::from_atto(1_000_000);
    let burn_amount = TokenAmount::from_atto(600_000);
    let mut hook = token
        .mint(&token_actor(), &treasury(), &mint_amount, Default::default(), Default::default())
        .unwrap();
    token.flush().unwrap();
    hook.call(&mut token.runtime).unwrap();

    token.burn(&treasury(), &burn_amount).unwrap();

    // total supply decreased
    let total_supply = token.total_supply();
    assert_eq!(total_supply, TokenAmount::from_atto(400_000));
    // treasury balance decreased
    assert_eq!(token.balance_of(&treasury()).unwrap(), TokenAmount::from_atto(400_000));
    // alice's account unaffected
    assert_eq!(token.balance_of(&alice()).unwrap(), TokenAmount::zero());

    // cannot burn a negative amount
    token.burn(&treasury(), &TokenAmount::from_atto(-1)).unwrap_err();

    // balances and supply were unchanged
    assert_eq!(token.balance_of(&treasury()).unwrap(), TokenAmount::from_atto(400_000));
    assert_eq!(token.total_supply(), TokenAmount::from_atto(400_000));
    // alice's account unaffected
    assert_eq!(token.balance_of(&alice()).unwrap(), TokenAmount::zero());

    // burn zero
    token.burn(&treasury(), &TokenAmount::zero()).unwrap();

    // balances and supply were unchanged
    let remaining_balance = token.balance_of(&treasury()).unwrap();
    assert_eq!(remaining_balance, TokenAmount::from_atto(400_000));
    assert_eq!(token.total_supply(), TokenAmount::from_atto(400_000));
    // alice's account unaffected
    assert_eq!(token.balance_of(&alice()).unwrap(), TokenAmount::zero());

    // burn exact amount left
    token.burn(&treasury(), &remaining_balance).unwrap();
    assert_eq!(token.balance_of(&treasury()).unwrap(), TokenAmount::zero());
    assert_eq!(token.total_supply(), TokenAmount::zero());
    // alice's account unaffected
    assert_eq!(token.balance_of(&alice()).unwrap(), TokenAmount::zero());
    token.assert_invariants().unwrap();
}

#[test]
fn mod_it_fails_to_burn_below_zero() {
    let mut helper = ActorRuntime::<FakeSyscalls>::new_test_runtime();
    let mut token_state =
        Token::<FakeSyscalls>::create_state(&mut helper.blockstore).unwrap();
    let mut token = new_token(helper, &mut token_state);

    let mint_amount = TokenAmount::from_atto(1_000_000);
    let burn_amount = TokenAmount::from_atto(2_000_000);
    let mut hook = token
        .mint(&token_actor(), &treasury(), &mint_amount, Default::default(), Default::default())
        .unwrap();
    token.flush().unwrap();
    hook.call(&mut token.runtime).unwrap();

    token.burn(&treasury(), &burn_amount).unwrap_err();

    // balances and supply were unchanged
    assert_eq!(token.total_supply(), TokenAmount::from_atto(1_000_000));
    assert_eq!(token.balance_of(&treasury()).unwrap(), TokenAmount::from_atto(1_000_000));
    token.assert_invariants().unwrap();
}

#[test]
fn mod_it_sets_balances() {
    let mut helper = ActorRuntime::<FakeSyscalls>::new_test_runtime();
    let mut token_state =
        Token::<FakeSyscalls>::create_state(&mut helper.blockstore).unwrap();
    let mut token = new_token(helper, &mut token_state);

    // check that it obeys granularity
    token.granularity = 50;
    token.set_balance(&alice(), &TokenAmount::from_atto(49)).unwrap_err();
    assert_eq!(token.total_supply(), TokenAmount::zero());

    // set balance for Alice to 100
    let old_balance = token.set_balance(&alice(), &TokenAmount::from_atto(100)).unwrap();
    assert_eq!(old_balance, TokenAmount::zero());
    let new_balance = token.balance_of(&alice()).unwrap();
    assert_eq!(new_balance, TokenAmount::from_atto(100));
    assert_eq!(token.total_supply(), TokenAmount::from_atto(100));

    // set balance for Alice to 50
    let old_balance = token.set_balance(&alice(), &TokenAmount::from_atto(50)).unwrap();
    assert_eq!(old_balance, TokenAmount::from_atto(100));
    let new_balance = token.balance_of(&alice()).unwrap();
    assert_eq!(new_balance, TokenAmount::from_atto(50));
    assert_eq!(token.total_supply(), TokenAmount::from_atto(50));

    // attempt to set balance for Alice to negative
    token.set_balance(&alice(), &TokenAmount::from_atto(-50)).unwrap_err();
    // see that balance was not changed
    let new_balance = token.balance_of(&alice()).unwrap();
    assert_eq!(new_balance, TokenAmount::from_atto(50));
    assert_eq!(token.total_supply(), TokenAmount::from_atto(50));

    // set balance for Alice to 0
    let old_balance = token.set_balance(&alice(), &TokenAmount::from_atto(0)).unwrap();
    assert_eq!(old_balance, TokenAmount::from_atto(50));
    let new_balance = token.balance_of(&alice()).unwrap();
    assert_eq!(new_balance, TokenAmount::from_atto(0));
    assert_eq!(token.total_supply(), TokenAmount::from_atto(0));

    // check that the balance map was emptied
    token.assert_invariants().unwrap();
}

#[test]
fn mod_it_transfers() {
    let mut helper = ActorRuntime::<FakeSyscalls>::new_test_runtime();
    let mut token_state =
        Token::<FakeSyscalls>::create_state(&mut helper.blockstore).unwrap();
    let mut token = new_token(helper, &mut token_state);

    // mint 100 for owner
    let mut hook = token
        .mint(
            &token_actor(),
            &alice(),
            &TokenAmount::from_atto(100),
            RawBytes::default(),
            RawBytes::default(),
        )
        .unwrap();
    token.flush().unwrap();
    hook.call(&mut token.runtime).unwrap();
    // transfer 60 from owner -> receiver
    let mut hook = token
        .transfer(
            &alice(),
            &bob(),
            &TokenAmount::from_atto(60),
            RawBytes::default(),
            RawBytes::default(),
        )
        .unwrap();
    token.flush().unwrap();
    let intermediate = hook.call(&mut token.runtime).unwrap();
    let ret = token.transfer_return(intermediate).unwrap();

    // owner has 100 - 60 = 40
    assert_eq!(token.balance_of(&alice()).unwrap(), TokenAmount::from_atto(40));
    assert_eq!(ret.from_balance, TokenAmount::from_atto(40));
    // receiver has 0 + 60 = 60
    assert_eq!(token.balance_of(&bob()).unwrap(), TokenAmount::from_atto(60));
    assert_eq!(ret.to_balance, TokenAmount::from_atto(60));
    // total supply is unchanged
    assert_eq!(token.total_supply(), TokenAmount::from_atto(100));

    // check receiver hook was called with correct shape
    assert_last_hook_call_eq(
        &token.runtime,
        FRC46TokenReceived {
            operator: 3,
            from: 3,
            amount: TokenAmount::from_atto(60),
            to: 4,
            operator_data: Default::default(),
            token_data: Default::default(),
        },
    );

    // cannot transfer a negative value
    token
        .transfer(
            &alice(),
            &bob(),
            &TokenAmount::from_atto(-1),
            RawBytes::default(),
            RawBytes::default(),
        )
        .unwrap_err();
    // balances are unchanged
    assert_eq!(token.balance_of(&alice()).unwrap(), TokenAmount::from_atto(40));
    assert_eq!(token.balance_of(&bob()).unwrap(), TokenAmount::from_atto(60));
    // total supply is unchanged
    assert_eq!(token.total_supply(), TokenAmount::from_atto(100));

    // transfer zero value
    let mut hook = token
        .transfer(&alice(), &bob(), &TokenAmount::zero(), RawBytes::default(), RawBytes::default())
        .unwrap();
    token.flush().unwrap();
    hook.call(&mut token.runtime).unwrap();
    // balances are unchanged
    assert_eq!(token.balance_of(&alice()).unwrap(), TokenAmount::from_atto(40));
    assert_eq!(token.balance_of(&bob()).unwrap(), TokenAmount::from_atto(60));
    // total supply is unchanged
    assert_eq!(token.total_supply(), TokenAmount::from_atto(100));

    // check receiver hook was called with correct shape
    assert_last_hook_call_eq(
        &token.runtime,
        FRC46TokenReceived {
            operator: 3,
            from: 3,
            to: 4,
            amount: TokenAmount::zero(),
            operator_data: Default::default(),
            token_data: Default::default(),
        },
    );
}

#[test]
fn mod_it_transfers_to_self() {
    let mut helper = ActorRuntime::<FakeSyscalls>::new_test_runtime();
    let mut token_state =
        Token::<FakeSyscalls>::create_state(&mut helper.blockstore).unwrap();
    let mut token = new_token(helper, &mut token_state);

    // mint 100 for owner
    let mut hook = token
        .mint(
            &token_actor(),
            &alice(),
            &TokenAmount::from_atto(100),
            RawBytes::default(),
            RawBytes::default(),
        )
        .unwrap();
    token.flush().unwrap();
    hook.call(&mut token.runtime).unwrap();
    // transfer zero to self
    let mut hook = token
        .transfer(&alice(), &alice(), &TokenAmount::zero(), RawBytes::default(), RawBytes::default())
        .unwrap();
    token.flush().unwrap();
    hook.call(&mut token.runtime).unwrap();

    // balances are unchanged
    assert_eq!(token.balance_of(&alice()).unwrap(), TokenAmount::from_atto(100));
    // total supply is unchanged
    assert_eq!(token.total_supply(), TokenAmount::from_atto(100));

    // check receiver hook was called with correct shape
    assert_last_hook_call_eq(
        &token.runtime,
        FRC46TokenReceived {
            operator: 3,
            from: 3,
            to: 3,
            amount: TokenAmount::zero(),
            operator_data: Default::default(),
            token_data: Default::default(),
        },
    );

    // transfer value to self
    let mut hook = token
        .transfer(
            &alice(),
            &alice(),
            &TokenAmount::from_atto(10),
            RawBytes::default(),
            RawBytes::default(),
        )
        .unwrap();
    token.flush().unwrap();
    hook.call(&mut token.runtime).unwrap();
    // balances are unchanged
    assert_eq!(token.balance_of(&alice()).unwrap(), TokenAmount::from_atto(100));
    // total supply is unchanged
    assert_eq!(token.total_supply(), TokenAmount::from_atto(100));

    // check receiver hook was called with correct shape
    assert_last_hook_call_eq(
        &token.runtime,
        FRC46TokenReceived {
            operator: 3,
            from: 3,
            to: 3,
            amount: TokenAmount::from_atto(10),
            operator_data: Default::default(),
            token_data: Default::default(),
        },
    );
}

#[test]
fn mod_it_transfers_to_uninitialized_addresses() {
    let mut helper = ActorRuntime::<FakeSyscalls>::new_test_runtime();
    let mut token_state =
        Token::<FakeSyscalls>::create_state(&mut helper.blockstore).unwrap();
    let mut token = new_token(helper, &mut token_state);

    let mut hook = token
        .mint(
            &token_actor(),
            &alice(),
            &TokenAmount::from_atto(100),
            RawBytes::default(),
            RawBytes::default(),
        )
        .unwrap();
    token.flush().unwrap();
    hook.call(&mut token.runtime).unwrap();

    // transfer to an uninitialized pubkey
    let secp_address = &secp_address();
    assert_eq!(token.balance_of(secp_address).unwrap(), TokenAmount::zero());
    let mut hook = token
        .transfer(
            &alice(),
            secp_address,
            &TokenAmount::from_atto(10),
            RawBytes::default(),
            RawBytes::default(),
        )
        .unwrap();
    token.flush().unwrap();
    hook.call(&mut token.runtime).unwrap();

    // balances changed
    assert_eq!(token.balance_of(&alice()).unwrap(), TokenAmount::from_atto(90));
    assert_eq!(token.balance_of(secp_address).unwrap(), TokenAmount::from_atto(10));

    // total supply is unchanged
    assert_eq!(token.total_supply(), TokenAmount::from_atto(100));

    // check receiver hook was called with correct shape
    assert_last_hook_call_eq(
        &token.runtime,
        FRC46TokenReceived {
            operator: 3,
            from: 3,
            to: token.runtime.resolve_id(secp_address).unwrap(),
            amount: TokenAmount::from_atto(10),
            operator_data: Default::default(),
            token_data: Default::default(),
        },
    );
}

#[test]
fn mod_it_transfers_from_uninitialized_addresses() {
    let mut helper = ActorRuntime::<FakeSyscalls>::new_test_runtime();
    let mut token_state =
        Token::<FakeSyscalls>::create_state(&mut helper.blockstore).unwrap();
    let mut token = new_token(helper, &mut token_state);

    let secp_address = &secp_address();
    // non-zero transfer should fail
    assert!(token
        .transfer(
            secp_address,
            &alice(),
            &TokenAmount::from_atto(1),
            Default::default(),
            Default::default()
        )
        .is_err());
    // balances unchanged
    assert_eq!(token.balance_of(secp_address).unwrap(), TokenAmount::zero());
    assert_eq!(token.balance_of(&alice()).unwrap(), TokenAmount::zero());
    // supply unchanged
    assert_eq!(token.total_supply(), TokenAmount::zero());

    // zero-transfer should succeed
    let mut hook = token
        .transfer(
            secp_address,
            &alice(),
            &TokenAmount::zero(),
            RawBytes::default(),
            RawBytes::default(),
        )
        .unwrap();
    token.flush().unwrap();
    hook.call(&mut token.runtime).unwrap();

    // balances unchanged
    assert_eq!(token.balance_of(secp_address).unwrap(), TokenAmount::zero());
    assert_eq!(token.balance_of(&alice()).unwrap(), TokenAmount::zero());
    // supply unchanged
    assert_eq!(token.total_supply(), TokenAmount::zero());

    // secp_address was initialized
    assert!(&token.runtime.resolve_id(secp_address).is_ok());

    let actor_address = &actor_address();
    // transfers from actors fail with uninitializable
    let err = token
        .transfer(
            actor_address,
            &alice(),
            &TokenAmount::zero(),
            RawBytes::default(),
            RawBytes::default(),
        )
        .unwrap_err();

    if let TokenError::Messaging(MessagingError::AddressNotInitialized(e)) = err {
        assert_eq!(e, *actor_address);
    } else {
        panic!("Expected AddressNotInitialized error {err:?}");
    }

    // balances unchanged
    assert_eq!(token.balance_of(secp_address).unwrap(), TokenAmount::zero());
    assert_eq!(token.balance_of(&alice()).unwrap(), TokenAmount::zero());
    // supply unchanged
    assert_eq!(token.total_supply(), TokenAmount::zero());

    // actor address was not initialized
    assert!(&token.runtime.resolve_id(actor_address).is_err());
    token.assert_invariants().unwrap();
}

#[test]
fn mod_it_fails_to_transfer_when_receiver_hook_aborts() {
    let mut helper = ActorRuntime::<FakeSyscalls>::new_test_runtime();
    let mut token_state =
        Token::<FakeSyscalls>::create_state(&mut helper.blockstore).unwrap();
    let mut token = new_token(helper, &mut token_state);

    // mint 100 for owner
    let mut hook = token
        .mint(
            &token_actor(),
            &alice(),
            &TokenAmount::from_atto(100),
            RawBytes::default(),
            RawBytes::default(),
        )
        .unwrap();
    token.flush().unwrap();
    hook.call(&mut token.runtime).unwrap();

    // transfer 60 from owner -> receiver, but simulate receiver aborting the hook
    token.runtime.syscalls.abort_next_send = true;
    let pre_transfer_state = token.state().clone();
    let mut hook = token
        .transfer(
            &alice(),
            &bob(),
            &TokenAmount::from_atto(60),
            RawBytes::default(),
            RawBytes::default(),
        )
        .unwrap();
    token.flush().unwrap();
    hook.call(&mut token.runtime).unwrap_err();

    // restore the state before the mint
    // in actor code, we'd just abort and let the VM handle this
    token.replace(pre_transfer_state);

    // balances unchanged
    assert_eq!(token.balance_of(&alice()).unwrap(), TokenAmount::from_atto(100));
    assert_eq!(token.balance_of(&bob()).unwrap(), TokenAmount::from_atto(0));

    // transfer 60 from owner -> self, simulate receiver aborting the hook
    token.runtime.syscalls.abort_next_send = true;
    let pre_transfer_state = token.state().clone();
    let mut hook = token
        .transfer(
            &alice(),
            &alice(),
            &TokenAmount::from_atto(60),
            RawBytes::default(),
            RawBytes::default(),
        )
        .unwrap();
    token.flush().unwrap();
    hook.call(&mut token.runtime).unwrap_err();

    // restore the state before the mint
    // in actor code, we'd just abort and let the VM handle this
    token.replace(pre_transfer_state);

    // balances unchanged
    assert_eq!(token.balance_of(&alice()).unwrap(), TokenAmount::from_atto(100));
    assert_eq!(token.balance_of(&bob()).unwrap(), TokenAmount::from_atto(0));
    token.assert_invariants().unwrap();
}

#[test]
fn mod_it_fails_to_transfer_when_insufficient_balance() {
    let mut helper = ActorRuntime::<FakeSyscalls>::new_test_runtime();
    let mut token_state =
        Token::<FakeSyscalls>::create_state(&mut helper.blockstore).unwrap();
    let mut token = new_token(helper, &mut token_state);

    // mint 50 for the owner
    let mut hook = token
        .mint(
            &token_actor(),
            &alice(),
            &TokenAmount::from_atto(50),
            RawBytes::default(),
            RawBytes::default(),
        )
        .unwrap();
    token.flush().unwrap();
    hook.call(&mut token.runtime).unwrap();

    // attempt transfer 51 from owner -> receiver
    token
        .transfer(
            &alice(),
            &bob(),
            &TokenAmount::from_atto(51),
            RawBytes::default(),
            RawBytes::default(),
        )
        .unwrap_err();

    // balances remained unchanged
    assert_eq!(token.balance_of(&alice()).unwrap(), TokenAmount::from_atto(50));
    assert_eq!(token.balance_of(&bob()).unwrap(), TokenAmount::zero());
    token.assert_invariants().unwrap();
}

#[test]
fn mod_it_tracks_allowances() {
    let mut helper = ActorRuntime::<FakeSyscalls>::new_test_runtime();
    let mut token_state =
        Token::<FakeSyscalls>::create_state(&mut helper.blockstore).unwrap();
    let mut token = new_token(helper, &mut token_state);

    // set allowance between Alice and Carol as 100
    let new_allowance =
        token.increase_allowance(&alice(), &carol(), &TokenAmount::from_atto(100)).unwrap();
    let allowance = token.allowance(&alice(), &carol()).unwrap();
    // return value and allowance should be the same
    assert_eq!(new_allowance, allowance);
    assert_eq!(allowance, TokenAmount::from_atto(100));

    // one-way only
    assert_eq!(token.allowance(&carol(), &alice()).unwrap(), TokenAmount::zero());
    // unrelated allowance unaffected
    assert_eq!(token.allowance(&alice(), &bob()).unwrap(), TokenAmount::zero());

    // cannot set negative deltas
    token.increase_allowance(&alice(), &carol(), &TokenAmount::from_atto(-1)).unwrap_err();
    token.decrease_allowance(&alice(), &carol(), &TokenAmount::from_atto(-1)).unwrap_err();

    // allowance was unchanged
    let allowance = token.allowance(&alice(), &carol()).unwrap();
    assert_eq!(allowance, TokenAmount::from_atto(100));

    // keeps track of decreasing allowances
    let new_allowance =
        token.decrease_allowance(&alice(), &carol(), &TokenAmount::from_atto(60)).unwrap();
    let allowance = token.allowance(&alice(), &carol()).unwrap();
    assert_eq!(new_allowance, allowance);
    assert_eq!(allowance, TokenAmount::from_atto(40));

    // allowance revoking sets to 0
    token.revoke_allowance(&alice(), &carol()).unwrap();
    assert_eq!(token.allowance(&alice(), &carol()).unwrap(), TokenAmount::zero());

    // allowances cannot be negative, but decreasing an allowance below 0 revokes the allowance
    token.increase_allowance(&alice(), &carol(), &TokenAmount::from_atto(10)).unwrap();
    let new_allowance =
        token.decrease_allowance(&alice(), &carol(), &TokenAmount::from_atto(20)).unwrap();
    assert_eq!(new_allowance, TokenAmount::zero());
    assert_eq!(token.allowance(&alice(), &carol()).unwrap(), TokenAmount::zero());

    // allowances can be set for a pubkey address
    let resolvable_address = &secp_address();
    assert_eq!(token.allowance(&alice(), resolvable_address).unwrap(), TokenAmount::zero());
    token.increase_allowance(&alice(), resolvable_address, &TokenAmount::from_atto(10)).unwrap();
    assert_eq!(token.allowance(&alice(), resolvable_address).unwrap(), TokenAmount::from_atto(10));

    let initializable_address = &bls_address();
    assert_eq!(token.allowance(&alice(), initializable_address).unwrap(), TokenAmount::zero());
    token
        .increase_allowance(&alice(), initializable_address, &TokenAmount::from_atto(10))
        .unwrap();
    assert_eq!(
        token.allowance(&alice(), initializable_address).unwrap(),
        TokenAmount::from_atto(10)
    );

    let uninitializable_address = &actor_address();
    assert_eq!(token.allowance(&alice(), uninitializable_address).unwrap(), TokenAmount::zero());
    token
        .increase_allowance(&alice(), uninitializable_address, &TokenAmount::from_atto(10))
        .unwrap_err();
    token.assert_invariants().unwrap();
}

#[test]
fn it_sets_allowances() {
    let mut helper = ActorRuntime::<FakeSyscalls>::new_test_runtime();
    let mut token_state =
        Token::<FakeSyscalls>::create_state(&mut helper.blockstore).unwrap();
    let mut token = new_token(helper, &mut token_state);

    // set allowance between Alice and Carol as 100
    token.set_allowance(&alice(), &carol(), &TokenAmount::from_atto(100)).unwrap();
    let allowance = token.allowance(&alice(), &carol()).unwrap();
    assert_eq!(allowance, TokenAmount::from_atto(100));

    // set allowance between Alice and Carol as 120
    token.set_allowance(&alice(), &carol(), &TokenAmount::from_atto(120)).unwrap();
    let allowance = token.allowance(&alice(), &carol()).unwrap();
    assert_eq!(allowance, TokenAmount::from_atto(120));

    // set allowance between Alice and Carol as 0
    token.set_allowance(&alice(), &carol(), &TokenAmount::from_atto(0)).unwrap();
    let allowance = token.allowance(&alice(), &carol()).unwrap();
    assert_eq!(allowance, TokenAmount::from_atto(0));

    // attempt to set allowance between Alice and Carol as -50 which should error
    token.set_allowance(&alice(), &carol(), &TokenAmount::from_atto(-50)).unwrap_err();

    // check invariants (i.e. that the allowance map is emptied after being set to 0)
    token.assert_invariants().unwrap();
}

#[test]
fn mod_it_allows_delegated_transfer() {
    let mut helper = ActorRuntime::<FakeSyscalls>::new_test_runtime();
    let mut token_state =
        Token::<FakeSyscalls>::create_state(&mut helper.blockstore).unwrap();
    let mut token = new_token(helper, &mut token_state);

    // mint 100 for the owner
    let mut hook = token
        .mint(
            &alice(),
            &alice(),
            &TokenAmount::from_atto(100),
            Default::default(),
            Default::default(),
        )
        .unwrap();
    token.flush().unwrap();
    hook.call(&mut token.runtime).unwrap();

    // operator can't transfer without allowance, even if amount is zero
    token
        .transfer_from(
            &carol(),
            &alice(),
            &alice(),
            &TokenAmount::zero(),
            RawBytes::default(),
            RawBytes::default(),
        )
        .unwrap_err();

    // approve 100 spending allowance for operator
    token.increase_allowance(&alice(), &carol(), &TokenAmount::from_atto(100)).unwrap();
    // operator makes transfer of 60 from owner -> receiver
    let mut hook = token
        .transfer_from(
            &carol(),
            &alice(),
            &bob(),
            &TokenAmount::from_atto(60),
            RawBytes::default(),
            RawBytes::default(),
        )
        .unwrap();
    token.flush().unwrap();
    let intermediate = hook.call(&mut token.runtime).unwrap();
    let ret = token.transfer_from_return(intermediate).unwrap();

    // verify all balances are correct
    assert_eq!(token.balance_of(&alice()).unwrap(), TokenAmount::from_atto(40));
    assert_eq!(ret.from_balance, TokenAmount::from_atto(40));
    assert_eq!(token.balance_of(&bob()).unwrap(), TokenAmount::from_atto(60));
    assert_eq!(ret.to_balance, TokenAmount::from_atto(60));
    assert_eq!(token.balance_of(&carol()).unwrap(), TokenAmount::zero());
    // verify remaining allowance
    assert_eq!(token.allowance(&alice(), &carol()).unwrap(), TokenAmount::from_atto(40));
    assert_eq!(ret.allowance, TokenAmount::from_atto(40));

    // check receiver hook was called with correct shape
    assert_last_hook_call_eq(
        &token.runtime,
        FRC46TokenReceived {
            operator: 5,
            from: 3,
            to: 4,
            amount: TokenAmount::from_atto(60),
            operator_data: Default::default(),
            token_data: Default::default(),
        },
    );

    // verify allowance is correct
    let operator_allowance = token.allowance(&alice(), &carol()).unwrap();
    assert_eq!(operator_allowance, TokenAmount::from_atto(40));

    // operator makes another transfer of 40 from owner -> self
    let mut hook = token
        .transfer_from(
            &carol(),
            &alice(),
            &carol(),
            &TokenAmount::from_atto(40),
            RawBytes::default(),
            RawBytes::default(),
        )
        .unwrap();
    token.flush().unwrap();
    hook.call(&mut token.runtime).unwrap();

    // verify all balances are correct
    assert_eq!(token.balance_of(&alice()).unwrap(), TokenAmount::zero());
    assert_eq!(token.balance_of(&bob()).unwrap(), TokenAmount::from_atto(60));
    assert_eq!(token.balance_of(&carol()).unwrap(), TokenAmount::from_atto(40));

    // check receiver hook was called with correct shape
    assert_last_hook_call_eq(
        &token.runtime,
        FRC46TokenReceived {
            operator: 5,
            from: 3,
            to: 5,
            amount: TokenAmount::from_atto(40),
            operator_data: Default::default(),
            token_data: Default::default(),
        },
    );

    // verify allowance is correct
    assert_eq!(token.allowance(&alice(), &carol()).unwrap(), TokenAmount::zero());
}

#[test]
fn mod_it_allows_delegated_transfer_by_resolvable_pubkey() {
    let mut helper = ActorRuntime::<FakeSyscalls>::new_test_runtime();
    let mut token_state =
        Token::<FakeSyscalls>::create_state(&mut helper.blockstore).unwrap();
    let mut token = new_token(helper, &mut token_state);
    // mint 100 for owner
    let mut hook = token
        .mint(
            &token_actor(),
            &alice(),
            &TokenAmount::from_atto(100),
            RawBytes::default(),
            RawBytes::default(),
        )
        .unwrap();
    token.flush().unwrap();
    hook.call(&mut token.runtime).unwrap();

    let initialised_address = &secp_address();
    let _ = token.runtime.initialize_account(initialised_address).unwrap();

    // an initialised pubkey cannot transfer zero out of Alice balance without an allowance
    token
        .transfer_from(
            initialised_address,
            &alice(),
            initialised_address,
            &TokenAmount::zero(),
            RawBytes::default(),
            RawBytes::default(),
        )
        .unwrap_err();

    // balances remained same
    assert_eq!(token.balance_of(&alice()).unwrap(), TokenAmount::from_atto(100));
    assert_eq!(token.balance_of(initialised_address).unwrap(), TokenAmount::zero());
    // supply remains same
    assert_eq!(token.total_supply(), TokenAmount::from_atto(100));

    // initialised pubkey can has zero-allowance, so cannot transfer non-zero amount
    token
        .transfer_from(
            initialised_address,
            &alice(),
            initialised_address,
            &TokenAmount::from_atto(1),
            RawBytes::default(),
            RawBytes::default(),
        )
        .unwrap_err();
    // balances remained same
    assert_eq!(token.balance_of(&alice()).unwrap(), TokenAmount::from_atto(100));
    assert_eq!(token.balance_of(initialised_address).unwrap(), TokenAmount::zero());
    // supply remains same
    assert_eq!(token.total_supply(), TokenAmount::from_atto(100));

    // the pubkey can be given an allowance which it can use to transfer tokens
    token.increase_allowance(&alice(), initialised_address, &TokenAmount::from_atto(100)).unwrap();
    let mut hook = token
        .transfer_from(
            initialised_address,
            &alice(),
            initialised_address,
            &TokenAmount::from_atto(1),
            RawBytes::default(),
            RawBytes::default(),
        )
        .unwrap();
    token.flush().unwrap();
    hook.call(&mut token.runtime).unwrap();

    // balances and allowance changed
    assert_eq!(token.balance_of(&alice()).unwrap(), TokenAmount::from_atto(99));
    assert_eq!(token.balance_of(initialised_address).unwrap(), TokenAmount::from_atto(1));
    assert_eq!(
        token.allowance(&alice(), initialised_address).unwrap(),
        TokenAmount::from_atto(99)
    );
    // supply remains same
    assert_eq!(token.total_supply(), TokenAmount::from_atto(100));
}

#[test]
fn mod_it_disallows_delgated_transfer_by_uninitialised_pubkey() {
    let mut helper = ActorRuntime::<FakeSyscalls>::new_test_runtime();
    let mut token_state =
        Token::<FakeSyscalls>::create_state(&mut helper.blockstore).unwrap();
    let mut token = new_token(helper, &mut token_state);

    // mint 100 for owner
    let mut hook = token
        .mint(
            &token_actor(),
            &alice(),
            &TokenAmount::from_atto(100),
            RawBytes::default(),
            RawBytes::default(),
        )
        .unwrap();
    token.flush().unwrap();
    hook.call(&mut token.runtime).unwrap();

    // non-zero transfer by an uninitialized pubkey
    let secp_address = &secp_address();
    let err = token
        .transfer_from(
            secp_address,
            &alice(),
            &alice(),
            &TokenAmount::from_atto(10),
            RawBytes::default(),
            RawBytes::default(),
        )
        .unwrap_err();

    // returns the implied insufficient allowance error
    match err {
        TokenError::TokenState(StateError::InsufficientAllowance {
            owner,
            operator,
            allowance,
            delta,
        }) => {
            assert_eq!(owner, *&alice());
            assert_eq!(operator, *secp_address);
            assert_eq!(allowance, TokenAmount::zero());
            assert_eq!(delta, TokenAmount::from_atto(10));
        }
        e => panic!("Unexpected error {e:?}"),
    }
    // balances unchanged
    assert_eq!(token.balance_of(secp_address).unwrap(), TokenAmount::zero());
    assert_eq!(token.balance_of(&alice()).unwrap(), TokenAmount::from_atto(100));
    // supply unchanged
    assert_eq!(token.total_supply(), TokenAmount::from_atto(100));
    // account wasn't created
    assert!(&token.runtime.resolve_id(secp_address).is_err());

    // zero transfer by an uninitialized pubkey
    let err = token
        .transfer_from(
            secp_address,
            &alice(),
            &alice(),
            &TokenAmount::zero(),
            RawBytes::default(),
            RawBytes::default(),
        )
        .unwrap_err();

    // returns the implied insufficient allowance error even for zero transfers
    match err {
        TokenError::TokenState(StateError::InsufficientAllowance {
            owner,
            operator,
            allowance,
            delta,
        }) => {
            assert_eq!(owner, *&alice());
            assert_eq!(operator, *secp_address);
            assert_eq!(allowance, TokenAmount::zero());
            assert_eq!(delta, TokenAmount::zero());
        }
        e => panic!("Unexpected error {e:?}"),
    }
    // balances unchanged
    assert_eq!(token.balance_of(secp_address).unwrap(), TokenAmount::zero());
    assert_eq!(token.balance_of(&alice()).unwrap(), TokenAmount::from_atto(100));
    // supply unchanged
    assert_eq!(token.total_supply(), TokenAmount::from_atto(100));
    // account wasn't created
    assert!(&token.runtime.resolve_id(secp_address).is_err());
}

#[test]
fn mod_it_allows_delegated_burns() {
    let mut helper = ActorRuntime::<FakeSyscalls>::new_test_runtime();
    let mut token_state =
        Token::<FakeSyscalls>::create_state(&mut helper.blockstore).unwrap();
    let mut token = new_token(helper, &mut token_state);

    let mint_amount = TokenAmount::from_atto(1_000_000);
    let approval_amount = TokenAmount::from_atto(600_000);
    let burn_amount = TokenAmount::from_atto(600_000);

    // mint the total amount
    let mut hook = token
        .mint(&token_actor(), &treasury(), &mint_amount, Default::default(), Default::default())
        .unwrap();
    token.flush().unwrap();
    hook.call(&mut token.runtime).unwrap();

    // approve the burner to spend the allowance
    token.increase_allowance(&treasury(), &alice(), &approval_amount).unwrap();
    // burn the approved amount
    token.burn_from(&alice(), &treasury(), &burn_amount).unwrap();

    // total supply decreased
    assert_eq!(token.total_supply(), TokenAmount::from_atto(400_000));
    // treasury balance decreased
    assert_eq!(token.balance_of(&treasury()).unwrap(), TokenAmount::from_atto(400_000));
    // burner approval decreased
    assert_eq!(token.allowance(&treasury(), &alice()).unwrap(), TokenAmount::zero());

    // disallows another delegated burn as approval is now zero
    // burn the approved amount
    token.burn_from(&alice(), &treasury(), &burn_amount).unwrap_err();

    // balances didn't change
    assert_eq!(token.total_supply(), TokenAmount::from_atto(400_000));
    assert_eq!(token.balance_of(&treasury()).unwrap(), TokenAmount::from_atto(400_000));
    assert_eq!(token.allowance(&treasury(), &alice()).unwrap(), TokenAmount::zero());

    // cannot burn again due to insufficient balance
    let err = token.burn_from(&alice(), &treasury(), &burn_amount).unwrap_err();

    // gets an allowance error
    match err {
        TokenError::TokenState(StateError::InsufficientAllowance {
            owner,
            operator,
            allowance,
            delta,
        }) => {
            assert_eq!(owner, *&treasury());
            assert_eq!(operator, *&alice());
            assert_eq!(allowance, TokenAmount::zero());
            assert_eq!(delta, burn_amount);
        }
        e => panic!("unexpected error {e:?}"),
    };

    // balances didn't change
    assert_eq!(token.total_supply(), TokenAmount::from_atto(400_000));
    assert_eq!(token.balance_of(&treasury()).unwrap(), TokenAmount::from_atto(400_000));
    assert_eq!(token.allowance(&treasury(), &alice()).unwrap(), TokenAmount::zero());
}

#[test]
fn mod_it_allows_delegated_burns_by_resolvable_pubkeys() {
    let mut helper = ActorRuntime::<FakeSyscalls>::new_test_runtime();
    let mut token_state =
        Token::<FakeSyscalls>::create_state(&mut helper.blockstore).unwrap();
    let mut token = new_token(helper, &mut token_state);

    let mint_amount = TokenAmount::from_atto(1_000_000);
    let approval_amount = TokenAmount::from_atto(600_000);
    let burn_amount = TokenAmount::from_atto(600_000);

    // create a resolvable pubkey
    let secp_address = &secp_address();
    let secp_id = &token.runtime.initialize_account(secp_address).unwrap();

    // mint the total amount
    let mut hook = token
        .mint(&token_actor(), &treasury(), &mint_amount, Default::default(), Default::default())
        .unwrap();
    token.flush().unwrap();
    hook.call(&mut token.runtime).unwrap();

    // approve the burner to spend the allowance
    token.increase_allowance(&treasury(), secp_address, &approval_amount).unwrap();
    // burn the approved amount
    token.burn_from(secp_address, &treasury(), &burn_amount).unwrap();

    // total supply decreased
    assert_eq!(token.total_supply(), TokenAmount::from_atto(400_000));
    // treasury balance decreased
    assert_eq!(token.balance_of(&treasury()).unwrap(), TokenAmount::from_atto(400_000));
    // burner approval decreased
    assert_eq!(token.allowance(&treasury(), secp_address).unwrap(), TokenAmount::zero());

    // cannot burn non-zero again
    let err = token.burn_from(secp_address, &treasury(), &burn_amount).unwrap_err();
    // gets an allowance error
    match err {
        TokenError::TokenState(StateError::InsufficientAllowance {
            owner,
            operator,
            allowance,
            delta,
        }) => {
            assert_eq!(owner, *&treasury());
            assert_eq!(operator, Address::new_id(*secp_id));
            assert_eq!(allowance, TokenAmount::zero());
            assert_eq!(delta, burn_amount);
        }
        e => panic!("unexpected error {e:?}"),
    };
    // balances unchanged
    assert_eq!(token.total_supply(), TokenAmount::from_atto(400_000));
    assert_eq!(token.balance_of(&treasury()).unwrap(), TokenAmount::from_atto(400_000));
    assert_eq!(token.allowance(&treasury(), secp_address).unwrap(), TokenAmount::zero());

    // cannot burn zero now that allowance is zero
    let res = token.burn_from(secp_address, &treasury(), &TokenAmount::zero());

    // balances unchanged
    assert!(res.is_err());
    assert_eq!(token.total_supply(), TokenAmount::from_atto(400_000));
    assert_eq!(token.balance_of(&treasury()).unwrap(), TokenAmount::from_atto(400_000));
    assert_eq!(token.allowance(&treasury(), secp_address).unwrap(), TokenAmount::zero());
}

#[test]
fn mod_it_disallows_delegated_burns_by_uninitialised_pubkeys() {
    let mut helper = ActorRuntime::<FakeSyscalls>::new_test_runtime();
    let mut token_state =
        Token::<FakeSyscalls>::create_state(&mut helper.blockstore).unwrap();
    let mut token = new_token(helper, &mut token_state);

    let mint_amount = TokenAmount::from_atto(1_000_000);
    let burn_amount = TokenAmount::from_atto(600_000);

    // create a resolvable pubkey
    let secp_address = &secp_address();

    // mint the total amount
    let mut hook = token
        .mint(&token_actor(), &treasury(), &mint_amount, Default::default(), Default::default())
        .unwrap();
    token.flush().unwrap();
    hook.call(&mut token.runtime).unwrap();

    // cannot burn non-zero
    let err = token.burn_from(secp_address, &treasury(), &burn_amount).unwrap_err();
    // gets an allowance error
    match err {
        TokenError::TokenState(StateError::InsufficientAllowance {
            owner,
            operator,
            allowance,
            delta,
        }) => {
            assert_eq!(owner, *&treasury());
            assert_eq!(operator, *secp_address);
            assert_eq!(allowance, TokenAmount::zero());
            assert_eq!(delta, burn_amount);
        }
        e => panic!("unexpected error {e:?}"),
    };
    // balances unchanged
    assert_eq!(token.total_supply(), mint_amount);
    assert_eq!(token.balance_of(&treasury()).unwrap(), mint_amount);
    assert_eq!(token.allowance(&treasury(), secp_address).unwrap(), TokenAmount::zero());

    // also cannot burn zero
    let err = token.burn_from(secp_address, &treasury(), &TokenAmount::zero()).unwrap_err();
    // gets an allowance error
    match err {
        TokenError::TokenState(StateError::InsufficientAllowance {
            owner,
            operator,
            allowance,
            delta,
        }) => {
            assert_eq!(owner, *&treasury());
            assert_eq!(operator, *secp_address);
            assert_eq!(allowance, TokenAmount::zero());
            assert_eq!(delta, TokenAmount::zero());
        }
        e => panic!("unexpected error {e:?}"),
    };
    // balances unchanged
    assert_eq!(token.total_supply(), mint_amount);
    assert_eq!(token.balance_of(&treasury()).unwrap(), mint_amount);
    assert_eq!(token.allowance(&treasury(), secp_address).unwrap(), TokenAmount::zero());

    // account was not initialised
    assert!(&token.runtime.resolve_id(secp_address).is_err());
}

#[test]
fn mod_it_fails_to_transfer_when_insufficient_allowance() {
    let mut helper = ActorRuntime::<FakeSyscalls>::new_test_runtime();
    let mut token_state =
        Token::<FakeSyscalls>::create_state(&mut helper.blockstore).unwrap();
    let mut token = new_token(helper, &mut token_state);

    // mint 100 for the owner
    let mut hook = token
        .mint(
            &token_actor(),
            &alice(),
            &TokenAmount::from_atto(100),
            RawBytes::default(),
            RawBytes::default(),
        )
        .unwrap();
    token.flush().unwrap();
    hook.call(&mut token.runtime).unwrap();

    // approve only 40 spending allowance for operator
    token.increase_allowance(&alice(), &carol(), &TokenAmount::from_atto(40)).unwrap();
    // operator attempts makes transfer of 60 from owner -> receiver
    // this is within the owner's balance but not within the operator's allowance
    token
        .transfer_from(
            &carol(),
            &alice(),
            &bob(),
            &TokenAmount::from_atto(60),
            RawBytes::default(),
            RawBytes::default(),
        )
        .unwrap_err();

    // verify all balances are correct
    assert_eq!(token.balance_of(&alice()).unwrap(), TokenAmount::from_atto(100));
    assert_eq!(token.balance_of(&bob()).unwrap(), TokenAmount::zero());
    assert_eq!(token.balance_of(&carol()).unwrap(), TokenAmount::zero());

    // verify allowance was not spent
    assert_eq!(token.allowance(&alice(), &carol()).unwrap(), TokenAmount::from_atto(40));
    token.assert_invariants().unwrap();
}

#[test]
fn mod_it_doesnt_use_allowance_when_insufficent_balance() {
    let mut helper = ActorRuntime::<FakeSyscalls>::new_test_runtime();
    let mut token_state =
        Token::<FakeSyscalls>::create_state(&mut helper.blockstore).unwrap();
    let mut token = new_token(helper, &mut token_state);

    // mint 50 for the owner
    let mut hook = token
        .mint(
            &token_actor(),
            &alice(),
            &TokenAmount::from_atto(50),
            RawBytes::default(),
            RawBytes::default(),
        )
        .unwrap();
    token.flush().unwrap();
    hook.call(&mut token.runtime).unwrap();

    // allow 100 to be spent by operator
    token.increase_allowance(&alice(), &bob(), &TokenAmount::from_atto(100)).unwrap();

    // operator attempts transfer 51 from owner -> operator
    // they have enough allowance, but not enough balance
    token
        .transfer_from(
            &bob(),
            &alice(),
            &bob(),
            &TokenAmount::from_atto(51),
            RawBytes::default(),
            RawBytes::default(),
        )
        .unwrap_err();

    // attempt burn 51 by operator
    token.burn_from(&bob(), &alice(), &TokenAmount::from_atto(51)).unwrap_err();

    // balances remained unchanged
    assert_eq!(token.balance_of(&alice()).unwrap(), TokenAmount::from_atto(50));
    assert_eq!(token.balance_of(&bob()).unwrap(), TokenAmount::zero());
    assert_eq!(token.allowance(&alice(), &bob()).unwrap(), TokenAmount::from_atto(100));
    token.assert_invariants().unwrap();
}

#[test]
fn mod_it_enforces_granularity() {
    let mut helper = ActorRuntime::<FakeSyscalls>::new_test_runtime();
    let mut token_state =
        Token::<FakeSyscalls>::create_state(&mut helper.blockstore).unwrap();
    // construct token with 100 granularity
    let mut token =
        Token::<FakeSyscalls>::wrap(helper, 100, &mut token_state);

    assert_eq!(token.granularity(), 100);

    // Minting
    token
        .mint(
            &token_actor(),
            &alice(),
            &TokenAmount::from_atto(1),
            Default::default(),
            Default::default(),
        )
        .expect_err("minted below granularity");
    token
        .mint(
            &token_actor(),
            &alice(),
            &TokenAmount::from_atto(10),
            RawBytes::default(),
            RawBytes::default(),
        )
        .expect_err("minted below granularity");
    token
        .mint(
            &token_actor(),
            &alice(),
            &TokenAmount::from_atto(99),
            RawBytes::default(),
            RawBytes::default(),
        )
        .expect_err("minted below granularity");
    token
        .mint(
            &token_actor(),
            &alice(),
            &TokenAmount::from_atto(101),
            RawBytes::default(),
            RawBytes::default(),
        )
        .expect_err("minted below granularity");
    let mut hook = token
        .mint(
            &token_actor(),
            &alice(),
            &TokenAmount::from_atto(0),
            Default::default(),
            Default::default(),
        )
        .unwrap();
    token.flush().unwrap();
    hook.call(&mut token.runtime).unwrap();
    let mut hook = token
        .mint(
            &token_actor(),
            &alice(),
            &TokenAmount::from_atto(100),
            RawBytes::default(),
            RawBytes::default(),
        )
        .unwrap();
    token.flush().unwrap();
    hook.call(&mut token.runtime).unwrap();
    let mut hook = token
        .mint(
            &token_actor(),
            &alice(),
            &TokenAmount::from_atto(200),
            RawBytes::default(),
            RawBytes::default(),
        )
        .unwrap();
    token.flush().unwrap();
    hook.call(&mut token.runtime).unwrap();
    let mut hook = token
        .mint(
            &token_actor(),
            &alice(),
            &TokenAmount::from_atto(1000),
            RawBytes::default(),
            RawBytes::default(),
        )
        .unwrap();
    token.flush().unwrap();
    hook.call(&mut token.runtime).unwrap();

    // Burn
    token.burn(&alice(), &TokenAmount::from_atto(1)).expect_err("burned below granularity");
    token.burn(&alice(), &TokenAmount::from_atto(0)).unwrap();
    token.burn(&alice(), &TokenAmount::from_atto(100)).unwrap();

    // Transfer
    token
        .transfer(
            &alice(),
            &bob(),
            &TokenAmount::from_atto(1),
            RawBytes::default(),
            RawBytes::default(),
        )
        .expect_err("transfer delta below granularity");
    let mut hook = token
        .transfer(
            &alice(),
            &bob(),
            &TokenAmount::from_atto(0),
            RawBytes::default(),
            RawBytes::default(),
        )
        .unwrap();
    token.flush().unwrap();
    hook.call(&mut token.runtime).unwrap();
    let mut hook = token
        .transfer(
            &alice(),
            &bob(),
            &TokenAmount::from_atto(100),
            RawBytes::default(),
            RawBytes::default(),
        )
        .unwrap();
    token.flush().unwrap();
    hook.call(&mut token.runtime).unwrap();
}

#[test]
fn mod_it_doesnt_initialize_accounts_when_default_values_can_be_returned() {
    let mut helper = ActorRuntime::<FakeSyscalls>::new_test_runtime();
    let mut token_state =
        Token::<FakeSyscalls>::create_state(&mut helper.blockstore).unwrap();
    let token = new_token(helper, &mut token_state);

    let secp = &secp_address();
    let bls = &bls_address();

    // allowances are all zero
    let allowance = token.allowance(secp, bls).unwrap();
    assert_eq!(allowance, TokenAmount::zero());
    let allowance = token.allowance(bls, secp).unwrap();
    assert_eq!(allowance, TokenAmount::zero());
    let allowance = token.allowance(&alice(), bls).unwrap();
    assert_eq!(allowance, TokenAmount::zero());
    let allowance = token.allowance(bls, &alice()).unwrap();
    assert_eq!(allowance, TokenAmount::zero());

    // accounts were not initialized
    let err = &token.runtime.resolve_id(bls).unwrap_err();
    if let MessagingError::AddressNotResolved(e) = err {
        assert_eq!(e, bls);
    } else {
        panic!("expected AddressNotResolved error");
    }
    let err = &token.runtime.resolve_id(secp).unwrap_err();
    if let MessagingError::AddressNotResolved(e) = err {
        assert_eq!(e, secp);
    } else {
        panic!("expected AddressNotResolved error");
    }

    // balances are zero
    let balance = token.balance_of(secp).unwrap();
    assert_eq!(balance, TokenAmount::zero());
    let balance = token.balance_of(bls).unwrap();
    assert_eq!(balance, TokenAmount::zero());

    // accounts were not initialized
    let err = &token.runtime.resolve_id(bls).unwrap_err();
    if let MessagingError::AddressNotResolved(e) = err {
        assert_eq!(e, bls);
    } else {
        panic!("expected AddressNotResolved error");
    }
    let err = &token.runtime.resolve_id(secp).unwrap_err();
    if let MessagingError::AddressNotResolved(e) = err {
        assert_eq!(e, secp);
    } else {
        panic!("expected AddressNotResolved error");
    }
}

#[test]
fn mod_test_account_combinations() {
    fn setup_accounts<'st>(
        operator: &Address,
        from: &Address,
        allowance: &TokenAmount,
        balance: &TokenAmount,
        runtime: ActorRuntime<FakeSyscalls>,
        state: &'st mut TokenState,
    ) -> Token<'st, FakeSyscalls> {
        // fresh token state
        let mut token = new_token(runtime, state);
        // set allowance if not zero (avoiding unecessary account instantiation)
        if !allowance.is_zero() && from != operator {
            token.increase_allowance(from, operator, allowance).unwrap();
        }
        // set balance if not zero (avoiding unecessary account insantiation)
        if !balance.is_zero() {
            let mut hook = token
                .mint(from, from, balance, Default::default(), Default::default())
                .unwrap();
            token.flush().unwrap();
            hook.call(&mut token.runtime).unwrap();
        }
        token
    }

    fn assert_behaviour(
        operator: &Address,
        from: &Address,
        allowance: u32,
        balance: u32,
        transfer: u32,
        behaviour: &str,
    ) {
        let mut helper = ActorRuntime::<FakeSyscalls>::new_test_runtime();
        let mut token_state = TokenState::new(&mut helper.blockstore).unwrap();
        let mut token = setup_accounts(
            operator,
            from,
            &TokenAmount::from_atto(allowance as i128),
            &TokenAmount::from_atto(balance as i128),
            helper,
            &mut token_state,
        );

        let assert_error = |err: TokenError, token: Token<FakeSyscalls>| {
            match behaviour {
                "ALLOWANCE_ERR" => {
                    if let TokenError::TokenState(StateError::InsufficientAllowance {
                        // can't match addresses as may be pubkey or ID (though they would resolve to the same)
                        owner: _,
                        operator: _,
                        allowance: a,
                        delta,
                    }) = err
                    {
                        assert_eq!(a, TokenAmount::from_atto(allowance as i128));
                        assert_eq!(delta, TokenAmount::from_atto(transfer as i128));
                    } else {
                        panic!("unexpected error {err:?}");
                    }
                }
                "BALANCE_ERR" => {
                    if let TokenError::TokenState(StateError::InsufficientBalance {
                        owner,
                        balance: b,
                        delta,
                    }) = err
                    {
                        assert_eq!(owner, token.runtime.resolve_id(from).unwrap());
                        assert_eq!(delta, TokenAmount::from_atto(transfer as i128).neg());
                        assert_eq!(b, TokenAmount::from_atto(balance as i128));
                    } else {
                        panic!("unexpected error {err:?}");
                    }
                }
                "ADDRESS_ERR" => {
                    if let TokenError::Messaging(MessagingError::AddressNotInitialized(addr)) =
                        err
                    {
                        assert!((addr == *operator) || (addr == *from));
                    } else {
                        panic!("unexpected error {err:?}");
                    }
                }
                _ => panic!("test case not implemented"),
            }
        };

        if token.runtime.same_address(operator, from) {
            let res = token.transfer(
                from,
                operator,
                &TokenAmount::from_atto(transfer as i128),
                RawBytes::default(),
                RawBytes::default(),
            );

            if behaviour != "OK" {
                assert_error(res.unwrap_err(), token);
            } else {
                let mut hook = res.expect("expect transfer to succeed");
                hook.call(&mut token.runtime).expect("receiver hook should succeed");
            }
        } else {
            let res = token.transfer_from(
                operator,
                from,
                operator,
                &TokenAmount::from_atto(transfer as i128),
                RawBytes::default(),
                RawBytes::default(),
            );

            if behaviour != "OK" {
                assert_error(res.unwrap_err(), token);
            } else {
                let mut hook = res.expect("expect transfer to succeed");
                hook.call(&mut token.runtime).expect("receiver hook should succeed");
            }
        }
    }

    // distinct resolvable address operates on resolvable address
    assert_behaviour(&alice(), &bob(), 0, 0, 0, "ALLOWANCE_ERR");
    assert_behaviour(&alice(), &bob(), 0, 0, 1, "ALLOWANCE_ERR");
    assert_behaviour(&alice(), &bob(), 0, 1, 0, "ALLOWANCE_ERR");
    assert_behaviour(&alice(), &bob(), 0, 1, 1, "ALLOWANCE_ERR");
    assert_behaviour(&alice(), &bob(), 1, 0, 0, "OK");
    assert_behaviour(&alice(), &bob(), 1, 0, 1, "BALANCE_ERR");
    assert_behaviour(&alice(), &bob(), 1, 1, 0, "OK");
    assert_behaviour(&alice(), &bob(), 1, 1, 1, "OK");

    // initialisable (but uninitialised) address operates on resolved address
    assert_behaviour(&secp_address(), &bob(), 0, 0, 0, "ALLOWANCE_ERR");
    assert_behaviour(&secp_address(), &bob(), 0, 0, 1, "ALLOWANCE_ERR");
    assert_behaviour(&secp_address(), &bob(), 0, 1, 0, "ALLOWANCE_ERR");
    assert_behaviour(&secp_address(), &bob(), 0, 1, 1, "ALLOWANCE_ERR");
    // impossible to have non-zero allowance specified for uninitialised address

    // resolvable address operates on initialisable address
    assert_behaviour(&bob(), &secp_address(), 0, 0, 0, "ALLOWANCE_ERR");
    assert_behaviour(&bob(), &secp_address(), 0, 0, 1, "ALLOWANCE_ERR");
    // impossible to have uninitialised address have a balance
    // impossible to have non-zero allowance specified by an uninitialised address

    // distinct uninitialised address operates on uninitialised address
    assert_behaviour(&bls_address(), &secp_address(), 0, 0, 0, "ALLOWANCE_ERR");
    assert_behaviour(&bls_address(), &secp_address(), 0, 0, 1, "ALLOWANCE_ERR");
    // impossible to have uninitialised address have a balance
    // impossible to have non-zero allowance specified by an uninitialised address

    // distinct actor address operates on actor address
    assert_behaviour(&other_actor_address(), &actor_address(), 0, 0, 0, "ALLOWANCE_ERR");
    assert_behaviour(&other_actor_address(), &actor_address(), 0, 0, 1, "ALLOWANCE_ERR");
    // impossible for actor to have balance (for now)
    // impossible for actor to have allowance (for now)

    // actor addresses are currently never initialisable, but may be in the future, so it returns allowance errors to mirror pubkey behaviour
    // id address operates on actor address
    assert_behaviour(&alice(), &actor_address(), 0, 0, 0, "ALLOWANCE_ERR");
    assert_behaviour(&alice(), &actor_address(), 0, 0, 1, "ALLOWANCE_ERR");
    // impossible for actor to have balance (for now)
    // impossible for actor to have allowance (for now)
    // currently the same actor will fail to transfer to itself, here it fails with an address error as for self transfers, we
    // attempt to resolve the "from" address but currently that's not possible
    assert_behaviour(&actor_address(), &actor_address(), 0, 0, 0, "ADDRESS_ERR");
    assert_behaviour(&actor_address(), &actor_address(), 0, 0, 1, "ADDRESS_ERR");

    // transfers should never fail with allowance err when the operator is the owner
    // all allowance err should be replaced with successes or balance errs
    assert_behaviour(&alice(), &alice(), 0, 0, 0, "OK");
    assert_behaviour(&alice(), &alice(), 0, 0, 1, "BALANCE_ERR");
    assert_behaviour(&alice(), &alice(), 0, 1, 0, "OK");
    assert_behaviour(&alice(), &alice(), 0, 1, 1, "OK");
    assert_behaviour(&alice(), &alice(), 1, 0, 0, "OK");
    assert_behaviour(&alice(), &alice(), 1, 0, 1, "BALANCE_ERR");
    assert_behaviour(&alice(), &alice(), 1, 1, 0, "OK");
    assert_behaviour(&alice(), &alice(), 1, 1, 1, "OK");
    // pubkey to pubkey
    assert_behaviour(&secp_address(), &secp_address(), 0, 0, 0, "OK");
    assert_behaviour(&secp_address(), &secp_address(), 0, 0, 1, "BALANCE_ERR");
    assert_behaviour(&bls_address(), &bls_address(), 0, 0, 0, "OK");
    assert_behaviour(&bls_address(), &bls_address(), 0, 0, 1, "BALANCE_ERR");
}

#[test]
fn check_invariants_returns_a_state_summary() {
    //! Simulate a delgated transfer flow and then check the invariants manually
    let mut helper = ActorRuntime::<FakeSyscalls>::new_test_runtime();
    let mut token_state =
        Token::<FakeSyscalls>::create_state(&mut helper.blockstore).unwrap();
    let mut token = new_token(helper, &mut token_state);

    // mint 100 for the owner
    let mut hook = token
        .mint(
            &alice(),
            &alice(),
            &TokenAmount::from_atto(100),
            Default::default(),
            Default::default(),
        )
        .unwrap();
    token.flush().unwrap();
    hook.call(&mut token.runtime).unwrap();

    // approve 100 spending allowance for operator
    token.increase_allowance(&alice(), &carol(), &TokenAmount::from_atto(100)).unwrap();
    // operator makes transfer of 60 from owner -> receiver
    let mut hook = token
        .transfer_from(
            &carol(),
            &alice(),
            &bob(),
            &TokenAmount::from_atto(60),
            RawBytes::default(),
            RawBytes::default(),
        )
        .unwrap();
    token.flush().unwrap();
    hook.call(&mut token.runtime).unwrap();

    let summary = token.assert_invariants().unwrap();
    // remaining balance 100 - 60
    let balance_map = summary.balance_map;
    assert_eq!(
        balance_map.get(&actor_id_key(3)).unwrap().unwrap(),
        TokenAmount::from_atto(40)
    );
    // received balance = 0 + 60
    assert_eq!(
        balance_map.get(&actor_id_key(4)).unwrap().unwrap(),
        TokenAmount::from_atto(60)
    );
    // remaining allowance = 100 - 60
    assert_eq!(
        summary
            .allowance_map
            .given_by(&actor_id_key(3))
            .unwrap()
            .unwrap()
            .get(&actor_id_key(5))
            .unwrap()
            .unwrap(),
        TokenAmount::from_atto(40)
    );
}
