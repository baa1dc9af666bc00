use actors_utils::address::{Address, Payload};
use actors_utils::amount::TokenAmount;
use actors_utils::bytes::{ActorID, Cid, RawBytes};
use actors_utils::fil_fungible_token::token::Token as FungibleToken;
use actors_utils::frc46_token::error::TokenError;
use actors_utils::frc46_token::state::{StateError as TokenStateError, TokenState};
use actors_utils::frc46_token::token::Token;
use actors_utils::frc53_nft::state::{NFTState, StateError, TokenData, TokenID};
use actors_utils::fvm_actor_utils::fake_syscalls::FakeSyscalls;
use actors_utils::fvm_actor_utils::util::ActorRuntime;
use actors_utils::store::Store;

const ALICE: ActorID = 3;
const BOB: ActorID = 4;

fn atto(n: i128) -> TokenAmount {
    TokenAmount::from_atto(n)
}

fn mint(token: &mut Token<'_, FakeSyscalls>, to: &Address, amount: i128) -> bool {
    match token.mint(
        &Address::new_id(1),
        to,
        &atto(amount),
        RawBytes::default(),
        RawBytes::default(),
    ) {
        Ok(mut hook) => {
            hook.call(&mut token.runtime).unwrap();
            true
        }
        Err(_) => false,
    }
}

#[test]
fn the_rules_hold_after_every_step() {
    let mut runtime = ActorRuntime::<FakeSyscalls>::new_test_runtime();
    let mut state = Token::<FakeSyscalls>::create_state(&mut runtime.blockstore).unwrap();
    let mut token = Token::wrap(runtime, 10, &mut state);
    let (alice, bob) = (Address::new_id(ALICE), Address::new_id(BOB));

    assert!(mint(&mut token, &alice, 100));
    assert!(token.assert_invariants().is_ok());
    // not a multiple of the granularity
    assert!(!mint(&mut token, &alice, 5));
    let mut hook = token
        .transfer(&alice, &bob, &atto(30), RawBytes::default(), RawBytes::default())
        .unwrap();
    hook.call(&mut token.runtime).unwrap();
    assert!(token.assert_invariants().is_ok());
    assert!(token.burn(&bob, &atto(40)).is_err());
    token.increase_allowance(&alice, &bob, &atto(25)).unwrap();
    assert!(token.assert_invariants().is_ok());
    token.burn_from(&bob, &alice, &atto(20)).unwrap();
    assert!(token.assert_invariants().is_ok());
    token.set_allowance(&bob, &alice, &atto(7)).unwrap();
    token.revoke_allowance(&alice, &bob).unwrap();
    token.set_balance(&bob, &atto(50)).unwrap();
    assert!(token.assert_invariants().is_ok());

    // minted 100, burnt 20, and a balance of 30 set to 50
    assert_eq!(token.total_supply(), atto(100));
    assert_eq!(token.balance_of(&alice).unwrap(), atto(50));
    assert_eq!(token.balance_of(&bob).unwrap(), atto(50));
}

#[test]
fn the_supply_is_the_sum_whoever_is_given_allowances() {
    let mut runtime = ActorRuntime::<FakeSyscalls>::new_test_runtime();
    let mut state = Token::<FakeSyscalls>::create_state(&mut runtime.blockstore).unwrap();
    let mut token = Token::wrap(runtime, 1, &mut state);
    let (alice, bob) = (Address::new_id(ALICE), Address::new_id(BOB));
    assert!(mint(&mut token, &alice, 100));
    // raising by nothing, or in vain, gives nobody an allowance
    token.increase_allowance(&alice, &alice, &atto(0)).unwrap();
    assert!(token.set_allowance(&alice, &alice, &atto(-1)).is_err());
    assert!(token.assert_invariants().is_ok());
    // an allowance on one's own tokens is found, and leaves the supply alone
    token.increase_allowance(&alice, &alice, &atto(9)).unwrap();
    assert!(token.assert_invariants().is_err());
    let mut hook = token
        .transfer(&alice, &bob, &atto(30), RawBytes::default(), RawBytes::default())
        .unwrap();
    hook.call(&mut token.runtime).unwrap();
    token.burn(&bob, &atto(10)).unwrap();
    assert_eq!(token.total_supply(), atto(90));
    assert_eq!(token.balance_of(&alice).unwrap(), atto(70));
    assert_eq!(token.balance_of(&bob).unwrap(), atto(20));
}

#[test]
fn a_burn_takes_back_a_mint() {
    let mut runtime = ActorRuntime::<FakeSyscalls>::new_test_runtime();
    let mut state = Token::<FakeSyscalls>::create_state(&mut runtime.blockstore).unwrap();
    let mut token = Token::wrap(runtime, 1, &mut state);
    let alice = Address::new_id(ALICE);
    assert!(mint(&mut token, &alice, 7));
    let before = token.state().clone();
    assert!(mint(&mut token, &alice, 100));
    assert_ne!(*token.state(), before);
    assert_eq!(token.burn(&alice, &atto(100)).unwrap().balance, atto(7));
    assert_eq!(*token.state(), before);
    assert_eq!(token.total_supply(), atto(7));
}

#[test]
fn an_allowance_that_is_spent_is_refused_as_too_small() {
    let mut store = Store::new();
    let mut state = TokenState::new(&mut store).unwrap();
    state.set_allowance(&mut store, ALICE, BOB, &atto(10)).unwrap();
    assert_eq!(state.attempt_use_allowance(&mut store, BOB, ALICE, &atto(10)).unwrap(), atto(0));
    assert!(matches!(
        state.attempt_use_allowance(&mut store, BOB, ALICE, &atto(1)),
        Err(TokenStateError::InsufficientAllowance { .. })
    ));
}

#[test]
fn a_missing_state_is_reported_whatever_its_codec() {
    // the identifier of no bytes, as raw data
    let raw = Cid::from_bytes(vec![1, 0x55, 0, 0]);
    let cid = match raw {
        Some(cid) => cid,
        None => panic!("not an identifier"),
    };
    assert!(matches!(
        TokenState::load(&Store::new(), &cid),
        Err(TokenStateError::MissingState(_))
    ));
}

fn anyone(_: &TokenData, _: TokenID) -> Result<(), StateError> {
    Ok(())
}

#[test]
fn no_number_is_minted_twice() {
    let mut store = Store::new();
    let mut state = NFTState::new(&mut store).unwrap();
    let first = state.mint_tokens(&mut store, ALICE, vec![String::new(); 3]).unwrap();
    state.burn_tokens(&mut store, ALICE, &first.token_ids, anyone).unwrap();
    let second = state.mint_tokens(&mut store, ALICE, vec![String::new(); 2]).unwrap();
    state.transfer(&mut store, &second.token_ids, ALICE, BOB, &anyone).unwrap();
    let third = state.mint_tokens(&mut store, BOB, vec![String::new(); 1]).unwrap();
    assert_eq!(first.token_ids, vec![0, 1, 2]);
    assert_eq!(second.token_ids, vec![3, 4]);
    assert_eq!(third.token_ids, vec![5]);
}

#[test]
fn pages_of_operators_show_each_once() {
    let mut store = Store::new();
    let mut state = NFTState::new(&mut store).unwrap();
    for operator in [50, 10, 30, 20, 40] {
        state.approve_for_owner(&mut store, ALICE, operator).unwrap();
    }
    let mut cursor = None;
    let mut pages: Vec<Vec<u64>> = Vec::new();
    loop {
        let (page, next) = state.list_account_operators(&store, ALICE, cursor, 2).unwrap();
        pages.push(page.iter().collect());
        if next.is_none() {
            break;
        }
        cursor = next;
    }
    assert_eq!(pages, vec![vec![10, 20], vec![30, 40], vec![50]]);
    let (page, next) = state.list_account_operators(&store, BOB, None, 2).unwrap();
    assert!(page.is_empty());
    assert!(next.is_none());
}

#[test]
fn the_supply_of_a_fungible_token_is_the_sum_of_its_balances() {
    let mut runtime = ActorRuntime::<FakeSyscalls>::new_test_runtime();
    let mut state = FungibleToken::<FakeSyscalls>::create_state(&mut runtime.blockstore).unwrap();
    let mut token = FungibleToken::wrap(runtime, 5, &mut state);
    let (alice, bob) = (Address::new_id(ALICE), Address::new_id(BOB));
    let none = RawBytes::default;
    token.mint(&alice, &alice, &atto(100), none(), none()).unwrap();
    assert!(token.mint(&alice, &alice, &atto(3), none(), none()).is_err());
    token.transfer(&alice, &bob, &atto(40), none(), none()).unwrap();
    token.increase_allowance(&alice, &bob, &atto(20)).unwrap();
    token.transfer_from(&bob, &alice, &bob, &atto(15), none(), none()).unwrap();
    token.burn_from(&bob, &alice, &atto(5)).unwrap();
    assert!(token.burn_from(&bob, &alice, &atto(5)).is_err());
    token.burn(&bob, &atto(10)).unwrap();
    assert!(token.check_invariants().is_ok());
    assert_eq!(token.balance_of(&alice).unwrap(), atto(40));
    assert_eq!(token.balance_of(&bob).unwrap(), atto(45));
    assert_eq!(token.total_supply(), atto(85));
    // an allowance on one's own tokens is found, and leaves the supply alone
    token.increase_allowance(&alice, &alice, &atto(5)).unwrap();
    assert!(token.check_invariants().is_err());
    assert_eq!(token.total_supply(), atto(85));
}

#[test]
fn what_needs_an_account_succeeds_where_one_can_be_made() {
    let mut runtime = ActorRuntime::<FakeSyscalls>::new_test_runtime();
    runtime.syscalls.next_actor_id = 100;
    let mut state = Token::<FakeSyscalls>::create_state(&mut runtime.blockstore).unwrap();
    let mut token = Token::wrap(runtime, 1, &mut state);
    let key = |n: u8| Address { payload: Payload::BLS(vec![n; 48]) };
    assert!(mint(&mut token, &key(1), 100));
    assert_eq!(token.balance_of(&key(1)).unwrap(), atto(100));
    token.transfer(&key(1), &key(2), &atto(30), RawBytes::default(), RawBytes::default()).unwrap();
    token.increase_allowance(&key(1), &key(3), &atto(20)).unwrap();
    token
        .transfer_from(
            &key(3),
            &key(1),
            &key(4),
            &atto(5),
            RawBytes::default(),
            RawBytes::default(),
        )
        .unwrap();
    assert_eq!(token.decrease_allowance(&key(5), &key(6), &atto(7)).unwrap(), atto(0));
    assert_eq!(token.set_allowance(&key(7), &key(8), &atto(9)).unwrap(), atto(0));
    assert_eq!(token.set_balance(&key(9), &atto(11)).unwrap(), atto(0));
    assert_eq!(token.burn(&key(10), &atto(0)).unwrap().balance, atto(0));
    assert_eq!(token.runtime.syscalls.addresses.len(), 10);
    assert_eq!(token.balance_of(&key(1)).unwrap(), atto(65));
    assert_eq!(token.balance_of(&key(4)).unwrap(), atto(5));
    // an account that cannot be made is the only obstacle
    token.runtime.syscalls.abort_next_send = true;
    assert!(matches!(token.burn(&key(11), &atto(0)), Err(TokenError::Messaging(_))));
    token.burn(&key(11), &atto(0)).unwrap();
}
