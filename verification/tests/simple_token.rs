use actors_utils::address::Address;
use actors_utils::amount::TokenAmount;
use actors_utils::bytes::{ActorID, Cid};
use actors_utils::fil_token::errors::{ActorError, RuntimeError, StateError};
use actors_utils::fil_token::helper::TokenHelper;
use actors_utils::fil_token::runtime::Runtime;
use actors_utils::fil_token::state::TokenState;
use actors_utils::store::Store;

struct TestRuntime {
    caller: u64,
}

impl Runtime for TestRuntime {
    fn caller(&self) -> ActorID {
        self.caller
    }

    fn resolve_address(&self, addr: &Address) -> Result<ActorID, RuntimeError> {
        addr.id().map_err(|_| RuntimeError::AddrNotFound(addr.clone()))
    }
}

fn atto(n: i128) -> TokenAmount {
    TokenAmount::from_atto(n)
}

fn new_token() -> TokenHelper<TestRuntime> {
    let mut token = TokenHelper::new(Store::new(), TestRuntime { caller: 1 }, Cid::default());
    token.init_state().unwrap();
    token
}

#[test]
fn lib_it_mints() {
    let token = TokenHelper::new(Store::new(), TestRuntime { caller: 1 }, Cid::default());
    assert_eq!(token.runtime.caller(), 1);
}

#[test]
fn minted_tokens_are_in_the_supply() {
    let mut token = new_token();
    assert_eq!(token.total_supply(), atto(0));
    token.mint(7, atto(100)).unwrap();
    token.mint(8, atto(20)).unwrap();
    assert_eq!(token.total_supply(), atto(120));
    assert_eq!(token.balance_of(7).unwrap(), atto(100));
    assert_eq!(token.balance_of(8).unwrap(), atto(20));
    assert_eq!(token.balance_of(9).unwrap(), atto(0));
    assert!(matches!(token.mint(7, atto(-1)), Err(ActorError::Arithmetic(_))));
    assert_eq!(token.total_supply(), atto(120));
}

#[test]
fn allowances_go_up_and_down() {
    let mut token = new_token();
    assert_eq!(token.allowance(1, 2).unwrap(), atto(0));
    assert_eq!(token.increase_allowance(1, 2, atto(100)).unwrap(), atto(100));
    assert_eq!(token.increase_allowance(1, 2, atto(10)).unwrap(), atto(110));
    assert_eq!(token.decrease_allowance(1, 2, atto(30)).unwrap(), atto(80));
    assert_eq!(token.allowance(1, 2).unwrap(), atto(80));
    assert_eq!(token.allowance(2, 1).unwrap(), atto(0));
    token.revoke_allowance(1, 2).unwrap();
    assert_eq!(token.allowance(1, 2).unwrap(), atto(0));
    assert_eq!(token.decrease_allowance(1, 2, atto(30)).unwrap(), atto(0));
    assert!(matches!(token.increase_allowance(1, 2, atto(-1)), Err(ActorError::Arithmetic(_))));
    assert!(matches!(token.decrease_allowance(1, 2, atto(-1)), Err(ActorError::Arithmetic(_))));
}

#[test]
fn owners_burn_their_tokens() {
    let mut token = new_token();
    token.mint(7, atto(100)).unwrap();
    assert_eq!(token.burn(7, 7, atto(40)).unwrap(), atto(60));
    assert_eq!(token.balance_of(7).unwrap(), atto(60));
    assert_eq!(token.total_supply(), atto(60));
    let err = token.burn(7, 7, atto(61)).unwrap_err();
    assert!(matches!(err, ActorError::IpldState(StateError::InsufficientBalance { .. })));
    assert_eq!(token.balance_of(7).unwrap(), atto(60));
    assert!(matches!(token.burn(7, 7, atto(-1)), Err(ActorError::Arithmetic(_))));
}

#[test]
fn operators_burn_within_their_allowance() {
    let mut token = new_token();
    token.mint(7, atto(100)).unwrap();
    // to burn nothing takes no allowance
    assert_eq!(token.burn(8, 7, atto(0)).unwrap(), atto(100));
    let err = token.burn(8, 7, atto(1)).unwrap_err();
    assert!(matches!(err, ActorError::IpldState(StateError::InsufficientAllowance { .. })));
    token.increase_allowance(7, 8, atto(50)).unwrap();
    assert_eq!(token.burn(8, 7, atto(30)).unwrap(), atto(70));
    assert_eq!(token.allowance(7, 8).unwrap(), atto(20));
    assert_eq!(token.total_supply(), atto(70));
    assert!(token.burn(8, 7, atto(21)).is_err());
    assert_eq!(token.allowance(7, 8).unwrap(), atto(20));
    assert_eq!(token.balance_of(7).unwrap(), atto(70));
}

#[test]
fn a_saved_state_is_loaded_as_it_was() {
    let mut store = Store::new();
    let mut state = TokenState::new(&mut store).unwrap();
    state.increase_balance(&mut store, 7, &atto(5)).unwrap();
    state.increase_supply(&atto(5));
    let cid = state.save(&mut store).unwrap();
    let loaded = TokenState::load(&store, &cid).unwrap();
    assert_eq!(loaded.get_balance(&store, 7).unwrap(), atto(5));
    assert!(TokenState::load(&store, &Cid::default()).is_err());
}
