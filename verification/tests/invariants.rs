use actors_utils::amount::TokenAmount;
use actors_utils::bytes::Cid;
use actors_utils::frc46_token::state::{StateInvariantError, TokenState};
use actors_utils::frc53_nft::invariants::StateInvariantError as CollectionFault;
use actors_utils::frc53_nft::state::NFTState;
use actors_utils::keys::actor_id_key;
use actors_utils::store::Store;
use fvm_ipld_blockstore::{Blockstore, MemoryBlockstore};
use fvm_ipld_hamt::{BytesKey, Config, Hamt, Sha256};
use fvm_shared::econ::TokenAmount as Atto;

type Tree<V> = Hamt<MemoryBlockstore, V, BytesKey, Sha256>;

fn new_tree<V>() -> Tree<V>
where
    V: serde::Serialize + serde::de::DeserializeOwned,
{
    let config = Config { bit_width: 3, ..Default::default() };
    Hamt::new_with_config(MemoryBlockstore::new(), config)
}

/// Moves the single block of a small tree into a store
fn moved<V>(mut tree: Tree<V>, store: &mut Store) -> Cid
where
    V: serde::Serialize + serde::de::DeserializeOwned,
{
    let root = tree.flush().unwrap();
    let block = tree.into_store().get(&root).unwrap().unwrap();
    let cid = store.put(block);
    assert_eq!(cid.to_bytes(), root.to_bytes());
    cid
}

/// A tree of amounts with one entry
fn one_amount(store: &mut Store, key: Vec<u8>, amount: i64) -> Cid {
    let mut tree: Tree<Atto> = new_tree();
    tree.set(BytesKey(key), Atto::from_atto(amount)).unwrap();
    moved(tree, store)
}

/// A tree of allowances in which one owner points to a tree
fn one_owner(store: &mut Store, key: Vec<u8>, given: &Cid) -> Cid {
    let mut tree: Tree<cid::Cid> = new_tree();
    tree.set(BytesKey(key), cid::Cid::try_from(given.to_bytes()).unwrap()).unwrap();
    moved(tree, store)
}

fn fault(state: &TokenState, store: &Store) -> StateInvariantError {
    match state.check_invariants(store, 1) {
        Ok(_) => panic!("the state keeps the rules"),
        Err(e) => e,
    }
}

#[test]
fn a_new_token_keeps_the_rules() {
    let mut store = Store::new();
    let state = TokenState::new(&mut store).unwrap();
    assert!(state.check_invariants(&store, 1).is_ok());
}

#[test]
fn a_negative_supply_is_found() {
    let mut store = Store::new();
    let mut state = TokenState::new(&mut store).unwrap();
    state.supply = TokenAmount::from_atto(-1);
    match fault(&state, &store) {
        StateInvariantError::SupplyNegative(supply) => {
            assert_eq!(supply, TokenAmount::from_atto(-1))
        }
        other => panic!("unexpected {other:?}"),
    }
}

#[test]
fn a_supply_that_is_not_the_sum_is_found() {
    let mut store = Store::new();
    let mut state = TokenState::new(&mut store).unwrap();
    state.change_balance_by(&mut store, 1, &TokenAmount::from_atto(5)).unwrap();
    state.change_supply_by(&TokenAmount::from_atto(6)).unwrap();
    match fault(&state, &store) {
        StateInvariantError::BalanceSupplyMismatch { supply, balance_sum } => {
            assert_eq!(supply, TokenAmount::from_atto(6));
            assert_eq!(balance_sum, TokenAmount::from_atto(5));
        }
        other => panic!("unexpected {other:?}"),
    }
}

#[test]
fn a_negative_balance_is_found() {
    let mut store = Store::new();
    let mut state = TokenState::new(&mut store).unwrap();
    state.balances = one_amount(&mut store, actor_id_key(7).bytes, -3);
    match fault(&state, &store) {
        StateInvariantError::BalanceNegative { account, balance } => {
            assert_eq!(account, 7);
            assert_eq!(balance, TokenAmount::from_atto(-3));
        }
        other => panic!("unexpected {other:?}"),
    }
}

#[test]
fn a_stored_zero_balance_is_found() {
    let mut store = Store::new();
    let mut state = TokenState::new(&mut store).unwrap();
    state.balances = one_amount(&mut store, actor_id_key(7).bytes, 0);
    assert!(matches!(fault(&state, &store), StateInvariantError::ExplicitZeroBalance(7)));
}

#[test]
fn a_balance_off_the_granularity_is_found() {
    let mut store = Store::new();
    let mut state = TokenState::new(&mut store).unwrap();
    state.change_balance_by(&mut store, 1, &TokenAmount::from_atto(5)).unwrap();
    state.change_supply_by(&TokenAmount::from_atto(5)).unwrap();
    assert!(state.check_invariants(&store, 5).is_ok());
    match state.check_invariants(&store, 2) {
        Err(StateInvariantError::InvalidGranularity { owner, balance, granularity }) => {
            assert_eq!(owner, 1);
            assert_eq!(balance, TokenAmount::from_atto(5));
            assert_eq!(granularity, 2);
        }
        Err(other) => panic!("unexpected {other:?}"),
        Ok(_) => panic!("the state keeps the rules"),
    }
}

#[test]
fn a_balance_under_no_actor_is_found() {
    let mut store = Store::new();
    let mut state = TokenState::new(&mut store).unwrap();
    state.balances = one_amount(&mut store, vec![0x80], 3);
    match fault(&state, &store) {
        StateInvariantError::InvalidOwnerKey(key) => assert_eq!(key.bytes, vec![0x80]),
        other => panic!("unexpected {other:?}"),
    }
}

#[test]
fn allowances_that_break_the_rules_are_found() {
    let mut store = Store::new();
    let mut state = TokenState::new(&mut store).unwrap();

    let given = one_amount(&mut store, actor_id_key(2).bytes, -4);
    state.allowances = one_owner(&mut store, actor_id_key(1).bytes, &given);
    match fault(&state, &store) {
        StateInvariantError::NegativeAllowance { owner, operator, allowance } => {
            assert_eq!((owner, operator), (1, 2));
            assert_eq!(allowance, TokenAmount::from_atto(-4));
        }
        other => panic!("unexpected {other:?}"),
    }

    let given = one_amount(&mut store, actor_id_key(2).bytes, 0);
    state.allowances = one_owner(&mut store, actor_id_key(1).bytes, &given);
    match fault(&state, &store) {
        StateInvariantError::ExplicitZeroAllowance { owner, operator } => {
            assert_eq!((owner, operator), (1, 2))
        }
        other => panic!("unexpected {other:?}"),
    }

    let given = one_amount(&mut store, actor_id_key(1).bytes, 4);
    state.allowances = one_owner(&mut store, actor_id_key(1).bytes, &given);
    match fault(&state, &store) {
        StateInvariantError::ExplicitSelfAllowance { account, allowance } => {
            assert_eq!(account, 1);
            assert_eq!(allowance, TokenAmount::from_atto(4));
        }
        other => panic!("unexpected {other:?}"),
    }

    let empty: Tree<Atto> = new_tree();
    let given = moved(empty, &mut store);
    state.allowances = one_owner(&mut store, actor_id_key(1).bytes, &given);
    assert!(matches!(fault(&state, &store), StateInvariantError::ExplicitEmptyAllowance(1)));

    let given = one_amount(&mut store, actor_id_key(2).bytes, 4);
    state.allowances = one_owner(&mut store, vec![0x80], &given);
    assert!(matches!(fault(&state, &store), StateInvariantError::InvalidOwnerKey(_)));

    // a key of actor 1 that nobody looks for
    state.allowances = one_owner(&mut store, vec![0x81, 0x00], &given);
    assert!(matches!(fault(&state, &store), StateInvariantError::ExplicitEmptyAllowance(1)));

    state.allowances = one_owner(&mut store, actor_id_key(1).bytes, &given);
    assert!(state.check_invariants(&store, 1).is_ok());
}

#[test]
fn trees_that_are_missing_are_reported() {
    let mut store = Store::new();
    let state = TokenState::new(&mut store).unwrap();
    let nowhere = Store::new();
    assert!(matches!(fault(&state, &nowhere), StateInvariantError::State(_)));
}

fn faults(state: &NFTState, store: &Store) -> Vec<CollectionFault> {
    state.check_invariants(store).1
}

#[test]
fn a_new_collection_keeps_the_rules() {
    let mut store = Store::new();
    let state = NFTState::new(&mut store).unwrap();
    assert!(faults(&state, &store).is_empty());
}

#[test]
fn a_summary_tells_who_owns_what() {
    let mut store = Store::new();
    let mut state = NFTState::new(&mut store).unwrap();
    state.mint_tokens(&mut store, 5, vec!["a".to_string(), "b".to_string()]).unwrap();
    let (summary, errors) = state.check_invariants(&store);
    assert!(errors.is_empty());
    assert_eq!(summary.total_supply, 2);
    let tokens = summary.token_data.unwrap();
    assert_eq!(tokens.len(), 2);
    assert_eq!(tokens[&1].owner, 5);
    assert_eq!(tokens[&1].metadata, "b");
    assert_eq!(summary.owner_data.unwrap()[&5].balance, 2);
}

#[test]
fn a_collection_with_a_wrong_supply_is_found() {
    let mut store = Store::new();
    let mut state = NFTState::new(&mut store).unwrap();
    state.mint_tokens(&mut store, 5, vec!["a".to_string()]).unwrap();
    state.total_supply = 4;
    let found = faults(&state, &store);
    assert_eq!(found.len(), 1);
    assert!(matches!(
        found[0],
        CollectionFault::TotalSupplyMismatch { total_supply: 4, token_count: 1 }
    ));
}

#[test]
fn a_collection_with_wrong_balances_is_found() {
    let mut store = Store::new();
    let empty = NFTState::new(&mut store).unwrap();
    let mut state = NFTState::new(&mut store).unwrap();
    state.mint_tokens(&mut store, 5, vec!["a".to_string()]).unwrap();
    // the owner of the token is not in the map of owners
    state.owner_data = empty.owner_data;
    let found = faults(&state, &store);
    assert!(matches!(
        found[0],
        CollectionFault::TokenBalanceMismatch { token_count: 1, owner_count: 0 }
    ));
}

#[test]
fn an_owner_without_anything_is_found() {
    let mut store = Store::new();
    let mut state = NFTState::new(&mut store).unwrap();
    let config = Config { bit_width: 3, ..Default::default() };
    let mut tree: Tree<(u64, fvm_ipld_bitfield::BitField)> =
        Hamt::new_with_config(MemoryBlockstore::new(), config);
    let nothing = (0, fvm_ipld_bitfield::BitField::default());
    tree.set(BytesKey(actor_id_key(5).bytes), nothing).unwrap();
    state.owner_data = moved(tree, &mut store);
    let found = faults(&state, &store);
    assert_eq!(found.len(), 1);
    assert!(matches!(found[0], CollectionFault::ExplicitEmptyOwner(5)));
}

#[test]
fn an_owner_under_no_actor_is_found() {
    let mut store = Store::new();
    let mut state = NFTState::new(&mut store).unwrap();
    let config = Config { bit_width: 3, ..Default::default() };
    let mut tree: Tree<(u64, fvm_ipld_bitfield::BitField)> =
        Hamt::new_with_config(MemoryBlockstore::new(), config);
    let data = (1, fvm_ipld_bitfield::BitField::default());
    tree.set(BytesKey(vec![0x80]), data).unwrap();
    state.owner_data = moved(tree, &mut store);
    let found = faults(&state, &store);
    assert!(matches!(&found[0], CollectionFault::InvalidBytesKey(key) if key.bytes == vec![0x80]));
}

#[test]
fn a_collection_that_cannot_be_read_is_reported() {
    let mut store = Store::new();
    let state = NFTState::new(&mut store).unwrap();
    let (summary, errors) = state.check_invariants(&Store::new());
    assert!(summary.token_data.is_none());
    assert!(!errors.is_empty());
    assert!(matches!(errors[0], CollectionFault::State(_)));
}
