use actors_utils::amount::TokenAmount;
use actors_utils::bytes::ActorID;
use actors_utils::frc46_token::state::{StateError, TokenState};
use actors_utils::keys::actor_id_key;
use actors_utils::store::Store;

#[test]
fn state_it_instantiates() {
    let mut store = Store::new();
    let bs = &mut store;
    let state = TokenState::new(bs).unwrap();
    let cid = state.save(bs).unwrap();
    let saved_state = TokenState::load(bs, &cid).unwrap();
    assert_eq!(state, saved_state);
}

#[test]
fn state_it_increases_balance_from_zero() {
    let mut store = Store::new();
    let bs = &mut store;
    let mut state = TokenState::new(bs).unwrap();
    let actor: ActorID = 1;

    // Initially any actor has an implicit balance of 0
    assert_eq!(state.get_balance(bs, actor).unwrap(), TokenAmount::zero());

    let amount = TokenAmount::from_atto(100);
    state.change_balance_by(bs, actor, &amount).unwrap();

    assert_eq!(state.get_balance(bs, actor).unwrap(), amount);
}

#[test]
fn state_it_fails_to_decrease_balance_below_zero() {
    let mut store = Store::new();
    let bs = &mut store;
    let mut state = TokenState::new(bs).unwrap();
    let actor: ActorID = 1;

    // can't decrease from zero
    state.change_balance_by(bs, actor, &TokenAmount::from_atto(-1)).unwrap_err();
    let balance = state.get_balance(bs, actor).unwrap();
    assert_eq!(balance, TokenAmount::zero());

    // can't become negative from a positive balance
    state.change_balance_by(bs, actor, &TokenAmount::from_atto(50)).unwrap();
    state.change_balance_by(bs, actor, &TokenAmount::from_atto(-100)).unwrap_err();
}

#[test]
fn state_it_sets_balances() {
    let mut store = Store::new();
    let bs = &mut store;
    let mut state = TokenState::new(bs).unwrap();
    let actor: ActorID = 1;

    // can set a positive balance
    let old_balance = state.set_balance(bs, actor, &TokenAmount::from_atto(1)).unwrap();
    assert_eq!(old_balance, TokenAmount::from_atto(0));
    let balance = state.get_balance(bs, actor).unwrap();
    assert_eq!(balance, TokenAmount::from_atto(1));

    // can set a new positive balance, overwriting the old one
    let old_balance = state.set_balance(bs, actor, &TokenAmount::from_atto(100)).unwrap();
    assert_eq!(old_balance, TokenAmount::from_atto(1));
    let balance = state.get_balance(bs, actor).unwrap();
    assert_eq!(balance, TokenAmount::from_atto(100));

    // cannot set a negative balance
    state.set_balance(bs, actor, &TokenAmount::from_atto(-1)).unwrap_err();
}

#[test]
fn it_changes_allowances_between_actors() {
    let mut store = Store::new();
    let bs = &mut store;
    let mut state = TokenState::new(bs).unwrap();
    let owner: ActorID = 1;
    let operator: ActorID = 2;

    // initial allowance is zero
    let initial_allowance = state.get_allowance_between(bs, owner, operator).unwrap();
    assert_eq!(initial_allowance, TokenAmount::zero());

    // can set a positive allowance
    let delta = TokenAmount::from_atto(100);
    let ret = state.change_allowance_by(bs, owner, operator, &delta).unwrap();
    assert_eq!(ret, delta);
    let allowance_1 = state.get_allowance_between(bs, owner, operator).unwrap();
    assert_eq!(allowance_1, delta);

    // vice-versa allowance was unaffected
    let reverse_allowance = state.get_allowance_between(bs, operator, owner).unwrap();
    assert_eq!(reverse_allowance, TokenAmount::zero());

    // can subtract an allowance
    let delta = TokenAmount::from_atto(-50);
    let ret = state.change_allowance_by(bs, owner, operator, &delta).unwrap();
    assert_eq!(ret, TokenAmount::from_atto(50));
    let allowance_2 = state.get_allowance_between(bs, owner, operator).unwrap();
    assert_eq!(allowance_2, allowance_1.plus(&delta));
    assert_eq!(allowance_2, TokenAmount::from_atto(50));

    // allowance won't go negative
    let delta = TokenAmount::from_atto(-100);
    let ret = state.change_allowance_by(bs, owner, operator, &delta).unwrap();
    assert_eq!(ret, TokenAmount::zero());
    let allowance_3 = state.get_allowance_between(bs, owner, operator).unwrap();
    assert_eq!(allowance_3, TokenAmount::zero());
}

#[test]
fn state_it_sets_allowances_between_actors() {
    let mut store = Store::new();
    let bs = &mut store;
    let mut state = TokenState::new(bs).unwrap();
    let owner: ActorID = 1;
    let operator: ActorID = 2;

    // initial allowance is zero
    let initial_allowance = state.get_allowance_between(bs, owner, operator).unwrap();
    assert_eq!(initial_allowance, TokenAmount::zero());

    // can set a positive allowance
    let allowance = TokenAmount::from_atto(100);
    let old_allowance = state.set_allowance(bs, owner, operator, &allowance).unwrap();
    assert_eq!(old_allowance, TokenAmount::zero());
    let returned_allowance = state.get_allowance_between(bs, owner, operator).unwrap();
    assert_eq!(returned_allowance, allowance);

    // can set a different positive allowance
    let allowance = TokenAmount::from_atto(120);
    let old_allowance = state.set_allowance(bs, owner, operator, &allowance).unwrap();
    assert_eq!(old_allowance, TokenAmount::from_atto(100));
    let returned_allowance = state.get_allowance_between(bs, owner, operator).unwrap();
    assert_eq!(returned_allowance, allowance);

    // can set a zero-allowance
    let allowance = TokenAmount::from_atto(0);
    let old_allowance = state.set_allowance(bs, owner, operator, &allowance).unwrap();
    assert_eq!(old_allowance, TokenAmount::from_atto(120));
    let returned_allowance = state.get_allowance_between(bs, owner, operator).unwrap();
    assert_eq!(returned_allowance, allowance);
    // the map entry is cleaned-up
    let root_map = state.get_allowances_map(bs).unwrap();
    let owner_key = actor_id_key(owner);
    assert!(!root_map.contains_key(&owner_key).unwrap());

    // can't set negative allowance
    let allowance = TokenAmount::from_atto(-50);
    let err = state.set_allowance(bs, owner, operator, &allowance).unwrap_err();
    if let StateError::NegativeAllowance { owner: _, operator: _, amount } = err {
        assert_eq!(amount, allowance);
    }
}

#[test]
fn state_it_consumes_allowances_atomically() {
    let mut store = Store::new();
    let bs = &mut store;
    let mut state = TokenState::new(bs).unwrap();
    let owner: ActorID = 1;
    let operator: ActorID = 2;

    // set a positive allowance
    let delta = TokenAmount::from_atto(100);
    state.change_allowance_by(bs, owner, operator, &delta).unwrap();

    // can consume an allowance
    let new_allowance =
        state.attempt_use_allowance(bs, operator, owner, &TokenAmount::from_atto(60)).unwrap();
    assert_eq!(new_allowance, TokenAmount::from_atto(40));
    let new_allowance = state.get_allowance_between(bs, owner, operator).unwrap();
    assert_eq!(new_allowance, TokenAmount::from_atto(40));

    // cannot consume more allowance than approved
    state.attempt_use_allowance(bs, operator, owner, &TokenAmount::from_atto(50)).unwrap_err();
    // allowance was unchanged
    let new_allowance = state.get_allowance_between(bs, owner, operator).unwrap();
    assert_eq!(new_allowance, TokenAmount::from_atto(40));
}

#[test]
fn state_it_revokes_allowances() {
    let mut store = Store::new();
    let bs = &mut store;
    let mut state = TokenState::new(bs).unwrap();
    let owner: ActorID = 1;
    let operator: ActorID = 2;

    // set a positive allowance
    let delta = TokenAmount::from_atto(100);
    state.change_allowance_by(bs, owner, operator, &delta).unwrap();
    state.change_allowance_by(bs, owner, operator, &delta).unwrap();
    let allowance = state.get_allowance_between(bs, owner, operator).unwrap();
    assert_eq!(allowance, TokenAmount::from_atto(200));

    state.revoke_allowance(bs, owner, operator).unwrap();
    let allowance = state.get_allowance_between(bs, owner, operator).unwrap();
    assert_eq!(allowance, TokenAmount::zero());
}

#[test]
fn it_allows_variable_bit_width() {
    let mut store = Store::new();
    let bs = &mut store;
    let mut state = TokenState::new_with_bit_width(bs, 8).unwrap();
    let amount = TokenAmount::from_whole(5);
    for owner in 0_u64..10_u64 {
        state.set_balance(bs, owner, &amount).unwrap();
    }
    let cid = state.save(bs).unwrap();

    let loaded_state = TokenState::load(bs, &cid).unwrap();
    assert_eq!(loaded_state.hamt_bit_width, 8);
    for owner in 0_u64..10_u64 {
        // loading the hamts with the wrong bitwidth would result in corrupted data
        let balance = loaded_state.get_balance(bs, owner).unwrap();
        assert_eq!(balance, amount);
    }
}

#[test]
fn holders_are_counted() {
    let mut store = Store::new();
    let mut state = TokenState::new(&mut store).unwrap();
    assert_eq!(state.count_balances(&store).unwrap(), 0);
    for (actor, amount) in [(1, 5), (2, 7), (300, 1)] {
        state.change_balance_by(&mut store, actor, &TokenAmount::from_atto(amount)).unwrap();
    }
    assert_eq!(state.count_balances(&store).unwrap(), 3);
    // who holds nothing any more is no holder
    state.change_balance_by(&mut store, 2, &TokenAmount::from_atto(-7)).unwrap();
    assert_eq!(state.count_balances(&store).unwrap(), 2);
}

#[test]
fn the_allowances_of_an_owner_are_listed() {
    let mut store = Store::new();
    let mut state = TokenState::new(&mut store).unwrap();
    assert!(state.get_owner_allowance_map(&store, 1).unwrap().is_none());
    state.set_allowance(&mut store, 1, 2, &TokenAmount::from_atto(10)).unwrap();
    state.set_allowance(&mut store, 1, 3, &TokenAmount::from_atto(20)).unwrap();
    let map = state.get_owner_allowance_map(&store, 1).unwrap().unwrap();
    assert_eq!(map.get(&actor_id_key(2)).unwrap(), Some(TokenAmount::from_atto(10)));
    assert_eq!(map.get(&actor_id_key(3)).unwrap(), Some(TokenAmount::from_atto(20)));
    assert_eq!(map.get(&actor_id_key(1)).unwrap(), None);
    assert_eq!(map.entries().unwrap().len(), 2);
    assert!(state.get_owner_allowance_map(&store, 2).unwrap().is_none());
    // an owner whose allowances are all gone has no map
    state.revoke_allowance(&mut store, 1, 2).unwrap();
    state.revoke_allowance(&mut store, 1, 3).unwrap();
    assert!(state.get_owner_allowance_map(&store, 1).unwrap().is_none());
}

#[test]
fn taking_back_what_was_given_leaves_the_balances_as_they_were() {
    let mut store = Store::new();
    let mut state = TokenState::new(&mut store).unwrap();
    let empty = state.clone();
    let amount = TokenAmount::from_atto(100);
    state.change_balance_by(&mut store, 1, &amount).unwrap();
    state.change_supply_by(&amount).unwrap();
    assert_ne!(state, empty);
    state.change_balance_by(&mut store, 1, &TokenAmount::from_atto(-100)).unwrap();
    state.change_supply_by(&TokenAmount::from_atto(-100)).unwrap();
    assert_eq!(state.supply, TokenAmount::zero());
    assert_eq!(state.count_balances(&store).unwrap(), 0);
    assert_eq!(state.balances, empty.balances);
}

#[test]
fn a_state_saved_before_others_is_loaded_as_it_was() {
    let mut store = Store::new();
    let mut state = TokenState::new(&mut store).unwrap();
    state.change_balance_by(&mut store, 1, &TokenAmount::from_atto(5)).unwrap();
    let cid = state.save(&mut store).unwrap();
    let early = state.clone();
    state.change_balance_by(&mut store, 1, &TokenAmount::from_atto(6)).unwrap();
    let later = state.save(&mut store).unwrap();
    let loaded = TokenState::load(&store, &cid).unwrap();
    assert_eq!(loaded, early);
    assert_eq!(loaded.get_balance(&store, 1).unwrap(), TokenAmount::from_atto(5));
    let loaded = TokenState::load(&store, &later).unwrap();
    assert_eq!(loaded.get_balance(&store, 1).unwrap(), TokenAmount::from_atto(11));
}
