use actors_utils::amount::TokenAmount;
use actors_utils::bytes::ActorID;
use actors_utils::fil_fungible_token::state::TokenState;
use actors_utils::store::Store;

#[test]
fn fungible_state_it_instantiates() {
    let mut store = Store::new();
    let bs = &mut store;
    let state = TokenState::new(bs).unwrap();
    let cid = state.save(bs).unwrap();
    let saved_state = TokenState::load(bs, &cid).unwrap();
    assert_eq!(state, saved_state);
}

#[test]
fn fungible_state_it_increases_balance_from_zero() {
    let mut store = Store::new();
    let bs = &mut store;
    let mut state = TokenState::new(bs).unwrap();
    let actor: ActorID = 1;

    // Initially any actor has an implicit balance of 0
    assert_eq!(state.get_balance(bs, actor).unwrap(), TokenAmount::zero());

    let amount = TokenAmount::from_atto(100);
    state.change_balance_by(bs, actor, &amount).unwrap();

    assert_eq!(state.get_balance(bs, actor).unwrap(), amount);
}

#[test]
fn fungible_state_it_fails_to_decrease_balance_below_zero() {
    let mut store = Store::new();
    let bs = &mut store;
    let mut state = TokenState::new(bs).unwrap();
    let actor: ActorID = 1;

    // can't decrease from zero
    state.change_balance_by(bs, actor, &TokenAmount::from_atto(-1)).unwrap_err();
    let balance = state.get_balance(bs, actor).unwrap();
    assert_eq!(balance, TokenAmount::zero());

    // can't become negative from a positive balance
    state.change_balance_by(bs, actor, &TokenAmount::from_atto(50)).unwrap();
    state.change_balance_by(bs, actor, &TokenAmount::from_atto(-100)).unwrap_err();
}

#[test]
fn fungible_state_it_sets_allowances_between_actors() {
    let mut store = Store::new();
    let bs = &mut store;
    let mut state = TokenState::new(bs).unwrap();
    let owner: ActorID = 1;
    let operator: ActorID = 2;

    // initial allowance is zero
    let initial_allowance = state.get_allowance_between(bs, owner, operator).unwrap();
    assert_eq!(initial_allowance, TokenAmount::zero());

    // can set a positive allowance
    let delta = TokenAmount::from_atto(100);
    let ret = state.change_allowance_by(bs, owner, operator, &delta).unwrap();
    assert_eq!(ret, delta);
    let allowance_1 = state.get_allowance_between(bs, owner, operator).unwrap();
    assert_eq!(allowance_1, delta);

    // vice-versa allowance was unaffected
    let reverse_allowance = state.get_allowance_between(bs, operator, owner).unwrap();
    assert_eq!(reverse_allowance, TokenAmount::zero());

    // can subtract an allowance
    let delta = TokenAmount::from_atto(-50);
    let ret = state.change_allowance_by(bs, owner, operator, &delta).unwrap();
    assert_eq!(ret, TokenAmount::from_atto(50));
    let allowance_2 = state.get_allowance_between(bs, owner, operator).unwrap();
    assert_eq!(allowance_2, allowance_1.plus(&delta));
    assert_eq!(allowance_2, TokenAmount::from_atto(50));

    // allowance won't go negative
    let delta = TokenAmount::from_atto(-100);
    let ret = state.change_allowance_by(bs, owner, operator, &delta).unwrap();
    assert_eq!(ret, TokenAmount::zero());
    let allowance_3 = state.get_allowance_between(bs, owner, operator).unwrap();
    assert_eq!(allowance_3, TokenAmount::zero());
}

#[test]
fn fungible_state_it_consumes_allowances_atomically() {
    let mut store = Store::new();
    let bs = &mut store;
    let mut state = TokenState::new(bs).unwrap();
    let owner: ActorID = 1;
    let operator: ActorID = 2;

    // set a positive allowance
    let delta = TokenAmount::from_atto(100);
    state.change_allowance_by(bs, owner, operator, &delta).unwrap();

    // can consume an allowance
    let new_allowance =
        state.attempt_use_allowance(bs, operator, owner, &TokenAmount::from_atto(60)).unwrap();
    assert_eq!(new_allowance, TokenAmount::from_atto(40));
    let new_allowance = state.get_allowance_between(bs, owner, operator).unwrap();
    assert_eq!(new_allowance, TokenAmount::from_atto(40));

    // cannot consume more allowance than approved
    state.attempt_use_allowance(bs, operator, owner, &TokenAmount::from_atto(50)).unwrap_err();
    // allowance was unchanged
    let new_allowance = state.get_allowance_between(bs, owner, operator).unwrap();
    assert_eq!(new_allowance, TokenAmount::from_atto(40));
}

#[test]
fn fungible_state_it_revokes_allowances() {
    let mut store = Store::new();
    let bs = &mut store;
    let mut state = TokenState::new(bs).unwrap();
    let owner: ActorID = 1;
    let operator: ActorID = 2;

    // set a positive allowance
    let delta = TokenAmount::from_atto(100);
    state.change_allowance_by(bs, owner, operator, &delta).unwrap();
    state.change_allowance_by(bs, owner, operator, &delta).unwrap();
    let allowance = state.get_allowance_between(bs, owner, operator).unwrap();
    assert_eq!(allowance, TokenAmount::from_atto(200));

    state.revoke_allowance(bs, owner, operator).unwrap();
    let allowance = state.get_allowance_between(bs, owner, operator).unwrap();
    assert_eq!(allowance, TokenAmount::zero());
}
