use actors_utils::bits::OperatorSet;
use actors_utils::bytes::{ActorID, RawBytes};
use actors_utils::frc53_nft::receiver::{FRC53ReceiverHook, FRC53TokenReceived, FRC53_TOKEN_TYPE};
use actors_utils::frc53_nft::state::{NFTState, StateError, TokenData, TokenID};
use actors_utils::frc53_nft::types::{Cursor, MintIntermediate};
use actors_utils::fvm_actor_utils::receiver::ReceiverHook;
use actors_utils::store::Store;

const ALICE: ActorID = 1;
const BOB: ActorID = 2;
const CAROL: ActorID = 3;

fn anyone(_: &TokenData, _: TokenID) -> Result<(), StateError> {
    Ok(())
}

fn owned_by(actor: ActorID) -> impl Fn(&TokenData, TokenID) -> Result<(), StateError> {
    move |data, id| NFTState::assert_owns_token(data, id, actor)
}

fn names(n: usize) -> Vec<String> {
    (0..n).map(|i| format!("token {i}")).collect()
}

/// Three tokens of Alice, numbers 0 to 2
fn three_tokens() -> (Store, NFTState) {
    let mut store = Store::new();
    let mut state = NFTState::new(&mut store).unwrap();
    let minted = state.mint_tokens(&mut store, ALICE, names(3)).unwrap();
    assert_eq!(minted.token_ids, vec![0, 1, 2]);
    assert_eq!(minted.to, ALICE);
    (store, state)
}

fn listed(set: &fvm_ipld_bitfield::BitField) -> Vec<u64> {
    set.iter().collect()
}

#[test]
fn a_saved_collection_is_loaded_as_it_was() {
    let (mut store, state) = three_tokens();
    let cid = state.save(&mut store).unwrap();
    let loaded = NFTState::load(&store, &cid).unwrap();
    assert_eq!(loaded.total_supply, 3);
    assert_eq!(loaded.next_token, 3);
    assert_eq!(loaded.get_owner(&store, 2).unwrap(), ALICE);
    assert_eq!(loaded.get_metadata(&store, 2).unwrap(), "token 2");
    assert_eq!(loaded.get_balance(&store, ALICE).unwrap(), 3);
    assert!(NFTState::load(&Store::new(), &cid).is_err());
}

#[test]
fn a_token_that_is_not_there_is_not_found() {
    let (store, state) = three_tokens();
    assert!(matches!(state.get_owner(&store, 3), Err(StateError::TokenNotFound(3))));
    assert!(matches!(state.get_metadata(&store, 9), Err(StateError::TokenNotFound(9))));
    assert_eq!(state.get_balance(&store, BOB).unwrap(), 0);
}

#[test]
fn tokens_change_hands() {
    let (mut store, mut state) = three_tokens();
    state.approve_for_tokens(&mut store, CAROL, &vec![1], anyone).unwrap();
    let moved =
        state.transfer(&mut store, &vec![1, 2], ALICE, BOB, &owned_by(ALICE)).unwrap();
    assert_eq!((moved.from, moved.to), (ALICE, BOB));
    assert_eq!(moved.token_ids, vec![1, 2]);
    let balances = state.transfer_return(&store, moved).unwrap();
    assert_eq!((balances.from_balance, balances.to_balance), (1, 2));
    assert_eq!(state.get_owner(&store, 1).unwrap(), BOB);
    // the supply stays, and the operators of the old owner are gone
    assert_eq!(state.total_supply, 3);
    let token = state.get_token_data_amt(&store).unwrap().get(1).unwrap().unwrap();
    assert!(!token.operators.contains_actor(&CAROL));
    assert!(state.check_invariants(&store).1.is_empty());
}

#[test]
fn a_refused_transfer_changes_nothing() {
    let (mut store, mut state) = three_tokens();
    state.transfer(&mut store, &vec![2], ALICE, BOB, &anyone).unwrap();
    let before = state.save(&mut store).unwrap();
    let err = state.transfer(&mut store, &vec![0, 2], ALICE, CAROL, &owned_by(ALICE)).unwrap_err();
    assert!(matches!(err, StateError::NotOwner { actor: ALICE, token_id: 2 }));
    assert_eq!(state.save(&mut store).unwrap(), before);
}

#[test]
fn burnt_numbers_are_not_used_again() {
    let (mut store, mut state) = three_tokens();
    let left = state.burn_tokens(&mut store, ALICE, &vec![0, 2], owned_by(ALICE)).unwrap();
    assert_eq!(left, 1);
    assert_eq!(state.total_supply, 1);
    assert!(matches!(state.get_owner(&store, 2), Err(StateError::TokenNotFound(2))));
    let minted = state.mint_tokens(&mut store, BOB, names(1)).unwrap();
    assert_eq!(minted.token_ids, vec![3]);
    assert_eq!(state.mint_return(&store, minted).unwrap().balance, 1);
    assert!(state.check_invariants(&store).1.is_empty());
}

#[test]
fn a_refused_burn_changes_nothing() {
    let (mut store, mut state) = three_tokens();
    let before = state.save(&mut store).unwrap();
    let err = state.burn_tokens(&mut store, ALICE, &vec![0, 7], anyone).unwrap_err();
    assert!(matches!(err, StateError::TokenNotFound(7)));
    let err = state.burn_tokens(&mut store, BOB, &vec![0], owned_by(BOB)).unwrap_err();
    assert!(matches!(err, StateError::NotOwner { actor: BOB, token_id: 0 }));
    assert_eq!(state.save(&mut store).unwrap(), before);
}

#[test]
fn operators_of_tokens_come_and_go() {
    let (mut store, mut state) = three_tokens();
    state.approve_for_tokens(&mut store, BOB, &vec![0, 2], owned_by(ALICE)).unwrap();
    let token = state.get_token_data_amt(&store).unwrap().get(2).unwrap().unwrap();
    assert!(NFTState::assert_token_level_approval(&token, 2, BOB).is_ok());
    assert!(matches!(
        NFTState::assert_token_level_approval(&token, 2, CAROL),
        Err(StateError::NotAuthorized { actor: CAROL, token_id: 2 })
    ));
    state.revoke_for_tokens(&mut store, BOB, &vec![2], owned_by(ALICE)).unwrap();
    let token = state.get_token_data_amt(&store).unwrap().get(2).unwrap().unwrap();
    assert!(NFTState::assert_token_level_approval(&token, 2, BOB).is_err());
    let err = state.approve_for_tokens(&mut store, BOB, &vec![5], anyone).unwrap_err();
    assert!(matches!(err, StateError::TokenNotFound(5)));
}

#[test]
fn operators_of_accounts_come_and_go() {
    let (mut store, mut state) = three_tokens();
    let before = state.owner_data.clone();
    state.approve_for_owner(&mut store, ALICE, BOB).unwrap();
    {
        let owners = state.get_owner_data_hamt(&store).unwrap();
        assert!(NFTState::is_account_operator(&owners, ALICE, BOB).unwrap());
        assert!(!NFTState::is_account_operator(&owners, ALICE, CAROL).unwrap());
        // nobody is known who is not in the map of owners
        let err = NFTState::is_account_operator(&owners, CAROL, BOB).unwrap_err();
        assert!(matches!(err, StateError::InvariantFailed(m) if m == "owner 3 not found"));
    }
    state.revoke_for_all(&mut store, ALICE, BOB).unwrap();
    assert_eq!(state.owner_data, before);
    // an actor without tokens can have operators, and loses the entry with the last of them
    let before = state.owner_data.clone();
    state.approve_for_owner(&mut store, CAROL, BOB).unwrap();
    assert!(state.check_invariants(&store).1.is_empty());
    state.revoke_for_all(&mut store, CAROL, BOB).unwrap();
    assert_eq!(state.owner_data, before);
}

#[test]
fn tokens_are_listed_page_by_page() {
    let mut store = Store::new();
    let mut state = NFTState::new(&mut store).unwrap();
    state.mint_tokens(&mut store, ALICE, names(3)).unwrap();
    state.mint_tokens(&mut store, BOB, names(2)).unwrap();
    state.approve_for_tokens(&mut store, CAROL, &vec![1, 4], anyone).unwrap();

    let (page, next) = state.list_tokens(&store, None, 2).unwrap();
    assert_eq!(listed(&page), vec![0, 1]);
    let (page, next) = state.list_tokens(&store, next, 2).unwrap();
    assert_eq!(listed(&page), vec![2, 3]);
    let (page, next) = state.list_tokens(&store, next, 2).unwrap();
    assert_eq!(listed(&page), vec![4]);
    assert!(next.is_none());

    let (page, _) = state.list_owned_tokens(&store, BOB, None, 10).unwrap();
    assert_eq!(listed(&page), vec![3, 4]);
    let (page, _) = state.list_operator_tokens(&store, CAROL, None, 10).unwrap();
    assert_eq!(listed(&page), vec![1, 4]);
    let (page, _) = state.list_token_operators(&store, 1, None, 10).unwrap();
    assert_eq!(listed(&page), vec![CAROL]);
    state.approve_for_owner(&mut store, ALICE, BOB).unwrap();
    state.approve_for_owner(&mut store, ALICE, CAROL).unwrap();
    let (page, _) = state.list_account_operators(&store, ALICE, None, 10).unwrap();
    assert_eq!(listed(&page), vec![BOB, CAROL]);
}

#[test]
fn a_cursor_belongs_to_one_state() {
    let (mut store, mut state) = three_tokens();
    let cursor = Some(Cursor { root: state.token_data.clone(), index: 1 });
    let (page, _) = state.list_tokens(&store, cursor, 10).unwrap();
    assert_eq!(listed(&page), vec![1, 2]);
    let cursor = Some(Cursor { root: state.token_data.clone(), index: 1 });
    state.mint_tokens(&mut store, BOB, names(1)).unwrap();
    assert!(matches!(state.list_tokens(&store, cursor, 10), Err(StateError::InvalidCursor)));
}

#[test]
fn the_hook_tells_of_the_tokens() {
    let params = FRC53TokenReceived {
        to: BOB,
        operator: ALICE,
        token_ids: vec![1, 2],
        operator_data: RawBytes::default(),
        token_data: RawBytes::default(),
    };
    let result = MintIntermediate {
        to: BOB,
        token_ids: vec![1, 2],
        recipient_data: RawBytes::default(),
    };
    let address = actors_utils::address::Address::new_id(BOB);
    let hook: ReceiverHook<MintIntermediate> =
        ReceiverHook::new_frc53(address.clone(), params, result).unwrap();
    assert_eq!(hook.token_type, FRC53_TOKEN_TYPE);
    assert_eq!(hook.address, address);
    let decoded: (
        u64,
        u64,
        Vec<u64>,
        fvm_ipld_encoding::RawBytes,
        fvm_ipld_encoding::RawBytes,
    ) = fvm_ipld_encoding::from_slice(hook.token_params.bytes()).unwrap();
    assert_eq!((decoded.0, decoded.1), (BOB, ALICE));
    assert_eq!(decoded.2, vec![1, 2]);
}

#[test]
fn the_owner_and_operators_of_the_account_can_approve_for_a_token() {
    let (mut store, mut state) = three_tokens();
    state.approve_for_owner(&mut store, ALICE, CAROL).unwrap();
    let owners = state.get_owner_data_hamt(&store).unwrap();
    let data = state.get_token_data_amt(&store).unwrap().get(1).unwrap().unwrap();
    assert!(NFTState::assert_can_approve_token(&owners, &data, ALICE, 1).is_ok());
    assert!(NFTState::assert_can_approve_token(&owners, &data, CAROL, 1).is_ok());
    assert!(matches!(
        NFTState::assert_can_approve_token(&owners, &data, BOB, 1),
        Err(StateError::NotOwner { actor: BOB, token_id: 1 })
    ));
}

#[test]
fn minting_nothing_changes_nothing() {
    let mut store = Store::new();
    let mut state = NFTState::new(&mut store).unwrap();
    let fresh = state.clone();
    let minted = state.mint_tokens(&mut store, ALICE, vec![]).unwrap();
    assert!(minted.token_ids.is_empty());
    assert_eq!(state, fresh);
    assert_eq!(state.get_balance(&store, ALICE).unwrap(), 0);
    assert_eq!(state.total_supply, 0);
    let (_, errors) = state.check_invariants(&store);
    assert!(errors.is_empty());
}

#[test]
fn minting_nothing_fails_where_a_tree_is_missing() {
    let mut store = Store::new();
    let state = NFTState::new(&mut store).unwrap();
    let mut elsewhere = Store::new();
    let mut lost = state.clone();
    assert!(matches!(
        lost.mint_tokens(&mut elsewhere, ALICE, vec![]),
        Err(StateError::IpldAmt(_))
    ));
    elsewhere.put(store.get(&state.token_data).unwrap());
    assert!(matches!(
        lost.mint_tokens(&mut elsewhere, ALICE, vec![]),
        Err(StateError::IpldHamt(_))
    ));
    elsewhere.put(store.get(&state.owner_data).unwrap());
    assert!(lost.mint_tokens(&mut elsewhere, ALICE, vec![]).is_ok());
    assert_eq!(lost, state);
}

#[test]
fn an_operator_out_of_range_is_refused_where_it_would_be_stored() {
    let (mut store, mut state) = three_tokens();
    let before = state.clone();
    state.approve_for_tokens(&mut store, u64::MAX, &vec![], anyone).unwrap();
    assert!(matches!(
        state.approve_for_tokens(&mut store, u64::MAX, &vec![0], owned_by(99)),
        Err(StateError::NotOwner { .. })
    ));
    assert!(matches!(
        state.approve_for_tokens(&mut store, u64::MAX, &vec![0], anyone),
        Err(StateError::InvariantFailed(_))
    ));
    assert!(matches!(
        state.approve_for_owner(&mut store, ALICE, u64::MAX),
        Err(StateError::InvariantFailed(_))
    ));
    assert_eq!(state, before);
}

#[test]
fn the_last_number_can_be_minted() {
    let mut store = Store::new();
    let mut state = NFTState::new(&mut store).unwrap();
    state.next_token = u64::MAX - 2;
    let minted = state.mint_tokens(&mut store, ALICE, names(2)).unwrap();
    assert_eq!(minted.token_ids, vec![u64::MAX - 2, u64::MAX - 1]);
    assert_eq!(state.next_token, u64::MAX);
    assert_eq!(state.get_owner(&store, u64::MAX - 1).unwrap(), ALICE);
    let (_, errors) = state.check_invariants(&store);
    assert!(errors.is_empty());
}
