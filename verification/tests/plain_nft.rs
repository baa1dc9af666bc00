use actors_utils::bytes::Cid;
use actors_utils::frcxx_nft::nft::{NFTState, StateError, NFT};
use actors_utils::store::Store;

#[test]
fn numbers_are_given_out_one_after_the_other() {
    let mut store = Store::new();
    let mut state = NFTState::new(&mut store).unwrap();
    assert_eq!(state.mint_token(&mut store, 7).unwrap(), 0);
    assert_eq!(state.mint_token(&mut store, 8).unwrap(), 1);
    let minted = state.batch_mint_tokens(&mut store, 9, 3).unwrap();
    assert_eq!(minted.tokens, vec![2, 3, 4]);
    assert_eq!(state.batch_mint_tokens(&mut store, 9, 0).unwrap().tokens, Vec::<u64>::new());
    assert_eq!(state.next_token, 5);
    assert_eq!(state.total_supply, 5);
}

#[test]
fn a_saved_set_goes_on_where_it_was() {
    let mut store = Store::new();
    let mut state = NFTState::new(&mut store).unwrap();
    state.batch_mint_tokens(&mut store, 7, 2).unwrap();
    let cid = state.save(&mut store).unwrap();
    let mut loaded = NFTState::load(&store, &cid).unwrap();
    assert_eq!(loaded, state);
    let mut set = NFT::wrap(store, &mut loaded);
    assert_eq!(set.mint(8).unwrap(), 2);
}

#[test]
fn a_set_that_is_not_there_is_not_loaded() {
    let err = NFTState::load(&Store::new(), &Cid::default()).unwrap_err();
    assert!(matches!(err, StateError::Other(_)));
}

#[test]
fn a_set_that_cannot_be_read_gives_out_nothing() {
    let mut store = Store::new();
    let mut state = NFTState::new(&mut store).unwrap();
    let err = state.mint_token(&mut Store::new(), 7).unwrap_err();
    assert!(matches!(err, StateError::IpldAmt(_)));
    assert_eq!(state.next_token, 0);
}

#[test]
fn a_set_does_not_run_out_of_its_counts() {
    let mut store = Store::new();
    let mut state = NFTState::new(&mut store).unwrap();
    state.total_supply = u64::MAX;
    let err = state.mint_token(&mut store, 7).unwrap_err();
    assert!(matches!(err, StateError::Other(_)));
}
