use actors_utils::address::Address;
use actors_utils::bytes::{ActorID, RawBytes};
use actors_utils::frcxx_nft::handle::{NFTError, NFT};
use actors_utils::frcxx_nft::state::{NFTState, StateError, TokenID};
use actors_utils::fvm_actor_utils::fake_syscalls::FakeSyscalls;
use actors_utils::fvm_actor_utils::util::ActorRuntime;

const ALICE_ID: ActorID = 1;
const BOB_ID: ActorID = 2;
const CHARLIE_ID: ActorID = 3;

fn alice() -> Address {
    Address::new_id(ALICE_ID)
}

fn bob() -> Address {
    Address::new_id(BOB_ID)
}

fn charlie() -> Address {
    Address::new_id(CHARLIE_ID)
}

/// An empty collection, saved as the state of actor 4
fn new_collection() -> (ActorRuntime<FakeSyscalls>, NFTState) {
    let mut runtime = ActorRuntime::<FakeSyscalls>::new_test_runtime();
    runtime.syscalls.actor_id = 4;
    runtime.syscalls.next_actor_id = 5;
    let state = NFTState::new(&mut runtime.blockstore).unwrap();
    runtime.syscalls.root = state.save(&mut runtime.blockstore).unwrap();
    (runtime, state)
}

#[test]
fn lib_it_mints_tokens_incrementally() {
    let (runtime, mut state) = new_collection();
    let mut nft = NFT::wrap(runtime, &mut state);

    {
        // mint first token
        let mut hook = nft
            .mint(
                &alice(),
                &alice(),
                vec![String::new(); 1],
                RawBytes::default(),
                RawBytes::default(),
            )
            .unwrap();
        let res = hook.call(&mut nft.runtime).unwrap();
        assert_eq!(res.token_ids, vec![0]);
    }

    {
        // mint next token
        let mut hook = nft
            .mint(
                &alice(),
                &alice(),
                vec![String::new(); 1],
                RawBytes::default(),
                RawBytes::default(),
            )
            .unwrap();
        let res = hook.call(&mut nft.runtime).unwrap();
        assert_eq!(res.token_ids, vec![1]);
    }

    {
        // mint more tokens
        let mut hook = nft
            .mint(
                &alice(),
                &bob(),
                vec![String::new(); 3],
                RawBytes::default(),
                RawBytes::default(),
            )
            .unwrap();
        let res = hook.call(&mut nft.runtime).unwrap();
        assert_eq!(res.token_ids, vec![2, 3, 4]);
    }

    {
        // mint no tokens
        let mut hook = nft
            .mint(
                &alice(),
                &alice(),
                vec![String::new(); 0],
                RawBytes::default(),
                RawBytes::default(),
            )
            .unwrap();
        let res = hook.call(&mut nft.runtime).unwrap();
        assert_eq!(res.token_ids, Vec::<TokenID>::default());
    }

    let bs = nft.runtime.blockstore;
    let (_, errors) = state.check_invariants(&bs);
    assert!(errors.is_empty());
}

#[test]
fn lib_it_transfers_tokens() {
    let (runtime, mut state) = new_collection();
    let mut nft = NFT::wrap(runtime, &mut state);

    {
        // mint tokens to alice
        let mut hook = nft
            .mint(
                &alice(),
                &alice(),
                vec![String::new(); 3],
                RawBytes::default(),
                RawBytes::default(),
            )
            .unwrap();
        hook.call(&mut nft.runtime).unwrap();
        // alice: [0, 1, 2]
        // bob: []
    }

    {
        // transfer tokens from alice to bob
        let mut hook = nft
            .transfer(&alice(), &bob(), &vec![0, 1, 2], RawBytes::default(), RawBytes::default())
            .unwrap();
        hook.call(&mut nft.runtime).unwrap();
        // alice: []
        // bob: [0, 1, 2]
    }

    {
        // alice's tokens go to bob
        let alice_balance = nft.balance_of(&alice()).unwrap();
        assert_eq!(alice_balance, 0);
        let bob_balance = nft.balance_of(&bob()).unwrap();
        assert_eq!(bob_balance, 3);
    }

    {
        // alice is denied permission to transfer them back
        // transfer tokens from alice to bob
        let err = nft
            .transfer(&alice(), &alice(), &vec![0, 1, 2], RawBytes::default(), RawBytes::default())
            .unwrap_err();
        if let NFTError::NFTState(StateError::NotOwner { actor, token_id }) = err {
            assert_eq!(actor, ALICE_ID);
            assert_eq!(token_id, 0);
        } else {
            panic!("Unexpected error: {:?}", err);
        }
        // alice: []
        // bob: [0, 1, 2]
    }

    {
        // state didn't change
        let alice_balance = nft.balance_of(&alice()).unwrap();
        assert_eq!(alice_balance, 0);
        let bob_balance = nft.balance_of(&bob()).unwrap();
        assert_eq!(bob_balance, 3);
    }

    {
        // doesn't transfer if any of the token ids are invalid
        let err = nft
            .transfer(&bob(), &alice(), &vec![0, 1, 2, 3], RawBytes::default(), RawBytes::default())
            .unwrap_err();
        if let NFTError::NFTState(StateError::TokenNotFound(token_id)) = err {
            assert_eq!(token_id, 3);
        } else {
            panic!("Unexpected error: {:?}", err);
        }
        // alice: []
        // bob: [0, 1, 2]
    }

    {
        // state didn't change
        let alice_balance = nft.balance_of(&alice()).unwrap();
        assert_eq!(alice_balance, 0);
        let bob_balance = nft.balance_of(&bob()).unwrap();
        assert_eq!(bob_balance, 3);
    }

        let bs = nft.runtime.blockstore;
    let (_, errors) = state.check_invariants(&bs);
    assert!(errors.is_empty());
}

#[test]
fn lib_it_burns_tokens() {
    let (runtime, mut state) = new_collection();
    let mut nft = NFT::wrap(runtime, &mut state);

    {
        // burn a non-existent token
        let err = nft.burn(&alice(), &vec![0]).unwrap_err();
        if let NFTError::NFTState(StateError::TokenNotFound(id)) = err {
            assert_eq!(id, 0);
        } else {
            panic!("unexpected error {:?}", err);
        }
    }

    {
        // mint some tokens
        let mut hook = nft
            .mint(
                &alice(),
                &alice(),
                vec![String::new(); 5],
                RawBytes::default(),
                RawBytes::default(),
            )
            .unwrap();
        hook.call(&mut nft.runtime).unwrap();
        // alice: [0, 1, 2, 3, 4]
    }

    {
        // burn a token not owned by the caller
        let err = nft.burn(&bob(), &vec![0]).unwrap_err();
        if let NFTError::NFTState(StateError::NotOwner { actor, token_id }) = err {
            assert_eq!(actor, BOB_ID);
            assert_eq!(token_id, 0);
        } else {
            panic!("unexpected error {:?}", err);
        }
    }

    {
        // burn fails unless all tokens are owned by caller
        let err = nft.burn(&alice(), &vec![0, 1, 2, 3, 4, 5]).unwrap_err();
        if let NFTError::NFTState(StateError::TokenNotFound(id)) = err {
            assert_eq!(id, 5);
        } else {
            panic!("unexpected error {:?}", err);
        }
    }

    {
        // tokens weren't burnt
        let balance = nft.balance_of(&alice()).unwrap();
        assert_eq!(balance, 5);
        let total_supply = nft.total_supply();
        assert_eq!(total_supply, 5);
    }

    {
        // burn some tokens
        let new_balance = nft.burn(&alice(), &vec![0, 1, 2]).unwrap();
        assert_eq!(new_balance, 2);
        // alice: [3, 4]
    }

    {
        // tokens were burnt
        let balance = nft.balance_of(&alice()).unwrap();
        assert_eq!(balance, 2);
        let total_supply = nft.total_supply();
        assert_eq!(total_supply, 2);
    }

    {
        // tokens cannot be burnt again
        let err = nft.burn(&alice(), &vec![0, 1, 2]).unwrap_err();
        if let NFTError::NFTState(StateError::TokenNotFound(id)) = err {
            assert_eq!(id, 0);
        } else {
            panic!("unexpected error {:?}", err);
        }
    }

    {
        // state unchanged
        let balance = nft.balance_of(&alice()).unwrap();
        assert_eq!(balance, 2);
        let total_supply = nft.total_supply();
        assert_eq!(total_supply, 2);
    }
    let bs = nft.runtime.blockstore;
    let (_, errors) = state.check_invariants(&bs);
    assert!(errors.is_empty());
}

#[test]
fn lib_it_allows_account_level_delegation() {
    let (runtime, mut state) = new_collection();
    let mut nft = NFT::wrap(runtime, &mut state);

    {
        // mint a few tokens
        let mut hook = nft
            .mint(
                &alice(),
                &alice(),
                vec![String::new(); 4],
                RawBytes::default(),
                RawBytes::default(),
            )
            .unwrap();
        hook.call(&mut nft.runtime).unwrap();
        // alice: [0, 1, 2, 3]
        // bob: []
    }

    {
        // bob cannot transfer from alice to himself
        let err = nft
            .transfer_from(&alice(), &bob(), &alice(), &vec![0], RawBytes::default(), RawBytes::default())
            .unwrap_err();
        if let NFTError::NFTState(StateError::NotAuthorized { actor, token_id }) = err {
            assert_eq!(actor, BOB_ID);
            assert_eq!(token_id, 0);
        } else {
            panic!("unexpected error {:?}", err);
        }
    }

    {
        // alice still retains all the tokens
        let owner = nft.owner_of(0).unwrap();
        assert_eq!(owner, ALICE_ID);
        let balance = nft.balance_of(&alice()).unwrap();
        assert_eq!(balance, 4);
    }

    // approve bob to transfer for alice
    nft.approve_for_owner(&alice(), &bob()).unwrap();

    {
        // transfer from alice to bob
        let mut hook = nft
            .transfer_from(
                &alice(),
                &bob(),
                &bob(),
                &vec![0, 1],
                RawBytes::default(),
                RawBytes::default(),
            )
            .unwrap();
        let tx_int = hook.call(&mut nft.runtime).unwrap();
        assert_eq!(tx_int.from, ALICE_ID);
        assert_eq!(tx_int.to, BOB_ID);
        assert_eq!(tx_int.token_ids, vec![0, 1]);
        // alice: [2, 3]
        // bob: [0, 1]
    }

    {
        // ownership was tranferred
        assert_eq!(nft.owner_of(0).unwrap(), BOB_ID);
        // balances were updated
        assert_eq!(nft.balance_of(&alice()).unwrap(), 2);
        assert_eq!(nft.balance_of(&bob()).unwrap(), 2);
    }

    {
        // cannot transfer when wrong owner specified
        let err = nft
            .transfer_from(&bob(), &bob(), &bob(), &vec![2], RawBytes::default(), RawBytes::default())
            .unwrap_err();
        if let NFTError::NFTState(StateError::NotOwner { actor, token_id }) = err {
            assert_eq!(actor, BOB_ID);
            assert_eq!(token_id, 2);
        } else {
            panic!("unexpected error {:?}", err);
        }
    }

    {
        // owner cannot use operator method - accounts are not considered reflexive operators on themselves
        let err = nft
            .transfer_from(&alice(), &alice(), &bob(), &vec![2], RawBytes::default(), RawBytes::default())
            .unwrap_err();
        if let NFTError::NFTState(StateError::NotAuthorized { actor, token_id }) = err {
            assert_eq!(actor, ALICE_ID);
            assert_eq!(token_id, 2);
        } else {
            panic!("unexpected error {:?}", err);
        }
    }

    {
        // state unchanged
        assert_eq!(nft.owner_of(2).unwrap(), ALICE_ID);
        assert_eq!(nft.balance_of(&alice()).unwrap(), 2);
        assert_eq!(nft.balance_of(&bob()).unwrap(), 2);
    }

    {
        // bob can burn from for alice
        let remaining_balance = nft.burn_from(&alice(), &bob(), &vec![2]).unwrap();
        assert_eq!(remaining_balance, 1);
        // alice: [3]
        // bob: [0, 1]
    }

    {
        // token was succesfully burned
        let err = nft.owner_of(2).unwrap_err();
        if let NFTError::NFTState(StateError::TokenNotFound(id)) = err {
            assert_eq!(id, 2);
        } else {
            panic!("unexpected error {:?}", err);
        }
        assert_eq!(nft.balance_of(&alice()).unwrap(), 1);
        assert_eq!(nft.balance_of(&bob()).unwrap(), 2);
        assert_eq!(nft.total_supply(), 3);
    }

    {
        // mint new tokens for alice
        // mint a few tokens
        let mut hook = nft
            .mint(
                &alice(),
                &alice(),
                vec![String::new(); 4],
                RawBytes::default(),
                RawBytes::default(),
            )
            .unwrap();
        hook.call(&mut nft.runtime).unwrap();
        // alice: [3, 4, 5, 6, 7]
        // bob: [0, 1]
    }

    {
        // state updated
        assert_eq!(nft.balance_of(&alice()).unwrap(), 5);
        assert_eq!(nft.balance_of(&bob()).unwrap(), 2);
        assert_eq!(nft.total_supply(), 7);
    }

    {
        // bob can burn newly minted tokens from alice
        let remaining_balance = nft.burn_from(&alice(), &bob(), &vec![7]).unwrap();
        assert_eq!(remaining_balance, 4);
        // alice: [3, 4, 5, 6]
        // bob: [0, 1]
    }

    {
        // token was succesfully burned
        let err = nft.owner_of(7).unwrap_err();
        if let NFTError::NFTState(StateError::TokenNotFound(id)) = err {
            assert_eq!(id, 7);
        } else {
            panic!("unexpected error {:?}", err);
        }
        assert_eq!(nft.balance_of(&alice()).unwrap(), 4);
        assert_eq!(nft.balance_of(&bob()).unwrap(), 2);
        assert_eq!(nft.total_supply(), 6);
    }

    {
        // bob can transfer newly minted token from alice
        let mut hook = nft
            .transfer_from(
                &alice(),
                &bob(),
                &bob(),
                &vec![5, 6],
                RawBytes::default(),
                RawBytes::default(),
            )
            .unwrap();
        let tx_int = hook.call(&mut nft.runtime).unwrap();
        assert_eq!(tx_int.from, ALICE_ID);
        assert_eq!(tx_int.to, BOB_ID);
        assert_eq!(tx_int.token_ids, vec![5, 6]);
        // alice: [3, 4]
        // bob: [0, 1, 5, 6]
    }

    {
        // tokens were successfully transferred
        assert_eq!(nft.owner_of(5).unwrap(), BOB_ID);
        assert_eq!(nft.owner_of(6).unwrap(), BOB_ID);
        assert_eq!(nft.balance_of(&alice()).unwrap(), 2);
        assert_eq!(nft.balance_of(&bob()).unwrap(), 4);
        assert_eq!(nft.total_supply(), 6);
    }
    let bs = nft.runtime.blockstore;
    let (_, errors) = state.check_invariants(&bs);
    assert!(errors.is_empty());
}

#[test]
fn lib_it_allows_token_level_delegation() {
    let (runtime, mut state) = new_collection();
    let mut nft = NFT::wrap(runtime, &mut state);

    // mint a few tokens
    let mut hook = nft
        .mint(&alice(), &alice(), vec![String::new(); 2], RawBytes::default(), RawBytes::default())
        .unwrap();
    if let [token_0, token_1] = hook.call(&mut nft.runtime).unwrap().token_ids[..] {
        // alice: [0, 1, 2]
        // bob: []
        // charlie: []

        {
            // neither bob nor charlie can transfer tokens
            nft.transfer_from(
                &alice(),
                &bob(),
                &bob(),
                &vec![token_0],
                RawBytes::default(),
                RawBytes::default(),
            )
            .unwrap_err();
            nft.transfer_from(
                &alice(),
                &charlie(),
                &bob(),
                &vec![token_0],
                RawBytes::default(),
                RawBytes::default(),
            )
            .unwrap_err();
            nft.transfer_from(
                &alice(),
                &bob(),
                &bob(),
                &vec![token_1],
                RawBytes::default(),
                RawBytes::default(),
            )
            .unwrap_err();
            nft.transfer_from(
                &alice(),
                &charlie(),
                &bob(),
                &vec![token_1],
                RawBytes::default(),
                RawBytes::default(),
            )
            .unwrap_err();
        }

        {
            // neither bob nor charlie can burn tokens
            nft.burn_from(&alice(), &bob(), &vec![token_0]).unwrap_err();
            nft.burn_from(&alice(), &bob(), &vec![token_1]).unwrap_err();
            nft.burn_from(&alice(), &charlie(), &vec![token_0]).unwrap_err();
            nft.burn_from(&alice(), &charlie(), &vec![token_1]).unwrap_err();
        }

        {
            // the state is still intact
            assert_eq!(nft.owner_of(token_0).unwrap(), ALICE_ID);
            assert_eq!(nft.balance_of(&alice()).unwrap(), 2);
            assert_eq!(nft.balance_of(&bob()).unwrap(), 0);
            assert_eq!(nft.balance_of(&charlie()).unwrap(), 0);
            assert_eq!(nft.total_supply(), 2);
        }

        {
            // charlie cannot approve bob nor charlie for a token owned by alice
            let err = nft.approve(&charlie(), &bob(), &vec![token_0]).unwrap_err();
            if let NFTError::NFTState(StateError::NotOwner { actor, token_id }) = err {
                assert_eq!(token_id, token_0);
                assert_eq!(actor, CHARLIE_ID);
            } else {
                panic!("unexpected error {:?}", err);
            }
            let err = nft.approve(&charlie(), &charlie(), &vec![token_1]).unwrap_err();
            if let NFTError::NFTState(StateError::NotOwner { actor, token_id }) = err {
                assert_eq!(token_id, token_1);
                assert_eq!(actor, CHARLIE_ID);
            } else {
                panic!("unexpected error {:?}", err);
            }
        }

        {
            // alice can approve others for a token owned by alice
            nft.approve(&alice(), &bob(), &vec![token_0]).unwrap();
            nft.approve(&alice(), &charlie(), &vec![token_1]).unwrap();
        }

        {
            // charlie still can't burn or transfer token_0
            nft.burn_from(&alice(), &charlie(), &vec![token_0]).unwrap_err();
            nft.transfer_from(
                &alice(),
                &charlie(),
                &bob(),
                &vec![token_0],
                RawBytes::default(),
                RawBytes::default(),
            )
            .unwrap_err();
        }

        {
            // the state is still intact
            assert_eq!(nft.owner_of(0).unwrap(), ALICE_ID);
            assert_eq!(nft.balance_of(&alice()).unwrap(), 2);
            assert_eq!(nft.balance_of(&bob()).unwrap(), 0);
            assert_eq!(nft.balance_of(&charlie()).unwrap(), 0);
            assert_eq!(nft.total_supply(), 2);
        }

        {
            // bob can transfer token_0
            let mut hook = nft
                .transfer_from(
                    &alice(),
                    &bob(),
                    &bob(),
                    &vec![token_0],
                    RawBytes::default(),
                    RawBytes::default(),
                )
                .unwrap();
            hook.call(&mut nft.runtime).unwrap();
            // state updated
            assert_eq!(nft.owner_of(token_0).unwrap(), BOB_ID);
            assert_eq!(nft.balance_of(&alice()).unwrap(), 1);
            assert_eq!(nft.balance_of(&bob()).unwrap(), 1);
            assert_eq!(nft.balance_of(&charlie()).unwrap(), 0);
            assert_eq!(nft.total_supply(), 2);
        }

        {
            // charlie can transfer token_1
            nft.burn_from(&alice(), &charlie(), &vec![token_1]).unwrap();
            // state updated
            assert_eq!(nft.balance_of(&alice()).unwrap(), 0);
            assert_eq!(nft.balance_of(&bob()).unwrap(), 1);
            assert_eq!(nft.balance_of(&charlie()).unwrap(), 0);
            assert_eq!(nft.total_supply(), 1);
        }
    }
    let bs = nft.runtime.blockstore;
    let (_, errors) = state.check_invariants(&bs);
    assert!(errors.is_empty());
}

#[test]
fn a_state_that_changed_is_read_again_and_returned() {
    let (mut runtime, mut state) = new_collection();
    let root = runtime.syscalls.root.clone();
    // a receiver changed the state of the actor meanwhile
    let mut other = state.clone();
    other
        .add_tokens(&mut runtime.blockstore, BOB_ID, vec!["one".to_string(), "two".to_string()])
        .unwrap();
    let changed = other.save(&mut runtime.blockstore).unwrap();
    let mut nft = NFT::wrap(runtime, &mut state);
    assert!(nft.reload_if_changed(root.clone()).unwrap().is_none());
    assert_eq!(nft.total_supply(), 0);

    nft.runtime.syscalls.root = changed.clone();
    let current = nft.reload_if_changed(root).unwrap().unwrap();
    assert_eq!(current.total_supply, 2);
    assert_eq!(nft.total_supply(), 2);
    assert_eq!(nft.balance_of(&bob()).unwrap(), 2);
    assert!(nft.reload_if_changed(changed).unwrap().is_none());
}

#[test]
fn an_operator_out_of_range_is_refused_after_the_owner_is_checked() {
    let (runtime, mut state) = new_collection();
    let mut nft = NFT::wrap(runtime, &mut state);
    let mut hook = nft
        .mint(
            &alice(),
            &alice(),
            vec![String::new(); 1],
            RawBytes::default(),
            RawBytes::default(),
        )
        .unwrap();
    hook.call(&mut nft.runtime).unwrap();
    let far = Address::new_id(u64::MAX);
    nft.approve(&alice(), &far, &vec![]).unwrap();
    assert!(matches!(
        nft.approve(&bob(), &far, &vec![0]),
        Err(NFTError::NFTState(StateError::NotOwner { .. }))
    ));
    assert!(matches!(
        nft.approve(&alice(), &far, &vec![0]),
        Err(NFTError::NFTState(StateError::InvariantFailed(_)))
    ));
    assert!(matches!(
        nft.approve_for_owner(&alice(), &far),
        Err(NFTError::NFTState(StateError::InvariantFailed(_)))
    ));
}

#[test]
fn minting_nothing_looks_at_both_trees() {
    let (mut runtime, mut state) = new_collection();
    let blocks = runtime.blockstore.clone();
    runtime.blockstore = actors_utils::store::Store::new();
    let nothing = |state: &mut NFTState, bs: &mut actors_utils::store::Store| {
        state.mint_tokens(bs, 1, 2, vec![], RawBytes::default(), RawBytes::default()).map(|_| ())
    };
    assert!(matches!(
        nothing(&mut state, &mut runtime.blockstore),
        Err(StateError::IpldAmt(_))
    ));
    runtime.blockstore.put(blocks.get(&state.token_data).unwrap());
    assert!(matches!(
        nothing(&mut state, &mut runtime.blockstore),
        Err(StateError::IpldHamt(_))
    ));
    runtime.blockstore.put(blocks.get(&state.owner_data).unwrap());
    assert!(nothing(&mut state, &mut runtime.blockstore).is_ok());
}
