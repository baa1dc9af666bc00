use actors_utils::bytes::{ActorID, RawBytes};
use actors_utils::frcxx_nft::state::{
    MintIntermediate, NFTState, StateError, TokenID, TransferIntermediate,
};
use actors_utils::frcxx_nft::types::TransferFromIntermediate;
use actors_utils::fvm_actor_utils::fake_syscalls::FakeSyscalls;
use actors_utils::fvm_actor_utils::util::ActorRuntime;

const ALICE_ID: ActorID = 1;
const BOB_ID: ActorID = 2;
const CHARLIE_ID: ActorID = 3;

/// A convenience wrapper to help with testing
///
/// Assigns default values to optional fields and calls receiver hooks for minting/transfer
struct StateTester {
    pub state: NFTState,
    pub runtime: ActorRuntime<FakeSyscalls>,
}

impl StateTester {
    fn new() -> Self {
        let mut runtime = ActorRuntime::<FakeSyscalls>::new_test_runtime();
        runtime.syscalls.next_actor_id = 99;
        let state = NFTState::new(&mut runtime.blockstore).unwrap();
        Self { state, runtime }
    }

    /// Mint an amount of NFTs and return the token_ids
    fn mint_amount(&mut self, to: ActorID, num_tokens: u64) -> MintIntermediate {
        let mut hook = self
            .state
            .mint_tokens(
                &mut self.runtime.blockstore,
                0,
                to,
                vec![String::default(); num_tokens as usize],
                RawBytes::default(),
                RawBytes::default(),
            )
            .unwrap();
        hook.call(&mut self.runtime).unwrap()
    }

    /// Transfer tokens to an address, expecting the transaction to succeed
    fn transfer(
        &mut self,
        operator: ActorID,
        to: ActorID,
        token_ids: &Vec<TokenID>,
    ) -> TransferIntermediate {
        let mut hook = self
            .state
            .transfer_tokens(
                &mut self.runtime.blockstore,
                operator,
                to,
                token_ids,
                RawBytes::default(),
                RawBytes::default(),
            )
            .unwrap();
        hook.call(&mut self.runtime).unwrap()
    }

    /// Transfer tokens to an address, expecting the transaction to succeed
    fn operator_transfer(
        &mut self,
        operator: ActorID,
        to: ActorID,
        token_ids: &Vec<TokenID>,
    ) -> TransferFromIntermediate {
        let mut hook = self
            .state
            .operator_transfer_tokens(
                &mut self.runtime.blockstore,
                operator,
                to,
                token_ids,
                RawBytes::default(),
                RawBytes::default(),
            )
            .unwrap();
        hook.call(&mut self.runtime).unwrap()
    }

    fn assert_balance(&self, owner: ActorID, expected: u64) {
        let balance = self.state.get_balance(&self.runtime.blockstore, owner).unwrap();
        assert_eq!(balance, expected);
    }

    fn assert_invariants(&self) {
        let (_, vec) = self.state.check_invariants(&self.runtime.blockstore);
        assert!(vec.is_empty(), "invariants failed: {vec:?}");
    }
}

#[test]
fn state_it_mints_tokens_incrementally() {
    let mut tester = StateTester::new();

    // mint first token
    let res = tester.mint_amount(ALICE_ID, 1);
    // expect balance increase, token id increment
    tester.assert_balance(ALICE_ID, 1);
    assert_eq!(res.token_ids, vec![0]);
    assert_eq!(tester.state.total_supply, 1);

    // mint another token
    let res = tester.mint_amount(ALICE_ID, 1);
    // expect balance increase, token id increment
    tester.assert_balance(ALICE_ID, 2);
    assert_eq!(res.token_ids, vec![1]);
    assert_eq!(tester.state.total_supply, 2);

    // expect another actor to have zero balance by default
    tester.assert_balance(BOB_ID, 0);

    // mint another token to a different actor
    let res = tester.mint_amount(BOB_ID, 1);
    // expect balance increase globally, token id increment
    tester.assert_balance(ALICE_ID, 2);
    tester.assert_balance(BOB_ID, 1);
    assert_eq!(res.token_ids, vec![2]);
    assert_eq!(tester.state.total_supply, 3);

    // mint 0 tokens (manual empty array should succeed)
    let mut hook = tester
        .state
        .mint_tokens(&mut tester.runtime.blockstore, 0, ALICE_ID, vec![], RawBytes::default(), RawBytes::default())
        .unwrap();
    let res = hook.call(&mut tester.runtime).unwrap();
    assert_eq!(res.token_ids, Vec::<TokenID>::default());
    // assert no state change
    tester.assert_balance(ALICE_ID, 2);
    tester.assert_balance(BOB_ID, 1);
    assert_eq!(res.token_ids, Vec::<TokenID>::default());
    assert_eq!(tester.state.total_supply, 3);

    tester.assert_invariants();
}

#[test]
fn state_it_burns_tokens() {
    let mut tester = StateTester::new();
    tester.mint_amount(ALICE_ID, 4);
    tester.assert_balance(ALICE_ID, 4);
    assert_eq!(tester.state.total_supply, 4);

    // burn a non-existent token
    let err = tester.state.burn_tokens(&mut tester.runtime.blockstore, ALICE_ID, &vec![99]).unwrap_err();
    if let StateError::TokenNotFound(token_id) = err {
        assert_eq!(token_id, 99);
    } else {
        panic!("unexpected error: {err:?}");
    }
    // no state change
    assert_eq!(tester.state.total_supply, 4);
    tester.assert_balance(ALICE_ID, 4);

    // burn a token owned by alice
    tester.state.burn_tokens(&mut tester.runtime.blockstore, ALICE_ID, &vec![0]).unwrap();
    // total supply and balance should decrease
    tester.assert_balance(ALICE_ID, 3);
    assert_eq!(tester.state.total_supply, 3);

    // attempt to burn the same token again
    // burn a token owned by alice
    let err = tester.state.burn_tokens(&mut tester.runtime.blockstore, ALICE_ID, &vec![0]).unwrap_err();
    if let StateError::TokenNotFound(token_id) = err {
        assert_eq!(token_id, 0);
    } else {
        panic!("unexpected error: {err:?}");
    }
    // total supply and balance should remain the same
    tester.assert_balance(ALICE_ID, 3);
    assert_eq!(tester.state.total_supply, 3);

    // attempt to burn multiple tokens owned by alice with one invalid token
    tester.state.burn_tokens(&mut tester.runtime.blockstore, ALICE_ID, &vec![0, 1, 2]).unwrap_err();
    // total supply and balance should not change
    tester.assert_balance(ALICE_ID, 3);
    assert_eq!(tester.state.total_supply, 3);

    // attempt to burn multiple tokens owned by alice with one invalid token (invalid token at end)
    tester.state.burn_tokens(&mut tester.runtime.blockstore, ALICE_ID, &vec![1, 2, 0]).unwrap_err();
    // total supply and balance should not change
    tester.assert_balance(ALICE_ID, 3);
    assert_eq!(tester.state.total_supply, 3);

    // attempt to burn multiple tokens owned by alice
    tester.state.burn_tokens(&mut tester.runtime.blockstore, ALICE_ID, &vec![1, 2]).unwrap();
    // total supply and balance should not change
    tester.assert_balance(ALICE_ID, 1);
    assert_eq!(tester.state.total_supply, 1);

    tester.assert_invariants();
}

#[test]
fn state_it_transfers_tokens() {
    let mut tester = StateTester::new();

    // mint two tokens
    tester.mint_amount(ALICE_ID, 3);

    // bob cannot transfer from alice to himself
    let res = tester
        .state
        .transfer_tokens(
            &mut tester.runtime.blockstore,
            BOB_ID,
            BOB_ID,
            &vec![0],
            RawBytes::default(),
            RawBytes::default(),
        )
        .unwrap_err();
    if let StateError::NotOwner { actor: operator, token_id } = res {
        assert_eq!(operator, BOB_ID);
        assert_eq!(token_id, 0);
    } else {
        panic!("unexpected error: {res:?}");
    }

    // alice can transfer to bob
    let res = tester.transfer(ALICE_ID, BOB_ID, &vec![0]);
    tester.assert_balance(ALICE_ID, 2);
    tester.assert_balance(BOB_ID, 1);
    assert_eq!(res.token_ids, vec![0]);

    // alice is unauthorized to transfer that token now
    let res = tester
        .state
        .transfer_tokens(
            &mut tester.runtime.blockstore,
            ALICE_ID,
            ALICE_ID,
            &vec![0],
            RawBytes::default(),
            RawBytes::default(),
        )
        .unwrap_err();
    if let StateError::NotOwner { actor: operator, token_id } = res {
        assert_eq!(operator, ALICE_ID);
        assert_eq!(token_id, 0);
    } else {
        panic!("unexpected error: {res:?}");
    }
    // no state change
    tester.assert_balance(ALICE_ID, 2);
    tester.assert_balance(BOB_ID, 1);

    // but bob can transfer it back
    let res = tester.transfer(BOB_ID, ALICE_ID, &vec![0]);
    tester.assert_balance(ALICE_ID, 3);
    tester.assert_balance(BOB_ID, 0);
    assert_eq!(res.token_ids, vec![0]);
    assert_eq!(res.to, ALICE_ID);

    // transferring a batch fails if any tokens is not valid
    tester
        .state
        .transfer_tokens(
            &mut tester.runtime.blockstore,
            ALICE_ID,
            BOB_ID,
            &vec![1, 99],
            RawBytes::default(),
            RawBytes::default(),
        )
        .unwrap_err();
    tester
        .state
        .transfer_tokens(
            &mut tester.runtime.blockstore,
            ALICE_ID,
            BOB_ID,
            &vec![99, 1],
            RawBytes::default(),
            RawBytes::default(),
        )
        .unwrap_err();
    // or there are duplicates
    let err = tester
        .state
        .transfer_tokens(
            &mut tester.runtime.blockstore,
            ALICE_ID,
            BOB_ID,
            &vec![1, 1, 2],
            RawBytes::default(),
            RawBytes::default(),
        )
        .unwrap_err();
    if let StateError::NotOwner { actor: operator, token_id } = err {
        assert_eq!(operator, ALICE_ID);
        assert_eq!(token_id, 1);
    } else {
        panic!("unexpected error: {res:?}");
    }
    // state unchanged
    tester.assert_balance(ALICE_ID, 3);
    tester.assert_balance(BOB_ID, 0);

    // alice can transfer other two in a batch
    let res = tester.transfer(ALICE_ID, BOB_ID, &vec![1, 2]);
    tester.assert_balance(ALICE_ID, 1);
    tester.assert_balance(BOB_ID, 2);
    assert_eq!(res.token_ids, vec![1, 2]);
    tester.assert_invariants();
}

#[test]
fn state_it_allows_account_level_delegation() {
    let mut tester = StateTester::new();

    // mint a few tokens
    tester.mint_amount(ALICE_ID, 4);

    // bob cannot transfer from alice to himself
    let res = tester
        .state
        .operator_transfer_tokens(
            &mut tester.runtime.blockstore,
            BOB_ID,
            BOB_ID,
            &vec![0],
            RawBytes::default(),
            RawBytes::default(),
        )
        .unwrap_err();
    if let StateError::NotAuthorized { actor: operator, token_id } = res {
        assert_eq!(operator, BOB_ID);
        assert_eq!(token_id, 0);
    } else {
        panic!("unexpected error: {res:?}");
    }

    // approve bob to transfer on behalf of alice
    tester.state.approve_for_owner(&mut tester.runtime.blockstore, ALICE_ID, BOB_ID).unwrap();

    // bob can now transfer from alice to himself
    // but cannot use the incorrect method
    let res = tester
        .state
        .transfer_tokens(
            &mut tester.runtime.blockstore,
            BOB_ID,
            ALICE_ID,
            &vec![0],
            RawBytes::default(),
            RawBytes::default(),
        )
        .unwrap_err();
    if let StateError::NotOwner { actor: operator, token_id } = res {
        assert_eq!(operator, BOB_ID);
        assert_eq!(token_id, 0);
    } else {
        panic!("unexpected error: {res:?}");
    }

    // using correct method succeeds
    let res = tester.operator_transfer(BOB_ID, BOB_ID, &vec![0]);
    tester.assert_balance(ALICE_ID, 3);
    tester.assert_balance(BOB_ID, 1);
    assert_eq!(tester.state.total_supply, 4);
    assert_eq!(res.to, BOB_ID);
    assert_eq!(res.token_ids, vec![0]);

    // alice is unauthorised to transfer that token now
    let res = tester
        .state
        .transfer_tokens(
            &mut tester.runtime.blockstore,
            ALICE_ID,
            ALICE_ID,
            &vec![0],
            RawBytes::default(),
            RawBytes::default(),
        )
        .unwrap_err();
    // because she is no longer the owner
    if let StateError::NotOwner { actor: operator, token_id } = res {
        assert_eq!(operator, ALICE_ID);
        assert_eq!(token_id, 0);
    } else {
        panic!("unexpected error: {res:?}");
    }
    // state was unchanged
    tester.assert_balance(ALICE_ID, 3);
    tester.assert_balance(BOB_ID, 1);

    // but bob can transfer it back
    tester.transfer(BOB_ID, ALICE_ID, &vec![0]);
    tester.assert_balance(ALICE_ID, 4);
    tester.assert_balance(BOB_ID, 0);

    // bob can burn a token for alice
    // but not with the wrong method
    let res = tester.state.burn_tokens(&mut tester.runtime.blockstore, BOB_ID, &vec![1]).unwrap_err();
    if let StateError::NotOwner { actor: operator, token_id } = res {
        assert_eq!(operator, BOB_ID);
        assert_eq!(token_id, 1);
    } else {
        panic!("unexpected error: {res:?}");
    }
    // state was unchanged
    tester.assert_balance(ALICE_ID, 4);
    tester.assert_balance(BOB_ID, 0);
    assert_eq!(tester.state.total_supply, 4);

    // using correct method succeeds
    tester.state.operator_burn_tokens(&mut tester.runtime.blockstore, BOB_ID, &vec![0]).unwrap();
    tester.assert_balance(ALICE_ID, 3);
    tester.assert_balance(BOB_ID, 0);
    assert_eq!(tester.state.total_supply, 3);

    // a newly minted token after approval can be transferred by bob
    let res = tester.mint_amount(ALICE_ID, 1);
    tester.operator_transfer(BOB_ID, BOB_ID, &res.token_ids);
    tester.assert_balance(ALICE_ID, 3);
    tester.assert_balance(BOB_ID, 1);

    // a newly minted token after approval can be burnt by bob
    let res = tester.mint_amount(ALICE_ID, 1);
    tester.state.operator_burn_tokens(&mut tester.runtime.blockstore, BOB_ID, &res.token_ids).unwrap();
    tester.assert_balance(ALICE_ID, 3);
    tester.assert_balance(BOB_ID, 1);

    // bob cannot transfer a batch if any of the tokens is invalid or duplicated
    tester
        .state
        .operator_transfer_tokens(
            &mut tester.runtime.blockstore,
            BOB_ID,
            BOB_ID,
            &res.token_ids, // already transferred
            RawBytes::default(),
            RawBytes::default(),
        )
        .unwrap_err();
    tester
        .state
        .operator_transfer_tokens(
            &mut tester.runtime.blockstore,
            BOB_ID,
            BOB_ID,
            &vec![0, 99], // 99 doesn't exist
            RawBytes::default(),
            RawBytes::default(),
        )
        .unwrap_err();
    tester
        .state
        .operator_transfer_tokens(
            &mut tester.runtime.blockstore,
            BOB_ID,
            BOB_ID,
            &vec![0, 0], // duplicaated
            RawBytes::default(),
            RawBytes::default(),
        )
        .unwrap_err();
    // no state change
    tester.assert_balance(ALICE_ID, 3);
    tester.assert_balance(BOB_ID, 1);

    // bob can batch transfer tokens
    let res = tester.mint_amount(ALICE_ID, 3);
    tester.assert_balance(ALICE_ID, 6);
    tester.assert_balance(BOB_ID, 1);
    let res = tester.operator_transfer(BOB_ID, BOB_ID, &res.token_ids); // transfer the newly minted tokens
    tester.assert_balance(ALICE_ID, 3);
    tester.assert_balance(BOB_ID, 4);

    // bob's authorization can be revoked
    tester.state.revoke_for_all(&mut tester.runtime.blockstore, ALICE_ID, BOB_ID).unwrap();
    // cannot transfer
    let err = tester
        .state
        .operator_transfer_tokens(
            &mut tester.runtime.blockstore,
            BOB_ID,
            BOB_ID,
            &vec![res.token_ids[1]],
            RawBytes::default(),
            RawBytes::default(),
        )
        .unwrap_err();
    if let StateError::NotAuthorized { actor: operator, token_id } = err {
        assert_eq!(operator, BOB_ID);
        assert_eq!(token_id, res.token_ids[1]);
    } else {
        panic!("unexpected error: {err:?}");
    }
    // cannot burn
    tester.state.operator_burn_tokens(&mut tester.runtime.blockstore, BOB_ID, &vec![res.token_ids[1]]).unwrap_err();
    if let StateError::NotAuthorized { actor: operator, token_id } = err {
        assert_eq!(operator, BOB_ID);
        assert_eq!(token_id, res.token_ids[1]);
    } else {
        panic!("unexpected error: {err:?}");
    }
    // state didn't change
    tester.assert_balance(ALICE_ID, 3);
    tester.assert_balance(BOB_ID, 4);

    tester.assert_invariants();
}

#[test]
fn state_it_allows_token_level_delegation() {
    let mut tester = StateTester::new();

    if let [token_0, token_1] = tester.mint_amount(ALICE_ID, 2).token_ids[..] {
        // neither bob nor charlie can transfer either token
        tester
            .state
            .operator_transfer_tokens(
                &mut tester.runtime.blockstore,
                BOB_ID,
                BOB_ID,
                &vec![token_0],
                RawBytes::default(),
                RawBytes::default(),
            )
            .unwrap_err();
        tester
            .state
            .operator_transfer_tokens(
                &mut tester.runtime.blockstore,
                CHARLIE_ID,
                BOB_ID,
                &vec![token_0],
                RawBytes::default(),
                RawBytes::default(),
            )
            .unwrap_err();
        tester
            .state
            .operator_transfer_tokens(
                &mut tester.runtime.blockstore,
                BOB_ID,
                BOB_ID,
                &vec![token_1],
                RawBytes::default(),
                RawBytes::default(),
            )
            .unwrap_err();
        tester
            .state
            .operator_transfer_tokens(
                &mut tester.runtime.blockstore,
                CHARLIE_ID,
                BOB_ID,
                &vec![token_1],
                RawBytes::default(),
                RawBytes::default(),
            )
            .unwrap_err();

        // neither bob nor charlie can burn either token
        tester.state.operator_burn_tokens(&mut tester.runtime.blockstore, BOB_ID, &vec![token_0]).unwrap_err();
        tester.state.operator_burn_tokens(&mut tester.runtime.blockstore, CHARLIE_ID, &vec![token_0]).unwrap_err();
        tester.state.operator_burn_tokens(&mut tester.runtime.blockstore, BOB_ID, &vec![token_1]).unwrap_err();
        tester.state.operator_burn_tokens(&mut tester.runtime.blockstore, CHARLIE_ID, &vec![token_1]).unwrap_err();

        // state didn't change
        tester.assert_balance(ALICE_ID, 2);
        tester.assert_balance(BOB_ID, 0);
        tester.assert_balance(CHARLIE_ID, 0);

        // charlie cannot not approve bob or charlie for a token owned by alice
        tester
            .state
            .approve_for_tokens(&mut tester.runtime.blockstore, CHARLIE_ID, BOB_ID, &vec![token_0])
            .unwrap_err();
        let res = tester
            .state
            .approve_for_tokens(&mut tester.runtime.blockstore, CHARLIE_ID, CHARLIE_ID, &vec![token_0])
            .unwrap_err();
        if let StateError::NotOwner { actor, token_id } = res {
            assert_eq!(actor, CHARLIE_ID);
            assert_eq!(token_id, token_0);
        } else {
            panic!("unexpected error: {res:?}");
        }

        // alice approves bob and charlie as operators
        tester.state.approve_for_tokens(&mut tester.runtime.blockstore, ALICE_ID, BOB_ID, &vec![token_0]).unwrap();
        tester.state.approve_for_tokens(&mut tester.runtime.blockstore, ALICE_ID, BOB_ID, &vec![token_1]).unwrap();
        tester.state.approve_for_tokens(&mut tester.runtime.blockstore, ALICE_ID, CHARLIE_ID, &vec![token_1]).unwrap();

        // charlie still can't transfer token_0
        let res = tester
            .state
            .operator_transfer_tokens(
                &mut tester.runtime.blockstore,
                CHARLIE_ID,
                CHARLIE_ID,
                &vec![token_0],
                RawBytes::default(),
                RawBytes::default(),
            )
            .unwrap_err();
        if let StateError::NotAuthorized { actor, token_id } = res {
            assert_eq!(actor, CHARLIE_ID);
            assert_eq!(token_id, token_0);
        } else {
            panic!("unexpected error: {res:?}");
        }
        // charlie still can't burn token_0
        tester.state.operator_burn_tokens(&mut tester.runtime.blockstore, CHARLIE_ID, &vec![token_0]).unwrap_err();

        // but bob can transfer token_0
        tester.operator_transfer(BOB_ID, BOB_ID, &vec![token_0]);
        tester.assert_balance(ALICE_ID, 1);
        tester.assert_balance(BOB_ID, 1);
        tester.assert_balance(CHARLIE_ID, 0);

        // charlie can transfer token_1
        tester.operator_transfer(CHARLIE_ID, CHARLIE_ID, &vec![token_1]);
        tester.assert_balance(ALICE_ID, 0);
        tester.assert_balance(BOB_ID, 1);
        tester.assert_balance(CHARLIE_ID, 1);

        // but after that, bob can no longer transfer it (approvals were reset)
        tester
            .state
            .operator_transfer_tokens(
                &mut tester.runtime.blockstore,
                BOB_ID,
                CHARLIE_ID,
                &vec![token_1],
                RawBytes::default(),
                RawBytes::default(),
            )
            .unwrap_err();
        // state was unchanged
        tester.assert_balance(ALICE_ID, 0);
        tester.assert_balance(BOB_ID, 1);
        tester.assert_balance(CHARLIE_ID, 1);

        // charlie can approve bob to for token_1
        tester.state.approve_for_tokens(&mut tester.runtime.blockstore, CHARLIE_ID, BOB_ID, &vec![token_1]).unwrap();
        // now bob can burn token_1
        // but not with the wrong method
        tester.state.burn_tokens(&mut tester.runtime.blockstore, BOB_ID, &vec![token_1]).unwrap_err();
        // state was unchanged
        tester.assert_balance(ALICE_ID, 0);
        tester.assert_balance(BOB_ID, 1);
        tester.assert_balance(CHARLIE_ID, 1);
        // using the correct method succeeds
        tester.state.operator_burn_tokens(&mut tester.runtime.blockstore, BOB_ID, &vec![token_1]).unwrap();
        // the token disappears
        tester.assert_balance(ALICE_ID, 0);
        tester.assert_balance(BOB_ID, 1);
        tester.assert_balance(CHARLIE_ID, 0);

        // total supply is updated
        assert_eq!(tester.state.total_supply, 1);
    }
    tester.assert_invariants();
}

#[test]
fn a_token_is_handed_on_without_asking() {
    let mut tester = StateTester::new();
    tester.mint_amount(ALICE_ID, 2);
    tester.state.make_transfer(&mut tester.runtime.blockstore, 1, BOB_ID).unwrap();
    assert_eq!(tester.state.get_owner(&tester.runtime.blockstore, 0).unwrap(), ALICE_ID);
    assert_eq!(tester.state.get_owner(&tester.runtime.blockstore, 1).unwrap(), BOB_ID);
    tester.assert_balance(ALICE_ID, 1);
    tester.assert_balance(BOB_ID, 1);
    assert!(matches!(
        tester.state.make_transfer(&mut tester.runtime.blockstore, 7, BOB_ID),
        Err(StateError::TokenNotFound(7))
    ));
    tester.assert_invariants();
}

#[test]
fn a_token_is_owned_by_its_owner_alone() {
    let mut tester = StateTester::new();
    tester.mint_amount(ALICE_ID, 1);
    let bs = &tester.runtime.blockstore;
    assert_eq!(tester.state.owns_token(bs, ALICE_ID, 0).unwrap().owner, ALICE_ID);
    assert!(matches!(
        tester.state.owns_token(bs, BOB_ID, 0),
        Err(StateError::NotOwner { actor: BOB_ID, token_id: 0 })
    ));
    assert!(matches!(
        tester.state.owns_token(bs, ALICE_ID, 1),
        Err(StateError::TokenNotFound(1))
    ));
}

#[test]
fn operators_are_approved_for_one_token_or_for_all() {
    let mut tester = StateTester::new();
    tester.mint_amount(ALICE_ID, 2);
    let bs = &mut tester.runtime.blockstore;
    assert!(!tester.state.approved_for_token(bs, BOB_ID, 0).unwrap());
    tester.state.approve_for_tokens(bs, ALICE_ID, BOB_ID, &vec![0]).unwrap();
    assert!(tester.state.approved_for_token(bs, BOB_ID, 0).unwrap());
    assert!(!tester.state.approved_for_token(bs, BOB_ID, 1).unwrap());
    tester.state.approve_for_owner(bs, ALICE_ID, CHARLIE_ID).unwrap();
    assert!(tester.state.approved_for_token(bs, CHARLIE_ID, 0).unwrap());
    assert!(tester.state.approved_for_token(bs, CHARLIE_ID, 1).unwrap());
    assert!(matches!(
        tester.state.approved_for_token(bs, BOB_ID, 2),
        Err(StateError::InvariantFailed(_))
    ));
}

#[test]
fn operators_are_listed_in_order_and_once() {
    assert!(NFTState::assert_operator_array(&vec![]).is_ok());
    assert!(NFTState::assert_operator_array(&vec![9]).is_ok());
    assert!(NFTState::assert_operator_array(&vec![1, 2, 9]).is_ok());
    assert!(NFTState::assert_operator_array(&vec![1, 1]).is_err());
    assert!(NFTState::assert_operator_array(&vec![1, 9, 2]).is_err());
}
