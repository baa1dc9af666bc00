use actors_utils::address::{Address, Payload};
use actors_utils::amount::TokenAmount;
use actors_utils::bytes::{ActorID, Cid, IpldBlock, RawBytes, CBOR};
use actors_utils::exit::ErrorNumber;
use actors_utils::frc46_factory_token::actor::{
    construct_token, ConstructorParams, FactoryActor, MintParams, Roots,
};
use actors_utils::frc46_factory_token::dispatch::{
    frc46_invoke, frc46_method, frc46_unpack_params, Call, Frc46Method, ParamsError, Reply,
};
use actors_utils::frc46_factory_token::error::RuntimeError;
use actors_utils::frc46_factory_token::invoke::{
    factory_method, token_invoke, FactoryCall, FactoryMethod, FactoryReply,
};
use actors_utils::frc46_factory_token::state::FactoryToken;
use actors_utils::frc46_token::state::TokenState;
use actors_utils::frc46_token::types::{
    BurnFromParams, BurnParams, DecreaseAllowanceParams, FRC46Token, GetAllowanceParams,
    IncreaseAllowanceParams, RevokeAllowanceParams, TransferFromParams, TransferParams,
};
use actors_utils::fvm_actor_utils::fake_syscalls::FakeSyscalls;
use actors_utils::fvm_actor_utils::util::ActorRuntime;
use actors_utils::store::Store;

const MINTER: ActorID = 10;
const ALICE: ActorID = 11;
const BOB: ActorID = 12;

/// Keeps the roots that were set
#[derive(Default)]
struct Kept {
    roots: Vec<Cid>,
    fails: bool,
    changed: Vec<Vec<u8>>,
    lost: bool,
}

impl Roots for Kept {
    fn set_root(&mut self, bs: &Store, cid: &Cid) -> Result<(), ErrorNumber> {
        assert!(bs.get(cid).is_some());
        if self.fails {
            return Err(ErrorNumber::ReadOnly);
        }
        self.roots.push(cid.clone());
        Ok(())
    }

    fn blocks_under(&mut self, _: &Cid) -> Result<Vec<Vec<u8>>, ErrorNumber> {
        if self.lost {
            return Err(ErrorNumber::NotFound);
        }
        Ok(self.changed.clone())
    }
}

type Actor<'st> = FactoryActor<'st, FakeSyscalls, Kept>;

fn atto(n: i128) -> TokenAmount {
    TokenAmount::from_atto(n)
}

fn params() -> ConstructorParams {
    ConstructorParams {
        name: "Test".to_string(),
        symbol: "TST".to_string(),
        granularity: 1,
        minter: Address::new_id(MINTER),
    }
}

/// A token without a supply, of which some actor called
fn with_actor<F: FnOnce(&mut Actor<'_>)>(caller: ActorID, f: F) {
    let mut runtime = ActorRuntime::<FakeSyscalls>::new_test_runtime();
    let mut kept = Kept::default();
    let root = construct_token(&mut runtime, &mut kept, params()).unwrap();
    assert_eq!(kept.roots, vec![root.clone()]);
    runtime.syscalls.root = root.clone();
    let loaded = FactoryToken::load(&runtime.blockstore, &root).unwrap();
    let mut state = TokenState::new(&mut Store::new()).unwrap();
    let mut actor = FactoryActor::open(runtime, kept, caller, loaded, &mut state);
    f(&mut actor);
}

fn mint(actor: &mut Actor<'_>, owner: ActorID, amount: i128) {
    let caller = actor.caller;
    actor.caller = MINTER;
    let token = &mut actor.token;
    token
        .mint(
            &Address::new_id(MINTER),
            &Address::new_id(owner),
            &atto(amount),
            RawBytes::default(),
            RawBytes::default(),
        )
        .unwrap();
    let root = actor.flush().unwrap();
    actor.token.runtime.syscalls.root = root;
    actor.caller = caller;
}

#[test]
fn a_new_token_has_what_it_was_made_with() {
    with_actor(ALICE, |actor| {
        assert_eq!(actor.name(), "Test");
        assert_eq!(actor.symbol(), "TST");
        assert_eq!(actor.granularity(), 1);
        assert_eq!(actor.total_supply(), atto(0));
        assert_eq!(actor.minter, Some(MINTER));
    });
}

#[test]
fn the_minter_has_to_be_an_actor() {
    let mut runtime = ActorRuntime::<FakeSyscalls>::new_test_runtime();
    let mut kept = Kept::default();
    let mut params = params();
    params.minter = Address { payload: Payload::BLS(vec![0; 48]) };
    let err = construct_token(&mut runtime, &mut kept, params).unwrap_err();
    assert!(matches!(err, RuntimeError::Messaging(_)));
    assert!(kept.roots.is_empty());
}

#[test]
fn a_root_that_cannot_be_set_is_reported() {
    let mut runtime = ActorRuntime::<FakeSyscalls>::new_test_runtime();
    let mut kept = Kept { fails: true, ..Default::default() };
    let err = construct_token(&mut runtime, &mut kept, params()).unwrap_err();
    assert!(matches!(err, RuntimeError::Blockstore(ErrorNumber::ReadOnly)));
}

#[test]
fn a_token_that_is_not_there_is_not_loaded() {
    let err = FactoryToken::load(&Store::new(), &Cid::default()).unwrap_err();
    assert!(matches!(err, RuntimeError::Deserialization(_)));
}

#[test]
fn only_the_minter_mints() {
    with_actor(ALICE, |actor| {
        let params = MintParams {
            initial_owner: Address::new_id(ALICE),
            amount: atto(100),
            operator_data: RawBytes::default(),
        };
        match actor.mint(params) {
            Err(RuntimeError::Serialization(text)) => assert_eq!(text, "caller 11 minter 10"),
            other => panic!("unexpected {other:?}"),
        }
        assert_eq!(actor.total_supply(), atto(0));
        assert!(actor.token.runtime.syscalls.last_message.is_none());
    });
}

#[test]
fn the_minter_mints() {
    with_actor(MINTER, |actor| {
        let params = MintParams {
            initial_owner: Address::new_id(ALICE),
            amount: atto(100),
            operator_data: RawBytes::default(),
        };
        // the actor's root stays the empty token here, so that is taken over after the hook
        let minted = actor.mint(params).unwrap();
        assert_eq!(minted.supply, atto(0));
        assert_eq!(minted.balance, atto(0));
        // the flushed state holds the tokens, and the receiver was told
        let root = actor.roots.roots.last().unwrap().clone();
        let flushed = FactoryToken::load(&actor.token.runtime.blockstore, &root).unwrap();
        assert_eq!(flushed.token.supply, atto(100));
        assert!(actor.token.runtime.syscalls.last_message.is_some());
        // with the root set, the tokens are there
        actor.token.runtime.syscalls.root = root;
        actor.reload(&Cid::default()).unwrap();
        assert_eq!(actor.balance_of(Address::new_id(ALICE)).unwrap(), atto(100));
    });
}

#[test]
fn a_changed_state_is_taken_over() {
    with_actor(ALICE, |actor| {
        // another token, made elsewhere
        let mut elsewhere = Store::new();
        let other =
            FactoryToken::new(&mut elsewhere, "Other".to_string(), "O".to_string(), 7, None)
                .unwrap();
        let root = other.save(&mut elsewhere).unwrap();
        let before = actor.token.runtime.syscalls.root.clone();
        actor.token.runtime.syscalls.root = root.clone();

        // its blocks are not there
        actor.roots.lost = true;
        assert!(matches!(actor.reload(&before), Err(RuntimeError::Blockstore(_))));
        actor.roots.lost = false;
        assert!(matches!(actor.reload(&before), Err(RuntimeError::Deserialization(_))));
        assert_eq!(actor.name(), "Test");

        actor.roots.changed = vec![elsewhere.get(&root).unwrap()];
        actor.reload(&before).unwrap();
        assert_eq!(actor.name(), "Other");
        assert_eq!(actor.granularity(), 7);
        assert_eq!(actor.minter, None);

        // a token without a granularity can still be read
        let bare =
            FactoryToken::new(&mut elsewhere, "Bare".to_string(), "B".to_string(), 0, None)
                .unwrap();
        let root = bare.save(&mut elsewhere).unwrap();
        actor.token.runtime.syscalls.root = root.clone();
        actor.roots.changed = vec![
            elsewhere.get(&root).unwrap(),
            elsewhere.get(&bare.token.balances).unwrap(),
            elsewhere.get(&bare.token.allowances).unwrap(),
        ];
        actor.reload(&before).unwrap();
        assert_eq!(actor.name(), "Bare");
        assert_eq!(actor.granularity(), 0);
        assert_eq!(actor.balance_of(Address::new_id(ALICE)).unwrap(), atto(0));
    });
}

#[test]
fn a_token_that_cannot_be_read_is_taken_over_but_not_worked_with() {
    with_actor(ALICE, |actor| {
        mint(actor, ALICE, 100);
        let mut elsewhere = Store::new();
        let mut wide =
            FactoryToken::new(&mut elsewhere, "Wide".to_string(), "W".to_string(), 1, None)
                .unwrap();
        wide.token.hamt_bit_width = 32;
        let root = wide.save(&mut elsewhere).unwrap();
        actor.token.runtime.syscalls.root = root.clone();
        actor.roots.changed = vec![elsewhere.get(&root).unwrap()];
        let params = TransferParams {
            to: Address::new_id(BOB),
            amount: atto(1),
            operator_data: RawBytes::default(),
        };
        assert!(matches!(actor.transfer(params), Err(RuntimeError::Deserialization(_))));
        assert_eq!(actor.name(), "Wide");
        // taking it over again is no failure
        actor.reload(&Cid::default()).unwrap();
        assert_eq!(actor.token.state().hamt_bit_width, 32);
    });
}

#[test]
fn a_transfer_is_answered_with_the_balances_when_the_root_is_its_own() {
    with_actor(ALICE, |actor| {
        mint(actor, ALICE, 100);
        // learn what the flushed root will be, then begin again with that as the actor's root
        let start = actor.token.state().clone();
        let params = || TransferParams {
            to: Address::new_id(BOB),
            amount: atto(40),
            operator_data: RawBytes::default(),
        };
        actor.transfer(params()).unwrap();
        let root = actor.roots.roots.last().unwrap().clone();
        actor.token.replace(start);
        actor.token.runtime.syscalls.root = root.clone();
        let done = actor.transfer(params()).unwrap();
        assert_eq!(actor.roots.roots.last(), Some(&root));
        assert_eq!(done.from_balance, atto(60));
        assert_eq!(done.to_balance, atto(40));
    });
}

#[test]
fn minting_is_disabled_for_good() {
    with_actor(ALICE, |actor| {
        assert!(matches!(actor.disable_mint(), Err(RuntimeError::AddressNotAuthorized)));
        assert_eq!(actor.minter, Some(MINTER));
        actor.caller = MINTER;
        actor.disable_mint().unwrap();
        assert!(matches!(actor.disable_mint(), Err(RuntimeError::MintingDisabled)));
        let params = MintParams {
            initial_owner: Address::new_id(ALICE),
            amount: atto(100),
            operator_data: RawBytes::default(),
        };
        assert!(matches!(actor.mint(params), Err(RuntimeError::MintingDisabled)));
        // it stays disabled in what is saved
        let root = actor.save().unwrap();
        let loaded = FactoryToken::load(&actor.token.runtime.blockstore, &root).unwrap();
        assert_eq!(loaded.minter, None);
        assert_eq!(loaded.name, "Test");
    });
}

fn flush(actor: &mut Actor<'_>) -> Result<(), RuntimeError> {
    let root = actor.flush()?;
    actor.token.runtime.syscalls.root = root;
    Ok(())
}

#[test]
fn methods_are_called_by_their_calls() {
    with_actor(ALICE, |actor| {
        mint(actor, ALICE, 100);
        let invoke = |actor: &mut Actor<'_>, call: Call| frc46_invoke(call, actor, flush);
        let alice = Address::new_id(ALICE);
        let bob = Address::new_id(BOB);

        assert_eq!(invoke(actor, Call::Name).unwrap(), Reply::Text("Test".to_string()));
        assert_eq!(invoke(actor, Call::Symbol).unwrap(), Reply::Text("TST".to_string()));
        assert_eq!(invoke(actor, Call::Granularity).unwrap(), Reply::Granularity(1));
        assert_eq!(invoke(actor, Call::TotalSupply).unwrap(), Reply::Amount(atto(100)));
        let call = Call::BalanceOf(alice.clone());
        assert_eq!(invoke(actor, call).unwrap(), Reply::Amount(atto(100)));

        // these change the state, and flush it
        let flushed = actor.roots.roots.len();
        let call = Call::IncreaseAllowance(IncreaseAllowanceParams {
            operator: bob.clone(),
            increase: atto(50),
        });
        assert_eq!(invoke(actor, call).unwrap(), Reply::Amount(atto(50)));
        let call = Call::DecreaseAllowance(DecreaseAllowanceParams {
            operator: bob.clone(),
            decrease: atto(20),
        });
        assert_eq!(invoke(actor, call).unwrap(), Reply::Amount(atto(30)));
        let call = Call::Allowance(GetAllowanceParams {
            owner: alice.clone(),
            operator: bob.clone(),
        });
        assert_eq!(invoke(actor, call).unwrap(), Reply::Amount(atto(30)));
        match invoke(actor, Call::Burn(BurnParams { amount: atto(10) })).unwrap() {
            Reply::Burn(burnt) => assert_eq!(burnt.balance, atto(90)),
            other => panic!("unexpected {other:?}"),
        }
        actor.caller = BOB;
        let call = Call::BurnFrom(BurnFromParams { owner: alice.clone(), amount: atto(5) });
        match invoke(actor, call).unwrap() {
            Reply::BurnFrom(burnt) => {
                assert_eq!(burnt.balance, atto(85));
                assert_eq!(burnt.allowance, atto(25));
            }
            other => panic!("unexpected {other:?}"),
        }
        actor.caller = ALICE;
        let call = Call::RevokeAllowance(RevokeAllowanceParams { operator: bob.clone() });
        assert_eq!(invoke(actor, call).unwrap(), Reply::Nothing);
        assert_eq!(actor.roots.roots.len(), flushed + 5);

        // a call that fails flushes nothing
        let call = Call::Burn(BurnParams { amount: atto(1000) });
        assert!(matches!(invoke(actor, call), Err(RuntimeError::Token(_))));
        assert_eq!(actor.roots.roots.len(), flushed + 5);
    });
}

#[test]
fn transfers_call_the_receiver() {
    with_actor(ALICE, |actor| {
        mint(actor, ALICE, 100);
        let flushed = actor.roots.roots.len();
        let call = Call::Transfer(TransferParams {
            to: Address::new_id(BOB),
            amount: atto(60),
            operator_data: RawBytes::default(),
        });
        // the root of the fake actor does not follow, so the state before is taken over again
        match frc46_invoke(call, actor, flush).unwrap() {
            Reply::Transfer(done) => {
                assert_eq!((done.from_balance, done.to_balance), (atto(100), atto(0)))
            }
            other => panic!("unexpected {other:?}"),
        }
        assert_eq!(actor.roots.roots.len(), flushed + 1);
        let root = actor.roots.roots.last().unwrap().clone();
        actor.token.runtime.syscalls.root = root;
        actor.reload(&Cid::default()).unwrap();
        assert_eq!(actor.balance_of(Address::new_id(BOB)).unwrap(), atto(60));

        actor.caller = BOB;
        let call = Call::TransferFrom(TransferFromParams {
            from: Address::new_id(ALICE),
            to: Address::new_id(BOB),
            amount: atto(1),
            operator_data: RawBytes::default(),
        });
        assert!(matches!(frc46_invoke(call, actor, flush), Err(RuntimeError::Token(_))));
    });
}

#[test]
fn a_receiver_that_cannot_be_called_is_reported() {
    with_actor(ALICE, |actor| {
        mint(actor, ALICE, 100);
        actor.token.runtime.syscalls.abort_next_send = true;
        let params = TransferParams {
            to: Address::new_id(BOB),
            amount: atto(60),
            operator_data: RawBytes::default(),
        };
        assert!(matches!(actor.transfer(params), Err(RuntimeError::Receiver(_))));
    });
}

#[test]
fn the_actor_disables_minting_and_saves() {
    with_actor(MINTER, |actor| {
        let flushed = actor.roots.roots.len();
        let reply = token_invoke(FactoryCall::DisableMint, actor, flush).unwrap();
        assert!(matches!(reply, FactoryReply::Token(Reply::Nothing)));
        assert_eq!(actor.roots.roots.len(), flushed + 1);
        let err = token_invoke(FactoryCall::DisableMint, actor, flush).unwrap_err();
        assert!(matches!(err, RuntimeError::MintingDisabled));
        let reply = token_invoke(FactoryCall::Token(Call::TotalSupply), actor, flush).unwrap();
        assert!(matches!(reply, FactoryReply::Token(Reply::Amount(_))));
    });
}

#[test]
fn methods_have_their_numbers() {
    assert_eq!(frc46_method(48890204), Some(Frc46Method::Name));
    assert_eq!(frc46_method(80475954), Some(Frc46Method::Transfer));
    assert_eq!(frc46_method(3621052141), Some(Frc46Method::TransferFrom));
    assert_eq!(frc46_method(1), None);
    assert_eq!(factory_method(1), Some(FactoryMethod::Constructor));
    assert_eq!(factory_method(116935346), Some(FactoryMethod::Mint));
    assert_eq!(factory_method(3092795173), Some(FactoryMethod::DisableMint));
    assert_eq!(
        factory_method(1434719642),
        Some(FactoryMethod::Token(Frc46Method::Burn))
    );
    assert_eq!(factory_method(2), None);
}

#[test]
fn parameters_are_unpacked() {
    let block = IpldBlock { codec: CBOR, data: vec![0x80] };
    assert_eq!(frc46_unpack_params(Ok(Some(block.clone()))), Ok(block));
    assert_eq!(frc46_unpack_params(Ok(None)), Err(ParamsError::Missing));
    let failed = frc46_unpack_params(Err(ErrorNumber::IllegalOperation));
    assert_eq!(failed, Err(ParamsError::Raw(ErrorNumber::IllegalOperation)));
}
