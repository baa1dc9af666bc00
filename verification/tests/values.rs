use actors_utils::address::{Address, AddressError, Payload, Protocol};
use actors_utils::amount::{TokenAmount, TOKEN_PRECISION};
use actors_utils::bytes::{Cid, RawBytes};
use actors_utils::exit::{ExitCode, OK};
use actors_utils::keys::{actor_id_key, decode_actor_id, BytesKey};
use actors_utils::store::Store;

fn atto(n: i128) -> TokenAmount {
    TokenAmount::from_atto(n)
}

#[test]
fn amounts_add_up() {
    assert_eq!(atto(2).plus(&atto(3)), atto(5));
    assert_eq!(atto(2).minus(&atto(3)), atto(-1));
    assert_eq!(atto(5).neg(), atto(-5));
    assert_eq!(atto(0).neg(), TokenAmount::zero());
    assert_eq!(atto(-5).plus(&atto(5)), TokenAmount::zero());
    assert_eq!(TokenAmount::default(), TokenAmount::zero());
}

#[test]
fn amounts_have_no_largest_value() {
    let large = atto(i128::MAX);
    let twice = large.plus(&large);
    assert!(large.lt(&twice));
    assert_eq!(twice.minus(&large), large);
    let low = atto(i128::MIN);
    assert!(low.plus(&low).lt(&low));
}

#[test]
fn amounts_compare() {
    assert!(atto(-1).lt(&atto(0)));
    assert!(!atto(0).lt(&atto(0)));
    assert!(atto(1).lt(&atto(2)));
    assert_eq!(atto(1).max(&atto(2)), atto(2));
    assert_eq!(atto(1).max(&atto(-2)), atto(1));
    assert!(atto(7).same(&atto(7)));
    assert!(!atto(7).same(&atto(-7)));
    assert!(atto(-1).is_negative());
    assert!(!atto(0).is_negative());
    assert!(atto(0).is_zero());
    assert!(!atto(1).is_zero());
}

#[test]
fn whole_tokens_are_counted_in_the_smallest_unit() {
    assert_eq!(TokenAmount::from_whole(1), atto(TOKEN_PRECISION as i128));
    assert_eq!(TokenAmount::from_whole(-3), atto(-3_000_000_000_000_000_000));
}

#[test]
fn amounts_divide_with_a_remainder() {
    assert_eq!(atto(17).div_rem(5), (atto(3), atto(2)));
    assert_eq!(atto(20).div_rem(5), (atto(4), atto(0)));
    assert!(atto(100).is_multiple_of(50));
    assert!(!atto(99).is_multiple_of(50));
    assert!(atto(0).is_multiple_of(50));
}

#[test]
fn keys_name_their_actors() {
    assert_eq!(actor_id_key(0), BytesKey { bytes: vec![0] });
    assert_eq!(actor_id_key(127), BytesKey { bytes: vec![127] });
    assert_eq!(actor_id_key(128), BytesKey { bytes: vec![0x80, 1] });
    assert_eq!(actor_id_key(300), BytesKey { bytes: vec![0xac, 2] });
    for id in [0, 1, 127, 128, 300, u64::MAX] {
        assert_eq!(decode_actor_id(&actor_id_key(id)), Some(id));
    }
    // a number that does not end, and no number
    assert_eq!(decode_actor_id(&BytesKey { bytes: vec![0x80] }), None);
    assert_eq!(decode_actor_id(&BytesKey { bytes: vec![] }), None);
}

#[test]
fn addresses_know_their_kind() {
    let id = Address::new_id(7);
    assert_eq!(id.protocol(), Protocol::ID);
    assert_eq!(id.id(), Ok(7));
    let key = Address { payload: Payload::BLS(vec![0; 48]) };
    assert_eq!(key.protocol(), Protocol::BLS);
    assert_eq!(key.id(), Err(AddressError::NonIDAddress));
    assert!(id.same(&Address::new_id(7)));
    assert!(!id.same(&Address::new_id(8)));
    assert!(!id.same(&key));
    assert_eq!(key.clone(), key);
}

#[test]
fn zero_is_success() {
    assert!(ExitCode::new(OK).is_success());
    assert!(!ExitCode::new(16).is_success());
}

#[test]
fn blocks_are_found_under_their_identifiers() {
    let mut store = Store::new();
    let a = store.put(vec![0x01]);
    let b = store.put(vec![0x02]);
    assert!(!a.same(&b));
    assert_eq!(store.put(vec![0x01]), a);
    assert_eq!(store.get(&a), Some(vec![0x01]));
    assert_eq!(store.get(&b), Some(vec![0x02]));
    assert_eq!(store.get(&Cid::default()), None);
    // the identifier is version 1, of CBOR, with a hash of 32 bytes
    assert_eq!(a.to_bytes()[0..2], [0x01, 0x71]);
    assert_eq!(a.to_bytes().len(), 38);
    // nothing may follow it
    let mut longer = a.to_bytes();
    longer.push(0);
    assert_eq!(Cid::from_bytes(longer), None);
    assert_eq!(Cid::from_bytes(a.to_bytes()), Some(a));
    assert_eq!(Cid::from_bytes(vec![]), None);
}

#[test]
fn a_copied_store_holds_the_same_blocks() {
    let mut store = Store::new();
    let a = store.put(vec![0x01]);
    let mut copy = store.clone();
    let b = copy.put(vec![0x02]);
    assert_eq!(copy.get(&a), Some(vec![0x01]));
    assert_eq!(store.get(&b), None);
    assert_eq!(copy.get(&b), Some(vec![0x02]));
}

#[test]
fn raw_bytes_are_kept_as_they_are() {
    assert_eq!(RawBytes::new(vec![1, 2]).bytes(), &vec![1, 2]);
    assert_eq!(RawBytes::default().bytes(), &Vec::<u8>::new());
}
