use actors_utils::bits::OperatorSet;
use actors_utils::bytes::ActorID;
use fvm_ipld_bitfield::BitField;

#[test]
fn util_test_idempotent_add() {
    let mut operators: Vec<ActorID> = vec![];
    operators.add_operator(1);
    operators.add_operator(1);
    operators.add_operator(1);

    assert!(operators.contains_actor(&1));
    assert!(operators.len() == 1);

    operators.add_operator(2);
    operators.add_operator(2);
    operators.add_operator(1);
    assert!(operators.contains_actor(&1));
    assert!(operators.contains_actor(&2));
    assert!(operators.len() == 2);
}

#[test]
fn util_test_ordered_add() {
    let mut operators: Vec<ActorID> = vec![];
    operators.add_operator(2);
    operators.add_operator(3);
    operators.add_operator(5);
    operators.add_operator(1);
    operators.add_operator(4);

    assert!(operators.len() == 5);
    assert_eq!(operators, vec![1, 2, 3, 4, 5]);
}

#[test]
fn util_test_removal() {
    let mut operators: Vec<ActorID> = vec![];
    operators.add_operator(2);
    operators.add_operator(3);
    operators.add_operator(5);
    operators.add_operator(1);
    operators.add_operator(4);

    operators.remove_operator(&2);
    operators.remove_operator(&2);

    assert!(operators.len() == 4);
    assert_eq!(operators, vec![1, 3, 4, 5]);

    operators.remove_operator(&4);
    operators.remove_operator(&4);
    assert!(operators.len() == 3);
    assert_eq!(operators, vec![1, 3, 5]);
}

#[test]
fn bitfield_test_idempotent_add() {
    let mut operators: BitField = BitField::default();
    operators.add_operator(1);
    operators.add_operator(1);
    operators.add_operator(1);

    assert!(operators.contains_actor(&1));
    assert!(operators.len() == 1);

    operators.add_operator(2);
    operators.add_operator(2);
    operators.add_operator(1);
    assert!(operators.contains_actor(&1));
    assert!(operators.contains_actor(&2));
    assert!(operators.len() == 2);
}

#[test]
fn bitfield_test_ordered_add() {
    let mut operators: BitField = BitField::default();
    operators.add_operator(2);
    operators.add_operator(3);
    operators.add_operator(5);
    operators.add_operator(1);
    operators.add_operator(4);

    assert!(operators.len() == 5);
    assert!(operators.get(1));
    assert!(operators.get(2));
    assert!(operators.get(3));
    assert!(operators.get(4));
    assert!(operators.get(5));
}

#[test]
fn bitfield_test_removal() {
    let mut operators: BitField = BitField::default();
    operators.add_operator(2);
    operators.add_operator(3);
    operators.add_operator(5);
    operators.add_operator(1);
    operators.add_operator(4);

    operators.remove_operator(&2);
    operators.remove_operator(&2);

    assert!(operators.len() == 4);
    assert!(operators.get(1));
    assert!(!operators.get(2));
    assert!(operators.get(3));
    assert!(operators.get(4));
    assert!(operators.get(5));

    operators.remove_operator(&4);

    assert!(operators.len() == 3);
    assert!(operators.get(1));
    assert!(!operators.get(2));
    assert!(operators.get(3));
    assert!(!operators.get(4));
    assert!(operators.get(5));
}
